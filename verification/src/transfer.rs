//! One regular-file transfer: the checks around the copy, and a machine that names the
//! filesystem step to take next and decides from what each step reported.
use vstd::prelude::*;

use crate::domain::{ConflictPolicy, DestinationExpectation, EntryKind, TransferDirection};
use crate::fspath;
use crate::fspath::{std_path_file_name, std_path_join, std_path_parent};
use crate::text;
use crate::text::{chars_of, decimal_string, owned, rfind_char, slice_chars, string_from_chars};
use crate::transport::{TransportFailureKind, TransportOutcome, TransportRequest, TransportSkipReason};

verus! {

broadcast use vstd::string::group_string_axioms;

/// What a filesystem entry turned out to be.
#[derive(Clone, Copy, Debug, PartialEq, Eq, Structural)]
pub enum ObservedKind {
    File,
    Directory,
    Other,
}

/// What the destination looks like now.
#[derive(Clone, Copy, Debug, PartialEq, Eq, Structural)]
pub enum ObservedDestination {
    Missing,
    Existing { kind: ObservedKind, size: Option<u64> },
}

/// The destination still looks as it did when the item was staged: missing, or an entry
/// of the same kind whose size, where one was recorded, is unchanged.
pub open spec fn spec_expectation_matches(
    expected: DestinationExpectation,
    observed: ObservedDestination,
) -> bool {
    match expected {
        DestinationExpectation::Missing => observed is Missing,
        DestinationExpectation::Existing { kind, size } => match observed {
            ObservedDestination::Missing => false,
            ObservedDestination::Existing { kind: observed_kind, size: observed_size } => {
                &&& (kind == EntryKind::File && observed_kind == ObservedKind::File) || (kind
                    == EntryKind::Directory && observed_kind == ObservedKind::Directory)
                &&& match size {
                    Some(s) => observed_size == Some(s),
                    None => true,
                }
            },
        },
    }
}

pub fn expectation_matches(expected: DestinationExpectation, observed: ObservedDestination) -> (r:
    bool)
    ensures
        r == spec_expectation_matches(expected, observed),
{
    match expected {
        DestinationExpectation::Missing => match observed {
            ObservedDestination::Missing => true,
            ObservedDestination::Existing { .. } => false,
        },
        DestinationExpectation::Existing { kind, size } => match observed {
            ObservedDestination::Missing => false,
            ObservedDestination::Existing { kind: observed_kind, size: observed_size } => {
                let kind_matches = match (kind, observed_kind) {
                    (EntryKind::File, ObservedKind::File) => true,
                    (EntryKind::Directory, ObservedKind::Directory) => true,
                    _ => false,
                };
                let size_matches = match size {
                    Some(s) => match observed_size {
                        Some(o) => o == s,
                        None => false,
                    },
                    None => true,
                };
                kind_matches && size_matches
            },
        },
    }
}

/// A failed outcome of the given kind.
pub open spec fn spec_failed(kind: TransportFailureKind, retryable: bool) -> TransportOutcome {
    TransportOutcome::Failed { kind, retryable }
}

pub fn failed(kind: TransportFailureKind, retryable: bool) -> (r: TransportOutcome)
    ensures
        r == spec_failed(kind, retryable),
{
    TransportOutcome::Failed { kind, retryable }
}

/// What the observed destination decides before any write: a stale destination fails; an
/// existing one is skipped under `Skip`, replaced only under `Overwrite` when it is a file,
/// and is otherwise a conflict; a missing one lets the transfer go on.
pub open spec fn spec_destination_decision(
    expectation: DestinationExpectation,
    policy: ConflictPolicy,
    observed: ObservedDestination,
) -> Option<TransportOutcome> {
    if !spec_expectation_matches(expectation, observed) {
        Some(spec_failed(TransportFailureKind::StaleDestination, false))
    } else {
        match observed {
            ObservedDestination::Missing => None,
            ObservedDestination::Existing { kind, .. } => match policy {
                ConflictPolicy::Skip => Some(
                    TransportOutcome::Skipped { reason: TransportSkipReason::ConflictPolicy },
                ),
                ConflictPolicy::Overwrite => if kind == ObservedKind::File {
                    None
                } else {
                    Some(spec_failed(TransportFailureKind::DestinationConflict, false))
                },
                _ => Some(spec_failed(TransportFailureKind::DestinationConflict, false)),
            },
        }
    }
}

/// Decides, before any write, whether the request may go on against `observed`.
pub fn destination_decision(request: &TransportRequest, observed: ObservedDestination) -> (r:
    Option<TransportOutcome>)
    ensures
        r == spec_destination_decision(
            request.destination_expectation,
            request.conflict_policy,
            observed,
        ),
{
    if !expectation_matches(request.destination_expectation, observed) {
        return Some(failed(TransportFailureKind::StaleDestination, false));
    }
    match observed {
        ObservedDestination::Missing => None,
        ObservedDestination::Existing { kind, .. } => match request.conflict_policy {
            ConflictPolicy::Skip => Some(
                TransportOutcome::Skipped { reason: TransportSkipReason::ConflictPolicy },
            ),
            ConflictPolicy::Overwrite => {
                if kind == ObservedKind::File {
                    None
                } else {
                    Some(failed(TransportFailureKind::DestinationConflict, false))
                }
            },
            _ => Some(failed(TransportFailureKind::DestinationConflict, false)),
        },
    }
}

/// A remote upload finalizes a missing destination with a hard link (which never
/// replaces) and an existing one with a POSIX rename; the server must offer the one needed.
pub open spec fn spec_remote_atomic_finalization_supported(
    expectation: DestinationExpectation,
    hardlink: bool,
    posix_rename: bool,
) -> bool {
    match expectation {
        DestinationExpectation::Missing => hardlink,
        DestinationExpectation::Existing { .. } => posix_rename,
    }
}

pub fn remote_atomic_finalization_supported(
    expectation: DestinationExpectation,
    hardlink: bool,
    posix_rename: bool,
) -> (r: bool)
    ensures
        r == spec_remote_atomic_finalization_supported(expectation, hardlink, posix_rename),
{
    match expectation {
        DestinationExpectation::Missing => hardlink,
        DestinationExpectation::Existing { .. } => posix_rename,
    }
}

// ---------------------------------------------------------------------------
// Failure categories
// ---------------------------------------------------------------------------
/// The category of a local filesystem error.
#[derive(Clone, Copy, Debug, PartialEq, Eq, Structural)]
pub enum LocalErrorKind {
    NotFound,
    PermissionDenied,
    AlreadyExists,
    Other,
}

/// The category of an SFTP error.
#[derive(Clone, Copy, Debug, PartialEq, Eq, Structural)]
pub enum RemoteErrorKind {
    NoSuchFile,
    PermissionDenied,
    /// The server's generic failure status.
    Failure,
    /// The session, its background task or the server process went away.
    ConnectionLost,
    Other,
}

/// An error of one filesystem step, local or remote.
#[derive(Clone, Copy, Debug, PartialEq, Eq, Structural)]
pub enum FsError {
    Local(LocalErrorKind),
    Remote(RemoteErrorKind),
}

pub open spec fn spec_local_error(kind: LocalErrorKind, retryable: bool) -> TransportOutcome {
    spec_failed(
        match kind {
            LocalErrorKind::NotFound => TransportFailureKind::SourceNotFound,
            LocalErrorKind::PermissionDenied => TransportFailureKind::PermissionDenied,
            LocalErrorKind::AlreadyExists => TransportFailureKind::DestinationConflict,
            LocalErrorKind::Other => TransportFailureKind::LocalFilesystem,
        },
        retryable,
    )
}

/// The outcome of a local error.
pub fn local_error(kind: LocalErrorKind, retryable: bool) -> (r: TransportOutcome)
    ensures
        r == spec_local_error(kind, retryable),
{
    let failure = match kind {
        LocalErrorKind::NotFound => TransportFailureKind::SourceNotFound,
        LocalErrorKind::PermissionDenied => TransportFailureKind::PermissionDenied,
        LocalErrorKind::AlreadyExists => TransportFailureKind::DestinationConflict,
        LocalErrorKind::Other => TransportFailureKind::LocalFilesystem,
    };
    failed(failure, retryable)
}

pub open spec fn spec_remote_error(kind: RemoteErrorKind, retryable: bool) -> TransportOutcome {
    spec_failed(
        match kind {
            RemoteErrorKind::PermissionDenied => TransportFailureKind::PermissionDenied,
            RemoteErrorKind::ConnectionLost => TransportFailureKind::ConnectionLost,
            _ => TransportFailureKind::RemoteFilesystem,
        },
        retryable,
    )
}

/// The outcome of an SFTP error.
pub fn remote_error(kind: RemoteErrorKind, retryable: bool) -> (r: TransportOutcome)
    ensures
        r == spec_remote_error(kind, retryable),
{
    let failure = match kind {
        RemoteErrorKind::PermissionDenied => TransportFailureKind::PermissionDenied,
        RemoteErrorKind::ConnectionLost => TransportFailureKind::ConnectionLost,
        _ => TransportFailureKind::RemoteFilesystem,
    };
    failed(failure, retryable)
}

/// The outcome of an error while reading the source: a missing remote source is final.
pub open spec fn spec_source_error(error: FsError) -> TransportOutcome {
    match error {
        FsError::Local(kind) => spec_local_error(kind, true),
        FsError::Remote(RemoteErrorKind::NoSuchFile) => spec_failed(
            TransportFailureKind::SourceNotFound,
            false,
        ),
        FsError::Remote(kind) => spec_remote_error(kind, true),
    }
}

pub fn source_error(error: FsError) -> (r: TransportOutcome)
    ensures
        r == spec_source_error(error),
{
    match error {
        FsError::Local(kind) => local_error(kind, true),
        FsError::Remote(RemoteErrorKind::NoSuchFile) => failed(
            TransportFailureKind::SourceNotFound,
            false,
        ),
        FsError::Remote(kind) => remote_error(kind, true),
    }
}

/// The outcome of an error of any other step.
pub open spec fn spec_step_error(error: FsError, retryable: bool) -> TransportOutcome {
    match error {
        FsError::Local(kind) => spec_local_error(kind, retryable),
        FsError::Remote(kind) => spec_remote_error(kind, retryable),
    }
}

pub fn step_error(error: FsError, retryable: bool) -> (r: TransportOutcome)
    ensures
        r == spec_step_error(error, retryable),
{
    match error {
        FsError::Local(kind) => local_error(kind, retryable),
        FsError::Remote(kind) => remote_error(kind, retryable),
    }
}

/// The outcome of a failed no-replace link: a destination that appeared meanwhile is stale.
pub open spec fn spec_link_error(error: FsError) -> TransportOutcome {
    match error {
        FsError::Local(LocalErrorKind::AlreadyExists) => spec_failed(
            TransportFailureKind::StaleDestination,
            false,
        ),
        FsError::Remote(RemoteErrorKind::Failure) => spec_failed(
            TransportFailureKind::StaleDestination,
            false,
        ),
        _ => spec_step_error(error, true),
    }
}

pub fn link_error(error: FsError) -> (r: TransportOutcome)
    ensures
        r == spec_link_error(error),
{
    match error {
        FsError::Local(LocalErrorKind::AlreadyExists) => failed(
            TransportFailureKind::StaleDestination,
            false,
        ),
        FsError::Remote(RemoteErrorKind::Failure) => failed(
            TransportFailureKind::StaleDestination,
            false,
        ),
        _ => step_error(error, true),
    }
}

/// A destination that cannot be found is missing; other errors stay errors.
pub open spec fn spec_observation(observed: Result<ObservedDestination, FsError>) -> Result<
    ObservedDestination,
    FsError,
> {
    match observed {
        Err(FsError::Local(LocalErrorKind::NotFound)) => Ok(ObservedDestination::Missing),
        Err(FsError::Remote(RemoteErrorKind::NoSuchFile)) => Ok(ObservedDestination::Missing),
        _ => observed,
    }
}

pub fn observation(observed: Result<ObservedDestination, FsError>) -> (r: Result<
    ObservedDestination,
    FsError,
>)
    ensures
        r == spec_observation(observed),
{
    match observed {
        Err(FsError::Local(LocalErrorKind::NotFound)) => Ok(ObservedDestination::Missing),
        Err(FsError::Remote(RemoteErrorKind::NoSuchFile)) => Ok(ObservedDestination::Missing),
        _ => observed,
    }
}

// ---------------------------------------------------------------------------
// Temporary names
// ---------------------------------------------------------------------------
/// The hidden sibling a transfer writes before finalizing: `.{name}.xfercat-{id}-{nonce}.part`.
pub open spec fn temporary_name(name: Seq<char>, item_id: u64, nonce: u64) -> Seq<char> {
    "."@ + name + ".xfercat-"@ + text::decimal(item_id as nat) + "-"@ + text::decimal(
        nonce as nat,
    ) + ".part"@
}

fn temporary_file_name(name: &str, item_id: u64, nonce: u64) -> (r: String)
    ensures
        r@ == temporary_name(name@, item_id, nonce),
{
    let mut r = owned(".");
    r.append(name);
    r.append(".xfercat-");
    let id = decimal_string(item_id);
    r.append(id.as_str());
    r.append("-");
    let n = decimal_string(nonce);
    r.append(n.as_str());
    r.append(".part");
    r
}

/// The remote temporary beside `destination`; nothing when it has no `/` or no leaf name.
pub open spec fn spec_remote_temporary_path(destination: Seq<char>, item_id: u64, nonce: u64) -> Option<
    Seq<char>,
> {
    match text::last_index_of(destination, '/') {
        None => None,
        Some(i) => {
            let parent = destination.take(i);
            let name = destination.skip(i + 1);
            if name.len() == 0 {
                None
            } else if parent.len() == 0 {
                Some("/"@ + temporary_name(name, item_id, nonce))
            } else {
                Some(parent + "/"@ + temporary_name(name, item_id, nonce))
            }
        },
    }
}

pub fn remote_temporary_path(destination: &str, item_id: u64, nonce: u64) -> (r: Option<String>)
    ensures
        text::opt_view(r) == spec_remote_temporary_path(destination@, item_id, nonce),
{
    let v = chars_of(destination);
    match rfind_char(&v, '/') {
        None => None,
        Some(i) => {
            let parent = slice_chars(&v, 0, i);
            let name = slice_chars(&v, i + 1, v.len());
            assert(parent@ =~= v@.take(i as int));
            assert(name@ =~= v@.skip(i + 1));
            if name.len() == 0 {
                return None;
            }
            let name_text = string_from_chars(&name);
            let temporary = temporary_file_name(name_text.as_str(), item_id, nonce);
            let mut r = string_from_chars(&parent);
            r.append("/");
            r.append(temporary.as_str());
            Some(r)
        },
    }
}

/// Different nonces give different temporary names for the same file and item.
pub proof fn lemma_temporary_name_injective(name: Seq<char>, item_id: u64, n1: u64, n2: u64)
    requires
        temporary_name(name, item_id, n1) == temporary_name(name, item_id, n2),
    ensures
        n1 == n2,
{
    let prefix = "."@ + name + ".xfercat-"@ + text::decimal(item_id as nat) + "-"@;
    let d1 = text::decimal(n1 as nat);
    let d2 = text::decimal(n2 as nat);
    let t1 = temporary_name(name, item_id, n1);
    let t2 = temporary_name(name, item_id, n2);
    assert(t1 =~= prefix + d1 + ".part"@);
    assert(t2 =~= prefix + d2 + ".part"@);
    assert(d1.len() == d2.len());
    assert(t1.subrange(prefix.len() as int, (prefix.len() + d1.len()) as int) =~= d1);
    assert(t2.subrange(prefix.len() as int, (prefix.len() + d2.len()) as int) =~= d2);
    text::lemma_decimal_injective(n1 as nat, n2 as nat);
}

/// A remote temporary is never the destination itself, and two transfers of the same item
/// to the same destination with different nonces never share a temporary.
pub proof fn law_remote_temporaries_are_distinct(destination: Seq<char>, item_id: u64, n1: u64, n2: u64)
    ensures
        spec_remote_temporary_path(destination, item_id, n1) matches Some(t) ==> t != destination,
        n1 != n2 ==> spec_remote_temporary_path(destination, item_id, n1) is Some ==> spec_remote_temporary_path(
            destination,
            item_id,
            n1,
        ) != spec_remote_temporary_path(destination, item_id, n2),
{
    match text::last_index_of(destination, '/') {
        None => {},
        Some(i) => {
            text::lemma_last_index_of(destination, '/');
            let parent = destination.take(i);
            let name = destination.skip(i + 1);
            if name.len() > 0 {
                let t1 = temporary_name(name, item_id, n1);
                let t2 = temporary_name(name, item_id, n2);
                text::lemma_decimal_len(item_id as nat);
                assert(t1.len() > name.len());
                reveal_strlit("/");
                let head = if parent.len() == 0 { "/"@ } else { parent + "/"@ };
                assert(head.len() == i + 1);
                assert(spec_remote_temporary_path(destination, item_id, n1) == Some(head + t1));
                assert(spec_remote_temporary_path(destination, item_id, n2) == Some(head + t2));
                assert((head + t1).len() > destination.len());
                if n1 != n2 && head + t1 == head + t2 {
                    assert((head + t1).skip(head.len() as int) =~= t1);
                    assert((head + t2).skip(head.len() as int) =~= t2);
                    lemma_temporary_name_injective(name, item_id, n1, n2);
                }
            }
        },
    }
}

/// The local temporary beside `destination`, as std's paths place it.
pub open spec fn spec_local_temporary_path(destination: Seq<char>, item_id: u64, nonce: u64) -> Option<
    Seq<char>,
> {
    match fspath::path_parent(destination) {
        None => None,
        Some(parent) => match fspath::path_file_name(destination) {
            None => None,
            Some(name) => Some(fspath::path_join(parent, temporary_name(name, item_id, nonce))),
        },
    }
}

pub fn local_temporary_path(destination: &str, item_id: u64, nonce: u64) -> (r: Option<String>)
    ensures
        text::opt_view(r) == spec_local_temporary_path(destination@, item_id, nonce),
{
    let parent = match std_path_parent(destination) {
        Some(parent) => parent,
        None => return None,
    };
    let name = match std_path_file_name(destination) {
        Some(name) => name,
        None => return None,
    };
    let temporary = temporary_file_name(name.as_str(), item_id, nonce);
    Some(std_path_join(parent.as_str(), temporary.as_str()))
}

// ---------------------------------------------------------------------------
// The transfer machine
// ---------------------------------------------------------------------------
/// What a metadata query reported of a file: its kind and its length, where known.
#[derive(Clone, Copy, Debug, PartialEq, Eq, Structural)]
pub struct FileFacts {
    pub kind: Option<ObservedKind>,
    pub size: Option<u64>,
}

/// The step a transfer waits on.
#[derive(Clone, Copy, Debug, PartialEq, Eq, Structural)]
pub enum TransferPhase {
    InspectSource,
    ObserveDestination,
    QueryExtensions,
    Copy,
    InspectTemporary,
    RecheckSource,
    RecheckDestination,
    Finalize,
    Finished,
}

/// What the caller does next.
#[derive(Clone, Copy, Debug, PartialEq, Eq, Structural)]
pub enum TransferAction {
    /// Read the source's metadata without following a link.
    InspectSource,
    /// Read the destination's metadata without following a link.
    ObserveDestination,
    /// Ask the SFTP server which finalization extensions it offers.
    QueryExtensions,
    /// Open the source, create the temporary exclusively, copy every byte, sync and close.
    Copy,
    /// Read the temporary's metadata.
    InspectTemporary,
    /// Read the source's metadata again.
    RecheckSource,
    /// Read the destination's metadata again.
    RecheckDestination,
    /// Hard-link the temporary to the destination, which never replaces, then remove the
    /// temporary.
    Link,
    /// Rename the temporary over the destination.
    Rename,
    /// Remove the temporary, then report the outcome.
    Abandon(TransportOutcome),
    /// Report the outcome.
    Finish(TransportOutcome),
}

/// What the step reported.
#[derive(Clone, Copy, Debug, PartialEq, Eq, Structural)]
pub enum TransferEvent {
    SourceRead(FileFacts),
    SourceUnreadable(FsError),
    DestinationRead(ObservedDestination),
    DestinationUnreadable(FsError),
    Extensions { hardlink: bool, posix_rename: bool },
    SourceOpenFailed(FsError),
    TemporaryCreateFailed(FsError),
    CopyFailed(FsError),
    Copied(u64),
    TemporaryRead(FileFacts),
    TemporaryUnreadable(FsError),
    Finalized,
    FinalizeFailed(FsError),
}

/// A transfer in progress.
#[derive(Debug, PartialEq, Eq)]
pub struct TransferRun {
    pub request: TransportRequest,
    /// Distinguishes this transfer's temporary from earlier ones of the same item.
    pub nonce: u64,
    pub phase: TransferPhase,
    /// The source length found by the first inspection.
    pub source_size: u64,
    /// The temporary's path, once chosen.
    pub temporary: String,
    /// The bytes the copy reported.
    pub transferred: u64,
}

/// The events each phase waits for.
pub open spec fn expects(phase: TransferPhase, event: TransferEvent) -> bool {
    match phase {
        TransferPhase::InspectSource | TransferPhase::RecheckSource => event is SourceRead
            || event is SourceUnreadable,
        TransferPhase::ObserveDestination | TransferPhase::RecheckDestination => event is DestinationRead
            || event is DestinationUnreadable,
        TransferPhase::QueryExtensions => event is Extensions,
        TransferPhase::Copy => event is SourceOpenFailed || event is TemporaryCreateFailed
            || event is CopyFailed || event is Copied,
        TransferPhase::InspectTemporary => event is TemporaryRead || event is TemporaryUnreadable,
        TransferPhase::Finalize => event is Finalized || event is FinalizeFailed,
        TransferPhase::Finished => false,
    }
}

/// The source length, when the source is a regular file of the expected length.
pub open spec fn spec_source_check(facts: FileFacts, expected: Option<u64>) -> Result<u64, TransportOutcome> {
    match facts.kind {
        None => Err(spec_failed(TransportFailureKind::RemoteFilesystem, true)),
        Some(kind) => if kind != ObservedKind::File {
            Err(spec_failed(TransportFailureKind::Unsupported, false))
        } else {
            match facts.size {
                None => Err(spec_failed(TransportFailureKind::RemoteFilesystem, true)),
                Some(size) => match expected {
                    Some(e) => if e != size {
                        Err(spec_failed(TransportFailureKind::StaleSource, false))
                    } else {
                        Ok(size)
                    },
                    None => Ok(size),
                },
            }
        },
    }
}

pub fn source_check(facts: FileFacts, expected: Option<u64>) -> (r: Result<u64, TransportOutcome>)
    ensures
        r == spec_source_check(facts, expected),
{
    match facts.kind {
        None => Err(failed(TransportFailureKind::RemoteFilesystem, true)),
        Some(kind) => {
            if kind != ObservedKind::File {
                return Err(failed(TransportFailureKind::Unsupported, false));
            }
            match facts.size {
                None => Err(failed(TransportFailureKind::RemoteFilesystem, true)),
                Some(size) => match expected {
                    Some(e) => {
                        if e != size {
                            Err(failed(TransportFailureKind::StaleSource, false))
                        } else {
                            Ok(size)
                        }
                    },
                    None => Ok(size),
                },
            }
        },
    }
}

/// Why a finished temporary is not the copy: an upload's temporary must be a regular
/// remote file, and either side's must hold exactly the bytes copied.
pub open spec fn spec_temporary_check(
    direction: TransferDirection,
    facts: FileFacts,
    transferred: u64,
) -> Option<TransportOutcome> {
    match direction {
        TransferDirection::Upload => if facts.kind != Some(ObservedKind::File) || facts.size
            != Some(transferred) {
            Some(spec_failed(TransportFailureKind::RemoteFilesystem, true))
        } else {
            None
        },
        TransferDirection::Download => if facts.size != Some(transferred) {
            Some(spec_failed(TransportFailureKind::LocalFilesystem, true))
        } else {
            None
        },
    }
}

pub fn temporary_check(direction: TransferDirection, facts: FileFacts, transferred: u64) -> (r:
    Option<TransportOutcome>)
    ensures
        r == spec_temporary_check(direction, facts, transferred),
{
    let size_matches = match facts.size {
        Some(size) => size == transferred,
        None => false,
    };
    match direction {
        TransferDirection::Upload => {
            let is_file = match facts.kind {
                Some(ObservedKind::File) => true,
                _ => false,
            };
            if !is_file || !size_matches {
                Some(failed(TransportFailureKind::RemoteFilesystem, true))
            } else {
                None
            }
        },
        TransferDirection::Download => {
            if !size_matches {
                Some(failed(TransportFailureKind::LocalFilesystem, true))
            } else {
                None
            }
        },
    }
}

/// The destination as an event reports it, a missing entry being no error.
pub open spec fn reported_destination(event: TransferEvent) -> Result<ObservedDestination, FsError> {
    match event {
        TransferEvent::DestinationRead(d) => spec_observation(Ok(d)),
        TransferEvent::DestinationUnreadable(e) => spec_observation(Err(e)),
        _ => Err(FsError::Local(LocalErrorKind::Other)),
    }
}

/// `b` is `a` moved to `phase`.
pub open spec fn moved(a: TransferRun, b: TransferRun, phase: TransferPhase) -> bool {
    b == TransferRun { phase, ..a }
}

/// `b` is `a` finished.
pub open spec fn finished(a: TransferRun, b: TransferRun) -> bool {
    moved(a, b, TransferPhase::Finished)
}

/// `b` is `a` ready to copy into the temporary `temporary`.
pub open spec fn ready_to_copy(a: TransferRun, b: TransferRun, temporary: Option<Seq<char>>) -> bool {
    match temporary {
        Some(t) => b == TransferRun { phase: TransferPhase::Copy, temporary: b.temporary, ..a }
            && b.temporary@ == t,
        None => finished(a, b),
    }
}

/// The action matching `ready_to_copy`.
pub open spec fn copy_action(temporary: Option<Seq<char>>) -> TransferAction {
    match temporary {
        Some(_) => TransferAction::Copy,
        None => TransferAction::Finish(spec_failed(TransportFailureKind::Unsupported, false)),
    }
}

/// The copy is written: the temporary exists from here until it is finalized or removed.
pub open spec fn copy_written(phase: TransferPhase) -> bool {
    ||| phase == TransferPhase::InspectTemporary
    ||| phase == TransferPhase::RecheckSource
    ||| phase == TransferPhase::RecheckDestination
    ||| phase == TransferPhase::Finalize
}

/// What every run reached from `start` satisfies: only regular files get past the start,
/// the source met its expected size, a written copy holds exactly the source's bytes, and
/// only uploads ask for server extensions.
pub open spec fn run_invariant(r: TransferRun) -> bool {
    &&& r.phase != TransferPhase::Finished ==> r.request.entry_kind == EntryKind::File
    &&& (r.phase != TransferPhase::InspectSource && r.phase != TransferPhase::Finished) ==> match r.request.expected_size {
        Some(e) => r.source_size == e,
        None => true,
    }
    &&& copy_written(r.phase) ==> r.transferred == r.source_size
    &&& r.phase == TransferPhase::QueryExtensions ==> r.request.direction == TransferDirection::Upload
}

/// One step of a transfer: from the run `a` and what its pending step reported, the run
/// `b` and the next action.
pub open spec fn step_post(a: TransferRun, event: TransferEvent, b: TransferRun, action: TransferAction) -> bool {
    let request = a.request;
    let stale_source = spec_failed(TransportFailureKind::StaleSource, false);
    &&& expects(a.phase, event)
    &&& match a.phase {
        TransferPhase::InspectSource => match event {
            TransferEvent::SourceRead(facts) => match spec_source_check(facts, request.expected_size) {
                Err(outcome) => finished(a, b) && action == TransferAction::Finish(outcome),
                Ok(size) => b == TransferRun {
                    phase: TransferPhase::ObserveDestination,
                    source_size: size,
                    ..a
                } && action == TransferAction::ObserveDestination,
            },
            TransferEvent::SourceUnreadable(e) => finished(a, b) && action == TransferAction::Finish(
                spec_source_error(e),
            ),
            _ => false,
        },
        TransferPhase::ObserveDestination => match reported_destination(event) {
            Err(e) => finished(a, b) && action == TransferAction::Finish(spec_step_error(e, true)),
            Ok(d) => match spec_destination_decision(
                request.destination_expectation,
                request.conflict_policy,
                d,
            ) {
                Some(outcome) => finished(a, b) && action == TransferAction::Finish(outcome),
                None => match request.direction {
                    TransferDirection::Upload => moved(a, b, TransferPhase::QueryExtensions)
                        && action == TransferAction::QueryExtensions,
                    TransferDirection::Download => {
                        let temporary = spec_local_temporary_path(
                            request.destination.path@,
                            request.item_id,
                            a.nonce,
                        );
                        ready_to_copy(a, b, temporary) && action == copy_action(temporary)
                    },
                },
            },
        },
        TransferPhase::QueryExtensions => match event {
            TransferEvent::Extensions { hardlink, posix_rename } => if !spec_remote_atomic_finalization_supported(
                request.destination_expectation,
                hardlink,
                posix_rename,
            ) {
                finished(a, b) && action == TransferAction::Finish(
                    spec_failed(TransportFailureKind::Unsupported, false),
                )
            } else {
                let temporary = spec_remote_temporary_path(
                    request.destination.path@,
                    request.item_id,
                    a.nonce,
                );
                ready_to_copy(a, b, temporary) && action == copy_action(temporary)
            },
            _ => false,
        },
        TransferPhase::Copy => match event {
            TransferEvent::SourceOpenFailed(e) => finished(a, b) && action == TransferAction::Finish(
                spec_source_error(e),
            ),
            TransferEvent::TemporaryCreateFailed(e) => finished(a, b) && action
                == TransferAction::Finish(spec_step_error(e, false)),
            TransferEvent::CopyFailed(e) => finished(a, b) && action == TransferAction::Abandon(
                spec_step_error(e, true),
            ),
            TransferEvent::Copied(n) => if n != a.source_size {
                finished(a, b) && action == TransferAction::Abandon(stale_source)
            } else {
                b == TransferRun { phase: TransferPhase::InspectTemporary, transferred: n, ..a }
                    && action == TransferAction::InspectTemporary
            },
            _ => false,
        },
        TransferPhase::InspectTemporary => match event {
            TransferEvent::TemporaryRead(facts) => match spec_temporary_check(
                request.direction,
                facts,
                a.transferred,
            ) {
                Some(outcome) => finished(a, b) && action == TransferAction::Abandon(outcome),
                None => moved(a, b, TransferPhase::RecheckSource) && action
                    == TransferAction::RecheckSource,
            },
            TransferEvent::TemporaryUnreadable(e) => finished(a, b) && action
                == TransferAction::Abandon(spec_step_error(e, true)),
            _ => false,
        },
        TransferPhase::RecheckSource => match event {
            TransferEvent::SourceRead(facts) => if spec_source_check(facts, Some(a.source_size)) is Err {
                finished(a, b) && action == TransferAction::Abandon(stale_source)
            } else {
                moved(a, b, TransferPhase::RecheckDestination) && action
                    == TransferAction::RecheckDestination
            },
            TransferEvent::SourceUnreadable(_) => finished(a, b) && action == TransferAction::Abandon(
                stale_source,
            ),
            _ => false,
        },
        TransferPhase::RecheckDestination => match reported_destination(event) {
            Err(e) => finished(a, b) && action == TransferAction::Abandon(spec_step_error(e, true)),
            Ok(d) => if !spec_expectation_matches(request.destination_expectation, d) {
                finished(a, b) && action == TransferAction::Abandon(
                    spec_failed(TransportFailureKind::StaleDestination, false),
                )
            } else {
                moved(a, b, TransferPhase::Finalize) && action == if request.destination_expectation
                    is Missing {
                    TransferAction::Link
                } else {
                    TransferAction::Rename
                }
            },
        },
        TransferPhase::Finalize => match event {
            TransferEvent::Finalized => finished(a, b) && action == TransferAction::Finish(
                TransportOutcome::Succeeded { bytes_transferred: a.transferred },
            ),
            TransferEvent::FinalizeFailed(e) => finished(a, b) && action == TransferAction::Abandon(
                if request.destination_expectation is Missing {
                    spec_link_error(e)
                } else {
                    spec_step_error(e, true)
                },
            ),
            _ => false,
        },
        TransferPhase::Finished => false,
    }
}

impl TransferRun {
    /// Starts transferring `request`; only regular files are transferred.
    pub fn start(request: TransportRequest, nonce: u64) -> (r: (Self, TransferAction))
        ensures
            r.0.request == request,
            r.0.nonce == nonce,
            r.0.source_size == 0,
            r.0.transferred == 0,
            r.0.temporary@ == Seq::<char>::empty(),
            run_invariant(r.0),
            if request.entry_kind == EntryKind::File {
                r.0.phase == TransferPhase::InspectSource && r.1 == TransferAction::InspectSource
            } else {
                r.0.phase == TransferPhase::Finished && r.1 == TransferAction::Finish(
                    spec_failed(TransportFailureKind::Unsupported, false),
                )
            },
    {
        let regular = request.entry_kind == EntryKind::File;
        let run = TransferRun {
            request,
            nonce,
            phase: if regular {
                TransferPhase::InspectSource
            } else {
                TransferPhase::Finished
            },
            source_size: 0,
            temporary: String::new(),
            transferred: 0,
        };
        if regular {
            (run, TransferAction::InspectSource)
        } else {
            (run, TransferAction::Finish(failed(TransportFailureKind::Unsupported, false)))
        }
    }

    /// Whether the pending step can report `event`.
    pub fn expects(&self, event: TransferEvent) -> (r: bool)
        ensures
            r == expects(self.phase, event),
    {
        match self.phase {
            TransferPhase::InspectSource | TransferPhase::RecheckSource => match event {
                TransferEvent::SourceRead(_) | TransferEvent::SourceUnreadable(_) => true,
                _ => false,
            },
            TransferPhase::ObserveDestination | TransferPhase::RecheckDestination => match event {
                TransferEvent::DestinationRead(_) | TransferEvent::DestinationUnreadable(_) => true,
                _ => false,
            },
            TransferPhase::QueryExtensions => match event {
                TransferEvent::Extensions { .. } => true,
                _ => false,
            },
            TransferPhase::Copy => match event {
                TransferEvent::SourceOpenFailed(_) | TransferEvent::TemporaryCreateFailed(_)
                | TransferEvent::CopyFailed(_) | TransferEvent::Copied(_) => true,
                _ => false,
            },
            TransferPhase::InspectTemporary => match event {
                TransferEvent::TemporaryRead(_) | TransferEvent::TemporaryUnreadable(_) => true,
                _ => false,
            },
            TransferPhase::Finalize => match event {
                TransferEvent::Finalized | TransferEvent::FinalizeFailed(_) => true,
                _ => false,
            },
            TransferPhase::Finished => false,
        }
    }

    fn finish(&mut self, action: TransferAction) -> (r: TransferAction)
        ensures
            finished(*old(self), *final(self)),
            r == action,
    {
        self.phase = TransferPhase::Finished;
        action
    }

    fn observed_destination(event: TransferEvent) -> (r: Result<ObservedDestination, FsError>)
        requires
            event is DestinationRead || event is DestinationUnreadable,
        ensures
            r == reported_destination(event),
    {
        match event {
            TransferEvent::DestinationRead(d) => observation(Ok(d)),
            TransferEvent::DestinationUnreadable(e) => observation(Err(e)),
            _ => Err(FsError::Local(LocalErrorKind::Other)),
        }
    }

    fn prepare_copy(&mut self, temporary: Option<String>) -> (r: TransferAction)
        ensures
            ready_to_copy(*old(self), *final(self), text::opt_view(temporary)),
            r == copy_action(text::opt_view(temporary)),
    {
        match temporary {
            Some(path) => {
                self.temporary = path;
                self.phase = TransferPhase::Copy;
                TransferAction::Copy
            },
            None => self.finish(TransferAction::Finish(failed(TransportFailureKind::Unsupported, false))),
        }
    }

    /// Decides from what the pending step reported; returns the next action.
    pub fn step(&mut self, event: TransferEvent) -> (action: TransferAction)
        requires
            expects(old(self).phase, event),
        ensures
            step_post(*old(self), event, *final(self), action),
    {
        let stale_source = failed(TransportFailureKind::StaleSource, false);
        match self.phase {
            TransferPhase::InspectSource => match event {
                TransferEvent::SourceRead(facts) => match source_check(facts, self.request.expected_size) {
                    Err(outcome) => self.finish(TransferAction::Finish(outcome)),
                    Ok(size) => {
                        self.source_size = size;
                        self.phase = TransferPhase::ObserveDestination;
                        TransferAction::ObserveDestination
                    },
                },
                TransferEvent::SourceUnreadable(e) => self.finish(TransferAction::Finish(source_error(e))),
                _ => self.finish(TransferAction::Finish(stale_source)),
            },
            TransferPhase::ObserveDestination => match Self::observed_destination(event) {
                Err(e) => self.finish(TransferAction::Finish(step_error(e, true))),
                Ok(d) => match destination_decision(&self.request, d) {
                    Some(outcome) => self.finish(TransferAction::Finish(outcome)),
                    None => match self.request.direction {
                        TransferDirection::Upload => {
                            self.phase = TransferPhase::QueryExtensions;
                            TransferAction::QueryExtensions
                        },
                        TransferDirection::Download => {
                            let temporary = local_temporary_path(
                                self.request.destination.path.as_str(),
                                self.request.item_id,
                                self.nonce,
                            );
                            self.prepare_copy(temporary)
                        },
                    },
                },
            },
            TransferPhase::QueryExtensions => match event {
                TransferEvent::Extensions { hardlink, posix_rename } => {
                    if !remote_atomic_finalization_supported(
                        self.request.destination_expectation,
                        hardlink,
                        posix_rename,
                    ) {
                        self.finish(
                            TransferAction::Finish(failed(TransportFailureKind::Unsupported, false)),
                        )
                    } else {
                        let temporary = remote_temporary_path(
                            self.request.destination.path.as_str(),
                            self.request.item_id,
                            self.nonce,
                        );
                        self.prepare_copy(temporary)
                    }
                },
                _ => self.finish(TransferAction::Finish(stale_source)),
            },
            TransferPhase::Copy => match event {
                TransferEvent::SourceOpenFailed(e) => self.finish(TransferAction::Finish(source_error(e))),
                TransferEvent::TemporaryCreateFailed(e) => self.finish(
                    TransferAction::Finish(step_error(e, false)),
                ),
                TransferEvent::CopyFailed(e) => self.finish(TransferAction::Abandon(step_error(e, true))),
                TransferEvent::Copied(n) => {
                    if n != self.source_size {
                        self.finish(TransferAction::Abandon(stale_source))
                    } else {
                        self.transferred = n;
                        self.phase = TransferPhase::InspectTemporary;
                        TransferAction::InspectTemporary
                    }
                },
                _ => self.finish(TransferAction::Finish(stale_source)),
            },
            TransferPhase::InspectTemporary => match event {
                TransferEvent::TemporaryRead(facts) => match temporary_check(
                    self.request.direction,
                    facts,
                    self.transferred,
                ) {
                    Some(outcome) => self.finish(TransferAction::Abandon(outcome)),
                    None => {
                        self.phase = TransferPhase::RecheckSource;
                        TransferAction::RecheckSource
                    },
                },
                TransferEvent::TemporaryUnreadable(e) => self.finish(
                    TransferAction::Abandon(step_error(e, true)),
                ),
                _ => self.finish(TransferAction::Finish(stale_source)),
            },
            TransferPhase::RecheckSource => match event {
                TransferEvent::SourceRead(facts) => match source_check(facts, Some(self.source_size)) {
                    Err(_) => self.finish(TransferAction::Abandon(stale_source)),
                    Ok(_) => {
                        self.phase = TransferPhase::RecheckDestination;
                        TransferAction::RecheckDestination
                    },
                },
                _ => self.finish(TransferAction::Abandon(stale_source)),
            },
            TransferPhase::RecheckDestination => match Self::observed_destination(event) {
                Err(e) => self.finish(TransferAction::Abandon(step_error(e, true))),
                Ok(d) => {
                    if !expectation_matches(self.request.destination_expectation, d) {
                        self.finish(
                            TransferAction::Abandon(
                                failed(TransportFailureKind::StaleDestination, false),
                            ),
                        )
                    } else {
                        self.phase = TransferPhase::Finalize;
                        match self.request.destination_expectation {
                            DestinationExpectation::Missing => TransferAction::Link,
                            DestinationExpectation::Existing { .. } => TransferAction::Rename,
                        }
                    }
                },
            },
            TransferPhase::Finalize => match event {
                TransferEvent::Finalized => {
                    let bytes = self.transferred;
                    self.finish(TransferAction::Finish(TransportOutcome::Succeeded { bytes_transferred: bytes }))
                },
                TransferEvent::FinalizeFailed(e) => {
                    let outcome = match self.request.destination_expectation {
                        DestinationExpectation::Missing => link_error(e),
                        DestinationExpectation::Existing { .. } => step_error(e, true),
                    };
                    self.finish(TransferAction::Abandon(outcome))
                },
                _ => self.finish(TransferAction::Finish(stale_source)),
            },
            TransferPhase::Finished => self.finish(TransferAction::Finish(stale_source)),
        }
    }
}

// ---------------------------------------------------------------------------
// Laws of the transfer machine
// ---------------------------------------------------------------------------
/// Every step keeps the run invariant.
pub proof fn law_step_keeps_invariant(
    a: TransferRun,
    event: TransferEvent,
    b: TransferRun,
    action: TransferAction,
)
    requires
        run_invariant(a),
        step_post(a, event, b, action),
    ensures
        run_invariant(b),
{
}

/// The destination is only ever finalized from a complete copy of an unchanged source,
/// right after the destination was seen still as staged; a missing destination is
/// finalized with a link, which never replaces, and an existing one with a rename.
pub proof fn law_finalizes_only_a_verified_copy(
    a: TransferRun,
    event: TransferEvent,
    b: TransferRun,
    action: TransferAction,
)
    requires
        run_invariant(a),
        step_post(a, event, b, action),
        action is Link || action is Rename,
    ensures
        a.phase == TransferPhase::RecheckDestination,
        a.request.entry_kind == EntryKind::File,
        a.transferred == a.source_size,
        a.request.expected_size matches Some(e) ==> e == a.transferred,
        reported_destination(event) matches Ok(d) && spec_expectation_matches(
            a.request.destination_expectation,
            d,
        ),
        action is Link <==> a.request.destination_expectation is Missing,
{
}

/// An existing destination is written only under the `Overwrite` policy, and only when it
/// is a regular file.
pub proof fn law_existing_destination_needs_overwrite(
    a: TransferRun,
    event: TransferEvent,
    b: TransferRun,
    action: TransferAction,
)
    requires
        step_post(a, event, b, action),
        a.phase == TransferPhase::ObserveDestination,
        reported_destination(event) is Ok,
        reported_destination(event)->Ok_0 is Existing,
        action is Copy || action is QueryExtensions,
    ensures
        a.request.conflict_policy == ConflictPolicy::Overwrite,
        reported_destination(event)->Ok_0->Existing_kind == ObservedKind::File,
{
}

/// Once the copy may exist, every ending but success removes the temporary; before, no
/// ending removes anything.
pub proof fn law_temporary_never_outlives_the_transfer(
    a: TransferRun,
    event: TransferEvent,
    b: TransferRun,
    action: TransferAction,
)
    requires
        step_post(a, event, b, action),
    ensures
        (copy_written(a.phase) || event is CopyFailed || event is Copied) && action is Finish
            ==> a.phase == TransferPhase::Finalize && event is Finalized,
        action is Abandon ==> copy_written(a.phase) || event is CopyFailed || event is Copied,
{
}

/// A transfer succeeds only when its finalization did, reporting the bytes copied.
pub proof fn law_success_reports_the_copy(
    a: TransferRun,
    event: TransferEvent,
    b: TransferRun,
    action: TransferAction,
)
    requires
        run_invariant(a),
        step_post(a, event, b, action),
        action matches TransferAction::Finish(TransportOutcome::Succeeded { .. }),
    ensures
        a.phase == TransferPhase::Finalize,
        event is Finalized,
        action == TransferAction::Finish(TransportOutcome::Succeeded { bytes_transferred: a.source_size }),
        b.phase == TransferPhase::Finished,
{
}

/// An upload writes its temporary only after the server was found to offer the extension
/// that the finalization of its destination state needs; a download writes it only
/// after the destination was seen as staged.
pub proof fn law_copy_follows_the_preconditions_of_finalization(
    a: TransferRun,
    event: TransferEvent,
    b: TransferRun,
    action: TransferAction,
)
    requires
        run_invariant(a),
        step_post(a, event, b, action),
        action is Copy,
    ensures
        a.request.direction == TransferDirection::Upload ==> a.phase == TransferPhase::QueryExtensions
            && (event matches TransferEvent::Extensions { hardlink, posix_rename }
            && spec_remote_atomic_finalization_supported(a.request.destination_expectation, hardlink, posix_rename)),
        a.request.direction == TransferDirection::Download ==> a.phase == TransferPhase::ObserveDestination
            && (reported_destination(event) matches Ok(d) && spec_destination_decision(
                a.request.destination_expectation,
                a.request.conflict_policy,
                d,
            ) is None),
{
}

/// After the copy, the source is read again: the run goes on towards finalization only
/// when the source is still a regular file of the size first seen; a source that changed
/// or cannot be read abandons the copy as stale.
pub proof fn law_recheck_passes_only_an_unchanged_source(
    a: TransferRun,
    event: TransferEvent,
    b: TransferRun,
    action: TransferAction,
)
    requires
        step_post(a, event, b, action),
        a.phase == TransferPhase::RecheckSource,
    ensures
        action == TransferAction::RecheckDestination ==> (event matches TransferEvent::SourceRead(facts)
            && facts.kind == Some(ObservedKind::File) && facts.size == Some(a.source_size)),
        (event matches TransferEvent::SourceRead(facts) && (facts.kind != Some(ObservedKind::File)
            || facts.size != Some(a.source_size))) ==> action == TransferAction::Abandon(
            TransportOutcome::Failed { kind: TransportFailureKind::StaleSource, retryable: false },
        ),
        event is SourceUnreadable ==> action == TransferAction::Abandon(
            TransportOutcome::Failed { kind: TransportFailureKind::StaleSource, retryable: false },
        ),
{
}

} // verus!
