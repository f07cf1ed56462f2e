//! Connection profiles, browser entries, endpoints and transfer plan items.
use vstd::prelude::*;

use crate::text::{concat2, concat3, owned};

verus! {

broadcast use vstd::string::group_string_axioms;

/// Where a connection profile came from.
#[derive(Clone, Copy, Debug, PartialEq, Eq, Structural)]
pub enum ConnectionProfileSource {
    Synthetic,
    Manual,
    OpenSshConfig,
}

impl ConnectionProfileSource {
    pub open spec fn spec_display(self) -> Seq<char> {
        match self {
            ConnectionProfileSource::Synthetic => "Synthetic fixture"@,
            ConnectionProfileSource::Manual => "Manual process profile"@,
            ConnectionProfileSource::OpenSshConfig => "OpenSSH config"@,
        }
    }

    /// The human-readable provenance.
    pub fn display(self) -> (r: &'static str)
        ensures
            r@ == self.spec_display(),
    {
        match self {
            ConnectionProfileSource::Synthetic => "Synthetic fixture",
            ConnectionProfileSource::Manual => "Manual process profile",
            ConnectionProfileSource::OpenSshConfig => "OpenSSH config",
        }
    }
}

/// The transfer protocol of a profile.
#[derive(Clone, Copy, Debug, PartialEq, Eq, Structural)]
pub enum Protocol {
    Sftp,
}

impl Protocol {
    pub open spec fn spec_display(self) -> Seq<char> {
        "SFTP"@
    }

    /// The protocol's display name.
    pub fn display(self) -> (r: &'static str)
        ensures
            r@ == self.spec_display(),
    {
        "SFTP"
    }
}

/// How a profile authenticates.
#[derive(Debug, PartialEq, Eq)]
pub enum Authentication {
    SshAgent,
    KeyReference(String),
    OpenSshConfig,
}

impl Clone for Authentication {
    fn clone(&self) -> (r: Self)
        ensures
            r == *self,
    {
        match self {
            Authentication::SshAgent => Authentication::SshAgent,
            Authentication::KeyReference(reference) => Authentication::KeyReference(reference.clone()),
            Authentication::OpenSshConfig => Authentication::OpenSshConfig,
        }
    }
}

impl Authentication {
    pub open spec fn spec_short_label(self) -> Seq<char> {
        match self {
            Authentication::SshAgent => "Agent"@,
            Authentication::KeyReference(reference) => "Key:"@ + reference@,
            Authentication::OpenSshConfig => "OpenSSH"@,
        }
    }

    pub open spec fn spec_display(self) -> Seq<char> {
        match self {
            Authentication::SshAgent => "SSH Agent"@,
            Authentication::KeyReference(reference) => "Key ref: "@ + reference@,
            Authentication::OpenSshConfig => "OpenSSH policy"@,
        }
    }

    /// A compact label for list rows.
    pub fn short_label(&self) -> (r: String)
        ensures
            r@ == self.spec_short_label(),
    {
        match self {
            Authentication::SshAgent => owned("Agent"),
            Authentication::KeyReference(reference) => concat2("Key:", reference.as_str()),
            Authentication::OpenSshConfig => owned("OpenSSH"),
        }
    }

    /// The full description shown in profile details.
    pub fn display(&self) -> (r: String)
        ensures
            r@ == self.spec_display(),
    {
        match self {
            Authentication::SshAgent => owned("SSH Agent"),
            Authentication::KeyReference(reference) => concat2("Key ref: ", reference.as_str()),
            Authentication::OpenSshConfig => owned("OpenSSH policy"),
        }
    }
}

/// A complete connection profile that can be selected in one step.
#[derive(Debug, PartialEq, Eq)]
pub struct ConnectionProfile {
    pub id: String,
    pub label: String,
    pub source: ConnectionProfileSource,
    pub protocol: Protocol,
    pub user: String,
    pub host: String,
    pub authentication: Authentication,
}

impl Clone for ConnectionProfile {
    fn clone(&self) -> (r: Self)
        ensures
            r == *self,
    {
        ConnectionProfile {
            id: self.id.clone(),
            label: self.label.clone(),
            source: self.source,
            protocol: self.protocol,
            user: self.user.clone(),
            host: self.host.clone(),
            authentication: self.authentication.clone(),
        }
    }
}

impl ConnectionProfile {
    pub open spec fn spec_is_open_ssh(self) -> bool {
        self.source == ConnectionProfileSource::OpenSshConfig
    }

    pub open spec fn spec_endpoint_summary(self) -> Seq<char> {
        match self.source {
            ConnectionProfileSource::OpenSshConfig => "Host "@ + self.host@,
            _ => self.user@ + "@"@ + self.host@,
        }
    }

    /// The profile imported for an OpenSSH `Host` alias.
    pub fn open_ssh(alias: &str) -> (r: Self)
        ensures
            r.id@ == "openssh:"@ + alias@,
            r.label@ == alias@,
            r.source == ConnectionProfileSource::OpenSshConfig,
            r.protocol == Protocol::Sftp,
            r.user@ == Seq::<char>::empty(),
            r.host@ == alias@,
            r.authentication == Authentication::OpenSshConfig,
    {
        ConnectionProfile {
            id: concat2("openssh:", alias),
            label: owned(alias),
            source: ConnectionProfileSource::OpenSshConfig,
            protocol: Protocol::Sftp,
            user: String::new(),
            host: owned(alias),
            authentication: Authentication::OpenSshConfig,
        }
    }

    /// `Host alias` for imported profiles, `user@host` otherwise.
    pub fn endpoint_summary(&self) -> (r: String)
        ensures
            r@ == self.spec_endpoint_summary(),
    {
        match self.source {
            ConnectionProfileSource::OpenSshConfig => concat2("Host ", self.host.as_str()),
            _ => concat3(self.user.as_str(), "@", self.host.as_str()),
        }
    }

    /// The profile was imported from OpenSSH configuration.
    pub fn is_open_ssh(&self) -> (r: bool)
        ensures
            r == self.spec_is_open_ssh(),
    {
        match self.source {
            ConnectionProfileSource::OpenSshConfig => true,
            _ => false,
        }
    }
}

/// A browser entry is a directory or a regular file.
#[derive(Clone, Copy, Debug, PartialEq, Eq, Structural)]
pub enum EntryKind {
    Directory,
    File,
}

/// One row of a local or remote browser.
#[derive(Debug, PartialEq, Eq)]
pub struct BrowserEntry {
    pub name: String,
    pub path: String,
    pub kind: EntryKind,
    pub size: Option<u64>,
}

impl Clone for BrowserEntry {
    fn clone(&self) -> (r: Self)
        ensures
            r == *self,
    {
        BrowserEntry { name: self.name.clone(), path: self.path.clone(), kind: self.kind, size: self.size }
    }
}

impl BrowserEntry {
    pub open spec fn spec_display_name(self) -> Seq<char> {
        match self.kind {
            EntryKind::Directory => self.name@ + "/"@,
            EntryKind::File => self.name@,
        }
    }

    /// The name, with a trailing `/` for directories.
    pub fn display_name(&self) -> (r: String)
        ensures
            r@ == self.spec_display_name(),
    {
        match self.kind {
            EntryKind::Directory => concat2(self.name.as_str(), "/"),
            EntryKind::File => self.name.clone(),
        }
    }
}

/// One side of a transfer: the local machine (no profile) or a remote profile.
#[derive(Debug, PartialEq, Eq)]
pub struct Endpoint {
    pub profile_id: Option<String>,
    pub label: String,
    pub path: String,
}

/// A copy of an optional string.
pub fn clone_optional(s: &Option<String>) -> (r: Option<String>)
    ensures
        r == *s,
{
    match s {
        Some(value) => Some(value.clone()),
        None => None,
    }
}

impl Clone for Endpoint {
    fn clone(&self) -> (r: Self)
        ensures
            r == *self,
    {
        Endpoint {
            profile_id: clone_optional(&self.profile_id),
            label: self.label.clone(),
            path: self.path.clone(),
        }
    }
}

impl Endpoint {
    pub open spec fn spec_display(self) -> Seq<char> {
        self.label@ + ":"@ + self.path@
    }

    /// The local endpoint for `path`.
    pub fn local(path: &str) -> (r: Self)
        ensures
            r.profile_id is None,
            r.label@ == "local"@,
            r.path@ == path@,
    {
        Endpoint { profile_id: None, label: owned("local"), path: owned(path) }
    }

    /// The endpoint for `path` on the remote profile `profile_id`.
    pub fn remote(profile_id: &str, label: &str, path: &str) -> (r: Self)
        ensures
            r.profile_id matches Some(id) && id@ == profile_id@,
            r.label@ == label@,
            r.path@ == path@,
    {
        Endpoint { profile_id: Some(owned(profile_id)), label: owned(label), path: owned(path) }
    }

    /// `label:path`.
    pub fn display(&self) -> (r: String)
        ensures
            r@ == self.spec_display(),
    {
        concat3(self.label.as_str(), ":", self.path.as_str())
    }
}

/// Upload goes from local to remote, download from remote to local.
#[derive(Clone, Copy, Debug, PartialEq, Eq, Structural)]
pub enum TransferDirection {
    Upload,
    Download,
}

impl TransferDirection {
    pub open spec fn spec_symbol(self) -> Seq<char> {
        match self {
            TransferDirection::Upload => "↑"@,
            TransferDirection::Download => "↓"@,
        }
    }

    /// An arrow for the direction.
    pub fn symbol(self) -> (r: &'static str)
        ensures
            r@ == self.spec_symbol(),
    {
        match self {
            TransferDirection::Upload => "↑",
            TransferDirection::Download => "↓",
        }
    }
}

/// What to do when the destination already exists.
#[derive(Clone, Copy, Debug, PartialEq, Eq, Structural)]
pub enum ConflictPolicy {
    Ask,
    Overwrite,
    Skip,
    Rename,
}

impl ConflictPolicy {
    pub open spec fn spec_next(self) -> ConflictPolicy {
        match self {
            ConflictPolicy::Ask => ConflictPolicy::Overwrite,
            ConflictPolicy::Overwrite => ConflictPolicy::Skip,
            ConflictPolicy::Skip => ConflictPolicy::Rename,
            ConflictPolicy::Rename => ConflictPolicy::Ask,
        }
    }

    pub open spec fn spec_display(self) -> Seq<char> {
        match self {
            ConflictPolicy::Ask => "ASK"@,
            ConflictPolicy::Overwrite => "OVERWRITE"@,
            ConflictPolicy::Skip => "SKIP"@,
            ConflictPolicy::Rename => "RENAME"@,
        }
    }

    /// The policy after this one in the cycle Ask, Overwrite, Skip, Rename.
    pub fn next(self) -> (r: Self)
        ensures
            r == self.spec_next(),
    {
        match self {
            ConflictPolicy::Ask => ConflictPolicy::Overwrite,
            ConflictPolicy::Overwrite => ConflictPolicy::Skip,
            ConflictPolicy::Skip => ConflictPolicy::Rename,
            ConflictPolicy::Rename => ConflictPolicy::Ask,
        }
    }

    /// The policy's upper-case name.
    pub fn display(self) -> (r: &'static str)
        ensures
            r@ == self.spec_display(),
    {
        match self {
            ConflictPolicy::Ask => "ASK",
            ConflictPolicy::Overwrite => "OVERWRITE",
            ConflictPolicy::Skip => "SKIP",
            ConflictPolicy::Rename => "RENAME",
        }
    }
}

/// What the destination looked like when the item was staged.
#[derive(Clone, Copy, Debug, PartialEq, Eq, Structural)]
pub enum DestinationExpectation {
    Missing,
    Existing { kind: EntryKind, size: Option<u64> },
}

impl DestinationExpectation {
    pub open spec fn spec_short_label(self) -> Seq<char> {
        match self {
            DestinationExpectation::Missing => "DEST:MISSING"@,
            DestinationExpectation::Existing { kind: EntryKind::Directory, .. } => "DEST:DIRECTORY"@,
            DestinationExpectation::Existing { kind: EntryKind::File, .. } => "DEST:FILE"@,
        }
    }

    /// A compact label for Waybill rows.
    pub fn short_label(self) -> (r: &'static str)
        ensures
            r@ == self.spec_short_label(),
    {
        match self {
            DestinationExpectation::Missing => "DEST:MISSING",
            DestinationExpectation::Existing { kind: EntryKind::Directory, .. } => "DEST:DIRECTORY",
            DestinationExpectation::Existing { kind: EntryKind::File, .. } => "DEST:FILE",
        }
    }
}

/// The execution state of a plan item.
#[derive(Clone, Copy, Debug, PartialEq, Eq, Structural)]
pub enum TransferState {
    Staged,
    Running,
    Succeeded,
    Failed,
    Skipped,
    Cancelled,
}

impl TransferState {
    pub open spec fn spec_display(self) -> Seq<char> {
        match self {
            TransferState::Staged => "STAGED"@,
            TransferState::Running => "RUNNING"@,
            TransferState::Succeeded => "SUCCEEDED"@,
            TransferState::Failed => "FAILED"@,
            TransferState::Skipped => "SKIPPED"@,
            TransferState::Cancelled => "CANCELLED"@,
        }
    }

    /// A terminal state is reached only from `Running` and is never left.
    pub open spec fn is_terminal(self) -> bool {
        match self {
            TransferState::Succeeded | TransferState::Failed | TransferState::Skipped
            | TransferState::Cancelled => true,
            _ => false,
        }
    }

    /// The state's upper-case name.
    pub fn display(self) -> (r: &'static str)
        ensures
            r@ == self.spec_display(),
    {
        match self {
            TransferState::Staged => "STAGED",
            TransferState::Running => "RUNNING",
            TransferState::Succeeded => "SUCCEEDED",
            TransferState::Failed => "FAILED",
            TransferState::Skipped => "SKIPPED",
            TransferState::Cancelled => "CANCELLED",
        }
    }
}

/// The transitions a plan item may take: staged to running, running to a terminal state.
pub open spec fn transition_allowed(from: TransferState, to: TransferState) -> bool {
    (from == TransferState::Staged && to == TransferState::Running) || (from
        == TransferState::Running && to.is_terminal())
}

/// One staged transfer with frozen endpoints.
#[derive(Debug, PartialEq, Eq)]
pub struct TransferPlanItem {
    pub id: u64,
    pub source: Endpoint,
    pub destination: Endpoint,
    pub direction: TransferDirection,
    pub entry_kind: EntryKind,
    pub expected_size: Option<u64>,
    pub destination_expectation: DestinationExpectation,
    pub conflict_policy: ConflictPolicy,
    pub state: TransferState,
}

impl Clone for TransferPlanItem {
    fn clone(&self) -> (r: Self)
        ensures
            r == *self,
    {
        TransferPlanItem {
            id: self.id,
            source: self.source.clone(),
            destination: self.destination.clone(),
            direction: self.direction,
            entry_kind: self.entry_kind,
            expected_size: self.expected_size,
            destination_expectation: self.destination_expectation,
            conflict_policy: self.conflict_policy,
            state: self.state,
        }
    }
}

/// A refused state transition.
#[derive(Clone, Copy, Debug, PartialEq, Eq, Structural)]
pub struct TransferStateTransitionError {
    pub from: TransferState,
    pub to: TransferState,
}

impl TransferPlanItem {
    /// Moves the item to `next` if the transition is allowed; otherwise leaves it unchanged.
    pub fn transition_to(&mut self, next: TransferState) -> (r: Result<(), TransferStateTransitionError>)
        ensures
            transition_allowed(old(self).state, next) ==> r is Ok && *final(self)
                == (TransferPlanItem { state: next, ..*old(self) }),
            !transition_allowed(old(self).state, next) ==> r == Err::<(), _>(
                TransferStateTransitionError { from: old(self).state, to: next },
            ) && *final(self) == *old(self),
    {
        let allowed = match (self.state, next) {
            (TransferState::Staged, TransferState::Running) => true,
            (
                TransferState::Running,
                TransferState::Succeeded
                | TransferState::Failed
                | TransferState::Skipped
                | TransferState::Cancelled,
            ) => true,
            _ => false,
        };
        if !allowed {
            return Err(TransferStateTransitionError { from: self.state, to: next });
        }
        self.state = next;
        Ok(())
    }
}

/// A terminal state is never left, and a terminal result is only ever applied to a
/// running item.
pub proof fn law_terminal_states_are_final(from: TransferState, to: TransferState)
    ensures
        from.is_terminal() ==> !transition_allowed(from, to),
        to.is_terminal() && transition_allowed(from, to) ==> from == TransferState::Running,
        transition_allowed(from, to) ==> from != to,
{
}

/// Pressing the policy key steps Ask, Overwrite, Skip, Rename and back to Ask: from any
/// policy, four steps return to it, and the four policies met on the way are all different,
/// so every policy can be chosen.
pub proof fn law_policy_cycle_visits_every_policy(p: ConflictPolicy)
    ensures
        p.spec_next().spec_next().spec_next().spec_next() == p,
        p != p.spec_next(),
        p != p.spec_next().spec_next(),
        p != p.spec_next().spec_next().spec_next(),
        p.spec_next() != p.spec_next().spec_next(),
        p.spec_next() != p.spec_next().spec_next().spec_next(),
        p.spec_next().spec_next() != p.spec_next().spec_next().spec_next(),
        ConflictPolicy::Ask.spec_next() == ConflictPolicy::Overwrite,
        ConflictPolicy::Ask.spec_next().spec_next() == ConflictPolicy::Skip,
        ConflictPolicy::Ask.spec_next().spec_next().spec_next() == ConflictPolicy::Rename,
{
}

} // verus!
