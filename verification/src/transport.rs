//! The frozen request a transport executes and the typed results it reports.
use vstd::prelude::*;

use crate::domain::{ConflictPolicy, DestinationExpectation, Endpoint, EntryKind, TransferDirection, TransferPlanItem};
use crate::text;
use crate::text::{any_control, chars_of};
use vstd::std_specs::convert::TryFromSpecImpl;

verus! {

/// An immutable snapshot of a plan item for the transport.
#[derive(Debug, PartialEq, Eq)]
pub struct TransportRequest {
    pub item_id: u64,
    pub source: Endpoint,
    pub destination: Endpoint,
    pub direction: TransferDirection,
    pub entry_kind: EntryKind,
    pub expected_size: Option<u64>,
    pub destination_expectation: DestinationExpectation,
    pub conflict_policy: ConflictPolicy,
}

impl Clone for TransportRequest {
    fn clone(&self) -> (r: Self)
        ensures
            r == *self,
    {
        TransportRequest {
            item_id: self.item_id,
            source: self.source.clone(),
            destination: self.destination.clone(),
            direction: self.direction,
            entry_kind: self.entry_kind,
            expected_size: self.expected_size,
            destination_expectation: self.destination_expectation,
            conflict_policy: self.conflict_policy,
        }
    }
}

/// Why a plan item cannot become a transport request.
#[derive(Clone, Copy, Debug, PartialEq, Eq, Structural)]
pub enum TransportRequestError {
    InvalidSourcePath,
    InvalidDestinationPath,
    EndpointDirectionMismatch,
}

/// Why a transfer was skipped.
#[derive(Clone, Copy, Debug, PartialEq, Eq, Structural)]
pub enum TransportSkipReason {
    ConflictPolicy,
    DestinationAlreadyCurrent,
}

/// The stable category of a failed transfer.
#[derive(Clone, Copy, Debug, PartialEq, Eq, Structural)]
pub enum TransportFailureKind {
    Authentication,
    HostVerification,
    SourceNotFound,
    PermissionDenied,
    DestinationConflict,
    StaleDestination,
    StaleSource,
    ConnectionLost,
    LocalFilesystem,
    RemoteFilesystem,
    Unsupported,
}

/// The outcome of one transfer, without raw diagnostics.
#[derive(Clone, Copy, Debug, PartialEq, Eq, Structural)]
pub enum TransportOutcome {
    Succeeded { bytes_transferred: u64 },
    Skipped { reason: TransportSkipReason },
    Failed { kind: TransportFailureKind, retryable: bool },
    Cancelled,
}

/// The outcome reported for one plan item.
#[derive(Clone, Copy, Debug, PartialEq, Eq, Structural)]
pub struct TransportResult {
    pub item_id: u64,
    pub outcome: TransportOutcome,
}

/// A `.` or `..` component starts at `i`.
pub open spec fn dot_component_at(s: Seq<char>, i: int) -> bool {
    &&& 0 <= i < s.len()
    &&& s[i] == '.'
    &&& i == 0 || s[i - 1] == '/'
    &&& (i + 1 == s.len() || s[i + 1] == '/') || (i + 1 < s.len() && s[i + 1] == '.' && (i + 2
        == s.len() || s[i + 2] == '/'))
}

/// An absolute path without control characters and without `.` or `..` components.
pub open spec fn is_valid_logical_path(s: Seq<char>) -> bool {
    &&& s.len() > 0 && s[0] == '/'
    &&& !text::has_control(s)
    &&& !(exists|i: int| dot_component_at(s, i))
}

/// Checks a logical path as `is_valid_logical_path` describes.
pub fn valid_logical_path(path: &str) -> (r: bool)
    ensures
        r == is_valid_logical_path(path@),
{
    let v = chars_of(path);
    if v.len() == 0 || v[0] != '/' {
        return false;
    }
    if any_control(&v) {
        return false;
    }
    let n = v.len();
    let mut i: usize = 0;
    while i < n
        invariant
            n == v.len(),
            v@ == path@,
            i <= n,
            forall|j: int| 0 <= j < i ==> !dot_component_at(v@, j),
        decreases n - i,
    {
        if v[i] == '.' && (i == 0 || v[i - 1] == '/') {
            let single = i + 1 == n || v[i + 1] == '/';
            let double = i + 1 < n && v[i + 1] == '.' && (i + 2 == n || v[i + 2] == '/');
            if single || double {
                assert(dot_component_at(v@, i as int));
                return false;
            }
        }
        i = i + 1;
    }
    true
}

impl TransportRequest {
    /// What `try_from` computes for a plan item.
    pub open spec fn spec_from_item(item: TransferPlanItem) -> Result<
        TransportRequest,
        TransportRequestError,
    > {
        if !is_valid_logical_path(item.source.path@) {
            Err(TransportRequestError::InvalidSourcePath)
        } else if !is_valid_logical_path(item.destination.path@) {
            Err(TransportRequestError::InvalidDestinationPath)
        } else if !(match item.direction {
            TransferDirection::Upload => item.source.profile_id is None
                && item.destination.profile_id is Some,
            TransferDirection::Download => item.source.profile_id is Some
                && item.destination.profile_id is None,
        }) {
            Err(TransportRequestError::EndpointDirectionMismatch)
        } else {
            Ok(
                TransportRequest {
                    item_id: item.id,
                    source: item.source,
                    destination: item.destination,
                    direction: item.direction,
                    entry_kind: item.entry_kind,
                    expected_size: item.expected_size,
                    destination_expectation: item.destination_expectation,
                    conflict_policy: item.conflict_policy,
                },
            )
        }
    }

    /// Validates the item's paths and endpoint roles and freezes its transfer fields.
    pub fn from_item(item: &TransferPlanItem) -> (r: Result<TransportRequest, TransportRequestError>)
        ensures
            r == Self::spec_from_item(*item),
    {
        if !valid_logical_path(item.source.path.as_str()) {
            return Err(TransportRequestError::InvalidSourcePath);
        }
        if !valid_logical_path(item.destination.path.as_str()) {
            return Err(TransportRequestError::InvalidDestinationPath);
        }
        let source_is_remote = item.source.profile_id.is_some();
        let destination_is_remote = item.destination.profile_id.is_some();
        let endpoint_roles_match = match item.direction {
            TransferDirection::Upload => !source_is_remote && destination_is_remote,
            TransferDirection::Download => source_is_remote && !destination_is_remote,
        };
        if !endpoint_roles_match {
            return Err(TransportRequestError::EndpointDirectionMismatch);
        }
        Ok(
            TransportRequest {
                item_id: item.id,
                source: item.source.clone(),
                destination: item.destination.clone(),
                direction: item.direction,
                entry_kind: item.entry_kind,
                expected_size: item.expected_size,
                destination_expectation: item.destination_expectation,
                conflict_policy: item.conflict_policy,
            },
        )
    }
}

impl<'a> TryFrom<&'a TransferPlanItem> for TransportRequest {
    type Error = TransportRequestError;

    fn try_from(item: &'a TransferPlanItem) -> (r: Result<Self, Self::Error>) {
        TransportRequest::from_item(item)
    }
}

impl<'a> TryFromSpecImpl<&'a TransferPlanItem> for TransportRequest {
    open spec fn obeys_try_from_spec() -> bool {
        true
    }

    open spec fn try_from_spec(item: &'a TransferPlanItem) -> Result<Self, Self::Error> {
        TransportRequest::spec_from_item(*item)
    }
}

} // verus!
