use std::path::Path;

use xfercat::domain::{ConflictPolicy, DestinationExpectation, Endpoint, EntryKind, TransferDirection};
use xfercat::transfer::{
    destination_decision, expectation_matches, local_temporary_path,
    remote_atomic_finalization_supported, remote_temporary_path, ObservedDestination,
    ObservedKind,
};
use xfercat::transport::{TransportFailureKind, TransportOutcome, TransportRequest, TransportSkipReason};

fn request(conflict_policy: ConflictPolicy) -> TransportRequest {
    TransportRequest {
        item_id: 42,
        source: Endpoint::local("/outgoing/report.bin"),
        destination: Endpoint::remote("fixture", "fixture", "/incoming/report.bin"),
        direction: TransferDirection::Upload,
        entry_kind: EntryKind::File,
        expected_size: Some(7),
        destination_expectation: DestinationExpectation::Existing {
            kind: EntryKind::File,
            size: Some(7),
        },
        conflict_policy,
    }
}

#[test]
fn destination_expectation_detects_stale_kind_and_size() {
    let expected = DestinationExpectation::Existing {
        kind: EntryKind::File,
        size: Some(7),
    };
    assert!(expectation_matches(
        expected,
        ObservedDestination::Existing {
            kind: ObservedKind::File,
            size: Some(7),
        }
    ));
    assert!(!expectation_matches(
        expected,
        ObservedDestination::Existing {
            kind: ObservedKind::File,
            size: Some(8),
        }
    ));
    assert!(!expectation_matches(
        DestinationExpectation::Missing,
        ObservedDestination::Existing {
            kind: ObservedKind::Other,
            size: None,
        }
    ));
}

#[test]
fn conflict_policy_never_writes_for_ask_rename_or_skip() {
    let observed = ObservedDestination::Existing {
        kind: ObservedKind::File,
        size: Some(7),
    };
    let mut request = request(ConflictPolicy::Ask);
    assert!(matches!(
        destination_decision(&request, observed),
        Some(TransportOutcome::Failed {
            kind: TransportFailureKind::DestinationConflict,
            ..
        })
    ));
    request.conflict_policy = ConflictPolicy::Rename;
    assert!(matches!(
        destination_decision(&request, observed),
        Some(TransportOutcome::Failed {
            kind: TransportFailureKind::DestinationConflict,
            ..
        })
    ));
    request.conflict_policy = ConflictPolicy::Skip;
    assert_eq!(
        destination_decision(&request, observed),
        Some(TransportOutcome::Skipped {
            reason: TransportSkipReason::ConflictPolicy
        })
    );
    request.conflict_policy = ConflictPolicy::Overwrite;
    assert_eq!(destination_decision(&request, observed), None);
}

#[test]
fn remote_transfer_requires_the_atomic_extension_for_its_destination_state() {
    assert!(remote_atomic_finalization_supported(
        DestinationExpectation::Missing,
        true,
        false,
    ));
    assert!(!remote_atomic_finalization_supported(
        DestinationExpectation::Missing,
        false,
        true,
    ));

    let existing = DestinationExpectation::Existing {
        kind: EntryKind::File,
        size: Some(7),
    };
    assert!(remote_atomic_finalization_supported(existing, false, true));
    assert!(!remote_atomic_finalization_supported(existing, true, false));
}

#[test]
fn temporary_names_are_hidden_siblings_without_changing_the_destination() {
    let remote = remote_temporary_path("/incoming/report.bin", 42, 1).expect("remote temp");
    let local = local_temporary_path("/incoming/report.bin", 42, 1).expect("local temp");
    let local = Path::new(&local);
    assert!(remote.starts_with("/incoming/.report.bin.xfercat-42-"));
    assert!(remote.ends_with(".part"));
    assert_eq!(local.parent(), Some(Path::new("/incoming")));
    assert!(
        local
            .file_name()
            .expect("local temp name")
            .to_string_lossy()
            .starts_with(".report.bin.xfercat-42-")
    );
}

#[test]
fn different_nonces_give_different_temporaries() {
    let first = remote_temporary_path("/incoming/report.bin", 42, 1).expect("remote temp");
    let second = remote_temporary_path("/incoming/report.bin", 42, 11).expect("remote temp");
    assert_ne!(first, second);
    assert_ne!(first, "/incoming/report.bin");
    assert_eq!(first, "/incoming/.report.bin.xfercat-42-1.part");
    assert_eq!(remote_temporary_path("/incoming/", 42, 1), None);
}
