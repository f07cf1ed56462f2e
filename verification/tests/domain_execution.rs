use xfercat::domain::{
    ConflictPolicy, DestinationExpectation, Endpoint, EntryKind, TransferDirection,
    TransferPlanItem, TransferState, TransferStateTransitionError,
};
use xfercat::executor::{execute_representative, ExecutionSummary};
use xfercat::transport::{
    TransportFailureKind, TransportOutcome, TransportRequest, TransportRequestError,
    TransportResult, TransportSkipReason,
};

fn report_item() -> TransferPlanItem {
    TransferPlanItem {
        id: 1,
        source: Endpoint::local("/outgoing/report.bin"),
        destination: Endpoint::remote("profile-a", "remote-a", "/incoming/report.bin"),
        direction: TransferDirection::Upload,
        entry_kind: EntryKind::File,
        expected_size: Some(4096),
        destination_expectation: DestinationExpectation::Missing,
        conflict_policy: ConflictPolicy::Ask,
        state: TransferState::Staged,
    }
}

#[test]
fn transfer_state_requires_running_before_a_terminal_result() {
    let mut item = report_item();

    assert_eq!(
        item.transition_to(TransferState::Succeeded),
        Err(TransferStateTransitionError {
            from: TransferState::Staged,
            to: TransferState::Succeeded,
        })
    );
    item.transition_to(TransferState::Running)
        .expect("staged item can start");
    item.transition_to(TransferState::Succeeded)
        .expect("running item can succeed");
    assert_eq!(item.state, TransferState::Succeeded);
    assert_eq!(
        item.transition_to(TransferState::Running),
        Err(TransferStateTransitionError {
            from: TransferState::Succeeded,
            to: TransferState::Running,
        })
    );
}

fn numbered_item(id: u64) -> TransferPlanItem {
    TransferPlanItem {
        id,
        source: Endpoint::local(&format!("/outgoing/file-{id}.bin")),
        destination: Endpoint::remote("profile-a", "remote-a", &format!("/incoming/file-{id}.bin")),
        direction: TransferDirection::Upload,
        entry_kind: EntryKind::File,
        expected_size: Some(id * 1024),
        destination_expectation: DestinationExpectation::Missing,
        conflict_policy: ConflictPolicy::Ask,
        state: TransferState::Staged,
    }
}

#[test]
fn representative_execution_preserves_all_item_level_results() {
    let mut plan = (1..=4).map(numbered_item).collect::<Vec<_>>();

    let summary = execute_representative(&mut plan);

    assert_eq!(
        summary,
        ExecutionSummary {
            succeeded: 1,
            failed: 1,
            skipped: 1,
            cancelled: 1,
        }
    );
    assert_eq!(
        plan.iter().map(|item| item.state).collect::<Vec<_>>(),
        vec![
            TransferState::Succeeded,
            TransferState::Failed,
            TransferState::Skipped,
            TransferState::Cancelled,
        ]
    );
}

#[test]
fn terminal_items_are_not_implicitly_rerun() {
    let mut plan = (1..=4).map(numbered_item).collect::<Vec<_>>();
    execute_representative(&mut plan);
    let terminal = plan.clone();

    let summary = execute_representative(&mut plan);

    assert_eq!(summary.total(), 0);
    assert_eq!(plan, terminal);
}

#[test]
fn invalid_request_fails_that_item_and_execution_continues() {
    let mut plan = (1..=4).map(numbered_item).collect::<Vec<_>>();
    plan[0].source.path = "relative.bin".into();

    let summary = execute_representative(&mut plan);

    assert_eq!(summary.failed, 2);
    assert_eq!(
        plan.iter().map(|item| item.state).collect::<Vec<_>>(),
        vec![
            TransferState::Failed,
            TransferState::Failed,
            TransferState::Skipped,
            TransferState::Cancelled,
        ]
    );
}

fn directed_item(direction: TransferDirection) -> TransferPlanItem {
    let (source, destination) = match direction {
        TransferDirection::Upload => (
            Endpoint::local("/outgoing/report.bin"),
            Endpoint::remote("profile-a", "remote-a", "/incoming/report.bin"),
        ),
        TransferDirection::Download => (
            Endpoint::remote("profile-a", "remote-a", "/outgoing/report.bin"),
            Endpoint::local("/incoming/report.bin"),
        ),
    };
    TransferPlanItem {
        id: 42,
        source,
        destination,
        direction,
        entry_kind: EntryKind::File,
        expected_size: Some(4096),
        destination_expectation: DestinationExpectation::Missing,
        conflict_policy: ConflictPolicy::Rename,
        state: TransferState::Staged,
    }
}

#[test]
fn freezes_exact_upload_and_download_requests() {
    let upload = directed_item(TransferDirection::Upload);
    let download = directed_item(TransferDirection::Download);

    let upload_request = TransportRequest::try_from(&upload).expect("valid upload");
    let download_request = TransportRequest::try_from(&download).expect("valid download");

    assert_eq!(upload_request.item_id, upload.id);
    assert_eq!(upload_request.source, upload.source);
    assert_eq!(upload_request.destination, upload.destination);
    assert_eq!(upload_request.entry_kind, EntryKind::File);
    assert_eq!(upload_request.expected_size, Some(4096));
    assert_eq!(upload_request.conflict_policy, ConflictPolicy::Rename);
    assert_eq!(download_request.direction, TransferDirection::Download);
    assert!(download_request.source.profile_id.is_some());
    assert!(download_request.destination.profile_id.is_none());
}

#[test]
fn rejects_invalid_endpoint_roles_without_mutating_the_plan() {
    let mut item = directed_item(TransferDirection::Upload);
    item.source = Endpoint::remote("profile-a", "remote-a", "/incoming/report.bin");
    let original = item.clone();

    let result = TransportRequest::try_from(&item);

    assert_eq!(
        result,
        Err(TransportRequestError::EndpointDirectionMismatch)
    );
    assert_eq!(item, original);
}

#[test]
fn rejects_relative_traversal_and_control_character_paths() {
    let mut item = directed_item(TransferDirection::Upload);
    item.source.path = "outgoing/report.bin".into();
    assert_eq!(
        TransportRequest::try_from(&item),
        Err(TransportRequestError::InvalidSourcePath)
    );

    item.source.path = "/outgoing/../report.bin".into();
    assert_eq!(
        TransportRequest::try_from(&item),
        Err(TransportRequestError::InvalidSourcePath)
    );

    item.source.path = "/outgoing/report.bin".into();
    item.destination.path = "/incoming/report\n.bin".into();
    assert_eq!(
        TransportRequest::try_from(&item),
        Err(TransportRequestError::InvalidDestinationPath)
    );
}

#[test]
fn typed_results_preserve_item_identity_without_raw_diagnostics() {
    let outcomes = [
        TransportOutcome::Succeeded {
            bytes_transferred: 4096,
        },
        TransportOutcome::Skipped {
            reason: TransportSkipReason::ConflictPolicy,
        },
        TransportOutcome::Failed {
            kind: TransportFailureKind::ConnectionLost,
            retryable: true,
        },
        TransportOutcome::Cancelled,
    ];

    for outcome in outcomes {
        let result = TransportResult {
            item_id: 42,
            outcome,
        };
        assert_eq!(result.item_id, 42);
    }
}

#[test]
fn each_counter_is_the_number_of_items_left_in_its_state() {
    let mut plan = (1..=7).map(numbered_item).collect::<Vec<_>>();
    plan[2].state = TransferState::Failed;
    let summary = execute_representative(&mut plan);
    let count = |state: TransferState| plan.iter().filter(|item| item.state == state).count();
    assert_eq!(summary.succeeded, count(TransferState::Succeeded));
    assert_eq!(summary.failed + 1, count(TransferState::Failed));
    assert_eq!(summary.skipped, count(TransferState::Skipped));
    assert_eq!(summary.cancelled, count(TransferState::Cancelled));
    assert_eq!(summary.total(), 6);
}
