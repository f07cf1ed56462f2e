use xfercat::domain::{ConflictPolicy, DestinationExpectation, Endpoint, EntryKind, TransferDirection};
use xfercat::transfer::{
    FileFacts, FsError, LocalErrorKind, ObservedDestination, ObservedKind, RemoteErrorKind,
    TransferAction, TransferEvent, TransferPhase, TransferRun,
};
use xfercat::transport::{TransportFailureKind, TransportOutcome, TransportRequest, TransportSkipReason};

fn upload(expectation: DestinationExpectation, policy: ConflictPolicy) -> TransportRequest {
    TransportRequest {
        item_id: 7,
        source: Endpoint::local("/outgoing/report.bin"),
        destination: Endpoint::remote("fixture", "fixture", "/incoming/report.bin"),
        direction: TransferDirection::Upload,
        entry_kind: EntryKind::File,
        expected_size: Some(5),
        destination_expectation: expectation,
        conflict_policy: policy,
    }
}

fn download() -> TransportRequest {
    TransportRequest {
        item_id: 8,
        source: Endpoint::remote("fixture", "fixture", "/srv/report.bin"),
        destination: Endpoint::local("/incoming/report.bin"),
        direction: TransferDirection::Download,
        entry_kind: EntryKind::File,
        expected_size: Some(5),
        destination_expectation: DestinationExpectation::Missing,
        conflict_policy: ConflictPolicy::Ask,
    }
}

fn file(size: u64) -> FileFacts {
    FileFacts { kind: Some(ObservedKind::File), size: Some(size) }
}

fn feed(run: &mut TransferRun, event: TransferEvent) -> TransferAction {
    assert!(run.expects(event));
    run.step(event)
}

fn failed(kind: TransportFailureKind, retryable: bool) -> TransportOutcome {
    TransportOutcome::Failed { kind, retryable }
}

#[test]
fn upload_to_a_missing_destination_links_a_verified_copy() {
    let (mut run, action) = TransferRun::start(upload(DestinationExpectation::Missing, ConflictPolicy::Ask), 3);
    assert_eq!(action, TransferAction::InspectSource);
    assert_eq!(feed(&mut run, TransferEvent::SourceRead(file(5))), TransferAction::ObserveDestination);
    assert_eq!(
        feed(&mut run, TransferEvent::DestinationUnreadable(FsError::Remote(RemoteErrorKind::NoSuchFile))),
        TransferAction::QueryExtensions
    );
    assert_eq!(
        feed(&mut run, TransferEvent::Extensions { hardlink: true, posix_rename: false }),
        TransferAction::Copy
    );
    assert_eq!(run.temporary, "/incoming/.report.bin.xfercat-7-3.part");
    assert_eq!(feed(&mut run, TransferEvent::Copied(5)), TransferAction::InspectTemporary);
    assert_eq!(feed(&mut run, TransferEvent::TemporaryRead(file(5))), TransferAction::RecheckSource);
    assert_eq!(feed(&mut run, TransferEvent::SourceRead(file(5))), TransferAction::RecheckDestination);
    assert_eq!(
        feed(&mut run, TransferEvent::DestinationRead(ObservedDestination::Missing)),
        TransferAction::Link
    );
    assert_eq!(
        feed(&mut run, TransferEvent::Finalized),
        TransferAction::Finish(TransportOutcome::Succeeded { bytes_transferred: 5 })
    );
    assert_eq!(run.phase, TransferPhase::Finished);
}

#[test]
fn overwrite_of_an_unchanged_file_renames_over_it() {
    let existing = DestinationExpectation::Existing { kind: EntryKind::File, size: Some(9) };
    let observed = ObservedDestination::Existing { kind: ObservedKind::File, size: Some(9) };
    let (mut run, _) = TransferRun::start(upload(existing, ConflictPolicy::Overwrite), 1);
    feed(&mut run, TransferEvent::SourceRead(file(5)));
    assert_eq!(feed(&mut run, TransferEvent::DestinationRead(observed)), TransferAction::QueryExtensions);
    assert_eq!(
        feed(&mut run, TransferEvent::Extensions { hardlink: true, posix_rename: false }),
        TransferAction::Finish(failed(TransportFailureKind::Unsupported, false))
    );

    let (mut run, _) = TransferRun::start(upload(existing, ConflictPolicy::Overwrite), 1);
    feed(&mut run, TransferEvent::SourceRead(file(5)));
    feed(&mut run, TransferEvent::DestinationRead(observed));
    feed(&mut run, TransferEvent::Extensions { hardlink: false, posix_rename: true });
    feed(&mut run, TransferEvent::Copied(5));
    feed(&mut run, TransferEvent::TemporaryRead(file(5)));
    feed(&mut run, TransferEvent::SourceRead(file(5)));
    assert_eq!(feed(&mut run, TransferEvent::DestinationRead(observed)), TransferAction::Rename);
    assert_eq!(
        feed(&mut run, TransferEvent::FinalizeFailed(FsError::Remote(RemoteErrorKind::PermissionDenied))),
        TransferAction::Abandon(failed(TransportFailureKind::PermissionDenied, true))
    );
}

#[test]
fn existing_destination_is_skipped_or_refused_before_any_write() {
    let existing = DestinationExpectation::Existing { kind: EntryKind::File, size: None };
    let observed = ObservedDestination::Existing { kind: ObservedKind::File, size: Some(2) };
    let (mut run, _) = TransferRun::start(upload(existing, ConflictPolicy::Skip), 1);
    feed(&mut run, TransferEvent::SourceRead(file(5)));
    assert_eq!(
        feed(&mut run, TransferEvent::DestinationRead(observed)),
        TransferAction::Finish(TransportOutcome::Skipped { reason: TransportSkipReason::ConflictPolicy })
    );
    let (mut run, _) = TransferRun::start(upload(existing, ConflictPolicy::Ask), 1);
    feed(&mut run, TransferEvent::SourceRead(file(5)));
    assert_eq!(
        feed(&mut run, TransferEvent::DestinationRead(observed)),
        TransferAction::Finish(failed(TransportFailureKind::DestinationConflict, false))
    );
    let (mut run, _) = TransferRun::start(upload(DestinationExpectation::Missing, ConflictPolicy::Overwrite), 1);
    feed(&mut run, TransferEvent::SourceRead(file(5)));
    assert_eq!(
        feed(&mut run, TransferEvent::DestinationRead(observed)),
        TransferAction::Finish(failed(TransportFailureKind::StaleDestination, false))
    );
}

#[test]
fn stale_or_unsupported_sources_end_before_the_copy() {
    let mut request = upload(DestinationExpectation::Missing, ConflictPolicy::Ask);
    request.entry_kind = EntryKind::Directory;
    let (run, action) = TransferRun::start(request, 1);
    assert_eq!(run.phase, TransferPhase::Finished);
    assert_eq!(action, TransferAction::Finish(failed(TransportFailureKind::Unsupported, false)));

    let (mut run, _) = TransferRun::start(upload(DestinationExpectation::Missing, ConflictPolicy::Ask), 1);
    assert_eq!(
        feed(&mut run, TransferEvent::SourceRead(file(6))),
        TransferAction::Finish(failed(TransportFailureKind::StaleSource, false))
    );
    let (mut run, _) = TransferRun::start(upload(DestinationExpectation::Missing, ConflictPolicy::Ask), 1);
    assert_eq!(
        feed(&mut run, TransferEvent::SourceRead(FileFacts { kind: Some(ObservedKind::Other), size: Some(5) })),
        TransferAction::Finish(failed(TransportFailureKind::Unsupported, false))
    );
    let (mut run, _) = TransferRun::start(upload(DestinationExpectation::Missing, ConflictPolicy::Ask), 1);
    assert_eq!(
        feed(&mut run, TransferEvent::SourceUnreadable(FsError::Local(LocalErrorKind::NotFound))),
        TransferAction::Finish(failed(TransportFailureKind::SourceNotFound, true))
    );
}

#[test]
fn failures_after_the_copy_began_remove_the_temporary() {
    let (mut run, _) = TransferRun::start(download(), 2);
    feed(&mut run, TransferEvent::SourceRead(file(5)));
    assert_eq!(
        feed(&mut run, TransferEvent::DestinationUnreadable(FsError::Local(LocalErrorKind::NotFound))),
        TransferAction::Copy
    );
    assert_eq!(run.temporary, "/incoming/.report.bin.xfercat-8-2.part");
    assert_eq!(
        feed(&mut run, TransferEvent::Copied(4)),
        TransferAction::Abandon(failed(TransportFailureKind::StaleSource, false))
    );

    let (mut run, _) = TransferRun::start(download(), 2);
    feed(&mut run, TransferEvent::SourceRead(file(5)));
    feed(&mut run, TransferEvent::DestinationRead(ObservedDestination::Missing));
    assert_eq!(
        feed(&mut run, TransferEvent::TemporaryCreateFailed(FsError::Local(LocalErrorKind::AlreadyExists))),
        TransferAction::Finish(failed(TransportFailureKind::DestinationConflict, false))
    );

    let (mut run, _) = TransferRun::start(download(), 2);
    feed(&mut run, TransferEvent::SourceRead(file(5)));
    feed(&mut run, TransferEvent::DestinationRead(ObservedDestination::Missing));
    feed(&mut run, TransferEvent::Copied(5));
    assert_eq!(
        feed(&mut run, TransferEvent::TemporaryRead(file(4))),
        TransferAction::Abandon(failed(TransportFailureKind::LocalFilesystem, true))
    );

    let (mut run, _) = TransferRun::start(download(), 2);
    feed(&mut run, TransferEvent::SourceRead(file(5)));
    feed(&mut run, TransferEvent::DestinationRead(ObservedDestination::Missing));
    feed(&mut run, TransferEvent::Copied(5));
    feed(&mut run, TransferEvent::TemporaryRead(file(5)));
    feed(&mut run, TransferEvent::SourceRead(file(5)));
    assert_eq!(
        feed(&mut run, TransferEvent::DestinationRead(ObservedDestination::Existing { kind: ObservedKind::File, size: Some(1) })),
        TransferAction::Abandon(failed(TransportFailureKind::StaleDestination, false))
    );

    let (mut run, _) = TransferRun::start(download(), 2);
    feed(&mut run, TransferEvent::SourceRead(file(5)));
    feed(&mut run, TransferEvent::DestinationRead(ObservedDestination::Missing));
    feed(&mut run, TransferEvent::Copied(5));
    feed(&mut run, TransferEvent::TemporaryRead(file(5)));
    feed(&mut run, TransferEvent::SourceRead(file(5)));
    assert_eq!(feed(&mut run, TransferEvent::DestinationRead(ObservedDestination::Missing)), TransferAction::Link);
    assert_eq!(
        feed(&mut run, TransferEvent::FinalizeFailed(FsError::Local(LocalErrorKind::AlreadyExists))),
        TransferAction::Abandon(failed(TransportFailureKind::StaleDestination, false))
    );
}

#[test]
fn remote_errors_keep_their_categories() {
    let (mut run, _) = TransferRun::start(download(), 2);
    assert_eq!(
        feed(&mut run, TransferEvent::SourceUnreadable(FsError::Remote(RemoteErrorKind::NoSuchFile))),
        TransferAction::Finish(failed(TransportFailureKind::SourceNotFound, false))
    );
    let (mut run, _) = TransferRun::start(download(), 2);
    assert_eq!(
        feed(&mut run, TransferEvent::SourceUnreadable(FsError::Remote(RemoteErrorKind::ConnectionLost))),
        TransferAction::Finish(failed(TransportFailureKind::ConnectionLost, true))
    );
    let (mut run, _) = TransferRun::start(upload(DestinationExpectation::Missing, ConflictPolicy::Ask), 1);
    feed(&mut run, TransferEvent::SourceRead(file(5)));
    feed(&mut run, TransferEvent::DestinationRead(ObservedDestination::Missing));
    feed(&mut run, TransferEvent::Extensions { hardlink: true, posix_rename: true });
    feed(&mut run, TransferEvent::Copied(5));
    feed(&mut run, TransferEvent::TemporaryRead(file(5)));
    feed(&mut run, TransferEvent::SourceRead(file(5)));
    feed(&mut run, TransferEvent::DestinationRead(ObservedDestination::Missing));
    assert_eq!(
        feed(&mut run, TransferEvent::FinalizeFailed(FsError::Remote(RemoteErrorKind::Failure))),
        TransferAction::Abandon(failed(TransportFailureKind::StaleDestination, false))
    );
    assert!(!run.expects(TransferEvent::Finalized));
}
