use xfercat::app::interactive::{interactive_effect, Effect};
use xfercat::app::snapshot::{snapshot_app, snapshot_kind, SnapshotKind};
use xfercat::app::{Action, App, ExecutionMode, Focus, Screen};
use xfercat::domain::TransferState;
use xfercat::executor::ExecutionSummary;
use xfercat::sftp::{RemoteDirectory, SftpFailure, SftpFailureKind};

#[test]
fn snapshot_names_are_read_and_others_refused() {
    assert_eq!(snapshot_kind("connections"), Some(SnapshotKind::Connections));
    assert_eq!(snapshot_kind("openssh-empty"), Some(SnapshotKind::OpenSshEmpty));
    assert_eq!(snapshot_kind("live-review"), Some(SnapshotKind::LiveReview));
    assert_eq!(snapshot_kind("results"), Some(SnapshotKind::Results));
    assert_eq!(snapshot_kind("Review"), None);
    assert_eq!(snapshot_kind(""), None);
}

#[test]
fn snapshot_scenarios_build_their_screens() {
    let connections = snapshot_app(SnapshotKind::Connections);
    assert_eq!(connections.screen, Screen::Connections);
    assert_eq!(connections, App::demo());

    let openssh = snapshot_app(SnapshotKind::OpenSsh);
    assert_eq!(openssh.profiles.len(), 2);
    assert_eq!(openssh.profiles[1].label, "release-box");
    assert!(snapshot_app(SnapshotKind::OpenSshEmpty).profiles.is_empty());

    assert_eq!(snapshot_app(SnapshotKind::ProfileAdd).screen, Screen::ProfileEditor);

    let workspace = snapshot_app(SnapshotKind::Workspace);
    assert_eq!(workspace.screen, Screen::Workspace);
    assert_eq!(workspace.plan.len(), 2);
    assert_eq!(workspace.focus, Focus::Waybill);

    let rename = snapshot_app(SnapshotKind::Rename);
    assert_eq!(rename.screen, Screen::Rename);
    assert_eq!(rename.rename_buffer, "service-copy.log");

    let review = snapshot_app(SnapshotKind::Review);
    assert_eq!(review.screen, Screen::Review);
    assert!(review.plan.iter().any(|item| item.destination.path.ends_with("/service-copy.log")));
    assert_eq!(snapshot_app(SnapshotKind::LiveReview).execution_mode, ExecutionMode::Live);

    let results = snapshot_app(SnapshotKind::Results);
    assert_eq!(results.plan.len(), 4);
    assert!(results.plan.iter().all(|item| item.state != TransferState::Staged));
}

#[test]
fn actions_ask_for_the_outside_work_they_need() {
    let mut app = App::demo();
    assert_eq!(interactive_effect(&app, Action::Quit, false), Effect::Quit);
    assert_eq!(interactive_effect(&app, Action::RefreshOpenSshProfiles, false), Effect::Refresh);
    assert_eq!(interactive_effect(&app, Action::Activate, false), Effect::Connect { profile: 0 });
    assert_eq!(interactive_effect(&app, Action::Down, false), Effect::Update);

    app.profiles.clear();
    assert_eq!(
        interactive_effect(&app, Action::Activate, false),
        Effect::Status("No profile selected; refresh OpenSSH or add one manually.".into())
    );

    let mut app = App::demo();
    app.screen = Screen::Workspace;
    app.local_selection = 0;
    assert_eq!(
        interactive_effect(&app, Action::Activate, false),
        Effect::ReadLocal("/workspace/outgoing/releases".into())
    );
    app.local_selection = 1;
    assert_eq!(
        interactive_effect(&app, Action::Activate, false),
        Effect::Status("Selected local file; press Space to stage it.".into())
    );
    app.focus = Focus::Remote;
    app.remote_selection = 0;
    assert_eq!(
        interactive_effect(&app, Action::Activate, true),
        Effect::ReadRemote("/srv/xfercat/releases".into())
    );
    assert_eq!(
        interactive_effect(&app, Action::Activate, false),
        Effect::Status("Remote session is not available.".into())
    );
    app.focus = Focus::Waybill;
    assert_eq!(interactive_effect(&app, Action::Activate, false), Effect::Update);
    assert_eq!(interactive_effect(&app, Action::Back, true), Effect::CloseSessionThenUpdate);

    app.screen = Screen::Review;
    assert_eq!(interactive_effect(&app, Action::Activate, true), Effect::Update);
    app.execution_mode = ExecutionMode::Live;
    assert_eq!(interactive_effect(&app, Action::Activate, true), Effect::ExecuteLive);
    assert_eq!(
        interactive_effect(&app, Action::Activate, false),
        Effect::Status("Remote session is not available.".into())
    );
}

#[test]
fn outside_results_update_the_state() {
    let mut app = App::demo();
    app.begin_connect();
    assert_eq!(app.status, "Connecting with strict SSH host verification...");
    app.after_connect(
        "synthetic:dev-box",
        RemoteDirectory { path: "/home/deploy".into(), entries: Vec::new(), skipped_entries: 0 },
    );
    assert_eq!(app.screen, Screen::Workspace);
    assert_eq!(app.execution_mode, ExecutionMode::Live);
    assert_eq!(app.remote_directory, "/home/deploy");
    assert_eq!(app.connected_profile_id.as_deref(), Some("synthetic:dev-box"));

    app.after_live_execution(ExecutionSummary { succeeded: 2, failed: 1, skipped: 0, cancelled: 3 });
    assert_eq!(app.status, "Transferred: 2 succeeded, 1 failed, 0 skipped, 3 cancelled.");

    app.after_local_read_failure();
    assert_eq!(app.status, "Local directory could not be opened.");
    app.after_sftp_failure(SftpFailure { kind: SftpFailureKind::InvalidProfile, retryable: false });
    assert_eq!(app.status, "Connection profile is not usable for SFTP.");

    app.after_workspace_back();
    assert_eq!(app.screen, Screen::Connections);
    assert_eq!(app.execution_mode, ExecutionMode::Fixture);
}

#[test]
fn a_missing_current_directory_empties_the_local_browser() {
    let mut app = App::demo();
    app.local_directory_unavailable("Imported 0 OpenSSH profile(s).");
    assert_eq!(app.local_directory, "<unavailable>");
    assert!(app.local_entries.is_empty());
    assert_eq!(app.local_selection, 0);
    assert_eq!(app.status, "Imported 0 OpenSSH profile(s). Local directory unavailable.");
}
