use xfercat::app::{Action, App, Focus, ProfileAuthentication, ProfileField, Screen};
use xfercat::domain::{
    Authentication, BrowserEntry, ConflictPolicy, ConnectionProfile, EntryKind, TransferState,
};
use xfercat::localfs::LocalDirectory;
use xfercat::sftp::RemoteDirectory;

#[test]
fn cancelled_profile_edit_is_isolated_from_connect() {
    let mut app = App::demo();
    let original = app.profiles.clone();

    app.update(Action::Down);
    app.update(Action::EditProfile);
    app.update(Action::InputProfileChar('x'));

    assert_eq!(app.screen, Screen::ProfileEditor);
    assert_eq!(app.profiles, original);

    app.update(Action::Back);
    app.update(Action::Activate);

    assert_eq!(app.profiles, original);
    assert_eq!(app.connected_profile_id.as_deref(), Some("archive"));
}

#[test]
fn creating_profile_adds_a_unique_stable_catalog_item() {
    let mut app = App::demo();

    app.update(Action::AddProfile);
    input_profile_text(&mut app, "lab box");
    app.update(Action::NextProfileField);
    input_profile_text(&mut app, "builder");
    app.update(Action::NextProfileField);
    input_profile_text(&mut app, "lab.example");
    app.update(Action::NextProfileField);
    app.update(Action::ToggleProfileAuthentication);
    app.update(Action::NextProfileField);
    input_profile_text(&mut app, "lab-key");
    app.update(Action::Activate);

    assert_eq!(app.screen, Screen::Connections);
    assert_eq!(app.selected_profile, 2);
    assert_eq!(app.profiles.len(), 3);
    assert_eq!(app.profiles[2].id, "custom-1");
    assert_eq!(app.profiles[2].label, "lab box");
    assert_eq!(app.profiles[2].user, "builder");
    assert_eq!(app.profiles[2].host, "lab.example");
    assert_eq!(
        app.profiles[2].authentication,
        Authentication::KeyReference("lab-key".into())
    );
}

#[test]
fn editing_profile_preserves_identity_and_other_catalog_items() {
    let mut app = App::demo();
    let untouched = app.profiles[0].clone();

    app.update(Action::Down);
    let stable_id = app.profiles[1].id.clone();
    app.update(Action::EditProfile);
    clear_profile_field(&mut app);
    input_profile_text(&mut app, "cold archive");
    app.update(Action::NextProfileField);
    clear_profile_field(&mut app);
    input_profile_text(&mut app, "backup");
    app.update(Action::Activate);

    assert_eq!(app.screen, Screen::Connections);
    assert_eq!(app.profiles[0], untouched);
    assert_eq!(app.profiles[1].id, stable_id);
    assert_eq!(app.profiles[1].label, "cold archive");
    assert_eq!(app.profiles[1].user, "backup");
    assert_eq!(
        app.profiles[1].authentication,
        Authentication::KeyReference("archive-key".into())
    );
}

#[test]
fn invalid_or_duplicate_profile_never_mutates_catalog() {
    let mut app = App::demo();
    let original = app.profiles.clone();

    app.update(Action::AddProfile);
    input_profile_text(&mut app, "DEV-BOX");
    app.update(Action::Activate);

    assert_eq!(app.screen, Screen::ProfileEditor);
    assert_eq!(app.profiles, original);
    assert_eq!(app.status, "Profile label must be unique.");

    clear_profile_field(&mut app);
    input_profile_text(&mut app, "new-box");
    app.update(Action::NextProfileField);
    input_profile_text(&mut app, "builder");
    app.update(Action::NextProfileField);
    input_profile_text(&mut app, "new.example");
    app.update(Action::NextProfileField);
    app.update(Action::ToggleProfileAuthentication);
    app.update(Action::Activate);

    assert_eq!(app.screen, Screen::ProfileEditor);
    assert_eq!(app.profiles, original);
    assert_eq!(app.status, "Key reference cannot be empty.");

    app.update(Action::Back);
    assert_eq!(app.screen, Screen::Connections);
    assert_eq!(app.profiles, original);
}

#[test]
fn authentication_changes_only_from_its_selected_field() {
    let mut app = App::demo();
    app.update(Action::AddProfile);

    app.update(Action::ToggleProfileAuthentication);
    assert_eq!(
        app.profile_editor
            .as_ref()
            .expect("profile editor is active")
            .authentication,
        ProfileAuthentication::SshAgent
    );

    app.update(Action::NextProfileField);
    app.update(Action::NextProfileField);
    app.update(Action::NextProfileField);
    assert_eq!(
        app.profile_editor
            .as_ref()
            .expect("profile editor is active")
            .field,
        ProfileField::Authentication
    );

    app.update(Action::InputProfileChar('x'));
    assert_eq!(
        app.profile_editor
            .as_ref()
            .expect("profile editor is active")
            .authentication,
        ProfileAuthentication::SshAgent
    );
    app.update(Action::ToggleProfileAuthentication);
    assert_eq!(
        app.profile_editor
            .as_ref()
            .expect("profile editor is active")
            .authentication,
        ProfileAuthentication::KeyReference
    );
}

#[test]
fn runtime_catalog_uses_imported_profiles_and_keeps_them_read_only() {
    let mut app = App::runtime(
        vec![
            ConnectionProfile::open_ssh("build-box"),
            ConnectionProfile::open_ssh("release-box"),
        ],
        "Imported 2 OpenSSH profile(s).",
    );

    assert_eq!(app.profiles.len(), 2);
    assert!(app.profiles.iter().all(ConnectionProfile::is_open_ssh));
    assert!(
        app.profiles
            .iter()
            .all(|profile| profile.label != "dev-box")
    );

    app.update(Action::EditProfile);
    assert_eq!(app.screen, Screen::Connections);
    assert!(app.profile_editor.is_none());
    assert!(app.status.contains("read-only"));

    app.update(Action::Activate);
    assert_eq!(app.screen, Screen::Workspace);
    assert_eq!(
        app.connected_profile_id.as_deref(),
        Some("openssh:build-box")
    );
    assert!(app.status.contains("workspace remains synthetic"));
}

#[test]
fn refresh_replaces_imports_but_preserves_manual_profiles_and_staged_plan() {
    let mut app = App::runtime(
        vec![ConnectionProfile::open_ssh("build-box")],
        "Imported 1 OpenSSH profile(s).",
    );
    app.update(Action::Activate);
    app.update(Action::AddToPlan);
    let staged = app.plan.clone();
    app.update(Action::Back);

    app.update(Action::AddProfile);
    input_profile_text(&mut app, "manual-box");
    app.update(Action::NextProfileField);
    input_profile_text(&mut app, "builder");
    app.update(Action::NextProfileField);
    input_profile_text(&mut app, "manual.example");
    app.update(Action::Activate);
    let manual_id = app.profiles[app.selected_profile].id.clone();

    app.refresh_open_ssh_profiles(
        vec![ConnectionProfile::open_ssh("release-box")],
        "Imported 1 OpenSSH profile(s).",
    );

    assert_eq!(app.plan, staged);
    assert!(app.connected_profile_id.is_none());
    assert!(app.profiles.iter().any(|profile| profile.id == manual_id));
    assert!(
        app.profiles
            .iter()
            .any(|profile| profile.id == "openssh:release-box")
    );
    assert!(
        app.profiles
            .iter()
            .all(|profile| profile.id != "openssh:build-box")
    );
    assert_eq!(app.profiles[app.selected_profile].id, manual_id);
}

#[test]
fn empty_runtime_catalog_is_safe_and_manual_add_remains_available() {
    let mut app = App::runtime(Vec::new(), "No OpenSSH user config found.");

    app.update(Action::Up);
    app.update(Action::Down);
    app.update(Action::Activate);
    app.update(Action::EditProfile);

    assert_eq!(app.screen, Screen::Connections);
    assert!(app.profiles.is_empty());
    assert!(app.status.contains("No profile selected"));

    app.update(Action::AddProfile);
    assert_eq!(app.screen, Screen::ProfileEditor);
}

#[test]
fn editing_connected_profile_does_not_rewrite_staged_endpoints() {
    let mut app = App::demo();
    app.update(Action::Activate);
    app.update(Action::AddToPlan);
    let staged = app.plan[0].clone();

    app.update(Action::Back);
    app.update(Action::EditProfile);
    clear_profile_field(&mut app);
    input_profile_text(&mut app, "renamed dev");
    app.update(Action::Activate);

    assert_eq!(app.profiles[0].id, "dev-box");
    assert_eq!(app.plan[0], staged);
}

#[test]
fn deleting_unreferenced_profile_preserves_catalog_selection() {
    let mut app = App::demo();
    app.update(Action::Down);

    app.update(Action::DeleteProfile);

    assert_eq!(app.profiles.len(), 1);
    assert_eq!(app.profiles[0].id, "dev-box");
    assert_eq!(app.selected_profile, 0);
    assert_eq!(app.status, "Deleted profile archive.");
}

#[test]
fn deleting_active_unreferenced_profile_clears_connection() {
    let mut app = App::demo();
    app.update(Action::Down);
    app.update(Action::Activate);
    app.update(Action::Back);
    assert_eq!(app.connected_profile_id.as_deref(), Some("archive"));

    app.update(Action::DeleteProfile);

    assert!(app.connected_profile_id.is_none());
    assert!(app.profiles.iter().all(|profile| profile.id != "archive"));
    assert!(app.status.contains("active synthetic connection cleared"));
}

#[test]
fn deleting_profile_referenced_by_waybill_is_non_cascading() {
    let mut app = App::demo();
    app.update(Action::Activate);
    app.update(Action::AddToPlan);
    app.update(Action::Back);
    let profiles = app.profiles.clone();
    let plan = app.plan.clone();

    app.update(Action::DeleteProfile);

    assert_eq!(app.profiles, profiles);
    assert_eq!(app.plan, plan);
    assert_eq!(app.connected_profile_id.as_deref(), Some("dev-box"));
    assert!(
        app.status
            .contains("remove 1 referencing Waybill item(s) first")
    );
}

#[test]
fn deleting_imported_profile_is_deferred_to_source_config() {
    let mut app = App::runtime(
        vec![ConnectionProfile::open_ssh("build-box")],
        "Imported 1 OpenSSH profile(s).",
    );

    app.update(Action::DeleteProfile);

    assert_eq!(app.profiles, vec![ConnectionProfile::open_ssh("build-box")]);
    assert!(app.status.contains("remove the Host entry and press I"));
}

#[test]
fn staged_item_keeps_exact_endpoints_after_browser_state_changes() {
    let mut app = App::demo();
    app.update(Action::Activate);
    app.update(Action::AddToPlan);

    let staged = app.plan[0].clone();

    app.update(Action::Down);
    app.update(Action::NextFocus);
    app.update(Action::Down);

    assert_eq!(staged.source.path, "/workspace/outgoing/app.tar.gz");
    assert_eq!(staged.destination.path, "/srv/xfercat/app.tar.gz");
    assert_eq!(staged.entry_kind, EntryKind::File);
    assert_eq!(staged.expected_size, Some(438 * 1024 * 1024));
    assert_eq!(app.plan[0], staged);
}

#[test]
fn replacing_local_directory_resets_selection_and_exposes_safe_navigation_targets() {
    let mut app = App::demo();
    app.local_selection = 2;

    app.replace_local_directory(LocalDirectory {
        path: "/actual/local".into(),
        entries: vec![
            BrowserEntry {
                name: "packages".into(),
                path: "/actual/local/packages".into(),
                kind: EntryKind::Directory,
                size: None,
            },
            BrowserEntry {
                name: "payload.bin".into(),
                path: "/actual/local/payload.bin".into(),
                kind: EntryKind::File,
                size: Some(7),
            },
        ],
        skipped_entries: 1,
    });

    assert_eq!(app.local_selection, 0);
    assert_eq!(
        app.local_navigation_target(false).as_deref(),
        Some("/actual/local/packages")
    );
    assert_eq!(
        app.local_navigation_target(true).as_deref(),
        Some("/actual")
    );
    assert!(app.status.contains("1 unsafe or unreadable"));
    app.local_selection = 1;
    assert!(app.local_navigation_target(false).is_none());
}

#[test]
fn entering_live_workspace_replaces_remote_fixture_and_exposes_navigation_targets() {
    let mut app = App::runtime(
        vec![ConnectionProfile::open_ssh("fixture-host")],
        "Fixture catalog loaded.",
    );

    app.enter_remote_workspace(
        "openssh:fixture-host",
        RemoteDirectory {
            path: "/remote/home".into(),
            entries: vec![BrowserEntry {
                name: "packages".into(),
                path: "/remote/home/packages".into(),
                kind: EntryKind::Directory,
                size: None,
            }],
            skipped_entries: 1,
        },
    );

    assert_eq!(app.screen, Screen::Workspace);
    assert_eq!(app.focus, Focus::Local);
    assert_eq!(
        app.connected_profile_id.as_deref(),
        Some("openssh:fixture-host")
    );
    assert_eq!(app.remote_directory, "/remote/home");
    assert!(app.status.contains("1 unsafe or unreadable"));

    app.focus = Focus::Remote;
    assert_eq!(
        app.remote_navigation_target(false).as_deref(),
        Some("/remote/home/packages")
    );
    assert_eq!(
        app.remote_navigation_target(true).as_deref(),
        Some("/remote")
    );
    app.replace_remote_directory(RemoteDirectory {
        path: "/".into(),
        entries: Vec::new(),
        skipped_entries: 0,
    });
    assert!(app.remote_navigation_target(true).is_none());
}

#[test]
fn empty_browser_selection_cannot_be_staged() {
    let mut app = App::demo();
    app.update(Action::Activate);
    app.local_entries.clear();

    app.update(Action::AddToPlan);

    assert!(app.plan.is_empty());
    assert_eq!(app.status, "No local file selected.");
    app.focus = Focus::Remote;
    app.remote_entries.clear();
    app.update(Action::AddToPlan);
    assert!(app.plan.is_empty());
    assert_eq!(app.status, "No remote file selected.");
}

#[test]
fn staging_uses_current_local_and_remote_directories() {
    let mut app = App::demo();
    app.local_directory = "/actual/local".into();
    app.remote_directory = "/actual/remote".into();
    app.update(Action::Activate);

    app.update(Action::AddToPlan);
    app.update(Action::NextFocus);
    app.update(Action::AddToPlan);

    assert_eq!(app.plan[0].source.path, "/workspace/outgoing/app.tar.gz");
    assert_eq!(app.plan[0].destination.path, "/actual/remote/app.tar.gz");
    assert_eq!(app.plan[1].source.path, "/srv/xfercat/service.log");
    assert_eq!(app.plan[1].destination.path, "/actual/local/service.log");
}

#[test]
fn waybill_items_can_be_reviewed_edited_and_removed_independently() {
    let mut app = App::demo();
    app.update(Action::Activate);
    app.update(Action::AddToPlan);
    app.update(Action::NextFocus);
    app.update(Action::AddToPlan);
    app.update(Action::NextFocus);

    assert_eq!(app.focus, Focus::Waybill);
    assert_eq!(app.plan.len(), 2);

    app.update(Action::CycleConflictPolicy);
    assert_eq!(
        app.plan[app.plan_selection].conflict_policy,
        ConflictPolicy::Overwrite
    );

    app.update(Action::ReviewPlan);
    assert_eq!(app.screen, Screen::Review);
    app.update(Action::Back);
    app.update(Action::RemovePlanItem);

    assert_eq!(app.plan.len(), 1);
}

#[test]
fn review_executes_synthetic_results_and_preserves_them_on_back() {
    let mut app = staged_app();

    app.update(Action::ReviewPlan);
    app.update(Action::Activate);

    assert_eq!(app.screen, Screen::Review);
    assert_eq!(app.plan[0].state, TransferState::Succeeded);
    assert_eq!(app.plan[1].state, TransferState::Failed);
    assert!(app.status.starts_with("Synthetic only:"));

    app.update(Action::Activate);
    assert!(
        app.status
            .contains("terminal synthetic results were preserved")
    );
    app.update(Action::Back);
    assert_eq!(app.screen, Screen::Workspace);
    assert_eq!(app.plan[0].state, TransferState::Succeeded);
    assert_eq!(app.plan[1].state, TransferState::Failed);
}

#[test]
fn rename_changes_only_the_destination_leaf() {
    let mut app = staged_app();
    let original = app.plan[1].clone();

    app.update(Action::BeginRename);
    clear_rename_buffer(&mut app);
    for character in "service-copy.log".chars() {
        app.update(Action::InputRenameChar(character));
    }
    app.update(Action::Activate);

    assert_eq!(app.screen, Screen::Workspace);
    assert_eq!(app.plan[1].source, original.source);
    assert_eq!(
        app.plan[1].destination.profile_id,
        original.destination.profile_id
    );
    assert_eq!(
        app.plan[1].destination.path,
        "/workspace/outgoing/service-copy.log"
    );
}

#[test]
fn invalid_rename_preserves_the_plan_and_stays_in_rename_mode() {
    let mut app = staged_app();
    let original = app.plan.clone();

    app.update(Action::BeginRename);
    for invalid_name in ["", ".", "..", "nested/name", r"nested\name"] {
        clear_rename_buffer(&mut app);
        for character in invalid_name.chars() {
            app.update(Action::InputRenameChar(character));
        }
        app.update(Action::Activate);

        assert_eq!(app.screen, Screen::Rename);
        assert_eq!(app.plan, original);
    }
    assert_eq!(app.status, "Filename cannot contain a path separator.");
}

#[test]
fn reorder_moves_the_selected_stable_item_without_changing_payload() {
    let mut app = staged_app();
    let selected = app.plan[1].clone();

    app.update(Action::MovePlanUp);

    assert_eq!(app.plan_selection, 0);
    assert_eq!(app.plan[0], selected);

    app.update(Action::MovePlanUp);
    assert_eq!(app.plan[0], selected);
    assert_eq!(app.status, "Waybill item is already first.");

    app.update(Action::MovePlanDown);
    assert_eq!(app.plan_selection, 1);
    assert_eq!(app.plan[1], selected);
}

#[test]
fn cancelling_rename_discards_the_edit_buffer() {
    let mut app = staged_app();
    let original = app.plan.clone();

    app.update(Action::BeginRename);
    app.update(Action::InputRenameChar('x'));
    app.update(Action::Back);

    assert_eq!(app.screen, Screen::Workspace);
    assert_eq!(app.plan, original);
    assert_eq!(app.status, "Rename cancelled; destination unchanged.");
}

fn staged_app() -> App {
    let mut app = App::demo();
    app.update(Action::Activate);
    app.update(Action::AddToPlan);
    app.update(Action::NextFocus);
    app.update(Action::AddToPlan);
    app.update(Action::NextFocus);
    app
}

fn clear_rename_buffer(app: &mut App) {
    while !app.rename_buffer.is_empty() {
        app.update(Action::BackspaceRename);
    }
}

fn input_profile_text(app: &mut App, value: &str) {
    for character in value.chars() {
        app.update(Action::InputProfileChar(character));
    }
}

fn clear_profile_field(app: &mut App) {
    let field = app
        .profile_editor
        .as_ref()
        .map(|editor| editor.field)
        .expect("profile editor is active");
    assert!(matches!(
        field,
        ProfileField::Label
            | ProfileField::User
            | ProfileField::Host
            | ProfileField::KeyReference
    ));
    loop {
        let is_empty = {
            let editor = app
                .profile_editor
                .as_ref()
                .expect("profile editor is active");
            match field {
                ProfileField::Label => editor.label.is_empty(),
                ProfileField::User => editor.user.is_empty(),
                ProfileField::Host => editor.host.is_empty(),
                ProfileField::KeyReference => editor.key_reference.is_empty(),
                ProfileField::Authentication => true,
            }
        };
        if is_empty {
            break;
        }
        app.update(Action::BackspaceProfile);
    }
}
