use std::time::Duration;

use xfercat::app::forms::{move_index, next_index, previous_index};
use xfercat::app::paths::{destination_file_name, join_logical_path, remote_parent, renamed_destination};
use xfercat::app::{action_for, Action, App, Focus, Key, ProfileAuthentication, ProfileField, Screen};
use xfercat::domain::{
    Authentication, BrowserEntry, ConflictPolicy, ConnectionProfile, DestinationExpectation,
    Endpoint, EntryKind, TransferDirection, TransferPlanItem, TransferState,
};
use xfercat::executor::{begin_live_item, finish_live_item, next_staged, ExecutionSummary};
use xfercat::openssh::config_home;
use xfercat::localfs::{local_listing, LocalCandidate, LocalDirectory};
use xfercat::sftp::{
    classify_connect_failure, remote_directory_path, remote_listing, ConnectFailure,
    ConnectionOptions, RemoteCandidate, RemoteDirectory, SftpFailure, SftpFailureKind,
};
use xfercat::transfer::ObservedKind;
use xfercat::transport::{TransportFailureKind, TransportOutcome};

#[test]
fn moving_down_then_up_returns_to_the_same_row() {
    for length in 1..5usize {
        for current in 0..length {
            assert_eq!(previous_index(next_index(current, length), length), current);
            assert_eq!(next_index(previous_index(current, length), length), current);
        }
    }
    assert_eq!(next_index(2, 3), 0);
    assert_eq!(previous_index(0, 3), 2);
    assert_eq!(move_index(5, 0, true), 0);
    assert_eq!(move_index(1, 3, false), 0);
}

#[test]
fn form_fields_focus_and_authentication_cycle() {
    let agent = ProfileAuthentication::SshAgent;
    let key = ProfileAuthentication::KeyReference;
    assert_eq!(ProfileField::Authentication.next(agent), ProfileField::Label);
    assert_eq!(ProfileField::Authentication.next(key), ProfileField::KeyReference);
    assert_eq!(ProfileField::Label.previous(agent), ProfileField::Authentication);
    assert_eq!(ProfileField::Label.previous(key), ProfileField::KeyReference);
    for field in [ProfileField::Label, ProfileField::User, ProfileField::Host, ProfileField::Authentication] {
        assert_eq!(field.next(agent).previous(agent), field);
    }
    assert_eq!(key.toggled().toggled(), key);
    assert_eq!(agent.label(), "SSH Agent");
    assert_eq!(key.label(), "Key reference");
    assert_eq!(Focus::Local.next().next().next(), Focus::Local);
    assert_eq!(Focus::Remote.name(), "Remote");
}

#[test]
fn logical_paths_join_split_and_rename() {
    assert_eq!(join_logical_path("/", "a"), "/a");
    assert_eq!(join_logical_path("/srv//", "a"), "/srv/a");
    assert_eq!(remote_parent("/srv/x/"), Some("/srv".to_string()));
    assert_eq!(remote_parent("/srv"), Some("/".to_string()));
    assert_eq!(remote_parent("/"), None);
    assert_eq!(remote_parent("relative"), None);
    assert_eq!(destination_file_name("/a/b.txt"), Some("b.txt".to_string()));
    assert_eq!(destination_file_name("/a/"), None);
    assert_eq!(renamed_destination("/a/b.txt", "c.txt"), Ok("/a/c.txt".to_string()));
    assert_eq!(renamed_destination("b.txt", "c.txt"), Err("Destination has no parent path."));
    assert_eq!(renamed_destination("/a/b", ""), Err("Filename cannot be empty."));
    assert_eq!(renamed_destination("/a/b", ".."), Err("Filename cannot be . or .."));
    assert_eq!(renamed_destination("/a/b", "x\u{7}"), Err("Filename cannot contain control characters."));
}

#[test]
fn profile_form_reports_each_validation_error() {
    let cases: [(&str, &str, &str, &str); 5] = [
        ("", "u", "h", "Profile label cannot be empty."),
        ("ok", "", "h", "User cannot be empty."),
        ("ok", "a b", "h", "User cannot contain whitespace."),
        ("ok", "u", "", "Host cannot be empty."),
        ("ok", "u", "h h", "Host cannot contain whitespace."),
    ];
    for (label, user, host, message) in cases {
        let mut app = App::demo();
        app.update(Action::AddProfile);
        for c in label.chars() {
            app.update(Action::InputProfileChar(c));
        }
        app.update(Action::NextProfileField);
        for c in user.chars() {
            app.update(Action::InputProfileChar(c));
        }
        app.update(Action::NextProfileField);
        for c in host.chars() {
            app.update(Action::InputProfileChar(c));
        }
        app.update(Action::Activate);
        assert_eq!(app.status, message);
        assert_eq!(app.screen, Screen::ProfileEditor);
        assert_eq!(app.profiles.len(), 2);
    }
}

#[test]
fn browsing_and_focus_never_change_the_catalog_or_plan() {
    let mut app = App::demo();
    let profiles = app.profiles.clone();
    app.update(Action::Down);
    app.update(Action::Up);
    app.update(Action::Activate);
    assert_eq!(app.profiles, profiles);
    let plan = app.plan.clone();
    app.update(Action::Down);
    app.update(Action::NextFocus);
    app.update(Action::Up);
    assert_eq!(app.plan, plan);
    assert_eq!(app.status, "Focus: Remote");
    assert!(app.update(Action::Quit));
}

#[test]
fn refresh_counts_label_conflicts_and_sorts_the_catalog() {
    let mut app = App::demo();
    app.refresh_open_ssh_profiles(
        vec![
            ConnectionProfile::open_ssh("Zeta"),
            ConnectionProfile::open_ssh("DEV-BOX"),
            ConnectionProfile::open_ssh("alpha"),
        ],
        "Imported 3 OpenSSH profile(s).",
    );
    let labels: Vec<&str> = app.profiles.iter().map(|p| p.label.as_str()).collect();
    assert_eq!(labels, ["alpha", "archive", "dev-box", "Zeta"]);
    assert_eq!(
        app.status,
        "Imported 3 OpenSSH profile(s). 1 imported alias(es) conflict with manual profiles."
    );
    assert_eq!(app.profiles[app.selected_profile].id, "dev-box");
}

#[test]
fn staging_freezes_the_destination_state_of_the_listing() {
    let mut app = App::demo();
    app.update(Action::Activate);
    app.update(Action::NextFocus);
    app.remote_entries.push(BrowserEntry {
        name: "config.yaml".into(),
        path: "/srv/xfercat/config.yaml".into(),
        kind: EntryKind::File,
        size: Some(10),
    });
    app.update(Action::NextFocus);
    app.update(Action::NextFocus);
    app.update(Action::Down);
    app.update(Action::AddToPlan);
    assert_eq!(app.plan[0].destination.path, "/srv/xfercat/config.yaml");
    assert_eq!(
        app.plan[0].destination_expectation,
        DestinationExpectation::Existing { kind: EntryKind::File, size: Some(10) }
    );
    assert_eq!(app.status, "Waybill contains 1 item(s).");
}

#[test]
fn status_lines_of_listings_and_failures() {
    let local = LocalDirectory { path: "/l".into(), entries: Vec::new(), skipped_entries: 0 };
    assert_eq!(local.status(), "Local directory loaded: 0 item(s).");
    let remote = RemoteDirectory { path: "/r".into(), entries: Vec::new(), skipped_entries: 2 };
    assert_eq!(
        remote.status(),
        "Remote directory loaded: 0 item(s); 2 unsafe or unreadable entry(s) skipped."
    );
    let failure = SftpFailure { kind: SftpFailureKind::InvalidRemotePath, retryable: false };
    assert_eq!(failure.status(), "Remote path could not be represented safely.");
    assert_eq!(ConnectionOptions::default().connect_timeout, Duration::from_secs(10));
}

#[test]
fn connection_failures_are_classified_from_their_text() {
    let changed = ConnectFailure {
        connect: true,
        permission_denied: false,
        diagnostic: "WARNING: REMOTE HOST IDENTIFICATION HAS CHANGED!".into(),
    };
    assert_eq!(classify_connect_failure(&changed).kind, SftpFailureKind::HostVerification);
    let other = ConnectFailure { connect: false, permission_denied: true, diagnostic: String::new() };
    assert_eq!(
        classify_connect_failure(&other),
        SftpFailure { kind: SftpFailureKind::Connection, retryable: true }
    );
}

#[test]
fn remote_listing_keeps_safe_entries_in_browser_order() {
    assert!(remote_directory_path(Some("relative".into())).is_err());
    assert!(remote_directory_path(None).is_err());
    let directory = remote_directory_path(Some("/srv".into())).expect("safe path");
    let candidates = vec![
        RemoteCandidate { name: Some("b.txt".into()), kind: Some(ObservedKind::File), size: Some(3) },
        RemoteCandidate { name: Some(".".into()), kind: Some(ObservedKind::Directory), size: None },
        RemoteCandidate { name: Some("A".into()), kind: Some(ObservedKind::Directory), size: None },
        RemoteCandidate { name: Some("link".into()), kind: Some(ObservedKind::Other), size: None },
        RemoteCandidate { name: None, kind: None, size: None },
        RemoteCandidate { name: Some("a.txt".into()), kind: Some(ObservedKind::File), size: Some(1) },
    ];
    let listing = remote_listing(directory, &candidates);
    let names: Vec<&str> = listing.entries.iter().map(|e| e.name.as_str()).collect();
    assert_eq!(names, ["A", "a.txt", "b.txt"]);
    assert_eq!(listing.entries[0].path, "/srv/A");
    assert_eq!(listing.entries[0].size, None);
    assert_eq!(listing.skipped_entries, 2);
}

#[test]
fn local_listing_skips_links_and_unsafe_names() {
    let candidates = vec![
        LocalCandidate {
            kind: Some(ObservedKind::File),
            name: Some("beta.txt".into()),
            size: Some(4),
        },
        LocalCandidate { kind: None, name: Some("link".into()), size: None },
        LocalCandidate {
            kind: Some(ObservedKind::Directory),
            name: Some("packages".into()),
            size: None,
        },
        LocalCandidate {
            kind: Some(ObservedKind::File),
            name: Some("bad\u{1b}".into()),
            size: Some(1),
        },
        LocalCandidate {
            kind: Some(ObservedKind::File),
            name: Some("Alpha.txt".into()),
            size: Some(5),
        },
    ];
    let listing = local_listing("/l".into(), &candidates);
    let names: Vec<&str> = listing.entries.iter().map(|e| e.name.as_str()).collect();
    assert_eq!(names, ["packages", "Alpha.txt", "beta.txt"]);
    assert_eq!(listing.skipped_entries, 2);
    assert_eq!(listing.entries[1].size, Some(5));
    assert_eq!(listing.entries[1].path, "/l/Alpha.txt");
    assert_eq!(listing.entries[0].path, "/l/packages");
}

fn live_item(direction: TransferDirection) -> TransferPlanItem {
    let (source, destination) = match direction {
        TransferDirection::Upload => (
            Endpoint::local("/out/a.bin"),
            Endpoint::remote("openssh:box", "box", "/in/a.bin"),
        ),
        TransferDirection::Download => (
            Endpoint::remote("openssh:box", "box", "/in/a.bin"),
            Endpoint::local("/out/a.bin"),
        ),
    };
    TransferPlanItem {
        id: 5,
        source,
        destination,
        direction,
        entry_kind: EntryKind::File,
        expected_size: Some(1),
        destination_expectation: DestinationExpectation::Missing,
        conflict_policy: ConflictPolicy::Ask,
        state: TransferState::Staged,
    }
}

#[test]
fn live_items_run_only_on_their_own_profile_and_are_counted() {
    let mut item = live_item(TransferDirection::Download);
    let request = begin_live_item(&mut item, "openssh:box").expect("own profile");
    assert_eq!(request.item_id, 5);
    assert_eq!(item.state, TransferState::Running);
    let mut summary = ExecutionSummary::default();
    finish_live_item(&mut item, TransportOutcome::Succeeded { bytes_transferred: 1 }, &mut summary);
    assert_eq!(item.state, TransferState::Succeeded);
    assert_eq!(summary.succeeded, 1);

    let mut other = live_item(TransferDirection::Upload);
    let refused = begin_live_item(&mut other, "openssh:elsewhere");
    assert_eq!(
        refused.err(),
        Some(TransportOutcome::Failed { kind: TransportFailureKind::Unsupported, retryable: false })
    );
    assert_eq!(other.state, TransferState::Running);
}

#[test]
fn domain_labels_render_as_the_waybill_shows_them() {
    assert_eq!(Authentication::KeyReference("k".into()).short_label(), "Key:k");
    assert_eq!(Authentication::OpenSshConfig.display(), "OpenSSH policy");
    assert_eq!(ConflictPolicy::Ask.next(), ConflictPolicy::Overwrite);
    assert_eq!(ConflictPolicy::Rename.display(), "RENAME");
    assert_eq!(TransferState::Cancelled.display(), "CANCELLED");
    assert_eq!(Endpoint::remote("p", "box", "/x").display(), "box:/x");
    assert_eq!(TransferDirection::Download.symbol(), "↓");
    assert_eq!(
        DestinationExpectation::Existing { kind: EntryKind::Directory, size: None }.short_label(),
        "DEST:DIRECTORY"
    );
    let entry = BrowserEntry { name: "d".into(), path: "/d".into(), kind: EntryKind::Directory, size: None };
    assert_eq!(entry.display_name(), "d/");
    assert_eq!(ConnectionProfile::open_ssh("h").endpoint_summary(), "Host h");
}

#[test]
fn keys_mean_commands_except_where_a_form_takes_text() {
    assert_eq!(action_for(Screen::Workspace, Key::Char('q')), Some(Action::Quit));
    assert_eq!(action_for(Screen::ProfileEditor, Key::Char('q')), Some(Action::InputProfileChar('q')));
    assert_eq!(action_for(Screen::Rename, Key::Char('d')), Some(Action::InputRenameChar('d')));
    assert_eq!(action_for(Screen::Connections, Key::Char('d')), Some(Action::DeleteProfile));
    assert_eq!(action_for(Screen::Workspace, Key::Char('d')), Some(Action::RemovePlanItem));
    assert_eq!(action_for(Screen::Connections, Key::Char('i')), Some(Action::RefreshOpenSshProfiles));
    assert_eq!(action_for(Screen::Workspace, Key::Char('i')), None);
    assert_eq!(action_for(Screen::Workspace, Key::Backspace), Some(Action::NavigateParent));
    assert_eq!(action_for(Screen::Connections, Key::Backspace), None);
    assert_eq!(action_for(Screen::ProfileEditor, Key::Tab), Some(Action::NextProfileField));
    assert_eq!(action_for(Screen::Workspace, Key::Tab), Some(Action::NextFocus));
    assert_eq!(action_for(Screen::Rename, Key::Tab), None);
    assert_eq!(action_for(Screen::Workspace, Key::Other), None);
}

#[test]
fn the_home_of_a_configuration_file_skips_its_ssh_directory() {
    assert_eq!(config_home("/home/ana/.ssh/config"), "/home/ana");
    assert_eq!(config_home("/etc/ssh/ssh_config"), "/etc/ssh");
    assert_eq!(config_home("cfg/x"), "cfg");
    assert_eq!(config_home("x"), "");
    assert_eq!(config_home("/"), ".");
}

#[test]
fn the_next_staged_item_is_found_from_a_position() {
    let mut plan = vec![
        live_item(TransferDirection::Upload),
        live_item(TransferDirection::Download),
        live_item(TransferDirection::Upload),
    ];
    plan[0].state = TransferState::Succeeded;
    plan[2].state = TransferState::Failed;
    assert_eq!(next_staged(&plan, 0), Some(1));
    assert_eq!(next_staged(&plan, 1), Some(1));
    assert_eq!(next_staged(&plan, 2), None);
    assert_eq!(next_staged(&plan, 7), None);
}

#[test]
fn entries_that_tie_keep_the_order_they_were_read_in() {
    let file = |size: u64| LocalCandidate {
        kind: Some(ObservedKind::File),
        name: Some("same.txt".into()),
        size: Some(size),
    };
    let candidates = vec![file(1), file(2), file(3)];
    let listing = local_listing("/l".into(), &candidates);
    let sizes: Vec<Option<u64>> = listing.entries.iter().map(|e| e.size).collect();
    assert_eq!(sizes, [Some(1), Some(2), Some(3)]);
}
