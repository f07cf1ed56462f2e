//! The demonstration state.
use vstd::prelude::*;

use crate::domain::{Authentication, BrowserEntry, ConnectionProfile, ConnectionProfileSource, EntryKind, Protocol};
use crate::text::owned;
use super::forms::{ExecutionMode, Focus, Screen};
use super::state::App;

verus! {

broadcast use vstd::string::group_string_axioms;

/// A synthetic profile with SFTP protocol.
pub open spec fn is_synthetic_profile(
    p: ConnectionProfile,
    id: Seq<char>,
    user: Seq<char>,
    host: Seq<char>,
) -> bool {
    &&& p.id@ == id
    &&& p.label@ == id
    &&& p.source == ConnectionProfileSource::Synthetic
    &&& p.protocol == Protocol::Sftp
    &&& p.user@ == user
    &&& p.host@ == host
}

/// The two synthetic profiles of the demonstration catalog.
pub open spec fn is_demo_catalog(profiles: Seq<ConnectionProfile>) -> bool {
    &&& profiles.len() == 2
    &&& is_synthetic_profile(profiles[0], "dev-box"@, "deploy"@, "dev.example"@)
    &&& profiles[0].authentication == Authentication::SshAgent
    &&& is_synthetic_profile(profiles[1], "archive"@, "operator"@, "archive.example"@)
    &&& profiles[1].authentication matches Authentication::KeyReference(k) && k@ == "archive-key"@
}

/// A browser entry with the given name, path, kind and size.
pub open spec fn is_entry(
    e: BrowserEntry,
    name: Seq<char>,
    path: Seq<char>,
    kind: EntryKind,
    size: Option<u64>,
) -> bool {
    e.name@ == name && e.path@ == path && e.kind == kind && e.size == size
}

/// Everything of the demonstration state but its catalog, selection, connection and status.
pub open spec fn is_demo_workspace(a: App) -> bool {
    &&& a.screen == Screen::Connections
    &&& a.focus == Focus::Local
    &&& a.profile_editor is None
    &&& a.local_directory@ == "/workspace/outgoing"@
    &&& a.remote_directory@ == "/srv/xfercat"@
    &&& a.local_entries@.len() == 3
    &&& is_entry(a.local_entries@[0], "releases"@, "/workspace/outgoing/releases"@, EntryKind::Directory, None)
    &&& is_entry(a.local_entries@[1], "app.tar.gz"@, "/workspace/outgoing/app.tar.gz"@, EntryKind::File, Some(459276288))
    &&& is_entry(a.local_entries@[2], "config.yaml"@, "/workspace/outgoing/config.yaml"@, EntryKind::File, Some(2048))
    &&& a.remote_entries@.len() == 2
    &&& is_entry(a.remote_entries@[0], "releases"@, "/srv/xfercat/releases"@, EntryKind::Directory, None)
    &&& is_entry(a.remote_entries@[1], "service.log"@, "/srv/xfercat/service.log"@, EntryKind::File, Some(131072))
    &&& a.local_selection == 1
    &&& a.remote_selection == 1
    &&& a.plan@.len() == 0
    &&& a.plan_selection == 0
    &&& a.rename_buffer@ == Seq::<char>::empty()
    &&& a.execution_mode == ExecutionMode::Fixture
    &&& a.next_profile_id == 1
    &&& a.next_plan_id == 1
}

fn demo_entry(name: &str, path: &str, kind: EntryKind, size: Option<u64>) -> (e: BrowserEntry)
    ensures
        is_entry(e, name@, path@, kind, size),
{
    BrowserEntry { name: owned(name), path: owned(path), kind, size }
}

fn synthetic_profile(id: &str, user: &str, host: &str, authentication: Authentication) -> (p: ConnectionProfile)
    ensures
        is_synthetic_profile(p, id@, user@, host@),
        p.authentication == authentication,
{
    ConnectionProfile {
        id: owned(id),
        label: owned(id),
        source: ConnectionProfileSource::Synthetic,
        protocol: Protocol::Sftp,
        user: owned(user),
        host: owned(host),
        authentication,
    }
}

impl App {
    /// The synthetic demonstration state.
    pub fn demo() -> (app: Self)
        ensures
            is_demo_workspace(app),
            is_demo_catalog(app.profiles@),
            app.selected_profile == 0,
            app.connected_profile_id is None,
            app.status@ == "Choose a complete profile; editing is a separate action."@,
    {
        let mut profiles: Vec<ConnectionProfile> = Vec::new();
        profiles.push(synthetic_profile("dev-box", "deploy", "dev.example", Authentication::SshAgent));
        profiles.push(
            synthetic_profile(
                "archive",
                "operator",
                "archive.example",
                Authentication::KeyReference(owned("archive-key")),
            ),
        );
        let mut local_entries: Vec<BrowserEntry> = Vec::new();
        local_entries.push(demo_entry("releases", "/workspace/outgoing/releases", EntryKind::Directory, None));
        local_entries.push(demo_entry("app.tar.gz", "/workspace/outgoing/app.tar.gz", EntryKind::File, Some(438 * 1024 * 1024)));
        local_entries.push(demo_entry("config.yaml", "/workspace/outgoing/config.yaml", EntryKind::File, Some(2048)));
        let mut remote_entries: Vec<BrowserEntry> = Vec::new();
        remote_entries.push(demo_entry("releases", "/srv/xfercat/releases", EntryKind::Directory, None));
        remote_entries.push(demo_entry("service.log", "/srv/xfercat/service.log", EntryKind::File, Some(128 * 1024)));
        App {
            screen: Screen::Connections,
            focus: Focus::Local,
            profiles,
            selected_profile: 0,
            profile_editor: None,
            connected_profile_id: None,
            local_directory: owned("/workspace/outgoing"),
            remote_directory: owned("/srv/xfercat"),
            local_entries,
            remote_entries,
            local_selection: 1,
            remote_selection: 1,
            plan: Vec::new(),
            plan_selection: 0,
            rename_buffer: String::new(),
            status: owned("Choose a complete profile; editing is a separate action."),
            execution_mode: ExecutionMode::Fixture,
            next_profile_id: 1,
            next_plan_id: 1,
        }
    }

    /// The demonstration workspace with the catalog `profiles` and the status `status`.
    pub fn runtime(profiles: Vec<ConnectionProfile>, status: &str) -> (app: Self)
        ensures
            is_demo_workspace(app),
            app.profiles == profiles,
            app.selected_profile == 0,
            app.connected_profile_id is None,
            app.status@ == status@,
    {
        let mut app = Self::demo();
        app.profiles = profiles;
        app.selected_profile = 0;
        app.connected_profile_id = None;
        app.status = owned(status);
        app
    }
}

} // verus!
