//! The decisions of the interactive program: which outside work an action asks for, and
//! how the state takes the result of that work.
use vstd::prelude::*;

use crate::executor::ExecutionSummary;
use crate::sftp::{RemoteDirectory, SftpFailure};
use crate::text;
use crate::text::{concat2, concat3, decimal_string, owned};
use super::browse;
use super::forms::{Action, ExecutionMode, Focus, Screen};
use super::review;
use super::state::App;

verus! {

broadcast use vstd::string::group_string_axioms;

/// What the program does for one action.
#[derive(Debug, PartialEq, Eq)]
pub enum Effect {
    /// Close the session and leave.
    Quit,
    /// Discover the OpenSSH profiles again and refresh the catalog with them.
    Refresh,
    /// Connect to the profile at this index of the catalog.
    Connect { profile: usize },
    /// Run the staged items over the open session.
    ExecuteLive,
    /// Read this local directory into the local browser.
    ReadLocal(String),
    /// Read this remote directory into the remote browser.
    ReadRemote(String),
    /// Close the session, return to fixture execution and apply the action.
    CloseSessionThenUpdate,
    /// Apply the action to the state.
    Update,
    /// Only show this status.
    Status(String),
    /// Nothing to do.
    Nothing,
}

/// The local directory the action opens, if any.
pub open spec fn local_target(a: App, parent: bool) -> Option<Seq<char>> {
    if a.focus != Focus::Local {
        None
    } else if parent {
        browse::spec_local_parent_target(a.local_directory@, crate::fspath::path_parent(a.local_directory@))
    } else {
        browse::selected_directory(a.local_entries@, a.local_selection)
    }
}

/// The remote directory the action opens, if any.
pub open spec fn remote_target(a: App, parent: bool) -> Option<Seq<char>> {
    if a.focus != Focus::Remote {
        None
    } else if parent {
        super::paths::spec_remote_parent(a.remote_directory@)
    } else {
        browse::selected_directory(a.remote_entries@, a.remote_selection)
    }
}

/// `e` shows exactly the status `s`.
pub open spec fn shows(e: Effect, s: Seq<char>) -> bool {
    e matches Effect::Status(t) && t@ == s
}

/// The effect of `action` on state `a`, with or without an open session:
/// - `Quit` leaves and a refresh rediscovers OpenSSH profiles;
/// - Enter on the catalog connects to the selected profile, if there is one;
/// - Enter on a live review runs the transfers, when a session is open;
/// - Enter or Backspace in the workspace opens the targeted local or remote directory
///   (remote ones only over an open session); on a file it says how to stage it, and in
///   the Waybill it is an ordinary action;
/// - `Back` from the workspace closes the session first; everything else is an ordinary
///   action.
pub open spec fn is_effect(a: App, action: Action, session_open: bool, e: Effect) -> bool {
    if action == Action::Quit {
        e == Effect::Quit
    } else if action == Action::RefreshOpenSshProfiles {
        e == Effect::Refresh
    } else if action == Action::Activate && a.screen == Screen::Connections {
        if a.selected_profile < a.profiles@.len() {
            e == Effect::Connect { profile: a.selected_profile }
        } else {
            shows(e, "No profile selected; refresh OpenSSH or add one manually."@)
        }
    } else if action == Action::Activate && a.screen == Screen::Review && a.execution_mode
        == ExecutionMode::Live {
        if session_open {
            e == Effect::ExecuteLive
        } else {
            shows(e, "Remote session is not available."@)
        }
    } else if (action == Action::Activate || action == Action::NavigateParent) && a.screen
        == Screen::Workspace {
        let parent = action == Action::NavigateParent;
        match a.focus {
            Focus::Local => match local_target(a, parent) {
                Some(t) => e matches Effect::ReadLocal(p) && p@ == t,
                None => if parent {
                    e == Effect::Nothing
                } else {
                    shows(e, "Selected local file; press Space to stage it."@)
                },
            },
            Focus::Remote => match remote_target(a, parent) {
                Some(t) => if session_open {
                    e matches Effect::ReadRemote(p) && p@ == t
                } else {
                    shows(e, "Remote session is not available."@)
                },
                None => if parent {
                    e == Effect::Nothing
                } else {
                    shows(e, "Selected remote file; press Space to stage it."@)
                },
            },
            Focus::Waybill => e == Effect::Update,
        }
    } else if action == Action::Back && a.screen == Screen::Workspace {
        e == Effect::CloseSessionThenUpdate
    } else {
        e == Effect::Update
    }
}

/// Decides what the program does for `action`.
pub fn interactive_effect(app: &App, action: Action, session_open: bool) -> (e: Effect)
    ensures
        is_effect(*app, action, session_open, e),
{
    if action == Action::Quit {
        return Effect::Quit;
    }
    if action == Action::RefreshOpenSshProfiles {
        return Effect::Refresh;
    }
    if action == Action::Activate && app.screen == Screen::Connections {
        if app.selected_profile < app.profiles.len() {
            return Effect::Connect { profile: app.selected_profile };
        }
        return Effect::Status(owned("No profile selected; refresh OpenSSH or add one manually."));
    }
    if action == Action::Activate && app.screen == Screen::Review && app.execution_mode
        == ExecutionMode::Live {
        if session_open {
            return Effect::ExecuteLive;
        }
        return Effect::Status(owned("Remote session is not available."));
    }
    if (action == Action::Activate || action == Action::NavigateParent) && app.screen
        == Screen::Workspace {
        let parent = action == Action::NavigateParent;
        return match app.focus {
            Focus::Local => match app.local_navigation_target(parent) {
                Some(t) => Effect::ReadLocal(t),
                None => if parent {
                    Effect::Nothing
                } else {
                    Effect::Status(owned("Selected local file; press Space to stage it."))
                },
            },
            Focus::Remote => match app.remote_navigation_target(parent) {
                Some(t) => if session_open {
                    Effect::ReadRemote(t)
                } else {
                    Effect::Status(owned("Remote session is not available."))
                },
                None => if parent {
                    Effect::Nothing
                } else {
                    Effect::Status(owned("Selected remote file; press Space to stage it."))
                },
            },
            Focus::Waybill => Effect::Update,
        };
    }
    if action == Action::Back && app.screen == Screen::Workspace {
        return Effect::CloseSessionThenUpdate;
    }
    Effect::Update
}

/// The status after live execution.
pub open spec fn transferred_status(s: ExecutionSummary) -> Seq<char> {
    "Transferred: "@ + text::decimal(s.succeeded as nat) + " succeeded, "@ + text::decimal(
        s.failed as nat,
    ) + " failed, "@ + text::decimal(s.skipped as nat) + " skipped, "@ + text::decimal(
        s.cancelled as nat,
    ) + " cancelled."@
}

impl App {
    /// Shows that a connection is being made.
    pub fn begin_connect(&mut self)
        ensures
            final(self).status@ == "Connecting with strict SSH host verification..."@,
            *final(self) == (App { status: final(self).status, ..*old(self) }),
    {
        self.status = owned("Connecting with strict SSH host verification...");
    }

    /// Enters the workspace of the profile just connected, in live execution.
    pub fn after_connect(&mut self, profile_id: &str, directory: RemoteDirectory)
        ensures
            final(self).execution_mode == ExecutionMode::Live,
            browse::entered_remote_workspace(
                *old(self),
                profile_id@,
                directory,
                App { execution_mode: old(self).execution_mode, ..*final(self) },
            ),
    {
        self.enter_remote_workspace(profile_id, directory);
        self.execution_mode = ExecutionMode::Live;
    }

    /// Reports a failed connection or remote read by its category alone.
    pub fn after_sftp_failure(&mut self, failure: SftpFailure)
        ensures
            final(self).status@ == crate::sftp::spec_failure_status(failure.kind),
            *final(self) == (App { status: final(self).status, ..*old(self) }),
    {
        self.status = owned(failure.status());
    }

    /// Reports that a local directory could not be read.
    pub fn after_local_read_failure(&mut self)
        ensures
            final(self).status@ == "Local directory could not be opened."@,
            *final(self) == (App { status: final(self).status, ..*old(self) }),
    {
        self.status = owned("Local directory could not be opened.");
    }

    /// Starts without a local browser: the current directory could not be read.
    pub fn local_directory_unavailable(&mut self, discovery_status: &str)
        ensures
            final(self).local_directory@ == "<unavailable>"@,
            final(self).local_entries@.len() == 0,
            final(self).status@ == discovery_status@ + " Local directory unavailable."@,
            *final(self) == (App {
                local_directory: final(self).local_directory,
                local_entries: final(self).local_entries,
                local_selection: 0,
                status: final(self).status,
                ..*old(self)
            }),
    {
        self.local_directory = owned("<unavailable>");
        self.local_entries = Vec::new();
        self.local_selection = 0;
        self.status = concat2(discovery_status, " Local directory unavailable.");
    }

    /// Reports the counts of a live execution.
    pub fn after_live_execution(&mut self, summary: ExecutionSummary)
        ensures
            final(self).status@ == transferred_status(summary),
            *final(self) == (App { status: final(self).status, ..*old(self) }),
    {
        let t1 = concat3("Transferred: ", decimal_string(summary.succeeded as u64).as_str(), " succeeded, ");
        let t2 = concat3(t1.as_str(), decimal_string(summary.failed as u64).as_str(), " failed, ");
        let t3 = concat3(t2.as_str(), decimal_string(summary.skipped as u64).as_str(), " skipped, ");
        let t4 = concat3(t3.as_str(), decimal_string(summary.cancelled as u64).as_str(), " cancelled.");
        self.status = t4;
    }

    /// Leaves the workspace: execution returns to fixtures and `Back` is applied.
    pub fn after_workspace_back(&mut self)
        requires
            old(self).screen == Screen::Workspace,
        ensures
            final(self).execution_mode == ExecutionMode::Fixture,
            review::update_post(
                App { execution_mode: ExecutionMode::Fixture, ..*old(self) },
                Action::Back,
                *final(self),
            ),
    {
        self.execution_mode = ExecutionMode::Fixture;
        self.update(Action::Back);
    }
}

/// Backspace in the workspace opens the parent of the focused browser's directory, never
/// an entry of it: a local read names the parent std reports for the local directory, a
/// remote read the parent of the remote directory.
pub proof fn law_backspace_opens_the_parent(a: App, session_open: bool, e: Effect)
    requires
        a.screen == Screen::Workspace,
        is_effect(a, Action::NavigateParent, session_open, e),
    ensures
        e matches Effect::ReadLocal(p) ==> a.focus == Focus::Local && crate::fspath::path_parent(a.local_directory@)
            == Some(p@) && p@ != a.local_directory@,
        e matches Effect::ReadRemote(p) ==> a.focus == Focus::Remote && super::paths::spec_remote_parent(
            a.remote_directory@,
        ) == Some(p@),
{
}

/// Enter in the workspace opens the selected entry when it is a directory: a read names
/// that entry's path.
pub proof fn law_enter_opens_the_selected_directory(a: App, session_open: bool, e: Effect)
    requires
        a.screen == Screen::Workspace,
        is_effect(a, Action::Activate, session_open, e),
    ensures
        e matches Effect::ReadLocal(p) ==> a.focus == Focus::Local && a.local_selection < a.local_entries@.len()
            && a.local_entries@[a.local_selection as int].kind == crate::domain::EntryKind::Directory
            && a.local_entries@[a.local_selection as int].path@ == p@,
        e matches Effect::ReadRemote(p) ==> a.focus == Focus::Remote && a.remote_selection < a.remote_entries@.len()
            && a.remote_entries@[a.remote_selection as int].kind == crate::domain::EntryKind::Directory
            && a.remote_entries@[a.remote_selection as int].path@ == p@,
{
}

} // verus!
