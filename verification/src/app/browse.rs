//! Browser listings and directory navigation.
use vstd::prelude::*;

use crate::fspath;
use crate::fspath::std_path_parent;
use crate::domain::{BrowserEntry, EntryKind};
use crate::localfs;
use crate::localfs::LocalDirectory;
use crate::sftp::RemoteDirectory;
use crate::text;
use crate::text::{owned, str_equal};
use super::forms::{Focus, Screen};
use super::paths;
use super::paths::remote_parent;
use super::state::App;

verus! {

broadcast use vstd::string::group_string_axioms;

/// The parent directory the local browser may open: the parent that std reports for
/// `current`, unless it is `current` itself.
pub open spec fn spec_local_parent_target(current: Seq<char>, parent: Option<Seq<char>>) -> Option<Seq<char>> {
    match parent {
        Some(p) => if p != current {
            Some(p)
        } else {
            None
        },
        None => None,
    }
}

/// Keeps `parent` as the navigation target unless it names `current` itself.
pub fn local_parent_target(current: &str, parent: Option<String>) -> (r: Option<String>)
    ensures
        text::opt_view(r) == spec_local_parent_target(current@, text::opt_view(parent)),
{
    match parent {
        Some(p) => {
            if str_equal(p.as_str(), current) {
                None
            } else {
                Some(p)
            }
        },
        None => None,
    }
}

/// The directory a browser opens from its selection: the selected entry, if it is a
/// directory.
pub open spec fn selected_directory(entries: Seq<BrowserEntry>, selection: usize) -> Option<Seq<char>> {
    if selection < entries.len() && entries[selection as int].kind == EntryKind::Directory {
        Some(entries[selection as int].path@)
    } else {
        None
    }
}

fn selected_directory_path(entries: &Vec<BrowserEntry>, selection: usize) -> (r: Option<String>)
    ensures
        text::opt_view(r) == selected_directory(entries@, selection),
{
    if selection < entries.len() && entries[selection].kind == EntryKind::Directory {
        Some(entries[selection].path.clone())
    } else {
        None
    }
}

/// The listing replaced the browser contents, reset its selection and set the status.
pub open spec fn listing_replaced(
    a: App,
    b: App,
    path: String,
    entries: Seq<BrowserEntry>,
    status: Seq<char>,
    local: bool,
) -> bool {
    &&& b.status@ == status
    &&& if local {
        b == App {
            local_directory: path,
            local_entries: b.local_entries,
            local_selection: 0,
            status: b.status,
            ..a
        } && b.local_entries@ == entries
    } else {
        b == App {
            remote_directory: path,
            remote_entries: b.remote_entries,
            remote_selection: 0,
            status: b.status,
            ..a
        } && b.remote_entries@ == entries
    }
}

/// Entering the workspace of `profile_id` with its home `directory` listed remotely.
pub open spec fn entered_remote_workspace(a: App, profile_id: Seq<char>, directory: RemoteDirectory, b: App) -> bool {
    &&& b.remote_directory == directory.path
    &&& b.remote_entries@ == directory.entries@
    &&& text::opt_view(b.connected_profile_id) == Some(profile_id)
    &&& b.status@ == localfs::listing_status(
        "Remote"@,
        directory.entries@.len(),
        directory.skipped_entries as nat,
    )
    &&& b == App {
        connected_profile_id: b.connected_profile_id,
        remote_directory: b.remote_directory,
        remote_entries: b.remote_entries,
        remote_selection: 0,
        focus: Focus::Local,
        screen: Screen::Workspace,
        status: b.status,
        ..a
    }
}

impl App {
    /// Shows a freshly read local directory.
    pub fn replace_local_directory(&mut self, directory: LocalDirectory)
        ensures
            listing_replaced(
                *old(self),
                *final(self),
                directory.path,
                directory.entries@,
                localfs::listing_status("Local"@, directory.entries@.len(), directory.skipped_entries as nat),
                true,
            ),
    {
        let status = directory.status();
        self.local_directory = directory.path;
        self.local_entries = directory.entries;
        self.local_selection = 0;
        self.status = status;
    }

    /// Shows a freshly read remote directory.
    pub fn replace_remote_directory(&mut self, directory: RemoteDirectory)
        ensures
            listing_replaced(
                *old(self),
                *final(self),
                directory.path,
                directory.entries@,
                localfs::listing_status("Remote"@, directory.entries@.len(), directory.skipped_entries as nat),
                false,
            ),
    {
        let status = directory.status();
        self.remote_directory = directory.path;
        self.remote_entries = directory.entries;
        self.remote_selection = 0;
        self.status = status;
    }

    /// Opens the workspace connected to `profile_id`, showing `directory` remotely.
    pub fn enter_remote_workspace(&mut self, profile_id: &str, directory: RemoteDirectory)
        ensures
            entered_remote_workspace(*old(self), profile_id@, directory, *final(self)),
    {
        let status = directory.status();
        self.connected_profile_id = Some(owned(profile_id));
        self.remote_directory = directory.path;
        self.remote_entries = directory.entries;
        self.remote_selection = 0;
        self.focus = Focus::Local;
        self.screen = Screen::Workspace;
        self.status = status;
    }

    /// The directory the local browser opens: its parent, or the selected directory.
    pub fn local_navigation_target(&self, parent: bool) -> (r: Option<String>)
        ensures
            text::opt_view(r) == if self.focus != Focus::Local {
                None
            } else if parent {
                spec_local_parent_target(self.local_directory@, fspath::path_parent(self.local_directory@))
            } else {
                selected_directory(self.local_entries@, self.local_selection)
            },
    {
        if self.focus != Focus::Local {
            return None;
        }
        if parent {
            let candidate = std_path_parent(self.local_directory.as_str());
            return local_parent_target(self.local_directory.as_str(), candidate);
        }
        selected_directory_path(&self.local_entries, self.local_selection)
    }

    /// The directory the remote browser opens: its parent, or the selected directory.
    pub fn remote_navigation_target(&self, parent: bool) -> (r: Option<String>)
        ensures
            text::opt_view(r) == if self.focus != Focus::Remote {
                None
            } else if parent {
                paths::spec_remote_parent(self.remote_directory@)
            } else {
                selected_directory(self.remote_entries@, self.remote_selection)
            },
    {
        if self.focus != Focus::Remote {
            return None;
        }
        if parent {
            return remote_parent(self.remote_directory.as_str());
        }
        selected_directory_path(&self.remote_entries, self.remote_selection)
    }
}

} // verus!
