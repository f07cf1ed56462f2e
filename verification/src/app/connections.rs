//! The Connections screen.
use vstd::prelude::*;

use crate::text;
use crate::text::{concat2, concat3, decimal_string, owned, str_equal};
use super::forms;
use super::forms::{Action, ProfileEditor, Screen, next_index, previous_index};
use super::catalog;
use super::catalog::count_references;
use super::state;
use super::state::App;

verus! {

broadcast use vstd::string::group_string_axioms;

/// Deleting the selected profile: refused for missing, imported or referenced profiles;
/// otherwise the profile leaves the catalog and an active connection to it is cleared.
pub open spec fn delete_post(a: App, b: App) -> bool {
    let sel = a.selected_profile as int;
    if sel >= a.profiles@.len() {
        state::only_status(a, b, "No profile selected; refresh OpenSSH or add one manually."@)
    } else {
        let p = a.profiles@[sel];
        if p.spec_is_open_ssh() {
            state::only_status(a, b, "OpenSSH profiles are source-owned; remove the Host entry and press I."@)
        } else if catalog::reference_count(a.plan@, p.id@) > 0 {
            state::only_status(
                a,
                b,
                "Cannot delete "@ + p.label@ + "; remove "@ + text::decimal(catalog::reference_count(a.plan@, p.id@))
                    + " referencing Waybill item(s) first."@,
            )
        } else {
            let cleared = text::opt_view(a.connected_profile_id) == Some(p.id@);
            let remaining = a.profiles@.remove(sel);
            &&& b == App {
                profiles: b.profiles,
                selected_profile: b.selected_profile,
                connected_profile_id: b.connected_profile_id,
                status: b.status,
                ..a
            }
            &&& b.profiles@ == remaining
            &&& b.selected_profile == if sel < remaining.len() {
                sel
            } else if remaining.len() > 0 {
                remaining.len() - 1
            } else {
                0
            }
            &&& b.connected_profile_id == if cleared {
                None
            } else {
                a.connected_profile_id
            }
            &&& b.status@ == if cleared {
                "Deleted profile "@ + p.label@ + "; active synthetic connection cleared."@
            } else {
                "Deleted profile "@ + p.label@ + "."@
            }
        }
    }
}

/// The Connections screen: move, select, add, edit and delete profiles.
pub open spec fn connections_post(a: App, action: Action, b: App) -> bool {
    let sel = a.selected_profile as int;
    let len = a.profiles@.len();
    match action {
        Action::Up => b == App {
            selected_profile: forms::spec_previous_index(sel as nat, len) as usize,
            ..a
        },
        Action::Down => b == App { selected_profile: forms::spec_next_index(sel as nat, len) as usize, ..a },
        Action::Activate => if sel < len {
            &&& b == App {
                connected_profile_id: b.connected_profile_id,
                screen: Screen::Workspace,
                status: b.status,
                ..a
            }
            &&& b.connected_profile_id == Some(a.profiles@[sel].id)
            &&& b.status@ == "Selected profile "@ + a.profiles@[sel].label@
                + "; the workspace remains synthetic."@
        } else {
            state::only_status(a, b, "No profile selected; refresh OpenSSH or add one manually."@)
        },
        Action::AddProfile => {
            &&& b == App {
                profile_editor: b.profile_editor,
                screen: Screen::ProfileEditor,
                status: b.status,
                ..a
            }
            &&& b.profile_editor matches Some(editor) && editor.is_blank_create()
            &&& b.status@ == "Create a process-lifetime manual profile."@
        },
        Action::EditProfile => if sel < len {
            if a.profiles@[sel].authentication is OpenSshConfig {
                state::only_status(
                    a,
                    b,
                    "OpenSSH profiles are read-only; edit the source config and press I."@,
                )
            } else {
                &&& b == App {
                    profile_editor: b.profile_editor,
                    screen: Screen::ProfileEditor,
                    status: b.status,
                    ..a
                }
                &&& b.profile_editor matches Some(editor) && editor.is_edit_of(a.profiles@[sel])
                &&& b.status@ == "Edit is isolated from the Select action."@
            }
        } else {
            b == a
        },
        Action::DeleteProfile => delete_post(a, b),
        _ => b == a,
    }
}

impl App {
    fn delete_selected_profile(&mut self)
        ensures
            delete_post(*old(self), *final(self)),
    {
        let sel = self.selected_profile;
        if sel >= self.profiles.len() {
            self.status = owned("No profile selected; refresh OpenSSH or add one manually.");
            return;
        }
        let profile = self.profiles[sel].clone();
        if profile.is_open_ssh() {
            self.status = owned("OpenSSH profiles are source-owned; remove the Host entry and press I.");
            return;
        }
        let reference_count = count_references(&self.plan, profile.id.as_str());
        if reference_count > 0 {
            let mut status = concat2("Cannot delete ", profile.label.as_str());
            status.append("; remove ");
            let count = decimal_string(reference_count as u64);
            status.append(count.as_str());
            status.append(" referencing Waybill item(s) first.");
            self.status = status;
            return;
        }
        let cleared_active = match &self.connected_profile_id {
            Some(id) => str_equal(id.as_str(), profile.id.as_str()),
            None => false,
        };
        self.profiles.remove(sel);
        let last = if self.profiles.len() > 0 {
            self.profiles.len() - 1
        } else {
            0
        };
        self.selected_profile = if sel < last { sel } else { last };
        if cleared_active {
            self.connected_profile_id = None;
            let mut status = concat2("Deleted profile ", profile.label.as_str());
            status.append("; active synthetic connection cleared.");
            self.status = status;
        } else {
            let mut status = concat2("Deleted profile ", profile.label.as_str());
            status.append(".");
            self.status = status;
        }
    }

    pub(crate) fn update_connections(&mut self, action: Action)
        requires
            action == Action::Up ==> forms::move_index_in_range(
                old(self).selected_profile as nat,
                old(self).profiles@.len(),
                false,
            ),
            action == Action::Down ==> forms::move_index_in_range(
                old(self).selected_profile as nat,
                old(self).profiles@.len(),
                true,
            ),
        ensures
            connections_post(*old(self), action, *final(self)),
    {
        match action {
            Action::Up => {
                self.selected_profile = previous_index(self.selected_profile, self.profiles.len());
            },
            Action::Down => {
                self.selected_profile = next_index(self.selected_profile, self.profiles.len());
            },
            Action::Activate => {
                if self.selected_profile < self.profiles.len() {
                    let id = self.profiles[self.selected_profile].id.clone();
                    let status = concat3(
                        "Selected profile ",
                        self.profiles[self.selected_profile].label.as_str(),
                        "; the workspace remains synthetic.",
                    );
                    self.connected_profile_id = Some(id);
                    self.screen = Screen::Workspace;
                    self.status = status;
                } else {
                    self.status = owned("No profile selected; refresh OpenSSH or add one manually.");
                }
            },
            Action::AddProfile => {
                self.profile_editor = Some(ProfileEditor::create());
                self.screen = Screen::ProfileEditor;
                self.status = owned("Create a process-lifetime manual profile.");
            },
            Action::EditProfile => {
                if self.selected_profile < self.profiles.len() {
                    match ProfileEditor::edit(&self.profiles[self.selected_profile]) {
                        Some(editor) => {
                            self.profile_editor = Some(editor);
                            self.screen = Screen::ProfileEditor;
                            self.status = owned("Edit is isolated from the Select action.");
                        },
                        None => {
                            self.status = owned(
                                "OpenSSH profiles are read-only; edit the source config and press I.",
                            );
                        },
                    }
                }
            },
            Action::DeleteProfile => self.delete_selected_profile(),
            _ => {},
        }
    }
}

} // verus!
