//! The rename and review screens, and the dispatch of one action.
use vstd::prelude::*;

use crate::domain::{DestinationExpectation, Endpoint, EntryKind, TransferDirection, TransferPlanItem};
use crate::executor;
use crate::executor::{ExecutionSummary, execute_representative};
use crate::text;
use crate::text::{char_is_control, concat3, decimal_string, owned, pop_char, push_char, str_equal};
use super::forms;
use super::forms::{Action, ExecutionMode, Focus, ProfileEditor, Screen};
use super::paths;
use super::paths::{join_logical_path, renamed_destination};
use super::catalog;
use super::catalog::{expectation_for, profile_from_editor};
use super::state;
use super::state::App;
use super::connections;
use super::editor;
use super::workspace;

verus! {

broadcast use vstd::string::group_string_axioms;

/// The destination state expected after renaming `item` to `name` at `path`: looked up in
/// the browser of the destination side when that browser shows the destination directory,
/// missing otherwise.
pub open spec fn renamed_expectation(
    a: App,
    item: TransferPlanItem,
    name: Seq<char>,
    path: Seq<char>,
) -> DestinationExpectation {
    let (directory, entries) = match item.direction {
        TransferDirection::Upload => (a.remote_directory@, a.remote_entries@),
        TransferDirection::Download => (a.local_directory@, a.local_entries@),
    };
    if paths::spec_join_logical_path(directory, name) == path {
        catalog::spec_expectation_for(entries, name)
    } else {
        DestinationExpectation::Missing
    }
}

/// The rename dialog: edit the buffer, apply a valid leaf name, or cancel.
pub open spec fn rename_post(a: App, action: Action, b: App) -> bool {
    let sel = a.plan_selection as int;
    match action {
        Action::InputRenameChar(c) => if !text::is_control(c) {
            &&& b == App { rename_buffer: b.rename_buffer, ..a }
            &&& b.rename_buffer@ == a.rename_buffer@.push(c)
        } else {
            b == a
        },
        Action::BackspaceRename => {
            &&& b == App { rename_buffer: b.rename_buffer, ..a }
            &&& b.rename_buffer@ == editor::backspaced(a.rename_buffer@)
        },
        Action::Activate => if sel >= a.plan@.len() {
            &&& b == App { screen: Screen::Workspace, status: b.status, ..a }
            &&& b.status@ == "Waybill item no longer exists."@
        } else {
            let item = a.plan@[sel];
            match paths::spec_renamed_destination(item.destination.path@, a.rename_buffer@) {
                Err(message) => state::only_status(a, b, message),
                Ok(path) => {
                    let renamed = b.plan@[sel];
                    &&& b == App {
                        plan: b.plan,
                        screen: Screen::Workspace,
                        status: b.status,
                        ..a
                    }
                    &&& b.plan@ == a.plan@.update(sel, renamed)
                    &&& renamed == TransferPlanItem {
                        destination: Endpoint { path: renamed.destination.path, ..item.destination },
                        destination_expectation: renamed_expectation(a, item, a.rename_buffer@, path),
                        ..item
                    }
                    &&& renamed.destination.path@ == path
                    &&& b.status@ == "Renamed destination for Waybill item #"@ + text::decimal(item.id as nat)
                        + "."@
                },
            }
        },
        Action::Back => {
            &&& b == App { screen: Screen::Workspace, status: b.status, ..a }
            &&& b.status@ == "Rename cancelled; destination unchanged."@
        },
        _ => b == a,
    }
}

/// The status line after a representative execution with summary `s`.
pub open spec fn execution_status(s: ExecutionSummary) -> Seq<char> {
    if s.spec_total() == 0 {
        "No staged items; terminal synthetic results were preserved."@
    } else {
        "Synthetic only: "@ + text::decimal(s.succeeded as nat) + " succeeded, "@ + text::decimal(
            s.failed as nat,
        ) + " failed, "@ + text::decimal(s.skipped as nat) + " skipped, "@ + text::decimal(
            s.cancelled as nat,
        ) + " cancelled."@
    }
}

/// The review overlay: close it, or run the representative execution in fixture mode
/// (live execution is driven by the runtime loop).
pub open spec fn review_post(a: App, action: Action, b: App) -> bool {
    match action {
        Action::Back => {
            &&& b == App { screen: Screen::Workspace, status: b.status, ..a }
            &&& b.status@ == "Synthetic review closed; no files were transferred by this PoC."@
        },
        Action::Activate => if a.execution_mode == ExecutionMode::Fixture {
            &&& b == App { plan: b.plan, status: b.status, ..a }
            &&& b.plan@ == executor::executed_plan(a.plan@)
            &&& b.status@ == execution_status(executor::representative_summary(a.plan@))
        } else {
            b == a
        },
        _ => b == a,
    }
}

/// What one action does to the application state; `Quit` changes nothing.
pub open spec fn update_post(a: App, action: Action, b: App) -> bool {
    if action == Action::Quit {
        b == a
    } else {
        match a.screen {
            Screen::Connections => connections::connections_post(a, action, b),
            Screen::ProfileEditor => editor::editor_post(a, action, b),
            Screen::Workspace => workspace::workspace_post(a, action, b),
            Screen::Rename => rename_post(a, action, b),
            Screen::Review => review_post(a, action, b),
        }
    }
}

/// The inputs on which `update` stays within its arithmetic and indexing.
pub open spec fn update_in_range(a: App, action: Action) -> bool {
    action == Action::Quit || match a.screen {
        Screen::Connections => match action {
            Action::Up => forms::move_index_in_range(a.selected_profile as nat, a.profiles@.len(), false),
            Action::Down => forms::move_index_in_range(a.selected_profile as nat, a.profiles@.len(), true),
            _ => true,
        },
        Screen::ProfileEditor => action == Action::Activate ==> editor::save_in_range(a),
        Screen::Workspace => workspace::workspace_in_range(a, action),
        _ => true,
    }
}

fn index_move_in_range(current: usize, length: usize, forward: bool) -> (r: bool)
    ensures
        r == forms::move_index_in_range(current as nat, length as nat, forward),
{
    length == 0 || if forward {
        current < usize::MAX
    } else {
        current <= usize::MAX - length
    }
}

impl App {
    fn rename_status(item_id: u64) -> (r: String)
        ensures
            r@ == "Renamed destination for Waybill item #"@ + text::decimal(item_id as nat) + "."@,
    {
        let number = decimal_string(item_id);
        concat3("Renamed destination for Waybill item #", number.as_str(), ".")
    }

    fn update_rename(&mut self, action: Action)
        ensures
            rename_post(*old(self), action, *final(self)),
    {
        match action {
            Action::InputRenameChar(character) => {
                if !char_is_control(character) {
                    push_char(&mut self.rename_buffer, character);
                }
            },
            Action::BackspaceRename => {
                let _ = pop_char(&mut self.rename_buffer);
            },
            Action::Activate => {
                let sel = self.plan_selection;
                if sel >= self.plan.len() {
                    self.screen = Screen::Workspace;
                    self.status = owned("Waybill item no longer exists.");
                    return;
                }
                let mut item = self.plan[sel].clone();
                match renamed_destination(item.destination.path.as_str(), self.rename_buffer.as_str()) {
                    Ok(path) => {
                        let expectation = match item.direction {
                            TransferDirection::Upload => {
                                let listed = join_logical_path(
                                    self.remote_directory.as_str(),
                                    self.rename_buffer.as_str(),
                                );
                                if str_equal(listed.as_str(), path.as_str()) {
                                    expectation_for(&self.remote_entries, self.rename_buffer.as_str())
                                } else {
                                    DestinationExpectation::Missing
                                }
                            },
                            TransferDirection::Download => {
                                let listed = join_logical_path(
                                    self.local_directory.as_str(),
                                    self.rename_buffer.as_str(),
                                );
                                if str_equal(listed.as_str(), path.as_str()) {
                                    expectation_for(&self.local_entries, self.rename_buffer.as_str())
                                } else {
                                    DestinationExpectation::Missing
                                }
                            },
                        };
                        item.destination.path = path;
                        item.destination_expectation = expectation;
                        let item_id = item.id;
                        self.plan.set(sel, item);
                        self.screen = Screen::Workspace;
                        self.status = Self::rename_status(item_id);
                    },
                    Err(message) => {
                        self.status = owned(message);
                    },
                }
            },
            Action::Back => {
                self.screen = Screen::Workspace;
                self.status = owned("Rename cancelled; destination unchanged.");
            },
            _ => {},
        }
    }

    fn execute_synthetic_plan(&mut self)
        ensures
            *final(self) == (App { plan: final(self).plan, status: final(self).status, ..*old(self) }),
            final(self).plan@ == executor::executed_plan(old(self).plan@),
            final(self).status@ == execution_status(executor::representative_summary(old(self).plan@)),
    {
        let count = self.plan.len();
        assert(old(self).plan@.len() == count);
        let summary = execute_representative(&mut self.plan);
        proof {
            executor::lemma_summary_total(old(self).plan@);
        }
        if summary.total() == 0 {
            self.status = owned("No staged items; terminal synthetic results were preserved.");
        } else {
            let mut status = owned("Synthetic only: ");
            let n = decimal_string(summary.succeeded as u64);
            status.append(n.as_str());
            status.append(" succeeded, ");
            let n = decimal_string(summary.failed as u64);
            status.append(n.as_str());
            status.append(" failed, ");
            let n = decimal_string(summary.skipped as u64);
            status.append(n.as_str());
            status.append(" skipped, ");
            let n = decimal_string(summary.cancelled as u64);
            status.append(n.as_str());
            status.append(" cancelled.");
            self.status = status;
        }
    }

    /// Whether `update` can take `action` in this state without exceeding its arithmetic
    /// or indexing (`update_in_range`).
    pub fn update_is_in_range(&self, action: Action) -> (r: bool)
        ensures
            r == update_in_range(*self, action),
    {
        if action == Action::Quit {
            return true;
        }
        match self.screen {
            Screen::Connections => match action {
                Action::Up => index_move_in_range(self.selected_profile, self.profiles.len(), false),
                Action::Down => index_move_in_range(self.selected_profile, self.profiles.len(), true),
                _ => true,
            },
            Screen::ProfileEditor => {
                if action != Action::Activate {
                    return true;
                }
                match &self.profile_editor {
                    Some(editor) => {
                        if editor.profile_id.is_some() {
                            return true;
                        }
                        match profile_from_editor(editor, &self.profiles, self.next_profile_id) {
                            Ok(_) => self.next_profile_id < u64::MAX,
                            Err(_) => true,
                        }
                    },
                    None => true,
                }
            },
            Screen::Workspace => {
                let sel = self.plan_selection;
                let len = self.plan.len();
                match action {
                    Action::Up | Action::Down => {
                        let forward = action == Action::Down;
                        match self.focus {
                            Focus::Local => index_move_in_range(self.local_selection, self.local_entries.len(), forward),
                            Focus::Remote => index_move_in_range(self.remote_selection, self.remote_entries.len(), forward),
                            Focus::Waybill => index_move_in_range(sel, len, forward),
                        }
                    },
                    Action::AddToPlan => {
                        let stages = self.connected_profile().is_some() && match self.focus {
                            Focus::Local => self.local_selection < self.local_entries.len()
                                && self.local_entries[self.local_selection].kind == EntryKind::File,
                            Focus::Remote => self.remote_selection < self.remote_entries.len()
                                && self.remote_entries[self.remote_selection].kind == EntryKind::File,
                            Focus::Waybill => false,
                        };
                        !stages || self.next_plan_id < u64::MAX
                    },
                    Action::RemovePlanItem => !(self.focus == Focus::Waybill && len > 0) || sel < len,
                    Action::MovePlanUp => {
                        let has_target = sel > 0 && sel - 1 < len;
                        !(self.focus == Focus::Waybill && has_target) || sel < len
                    },
                    _ => true,
                }
            },
            _ => true,
        }
    }

    /// Applies one action; returns whether the application should quit.
    pub fn update(&mut self, action: Action) -> (quit: bool)
        requires
            update_in_range(*old(self), action),
        ensures
            quit == (action == Action::Quit),
            update_post(*old(self), action, *final(self)),
    {
        if action == Action::Quit {
            return true;
        }
        match self.screen {
            Screen::Connections => self.update_connections(action),
            Screen::ProfileEditor => self.update_profile_editor(action),
            Screen::Workspace => self.update_workspace(action),
            Screen::Rename => self.update_rename(action),
            Screen::Review => {
                if action == Action::Back {
                    self.screen = Screen::Workspace;
                    self.status = owned("Synthetic review closed; no files were transferred by this PoC.");
                } else if action == Action::Activate {
                    if self.execution_mode == ExecutionMode::Fixture {
                        self.execute_synthetic_plan();
                    }
                }
            },
        }
        false
    }
}

} // verus!
