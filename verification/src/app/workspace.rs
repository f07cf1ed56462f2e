//! The Workspace screen: browsing, staging and editing the Waybill.
use vstd::prelude::*;

use crate::domain::{BrowserEntry, ConflictPolicy, ConnectionProfile, Endpoint, EntryKind, TransferDirection, TransferPlanItem, TransferState};
use crate::text;
use crate::text::{concat2, concat3, decimal_string, owned};
use super::forms;
use super::forms::{Action, Focus, Screen, move_index};
use super::paths;
use super::paths::{destination_file_name, join_logical_path};
use super::catalog;
use super::catalog::expectation_for;
use super::state;
use super::state::App;

verus! {

broadcast use vstd::string::group_string_axioms;

/// A staged upload of the local entry `e` to the current remote directory of `p`.
pub open spec fn is_staged_upload(item: TransferPlanItem, a: App, p: ConnectionProfile, e: BrowserEntry) -> bool {
    &&& item.id == a.next_plan_id
    &&& item.source.profile_id is None
    &&& item.source.label@ == "local"@
    &&& item.source.path@ == e.path@
    &&& text::opt_view(item.destination.profile_id) == Some(p.id@)
    &&& item.destination.label@ == p.label@
    &&& item.destination.path@ == paths::spec_join_logical_path(a.remote_directory@, e.name@)
    &&& item.direction == TransferDirection::Upload
    &&& item.entry_kind == e.kind
    &&& item.expected_size == e.size
    &&& item.destination_expectation == catalog::spec_expectation_for(a.remote_entries@, e.name@)
    &&& item.conflict_policy == ConflictPolicy::Ask
    &&& item.state == TransferState::Staged
}

/// A staged download of the remote entry `e` of `p` to the current local directory.
pub open spec fn is_staged_download(item: TransferPlanItem, a: App, p: ConnectionProfile, e: BrowserEntry) -> bool {
    &&& item.id == a.next_plan_id
    &&& text::opt_view(item.source.profile_id) == Some(p.id@)
    &&& item.source.label@ == p.label@
    &&& item.source.path@ == e.path@
    &&& item.destination.profile_id is None
    &&& item.destination.label@ == "local"@
    &&& item.destination.path@ == paths::spec_join_logical_path(a.local_directory@, e.name@)
    &&& item.direction == TransferDirection::Download
    &&& item.entry_kind == e.kind
    &&& item.expected_size == e.size
    &&& item.destination_expectation == catalog::spec_expectation_for(a.local_entries@, e.name@)
    &&& item.conflict_policy == ConflictPolicy::Ask
    &&& item.state == TransferState::Staged
}

/// One item was appended to the Waybill and selected.
pub open spec fn appended_post(a: App, b: App) -> bool {
    &&& b == App {
        plan: b.plan,
        plan_selection: a.plan@.len() as usize,
        next_plan_id: (a.next_plan_id + 1) as u64,
        status: b.status,
        ..a
    }
    &&& b.plan@.len() == a.plan@.len() + 1
    &&& b.plan@ == a.plan@.push(b.plan@.last())
    &&& b.status@ == "Waybill contains "@ + text::decimal(a.plan@.len() + 1) + " item(s)."@
}

/// Staging the selected browser file of the focused pane.
pub open spec fn add_post(a: App, b: App) -> bool {
    match state::spec_connected_profile(a.profiles@, a.connected_profile_id) {
        None => state::only_status(a, b, "No active profile."@),
        Some(p) => match a.focus {
            Focus::Local => if a.local_selection >= a.local_entries@.len() {
                state::only_status(a, b, "No local file selected."@)
            } else if a.local_entries@[a.local_selection as int].kind == EntryKind::Directory {
                state::only_status(a, b, "Directory staging is deferred in this PoC."@)
            } else {
                appended_post(a, b) && is_staged_upload(
                    b.plan@.last(),
                    a,
                    p,
                    a.local_entries@[a.local_selection as int],
                )
            },
            Focus::Remote => if a.remote_selection >= a.remote_entries@.len() {
                state::only_status(a, b, "No remote file selected."@)
            } else if a.remote_entries@[a.remote_selection as int].kind == EntryKind::Directory {
                state::only_status(a, b, "Directory staging is deferred in this PoC."@)
            } else {
                appended_post(a, b) && is_staged_download(
                    b.plan@.last(),
                    a,
                    p,
                    a.remote_entries@[a.remote_selection as int],
                )
            },
            Focus::Waybill => state::only_status(a, b, "Select LOCAL or REMOTE before adding an item."@),
        },
    }
}

/// Staging would append an item (and so consume a plan identity).
pub open spec fn add_would_stage(a: App) -> bool {
    &&& state::spec_connected_profile(a.profiles@, a.connected_profile_id) is Some
    &&& match a.focus {
        Focus::Local => a.local_selection < a.local_entries@.len()
            && a.local_entries@[a.local_selection as int].kind == EntryKind::File,
        Focus::Remote => a.remote_selection < a.remote_entries@.len()
            && a.remote_entries@[a.remote_selection as int].kind == EntryKind::File,
        Focus::Waybill => false,
    }
}

/// Moving the selection of the focused pane.
pub open spec fn move_selection_post(a: App, forward: bool, b: App) -> bool {
    match a.focus {
        Focus::Local => b == App {
            local_selection: forms::spec_move_index(
                a.local_selection as nat,
                a.local_entries@.len(),
                forward,
            ) as usize,
            ..a
        },
        Focus::Remote => b == App {
            remote_selection: forms::spec_move_index(
                a.remote_selection as nat,
                a.remote_entries@.len(),
                forward,
            ) as usize,
            ..a
        },
        Focus::Waybill => b == App {
            plan_selection: forms::spec_move_index(a.plan_selection as nat, a.plan@.len(), forward) as usize,
            ..a
        },
    }
}

/// The index a reorder moves the selected item to, if it stays inside the Waybill.
pub open spec fn reorder_target(a: App, forward: bool) -> Option<int> {
    let sel = a.plan_selection as int;
    let target = if forward {
        if sel < usize::MAX {
            Some(sel + 1)
        } else {
            None
        }
    } else {
        if sel > 0 {
            Some(sel - 1)
        } else {
            None
        }
    };
    match target {
        Some(t) => if t < a.plan@.len() {
            Some(t)
        } else {
            None
        },
        None => None,
    }
}

/// Swapping the selected Waybill item with its neighbour; the selection follows the item.
pub open spec fn move_plan_post(a: App, forward: bool, b: App) -> bool {
    if a.plan@.len() == 0 {
        b == a
    } else {
        match reorder_target(a, forward) {
            None => state::only_status(
                a,
                b,
                if forward {
                    "Waybill item is already last."@
                } else {
                    "Waybill item is already first."@
                },
            ),
            Some(t) => {
                let sel = a.plan_selection as int;
                &&& b == App { plan: b.plan, plan_selection: t as usize, status: b.status, ..a }
                &&& b.plan@ == a.plan@.update(sel, a.plan@[t]).update(t, a.plan@[sel])
                &&& b.status@ == "Moved Waybill item #"@ + text::decimal(a.plan@[sel].id as nat) + if forward {
                    " down."@
                } else {
                    " up."@
                }
            },
        }
    }
}

/// The Workspace screen: browse, stage, and edit the Waybill.
pub open spec fn workspace_post(a: App, action: Action, b: App) -> bool {
    let sel = a.plan_selection as int;
    let waybill = a.focus == Focus::Waybill;
    match action {
        Action::Up => move_selection_post(a, false, b),
        Action::Down => move_selection_post(a, true, b),
        Action::NextFocus => {
            &&& b == App { focus: a.focus.spec_next(), status: b.status, ..a }
            &&& b.status@ == "Focus: "@ + a.focus.spec_next().spec_name()
        },
        Action::AddToPlan => add_post(a, b),
        Action::RemovePlanItem => if waybill && a.plan@.len() > 0 {
            let remaining = a.plan@.remove(sel);
            &&& b == App { plan: b.plan, plan_selection: b.plan_selection, status: b.status, ..a }
            &&& b.plan@ == remaining
            &&& b.plan_selection == if sel < remaining.len() {
                sel
            } else if remaining.len() > 0 {
                remaining.len() - 1
            } else {
                0
            }
            &&& b.status@ == "Removed one Waybill item."@
        } else {
            b == a
        },
        Action::CycleConflictPolicy => if waybill && sel < a.plan@.len() {
            let item = a.plan@[sel];
            let policy = item.conflict_policy.spec_next();
            &&& b == App { plan: b.plan, status: b.status, ..a }
            &&& b.plan@ == a.plan@.update(sel, TransferPlanItem { conflict_policy: policy, ..item })
            &&& b.status@ == "Conflict policy: "@ + policy.spec_display() + "."@
        } else {
            b == a
        },
        Action::BeginRename => if waybill && sel < a.plan@.len() {
            let item = a.plan@[sel];
            &&& b == App {
                rename_buffer: b.rename_buffer,
                screen: Screen::Rename,
                status: b.status,
                ..a
            }
            &&& b.rename_buffer@ == match paths::spec_destination_file_name(item.destination.path@) {
                Some(name) => name,
                None => Seq::<char>::empty(),
            }
            &&& b.status@ == "Renaming Waybill item #"@ + text::decimal(item.id as nat) + "."@
        } else {
            b == a
        },
        Action::MovePlanUp => if waybill {
            move_plan_post(a, false, b)
        } else {
            b == a
        },
        Action::MovePlanDown => if waybill {
            move_plan_post(a, true, b)
        } else {
            b == a
        },
        Action::ReviewPlan | Action::Activate => if waybill && a.plan@.len() > 0 {
            &&& b == App { screen: Screen::Review, status: b.status, ..a }
            &&& b.status@ == "Review exact endpoints before execution."@
        } else {
            b == a
        },
        Action::Back => {
            &&& b == App { screen: Screen::Connections, status: b.status, ..a }
            &&& b.status@ == "Connection picker; profiles remain unchanged."@
        },
        _ => b == a,
    }
}

/// The inputs on which the Workspace screen's arithmetic and indexing stay defined.
pub open spec fn workspace_in_range(a: App, action: Action) -> bool {
    let sel = a.plan_selection as nat;
    let len = a.plan@.len();
    match action {
        Action::Up | Action::Down => {
            let forward = action == Action::Down;
            match a.focus {
                Focus::Local => forms::move_index_in_range(
                    a.local_selection as nat,
                    a.local_entries@.len(),
                    forward,
                ),
                Focus::Remote => forms::move_index_in_range(
                    a.remote_selection as nat,
                    a.remote_entries@.len(),
                    forward,
                ),
                Focus::Waybill => forms::move_index_in_range(sel, len, forward),
            }
        },
        Action::AddToPlan => add_would_stage(a) ==> a.next_plan_id < u64::MAX,
        Action::RemovePlanItem => (a.focus == Focus::Waybill && len > 0) ==> sel < len,
        Action::MovePlanUp => (a.focus == Focus::Waybill && reorder_target(a, false) is Some) ==> sel < len,
        _ => true,
    }
}

impl App {
    fn move_selection(&mut self, forward: bool)
        requires
            workspace_in_range(*old(self), if forward { Action::Down } else { Action::Up }),
        ensures
            move_selection_post(*old(self), forward, *final(self)),
    {
        match self.focus {
            Focus::Local => {
                self.local_selection = move_index(self.local_selection, self.local_entries.len(), forward);
            },
            Focus::Remote => {
                self.remote_selection = move_index(self.remote_selection, self.remote_entries.len(), forward);
            },
            Focus::Waybill => {
                self.plan_selection = move_index(self.plan_selection, self.plan.len(), forward);
            },
        }
    }

    fn staged_status(count: usize) -> (r: String)
        ensures
            r@ == "Waybill contains "@ + text::decimal(count as nat) + " item(s)."@,
    {
        let number = decimal_string(count as u64);
        concat3("Waybill contains ", number.as_str(), " item(s).")
    }

    fn add_selected_to_plan(&mut self)
        requires
            add_would_stage(*old(self)) ==> old(self).next_plan_id < u64::MAX,
        ensures
            add_post(*old(self), *final(self)),
    {
        let profile = match self.connected_profile() {
            Some(profile) => profile.clone(),
            None => {
                self.status = owned("No active profile.");
                return;
            },
        };
        let item = match self.focus {
            Focus::Local => {
                if self.local_selection >= self.local_entries.len() {
                    self.status = owned("No local file selected.");
                    return;
                }
                let entry = self.local_entries[self.local_selection].clone();
                if entry.kind == EntryKind::Directory {
                    self.status = owned("Directory staging is deferred in this PoC.");
                    return;
                }
                let destination = join_logical_path(self.remote_directory.as_str(), entry.name.as_str());
                TransferPlanItem {
                    id: self.next_plan_id,
                    source: Endpoint::local(entry.path.as_str()),
                    destination: Endpoint::remote(
                        profile.id.as_str(),
                        profile.label.as_str(),
                        destination.as_str(),
                    ),
                    direction: TransferDirection::Upload,
                    entry_kind: entry.kind,
                    expected_size: entry.size,
                    destination_expectation: expectation_for(&self.remote_entries, entry.name.as_str()),
                    conflict_policy: ConflictPolicy::Ask,
                    state: TransferState::Staged,
                }
            },
            Focus::Remote => {
                if self.remote_selection >= self.remote_entries.len() {
                    self.status = owned("No remote file selected.");
                    return;
                }
                let entry = self.remote_entries[self.remote_selection].clone();
                if entry.kind == EntryKind::Directory {
                    self.status = owned("Directory staging is deferred in this PoC.");
                    return;
                }
                let destination = join_logical_path(self.local_directory.as_str(), entry.name.as_str());
                TransferPlanItem {
                    id: self.next_plan_id,
                    source: Endpoint::remote(
                        profile.id.as_str(),
                        profile.label.as_str(),
                        entry.path.as_str(),
                    ),
                    destination: Endpoint::local(destination.as_str()),
                    direction: TransferDirection::Download,
                    entry_kind: entry.kind,
                    expected_size: entry.size,
                    destination_expectation: expectation_for(&self.local_entries, entry.name.as_str()),
                    conflict_policy: ConflictPolicy::Ask,
                    state: TransferState::Staged,
                }
            },
            Focus::Waybill => {
                self.status = owned("Select LOCAL or REMOTE before adding an item.");
                return;
            },
        };
        self.next_plan_id = self.next_plan_id + 1;
        self.plan.push(item);
        self.plan_selection = self.plan.len() - 1;
        self.status = Self::staged_status(self.plan.len());
    }

    fn move_plan_item(&mut self, forward: bool)
        requires
            (!forward && reorder_target(*old(self), false) is Some) ==> old(self).plan_selection
                < old(self).plan@.len(),
        ensures
            move_plan_post(*old(self), forward, *final(self)),
    {
        if self.plan.len() == 0 {
            return;
        }
        let sel = self.plan_selection;
        let target = if forward {
            if sel < usize::MAX {
                Some(sel + 1)
            } else {
                None
            }
        } else {
            if sel > 0 {
                Some(sel - 1)
            } else {
                None
            }
        };
        let target = match target {
            Some(t) => {
                if t < self.plan.len() {
                    t
                } else {
                    self.status = owned(
                        if forward {
                            "Waybill item is already last."
                        } else {
                            "Waybill item is already first."
                        },
                    );
                    return;
                }
            },
            None => {
                self.status = owned(
                    if forward {
                        "Waybill item is already last."
                    } else {
                        "Waybill item is already first."
                    },
                );
                return;
            },
        };
        let item_id = self.plan[sel].id;
        let first = self.plan[sel].clone();
        let second = self.plan[target].clone();
        self.plan.set(sel, second);
        self.plan.set(target, first);
        self.plan_selection = target;
        let number = decimal_string(item_id);
        self.status = concat3(
            "Moved Waybill item #",
            number.as_str(),
            if forward {
                " down."
            } else {
                " up."
            },
        );
    }

    pub(crate) fn update_workspace(&mut self, action: Action)
        requires
            workspace_in_range(*old(self), action),
        ensures
            workspace_post(*old(self), action, *final(self)),
    {
        let waybill = self.focus == Focus::Waybill;
        match action {
            Action::Up => self.move_selection(false),
            Action::Down => self.move_selection(true),
            Action::NextFocus => {
                self.focus = self.focus.next();
                self.status = concat2("Focus: ", self.focus.name());
            },
            Action::AddToPlan => self.add_selected_to_plan(),
            Action::RemovePlanItem => {
                if waybill && self.plan.len() > 0 {
                    let sel = self.plan_selection;
                    self.plan.remove(sel);
                    let last = if self.plan.len() > 0 {
                        self.plan.len() - 1
                    } else {
                        0
                    };
                    self.plan_selection = if sel < last { sel } else { last };
                    self.status = owned("Removed one Waybill item.");
                }
            },
            Action::CycleConflictPolicy => {
                if waybill && self.plan_selection < self.plan.len() {
                    let mut item = self.plan[self.plan_selection].clone();
                    item.conflict_policy = item.conflict_policy.next();
                    let policy = item.conflict_policy;
                    self.plan.set(self.plan_selection, item);
                    self.status = concat3("Conflict policy: ", policy.display(), ".");
                }
            },
            Action::BeginRename => {
                if waybill && self.plan_selection < self.plan.len() {
                    let item_id = self.plan[self.plan_selection].id;
                    self.rename_buffer = match destination_file_name(
                        self.plan[self.plan_selection].destination.path.as_str(),
                    ) {
                        Some(name) => name,
                        None => String::new(),
                    };
                    self.screen = Screen::Rename;
                    let number = decimal_string(item_id);
                    self.status = concat3("Renaming Waybill item #", number.as_str(), ".");
                }
            },
            Action::MovePlanUp => {
                if waybill {
                    self.move_plan_item(false);
                }
            },
            Action::MovePlanDown => {
                if waybill {
                    self.move_plan_item(true);
                }
            },
            Action::ReviewPlan | Action::Activate => {
                if waybill && self.plan.len() > 0 {
                    self.screen = Screen::Review;
                    self.status = owned("Review exact endpoints before execution.");
                }
            },
            Action::Back => {
                self.screen = Screen::Connections;
                self.status = owned("Connection picker; profiles remain unchanged.");
            },
            _ => {},
        }
    }
}

} // verus!
