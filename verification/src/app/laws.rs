//! Laws of the interaction state, stated over the contracts of the screens.
use vstd::prelude::*;

use super::catalog;
use super::editor;
use super::forms::{Action, Focus, ProfileEditor, Screen};
use super::browse;
use super::paths;
use super::refresh;
use super::review;
use super::state::App;
use super::workspace;
use crate::domain::{ConnectionProfile, TransferPlanItem, TransferState};
use crate::text;
verus! {

// ---------------------------------------------------------------------------
// Laws of the interaction state
// ---------------------------------------------------------------------------
/// Moving through the catalog or selecting a profile never changes the catalog.
pub proof fn law_selection_keeps_catalog(a: App, action: Action, b: App)
    requires
        a.screen == Screen::Connections,
        action == Action::Up || action == Action::Down || action == Action::Activate,
        review::update_post(a, action, b),
    ensures
        b.profiles == a.profiles,
        b.plan == a.plan,
{
}

/// Browsing (moving selections and focus) never changes the Waybill.
pub proof fn law_browsing_keeps_plan(a: App, action: Action, b: App)
    requires
        a.screen == Screen::Workspace,
        action == Action::Up || action == Action::Down || action == Action::NextFocus,
        a.focus != Focus::Waybill || action == Action::NextFocus,
        review::update_post(a, action, b),
    ensures
        b.plan == a.plan,
        b.profiles == a.profiles,
{
}

/// Nothing done in the profile form changes the Waybill; only a successful save changes
/// the catalog.
pub proof fn law_profile_form_keeps_plan(a: App, action: Action, b: App)
    requires
        a.screen == Screen::ProfileEditor,
        review::update_post(a, action, b),
    ensures
        b.plan == a.plan,
        b.connected_profile_id == a.connected_profile_id,
        action != Action::Activate ==> b.profiles == a.profiles,
        a.profile_editor matches Some(e) && catalog::profile_editor_error(e, a.profiles@) is Some
            ==> b.profiles == a.profiles,
{
}

/// Deletion never cascades into the Waybill, and a profile that staged items reference
/// is never deleted.
pub proof fn law_delete_is_non_cascading(a: App, b: App)
    requires
        a.screen == Screen::Connections,
        review::update_post(a, Action::DeleteProfile, b),
    ensures
        b.plan == a.plan,
        a.selected_profile < a.profiles@.len() && catalog::reference_count(
            a.plan@,
            a.profiles@[a.selected_profile as int].id@,
        ) > 0 ==> b.profiles == a.profiles,
        a.selected_profile < a.profiles@.len() && a.profiles@[a.selected_profile as int].spec_is_open_ssh()
            ==> b.profiles == a.profiles,
{
}

/// Every profile `without_imports` keeps is one of the catalog's own profiles.
proof fn lemma_without_imports_members(s: Seq<ConnectionProfile>)
    ensures
        forall|p: ConnectionProfile| #[trigger] refresh::without_imports(s).contains(p) ==> s.contains(p) && !p.spec_is_open_ssh(),
        forall|p: ConnectionProfile| s.contains(p) && !p.spec_is_open_ssh() ==> #[trigger] refresh::without_imports(s).contains(p),
    decreases s.len(),
{
    if s.len() > 0 {
        lemma_without_imports_members(s.drop_last());
        assert forall|p: ConnectionProfile| #[trigger] refresh::without_imports(s).contains(p) implies s.contains(p) && !p.spec_is_open_ssh() by {
            if refresh::without_imports(s.drop_last()).contains(p) {
                assert(s.drop_last().contains(p));
                let k = choose|k: int| 0 <= k < s.drop_last().len() && s.drop_last()[k] == p;
                assert(s[k] == p);
            } else {
                assert(p == s.last());
                assert(s[s.len() - 1] == p);
            }
        }
        assert forall|p: ConnectionProfile| s.contains(p) && !p.spec_is_open_ssh() implies #[trigger] refresh::without_imports(s).contains(p) by {
            let k = choose|k: int| 0 <= k < s.len() && s[k] == p;
            if k < s.len() - 1 {
                assert(s.drop_last()[k] == p);
                assert(s.drop_last().contains(p));
                let w = refresh::without_imports(s.drop_last());
                assert(w.contains(p));
                if !s.last().spec_is_open_ssh() {
                    let m = choose|m: int| 0 <= m < w.len() && w[m] == p;
                    assert(w.push(s.last())[m] == p);
                }
            } else {
                let w = refresh::without_imports(s.drop_last());
                assert(w.push(s.last())[w.len() as int] == p);
            }
        }
    }
}

/// Merging imports only adds profiles: every profile of the base stays.
proof fn lemma_merge_keeps_base(base: Seq<ConnectionProfile>, imported: Seq<ConnectionProfile>)
    ensures
        forall|p: ConnectionProfile| base.contains(p) ==> #[trigger] refresh::merge_imports(base, imported).0.contains(p),
    decreases imported.len(),
{
    if imported.len() > 0 {
        lemma_merge_keeps_base(base, imported.drop_last());
        let prev = refresh::merge_imports(base, imported.drop_last()).0;
        assert forall|p: ConnectionProfile| base.contains(p) implies #[trigger] refresh::merge_imports(base, imported).0.contains(p) by {
            assert(prev.contains(p));
            let k = choose|k: int| 0 <= k < prev.len() && prev[k] == p;
            assert(prev.push(imported.last())[k] == p);
        }
    }
}

/// A refresh keeps every manual and synthetic profile and never touches the Waybill.
pub proof fn law_refresh_keeps_manual_profiles_and_plan(
    a: App,
    imported: Seq<ConnectionProfile>,
    status: Seq<char>,
    b: App,
)
    requires
        refresh::refresh_post(a, imported, status, b),
    ensures
        b.plan == a.plan,
        forall|p: ConnectionProfile| #[trigger] a.profiles@.contains(p) && !p.spec_is_open_ssh() ==> b.profiles@.contains(p),
{
    let base = refresh::without_imports(a.profiles@);
    let merged = refresh::merge_imports(base, imported).0;
    lemma_without_imports_members(a.profiles@);
    lemma_merge_keeps_base(base, imported);
    assert forall|p: ConnectionProfile| #[trigger] a.profiles@.contains(p) && !p.spec_is_open_ssh() implies b.profiles@.contains(p) by {
        assert(base.contains(p));
        assert(merged.contains(p));
        assert(merged.to_multiset().count(p) > 0) by {
            vstd::seq_lib::lemma_seq_contains_after_push(merged, p, p);
            merged.to_multiset_ensures();
        }
        b.profiles@.to_multiset_ensures();
    }
}

/// Renaming changes only the destination path of the selected item (and the destination
/// state it expects); the source, direction, identity, policy and every other item stay.
pub proof fn law_rename_changes_only_the_destination_leaf(a: App, b: App)
    requires
        a.screen == Screen::Rename,
        review::update_post(a, Action::Activate, b),
        a.plan_selection < a.plan@.len(),
    ensures
        b.plan@.len() == a.plan@.len(),
        forall|j: int| 0 <= j < a.plan@.len() && j != a.plan_selection ==> b.plan@[j] == a.plan@[j],
        b.plan@[a.plan_selection as int].source == a.plan@[a.plan_selection as int].source,
        b.plan@[a.plan_selection as int].destination.profile_id == a.plan@[a.plan_selection as int].destination.profile_id,
        b.plan@[a.plan_selection as int].destination.label == a.plan@[a.plan_selection as int].destination.label,
        b.plan@[a.plan_selection as int].id == a.plan@[a.plan_selection as int].id,
        b.plan@[a.plan_selection as int].direction == a.plan@[a.plan_selection as int].direction,
        b.plan@[a.plan_selection as int].conflict_policy == a.plan@[a.plan_selection as int].conflict_policy,
        paths::spec_renamed_destination(a.plan@[a.plan_selection as int].destination.path@, a.rename_buffer@) is Err
            ==> b.plan == a.plan && b.screen == Screen::Rename,
{
}

/// Reordering keeps the Waybill's items and moves the selected item with the selection.
pub proof fn law_reorder_keeps_items(a: App, forward: bool, b: App)
    requires
        a.screen == Screen::Workspace,
        a.focus == Focus::Waybill,
        review::update_post(a, if forward { Action::MovePlanDown } else { Action::MovePlanUp }, b),
        a.plan_selection < a.plan@.len(),
    ensures
        b.plan@.to_multiset() == a.plan@.to_multiset(),
        b.plan@[b.plan_selection as int] == a.plan@[a.plan_selection as int],
{
    match workspace::reorder_target(a, forward) {
        None => {},
        Some(t) => {
            let sel = a.plan_selection as int;
            let s = a.plan@;
            let u = s.update(sel, s[t]);
            broadcast use vstd::multiset::group_multiset_axioms;
            vstd::seq_lib::to_multiset_update(s, sel, s[t]);
            vstd::seq_lib::to_multiset_update(u, t, s[sel]);
            assert(u[t] == s[t]);
            s.to_multiset_ensures();
            assert(s.contains(s[sel]));
            assert(s.contains(s[t]));
            assert(u.update(t, s[sel]).to_multiset() =~= s.to_multiset());
        },
    }
}

/// The labels of `profiles` are distinct up to ASCII case.
pub open spec fn labels_unique(profiles: Seq<ConnectionProfile>) -> bool {
    forall|i: int, j: int|
        0 <= i < j < profiles.len() ==> text::lower_seq(#[trigger] profiles[i].label@)
            != text::lower_seq(#[trigger] profiles[j].label@)
}

/// The identities of `profiles` are distinct.
pub open spec fn ids_unique(profiles: Seq<ConnectionProfile>) -> bool {
    forall|i: int, j: int|
        0 <= i < j < profiles.len() ==> (#[trigger] profiles[i]).id@ != (#[trigger] profiles[j]).id@
}

/// No identity of `profiles` is empty.
pub open spec fn ids_nonempty(profiles: Seq<ConnectionProfile>) -> bool {
    forall|i: int| 0 <= i < profiles.len() ==> (#[trigger] profiles[i]).id@.len() > 0
}

proof fn lemma_save_keeps_labels_unique(a: App, e: ProfileEditor, b: App)
    requires
        editor::save_post(a, e, b),
        labels_unique(a.profiles@),
        ids_unique(a.profiles@),
        ids_nonempty(a.profiles@),
    ensures
        labels_unique(b.profiles@),
{
    if catalog::profile_editor_error(e, a.profiles@) is None {
        let label = text::trim_seq(e.label@);
        let identity = catalog::editor_identity(e);
        assert(!catalog::label_taken(a.profiles@, identity, label));
        match e.profile_id {
            Some(id) => {
                match catalog::first_with_id(a.profiles@, id@) {
                    None => {},
                    Some(k) => {
                        assert(a.profiles@[k].id@ == identity);
                        assert forall|i: int, j: int| 0 <= i < j < b.profiles@.len() implies text::lower_seq(
                            #[trigger] b.profiles@[i].label@,
                        ) != text::lower_seq(#[trigger] b.profiles@[j].label@) by {
                            if i == k {
                                assert(a.profiles@[k].id@ != a.profiles@[j].id@);
                                assert(a.profiles@[j] == b.profiles@[j]);
                            } else if j == k {
                                assert(a.profiles@[i].id@ != a.profiles@[k].id@);
                                assert(a.profiles@[i] == b.profiles@[i]);
                            } else {
                                assert(a.profiles@[i] == b.profiles@[i]);
                                assert(a.profiles@[j] == b.profiles@[j]);
                            }
                        }
                    },
                }
            },
            None => {
                let n = a.profiles@.len() as int;
                assert forall|i: int, j: int| 0 <= i < j < b.profiles@.len() implies text::lower_seq(
                    #[trigger] b.profiles@[i].label@,
                ) != text::lower_seq(#[trigger] b.profiles@[j].label@) by {
                    assert(a.profiles@[i] == b.profiles@[i]);
                    if j < n {
                        assert(a.profiles@[j] == b.profiles@[j]);
                    } else {
                        assert(b.profiles@[j].label@ == label);
                        assert(a.profiles@[i].id@.len() > 0);
                        assert(a.profiles@[i].id@ != identity);
                    }
                }
            },
        }
    }
}

/// Labels unique up to ASCII case stay unique when the form is saved, as long as the
/// catalog's identities are distinct and not empty.
pub proof fn law_save_keeps_labels_unique(a: App, b: App)
    requires
        a.screen == Screen::ProfileEditor,
        review::update_post(a, Action::Activate, b),
        labels_unique(a.profiles@),
        ids_unique(a.profiles@),
        ids_nonempty(a.profiles@),
    ensures
        labels_unique(b.profiles@),
{
    match a.profile_editor {
        None => {},
        Some(e) => {
            assert(editor::save_post(a, e, b));
            lemma_save_keeps_labels_unique(a, e, b);
        },
    }
}

/// Opening the profile form, editing in it, saving or cancelling never connects or
/// disconnects; connecting is the separate Select action.
pub proof fn law_edit_is_separate_from_connect(a: App, action: Action, b: App)
    requires
        a.screen == Screen::Connections && (action == Action::AddProfile || action == Action::EditProfile)
            || a.screen == Screen::ProfileEditor,
        review::update_post(a, action, b),
    ensures
        b.connected_profile_id == a.connected_profile_id,
        b.screen != Screen::Workspace,
        b.plan == a.plan,
{
}

/// Saving an edited profile keeps every profile's identity, in place.
pub proof fn law_edit_preserves_identities(a: App, b: App)
    requires
        a.screen == Screen::ProfileEditor,
        a.profile_editor matches Some(e) && e.profile_id is Some,
        review::update_post(a, Action::Activate, b),
    ensures
        b.profiles@.len() == a.profiles@.len(),
        forall|i: int| 0 <= i < a.profiles@.len() ==> (#[trigger] b.profiles@[i]).id@ == a.profiles@[i].id@,
{
    let e = a.profile_editor->0;
    assert(editor::save_post(a, e, b));
    let id = e.profile_id->0;
    if catalog::profile_editor_error(e, a.profiles@) is None {
        match catalog::first_with_id(a.profiles@, id@) {
            None => {},
            Some(k) => {
                catalog::lemma_first_with_id(a.profiles@, id@);
                assert(a.profiles@[k].id@ == id@);
                assert(b.profiles@[k].id == id);
                assert forall|i: int| 0 <= i < a.profiles@.len() implies (#[trigger] b.profiles@[i]).id@ == a.profiles@[i].id@ by {
                    if i == k {
                        assert(a.profiles@[k].id@ == b.profiles@[k].id@);
                    } else {
                        assert(b.profiles@[i] == a.profiles@[i]);
                    }
                }
            },
        }
    }
}

/// Replacing a browser listing changes neither the Waybill nor the catalog.
pub proof fn law_listing_changes_keep_plan(
    a: App,
    b: App,
    path: String,
    entries: Seq<crate::domain::BrowserEntry>,
    status: Seq<char>,
    local: bool,
)
    requires
        browse::listing_replaced(a, b, path, entries, status, local),
    ensures
        b.plan == a.plan,
        b.profiles == a.profiles,
        b.connected_profile_id == a.connected_profile_id,
{
}

/// A renamed destination keeps its parent: the last `/` stays where it was, everything
/// before it is unchanged, and the new leaf is the given name.
pub proof fn law_renaming_keeps_the_parent(path: Seq<char>, name: Seq<char>)
    requires
        paths::spec_renamed_destination(path, name) is Ok,
    ensures
        text::last_index_of(path, '/') is Some,
        ({
            let i = text::last_index_of(path, '/')->0;
            let renamed = paths::spec_renamed_destination(path, name)->Ok_0;
            &&& text::last_index_of(renamed, '/') == Some(i)
            &&& renamed.take(i) == path.take(i)
            &&& renamed.skip(i + 1) == name
        }),
{
    let i = text::last_index_of(path, '/')->0;
    let renamed = paths::spec_renamed_destination(path, name)->Ok_0;
    reveal_strlit("/");
    text::lemma_last_index_of(path, '/');
    assert(0 <= i < path.len() && path[i] == '/');
    assert(renamed == path.take(i) + "/"@ + name);
    assert(renamed.len() == i + 1 + name.len());
    assert(renamed.take(i) =~= path.take(i));
    assert(renamed.skip(i + 1) =~= name);
    assert(renamed[i] == '/');
    assert forall|j: int| i < j < renamed.len() implies renamed[j] != '/' by {
        assert(renamed[j] == name[j - i - 1]);
        if name[j - i - 1] == '/' {
            assert(text::has_char(name, '/'));
        }
    }
    assert(text::has_char(renamed, '/'));
    let w = choose|w: int| 0 <= w < renamed.len() && renamed[w] == '/' && forall|j: int| w < j < renamed.len() ==> renamed[j] != '/';
    assert(0 <= w < renamed.len() && renamed[w] == '/' && forall|j: int| w < j < renamed.len() ==> renamed[j] != '/') by {
        assert(renamed[i] == '/');
    }
    if w < i {
        assert(renamed[i] != '/');
    }
    if w > i {
        assert(renamed[w] != '/');
    }
}

/// Every item of `b` that is no longer staged was already in `a`, with the same identity
/// and state.
pub open spec fn results_only_from(a: Seq<TransferPlanItem>, b: Seq<TransferPlanItem>) -> bool {
    forall|j: int|
        0 <= j < b.len() && (#[trigger] b[j]).state != TransferState::Staged ==> exists|i: int|
            0 <= i < a.len() && (#[trigger] a[i]).id == b[j].id && a[i].state == b[j].state
}

proof fn lemma_same_plan_has_no_new_results(a: Seq<TransferPlanItem>)
    ensures
        results_only_from(a, a),
{
    assert forall|j: int| 0 <= j < a.len() && (#[trigger] a[j]).state != TransferState::Staged implies exists|i: int|
        0 <= i < a.len() && (#[trigger] a[i]).id == a[j].id && a[i].state == a[j].state by {
        assert(a[j].id == a[j].id);
    }
}

proof fn lemma_workspace_has_no_new_results(a: App, action: Action, b: App)
    requires
        a.screen == Screen::Workspace,
        workspace::workspace_in_range(a, action),
        workspace::workspace_post(a, action, b),
    ensures
        results_only_from(a.plan@, b.plan@),
{
    let s = a.plan@;
    let r = b.plan@;
    let sel = a.plan_selection as int;
    if r == s {
        lemma_same_plan_has_no_new_results(s);
        return;
    }
    assert forall|j: int| 0 <= j < r.len() && (#[trigger] r[j]).state != TransferState::Staged implies exists|i: int|
        0 <= i < s.len() && (#[trigger] s[i]).id == r[j].id && s[i].state == r[j].state by {
        match action {
            Action::AddToPlan => {
                assert(r == s.push(r.last()));
                if j < s.len() {
                    assert(s[j] == r[j]);
                }
            },
            Action::RemovePlanItem => {
                assert(r == s.remove(sel));
                if j < sel {
                    assert(s[j] == r[j]);
                } else {
                    assert(s[j + 1] == r[j]);
                }
            },
            Action::CycleConflictPolicy => {
                if j == sel {
                    assert(s[sel].id == r[j].id);
                } else {
                    assert(s[j] == r[j]);
                }
            },
            Action::MovePlanUp | Action::MovePlanDown => {
                let forward = action == Action::MovePlanDown;
                let t = workspace::reorder_target(a, forward)->0;
                if j == sel {
                    assert(s[t] == r[j]);
                } else if j == t {
                    assert(s[sel] == r[j]);
                } else {
                    assert(s[j] == r[j]);
                }
            },
            _ => {},
        }
    }
}

/// Outside the review screen's Activate, no action produces a transfer result: every item
/// that is not staged afterwards was already there, with the same identity and state.
pub proof fn law_only_review_produces_results(a: App, action: Action, b: App)
    requires
        review::update_in_range(a, action),
        review::update_post(a, action, b),
        !(a.screen == Screen::Review && action == Action::Activate),
    ensures
        results_only_from(a.plan@, b.plan@),
{
    let s = a.plan@;
    let r = b.plan@;
    if r == s {
        lemma_same_plan_has_no_new_results(s);
    } else if a.screen == Screen::Workspace {
        lemma_workspace_has_no_new_results(a, action, b);
    } else {
        let sel = a.plan_selection as int;
        assert(a.screen == Screen::Rename && action == Action::Activate);
        assert forall|j: int| 0 <= j < r.len() && (#[trigger] r[j]).state != TransferState::Staged implies exists|i: int|
            0 <= i < s.len() && (#[trigger] s[i]).id == r[j].id && s[i].state == r[j].state by {
            if j == sel {
                assert(s[sel].id == r[j].id);
            } else {
                assert(s[j] == r[j]);
            }
        }
    }
}

} // verus!

verus! {

/// Every selection points into its list, or is 0 when the list is empty.
pub open spec fn selections_in_range(a: App) -> bool {
    &&& a.selected_profile < a.profiles@.len() || a.selected_profile == 0
    &&& a.plan_selection < a.plan@.len() || a.plan_selection == 0
    &&& a.local_selection < a.local_entries@.len() || a.local_selection == 0
    &&& a.remote_selection < a.remote_entries@.len() || a.remote_selection == 0
}

/// Every action keeps every selection inside its list.
pub proof fn law_update_keeps_selections_in_range(a: App, action: Action, b: App)
    requires
        selections_in_range(a),
        review::update_in_range(a, action),
        review::update_post(a, action, b),
    ensures
        selections_in_range(b),
{
    if action != Action::Quit {
        match a.screen {
            Screen::Connections => {
                assert(selections_in_range(b));
            },
            Screen::ProfileEditor => {
                if let Some(e) = a.profile_editor {
                    if action == Action::Activate && catalog::profile_editor_error(e, a.profiles@) is None {
                        if let Some(id) = e.profile_id {
                            if catalog::first_with_id(a.profiles@, id@) is Some {
                                catalog::lemma_first_with_id(a.profiles@, id@);
                            }
                        }
                    }
                }
                assert(selections_in_range(b));
            },
            Screen::Workspace => {
                assert(selections_in_range(b));
            },
            Screen::Rename => {
                assert(selections_in_range(b));
            },
            Screen::Review => {
                assert(selections_in_range(b));
            },
        }
    }
}

/// The identity a new profile numbered `k` receives.
pub open spec fn custom_id(k: nat) -> Seq<char> {
    "custom-"@ + text::decimal(k)
}

/// No profile carries an identity that a later new profile would receive.
pub open spec fn ids_fresh(a: App) -> bool {
    forall|i: int, k: nat|
        #![trigger a.profiles@[i], custom_id(k)]
        0 <= i < a.profiles@.len() && k >= a.next_profile_id ==> a.profiles@[i].id@ != custom_id(k)
}

/// The catalog's labels are unique up to ASCII case, its identities are distinct, not
/// empty, and not among those that new profiles will receive.
pub open spec fn catalog_well_formed(a: App) -> bool {
    &&& labels_unique(a.profiles@)
    &&& ids_unique(a.profiles@)
    &&& ids_nonempty(a.profiles@)
    &&& ids_fresh(a)
}

proof fn lemma_custom_id_injective(k1: nat, k2: nat)
    requires
        custom_id(k1) == custom_id(k2),
    ensures
        k1 == k2,
{
    reveal_strlit("custom-");
    assert(custom_id(k1).skip(7) =~= text::decimal(k1));
    assert(custom_id(k2).skip(7) =~= text::decimal(k2));
    text::lemma_decimal_injective(k1, k2);
}

proof fn lemma_remove_keeps_catalog(a: App, b: App, sel: int)
    requires
        catalog_well_formed(a),
        0 <= sel < a.profiles@.len(),
        b.profiles@ == a.profiles@.remove(sel),
        b.next_profile_id == a.next_profile_id,
    ensures
        catalog_well_formed(b),
{
    let p = a.profiles@;
    let r = b.profiles@;
    assert forall|i: int| 0 <= i < r.len() implies r[i] == p[if i < sel { i } else { i + 1 }] by {}
    assert forall|i: int, j: int| 0 <= i < j < r.len() implies text::lower_seq(#[trigger] r[i].label@)
        != text::lower_seq(#[trigger] r[j].label@) && r[i].id@ != r[j].id@ by {
        let ii = if i < sel { i } else { i + 1 };
        let jj = if j < sel { j } else { j + 1 };
        assert(r[i] == p[ii] && r[j] == p[jj] && ii < jj);
    }
    assert forall|i: int| 0 <= i < r.len() implies (#[trigger] r[i]).id@.len() > 0 by {
        let ii = if i < sel { i } else { i + 1 };
        assert(r[i] == p[ii]);
    }
    assert forall|i: int, k: nat| 0 <= i < r.len() && k >= b.next_profile_id implies #[trigger] r[i].id@
        != #[trigger] custom_id(k) by {
        let ii = if i < sel { i } else { i + 1 };
        assert(r[i] == p[ii]);
        assert(a.profiles@[ii].id@ != custom_id(k));
    }
}

proof fn lemma_edit_keeps_ids(a: App, b: App, k: int)
    requires
        catalog_well_formed(a),
        0 <= k < a.profiles@.len(),
        b.profiles@ == a.profiles@.update(k, b.profiles@[k]),
        b.profiles@[k].id@ == a.profiles@[k].id@,
        b.next_profile_id == a.next_profile_id,
    ensures
        ids_unique(b.profiles@),
        ids_nonempty(b.profiles@),
        ids_fresh(b),
{
    let p = a.profiles@;
    let q = b.profiles@;
    assert forall|i: int| 0 <= i < q.len() implies q[i].id@ == p[i].id@ by {
        if i != k {
            assert(q[i] == p[i]);
        }
    }
    assert forall|i: int, j: int| 0 <= i < j < q.len() implies (#[trigger] q[i]).id@ != (#[trigger] q[j]).id@ by {
        assert(q[i].id@ == p[i].id@ && q[j].id@ == p[j].id@);
    }
    assert forall|i: int| 0 <= i < q.len() implies (#[trigger] q[i]).id@.len() > 0 by {
        assert(q[i].id@ == p[i].id@);
    }
    assert forall|i: int, n: nat| 0 <= i < q.len() && n >= b.next_profile_id implies #[trigger] q[i].id@
        != #[trigger] custom_id(n) by {
        assert(q[i].id@ == p[i].id@);
        assert(a.profiles@[i].id@ != custom_id(n));
    }
}

proof fn lemma_add_keeps_ids(a: App, b: App)
    requires
        catalog_well_formed(a),
        b.profiles@ == a.profiles@.push(b.profiles@[a.profiles@.len() as int]),
        b.profiles@[a.profiles@.len() as int].id@ == custom_id(a.next_profile_id as nat),
        b.next_profile_id == a.next_profile_id + 1,
    ensures
        ids_unique(b.profiles@),
        ids_nonempty(b.profiles@),
        ids_fresh(b),
{
    let p = a.profiles@;
    let q = b.profiles@;
    let n = p.len() as int;
    let fresh = custom_id(a.next_profile_id as nat);
    reveal_strlit("custom-");
    assert forall|i: int| 0 <= i < q.len() implies (#[trigger] q[i]).id@.len() > 0 by {
        if i < n {
            assert(q[i] == p[i]);
        }
    }
    assert forall|i: int, j: int| 0 <= i < j < q.len() implies (#[trigger] q[i]).id@ != (#[trigger] q[j]).id@ by {
        assert(q[i] == p[i]);
        if j < n {
            assert(q[j] == p[j]);
        } else {
            assert(a.profiles@[i].id@ != custom_id(a.next_profile_id as nat));
        }
    }
    assert forall|i: int, m: nat| 0 <= i < q.len() && m >= b.next_profile_id implies #[trigger] q[i].id@
        != #[trigger] custom_id(m) by {
        if i < n {
            assert(q[i] == p[i]);
            assert(a.profiles@[i].id@ != custom_id(m));
        } else if fresh == custom_id(m) {
            lemma_custom_id_injective(a.next_profile_id as nat, m);
        }
    }
}

#[verifier::rlimit(60)]
proof fn lemma_save_keeps_catalog(a: App, e: ProfileEditor, b: App)
    requires
        catalog_well_formed(a),
        editor::save_post(a, e, b),
        e.profile_id is None && catalog::profile_editor_error(e, a.profiles@) is None ==> a.next_profile_id
            < u64::MAX,
    ensures
        catalog_well_formed(b),
{
    lemma_save_keeps_labels_unique(a, e, b);
    if catalog::profile_editor_error(e, a.profiles@) is None {
        match e.profile_id {
            Some(id) => {
                if let Some(k) = catalog::first_with_id(a.profiles@, id@) {
                    catalog::lemma_first_with_id(a.profiles@, id@);
                    lemma_edit_keeps_ids(a, b, k);
                }
            },
            None => {
                lemma_add_keeps_ids(a, b);
            },
        }
    }
}

/// Every action keeps the catalog well formed: labels unique up to ASCII case, identities
/// distinct and not empty, and none taken from the numbers that new profiles will use.
pub proof fn law_update_keeps_catalog_well_formed(a: App, action: Action, b: App)
    requires
        catalog_well_formed(a),
        review::update_in_range(a, action),
        review::update_post(a, action, b),
    ensures
        catalog_well_formed(b),
{
    if action != Action::Quit {
        match a.screen {
            Screen::Connections => {
                if action == Action::DeleteProfile {
                    let sel = a.selected_profile as int;
                    if sel < a.profiles@.len() && !a.profiles@[sel].spec_is_open_ssh()
                        && catalog::reference_count(a.plan@, a.profiles@[sel].id@) == 0 {
                        lemma_remove_keeps_catalog(a, b, sel);
                    }
                }
            },
            Screen::ProfileEditor => {
                if let Some(e) = a.profile_editor {
                    if action == Action::Activate {
                        lemma_save_keeps_catalog(a, e, b);
                    }
                }
            },
            _ => {},
        }
    }
}

/// What every action keeps of the application: each selection inside its list, labels
/// unique up to ASCII case, and no empty identity.
pub open spec fn app_invariant(a: App) -> bool {
    &&& selections_in_range(a)
    &&& labels_unique(a.profiles@)
    &&& ids_nonempty(a.profiles@)
}

proof fn lemma_remove_keeps_labels_and_ids(p: Seq<ConnectionProfile>, sel: int)
    requires
        labels_unique(p),
        ids_nonempty(p),
        0 <= sel < p.len(),
    ensures
        labels_unique(p.remove(sel)),
        ids_nonempty(p.remove(sel)),
{
    let r = p.remove(sel);
    assert forall|i: int| 0 <= i < r.len() implies r[i] == p[if i < sel { i } else { i + 1 }] by {}
    assert forall|i: int, j: int| 0 <= i < j < r.len() implies text::lower_seq(#[trigger] r[i].label@)
        != text::lower_seq(#[trigger] r[j].label@) by {
        let ii = if i < sel { i } else { i + 1 };
        let jj = if j < sel { j } else { j + 1 };
        assert(r[i] == p[ii] && r[j] == p[jj] && ii < jj);
    }
    assert forall|i: int| 0 <= i < r.len() implies (#[trigger] r[i]).id@.len() > 0 by {
        let ii = if i < sel { i } else { i + 1 };
        assert(r[i] == p[ii]);
    }
}

proof fn lemma_save_keeps_ids_nonempty(a: App, e: ProfileEditor, b: App)
    requires
        editor::save_post(a, e, b),
        ids_nonempty(a.profiles@),
    ensures
        ids_nonempty(b.profiles@),
{
    let p = a.profiles@;
    let q = b.profiles@;
    if catalog::profile_editor_error(e, p) is None {
        match e.profile_id {
            Some(id) => {
                if let Some(k) = catalog::first_with_id(p, id@) {
                    catalog::lemma_first_with_id(p, id@);
                    assert forall|i: int| 0 <= i < q.len() implies (#[trigger] q[i]).id@.len() > 0 by {
                        if i != k {
                            assert(q[i] == p[i]);
                        } else {
                            assert(q[k].id@ == p[k].id@);
                        }
                    }
                }
            },
            None => {
                let n = p.len() as int;
                reveal_strlit("custom-");
                assert forall|i: int| 0 <= i < q.len() implies (#[trigger] q[i]).id@.len() > 0 by {
                    if i < n {
                        assert(q[i] == p[i]);
                    }
                }
            },
        }
    }
}

/// Every action keeps each selection inside its list, the labels unique up to ASCII case
/// and every identity non-empty, as long as the identities are distinct.
pub proof fn law_update_keeps_app_invariant(a: App, action: Action, b: App)
    requires
        app_invariant(a),
        ids_unique(a.profiles@),
        review::update_in_range(a, action),
        review::update_post(a, action, b),
    ensures
        app_invariant(b),
{
    law_update_keeps_selections_in_range(a, action, b);
    if action != Action::Quit {
        match a.screen {
            Screen::Connections => {
                if action == Action::DeleteProfile {
                    let sel = a.selected_profile as int;
                    if sel < a.profiles@.len() && !a.profiles@[sel].spec_is_open_ssh()
                        && catalog::reference_count(a.plan@, a.profiles@[sel].id@) == 0 {
                        lemma_remove_keeps_labels_and_ids(a.profiles@, sel);
                    }
                }
            },
            Screen::ProfileEditor => {
                if let Some(e) = a.profile_editor {
                    if action == Action::Activate {
                        lemma_save_keeps_labels_unique(a, e, b);
                        lemma_save_keeps_ids_nonempty(a, e, b);
                    }
                }
            },
            _ => {},
        }
    }
}

proof fn lemma_referenced_profile_is_counted(plan: Seq<TransferPlanItem>, id: Seq<char>, i: int)
    requires
        0 <= i < plan.len(),
        catalog::references_profile(plan[i], id),
    ensures
        catalog::reference_count(plan, id) > 0,
    decreases plan.len(),
{
    if i < plan.len() - 1 {
        assert(plan.drop_last()[i] == plan[i]);
        lemma_referenced_profile_is_counted(plan.drop_last(), id, i);
    }
}

/// Deleting never removes a profile that a Waybill item names as the profile of its source
/// or of its destination: then the catalog stays as it was.
pub proof fn law_delete_spares_referenced_profiles(a: App, b: App, i: int)
    requires
        a.screen == Screen::Connections,
        review::update_post(a, Action::DeleteProfile, b),
        0 <= i < a.plan@.len(),
        a.selected_profile < a.profiles@.len(),
        text::opt_view(a.plan@[i].source.profile_id) == Some(a.profiles@[a.selected_profile as int].id@)
            || text::opt_view(a.plan@[i].destination.profile_id) == Some(
            a.profiles@[a.selected_profile as int].id@,
        ),
    ensures
        b.profiles == a.profiles,
{
    let id = a.profiles@[a.selected_profile as int].id@;
    lemma_referenced_profile_is_counted(a.plan@, id, i);
}

} // verus!
