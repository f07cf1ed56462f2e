//! Replacing the imported OpenSSH profiles of the catalog.
use vstd::prelude::*;

use crate::domain::ConnectionProfile;
use crate::order;
use crate::order::{ListingOrder, sort_listing};
use crate::text;
use crate::text::{chars_lt, chars_of, decimal_string, eq_ignore_ascii_case, lower_chars, owned};
use super::catalog;
use super::catalog::position_of_id;
use super::state::App;

verus! {



/// Profiles are ordered by their ASCII-lowercase labels.
pub open spec fn profile_precedes(left: ConnectionProfile, right: ConnectionProfile) -> bool {
    text::seq_lt(text::lower_seq(left.label@), text::lower_seq(right.label@))
}

impl ListingOrder for ConnectionProfile {
    open spec fn spec_precedes(self, other: Self) -> bool {
        profile_precedes(self, other)
    }

    fn precedes(&self, other: &Self) -> (r: bool) {
        let left = lower_chars(&chars_of(self.label.as_str()));
        let right = lower_chars(&chars_of(other.label.as_str()));
        chars_lt(&left, &right)
    }

    proof fn lemma_irreflexive(a: Self) {
        text::lemma_seq_lt_irreflexive(text::lower_seq(a.label@));
    }

    proof fn lemma_asymmetric(a: Self, b: Self) {
        text::lemma_seq_lt_asymmetric(text::lower_seq(a.label@), text::lower_seq(b.label@));
    }

    proof fn lemma_not_precedes_transitive(a: Self, b: Self, c: Self) {
        let (x, y, z) = (text::lower_seq(a.label@), text::lower_seq(b.label@), text::lower_seq(c.label@));
        text::lemma_seq_lt_total(x, y);
        text::lemma_seq_lt_total(y, z);
        if text::seq_lt(z, x) {
            if text::seq_lt(y, x) {
            } else if x == y {
            } else {
                assert(text::seq_lt(x, y));
                text::lemma_seq_lt_transitive(z, x, y);
                if y == z {
                    text::lemma_seq_lt_irreflexive(y);
                } else if text::seq_lt(y, z) {
                    text::lemma_seq_lt_asymmetric(y, z);
                }
            }
        }
    }
}

/// The catalog without its imported profiles.
pub open spec fn without_imports(s: Seq<ConnectionProfile>) -> Seq<ConnectionProfile>
    decreases s.len(),
{
    if s.len() == 0 {
        s
    } else if s.last().spec_is_open_ssh() {
        without_imports(s.drop_last())
    } else {
        without_imports(s.drop_last()).push(s.last())
    }
}

/// Some profile of `s` has `label`, ignoring ASCII case.
pub open spec fn has_label(s: Seq<ConnectionProfile>, label: Seq<char>) -> bool {
    exists|i: int| 0 <= i < s.len() && text::lower_seq((#[trigger] s[i]).label@) == text::lower_seq(label)
}

/// Adds the imported profiles of `imported`, in order, to `base`; an import whose label is
/// already present (ignoring ASCII case) is counted as a conflict instead.
pub open spec fn merge_imports(base: Seq<ConnectionProfile>, imported: Seq<ConnectionProfile>) -> (
    Seq<ConnectionProfile>,
    nat,
)
    decreases imported.len(),
{
    if imported.len() == 0 {
        (base, 0)
    } else {
        let (merged, conflicts) = merge_imports(base, imported.drop_last());
        let p = imported.last();
        if !p.spec_is_open_ssh() {
            (merged, conflicts)
        } else if has_label(merged, p.label@) {
            (merged, conflicts + 1)
        } else {
            (merged.push(p), conflicts)
        }
    }
}

proof fn lemma_merge_conflicts_bound(base: Seq<ConnectionProfile>, imported: Seq<ConnectionProfile>)
    ensures
        merge_imports(base, imported).1 <= imported.len(),
    decreases imported.len(),
{
    if imported.len() > 0 {
        lemma_merge_conflicts_bound(base, imported.drop_last());
    }
}

/// The status after a refresh that met `conflicts` label conflicts.
pub open spec fn refresh_status(status: Seq<char>, conflicts: nat) -> Seq<char> {
    if conflicts > 0 {
        status + " "@ + text::decimal(conflicts) + " imported alias(es) conflict with manual profiles."@
    } else {
        status
    }
}

/// The row that shows the profile with identity `selected_id` after the catalog became
/// `profiles`; the first row when there is none.
#[verifier::opaque]
pub open spec fn selection_after(profiles: Seq<ConnectionProfile>, selected_id: Option<Seq<char>>) -> usize {
    match selected_id {
        Some(id) => match catalog::first_with_id(profiles, id) {
            Some(i) => i as usize,
            None => 0usize,
        },
        None => 0usize,
    }
}

/// The connection kept after the catalog became `profiles`: cleared when its profile left.
#[verifier::opaque]
pub open spec fn connection_after(profiles: Seq<ConnectionProfile>, connected: Option<String>) -> Option<String> {
    match connected {
        Some(id) => if catalog::first_with_id(profiles, id@) is Some {
            connected
        } else {
            None
        },
        None => None,
    }
}

/// Replacing the imported profiles: manual and synthetic profiles stay, imports without a
/// label conflict are added, the catalog is ordered by label, the selection follows the
/// previously selected profile, and a connection to a profile that left is cleared.
pub open spec fn refresh_post(
    a: App,
    imported: Seq<ConnectionProfile>,
    status: Seq<char>,
    b: App,
) -> bool {
    let (merged, conflicts) = merge_imports(without_imports(a.profiles@), imported);
    let selected_id = if a.selected_profile < a.profiles@.len() {
        Some(a.profiles@[a.selected_profile as int].id@)
    } else {
        None
    };
    &&& b == App {
        profiles: b.profiles,
        selected_profile: b.selected_profile,
        connected_profile_id: b.connected_profile_id,
        status: b.status,
        ..a
    }
    &&& order::is_listing_sorted(b.profiles@)
    &&& b.profiles@.to_multiset() == merged.to_multiset()
    &&& order::keeps_tie_order(merged, b.profiles@)
    &&& b.selected_profile == selection_after(b.profiles@, selected_id)
    &&& b.connected_profile_id == connection_after(b.profiles@, a.connected_profile_id)
    &&& b.status@ == refresh_status(status, conflicts)
}

fn catalog_has_label(profiles: &Vec<ConnectionProfile>, label: &str) -> (r: bool)
    ensures
        r == has_label(profiles@, label@),
{
    let mut i: usize = 0;
    while i < profiles.len()
        invariant
            i <= profiles.len(),
            forall|j: int|
                0 <= j < i ==> text::lower_seq((#[trigger] profiles@[j]).label@) != text::lower_seq(label@),
        decreases profiles.len() - i,
    {
        if eq_ignore_ascii_case(profiles[i].label.as_str(), label) {
            assert(text::lower_seq((profiles@[i as int]).label@) == text::lower_seq(label@));
            return true;
        }
        i = i + 1;
    }
    false
}

fn manual_profiles(profiles: &Vec<ConnectionProfile>) -> (kept: Vec<ConnectionProfile>)
    ensures
        kept@ == without_imports(profiles@),
{
    let mut kept: Vec<ConnectionProfile> = Vec::new();
    let mut i: usize = 0;
    while i < profiles.len()
        invariant
            i <= profiles.len(),
            kept@ == without_imports(profiles@.take(i as int)),
        decreases profiles.len() - i,
    {
        assert(profiles@.take(i + 1).drop_last() =~= profiles@.take(i as int));
        if !profiles[i].is_open_ssh() {
            kept.push(profiles[i].clone());
        }
        i = i + 1;
    }
    assert(profiles@.take(profiles@.len() as int) =~= profiles@);
    kept
}

fn merge_imported(base: Vec<ConnectionProfile>, imported: &Vec<ConnectionProfile>) -> (r: (
    Vec<ConnectionProfile>,
    usize,
))
    ensures
        (r.0@, r.1 as nat) == merge_imports(base@, imported@),
{
    let ghost start = base@;
    let mut kept = base;
    let mut conflicts: usize = 0;
    let mut j: usize = 0;
    while j < imported.len()
        invariant
            j <= imported.len(),
            (kept@, conflicts as nat) == merge_imports(start, imported@.take(j as int)),
        decreases imported.len() - j,
    {
        proof {
            assert(imported@.take(j + 1).drop_last() =~= imported@.take(j as int));
            lemma_merge_conflicts_bound(start, imported@.take(j as int));
        }
        let profile = &imported[j];
        if profile.is_open_ssh() {
            if catalog_has_label(&kept, profile.label.as_str()) {
                conflicts = conflicts + 1;
            } else {
                kept.push(profile.clone());
            }
        }
        j = j + 1;
    }
    assert(imported@.take(imported@.len() as int) =~= imported@);
    (kept, conflicts)
}

fn refreshed_status(status: &str, conflicts: usize) -> (r: String)
    ensures
        r@ == refresh_status(status@, conflicts as nat),
{
    let mut text = owned(status);
    if conflicts > 0 {
        text.append(" ");
        let number = decimal_string(conflicts as u64);
        text.append(number.as_str());
        text.append(" imported alias(es) conflict with manual profiles.");
    }
    text
}

fn selected_identity(profiles: &Vec<ConnectionProfile>, selected: usize) -> (r: Option<String>)
    ensures
        text::opt_view(r) == if selected < profiles@.len() {
            Some(profiles@[selected as int].id@)
        } else {
            None
        },
{
    if selected < profiles.len() {
        Some(profiles[selected].id.clone())
    } else {
        None
    }
}

fn selection_in(profiles: &Vec<ConnectionProfile>, selected_id: &Option<String>) -> (r: usize)
    ensures
        r == selection_after(profiles@, text::opt_view(*selected_id)),
{
    reveal(selection_after);
    match selected_id {
        Some(id) => match position_of_id(profiles, id.as_str()) {
            Some(index) => index,
            None => 0,
        },
        None => 0,
    }
}

fn connection_in(profiles: &Vec<ConnectionProfile>, connected: &Option<String>) -> (r: Option<String>)
    ensures
        r == connection_after(profiles@, *connected),
{
    reveal(connection_after);
    match connected {
        Some(id) => match position_of_id(profiles, id.as_str()) {
            Some(_) => Some(id.clone()),
            None => None,
        },
        None => None,
    }
}

impl App {
    /// Replaces the imported OpenSSH profiles with `imported` and sets the status.
    pub fn refresh_open_ssh_profiles(&mut self, imported: Vec<ConnectionProfile>, status: &str)
        ensures
            refresh_post(*old(self), imported@, status@, *final(self)),
    {
        let selected_id = selected_identity(&self.profiles, self.selected_profile);
        let kept = manual_profiles(&self.profiles);
        let (merged, conflicts) = merge_imported(kept, &imported);
        let profiles = sort_listing(merged);
        let selected = selection_in(&profiles, &selected_id);
        let connected = connection_in(&profiles, &self.connected_profile_id);
        let text = refreshed_status(status, conflicts);
        self.profiles = profiles;
        self.selected_profile = selected;
        self.connected_profile_id = connected;
        self.status = text;
    }
}

} // verus!
