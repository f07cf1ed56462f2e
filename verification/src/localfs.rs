//! The local browser listing: its status line and the order of its entries.
use vstd::prelude::*;

use crate::domain::{BrowserEntry, EntryKind};
use crate::fspath;
use crate::fspath::std_path_join;
use crate::order;
use crate::order::{sort_listing, ListingOrder};
use crate::text;
use crate::text::{any_control, chars_lt, chars_of, decimal_string, lower_chars, chars_equal};
use crate::transfer::ObservedKind;

verus! {

broadcast use vstd::string::group_string_axioms;

/// A directory read from the local filesystem.
#[derive(Debug, PartialEq, Eq)]
pub struct LocalDirectory {
    pub path: String,
    pub entries: Vec<BrowserEntry>,
    pub skipped_entries: usize,
}

/// The status line after loading a listing of `entries` entries with `skipped` omissions.
pub open spec fn listing_status(side: Seq<char>, entries: nat, skipped: nat) -> Seq<char> {
    if skipped == 0 {
        side + " directory loaded: "@ + text::decimal(entries) + " item(s)."@
    } else {
        side + " directory loaded: "@ + text::decimal(entries) + " item(s); "@ + text::decimal(skipped)
            + " unsafe or unreadable entry(s) skipped."@
    }
}

/// Builds the status line described by `listing_status`.
pub fn listing_status_text(side: &str, entries: usize, skipped: usize) -> (r: String)
    ensures
        r@ == listing_status(side@, entries as nat, skipped as nat),
{
    let mut s = side.to_owned();
    s.append(" directory loaded: ");
    let count = decimal_string(entries as u64);
    s.append(count.as_str());
    if skipped == 0 {
        s.append(" item(s).");
    } else {
        s.append(" item(s); ");
        let omitted = decimal_string(skipped as u64);
        s.append(omitted.as_str());
        s.append(" unsafe or unreadable entry(s) skipped.");
    }
    s
}

impl LocalDirectory {
    /// The status line for this listing.
    pub fn status(&self) -> (r: String)
        ensures
            r@ == listing_status("Local"@, self.entries@.len(), self.skipped_entries as nat),
    {
        listing_status_text("Local", self.entries.len(), self.skipped_entries)
    }
}

/// Directories come before files; within a kind, names are ordered case-insensitively,
/// and names that differ only in case by their exact characters.
pub open spec fn entry_precedes(left: BrowserEntry, right: BrowserEntry) -> bool {
    ||| left.kind == EntryKind::Directory && right.kind == EntryKind::File
    ||| left.kind == right.kind && (text::seq_lt(text::lower_seq(left.name@), text::lower_seq(right.name@)) || (
    text::lower_seq(left.name@) == text::lower_seq(right.name@) && text::seq_lt(left.name@, right.name@)))
}

impl ListingOrder for BrowserEntry {
    open spec fn spec_precedes(self, other: Self) -> bool {
        entry_precedes(self, other)
    }

    fn precedes(&self, other: &Self) -> (r: bool) {
        match (self.kind, other.kind) {
            (EntryKind::Directory, EntryKind::File) => true,
            (EntryKind::File, EntryKind::Directory) => false,
            _ => {
                let left_name = chars_of(self.name.as_str());
                let right_name = chars_of(other.name.as_str());
                let left = lower_chars(&left_name);
                let right = lower_chars(&right_name);
                if chars_lt(&left, &right) {
                    true
                } else if chars_equal(&left, &right) {
                    chars_lt(&left_name, &right_name)
                } else {
                    false
                }
            }
        }
    }

    proof fn lemma_irreflexive(a: Self) {
        text::lemma_seq_lt_irreflexive(text::lower_seq(a.name@));
        text::lemma_seq_lt_irreflexive(a.name@);
    }

    proof fn lemma_asymmetric(a: Self, b: Self) {
        text::lemma_seq_lt_asymmetric(text::lower_seq(a.name@), text::lower_seq(b.name@));
        text::lemma_seq_lt_asymmetric(a.name@, b.name@);
        text::lemma_seq_lt_irreflexive(text::lower_seq(a.name@));
    }

    proof fn lemma_not_precedes_transitive(a: Self, b: Self, c: Self) {
        let (la, lb, lc) = (text::lower_seq(a.name@), text::lower_seq(b.name@), text::lower_seq(c.name@));
        let (na, nb, nc) = (a.name@, b.name@, c.name@);
        text::lemma_seq_lt_total(la, lb);
        text::lemma_seq_lt_total(lb, lc);
        text::lemma_seq_lt_total(la, lc);
        text::lemma_seq_lt_total(na, nb);
        text::lemma_seq_lt_total(nb, nc);
        text::lemma_seq_lt_total(na, nc);
        text::lemma_seq_lt_irreflexive(la);
        text::lemma_seq_lt_irreflexive(lb);
        text::lemma_seq_lt_irreflexive(na);
        text::lemma_seq_lt_irreflexive(nb);
        if text::seq_lt(la, lb) && text::seq_lt(lb, lc) { text::lemma_seq_lt_transitive(la, lb, lc); }
        if text::seq_lt(lc, lb) && text::seq_lt(lb, la) { text::lemma_seq_lt_transitive(lc, lb, la); }
        if text::seq_lt(lc, la) && text::seq_lt(la, lb) { text::lemma_seq_lt_transitive(lc, la, lb); }
        if text::seq_lt(lb, lc) && text::seq_lt(lc, la) { text::lemma_seq_lt_transitive(lb, lc, la); }
        if text::seq_lt(la, lc) && text::seq_lt(lc, lb) { text::lemma_seq_lt_transitive(la, lc, lb); }
        if text::seq_lt(lb, la) && text::seq_lt(la, lc) { text::lemma_seq_lt_transitive(lb, la, lc); }
        if text::seq_lt(na, nb) && text::seq_lt(nb, nc) { text::lemma_seq_lt_transitive(na, nb, nc); }
        if text::seq_lt(nc, nb) && text::seq_lt(nb, na) { text::lemma_seq_lt_transitive(nc, nb, na); }
        if text::seq_lt(nc, na) && text::seq_lt(na, nb) { text::lemma_seq_lt_transitive(nc, na, nb); }
        if text::seq_lt(nb, nc) && text::seq_lt(nc, na) { text::lemma_seq_lt_transitive(nb, nc, na); }
        if text::seq_lt(na, nc) && text::seq_lt(nc, nb) { text::lemma_seq_lt_transitive(na, nc, nb); }
        if text::seq_lt(nb, na) && text::seq_lt(na, nc) { text::lemma_seq_lt_transitive(nb, na, nc); }
    }
}

/// Orders browser entries as listings show them; the result holds exactly the given entries,
/// and entries that tie keep their order.
pub fn sort_entries(entries: Vec<BrowserEntry>) -> (sorted: Vec<BrowserEntry>)
    ensures
        order::is_listing_sorted(sorted@),
        sorted@.to_multiset() == entries@.to_multiset(),
        order::keeps_tie_order(entries@, sorted@),
{
    sort_listing(entries)
}

/// What reading one local directory entry found: its kind (none when its type could not
/// be read or it is a symbolic link), its name when it is UTF-8, and, for a file, its
/// length when its metadata could be read.
#[derive(Debug)]
pub struct LocalCandidate {
    pub kind: Option<ObservedKind>,
    pub name: Option<String>,
    pub size: Option<u64>,
}

/// A local entry is listed when it is a directory or a file of known length with a UTF-8
/// name free of control characters; symbolic links are never followed.
pub open spec fn local_kept(c: LocalCandidate) -> bool {
    &&& c.kind matches Some(k) && (k == ObservedKind::Directory || (k == ObservedKind::File && c.size is Some))
    &&& c.name matches Some(n) && !text::has_control(n@)
}

/// The listed entry for a kept candidate of `directory`: its path is the directory joined
/// with its name, as `Path::join` gives it.
pub open spec fn local_entry_for(directory: Seq<char>, c: LocalCandidate, e: BrowserEntry) -> bool {
    &&& e.name@ == c.name->0@
    &&& e.path@ == fspath::path_join(directory, c.name->0@)
    &&& e.kind == if c.kind->0 == ObservedKind::Directory {
        EntryKind::Directory
    } else {
        EntryKind::File
    }
    &&& e.size == if c.kind->0 == ObservedKind::File {
        c.size
    } else {
        None
    }
}

/// `kept` holds the listed entries of `candidates`, in order.
pub open spec fn local_listed(directory: Seq<char>, candidates: Seq<LocalCandidate>, kept: Seq<BrowserEntry>) -> bool
    decreases candidates.len(),
{
    if candidates.len() == 0 {
        kept.len() == 0
    } else if local_kept(candidates.last()) {
        kept.len() > 0 && local_entry_for(directory, candidates.last(), kept.last()) && local_listed(
            directory,
            candidates.drop_last(),
            kept.drop_last(),
        )
    } else {
        local_listed(directory, candidates.drop_last(), kept)
    }
}

/// The entries skipped as unsafe or unreadable.
pub open spec fn local_skipped(candidates: Seq<LocalCandidate>) -> nat
    decreases candidates.len(),
{
    if candidates.len() == 0 {
        0
    } else {
        local_skipped(candidates.drop_last()) + if local_kept(candidates.last()) {
            0nat
        } else {
            1nat
        }
    }
}

/// Lists the entries read from the local directory `path`, each at `path` joined with its
/// name, ordered as browsers show them;
/// every other entry is counted as skipped.
pub fn local_listing(path: String, candidates: &Vec<LocalCandidate>) -> (r: LocalDirectory)
    ensures
        r.path == path,
        r.skipped_entries == local_skipped(candidates@),
        order::is_listing_sorted(r.entries@),
        exists|kept: Seq<BrowserEntry>|
            local_listed(path@, candidates@, kept) && r.entries@.to_multiset() == kept.to_multiset()
                && order::keeps_tie_order(kept, r.entries@),
{
    let mut kept: Vec<BrowserEntry> = Vec::new();
    let mut skipped: usize = 0;
    let mut i: usize = 0;
    while i < candidates.len()
        invariant
            i <= candidates.len(),
            skipped == local_skipped(candidates@.take(i as int)),
            skipped <= i,
            local_listed(path@, candidates@.take(i as int), kept@),
        decreases candidates.len() - i,
    {
        let c = &candidates[i];
        proof {
            assert(candidates@.take(i + 1).drop_last() =~= candidates@.take(i as int));
            assert(candidates@.take(i + 1).last() == *c);
        }
        let kind = match c.kind {
            Some(ObservedKind::Directory) => Some(EntryKind::Directory),
            Some(ObservedKind::File) => Some(EntryKind::File),
            _ => None,
        };
        let size = match kind {
            Some(EntryKind::File) => c.size,
            _ => None,
        };
        let readable = match kind {
            Some(EntryKind::File) => size.is_some(),
            Some(EntryKind::Directory) => true,
            None => false,
        };
        let entry = match &c.name {
            Some(name) => {
                if readable && !any_control(&chars_of(name.as_str())) {
                    match kind {
                        Some(kind) => Some(
                            BrowserEntry { name: name.clone(), path: std_path_join(path.as_str(), name.as_str()), kind, size },
                        ),
                        None => None,
                    }
                } else {
                    None
                }
            },
            None => None,
        };
        match entry {
            Some(entry) => {
                let ghost before = kept@;
                kept.push(entry);
                assert(kept@.drop_last() =~= before);
            },
            None => {
                skipped = skipped + 1;
            },
        }
        i = i + 1;
    }
    assert(candidates@.take(candidates.len() as int) =~= candidates@);
    let ghost listed = kept@;
    assert(local_listed(path@, candidates@, listed));
    let entries = sort_entries(kept);
    assert(local_listed(path@, candidates@, listed) && entries@.to_multiset() == listed.to_multiset()
        && order::keeps_tie_order(listed, entries@));
    let r = LocalDirectory { path, entries, skipped_entries: skipped };
    assert(local_listed(r.path@, candidates@, listed) && r.entries@.to_multiset() == listed.to_multiset()
        && order::keeps_tie_order(listed, r.entries@));
    r
}

} // verus!
