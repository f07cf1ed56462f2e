//! The texts the screens show: titles, Waybill and review rows, and the review's
//! boundary, each built from the application state.
use vstd::prelude::*;

use crate::app::{state, App, ExecutionMode, ProfileEditor};
use crate::domain::{ConnectionProfile, TransferPlanItem, TransferState};
use crate::text;
use crate::text::{concat2, concat3, decimal_string, owned, push_char};

verus! {

broadcast use vstd::string::group_string_axioms;

/// `s` padded with spaces on the right to at least `width` characters (`{:<width}`).
pub open spec fn padded(s: Seq<char>, width: nat) -> Seq<char> {
    if s.len() >= width {
        s
    } else {
        s + Seq::new((width - s.len()) as nat, |i: int| ' ')
    }
}

pub fn pad_right(s: &str, width: usize) -> (r: String)
    ensures
        r@ == padded(s@, width as nat),
{
    let mut r = owned(s);
    let n = text::chars_of(s).len();
    let mut k = n;
    while k < width
        invariant
            n == s@.len(),
            n <= k <= width || (k == n && n >= width),
            r@ == s@ + Seq::new((k - n) as nat, |i: int| ' '),
        decreases width - k,
    {
        push_char(&mut r, ' ');
        k = k + 1;
        assert(r@ =~= s@ + Seq::new((k - n) as nat, |i: int| ' '));
    }
    assert(s@ + Seq::new(0, |i: int| ' ') =~= s@);
    r
}

/// A catalog row: the label in twelve columns, the protocol in five, then the short
/// authentication label.
pub open spec fn spec_profile_row(profile: ConnectionProfile) -> Seq<char> {
    padded(profile.label@, 12) + " "@ + padded(profile.protocol.spec_display(), 5) + " "@
        + profile.authentication.spec_short_label()
}

pub fn profile_row(profile: &ConnectionProfile) -> (r: String)
    ensures
        r@ == spec_profile_row(*profile),
{
    let mut r = pad_right(profile.label.as_str(), 12);
    r.append(" ");
    let protocol = pad_right(profile.protocol.display(), 5);
    r.append(protocol.as_str());
    r.append(" ");
    let authentication = profile.authentication.short_label();
    r.append(authentication.as_str());
    r
}

/// `#id arrow source`, the first row of a plan item.
pub open spec fn spec_item_heading(item: TransferPlanItem) -> Seq<char> {
    "#"@ + text::decimal(item.id as nat) + " "@ + item.direction.spec_symbol() + " "@
        + item.source.spec_display()
}

pub fn item_heading(item: &TransferPlanItem) -> (r: String)
    ensures
        r@ == spec_item_heading(*item),
{
    let id = decimal_string(item.id);
    let mut r = concat3("#", id.as_str(), " ");
    r.append(item.direction.symbol());
    r.append(" ");
    let source = item.source.display();
    r.append(source.as_str());
    r
}

/// The start of the second row of a plan item: the arrow and the destination.
pub open spec fn spec_destination_prefix(item: TransferPlanItem) -> Seq<char> {
    "   → "@ + item.destination.spec_display() + "  "@
}

pub fn destination_prefix(item: &TransferPlanItem) -> (r: String)
    ensures
        r@ == spec_destination_prefix(*item),
{
    let destination = item.destination.display();
    concat3("   → ", destination.as_str(), "  ")
}

/// `[policy] [destination state] [state]`, the tags of a plan item.
pub open spec fn spec_item_tags(item: TransferPlanItem) -> Seq<char> {
    "["@ + item.conflict_policy.spec_display() + "] ["@
        + item.destination_expectation.spec_short_label() + "] ["@ + item.state.spec_display()
        + "]"@
}

pub fn item_tags(item: &TransferPlanItem) -> (r: String)
    ensures
        r@ == spec_item_tags(*item),
{
    let mut r = concat3("[", item.conflict_policy.display(), "] [");
    r.append(item.destination_expectation.short_label());
    r.append("] [");
    r.append(item.state.display());
    r.append("]");
    r
}

/// Some item of the plan is still staged.
pub open spec fn any_staged(plan: Seq<TransferPlanItem>) -> bool {
    exists|i: int| 0 <= i < plan.len() && (#[trigger] plan[i]).state == TransferState::Staged
}

pub fn has_staged(plan: &Vec<TransferPlanItem>) -> (r: bool)
    ensures
        r == any_staged(plan@),
{
    let mut i: usize = 0;
    while i < plan.len()
        invariant
            i <= plan.len(),
            forall|j: int| 0 <= j < i ==> (#[trigger] plan@[j]).state != TransferState::Staged,
        decreases plan.len() - i,
    {
        if plan[i].state == TransferState::Staged {
            return true;
        }
        i = i + 1;
    }
    false
}

/// The Waybill's title: its size and whether review leads to actual writes.
pub open spec fn spec_waybill_title(mode: ExecutionMode, items: nat) -> Seq<char> {
    "[WAYBILL] "@ + text::decimal(items) + " item(s) · "@ + match mode {
        ExecutionMode::Fixture => "preview only"@,
        ExecutionMode::Live => "review before write"@,
    }
}

pub fn waybill_title(mode: ExecutionMode, items: usize) -> (r: String)
    ensures
        r@ == spec_waybill_title(mode, items as nat),
{
    let count = decimal_string(items as u64);
    let mut r = concat3("[WAYBILL] ", count.as_str(), " item(s) · ");
    r.append(
        match mode {
            ExecutionMode::Fixture => "preview only",
            ExecutionMode::Live => "review before write",
        },
    );
    r
}

/// The review overlay's title.
pub open spec fn spec_review_title(mode: ExecutionMode) -> Seq<char> {
    match mode {
        ExecutionMode::Fixture => "DRY-RUN TRANSFER REVIEW"@,
        ExecutionMode::Live => "TRANSFER EXECUTION REVIEW"@,
    }
}

pub fn review_title(mode: ExecutionMode) -> (r: &'static str)
    ensures
        r@ == spec_review_title(mode),
{
    match mode {
        ExecutionMode::Fixture => "DRY-RUN TRANSFER REVIEW",
        ExecutionMode::Live => "TRANSFER EXECUTION REVIEW",
    }
}

/// What the review says of its boundary, and the action it offers: a synthetic run
/// never writes; a live run writes actual files only while items are staged.
pub open spec fn spec_review_boundary(mode: ExecutionMode, staged: bool) -> (Seq<char>, Seq<char>) {
    match (mode, staged) {
        (ExecutionMode::Fixture, true) => (
            "Synthetic only: no transport adapter or filesystem mutation."@,
            "Enter Run synthetic execution   Esc Back"@,
        ),
        (ExecutionMode::Fixture, false) => (
            "Synthetic only: no transport adapter or filesystem mutation."@,
            "Synthetic results preserved   Esc Back"@,
        ),
        (ExecutionMode::Live, true) => (
            "Enter executes actual local/SFTP file writes after validation."@,
            "Enter Execute staged files   Esc Back"@,
        ),
        (ExecutionMode::Live, false) => (
            "Actual transfer results are preserved item by item."@,
            "Transfer results preserved   Esc Back"@,
        ),
    }
}

pub fn review_boundary(mode: ExecutionMode, staged: bool) -> (r: (&'static str, &'static str))
    ensures
        (r.0@, r.1@) == spec_review_boundary(mode, staged),
{
    match (mode, staged) {
        (ExecutionMode::Fixture, true) => (
            "Synthetic only: no transport adapter or filesystem mutation.",
            "Enter Run synthetic execution   Esc Back",
        ),
        (ExecutionMode::Fixture, false) => (
            "Synthetic only: no transport adapter or filesystem mutation.",
            "Synthetic results preserved   Esc Back",
        ),
        (ExecutionMode::Live, true) => (
            "Enter executes actual local/SFTP file writes after validation.",
            "Enter Execute staged files   Esc Back",
        ),
        (ExecutionMode::Live, false) => (
            "Actual transfer results are preserved item by item.",
            "Transfer results preserved   Esc Back",
        ),
    }
}

/// The local browser's title.
pub fn local_title(app: &App) -> (r: String)
    ensures
        r@ == "[LOCAL] "@ + app.local_directory@,
{
    concat2("[LOCAL] ", app.local_directory.as_str())
}

/// The remote browser's title: the connected profile's label and the remote directory.
pub open spec fn spec_remote_title(app: App) -> Seq<char> {
    match state::spec_connected_profile(app.profiles@, app.connected_profile_id) {
        Some(profile) => "[REMOTE] "@ + profile.label@ + ":"@ + app.remote_directory@,
        None => "[REMOTE] disconnected"@,
    }
}

pub fn remote_title(app: &App) -> (r: String)
    ensures
        r@ == spec_remote_title(*app),
{
    match app.connected_profile() {
        Some(profile) => {
            let mut r = concat3("[REMOTE] ", profile.label.as_str(), ":");
            r.append(app.remote_directory.as_str());
            r
        },
        None => owned("[REMOTE] disconnected"),
    }
}

/// The profile form's title.
pub fn editor_title(editor: &ProfileEditor) -> (r: &'static str)
    ensures
        r@ == if editor.profile_id is None {
            "xfercat · Add profile"@
        } else {
            "xfercat · Edit profile"@
        },
{
    if editor.is_create() {
        "xfercat · Add profile"
    } else {
        "xfercat · Edit profile"
    }
}

/// The guidance under a selected profile: imported profiles are edited at their source,
/// other profiles are edited apart from selection.
pub fn profile_guidance(profile: &ConnectionProfile) -> (r: &'static str)
    ensures
        r@ == if profile.spec_is_open_ssh() {
            "Imported profiles are read-only; edit source config, then press I."@
        } else {
            "Edits and deletes remain separate from profile selection."@
        },
{
    if profile.is_open_ssh() {
        "Imported profiles are read-only; edit source config, then press I."
    } else {
        "Edits and deletes remain separate from profile selection."
    }
}

/// The two lines the catalog shows when it holds no profile.
pub fn empty_catalog_lines() -> (r: (&'static str, &'static str))
    ensures
        r.0@ == "No connection profiles."@,
        r.1@ == "Press I to refresh or A to add manually."@,
{
    ("No connection profiles.", "Press I to refresh or A to add manually.")
}

/// The two lines the profile pane shows when no profile is selected.
pub fn no_profile_lines() -> (r: (&'static str, &'static str))
    ensures
        r.0@ == "OpenSSH aliases are discovered without connecting."@,
        r.1@ == "Manual profiles remain process-local fallback entries."@,
{
    ("OpenSSH aliases are discovered without connecting.", "Manual profiles remain process-local fallback entries.")
}

} // verus!
