//! Profile validation and the lookups over the catalog, the Waybill and listings.
use vstd::prelude::*;

use crate::domain::{Authentication, BrowserEntry, ConnectionProfile, ConnectionProfileSource, DestinationExpectation, Protocol, TransferPlanItem};
use crate::text;
use crate::text::{any_control, any_whitespace, concat2, decimal_string, eq_ignore_ascii_case, str_equal, string_from_chars, trim_chars};
use super::forms::{ProfileAuthentication, ProfileEditor};

verus! {

broadcast use vstd::string::group_string_axioms;

/// The identity a label must not share with another profile: the edited profile's id,
/// or the empty id for a new profile.
pub open spec fn editor_identity(editor: ProfileEditor) -> Seq<char> {
    match editor.profile_id {
        Some(id) => id@,
        None => Seq::<char>::empty(),
    }
}

/// Another profile already carries `label`, ignoring ASCII case.
pub open spec fn label_taken(
    profiles: Seq<ConnectionProfile>,
    identity: Seq<char>,
    label: Seq<char>,
) -> bool {
    exists|i: int|
        0 <= i < profiles.len() && (#[trigger] profiles[i]).id@ != identity && text::lower_seq(
            profiles[i].label@,
        ) == text::lower_seq(label)
}

/// Why the form cannot be saved, or nothing when it can.
pub open spec fn profile_editor_error(
    editor: ProfileEditor,
    profiles: Seq<ConnectionProfile>,
) -> Option<Seq<char>> {
    let label = text::trim_seq(editor.label@);
    let user = text::trim_seq(editor.user@);
    let host = text::trim_seq(editor.host@);
    let key = text::trim_seq(editor.key_reference@);
    if label.len() == 0 {
        Some("Profile label cannot be empty."@)
    } else if text::has_control(label) {
        Some("Profile label cannot contain control characters."@)
    } else if label_taken(profiles, editor_identity(editor), label) {
        Some("Profile label must be unique."@)
    } else if user.len() == 0 {
        Some("User cannot be empty."@)
    } else if text::has_whitespace(user) {
        Some("User cannot contain whitespace."@)
    } else if host.len() == 0 {
        Some("Host cannot be empty."@)
    } else if text::has_whitespace(host) {
        Some("Host cannot contain whitespace."@)
    } else if editor.authentication == ProfileAuthentication::KeyReference && key.len() == 0 {
        Some("Key reference cannot be empty."@)
    } else if editor.authentication == ProfileAuthentication::KeyReference && text::has_whitespace(
        key,
    ) {
        Some("Key reference cannot contain whitespace."@)
    } else {
        None
    }
}

/// The first profile with identity `id`.
pub open spec fn first_with_id(profiles: Seq<ConnectionProfile>, id: Seq<char>) -> Option<int> {
    if exists|i: int| 0 <= i < profiles.len() && (#[trigger] profiles[i]).id@ == id {
        Some(
            choose|i: int|
                0 <= i < profiles.len() && profiles[i].id@ == id && forall|j: int|
                    0 <= j < i ==> (#[trigger] profiles[j]).id@ != id,
        )
    } else {
        None
    }
}

/// The profile the form saves: a stable identity, trimmed fields, and the provenance of
/// the edited profile (manual for a new one).
pub open spec fn is_profile_from_editor(
    profile: ConnectionProfile,
    editor: ProfileEditor,
    profiles: Seq<ConnectionProfile>,
    next_profile_id: u64,
) -> bool {
    &&& match editor.profile_id {
        Some(id) => profile.id == id,
        None => profile.id@ == "custom-"@ + text::decimal(next_profile_id as nat),
    }
    &&& profile.label@ == text::trim_seq(editor.label@)
    &&& profile.user@ == text::trim_seq(editor.user@)
    &&& profile.host@ == text::trim_seq(editor.host@)
    &&& profile.protocol == Protocol::Sftp
    &&& profile.source == match editor.profile_id {
        Some(id) => match first_with_id(profiles, id@) {
            Some(i) => profiles[i].source,
            None => ConnectionProfileSource::Manual,
        },
        None => ConnectionProfileSource::Manual,
    }
    &&& match editor.authentication {
        ProfileAuthentication::SshAgent => profile.authentication == Authentication::SshAgent,
        ProfileAuthentication::KeyReference => match profile.authentication {
            Authentication::KeyReference(reference) => reference@ == text::trim_seq(
                editor.key_reference@,
            ),
            _ => false,
        },
    }
}

/// When some profile has identity `id`, a first one does.
pub proof fn lemma_first_with_id(profiles: Seq<ConnectionProfile>, id: Seq<char>)
    requires
        exists|i: int| 0 <= i < profiles.len() && (#[trigger] profiles[i]).id@ == id,
    ensures
        first_with_id(profiles, id) matches Some(k) && 0 <= k < profiles.len() && profiles[k].id@ == id
            && forall|j: int| 0 <= j < k ==> (#[trigger] profiles[j]).id@ != id,
    decreases profiles.len(),
{
    let s = profiles.drop_last();
    if exists|i: int| 0 <= i < s.len() && (#[trigger] s[i]).id@ == id {
        lemma_first_with_id(s, id);
        let k = first_with_id(s, id)->0;
        assert(profiles[k] == s[k]);
        assert forall|j: int| 0 <= j < k implies (#[trigger] profiles[j]).id@ != id by {
            assert(profiles[j] == s[j]);
        }
    } else {
        let n = profiles.len() - 1;
        let w = choose|i: int| 0 <= i < profiles.len() && (#[trigger] profiles[i]).id@ == id;
        if w < n {
            assert(s[w] == profiles[w]);
        }
        assert forall|j: int| 0 <= j < n implies (#[trigger] profiles[j]).id@ != id by {
            assert(s[j] == profiles[j]);
        }
        assert(profiles[n].id@ == id);
    }
}

/// Finds the first profile with identity `id`.
pub fn position_of_id(profiles: &Vec<ConnectionProfile>, id: &str) -> (r: Option<usize>)
    ensures
        match r {
            Some(i) => i < profiles.len() && first_with_id(profiles@, id@) == Some(i as int),
            None => first_with_id(profiles@, id@) is None,
        },
{
    let mut i: usize = 0;
    while i < profiles.len()
        invariant
            i <= profiles.len(),
            forall|j: int| 0 <= j < i ==> (#[trigger] profiles@[j]).id@ != id@,
        decreases profiles.len() - i,
    {
        if str_equal(profiles[i].id.as_str(), id) {
            proof {
                let w = choose|w: int|
                    0 <= w < profiles@.len() && profiles@[w].id@ == id@ && forall|j: int|
                        0 <= j < w ==> (#[trigger] profiles@[j]).id@ != id@;
                assert(profiles@[i as int].id@ == id@);
                if w < i {
                    assert(profiles@[w].id@ != id@);
                }
                if w > i {
                    assert(profiles@[i as int].id@ != id@);
                }
            }
            return Some(i);
        }
        i = i + 1;
    }
    None
}

/// Validates the form and builds the profile it describes.
pub fn profile_from_editor(
    editor: &ProfileEditor,
    profiles: &Vec<ConnectionProfile>,
    next_profile_id: u64,
) -> (r: Result<ConnectionProfile, &'static str>)
    ensures
        match r {
            Ok(profile) => profile_editor_error(*editor, profiles@) is None
                && is_profile_from_editor(profile, *editor, profiles@, next_profile_id),
            Err(message) => profile_editor_error(*editor, profiles@) == Some(message@),
        },
{
    let label = trim_chars(editor.label.as_str());
    let user = trim_chars(editor.user.as_str());
    let host = trim_chars(editor.host.as_str());
    if label.len() == 0 {
        return Err("Profile label cannot be empty.");
    }
    if any_control(&label) {
        return Err("Profile label cannot contain control characters.");
    }
    let label_text = string_from_chars(&label);
    let identity = match &editor.profile_id {
        Some(id) => id.clone(),
        None => String::new(),
    };
    let mut i: usize = 0;
    while i < profiles.len()
        invariant
            i <= profiles.len(),
            label_text@ == label@,
            label@ == text::trim_seq(editor.label@),
            user@ == text::trim_seq(editor.user@),
            host@ == text::trim_seq(editor.host@),
            label.len() > 0,
            !text::has_control(label@),
            identity@ == editor_identity(*editor),
            forall|j: int|
                0 <= j < i ==> !((#[trigger] profiles@[j]).id@ != identity@ && text::lower_seq(
                    profiles@[j].label@,
                ) == text::lower_seq(label@)),
        decreases profiles.len() - i,
    {
        if !str_equal(profiles[i].id.as_str(), identity.as_str()) && eq_ignore_ascii_case(
            profiles[i].label.as_str(),
            label_text.as_str(),
        ) {
            assert((profiles@[i as int]).id@ != editor_identity(*editor));
            assert(label_taken(profiles@, editor_identity(*editor), text::trim_seq(editor.label@)));
            return Err("Profile label must be unique.");
        }
        i = i + 1;
    }
    if user.len() == 0 {
        return Err("User cannot be empty.");
    }
    if any_whitespace(&user) {
        return Err("User cannot contain whitespace.");
    }
    if host.len() == 0 {
        return Err("Host cannot be empty.");
    }
    if any_whitespace(&host) {
        return Err("Host cannot contain whitespace.");
    }
    let authentication = match editor.authentication {
        ProfileAuthentication::SshAgent => Authentication::SshAgent,
        ProfileAuthentication::KeyReference => {
            let reference = trim_chars(editor.key_reference.as_str());
            if reference.len() == 0 {
                return Err("Key reference cannot be empty.");
            }
            if any_whitespace(&reference) {
                return Err("Key reference cannot contain whitespace.");
            }
            Authentication::KeyReference(string_from_chars(&reference))
        },
    };
    let id = match &editor.profile_id {
        Some(id) => id.clone(),
        None => {
            let number = decimal_string(next_profile_id);
            concat2("custom-", number.as_str())
        },
    };
    let source = match &editor.profile_id {
        Some(id) => match position_of_id(profiles, id.as_str()) {
            Some(index) => profiles[index].source,
            None => ConnectionProfileSource::Manual,
        },
        None => ConnectionProfileSource::Manual,
    };
    Ok(
        ConnectionProfile {
            id,
            label: label_text,
            source,
            protocol: Protocol::Sftp,
            user: string_from_chars(&user),
            host: string_from_chars(&host),
            authentication,
        },
    )
}

// ---------------------------------------------------------------------------
// Plan helpers
// ---------------------------------------------------------------------------
/// One of the item's endpoints belongs to the profile `profile_id`.
pub open spec fn references_profile(item: TransferPlanItem, profile_id: Seq<char>) -> bool {
    text::opt_view(item.source.profile_id) == Some(profile_id) || text::opt_view(item.destination.profile_id)
        == Some(profile_id)
}

pub fn plan_item_references_profile(item: &TransferPlanItem, profile_id: &str) -> (r: bool)
    ensures
        r == references_profile(*item, profile_id@),
{
    let source = match &item.source.profile_id {
        Some(id) => str_equal(id.as_str(), profile_id),
        None => false,
    };
    let destination = match &item.destination.profile_id {
        Some(id) => str_equal(id.as_str(), profile_id),
        None => false,
    };
    source || destination
}

/// The number of plan items that reference a profile.
pub open spec fn reference_count(plan: Seq<TransferPlanItem>, profile_id: Seq<char>) -> nat
    decreases plan.len(),
{
    if plan.len() == 0 {
        0
    } else {
        reference_count(plan.drop_last(), profile_id) + if references_profile(
            plan.last(),
            profile_id,
        ) {
            1nat
        } else {
            0nat
        }
    }
}

proof fn lemma_reference_count_bound(plan: Seq<TransferPlanItem>, profile_id: Seq<char>)
    ensures
        reference_count(plan, profile_id) <= plan.len(),
    decreases plan.len(),
{
    if plan.len() > 0 {
        lemma_reference_count_bound(plan.drop_last(), profile_id);
    }
}

pub fn count_references(plan: &Vec<TransferPlanItem>, profile_id: &str) -> (r: usize)
    ensures
        r == reference_count(plan@, profile_id@),
{
    let mut count: usize = 0;
    let mut i: usize = 0;
    while i < plan.len()
        invariant
            i <= plan.len(),
            count == reference_count(plan@.take(i as int), profile_id@),
        decreases plan.len() - i,
    {
        proof {
            assert(plan@.take(i + 1).drop_last() =~= plan@.take(i as int));
            lemma_reference_count_bound(plan@.take(i as int), profile_id@);
        }
        if plan_item_references_profile(&plan[i], profile_id) {
            count = count + 1;
        }
        i = i + 1;
    }
    assert(plan@.take(plan.len() as int) =~= plan@);
    count
}

/// The first entry named `name`.
pub open spec fn first_named(entries: Seq<BrowserEntry>, name: Seq<char>) -> Option<int> {
    if exists|i: int| 0 <= i < entries.len() && (#[trigger] entries[i]).name@ == name {
        Some(
            choose|i: int|
                0 <= i < entries.len() && entries[i].name@ == name && forall|j: int|
                    0 <= j < i ==> (#[trigger] entries[j]).name@ != name,
        )
    } else {
        None
    }
}

/// What a destination named `name` in a listing of `entries` is expected to be.
pub open spec fn spec_expectation_for(entries: Seq<BrowserEntry>, name: Seq<char>) -> DestinationExpectation {
    match first_named(entries, name) {
        Some(i) => DestinationExpectation::Existing { kind: entries[i].kind, size: entries[i].size },
        None => DestinationExpectation::Missing,
    }
}

/// The destination state that a listing shows for `name`.
pub fn expectation_for(entries: &Vec<BrowserEntry>, name: &str) -> (r: DestinationExpectation)
    ensures
        r == spec_expectation_for(entries@, name@),
{
    let mut i: usize = 0;
    while i < entries.len()
        invariant
            i <= entries.len(),
            forall|j: int| 0 <= j < i ==> (#[trigger] entries@[j]).name@ != name@,
        decreases entries.len() - i,
    {
        if str_equal(entries[i].name.as_str(), name) {
            proof {
                let w = choose|w: int|
                    0 <= w < entries@.len() && entries@[w].name@ == name@ && forall|j: int|
                        0 <= j < w ==> (#[trigger] entries@[j]).name@ != name@;
                assert(entries@[i as int].name@ == name@);
                if w < i {
                    assert(entries@[w].name@ != name@);
                }
                if w > i {
                    assert(entries@[i as int].name@ != name@);
                }
            }
            return DestinationExpectation::Existing { kind: entries[i].kind, size: entries[i].size };
        }
        i = i + 1;
    }
    DestinationExpectation::Missing
}

} // verus!
