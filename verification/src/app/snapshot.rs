//! The fixed scenarios that the `--snapshot` screens show.
use vstd::prelude::*;

use crate::domain::{Authentication, ConnectionProfile, ConnectionProfileSource, Protocol};
use crate::text::{owned, str_equal};
use super::fixture;
use super::forms::{Action, ExecutionMode};
use super::review;
use super::state::App;

verus! {

broadcast use vstd::string::group_string_axioms;

/// A screen that can be shown as a snapshot.
#[derive(Clone, Copy, Debug, PartialEq, Eq, Structural)]
pub enum SnapshotKind {
    Connections,
    OpenSsh,
    OpenSshEmpty,
    ProfileAdd,
    ProfileEdit,
    Workspace,
    Rename,
    Review,
    LiveReview,
    Results,
}

/// The snapshot named `name`, if any.
pub open spec fn spec_snapshot_kind(name: Seq<char>) -> Option<SnapshotKind> {
    if name == "connections"@ {
        Some(SnapshotKind::Connections)
    } else if name == "openssh"@ {
        Some(SnapshotKind::OpenSsh)
    } else if name == "openssh-empty"@ {
        Some(SnapshotKind::OpenSshEmpty)
    } else if name == "profile-add"@ {
        Some(SnapshotKind::ProfileAdd)
    } else if name == "profile-edit"@ {
        Some(SnapshotKind::ProfileEdit)
    } else if name == "workspace"@ {
        Some(SnapshotKind::Workspace)
    } else if name == "rename"@ {
        Some(SnapshotKind::Rename)
    } else if name == "review"@ {
        Some(SnapshotKind::Review)
    } else if name == "live-review"@ {
        Some(SnapshotKind::LiveReview)
    } else if name == "results"@ {
        Some(SnapshotKind::Results)
    } else {
        None
    }
}

/// Reads a snapshot name; every other name is refused.
pub fn snapshot_kind(name: &str) -> (r: Option<SnapshotKind>)
    ensures
        r == spec_snapshot_kind(name@),
{
    if str_equal(name, "connections") {
        Some(SnapshotKind::Connections)
    } else if str_equal(name, "openssh") {
        Some(SnapshotKind::OpenSsh)
    } else if str_equal(name, "openssh-empty") {
        Some(SnapshotKind::OpenSshEmpty)
    } else if str_equal(name, "profile-add") {
        Some(SnapshotKind::ProfileAdd)
    } else if str_equal(name, "profile-edit") {
        Some(SnapshotKind::ProfileEdit)
    } else if str_equal(name, "workspace") {
        Some(SnapshotKind::Workspace)
    } else if str_equal(name, "rename") {
        Some(SnapshotKind::Rename)
    } else if str_equal(name, "review") {
        Some(SnapshotKind::Review)
    } else if str_equal(name, "live-review") {
        Some(SnapshotKind::LiveReview)
    } else if str_equal(name, "results") {
        Some(SnapshotKind::Results)
    } else {
        None
    }
}

/// One action, applied where `update` is defined for it; elsewhere nothing changes.
pub open spec fn step_post(a: App, action: Action, b: App) -> bool {
    if review::update_in_range(a, action) {
        review::update_post(a, action, b)
    } else {
        b == a
    }
}

/// `trace` is the sequence of states that applying `actions` from `a` passes through, each
/// action applied as `step_post` says.
pub open spec fn is_trace(a: App, actions: Seq<Action>, trace: Seq<App>) -> bool {
    &&& trace.len() == actions.len() + 1
    &&& trace[0] == a
    &&& forall|i: int| 0 <= i < actions.len() ==> step_post(#[trigger] trace[i], actions[i], trace[i + 1])
}

/// The actions in order, each applied as `step_post` says, lead from `a` to `b`.
pub open spec fn steps_post(a: App, actions: Seq<Action>, b: App) -> bool {
    exists|trace: Seq<App>| #[trigger] is_trace(a, actions, trace) && trace.last() == b
}

/// The demo application, as `App::demo` builds it.
pub open spec fn is_demo(a: App) -> bool {
    &&& fixture::is_demo_workspace(a)
    &&& fixture::is_demo_catalog(a.profiles@)
    &&& a.selected_profile == 0
    &&& a.connected_profile_id is None
    &&& a.status@ == "Choose a complete profile; editing is a separate action."@
}

/// `p` is the imported profile of the OpenSSH alias `alias`, as `ConnectionProfile::open_ssh`
/// makes it.
pub open spec fn is_imported_alias(p: ConnectionProfile, alias: Seq<char>) -> bool {
    &&& p.id@ == "openssh:"@ + alias
    &&& p.label@ == alias
    &&& p.source == ConnectionProfileSource::OpenSshConfig
    &&& p.protocol == Protocol::Sftp
    &&& p.user@ == Seq::<char>::empty()
    &&& p.host@ == alias
    &&& p.authentication == Authentication::OpenSshConfig
}

/// The OpenSSH profiles of the `openssh` snapshot.
pub open spec fn is_two_imported(p: Seq<ConnectionProfile>) -> bool {
    &&& p.len() == 2
    &&& is_imported_alias(p[0], "build-box"@)
    &&& is_imported_alias(p[1], "release-box"@)
}

/// The state a snapshot starts from.
pub open spec fn start_post(kind: SnapshotKind, a: App) -> bool {
    match kind {
        SnapshotKind::OpenSsh => {
            &&& fixture::is_demo_workspace(a)
            &&& is_two_imported(a.profiles@)
            &&& a.selected_profile == 0
            &&& a.connected_profile_id is None
            &&& a.status@ == "Imported 2 OpenSSH profile(s); I refreshes the catalog."@
        },
        SnapshotKind::OpenSshEmpty => {
            &&& fixture::is_demo_workspace(a)
            &&& a.profiles@.len() == 0
            &&& a.selected_profile == 0
            &&& a.connected_profile_id is None
            &&& a.status@ == "No OpenSSH user config found; A adds a manual profile."@
        },
        SnapshotKind::LiveReview => exists|d: App| is_demo(d) && a == (App { execution_mode: ExecutionMode::Live, ..d }),
        _ => is_demo(a),
    }
}

/// The actions a snapshot applies before the rename buffer is typed.
pub open spec fn first_actions(kind: SnapshotKind) -> Seq<Action> {
    let staged = seq![Action::Activate, Action::AddToPlan, Action::NextFocus, Action::AddToPlan, Action::NextFocus];
    match kind {
        SnapshotKind::ProfileAdd => seq![Action::AddProfile],
        SnapshotKind::ProfileEdit => seq![Action::EditProfile],
        SnapshotKind::Workspace => staged,
        SnapshotKind::Rename | SnapshotKind::Review | SnapshotKind::LiveReview => staged.push(Action::BeginRename),
        SnapshotKind::Results => staged + seq![
            Action::NextFocus,
            Action::AddToPlan,
            Action::NextFocus,
            Action::AddToPlan,
            Action::NextFocus,
        ],
        _ => Seq::empty(),
    }
}

/// Whether the snapshot types a new destination name into the rename dialog.
pub open spec fn types_rename(kind: SnapshotKind) -> bool {
    kind == SnapshotKind::Rename || kind == SnapshotKind::Review || kind == SnapshotKind::LiveReview
}

/// The actions a snapshot applies after that.
pub open spec fn last_actions(kind: SnapshotKind) -> Seq<Action> {
    match kind {
        SnapshotKind::Review | SnapshotKind::LiveReview => seq![Action::Activate, Action::MovePlanUp, Action::ReviewPlan],
        SnapshotKind::Results => seq![Action::ReviewPlan, Action::Activate],
        _ => Seq::empty(),
    }
}

/// The state a snapshot shows: its start, its first actions, the typed name
/// `service-copy.log` where it renames, then its last actions.
pub open spec fn snapshot_post(kind: SnapshotKind, r: App) -> bool {
    exists|s: App, m: App, n: App|
        #![trigger start_post(kind, s), steps_post(s, first_actions(kind), m), steps_post(n, last_actions(kind), r)]
        {
            &&& start_post(kind, s)
            &&& steps_post(s, first_actions(kind), m)
            &&& if types_rename(kind) {
                n == App { rename_buffer: n.rename_buffer, ..m } && n.rename_buffer@ == "service-copy.log"@
            } else {
                n == m
            }
            &&& steps_post(n, last_actions(kind), r)
        }
}

fn first_actions_of(kind: SnapshotKind) -> (v: Vec<Action>)
    ensures
        v@ == first_actions(kind),
{
    let mut v: Vec<Action> = Vec::new();
    match kind {
        SnapshotKind::ProfileAdd => {
            v.push(Action::AddProfile);
        },
        SnapshotKind::ProfileEdit => {
            v.push(Action::EditProfile);
        },
        SnapshotKind::Workspace | SnapshotKind::Rename | SnapshotKind::Review | SnapshotKind::LiveReview
        | SnapshotKind::Results => {
            v.push(Action::Activate);
            v.push(Action::AddToPlan);
            v.push(Action::NextFocus);
            v.push(Action::AddToPlan);
            v.push(Action::NextFocus);
            if kind == SnapshotKind::Results {
                v.push(Action::NextFocus);
                v.push(Action::AddToPlan);
                v.push(Action::NextFocus);
                v.push(Action::AddToPlan);
                v.push(Action::NextFocus);
            } else if kind != SnapshotKind::Workspace {
                v.push(Action::BeginRename);
            }
        },
        _ => {},
    }
    assert(v@ =~= first_actions(kind));
    v
}

fn last_actions_of(kind: SnapshotKind) -> (v: Vec<Action>)
    ensures
        v@ == last_actions(kind),
{
    let mut v: Vec<Action> = Vec::new();
    match kind {
        SnapshotKind::Review | SnapshotKind::LiveReview => {
            v.push(Action::Activate);
            v.push(Action::MovePlanUp);
            v.push(Action::ReviewPlan);
        },
        SnapshotKind::Results => {
            v.push(Action::ReviewPlan);
            v.push(Action::Activate);
        },
        _ => {},
    }
    assert(v@ =~= last_actions(kind));
    v
}

/// Applies `actions` in order, each where `update` is defined for it.
fn apply_actions(app: &mut App, actions: &Vec<Action>)
    ensures
        steps_post(*old(app), actions@, *final(app)),
{
    let ghost start = *app;
    let ghost mut trace: Seq<App> = seq![*app];
    let mut i: usize = 0;
    while i < actions.len()
        invariant
            i <= actions.len(),
            is_trace(start, actions@.take(i as int), trace),
            trace.last() == *app,
        decreases actions.len() - i,
    {
        let ghost before = *app;
        let ghost done = trace;
        let action = actions[i];
        if app.update_is_in_range(action) {
            let _ = app.update(action);
        }
        proof {
            assert(step_post(before, action, *app));
            trace = done.push(*app);
            let taken = actions@.take(i + 1);
            assert forall|j: int| 0 <= j < taken.len() implies step_post(#[trigger] trace[j], taken[j], trace[j + 1]) by {
                if j < i {
                    assert(taken[j] == actions@.take(i as int)[j]);
                    assert(step_post(done[j], actions@.take(i as int)[j], done[j + 1]));
                }
            }
            assert(is_trace(start, taken, trace));
        }
        i = i + 1;
    }
    assert(actions@.take(actions.len() as int) =~= actions@);
    assert(is_trace(start, actions@, trace));
}

fn start_app(kind: SnapshotKind) -> (a: App)
    ensures
        start_post(kind, a),
{
    match kind {
        SnapshotKind::OpenSsh => {
            let mut profiles: Vec<ConnectionProfile> = Vec::new();
            profiles.push(ConnectionProfile::open_ssh("build-box"));
            profiles.push(ConnectionProfile::open_ssh("release-box"));
            App::runtime(profiles, "Imported 2 OpenSSH profile(s); I refreshes the catalog.")
        },
        SnapshotKind::OpenSshEmpty => App::runtime(
            Vec::new(),
            "No OpenSSH user config found; A adds a manual profile.",
        ),
        SnapshotKind::LiveReview => {
            let mut app = App::demo();
            let ghost d = app;
            app.execution_mode = ExecutionMode::Live;
            assert(is_demo(d) && app == (App { execution_mode: ExecutionMode::Live, ..d }));
            app
        },
        _ => App::demo(),
    }
}

/// The application state that the snapshot `kind` shows.
pub fn snapshot_app(kind: SnapshotKind) -> (r: App)
    ensures
        snapshot_post(kind, r),
{
    let mut app = start_app(kind);
    let ghost s = app;
    apply_actions(&mut app, &first_actions_of(kind));
    let ghost m = app;
    if kind == SnapshotKind::Rename || kind == SnapshotKind::Review || kind == SnapshotKind::LiveReview {
        app.rename_buffer = owned("service-copy.log");
    }
    let ghost n = app;
    apply_actions(&mut app, &last_actions_of(kind));
    assert(start_post(kind, s) && steps_post(s, first_actions(kind), m) && steps_post(n, last_actions(kind), app));
    app
}

} // verus!
