//! The application state.
use vstd::prelude::*;

use crate::domain::{BrowserEntry, ConnectionProfile, TransferPlanItem};
use super::forms::{ExecutionMode, Focus, ProfileEditor, Screen};
use super::catalog;
use super::catalog::position_of_id;

verus! {

broadcast use vstd::string::group_string_axioms;

/// The whole interaction state of the application.
#[derive(Clone, Debug, PartialEq, Eq)]
pub struct App {
    pub screen: Screen,
    pub focus: Focus,
    pub profiles: Vec<ConnectionProfile>,
    pub selected_profile: usize,
    pub profile_editor: Option<ProfileEditor>,
    pub connected_profile_id: Option<String>,
    pub local_directory: String,
    pub remote_directory: String,
    pub local_entries: Vec<BrowserEntry>,
    pub remote_entries: Vec<BrowserEntry>,
    pub local_selection: usize,
    pub remote_selection: usize,
    pub plan: Vec<TransferPlanItem>,
    pub plan_selection: usize,
    pub rename_buffer: String,
    pub status: String,
    pub execution_mode: ExecutionMode,
    /// The number the next created profile's identity carries.
    pub next_profile_id: u64,
    /// The identity the next staged item receives.
    pub next_plan_id: u64,
}

/// The profile the workspace is connected to: the first with the connected identity.
pub open spec fn spec_connected_profile(
    profiles: Seq<ConnectionProfile>,
    connected: Option<String>,
) -> Option<ConnectionProfile> {
    match connected {
        Some(id) => match catalog::first_with_id(profiles, id@) {
            Some(i) => Some(profiles[i]),
            None => None,
        },
        None => None,
    }
}

impl App {
    /// The profile the workspace is connected to, if it is still in the catalog.
    pub fn connected_profile(&self) -> (r: Option<&ConnectionProfile>)
        ensures
            match r {
                Some(p) => spec_connected_profile(self.profiles@, self.connected_profile_id)
                    == Some(*p),
                None => spec_connected_profile(self.profiles@, self.connected_profile_id) is None,
            },
    {
        match &self.connected_profile_id {
            Some(id) => match position_of_id(&self.profiles, id.as_str()) {
                Some(i) => Some(&self.profiles[i]),
                None => None,
            },
            None => None,
        }
    }
}

/// `b` differs from `a` at most in its status, which reads `message`.
pub open spec fn only_status(a: App, b: App, message: Seq<char>) -> bool {
    &&& b == App { status: b.status, ..a }
    &&& b.status@ == message
}

} // verus!
