//! The interaction state: connection catalog, profile editor, browsers, Waybill and review.
pub mod forms;
pub mod paths;
pub mod catalog;
pub mod state;
pub mod connections;
pub mod editor;
pub mod workspace;
pub mod review;
pub mod refresh;
pub mod browse;
pub mod fixture;
pub mod laws;
pub mod interactive;
pub mod snapshot;

pub use forms::{
    action_for, Action, ExecutionMode, Focus, Key, ProfileAuthentication, ProfileEditor, ProfileField,
    Screen,
};
pub use state::App;
