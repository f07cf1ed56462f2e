//! The profile editor screen.
use vstd::prelude::*;

use crate::domain::Authentication;
use crate::text;
use crate::text::{char_is_control, concat3, owned, pop_char, push_char};
use super::forms::{Action, ProfileEditor, ProfileField, Screen};
use super::catalog;
use super::catalog::{position_of_id, profile_from_editor};
use super::state;
use super::state::App;

verus! {

broadcast use vstd::string::group_string_axioms;

/// `s` after a backspace: the last character is removed, if there is one.
pub open spec fn backspaced(s: Seq<char>) -> Seq<char> {
    if s.len() > 0 {
        s.drop_last()
    } else {
        s
    }
}

/// The form after typing `c` into its current field (the authentication field takes no text).
pub open spec fn editor_typed(e: ProfileEditor, f: ProfileEditor, c: char) -> bool {
    match e.field {
        ProfileField::Label => f == ProfileEditor { label: f.label, ..e } && f.label@
            == e.label@.push(c),
        ProfileField::User => f == ProfileEditor { user: f.user, ..e } && f.user@ == e.user@.push(
            c,
        ),
        ProfileField::Host => f == ProfileEditor { host: f.host, ..e } && f.host@ == e.host@.push(
            c,
        ),
        ProfileField::Authentication => f == e,
        ProfileField::KeyReference => f == ProfileEditor { key_reference: f.key_reference, ..e }
            && f.key_reference@ == e.key_reference@.push(c),
    }
}

/// The form after a backspace in its current field.
pub open spec fn editor_backspaced(e: ProfileEditor, f: ProfileEditor) -> bool {
    match e.field {
        ProfileField::Label => f == ProfileEditor { label: f.label, ..e } && f.label@ == backspaced(
            e.label@,
        ),
        ProfileField::User => f == ProfileEditor { user: f.user, ..e } && f.user@ == backspaced(
            e.user@,
        ),
        ProfileField::Host => f == ProfileEditor { host: f.host, ..e } && f.host@ == backspaced(
            e.host@,
        ),
        ProfileField::Authentication => f == e,
        ProfileField::KeyReference => f == ProfileEditor { key_reference: f.key_reference, ..e }
            && f.key_reference@ == backspaced(e.key_reference@),
    }
}

/// Saving the form: an invalid form only sets the status; a valid one replaces the edited
/// profile in place or appends a new manual profile, then closes the form.
pub open spec fn save_post(a: App, e: ProfileEditor, b: App) -> bool {
    match catalog::profile_editor_error(e, a.profiles@) {
        Some(message) => state::only_status(a, b, message),
        None => match e.profile_id {
            Some(id) => match catalog::first_with_id(a.profiles@, id@) {
                None => state::only_status(a, b, "Profile being edited no longer exists."@),
                Some(i) => {
                    &&& b == App {
                        profiles: b.profiles,
                        selected_profile: i as usize,
                        profile_editor: None,
                        screen: Screen::Connections,
                        status: b.status,
                        ..a
                    }
                    &&& b.profiles@ == a.profiles@.update(i, b.profiles@[i])
                    &&& catalog::is_profile_from_editor(b.profiles@[i], e, a.profiles@, a.next_profile_id)
                    &&& b.status@ == "Updated profile "@ + text::trim_seq(e.label@)
                        + "; press Enter to connect."@
                },
            },
            None => {
                let n = a.profiles@.len();
                &&& b == App {
                    profiles: b.profiles,
                    selected_profile: n as usize,
                    profile_editor: None,
                    screen: Screen::Connections,
                    next_profile_id: (a.next_profile_id + 1) as u64,
                    status: b.status,
                    ..a
                }
                &&& b.profiles@ == a.profiles@.push(b.profiles@[n as int])
                &&& catalog::is_profile_from_editor(b.profiles@[n as int], e, a.profiles@, a.next_profile_id)
                &&& b.status@ == "Added profile "@ + text::trim_seq(e.label@) + "; press Enter to connect."@
            },
        },
    }
}

/// The profile form: move between fields, toggle authentication on its field, type,
/// delete, save or cancel.
pub open spec fn editor_post(a: App, action: Action, b: App) -> bool {
    match a.profile_editor {
        None => {
            &&& b == App { screen: Screen::Connections, status: b.status, ..a }
            &&& b.status@ == "Profile editor state was unavailable."@
        },
        Some(e) => match action {
            Action::NextProfileField => b == App {
                profile_editor: Some(
                    ProfileEditor { field: e.field.spec_next(e.authentication), ..e },
                ),
                ..a
            },
            Action::PreviousProfileField => b == App {
                profile_editor: Some(
                    ProfileEditor { field: e.field.spec_previous(e.authentication), ..e },
                ),
                ..a
            },
            Action::ToggleProfileAuthentication => if e.field == ProfileField::Authentication {
                b == App {
                    profile_editor: Some(
                        ProfileEditor { authentication: e.authentication.spec_toggled(), ..e },
                    ),
                    ..a
                }
            } else {
                b == a
            },
            Action::InputProfileChar(c) => if !text::is_control(c) {
                &&& b == App { profile_editor: b.profile_editor, ..a }
                &&& b.profile_editor matches Some(f) && editor_typed(e, f, c)
            } else {
                b == a
            },
            Action::BackspaceProfile => {
                &&& b == App { profile_editor: b.profile_editor, ..a }
                &&& b.profile_editor matches Some(f) && editor_backspaced(e, f)
            },
            Action::Activate => save_post(a, e, b),
            Action::Back => {
                &&& b == App {
                    profile_editor: None,
                    screen: Screen::Connections,
                    status: b.status,
                    ..a
                }
                &&& b.status@ == "Profile edit cancelled; catalog unchanged."@
            },
            _ => b == a,
        },
    }
}

/// Saving a new profile does not exhaust the profile numbering.
pub open spec fn save_in_range(a: App) -> bool {
    match a.profile_editor {
        Some(e) => (e.profile_id is None && catalog::profile_editor_error(e, a.profiles@) is None) ==> a.next_profile_id < u64::MAX,
        None => true,
    }
}

fn push_editor_char(editor: &mut ProfileEditor, c: char)
    ensures
        editor_typed(*old(editor), *final(editor), c),
{
    match editor.field {
        ProfileField::Label => push_char(&mut editor.label, c),
        ProfileField::User => push_char(&mut editor.user, c),
        ProfileField::Host => push_char(&mut editor.host, c),
        ProfileField::Authentication => {},
        ProfileField::KeyReference => push_char(&mut editor.key_reference, c),
    }
}

fn pop_editor_char(editor: &mut ProfileEditor)
    ensures
        editor_backspaced(*old(editor), *final(editor)),
{
    match editor.field {
        ProfileField::Label => {
            let _ = pop_char(&mut editor.label);
        },
        ProfileField::User => {
            let _ = pop_char(&mut editor.user);
        },
        ProfileField::Host => {
            let _ = pop_char(&mut editor.host);
        },
        ProfileField::Authentication => {},
        ProfileField::KeyReference => {
            let _ = pop_char(&mut editor.key_reference);
        },
    }
}

impl App {
    fn save_profile(&mut self)
        requires
            old(self).profile_editor is Some,
            save_in_range(*old(self)),
        ensures
            save_post(*old(self), old(self).profile_editor.unwrap(), *final(self)),
    {
        let editor = match &self.profile_editor {
            Some(editor) => editor.clone(),
            None => return,
        };
        let profile = match profile_from_editor(&editor, &self.profiles, self.next_profile_id) {
            Ok(profile) => profile,
            Err(message) => {
                self.status = owned(message);
                return;
            },
        };
        let label = profile.label.clone();
        match &editor.profile_id {
            Some(profile_id) => {
                match position_of_id(&self.profiles, profile_id.as_str()) {
                    None => {
                        self.status = owned("Profile being edited no longer exists.");
                        return;
                    },
                    Some(index) => {
                        self.profiles.set(index, profile);
                        self.selected_profile = index;
                        self.status = concat3(
                            "Updated profile ",
                            label.as_str(),
                            "; press Enter to connect.",
                        );
                    },
                }
            },
            None => {
                self.profiles.push(profile);
                self.selected_profile = self.profiles.len() - 1;
                self.next_profile_id = self.next_profile_id + 1;
                self.status = concat3("Added profile ", label.as_str(), "; press Enter to connect.");
            },
        }
        self.profile_editor = None;
        self.screen = Screen::Connections;
    }

    pub(crate) fn update_profile_editor(&mut self, action: Action)
        requires
            action == Action::Activate ==> save_in_range(*old(self)),
        ensures
            editor_post(*old(self), action, *final(self)),
    {
        let mut editor = match &self.profile_editor {
            Some(editor) => editor.clone(),
            None => {
                self.screen = Screen::Connections;
                self.status = owned("Profile editor state was unavailable.");
                return;
            },
        };
        match action {
            Action::NextProfileField => {
                editor.field = editor.field.next(editor.authentication);
                self.profile_editor = Some(editor);
            },
            Action::PreviousProfileField => {
                editor.field = editor.field.previous(editor.authentication);
                self.profile_editor = Some(editor);
            },
            Action::ToggleProfileAuthentication => {
                if editor.field == ProfileField::Authentication {
                    editor.authentication = editor.authentication.toggled();
                    self.profile_editor = Some(editor);
                }
            },
            Action::InputProfileChar(character) => {
                if !char_is_control(character) {
                    push_editor_char(&mut editor, character);
                    self.profile_editor = Some(editor);
                }
            },
            Action::BackspaceProfile => {
                pop_editor_char(&mut editor);
                self.profile_editor = Some(editor);
            },
            Action::Activate => self.save_profile(),
            Action::Back => {
                self.profile_editor = None;
                self.screen = Screen::Connections;
                self.status = owned("Profile edit cancelled; catalog unchanged.");
            },
            _ => {},
        }
    }
}

} // verus!
