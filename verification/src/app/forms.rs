//! Screens, the profile form, focus, actions and the wrapping index arithmetic.
use vstd::prelude::*;

use crate::domain::{Authentication, ConnectionProfile, clone_optional};

verus! {

/// The screen the application shows.
#[derive(Clone, Copy, Debug, PartialEq, Eq, Structural)]
pub enum Screen {
    Connections,
    ProfileEditor,
    Workspace,
    Rename,
    Review,
}

/// The field of the profile form that receives input.
#[derive(Clone, Copy, Debug, PartialEq, Eq, Structural)]
pub enum ProfileField {
    Label,
    User,
    Host,
    Authentication,
    KeyReference,
}

/// The authentication choice of the profile form.
#[derive(Clone, Copy, Debug, PartialEq, Eq, Structural)]
pub enum ProfileAuthentication {
    SshAgent,
    KeyReference,
}

impl ProfileField {
    pub open spec fn spec_next(self, authentication: ProfileAuthentication) -> ProfileField {
        match self {
            ProfileField::Label => ProfileField::User,
            ProfileField::User => ProfileField::Host,
            ProfileField::Host => ProfileField::Authentication,
            ProfileField::Authentication => if authentication
                == ProfileAuthentication::KeyReference {
                ProfileField::KeyReference
            } else {
                ProfileField::Label
            },
            ProfileField::KeyReference => ProfileField::Label,
        }
    }

    pub open spec fn spec_previous(self, authentication: ProfileAuthentication) -> ProfileField {
        match self {
            ProfileField::Label => if authentication == ProfileAuthentication::KeyReference {
                ProfileField::KeyReference
            } else {
                ProfileField::Authentication
            },
            ProfileField::User => ProfileField::Label,
            ProfileField::Host => ProfileField::User,
            ProfileField::Authentication => ProfileField::Host,
            ProfileField::KeyReference => ProfileField::Authentication,
        }
    }

    /// The field after this one; the key reference field exists only for key authentication.
    pub fn next(self, authentication: ProfileAuthentication) -> (r: Self)
        ensures
            r == self.spec_next(authentication),
    {
        match self {
            ProfileField::Label => ProfileField::User,
            ProfileField::User => ProfileField::Host,
            ProfileField::Host => ProfileField::Authentication,
            ProfileField::Authentication => {
                if authentication == ProfileAuthentication::KeyReference {
                    ProfileField::KeyReference
                } else {
                    ProfileField::Label
                }
            },
            ProfileField::KeyReference => ProfileField::Label,
        }
    }

    /// The field before this one; the key reference field exists only for key authentication.
    pub fn previous(self, authentication: ProfileAuthentication) -> (r: Self)
        ensures
            r == self.spec_previous(authentication),
    {
        match self {
            ProfileField::Label => {
                if authentication == ProfileAuthentication::KeyReference {
                    ProfileField::KeyReference
                } else {
                    ProfileField::Authentication
                }
            },
            ProfileField::User => ProfileField::Label,
            ProfileField::Host => ProfileField::User,
            ProfileField::Authentication => ProfileField::Host,
            ProfileField::KeyReference => ProfileField::Authentication,
        }
    }
}

/// Moving to the next field and back returns to the same field, for either authentication.
pub proof fn law_profile_field_previous_undoes_next(
    field: ProfileField,
    authentication: ProfileAuthentication,
)
    requires
        authentication == ProfileAuthentication::KeyReference || field
            != ProfileField::KeyReference,
    ensures
        field.spec_next(authentication).spec_previous(authentication) == field,
        field.spec_previous(authentication).spec_next(authentication) == field,
{
}

impl ProfileAuthentication {
    pub open spec fn spec_toggled(self) -> ProfileAuthentication {
        match self {
            ProfileAuthentication::SshAgent => ProfileAuthentication::KeyReference,
            ProfileAuthentication::KeyReference => ProfileAuthentication::SshAgent,
        }
    }

    /// The other authentication choice.
    pub fn toggled(self) -> (r: Self)
        ensures
            r == self.spec_toggled(),
    {
        match self {
            ProfileAuthentication::SshAgent => ProfileAuthentication::KeyReference,
            ProfileAuthentication::KeyReference => ProfileAuthentication::SshAgent,
        }
    }

    /// The form label of the choice.
    pub fn label(self) -> (r: &'static str)
        ensures
            r@ == (match self {
                ProfileAuthentication::SshAgent => "SSH Agent"@,
                ProfileAuthentication::KeyReference => "Key reference"@,
            }),
    {
        match self {
            ProfileAuthentication::SshAgent => "SSH Agent",
            ProfileAuthentication::KeyReference => "Key reference",
        }
    }
}

/// Toggling twice restores the authentication choice.
pub proof fn law_toggle_is_an_involution(authentication: ProfileAuthentication)
    ensures
        authentication.spec_toggled().spec_toggled() == authentication,
        authentication.spec_toggled() != authentication,
{
}

/// The state of the profile form.
#[derive(Debug, PartialEq, Eq)]
pub struct ProfileEditor {
    pub profile_id: Option<String>,
    pub field: ProfileField,
    pub label: String,
    pub user: String,
    pub host: String,
    pub authentication: ProfileAuthentication,
    pub key_reference: String,
}

impl Clone for ProfileEditor {
    fn clone(&self) -> (r: Self)
        ensures
            r == *self,
    {
        ProfileEditor {
            profile_id: clone_optional(&self.profile_id),
            field: self.field,
            label: self.label.clone(),
            user: self.user.clone(),
            host: self.host.clone(),
            authentication: self.authentication,
            key_reference: self.key_reference.clone(),
        }
    }
}

impl ProfileEditor {
    /// An empty form for a new profile.
    pub open spec fn is_blank_create(self) -> bool {
        &&& self.profile_id is None
        &&& self.field == ProfileField::Label
        &&& self.label@ == Seq::<char>::empty()
        &&& self.user@ == Seq::<char>::empty()
        &&& self.host@ == Seq::<char>::empty()
        &&& self.authentication == ProfileAuthentication::SshAgent
        &&& self.key_reference@ == Seq::<char>::empty()
    }

    /// A form filled from `profile`, or nothing for OpenSSH-policy profiles.
    pub open spec fn is_edit_of(self, profile: ConnectionProfile) -> bool {
        &&& self.profile_id == Some(profile.id)
        &&& self.field == ProfileField::Label
        &&& self.label == profile.label
        &&& self.user == profile.user
        &&& self.host == profile.host
        &&& match profile.authentication {
            Authentication::SshAgent => self.authentication == ProfileAuthentication::SshAgent
                && self.key_reference@ == Seq::<char>::empty(),
            Authentication::KeyReference(reference) => self.authentication
                == ProfileAuthentication::KeyReference && self.key_reference == reference,
            Authentication::OpenSshConfig => false,
        }
    }

    pub fn create() -> (r: Self)
        ensures
            r.is_blank_create(),
    {
        ProfileEditor {
            profile_id: None,
            field: ProfileField::Label,
            label: String::new(),
            user: String::new(),
            host: String::new(),
            authentication: ProfileAuthentication::SshAgent,
            key_reference: String::new(),
        }
    }

    pub fn edit(profile: &ConnectionProfile) -> (r: Option<Self>)
        ensures
            match r {
                Some(editor) => editor.is_edit_of(*profile),
                None => profile.authentication is OpenSshConfig,
            },
    {
        let (authentication, key_reference) = match &profile.authentication {
            Authentication::SshAgent => (ProfileAuthentication::SshAgent, String::new()),
            Authentication::KeyReference(reference) => (
                ProfileAuthentication::KeyReference,
                reference.clone(),
            ),
            Authentication::OpenSshConfig => return None,
        };
        Some(
            ProfileEditor {
                profile_id: Some(profile.id.clone()),
                field: ProfileField::Label,
                label: profile.label.clone(),
                user: profile.user.clone(),
                host: profile.host.clone(),
                authentication,
                key_reference,
            },
        )
    }

    /// The form creates a new profile rather than editing one.
    pub fn is_create(&self) -> (r: bool)
        ensures
            r == self.profile_id is None,
    {
        self.profile_id.is_none()
    }
}

/// Which pane of the workspace receives navigation.
#[derive(Clone, Copy, Debug, PartialEq, Eq, Structural)]
pub enum Focus {
    Local,
    Remote,
    Waybill,
}

impl Focus {
    pub open spec fn spec_next(self) -> Focus {
        match self {
            Focus::Local => Focus::Remote,
            Focus::Remote => Focus::Waybill,
            Focus::Waybill => Focus::Local,
        }
    }

    pub open spec fn spec_name(self) -> Seq<char> {
        match self {
            Focus::Local => "Local"@,
            Focus::Remote => "Remote"@,
            Focus::Waybill => "Waybill"@,
        }
    }

    /// The pane after this one: Local, Remote, Waybill, then Local again.
    pub fn next(self) -> (r: Self)
        ensures
            r == self.spec_next(),
    {
        match self {
            Focus::Local => Focus::Remote,
            Focus::Remote => Focus::Waybill,
            Focus::Waybill => Focus::Local,
        }
    }

    /// The pane's name as the status line shows it.
    pub fn name(self) -> (r: &'static str)
        ensures
            r@ == self.spec_name(),
    {
        match self {
            Focus::Local => "Local",
            Focus::Remote => "Remote",
            Focus::Waybill => "Waybill",
        }
    }
}

/// Three focus moves return to the starting pane.
pub proof fn law_focus_cycle_has_period_three(focus: Focus)
    ensures
        focus.spec_next().spec_next().spec_next() == focus,
        focus.spec_next() != focus,
{
}

/// Whether review runs the representative executor or actual transfers.
#[derive(Clone, Copy, Debug, PartialEq, Eq, Structural)]
pub enum ExecutionMode {
    Fixture,
    Live,
}

/// A user intent, decoded from a key press.
#[derive(Clone, Copy, Debug, PartialEq, Eq, Structural)]
pub enum Action {
    Up,
    Down,
    Activate,
    Back,
    AddProfile,
    EditProfile,
    DeleteProfile,
    RefreshOpenSshProfiles,
    NextProfileField,
    PreviousProfileField,
    ToggleProfileAuthentication,
    InputProfileChar(char),
    BackspaceProfile,
    NextFocus,
    NavigateParent,
    AddToPlan,
    RemovePlanItem,
    CycleConflictPolicy,
    BeginRename,
    InputRenameChar(char),
    BackspaceRename,
    MovePlanUp,
    MovePlanDown,
    ReviewPlan,
    Quit,
}

// ---------------------------------------------------------------------------
// Index arithmetic
// ---------------------------------------------------------------------------
pub open spec fn spec_next_index(current: nat, length: nat) -> nat {
    if length == 0 {
        0
    } else {
        (current + 1) % length
    }
}

pub open spec fn spec_previous_index(current: nat, length: nat) -> nat {
    if length == 0 {
        0
    } else {
        ((current + length - 1) as nat) % length
    }
}

pub open spec fn spec_move_index(current: nat, length: nat, forward: bool) -> nat {
    if forward {
        spec_next_index(current, length)
    } else {
        spec_previous_index(current, length)
    }
}

/// The arithmetic of `move_index` stays within `usize`.
pub open spec fn move_index_in_range(current: nat, length: nat, forward: bool) -> bool {
    length == 0 || if forward {
        current + 1 <= usize::MAX
    } else {
        current + length <= usize::MAX
    }
}

/// The next row of a wrapping list of `length` rows.
pub fn next_index(current: usize, length: usize) -> (r: usize)
    requires
        length == 0 || current < usize::MAX,
    ensures
        r == spec_next_index(current as nat, length as nat),
{
    if length == 0 {
        0
    } else {
        (current + 1) % length
    }
}

/// The previous row of a wrapping list of `length` rows.
pub fn previous_index(current: usize, length: usize) -> (r: usize)
    requires
        length == 0 || current + length <= usize::MAX,
    ensures
        r == spec_previous_index(current as nat, length as nat),
{
    if length == 0 {
        0
    } else {
        (current + length - 1) % length
    }
}

pub fn move_index(current: usize, length: usize, forward: bool) -> (r: usize)
    requires
        move_index_in_range(current as nat, length as nat, forward),
    ensures
        r == spec_move_index(current as nat, length as nat, forward),
{
    if forward {
        next_index(current, length)
    } else {
        previous_index(current, length)
    }
}

/// Within a non-empty list, moving down then up returns to the same row.
pub proof fn law_previous_undoes_next(current: nat, length: nat)
    requires
        current < length,
    ensures
        spec_previous_index(spec_next_index(current, length), length) == current,
        spec_next_index(spec_previous_index(current, length), length) == current,
        spec_next_index(current, length) < length,
        spec_previous_index(current, length) < length,
{
    let c = current as int;
    let l = length as int;
    if c + 1 < l {
        assert((c + 1) % l == c + 1) by (nonlinear_arith)
            requires
                0 <= c, c + 1 < l,
        ;
        assert((c + 1 + l - 1) % l == c) by (nonlinear_arith)
            requires
                0 <= c < l,
        ;
    } else {
        assert((c + 1) % l == 0) by (nonlinear_arith)
            requires
                0 <= c,
                c + 1 == l,
        ;
        assert((0 + l - 1) % l == c) by (nonlinear_arith)
            requires
                0 <= c,
                c + 1 == l,
        ;
    }
    if c == 0 {
        assert((c + l - 1) % l == l - 1) by (nonlinear_arith)
            requires
                c == 0,
                l > 0,
        ;
        assert((l - 1 + 1) % l == 0) by (nonlinear_arith)
            requires
                l > 0,
        ;
    } else {
        assert((c + l - 1) % l == c - 1) by (nonlinear_arith)
            requires
                0 < c < l,
        ;
        assert((c - 1 + 1) % l == c) by (nonlinear_arith)
            requires
                0 < c < l,
        ;
    }
}

/// A key press as the screens read it.
#[derive(Clone, Copy, Debug, PartialEq, Eq, Structural)]
pub enum Key {
    Enter,
    Esc,
    Tab,
    BackTab,
    Up,
    Down,
    Left,
    Right,
    Backspace,
    Char(char),
    Other,
}

/// The action a key press means on `screen`: the profile form and the rename dialog take
/// text, every other screen reads letters as commands.
pub open spec fn spec_action_for(screen: Screen, key: Key) -> Option<Action> {
    if screen == Screen::ProfileEditor {
        match key {
            Key::Enter => Some(Action::Activate),
            Key::Esc => Some(Action::Back),
            Key::Tab | Key::Down => Some(Action::NextProfileField),
            Key::BackTab | Key::Up => Some(Action::PreviousProfileField),
            Key::Left | Key::Right => Some(Action::ToggleProfileAuthentication),
            Key::Backspace => Some(Action::BackspaceProfile),
            Key::Char(c) => Some(Action::InputProfileChar(c)),
            _ => None,
        }
    } else if screen == Screen::Rename {
        match key {
            Key::Enter => Some(Action::Activate),
            Key::Esc => Some(Action::Back),
            Key::Backspace => Some(Action::BackspaceRename),
            Key::Char(c) => Some(Action::InputRenameChar(c)),
            _ => None,
        }
    } else {
        match key {
            Key::Char('q') => Some(Action::Quit),
            Key::Up | Key::Char('k') => Some(Action::Up),
            Key::Down | Key::Char('j') => Some(Action::Down),
            Key::Enter => Some(Action::Activate),
            Key::Esc => Some(Action::Back),
            Key::Tab => Some(Action::NextFocus),
            Key::Backspace => if screen == Screen::Workspace {
                Some(Action::NavigateParent)
            } else {
                None
            },
            Key::Char(c) => if (c == 'i' || c == 'I') && screen == Screen::Connections {
                Some(Action::RefreshOpenSshProfiles)
            } else if c == 'a' || c == 'A' {
                Some(Action::AddProfile)
            } else if c == 'e' || c == 'E' {
                Some(Action::EditProfile)
            } else if (c == 'd' || c == 'D') && screen == Screen::Connections {
                Some(Action::DeleteProfile)
            } else if c == ' ' {
                Some(Action::AddToPlan)
            } else if c == 'd' || c == 'D' {
                Some(Action::RemovePlanItem)
            } else if c == 'p' {
                Some(Action::CycleConflictPolicy)
            } else if c == 'n' || c == 'N' {
                Some(Action::BeginRename)
            } else if c == 'K' {
                Some(Action::MovePlanUp)
            } else if c == 'J' {
                Some(Action::MovePlanDown)
            } else if c == 'r' {
                Some(Action::ReviewPlan)
            } else {
                None
            },
            _ => None,
        }
    }
}

/// Maps a key press to the action it means on `screen`.
pub fn action_for(screen: Screen, key: Key) -> (r: Option<Action>)
    ensures
        r == spec_action_for(screen, key),
{
    if screen == Screen::ProfileEditor {
        return match key {
            Key::Enter => Some(Action::Activate),
            Key::Esc => Some(Action::Back),
            Key::Tab | Key::Down => Some(Action::NextProfileField),
            Key::BackTab | Key::Up => Some(Action::PreviousProfileField),
            Key::Left | Key::Right => Some(Action::ToggleProfileAuthentication),
            Key::Backspace => Some(Action::BackspaceProfile),
            Key::Char(c) => Some(Action::InputProfileChar(c)),
            _ => None,
        };
    }
    if screen == Screen::Rename {
        return match key {
            Key::Enter => Some(Action::Activate),
            Key::Esc => Some(Action::Back),
            Key::Backspace => Some(Action::BackspaceRename),
            Key::Char(c) => Some(Action::InputRenameChar(c)),
            _ => None,
        };
    }
    match key {
        Key::Char('q') => Some(Action::Quit),
        Key::Up | Key::Char('k') => Some(Action::Up),
        Key::Down | Key::Char('j') => Some(Action::Down),
        Key::Enter => Some(Action::Activate),
        Key::Esc => Some(Action::Back),
        Key::Tab => Some(Action::NextFocus),
        Key::Backspace => {
            if screen == Screen::Workspace {
                Some(Action::NavigateParent)
            } else {
                None
            }
        },
        Key::Char(c) => {
            if (c == 'i' || c == 'I') && screen == Screen::Connections {
                Some(Action::RefreshOpenSshProfiles)
            } else if c == 'a' || c == 'A' {
                Some(Action::AddProfile)
            } else if c == 'e' || c == 'E' {
                Some(Action::EditProfile)
            } else if (c == 'd' || c == 'D') && screen == Screen::Connections {
                Some(Action::DeleteProfile)
            } else if c == ' ' {
                Some(Action::AddToPlan)
            } else if c == 'd' || c == 'D' {
                Some(Action::RemovePlanItem)
            } else if c == 'p' {
                Some(Action::CycleConflictPolicy)
            } else if c == 'n' || c == 'N' {
                Some(Action::BeginRename)
            } else if c == 'K' {
                Some(Action::MovePlanUp)
            } else if c == 'J' {
                Some(Action::MovePlanDown)
            } else if c == 'r' {
                Some(Action::ReviewPlan)
            } else {
                None
            }
        },
        _ => None,
    }
}

/// Text typed into the profile form or the rename dialog is never read as a command:
/// there every character is input, and `Quit` is not reachable from a key.
pub proof fn law_text_input_is_never_a_command(screen: Screen, c: char)
    requires
        screen == Screen::ProfileEditor || screen == Screen::Rename,
    ensures
        spec_action_for(screen, Key::Char(c)) == Some(
            if screen == Screen::ProfileEditor {
                Action::InputProfileChar(c)
            } else {
                Action::InputRenameChar(c)
            },
        ),
{
}

} // verus!
