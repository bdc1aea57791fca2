//! What happens to the application, and what it asks its surroundings to do.

use vstd::prelude::*;

use crate::greeter::AuthStatus;
use crate::ipc::{Request, RequestView};
use crate::power::{PowerCommand, PowerCommandView};

verus! {

/// A key of the keyboard.
#[derive(Debug, Copy, Clone, PartialEq, Eq, Structural)]
pub enum KeyCode {
    Backspace,
    Enter,
    Left,
    Right,
    Up,
    Down,
    Tab,
    Delete,
    Esc,
    /// A function key, by its number.
    F(u8),
    /// A character key.
    Char(char),
    /// Any other key.
    Other,
}

/// The modifier keys that are held down while a key is pressed.
#[derive(Debug, Copy, Clone, PartialEq, Eq, Structural)]
pub struct KeyModifiers {
    pub shift: bool,
    pub control: bool,
    pub alt: bool,
    /// Any modifier other than shift, control and alt.
    pub other: bool,
}

impl KeyModifiers {
    /// No modifier.
    pub open spec fn spec_empty() -> KeyModifiers {
        KeyModifiers { shift: false, control: false, alt: false, other: false }
    }

    /// Control and no other modifier.
    pub open spec fn spec_control() -> KeyModifiers {
        KeyModifiers { shift: false, control: true, alt: false, other: false }
    }

    /// No modifier.
    #[verifier::when_used_as_spec(spec_empty)]
    pub fn empty() -> (r: KeyModifiers)
        ensures
            r == KeyModifiers::spec_empty(),
    {
        KeyModifiers { shift: false, control: false, alt: false, other: false }
    }

    /// Control and no other modifier.
    #[verifier::when_used_as_spec(spec_control)]
    pub fn control() -> (r: KeyModifiers)
        ensures
            r == KeyModifiers::spec_control(),
    {
        KeyModifiers { shift: false, control: true, alt: false, other: false }
    }

    /// Whether control is held down and no other modifier.
    pub fn only_control(&self) -> (r: bool)
        ensures
            r == self.is_control(),
    {
        self.control && !self.shift && !self.alt && !self.other
    }

    /// Control is held down and no other modifier.
    pub open spec fn is_control(self) -> bool {
        self.control && !self.shift && !self.alt && !self.other
    }
}

/// A key press.
#[derive(Debug, Copy, Clone, PartialEq, Eq, Structural)]
pub struct KeyEvent {
    pub code: KeyCode,
    pub modifiers: KeyModifiers,
}

impl KeyEvent {
    pub fn new(code: KeyCode, modifiers: KeyModifiers) -> (r: KeyEvent)
        ensures
            r == (KeyEvent { code, modifiers }),
    {
        KeyEvent { code, modifiers }
    }
}

/// What the main loop receives.
pub enum Event {
    /// A key was pressed.
    Key(KeyEvent),
    /// The screen is due to be drawn.
    Render,
    /// A power command is ready to be run.
    PowerCommand(PowerCommand),
    /// The application was asked to exit.
    Exit(AuthStatus),
}

/// What a transition asks its surroundings to do. The actions of one
/// transition are carried out in order.
pub enum Action {
    /// Queue a request for the daemon.
    Send(Request),
    /// Tell the daemon at once, past the queue, that the session is
    /// cancelled. A failure to do so is ignored.
    Cancel,
    /// Open a new connection to the daemon.
    Connect,
    /// Post the event that ends the application.
    Exit(AuthStatus),
    /// Post the event that runs a power command.
    Power(PowerCommand),
    /// Look up the session that the user launched last, and hand it to
    /// `restore_user_session`.
    LoadUserSession { username: String },
    /// Remember the user, with the full name if there is one.
    WriteLastUsername { username: String, name: Option<String> },
    /// Remember the free-form command that the user launched.
    WriteLastUserCommand { username: String, command: String },
    /// Forget the session file that the user launched.
    DeleteLastUserSession { username: String },
    /// Remember the session file that the user launched.
    WriteLastUserSession { username: String, path: String },
    /// Forget the free-form command that the user launched.
    DeleteLastUserCommand { username: String },
    /// Remember the command that was launched.
    WriteLastCommand { command: String },
    /// Forget the session file that was launched.
    DeleteLastSession,
    /// Remember the session file that was launched.
    WriteLastSessionPath { path: String },
}

/// The mathematical content of an [`Action`].
pub enum ActionView {
    Send(RequestView),
    Cancel,
    Connect,
    Exit(AuthStatus),
    Power(PowerCommandView),
    LoadUserSession { username: Seq<char> },
    WriteLastUsername { username: Seq<char>, name: Option<Seq<char>> },
    WriteLastUserCommand { username: Seq<char>, command: Seq<char> },
    DeleteLastUserSession { username: Seq<char> },
    WriteLastUserSession { username: Seq<char>, path: Seq<char> },
    DeleteLastUserCommand { username: Seq<char> },
    WriteLastCommand { command: Seq<char> },
    DeleteLastSession,
    WriteLastSessionPath { path: Seq<char> },
}

impl View for Action {
    type V = ActionView;

    open spec fn view(&self) -> ActionView {
        match self {
            Action::Send(request) => ActionView::Send(request@),
            Action::Cancel => ActionView::Cancel,
            Action::Connect => ActionView::Connect,
            Action::Exit(status) => ActionView::Exit(*status),
            Action::Power(command) => ActionView::Power(command@),
            Action::LoadUserSession { username } => ActionView::LoadUserSession {
                username: username@,
            },
            Action::WriteLastUsername { username, name } => ActionView::WriteLastUsername {
                username: username@,
                name: name.deep_view(),
            },
            Action::WriteLastUserCommand { username, command } => ActionView::WriteLastUserCommand {
                username: username@,
                command: command@,
            },
            Action::DeleteLastUserSession { username } => ActionView::DeleteLastUserSession {
                username: username@,
            },
            Action::WriteLastUserSession { username, path } => ActionView::WriteLastUserSession {
                username: username@,
                path: path@,
            },
            Action::DeleteLastUserCommand { username } => ActionView::DeleteLastUserCommand {
                username: username@,
            },
            Action::WriteLastCommand { command } => ActionView::WriteLastCommand {
                command: command@,
            },
            Action::DeleteLastSession => ActionView::DeleteLastSession,
            Action::WriteLastSessionPath { path } => ActionView::WriteLastSessionPath { path: path@ },
        }
    }
}

impl DeepView for Action {
    type V = ActionView;

    open spec fn deep_view(&self) -> ActionView {
        self@
    }
}

/// Whether a list of actions queues a request for the daemon.
pub open spec fn sends(actions: Seq<ActionView>) -> bool {
    exists|i: int| 0 <= i < actions.len() && #[trigger] actions[i] is Send
}

} // verus!
