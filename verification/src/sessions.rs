//! Selectable sessions and the source of the command that is launched.

use vstd::prelude::*;
use vstd::string::*;

use crate::greeter::{content, Greeter};
use crate::menu::MenuItem;
use crate::text::clone_option;

verus! {

/// How the command to launch is determined: not at all, by a free-form
/// command, or by the index of a session in the list of sessions.
pub enum SessionSource {
    Unset,
    Command(String),
    Session(usize),
}

/// The mathematical content of a [`SessionSource`].
pub enum SessionSourceView {
    Unset,
    Command(Seq<char>),
    Session(usize),
}

impl View for SessionSource {
    type V = SessionSourceView;

    open spec fn view(&self) -> SessionSourceView {
        match self {
            SessionSource::Unset => SessionSourceView::Unset,
            SessionSource::Command(command) => SessionSourceView::Command(command@),
            SessionSource::Session(index) => SessionSourceView::Session(*index),
        }
    }
}

impl DeepView for SessionSource {
    type V = SessionSourceView;

    open spec fn deep_view(&self) -> SessionSourceView {
        self@
    }
}

impl Default for SessionSource {
    fn default() -> (r: SessionSource)
        ensures
            r@ == SessionSourceView::Unset,
    {
        SessionSource::Unset
    }
}

impl SessionSourceView {
    /// The human-readable label of the selection: the command itself for a
    /// free-form command, the name of the session for an index into
    /// `sessions`; nothing where there is no selection or the index is out
    /// of range.
    pub open spec fn label(self, sessions: Seq<SessionView>) -> Option<Seq<char>> {
        match self {
            SessionSourceView::Unset => None,
            SessionSourceView::Command(command) => Some(command),
            SessionSourceView::Session(index) => if index < sessions.len() {
                Some(sessions[index as int].name)
            } else {
                None
            },
        }
    }

    /// The command to execute for the selection: the command itself for a
    /// free-form command, the command of the session for an index into
    /// `sessions`; nothing where there is no selection or the index is out
    /// of range.
    pub open spec fn command(self, sessions: Seq<SessionView>) -> Option<Seq<char>> {
        match self {
            SessionSourceView::Unset => None,
            SessionSourceView::Command(command) => Some(command),
            SessionSourceView::Session(index) => if index < sessions.len() {
                Some(sessions[index as int].command)
            } else {
                None
            },
        }
    }

    /// The session that is selected, where the selection is an index within
    /// `sessions`.
    pub open spec fn selected(self, sessions: Seq<SessionView>) -> Option<SessionView> {
        match self {
            SessionSourceView::Session(index) => if index < sessions.len() {
                Some(sessions[index as int])
            } else {
                None
            },
            _ => None,
        }
    }
}

impl SessionSource {
    /// Returns a human-readable label for the selected session.
    pub fn label<'g, 'ss: 'g>(&'ss self, greeter: &'g Greeter) -> (r: Option<&'g str>)
        ensures
            r.deep_view() == self@.label(greeter@.sessions.options),
    {
        proof { reveal(content); }
        match self {
            SessionSource::Unset => None,
            SessionSource::Command(command) => Some(command.as_str()),
            SessionSource::Session(index) => {
                if *index < greeter.sessions.options.len() {
                    Some(greeter.sessions.options[*index].name.as_str())
                } else {
                    None
                }
            },
        }
    }

    /// Returns the command that is spawned when the selected session is
    /// started.
    pub fn command<'g, 'ss: 'g>(&'ss self, greeter: &'g Greeter) -> (r: Option<&'g str>)
        ensures
            r.deep_view() == self@.command(greeter@.sessions.options),
    {
        proof { reveal(content); }
        match self {
            SessionSource::Unset => None,
            SessionSource::Command(command) => Some(command.as_str()),
            SessionSource::Session(index) => {
                if *index < greeter.sessions.options.len() {
                    Some(greeter.sessions.options[*index].command.as_str())
                } else {
                    None
                }
            },
        }
    }

    /// An independent copy.
    pub fn duplicate(&self) -> (r: SessionSource)
        ensures
            r@ == self@,
    {
        match self {
            SessionSource::Unset => SessionSource::Unset,
            SessionSource::Command(command) => SessionSource::Command(command.clone()),
            SessionSource::Session(index) => SessionSource::Session(*index),
        }
    }
}

/// The kind of a session, as the desktop environment distinguishes them.
#[derive(Debug, Copy, Clone, PartialEq, Eq, Structural)]
pub enum SessionType {
    X11,
    Wayland,
    Tty,
    Unspecified,
}

impl View for SessionType {
    type V = SessionType;

    open spec fn view(&self) -> SessionType {
        *self
    }
}

impl DeepView for SessionType {
    type V = SessionType;

    open spec fn deep_view(&self) -> SessionType {
        *self
    }
}

impl Default for SessionType {
    fn default() -> (r: SessionType)
        ensures
            r == SessionType::Unspecified,
    {
        SessionType::Unspecified
    }
}

impl SessionType {
    /// The value of `XDG_SESSION_TYPE` for a session of this kind.
    pub open spec fn xdg_name(self) -> Seq<char> {
        match self {
            SessionType::X11 => "x11"@,
            SessionType::Wayland => "wayland"@,
            SessionType::Tty => "tty"@,
            SessionType::Unspecified => "unspecified"@,
        }
    }

    /// Returns the value that is set in `XDG_SESSION_TYPE` when the session
    /// is started.
    pub fn as_xdg_session_type(&self) -> (r: &'static str)
        ensures
            r@ == self.xdg_name(),
    {
        match self {
            SessionType::X11 => "x11",
            SessionType::Wayland => "wayland",
            SessionType::Tty => "tty",
            SessionType::Unspecified => "unspecified",
        }
    }
}

/// A session, as a session file describes it.
pub struct Session {
    /// Name of the session file without its extension.
    pub slug: Option<String>,
    /// Human-friendly name of the session.
    pub name: String,
    /// Command that starts the session.
    pub command: String,
    /// Kind of the session, from the location of the session file.
    pub session_type: SessionType,
    /// Path of the session file. It identifies the session: names and
    /// commands may be the same in two sessions.
    pub path: Option<String>,
    /// Desktop names, a list separated by semicolons.
    pub xdg_desktop_names: Option<String>,
}

/// The mathematical content of a [`Session`].
pub struct SessionView {
    pub slug: Option<Seq<char>>,
    pub name: Seq<char>,
    pub command: Seq<char>,
    pub session_type: SessionType,
    pub path: Option<Seq<char>>,
    pub xdg_desktop_names: Option<Seq<char>>,
}

impl View for Session {
    type V = SessionView;

    open spec fn view(&self) -> SessionView {
        SessionView {
            slug: self.slug.deep_view(),
            name: self.name@,
            command: self.command@,
            session_type: self.session_type,
            path: self.path.deep_view(),
            xdg_desktop_names: self.xdg_desktop_names.deep_view(),
        }
    }
}

impl DeepView for Session {
    type V = SessionView;

    open spec fn deep_view(&self) -> SessionView {
        self@
    }
}

impl Default for Session {
    fn default() -> (r: Session)
        ensures
            r@ == (SessionView {
                slug: None,
                name: Seq::empty(),
                command: Seq::empty(),
                session_type: SessionType::Unspecified,
                path: None,
                xdg_desktop_names: None,
            }),
    {
        Session {
            slug: None,
            name: String::new(),
            command: String::new(),
            session_type: SessionType::Unspecified,
            path: None,
            xdg_desktop_names: None,
        }
    }
}

impl MenuItem for Session {
    open spec fn label(&self) -> Seq<char> {
        self.name@
    }

    fn format(&self) -> (r: String) {
        self.name.clone()
    }
}

/// Whether `path` is the path of the session.
pub open spec fn has_path(session: SessionView, path: Seq<char>) -> bool {
    session.path == Some(path)
}

/// The index of the first session of `sessions` whose path is `path`.
pub fn find_path(sessions: &Vec<Session>, path: &str) -> (r: Option<usize>)
    ensures
        match r {
            Some(index) => {
                &&& index < sessions.len()
                &&& has_path(sessions[index as int]@, path@)
                &&& forall|j: int| 0 <= j < index ==> !has_path(#[trigger] sessions[j]@, path@)
            },
            None => forall|j: int| 0 <= j < sessions.len() ==> !has_path(#[trigger] sessions[j]@, path@),
        },
{
    let mut i: usize = 0;
    while i < sessions.len()
        invariant
            i <= sessions.len(),
            forall|j: int| 0 <= j < i ==> !has_path(#[trigger] sessions[j]@, path@),
        decreases sessions.len() - i,
    {
        let found = match &sessions[i].path {
            Some(own) => crate::text::same_text(own.as_str(), path),
            None => false,
        };
        if found {
            return Some(i);
        }
        i += 1;
    }
    None
}

impl Session {
    /// Gets the session whose session file is at `path`: the first one in the
    /// list of the greeter, or nothing if no session has that path.
    pub fn from_path<'g>(greeter: &'g Greeter, path: &str) -> (r: Option<&'g Session>)
        ensures
            match r {
                Some(session) => exists|i: int|
                    {
                        &&& 0 <= i < greeter.sessions.options.len()
                        &&& *session == #[trigger] greeter.sessions.options[i]
                        &&& has_path(session@, path@)
                        &&& forall|j: int|
                            0 <= j < i ==> !has_path(#[trigger] greeter.sessions.options[j]@, path@)
                    },
                None => forall|j: int|
                    0 <= j < greeter.sessions.options.len() ==> !has_path(
                        #[trigger] greeter.sessions.options[j]@,
                        path@,
                    ),
            },
    {
        proof { reveal(content); }
        match find_path(&greeter.sessions.options, path) {
            Some(index) => Some(&greeter.sessions.options[index]),
            None => None,
        }
    }

    /// Retrieves the session that is selected as the source of the command.
    /// This is not the menu entry that is highlighted.
    pub fn get_selected(greeter: &Greeter) -> (r: Option<&Session>)
        ensures
            r.deep_view() == greeter@.session_source.selected(greeter@.sessions.options),
    {
        proof { reveal(content); }
        match greeter.session_source {
            SessionSource::Session(index) => {
                if index < greeter.sessions.options.len() {
                    Some(&greeter.sessions.options[index])
                } else {
                    None
                }
            },
            _ => None,
        }
    }

    /// An independent copy.
    pub fn duplicate(&self) -> (r: Session)
        ensures
            r@ == self@,
    {
        Session {
            slug: clone_option(&self.slug),
            name: self.name.clone(),
            command: self.command.clone(),
            session_type: self.session_type,
            path: clone_option(&self.path),
            xdg_desktop_names: clone_option(&self.xdg_desktop_names),
        }
    }
}

} // verus!
