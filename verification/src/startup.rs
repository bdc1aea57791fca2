//! How the application begins: from the settings, the sessions that were
//! found, and what was remembered from the last login.

use vstd::prelude::*;
use vstd::string::*;

use crate::config::file::FileConfig;
use crate::config::options::CommandLine;
use crate::config::parser::ConfigError;
use crate::greeter::{content, lemma_fields, Greeter, GreeterView, Messages};
use crate::info::{get_last_user_name, get_last_user_username, remembered_value, System};
use crate::keyboard::{select_by_path, select_command};
use crate::masked::{MaskedString, MaskedStringView};
use crate::menu::{Menu, MenuView};
use crate::sessions::{Session, SessionSource, SessionSourceView, SessionView};
use crate::text::{spec_trim, trim};

verus! {

impl GreeterView {
    /// The state with the settings and the texts of an application, before
    /// the settings are applied: the power menu has its title.
    pub open spec fn prepared(self, opts: CommandLine, config: FileConfig, messages: Messages) -> GreeterView {
        GreeterView {
            opts,
            config,
            messages,
            powers: MenuView { title: messages.title_power@, ..self.powers },
            ..self
        }
    }

    /// The state after the sessions that were found were taken in: they
    /// fill the session menu, and the first of them is selected unless
    /// something is selected already.
    pub open spec fn sessions_loaded(self, sessions: Seq<SessionView>) -> GreeterView {
        GreeterView {
            session_source: if self.session_source == SessionSourceView::Unset && sessions.len() > 0 {
                SessionSourceView::Session(0)
            } else {
                self.session_source
            },
            sessions: MenuView { title: self.messages.title_session@, options: sessions, selected: 0 },
            ..self
        }
    }

    /// The user who is remembered, where the last user is to be remembered
    /// and one was written down.
    pub open spec fn remembered_user(self, username: Option<Seq<char>>) -> Option<Seq<char>> {
        if self.remember {
            remembered_value(username)
        } else {
            None
        }
    }

    /// The state after the user who logged in last was taken in, with the
    /// full name if it was written down. `username` and `name` are what was
    /// written down, if anything.
    pub open spec fn user_restored(self, username: Option<Seq<char>>, name: Option<Seq<char>>) -> GreeterView {
        match self.remembered_user(username) {
            Some(value) => GreeterView {
                username: MaskedStringView { value, mask: remembered_value(name) },
                ..self
            },
            None => self,
        }
    }

    /// The name under which the session of the remembered user is looked
    /// up, where the last session of each user is to be remembered and a
    /// user is remembered: the name that is displayed for the user.
    pub open spec fn user_session_key(self, username: Option<Seq<char>>, name: Option<Seq<char>>) -> Option<
        Seq<char>,
    > {
        if self.remembered_user(username) is Some && self.remember_user_session {
            Some(self.user_restored(username, name).username.get())
        } else {
            None
        }
    }

    /// The state after the session that was launched last was taken in.
    /// `command` and `path` are what was written down, if anything; white
    /// space around them does not count. A command is selected; a session
    /// file that is still in the list is selected in any case, and wins
    /// over the command.
    pub open spec fn session_restored(self, command: Option<Seq<char>>, path: Option<Seq<char>>) -> GreeterView {
        let with_command = match command {
            Some(command) => GreeterView {
                session_source: SessionSourceView::Command(spec_trim(command)),
                ..self
            },
            None => self,
        };
        match path {
            Some(path) => with_command.session_selected_by_path(spec_trim(path)),
            None => with_command,
        }
    }

    /// The state after the session that anybody launched last was taken in,
    /// where it is to be remembered.
    pub open spec fn last_session_restored(self, command: Option<Seq<char>>, path: Option<Seq<char>>) -> GreeterView {
        if self.remember_session {
            self.session_restored(command, path)
        } else {
            self
        }
    }
}

impl Greeter {
    /// Puts the settings and the texts in place.
    fn prepare(&mut self, opts: CommandLine, config: FileConfig, messages: Messages)
        ensures
            final(self)@ == old(self)@.prepared(opts, config, messages),
    {
        proof {
            reveal(content);
        }
        self.powers.title = messages.title_power.clone();
        self.opts = opts;
        self.config = config;
        self.messages = messages;
    }

    /// Makes the state of an application from its settings: the command
    /// line, the configuration file, the texts in the language of the user,
    /// and what was read from the system.
    ///
    /// Settings that cannot be used together give an error.
    pub fn new(opts: CommandLine, config: FileConfig, messages: Messages, system: &System) -> (r: Result<
        Greeter,
        ConfigError,
    >)
        ensures
            match r {
                Ok(greeter) => exists|fresh: GreeterView, themed: GreeterView|
                    {
                        &&& fresh.is_fresh()
                        &&& fresh.prepared(opts, config, messages).config_error(*system) is None
                        &&& #[trigger] fresh.prepared(opts, config, messages).is_themed(themed)
                        &&& greeter@ == themed.config_parsed(*system)
                    },
                Err(error) => exists|fresh: GreeterView|
                    {
                        &&& fresh.is_fresh()
                        &&& #[trigger] fresh.prepared(opts, config, messages).config_error(*system) == Some(
                            error@,
                        )
                    },
            },
    {
        let mut greeter = Greeter::default();
        let ghost fresh = greeter@;
        greeter.prepare(opts, config, messages);
        match greeter.parse_config(system) {
            Ok(_) => Ok(greeter),
            Err(error) => Err(error),
        }
    }

    /// Takes in the sessions that were found on the system.
    pub fn set_sessions(&mut self, sessions: Vec<Session>)
        ensures
            final(self)@ == old(self)@.sessions_loaded(sessions.deep_view()),
    {
        proof {
            reveal(content);
        }
        let first = match self.session_source {
            SessionSource::Unset => sessions.len() > 0,
            _ => false,
        };
        assert(sessions.deep_view().len() == sessions@.len());
        let source = if first {
            SessionSource::Session(0)
        } else {
            self.session_source.duplicate()
        };
        let menu = Menu { title: self.messages.title_session.clone(), options: sessions, selected: 0 };
        self.session_source = source;
        self.sessions = menu;
    }

    /// Takes in the user who logged in last, as it was written down, and
    /// returns the name under which the last session of that user is to be
    /// looked up, if it is.
    pub fn restore_user(&mut self, username: &Option<String>, name: &Option<String>) -> (key: Option<
        String,
    >)
        ensures
            final(self)@ == old(self)@.user_restored(username.deep_view(), name.deep_view()),
            key.deep_view() == old(self)@.user_session_key(username.deep_view(), name.deep_view()),
    {
        proof {
            lemma_fields(*self);
        }
        if !self.remember {
            return None;
        }
        match get_last_user_username(username) {
            Some(value) => {
                let user = MaskedString::from(value, get_last_user_name(name));
                let key = if self.remember_user_session {
                    Some(String::from_str(user.get()))
                } else {
                    None
                };
                self.set_username(user);
                key
            },
            None => None,
        }
    }

    /// Takes in the session that was launched last, as it was written down:
    /// a free-form command, the path of a session file, or both.
    pub fn restore_session(&mut self, command: &Option<String>, path: &Option<String>)
        ensures
            final(self)@ == old(self)@.session_restored(command.deep_view(), path.deep_view()),
    {
        if let Some(command) = command {
            select_command(self, String::from_str(trim(command.as_str())));
        }
        if let Some(path) = path {
            select_by_path(self, trim(path.as_str()));
        }
    }

    /// Takes in the session that anybody launched last, where it is to be
    /// remembered.
    pub fn restore_last_session(&mut self, command: &Option<String>, path: &Option<String>)
        ensures
            final(self)@ == old(self)@.last_session_restored(command.deep_view(), path.deep_view()),
    {
        proof {
            lemma_fields(*self);
        }
        if self.remember_session {
            self.restore_session(command, path);
        }
    }
}

} // verus!
