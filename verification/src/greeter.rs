//! The application state and the operations that wipe and reset it.

use vstd::prelude::*;
use vstd::string::*;

use crate::config::file::FileConfig;
use crate::config::options::CommandLine;
use crate::masked::{zeroize_option, zeroize_string, MaskedString, MaskedStringView};
use crate::menu::{Menu, MenuView};
use crate::power::{Power, PowerView};
use crate::sessions::{Session, SessionSource, SessionSourceView, SessionType, SessionView};
use crate::style::{Theme, ThemeView};
use crate::users::{User, UserView};

verus! {

/// Why the greeter exits.
#[derive(Debug, Copy, Clone, PartialEq, Eq, Structural)]
pub enum AuthStatus {
    Success,
    Failure,
    Cancel,
}

impl AuthStatus {
    /// The name of the status.
    pub fn name(&self) -> (r: &'static str)
        ensures
            r@ == match self {
                AuthStatus::Success => "Success"@,
                AuthStatus::Failure => "Failure"@,
                AuthStatus::Cancel => "Cancel"@,
            },
    {
        match self {
            AuthStatus::Success => "Success",
            AuthStatus::Failure => "Failure",
            AuthStatus::Cancel => "Cancel",
        }
    }
}

/// A mode is a large section of the application, usually a screen.
#[derive(Debug, Copy, Clone, PartialEq, Eq, Structural)]
pub enum Mode {
    Username,
    Password,
    Action,
    Users,
    Command,
    Sessions,
    Power,
    Processing,
}

impl Default for Mode {
    fn default() -> (r: Mode)
        ensures
            r == Mode::Username,
    {
        Mode::Username
    }
}

impl Mode {
    /// A popup is a transient screen, opened over another mode to which the
    /// application returns when the popup is closed.
    pub open spec fn is_popup(self) -> bool {
        self == Mode::Users || self == Mode::Command || self == Mode::Sessions || self
            == Mode::Power
    }

    /// Whether the mode is a popup.
    pub fn popup(&self) -> (r: bool)
        ensures
            r == self.is_popup(),
    {
        match self {
            Mode::Users | Mode::Command | Mode::Sessions | Mode::Power => true,
            _ => false,
        }
    }

    /// Whether the mode has a text field that the keyboard edits.
    pub open spec fn is_entry(self) -> bool {
        self == Mode::Username || self == Mode::Password || self == Mode::Command
    }
}

/// How secret values are displayed.
pub enum SecretDisplay {
    /// All characters are hidden.
    Hidden,
    /// Each character is replaced by a character of the given pool.
    Character(String),
}

/// The mathematical content of a [`SecretDisplay`].
pub enum SecretDisplayView {
    Hidden,
    Character(Seq<char>),
}

impl View for SecretDisplay {
    type V = SecretDisplayView;

    open spec fn view(&self) -> SecretDisplayView {
        match self {
            SecretDisplay::Hidden => SecretDisplayView::Hidden,
            SecretDisplay::Character(pool) => SecretDisplayView::Character(pool@),
        }
    }
}

impl Default for SecretDisplay {
    fn default() -> (r: SecretDisplay)
        ensures
            r@ == SecretDisplayView::Hidden,
    {
        SecretDisplay::Hidden
    }
}

impl SecretDisplay {
    /// Whether anything is shown for a secret.
    pub fn show(&self) -> (r: bool)
        ensures
            r == (self@ != SecretDisplayView::Hidden),
    {
        match self {
            SecretDisplay::Hidden => false,
            SecretDisplay::Character(_) => true,
        }
    }
}

/// How the greeting is aligned.
#[derive(Debug, Copy, Clone, PartialEq, Eq, Structural)]
pub enum GreetAlign {
    Center,
    Left,
    Right,
}

impl Default for GreetAlign {
    fn default() -> (r: GreetAlign)
        ensures
            r == GreetAlign::Center,
    {
        GreetAlign::Center
    }
}

/// The texts that the state machine shows to the user, in the language of
/// the user.
pub struct Messages {
    /// Shown after an authentication failure.
    pub failed: String,
    /// Shown when authentication succeeded and there is no command to run.
    pub command_missing: String,
    /// Shown before the exit status of a power command that failed.
    pub command_exited: String,
    /// Shown before the error of a power command that could not be run.
    pub command_failed: String,
    pub title_power: String,
    pub title_session: String,
    pub title_users: String,
    pub shutdown: String,
    pub reboot: String,
}

impl Default for Messages {
    fn default() -> (r: Messages)
        ensures
            r.failed@ == "Authentication failed, please try again."@,
            r.command_missing@ == "No command configured"@,
            r.command_exited@ == "Command exited with"@,
            r.command_failed@ == "Failed to execute command"@,
            r.title_power@ == "Power options"@,
            r.title_session@ == "Change session"@,
            r.title_users@ == "Select a user"@,
            r.shutdown@ == "Shut down"@,
            r.reboot@ == "Reboot"@,
    {
        Messages {
            failed: String::from_str("Authentication failed, please try again."),
            command_missing: String::from_str("No command configured"),
            command_exited: String::from_str("Command exited with"),
            command_failed: String::from_str("Failed to execute command"),
            title_power: String::from_str("Power options"),
            title_session: String::from_str("Change session"),
            title_users: String::from_str("Select a user"),
            shutdown: String::from_str("Shut down"),
            reboot: String::from_str("Reboot"),
        }
    }
}

/// The state of the application.
pub struct Greeter {
    /// The command line.
    pub opts: CommandLine,
    /// The configuration file.
    pub config: FileConfig,
    /// The texts shown to the user.
    pub messages: Messages,
    pub debug: bool,
    pub logfile: String,
    /// Path of the socket of the daemon.
    pub socket: String,
    /// Current mode of the application: it defines what actions are
    /// permitted.
    pub mode: Mode,
    /// Mode the application returns to when it leaves the current mode.
    pub previous_mode: Mode,
    /// Position of the cursor, counted in characters from the end of the text
    /// that is edited: never positive.
    pub cursor_offset: i16,
    /// The buffer as it was when a transient screen took it over.
    pub previous_buffer: Option<String>,
    /// Temporary editing zone of the various modes.
    pub buffer: String,
    /// The selected session and how to resolve it.
    pub session_source: SessionSource,
    /// Environment given together with the default command.
    pub default_env: Option<Vec<String>>,
    /// Directories in which session files are looked for.
    pub session_paths: Vec<(String, SessionType)>,
    /// Menu for session selection.
    pub sessions: Menu<Session>,
    /// Wrapper command to prepend to non-X11 sessions.
    pub session_wrapper: Option<String>,
    /// Wrapper command to prepend to X11 sessions.
    pub xsession_wrapper: Option<String>,
    /// Whether the user menu is enabled.
    pub user_menu: bool,
    /// Menu for user selection.
    pub users: Menu<User>,
    /// Current username, masked by the full name where it is known.
    pub username: MaskedString,
    /// Prompt that the daemon asked to display.
    pub prompt: Option<String>,
    /// Whether the answer to the current prompt is a secret.
    pub asking_for_secret: bool,
    /// How secrets are displayed.
    pub secret_display: SecretDisplay,
    /// Whether the last user to log in is remembered.
    pub remember: bool,
    /// Whether the last session, whoever launched it, is remembered.
    pub remember_session: bool,
    /// Whether the last session of each user is remembered.
    pub remember_user_session: bool,
    /// Colors of the user interface.
    pub theme: Theme,
    /// Whether the current time is displayed.
    pub time: bool,
    /// Format of the time.
    pub time_format: Option<String>,
    /// Greeting shown above the prompt.
    pub greeting: Option<String>,
    /// Message about the current transaction.
    pub message: Option<String>,
    /// Menu for power options.
    pub powers: Menu<Power>,
    /// Whether power commands are prefixed with `setsid`.
    pub power_setsid: bool,
    /// Number of the function key that opens the command screen.
    pub kb_command: u8,
    /// Number of the function key that opens the session menu.
    pub kb_sessions: u8,
    /// Number of the function key that opens the power menu.
    pub kb_power: u8,
    /// A request for the daemon was queued and its response is awaited.
    pub working: bool,
    /// The start of the session has been requested.
    pub done: bool,
    /// Set when the application has to exit. It is final.
    pub exit: Option<AuthStatus>,
}

/// The mathematical content of a [`Greeter`]. The settings that no
/// transition changes are kept as they are.
pub struct GreeterView {
    pub opts: CommandLine,
    pub config: FileConfig,
    pub messages: Messages,
    pub debug: bool,
    pub logfile: Seq<char>,
    pub socket: Seq<char>,
    pub mode: Mode,
    pub previous_mode: Mode,
    pub cursor_offset: i16,
    pub previous_buffer: Option<Seq<char>>,
    pub buffer: Seq<char>,
    pub session_source: SessionSourceView,
    pub default_env: Option<Seq<Seq<char>>>,
    pub session_paths: Seq<(Seq<char>, SessionType)>,
    pub sessions: MenuView<SessionView>,
    pub session_wrapper: Option<Seq<char>>,
    pub xsession_wrapper: Option<Seq<char>>,
    pub user_menu: bool,
    pub users: MenuView<UserView>,
    pub username: MaskedStringView,
    pub prompt: Option<Seq<char>>,
    pub asking_for_secret: bool,
    pub secret_display: SecretDisplayView,
    pub remember: bool,
    pub remember_session: bool,
    pub remember_user_session: bool,
    pub theme: Theme,
    pub time: bool,
    pub time_format: Option<Seq<char>>,
    pub greeting: Option<Seq<char>>,
    pub message: Option<Seq<char>>,
    pub powers: MenuView<PowerView>,
    pub power_setsid: bool,
    pub kb_command: u8,
    pub kb_sessions: u8,
    pub kb_power: u8,
    pub working: bool,
    pub done: bool,
    pub exit: Option<AuthStatus>,
}

/// The mathematical content of a state.
#[verifier::opaque]
pub open spec fn content(g: Greeter) -> GreeterView {
    GreeterView {
        opts: g.opts,
        config: g.config,
        messages: g.messages,
        debug: g.debug,
        logfile: g.logfile@,
        socket: g.socket@,
        mode: g.mode,
        previous_mode: g.previous_mode,
        cursor_offset: g.cursor_offset,
        previous_buffer: g.previous_buffer.deep_view(),
        buffer: g.buffer@,
        session_source: g.session_source@,
        default_env: g.default_env.deep_view(),
        session_paths: g.session_paths.deep_view(),
        sessions: g.sessions@,
        session_wrapper: g.session_wrapper.deep_view(),
        xsession_wrapper: g.xsession_wrapper.deep_view(),
        user_menu: g.user_menu,
        users: g.users@,
        username: g.username@,
        prompt: g.prompt.deep_view(),
        asking_for_secret: g.asking_for_secret,
        secret_display: g.secret_display@,
        remember: g.remember,
        remember_session: g.remember_session,
        remember_user_session: g.remember_user_session,
        theme: g.theme,
        time: g.time,
        time_format: g.time_format.deep_view(),
        greeting: g.greeting.deep_view(),
        message: g.message.deep_view(),
        powers: g.powers@,
        power_setsid: g.power_setsid,
        kb_command: g.kb_command,
        kb_sessions: g.kb_sessions,
        kb_power: g.kb_power,
        working: g.working,
        done: g.done,
        exit: g.exit,
    }
}

impl View for Greeter {
    type V = GreeterView;

    open spec fn view(&self) -> GreeterView {
        content(*self)
    }
}

/// The plain fields of a state are the same in its content.
pub proof fn lemma_fields(g: Greeter)
    ensures
        g@.opts == g.opts,
        g@.config == g.config,
        g@.mode == g.mode,
        g@.previous_mode == g.previous_mode,
        g@.cursor_offset == g.cursor_offset,
        g@.previous_buffer == g.previous_buffer.deep_view(),
        g@.buffer == g.buffer@,
        g@.session_source == g.session_source@,
        g@.username == g.username@,
        g@.prompt == g.prompt.deep_view(),
        g@.message == g.message.deep_view(),
        g@.sessions.selected == g.sessions.selected,
        g@.users.selected == g.users.selected,
        g@.powers.selected == g.powers.selected,
        g@.messages == g.messages,
        g@.user_menu == g.user_menu,
        g@.asking_for_secret == g.asking_for_secret,
        g@.remember == g.remember,
        g@.remember_session == g.remember_session,
        g@.remember_user_session == g.remember_user_session,
        g@.power_setsid == g.power_setsid,
        g@.kb_command == g.kb_command,
        g@.kb_sessions == g.kb_sessions,
        g@.kb_power == g.kb_power,
        g@.working == g.working,
        g@.done == g.done,
        g@.exit == g.exit,
{
    reveal(content);
}

/// The settings of a state are the same in its content.
pub proof fn lemma_settings(g: Greeter)
    ensures
        g@.time_format == g.time_format.deep_view(),
        g@.session_wrapper == g.session_wrapper.deep_view(),
        g@.xsession_wrapper == g.xsession_wrapper.deep_view(),
        g@.session_paths == g.session_paths.deep_view(),
        g@.greeting == g.greeting.deep_view(),
        g@.secret_display == g.secret_display@,
{
    reveal(content);
}

/// The menus of a state are the same in its content.
pub proof fn lemma_menus(g: Greeter)
    ensures
        g@.sessions == g.sessions@,
        g@.users == g.users@,
        g@.powers == g.powers@,
        g@.sessions.options.len() == g.sessions.options@.len(),
        g@.users.options.len() == g.users.options@.len(),
        g@.powers.options.len() == g.powers.options@.len(),
{
    reveal(content);
}

/// The least offset that a cursor can have in a text of `len` characters: the
/// start of the text, or as far to the left as the offset can count.
pub open spec fn line_start(len: nat) -> int {
    if len <= 32768 {
        -(len as int)
    } else {
        -32768
    }
}

/// The offset within the text that is nearest to `offset`.
pub open spec fn clamp_offset(offset: int, len: nat) -> int {
    if offset > 0 {
        0
    } else if offset < line_start(len) {
        line_start(len)
    } else {
        offset
    }
}

impl GreeterView {
    /// The text that the keyboard edits in the current mode: the username in
    /// `Username` mode, the buffer in every other mode.
    pub open spec fn active(self) -> Seq<char> {
        if self.mode == Mode::Username {
            self.username.value
        } else {
            self.buffer
        }
    }

    /// The cursor is within the text that is edited: at its end or up to
    /// its length before the end.
    pub open spec fn cursor_in_range(self) -> bool {
        -(self.active().len() as int) <= self.cursor_offset as int <= 0
    }

    /// The position of the cursor, counted in characters from the start of
    /// the text that is edited.
    pub open spec fn cursor_index(self) -> int {
        self.active().len() + self.cursor_offset
    }

    /// The state with the cursor moved to the nearest position within the
    /// text that is edited.
    pub open spec fn clamp_cursor(self) -> GreeterView {
        GreeterView {
            cursor_offset: clamp_offset(self.cursor_offset as int, self.active().len()) as i16,
            ..self
        }
    }

    /// The state after a wipe: the buffer and the prompt are erased, the
    /// username too unless the wipe is `soft`, and the message if
    /// `scrub_message`.
    pub open spec fn scrub(self, scrub_message: bool, soft: bool) -> GreeterView {
        GreeterView {
            buffer: Seq::empty(),
            prompt: None,
            username: if soft {
                self.username
            } else {
                MaskedStringView::empty()
            },
            message: if scrub_message {
                None
            } else {
                self.message
            },
            ..self
        }
    }

    /// The state after a reset. A soft reset returns to the password prompt
    /// and keeps the username; a hard reset returns to the username prompt
    /// and erases the username. Either way nothing is in progress any more,
    /// and buffer, prompt and message are erased.
    pub open spec fn reset(self, soft: bool) -> GreeterView {
        let mode = if soft {
            Mode::Password
        } else {
            Mode::Username
        };
        (GreeterView { mode, previous_mode: mode, working: false, done: false, ..self }).scrub(
            true,
            soft,
        )
    }

    /// The state with the prompt set to `prompt`, followed by a space unless
    /// it ends with one.
    pub open spec fn set_prompt(self, prompt: Seq<char>) -> GreeterView {
        GreeterView { prompt: Some(spaced(prompt)), ..self }
    }

    /// The number of characters of the prompt: 0 without a prompt.
    pub open spec fn prompt_width(self) -> nat {
        match self.prompt {
            None => 0,
            Some(prompt) => prompt.len(),
        }
    }
}

/// The text, followed by a space unless it ends with one.
pub open spec fn spaced(text: Seq<char>) -> Seq<char> {
    if text.len() > 0 && text.last() == ' ' {
        text
    } else {
        text.push(' ')
    }
}

impl Messages {
    /// The texts in English.
    pub open spec fn is_english(self) -> bool {
        &&& self.failed@ == "Authentication failed, please try again."@
        &&& self.command_missing@ == "No command configured"@
        &&& self.command_exited@ == "Command exited with"@
        &&& self.command_failed@ == "Failed to execute command"@
        &&& self.title_power@ == "Power options"@
        &&& self.title_session@ == "Change session"@
        &&& self.title_users@ == "Select a user"@
        &&& self.shutdown@ == "Shut down"@
        &&& self.reboot@ == "Reboot"@
    }
}

impl GreeterView {
    /// The state of an application that has not been configured and on
    /// which nothing has happened: at the username prompt, with every text
    /// and every menu empty, nothing selected, every option off, and the
    /// function keys 2, 3 and 12 bound to the command screen, the session
    /// menu and the power menu.
    pub open spec fn is_fresh(self) -> bool {
        &&& self.opts.is_unset()
        &&& self.config.is_unset()
        &&& self.messages.is_english()
        &&& !self.debug
        &&& self.logfile == Seq::<char>::empty()
        &&& self.socket == Seq::<char>::empty()
        &&& self.mode == Mode::Username
        &&& self.previous_mode == Mode::Username
        &&& self.cursor_offset == 0
        &&& self.previous_buffer is None
        &&& self.buffer == Seq::<char>::empty()
        &&& self.session_source == SessionSourceView::Unset
        &&& self.default_env is None
        &&& self.session_paths == Seq::<(Seq<char>, SessionType)>::empty()
        &&& self.sessions == MenuView::<SessionView>::empty()
        &&& self.session_wrapper is None
        &&& self.xsession_wrapper is None
        &&& !self.user_menu
        &&& self.users == MenuView::<UserView>::empty()
        &&& self.username == MaskedStringView::empty()
        &&& self.prompt is None
        &&& !self.asking_for_secret
        &&& self.secret_display == SecretDisplayView::Hidden
        &&& !self.remember
        &&& !self.remember_session
        &&& !self.remember_user_session
        &&& self.theme@ == ThemeView::plain()
        &&& !self.time
        &&& self.time_format is None
        &&& self.greeting is None
        &&& self.message is None
        &&& self.powers == MenuView::<PowerView>::empty()
        &&& !self.power_setsid
        &&& self.kb_command == 2
        &&& self.kb_sessions == 3
        &&& self.kb_power == 12
        &&& !self.working
        &&& !self.done
        &&& self.exit is None
    }
}

impl Drop for Greeter {
    /// Erases every secret when the state is destroyed: the buffer, the
    /// prompt, the username and the message.
    fn drop(&mut self)
        ensures
            final(self)@ == old(self)@.scrub(true, false),
        opens_invariants none
        no_unwind
    {
        self.scrub(true, false);
    }
}

impl Default for Greeter {
    fn default() -> (r: Greeter)
        ensures
            r@.is_fresh(),
    {
        proof {
            reveal(content);
        }
        let session_paths: Vec<(String, SessionType)> = Vec::new();
        assert(session_paths.deep_view() =~= Seq::<(Seq<char>, SessionType)>::empty());
        Greeter {
            opts: CommandLine::default(),
            config: FileConfig::default(),
            messages: Messages::default(),
            debug: false,
            logfile: String::new(),
            socket: String::new(),
            mode: Mode::Username,
            previous_mode: Mode::Username,
            cursor_offset: 0,
            previous_buffer: None,
            buffer: String::new(),
            session_source: SessionSource::Unset,
            default_env: None,
            session_paths,
            sessions: Menu::default(),
            session_wrapper: None,
            xsession_wrapper: None,
            user_menu: false,
            users: Menu::default(),
            username: MaskedString::default(),
            prompt: None,
            asking_for_secret: false,
            secret_display: SecretDisplay::Hidden,
            remember: false,
            remember_session: false,
            remember_user_session: false,
            theme: Theme::default(),
            time: false,
            time_format: None,
            greeting: None,
            message: None,
            powers: Menu::default(),
            power_setsid: false,
            kb_command: 2,
            kb_sessions: 3,
            kb_power: 12,
            working: false,
            done: false,
            exit: None,
        }
    }
}

impl Greeter {
    /// Enters a mode.
    pub(crate) fn set_mode(&mut self, mode: Mode)
        ensures
            final(self)@ == (GreeterView { mode, ..old(self)@ }),
    {
        proof {
            reveal(content);
        }
        self.mode = mode;
    }

    /// Notes the mode to return to.
    pub(crate) fn set_previous_mode(&mut self, mode: Mode)
        ensures
            final(self)@ == (GreeterView { previous_mode: mode, ..old(self)@ }),
    {
        proof {
            reveal(content);
        }
        self.previous_mode = mode;
    }

    /// Moves the cursor.
    pub(crate) fn set_cursor(&mut self, offset: i16)
        ensures
            final(self)@ == (GreeterView { cursor_offset: offset, ..old(self)@ }),
    {
        proof {
            reveal(content);
        }
        self.cursor_offset = offset;
    }

    /// Replaces the buffer.
    pub(crate) fn set_buffer(&mut self, text: String)
        ensures
            final(self)@ == (GreeterView { buffer: text@, ..old(self)@ }),
    {
        proof {
            reveal(content);
        }
        self.buffer = text;
    }

    /// Replaces the saved buffer.
    pub(crate) fn set_previous_buffer(&mut self, text: Option<String>)
        ensures
            final(self)@ == (GreeterView { previous_buffer: text.deep_view(), ..old(self)@ }),
    {
        proof {
            reveal(content);
        }
        self.previous_buffer = text;
    }

    /// Replaces the username.
    pub(crate) fn set_username(&mut self, username: MaskedString)
        ensures
            final(self)@ == (GreeterView { username: username@, ..old(self)@ }),
    {
        proof {
            reveal(content);
        }
        self.username = username;
    }

    /// Replaces the login name and keeps the name that is displayed.
    pub(crate) fn set_username_value(&mut self, value: String)
        ensures
            final(self)@ == (GreeterView {
                username: MaskedStringView { value: value@, ..old(self)@.username },
                ..old(self)@
            }),
    {
        proof {
            reveal(content);
        }
        self.username.value = value;
    }

    /// Replaces the message.
    pub(crate) fn set_message(&mut self, message: Option<String>)
        ensures
            final(self)@ == (GreeterView { message: message.deep_view(), ..old(self)@ }),
    {
        proof {
            reveal(content);
        }
        self.message = message;
    }

    /// Replaces the prompt.
    pub(crate) fn set_prompt_text(&mut self, prompt: Option<String>)
        ensures
            final(self)@ == (GreeterView { prompt: prompt.deep_view(), ..old(self)@ }),
    {
        proof {
            reveal(content);
        }
        self.prompt = prompt;
    }

    /// Notes whether the answer that is asked for is a secret.
    pub(crate) fn set_asking_for_secret(&mut self, secret: bool)
        ensures
            final(self)@ == (GreeterView { asking_for_secret: secret, ..old(self)@ }),
    {
        proof {
            reveal(content);
        }
        self.asking_for_secret = secret;
    }

    /// Notes whether a response of the daemon is awaited.
    pub(crate) fn set_working(&mut self, working: bool)
        ensures
            final(self)@ == (GreeterView { working, ..old(self)@ }),
    {
        proof {
            reveal(content);
        }
        self.working = working;
    }

    /// Notes whether the start of the session has been requested.
    pub(crate) fn set_done(&mut self, done: bool)
        ensures
            final(self)@ == (GreeterView { done, ..old(self)@ }),
    {
        proof {
            reveal(content);
        }
        self.done = done;
    }

    /// Replaces the selection.
    pub(crate) fn set_session_source(&mut self, source: SessionSource)
        ensures
            final(self)@ == (GreeterView { session_source: source@, ..old(self)@ }),
    {
        proof {
            reveal(content);
        }
        self.session_source = source;
    }

    /// Highlights an entry of the session menu.
    pub(crate) fn set_selected_session(&mut self, selected: usize)
        ensures
            final(self)@ == (GreeterView {
                sessions: MenuView { selected, ..old(self)@.sessions },
                ..old(self)@
            }),
    {
        proof {
            reveal(content);
        }
        self.sessions.selected = selected;
    }

    /// Sets or clears the exit status.
    pub(crate) fn set_exit(&mut self, exit: Option<AuthStatus>)
        ensures
            final(self)@ == (GreeterView { exit, ..old(self)@ }),
    {
        proof {
            reveal(content);
        }
        self.exit = exit;
    }

    /// Turns debug messages on, to the given file.
    pub(crate) fn set_debug(&mut self, logfile: String)
        ensures
            final(self)@ == (GreeterView { debug: true, logfile: logfile@, ..old(self)@ }),
    {
        proof {
            reveal(content);
        }
        self.debug = true;
        self.logfile = logfile;
    }

    /// Replaces the greeting.
    pub(crate) fn set_greeting(&mut self, greeting: Option<String>)
        ensures
            final(self)@ == (GreeterView { greeting: greeting.deep_view(), ..old(self)@ }),
    {
        proof {
            reveal(content);
        }
        self.greeting = greeting;
    }

    /// Replaces the display of secrets.
    pub(crate) fn set_secret_display(&mut self, display: SecretDisplay)
        ensures
            final(self)@ == (GreeterView { secret_display: display@, ..old(self)@ }),
    {
        proof {
            reveal(content);
        }
        self.secret_display = display;
    }

    /// Replaces the environment of the default command.
    pub(crate) fn set_default_env(&mut self, env: Option<Vec<String>>)
        ensures
            final(self)@ == (GreeterView { default_env: env.deep_view(), ..old(self)@ }),
    {
        proof {
            reveal(content);
        }
        self.default_env = env;
    }

    /// Replaces the time settings.
    pub(crate) fn set_time(&mut self, time: bool, format: Option<String>)
        ensures
            final(self)@ == (GreeterView { time, time_format: format.deep_view(), ..old(self)@ }),
    {
        proof {
            reveal(content);
        }
        self.time = time;
        self.time_format = format;
    }

    /// Enables the user menu, with the given users.
    pub(crate) fn set_user_menu(&mut self, users: Menu<User>)
        ensures
            final(self)@ == (GreeterView { user_menu: true, users: users@, ..old(self)@ }),
    {
        proof {
            reveal(content);
        }
        self.user_menu = true;
        self.users = users;
    }

    /// Replaces what is to be remembered.
    pub(crate) fn set_remembers(&mut self, remember: bool, session: bool, user_session: bool)
        ensures
            final(self)@ == (GreeterView {
                remember,
                remember_session: session,
                remember_user_session: user_session,
                ..old(self)@
            }),
    {
        proof {
            reveal(content);
        }
        self.remember = remember;
        self.remember_session = session;
        self.remember_user_session = user_session;
    }

    /// Erases the buffer.
    fn wipe_buffer(&mut self)
        ensures
            final(self)@ == (GreeterView { buffer: Seq::empty(), ..old(self)@ }),
        opens_invariants none
        no_unwind
    {
        proof {
            reveal(content);
        }
        zeroize_string(&mut self.buffer);
    }

    /// Erases the prompt.
    fn wipe_prompt(&mut self)
        ensures
            final(self)@ == (GreeterView { prompt: None, ..old(self)@ }),
        opens_invariants none
        no_unwind
    {
        proof {
            reveal(content);
        }
        zeroize_option(&mut self.prompt);
    }

    /// Erases the username.
    fn wipe_username(&mut self)
        ensures
            final(self)@ == (GreeterView { username: MaskedStringView::empty(), ..old(self)@ }),
        opens_invariants none
        no_unwind
    {
        proof {
            reveal(content);
        }
        self.username.zeroize();
    }

    /// Erases the message.
    fn wipe_message(&mut self)
        ensures
            final(self)@ == (GreeterView { message: None, ..old(self)@ }),
        opens_invariants none
        no_unwind
    {
        proof {
            reveal(content);
        }
        zeroize_option(&mut self.message);
    }

    /// The length of the text that is edited.
    pub(crate) fn active_len(&self) -> (r: usize)
        ensures
            r == self@.active().len(),
    {
        proof {
            lemma_fields(*self);
        }
        match self.mode {
            Mode::Username => self.username.value.as_str().unicode_len(),
            _ => self.buffer.as_str().unicode_len(),
        }
    }
}

impl Greeter {
    /// Erases the secrets that the state holds: the buffer and the prompt,
    /// the username unless `soft` is true (after a wrong password the user
    /// gets another chance without typing the name again), and the message
    /// if `scrub_message` is true.
    pub fn scrub(&mut self, scrub_message: bool, soft: bool)
        ensures
            final(self)@ == old(self)@.scrub(scrub_message, soft),
        opens_invariants none
        no_unwind
    {
        self.wipe_buffer();
        self.wipe_prompt();

        if !soft {
            self.wipe_username();
        }
        if scrub_message {
            self.wipe_message();
        }
    }

    /// Resets the state for a new attempt. The connection to the daemon is
    /// not touched: the caller opens a new one.
    pub fn reset(&mut self, soft: bool)
        ensures
            final(self)@ == old(self)@.reset(soft),
    {
        let mode = if soft {
            Mode::Password
        } else {
            Mode::Username
        };
        self.set_mode(mode);
        self.set_previous_mode(mode);
        self.set_working(false);
        self.set_done(false);

        self.scrub(true, soft);
    }

    /// Puts the cursor back within the text that is edited, at the position
    /// nearest to where it is.
    pub fn clamp_cursor(&mut self)
        ensures
            final(self)@ == old(self)@.clamp_cursor(),
            final(self)@.cursor_in_range(),
    {
        proof {
            lemma_fields(*self);
        }
        let len = self.active_len();
        let offset = if self.cursor_offset > 0 {
            0
        } else if len < 32768 && self.cursor_offset < -(len as i16) {
            -(len as i16)
        } else {
            self.cursor_offset
        };
        self.set_cursor(offset);
    }

    /// Notes that no response of the daemon is awaited any more.
    pub fn settle(&mut self)
        ensures
            final(self)@ == (GreeterView { working: false, ..old(self)@ }),
    {
        self.set_working(false);
    }

    /// Sets the prompt, followed by a space unless it ends with one.
    pub fn set_prompt(&mut self, prompt: &str)
        ensures
            final(self)@ == old(self)@.set_prompt(prompt@),
    {
        let n = prompt.unicode_len();
        let mut text = String::from_str(prompt);
        if n == 0 || prompt.get_char(n - 1) != ' ' {
            text.append(" ");
            proof {
                reveal_strlit(" ");
                assert(" "@ =~= seq![' ']);
                assert(text@ =~= prompt@.push(' '));
            }
        }
        self.set_prompt_text(Some(text));
    }

    /// Removes the prompt.
    pub fn remove_prompt(&mut self)
        ensures
            final(self)@ == (GreeterView { prompt: None, ..old(self)@ }),
    {
        self.set_prompt_text(None);
    }

    /// Computes the size of the prompt, to determine where input starts.
    pub fn prompt_width(&self) -> (r: usize)
        ensures
            r == self@.prompt_width(),
    {
        proof {
            lemma_fields(*self);
        }
        match &self.prompt {
            None => 0,
            Some(prompt) => prompt.as_str().unicode_len(),
        }
    }
}

} // verus!
