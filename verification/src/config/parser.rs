//! What the settings do to the application.

use chrono::format::{Item, StrftimeItems};
use vstd::prelude::*;
use vstd::string::*;

use crate::greeter::{
    content, lemma_fields, lemma_settings, GreetAlign, Greeter, GreeterView, SecretDisplay,
    SecretDisplayView,
};
use crate::info::{
    get_issue, get_min_max_uids, get_users, listed_users, uid_range, Account, AccountView, System,
};
use crate::menu::{Menu, MenuView};
use crate::numbers::{parse_u16, parse_u8, parsed_u16, parsed_u8};
use crate::power::{Power, PowerOption, PowerView};
use crate::sessions::{SessionSource, SessionSourceView, SessionType};
use crate::style::{Theme, ThemeView};
use crate::text::{clone_option, clone_strings, contains_char, same_text, spec_split, split};

verus! {

/// Whether a time format holds a specifier that cannot be formatted.
pub uninterp spec fn strftime_error(format: Seq<char>) -> bool;

/// `StrftimeItems::new`, and a search of its items for `Item::Error`:
/// whether a format has an item that cannot be formatted is a function of
/// the format alone; it is given the name [`strftime_error`].
#[verifier::external_body]
fn has_strftime_error(format: &str) -> (r: bool)
    ensures
        r == strftime_error(format@),
{
    StrftimeItems::new(format).any(|item| item == Item::Error)
}

/// Why the settings cannot be used.
pub enum ConfigError {
    /// A greeting and the issue file are both asked for.
    IssueAndGreeting,
    /// The characters that stand for a secret are given as an empty text.
    EmptyAsterisks,
    /// An environment variable is not given as a name, an equals sign and a
    /// value.
    MalformedEnv(String),
    /// The time format cannot be formatted.
    InvalidTimeFormat,
    /// The least user identifier is not below the greatest.
    UidRange,
    /// The last session is to be remembered both for everybody and for each
    /// user.
    RememberConflict,
    /// The last session of each user is to be remembered, and the last user
    /// is not.
    RememberUserSessionAlone,
    /// Two screens are bound to the same function key.
    KeybindsNotDistinct,
}

/// The mathematical content of a [`ConfigError`].
pub enum ConfigErrorView {
    IssueAndGreeting,
    EmptyAsterisks,
    MalformedEnv(Seq<char>),
    InvalidTimeFormat,
    UidRange,
    RememberConflict,
    RememberUserSessionAlone,
    KeybindsNotDistinct,
}

impl View for ConfigError {
    type V = ConfigErrorView;

    open spec fn view(&self) -> ConfigErrorView {
        match self {
            ConfigError::IssueAndGreeting => ConfigErrorView::IssueAndGreeting,
            ConfigError::EmptyAsterisks => ConfigErrorView::EmptyAsterisks,
            ConfigError::MalformedEnv(definition) => ConfigErrorView::MalformedEnv(definition@),
            ConfigError::InvalidTimeFormat => ConfigErrorView::InvalidTimeFormat,
            ConfigError::UidRange => ConfigErrorView::UidRange,
            ConfigError::RememberConflict => ConfigErrorView::RememberConflict,
            ConfigError::RememberUserSessionAlone => ConfigErrorView::RememberUserSessionAlone,
            ConfigError::KeybindsNotDistinct => ConfigErrorView::KeybindsNotDistinct,
        }
    }
}

impl ConfigErrorView {
    /// The error in words.
    pub open spec fn message(self) -> Seq<char> {
        match self {
            ConfigErrorView::IssueAndGreeting =>
                "Only one of --issue and --greeting may be used at the same time"@,
            ConfigErrorView::EmptyAsterisks =>
                "--asterisks-char must have at least one character as its value"@,
            ConfigErrorView::MalformedEnv(definition) =>
                "malformed environment variable definition for '"@ + definition + "'"@,
            ConfigErrorView::InvalidTimeFormat =>
                "Invalid strftime format provided in --time-format"@,
            ConfigErrorView::UidRange =>
                "Minimum UID ({min_uid}) must be less than maximum UID ({max_uid})"@,
            ConfigErrorView::RememberConflict =>
                "Only one of --remember-session and --remember-user-session may be used at the same time"@,
            ConfigErrorView::RememberUserSessionAlone =>
                "--remember-session must be used with --remember"@,
            ConfigErrorView::KeybindsNotDistinct => "keybindings must all be distinct"@,
        }
    }
}

impl ConfigError {
    /// Returns the error in words.
    pub fn message(&self) -> (r: String)
        ensures
            r@ == self@.message(),
    {
        match self {
            ConfigError::IssueAndGreeting => String::from_str(
                "Only one of --issue and --greeting may be used at the same time",
            ),
            ConfigError::EmptyAsterisks => String::from_str(
                "--asterisks-char must have at least one character as its value",
            ),
            ConfigError::MalformedEnv(definition) => {
                let mut r = String::from_str("malformed environment variable definition for '");
                r.append(definition.as_str());
                r.append("'");
                r
            },
            ConfigError::InvalidTimeFormat => String::from_str(
                "Invalid strftime format provided in --time-format",
            ),
            ConfigError::UidRange => String::from_str(
                "Minimum UID ({min_uid}) must be less than maximum UID ({max_uid})",
            ),
            ConfigError::RememberConflict => String::from_str(
                "Only one of --remember-session and --remember-user-session may be used at the same time",
            ),
            ConfigError::RememberUserSessionAlone => String::from_str(
                "--remember-session must be used with --remember",
            ),
            ConfigError::KeybindsNotDistinct => String::from_str("keybindings must all be distinct"),
        }
    }
}

/// The file to which debug messages go unless another is named.
pub open spec fn default_log_file() -> Seq<char> {
    "/tmp/tuigreet.log"@
}

/// The character that stands for a secret unless others are given.
pub open spec fn default_asterisks() -> Seq<char> {
    "*"@
}

/// The wrapper of X11 sessions unless another is given. `startx` wants the
/// absolute path of an executable as its first argument: the command of the
/// session is therefore run through `/usr/bin/env`, which does nothing else.
pub open spec fn default_xsession_wrapper() -> Seq<char> {
    "startx /usr/bin/env"@
}

/// The first of two optional texts that is there.
pub open spec fn first_of(first: Option<String>, second: Option<String>) -> Option<Seq<char>> {
    match first {
        Some(text) => Some(text@),
        None => second.deep_view(),
    }
}

/// The first of two optional lists of texts that is there.
pub open spec fn first_list(first: Option<Vec<String>>, second: Option<Vec<String>>) -> Option<
    Seq<Seq<char>>,
> {
    match first {
        Some(list) => Some(list.deep_view()),
        None => second.deep_view(),
    }
}

/// The number that an option gives, if it gives one, else the number of the
/// configuration file, if any.
pub open spec fn number_u16(option: Option<String>, file: Option<u16>) -> Option<u16> {
    match option {
        Some(text) => match parsed_u16(text@) {
            Some(value) => Some(value),
            None => file,
        },
        None => file,
    }
}

/// The function key that an option gives, if it gives one, else the key of
/// the configuration file, if any, else `default`.
pub open spec fn function_key(option: Option<String>, file: Option<u8>, default: u8) -> u8 {
    let set = match option {
        Some(text) => match parsed_u8(text@) {
            Some(value) => Some(value),
            None => file,
        },
        None => file,
    };
    match set {
        Some(key) => key,
        None => default,
    }
}

/// The first definition of a list that holds no equals sign.
pub open spec fn first_malformed(definitions: Seq<Seq<char>>) -> Option<Seq<char>>
    decreases definitions.len(),
{
    if definitions.len() == 0 {
        None
    } else if !definitions.first().contains('=') {
        Some(definitions.first())
    } else {
        first_malformed(definitions.drop_first())
    }
}

/// The directories of a list, each with the kind of the sessions that are
/// looked for in it.
pub open spec fn with_kind(directories: Seq<Seq<char>>, kind: SessionType) -> Seq<
    (Seq<char>, SessionType),
> {
    directories.map_values(|directory: Seq<char>| (directory, kind))
}

/// The directories that are named for one kind of session: the list,
/// separated by colons, that the command line gives, else the list of the
/// configuration file, else none.
pub open spec fn session_directories(
    option: Option<String>,
    file: Option<Vec<String>>,
    kind: SessionType,
) -> Seq<(Seq<char>, SessionType)> {
    match option {
        Some(list) => with_kind(spec_split(list@, ':'), kind),
        None => match file {
            Some(directories) => with_kind(directories.deep_view(), kind),
            None => Seq::empty(),
        },
    }
}

impl GreeterView {
    /// The state after the debug settings were applied: debug messages are
    /// written if the command line or the configuration file asks for them,
    /// to the file that the first of them names.
    #[verifier::opaque]
    pub open spec fn debug_parsed(self) -> GreeterView {
        let o = self.opts;
        if o.debug || self.config.defaults.debug is Some {
            GreeterView {
                debug: true,
                logfile: match first_of(o.debug_file, self.config.defaults.debug) {
                    Some(file) => file,
                    None => default_log_file(),
                },
                ..self
            }
        } else {
            self
        }
    }

    /// Whether a greeting is given.
    pub open spec fn has_greeting(self) -> bool {
        self.opts.greeting is Some || self.config.ui.greeting is Some
    }

    /// Whether the issue file is asked for.
    pub open spec fn has_issue(self) -> bool {
        self.opts.issue || self.config.ui.use_issue
    }

    /// The state after the greeting was applied: the issue file, if it is
    /// asked for, else the greeting that is given.
    #[verifier::opaque]
    pub open spec fn greeting_parsed(self, issue: Option<Seq<char>>) -> GreeterView {
        GreeterView {
            greeting: if self.has_issue() {
                issue
            } else {
                first_of(self.opts.greeting, self.config.ui.greeting)
            },
            ..self
        }
    }

    /// Whether secrets are shown as characters.
    pub open spec fn has_asterisks(self) -> bool {
        self.opts.asterisks || self.config.ui.show_asterisks
    }

    /// The characters that are given to stand for a secret.
    pub open spec fn asterisks(self) -> Option<Seq<char>> {
        match self.opts.asterisks_char {
            Some(text) => Some(text@),
            None => match self.config.ui.asterisks_char {
                Some(c) => Some(seq![c]),
                None => None,
            },
        }
    }

    /// The state after the display of secrets was applied.
    #[verifier::opaque]
    pub open spec fn asterisks_parsed(self) -> GreeterView {
        if self.has_asterisks() {
            GreeterView {
                secret_display: SecretDisplayView::Character(
                    match self.asterisks() {
                        Some(text) => text,
                        None => default_asterisks(),
                    },
                ),
                ..self
            }
        } else {
            self
        }
    }

    /// The command that is given to be run by default.
    pub open spec fn default_command(self) -> Option<Seq<char>> {
        first_of(self.opts.cmd, self.config.defaults.command)
    }

    /// The environment that is given with the default command.
    pub open spec fn default_environment(self) -> Option<Seq<Seq<char>>> {
        first_list(self.opts.env, self.config.defaults.env)
    }

    /// The definition of the environment of the default command that is
    /// malformed, if there is a default command and one is.
    pub open spec fn malformed_env(self) -> Option<Seq<char>> {
        match (self.default_command(), self.default_environment()) {
            (Some(_), Some(definitions)) => first_malformed(definitions),
            _ => None,
        }
    }

    /// The state after the default command was applied: it is the selection,
    /// and its environment is kept.
    #[verifier::opaque]
    pub open spec fn default_command_parsed(self) -> GreeterView {
        match self.default_command() {
            Some(command) => GreeterView {
                session_source: SessionSourceView::Command(command),
                default_env: self.default_environment(),
                ..self
            },
            None => self,
        }
    }

    /// The state after the session settings were applied: the directories
    /// of Wayland sessions and then those of X11 sessions are added to the
    /// list; the wrappers are set. X11 sessions have a wrapper unless it is
    /// disabled.
    #[verifier::opaque]
    pub open spec fn sessions_parsed(self) -> GreeterView {
        let o = self.opts;
        let f = self.config.sessions;
        GreeterView {
            session_paths: self.session_paths + session_directories(
                o.sessions,
                f.wayland_paths,
                SessionType::Wayland,
            ) + session_directories(o.xsessions, f.x11_paths, SessionType::X11),
            session_wrapper: match first_of(o.session_wrapper, f.wayland_wrapper) {
                Some(wrapper) => Some(wrapper),
                None => self.session_wrapper,
            },
            xsession_wrapper: if !o.no_xsession_wrapper && !f.x11_wrapper_disabled {
                match first_of(o.xsession_wrapper, f.x11_wrapper) {
                    Some(wrapper) => Some(wrapper),
                    None => Some(default_xsession_wrapper()),
                }
            } else {
                self.xsession_wrapper
            },
            ..self
        }
    }

    /// The time format that is given.
    pub open spec fn given_time_format(self) -> Option<Seq<char>> {
        first_of(self.opts.time_format, self.config.ui.time_format)
    }

    /// The state after the time settings were applied.
    #[verifier::opaque]
    pub open spec fn time_parsed(self) -> GreeterView {
        GreeterView {
            time: self.opts.time || self.config.ui.show_time,
            time_format: match self.given_time_format() {
                Some(format) => Some(format),
                None => self.time_format,
            },
            ..self
        }
    }

    /// Whether the user menu is asked for.
    pub open spec fn has_user_menu(self) -> bool {
        self.opts.user_menu || self.config.ui.show_user_menu
    }

    /// The range of user identifiers of the user menu. `login_defs` is the
    /// content of the file that defines the range for the system, if it
    /// could be read.
    pub open spec fn menu_uids(self, login_defs: Option<Seq<char>>) -> (u16, u16) {
        let o = self.opts;
        uid_range(
            number_u16(o.user_menu_min_uid, self.config.defaults.user_min_uid),
            number_u16(o.user_menu_max_uid, self.config.defaults.user_max_uid),
            login_defs,
        )
    }

    /// The state after the user menu was applied: if it is asked for, it
    /// lists the accounts whose identifier is in the range.
    #[verifier::opaque]
    pub open spec fn menus_parsed(
        self,
        login_defs: Option<Seq<char>>,
        accounts: Seq<AccountView>,
    ) -> GreeterView {
        if self.has_user_menu() {
            let (min, max) = self.menu_uids(login_defs);
            GreeterView {
                user_menu: true,
                users: MenuView {
                    title: self.messages.title_users@,
                    options: listed_users(accounts, min, max),
                    selected: 0,
                },
                ..self
            }
        } else {
            self
        }
    }

    /// Whether the last user is to be remembered.
    pub open spec fn has_remember(self) -> bool {
        self.opts.remember || self.config.remember.last_user
    }

    /// Whether the last session is to be remembered.
    pub open spec fn has_remember_session(self) -> bool {
        self.opts.remember_session || self.config.remember.last_session
    }

    /// Whether the last session of each user is to be remembered.
    pub open spec fn has_remember_user_session(self) -> bool {
        self.opts.remember_user_session || self.config.remember.last_user_session
    }

    /// The state after what is to be remembered was applied.
    #[verifier::opaque]
    pub open spec fn remembers_parsed(self) -> GreeterView {
        GreeterView {
            remember: self.has_remember(),
            remember_session: self.has_remember_session(),
            remember_user_session: self.has_remember_user_session(),
            ..self
        }
    }

    /// The state after the power settings were applied: the power menu gets
    /// an entry to shut down and an entry to reboot, each with the command
    /// that is given for it, if any.
    #[verifier::opaque]
    pub open spec fn power_parsed(self) -> GreeterView {
        let o = self.opts;
        let d = self.config.defaults;
        GreeterView {
            powers: MenuView {
                options: self.powers.options.push(
                    PowerView {
                        action: PowerOption::Shutdown,
                        label: self.messages.shutdown@,
                        command: first_of(o.power_shutdown, d.shutdown_command),
                    },
                ).push(
                    PowerView {
                        action: PowerOption::Reboot,
                        label: self.messages.reboot@,
                        command: first_of(o.power_reboot, d.reboot_command),
                    },
                ),
                ..self.powers
            },
            power_setsid: !(o.power_no_setsid || d.power_no_setsid),
            ..self
        }
    }

    /// The state after the key bindings were applied: the function keys 2, 3
    /// and 12 unless others are given.
    #[verifier::opaque]
    pub open spec fn keybinds_parsed(self) -> GreeterView {
        let o = self.opts;
        GreeterView {
            kb_command: function_key(o.kb_command, self.config.ui.command_f_key, 2),
            kb_sessions: function_key(o.kb_sessions, self.config.ui.sessions_f_key, 3),
            kb_power: function_key(o.kb_power, self.config.ui.power_f_key, 12),
            ..self
        }
    }

    /// The theme that the settings describe, if they describe one.
    pub open spec fn given_theme(self) -> Option<ThemeView> {
        match self.opts.theme {
            Some(spec) => Some(ThemeView::parsed(spec@)),
            None => None,
        }
    }

    /// Whether the state is this one with the theme that the settings
    /// describe, if they describe one.
    pub open spec fn is_themed(self, themed: GreeterView) -> bool {
        &&& themed == GreeterView { theme: themed.theme, ..self }
        &&& match self.given_theme() {
            Some(theme) => themed.theme@ == theme,
            None => themed.theme == self.theme,
        }
    }

    /// How the greeting is aligned: in the middle unless `left` or `right`
    /// is given.
    pub open spec fn greet_align(self) -> GreetAlign {
        match first_of(self.opts.greet_align, self.config.ui.greet_align) {
            Some(value) => if value == "left"@ {
                GreetAlign::Left
            } else if value == "right"@ {
                GreetAlign::Right
            } else {
                GreetAlign::Center
            },
            None => GreetAlign::Center,
        }
    }

    /// Why the time format cannot be used, if it cannot.
    pub open spec fn time_format_fails(self) -> bool {
        match self.given_time_format() {
            Some(format) => strftime_error(format),
            None => false,
        }
    }

    /// Whether the range of user identifiers of the user menu is empty.
    pub open spec fn uid_range_fails(self, login_defs: Option<Seq<char>>) -> bool {
        self.has_user_menu() && self.menu_uids(login_defs).0 >= self.menu_uids(login_defs).1
    }

    /// What is wrong with the settings, if anything: the first of the
    /// errors, in the order in which the settings are applied.
    pub open spec fn config_error(self, system: System) -> Option<ConfigErrorView> {
        if self.has_greeting() && self.has_issue() {
            Some(ConfigErrorView::IssueAndGreeting)
        } else if self.has_asterisks() && self.asterisks() == Some(Seq::<char>::empty()) {
            Some(ConfigErrorView::EmptyAsterisks)
        } else if self.malformed_env() is Some {
            Some(ConfigErrorView::MalformedEnv(self.malformed_env()->0))
        } else if self.time_format_fails() {
            Some(ConfigErrorView::InvalidTimeFormat)
        } else if self.uid_range_fails(system.login_defs.deep_view()) {
            Some(ConfigErrorView::UidRange)
        } else if self.has_remember_session() && self.has_remember_user_session() {
            Some(ConfigErrorView::RememberConflict)
        } else if self.has_remember_user_session() && !self.has_remember() {
            Some(ConfigErrorView::RememberUserSessionAlone)
        } else if self.keybinds_parsed().keybinds_collide() {
            Some(ConfigErrorView::KeybindsNotDistinct)
        } else {
            None
        }
    }

    /// The state after all the settings were applied, one group after the
    /// other.
    pub open spec fn config_parsed(self, system: System) -> GreeterView {
        self.debug_parsed().greeting_parsed(
            system.shown_issue(),
        ).asterisks_parsed().default_command_parsed().sessions_parsed().time_parsed().menus_parsed(
            system.login_defs.deep_view(),
            system.accounts.deep_view(),
        ).remembers_parsed().power_parsed().keybinds_parsed()
    }

    /// The settings are those of `other`.
    pub open spec fn same_settings(self, other: GreeterView) -> bool {
        self.opts == other.opts && self.config == other.config && self.messages == other.messages
    }

    /// Whether two of the function keys are the same.
    pub open spec fn keybinds_collide(self) -> bool {
        self.kb_command == self.kb_sessions || self.kb_sessions == self.kb_power || self.kb_power
            == self.kb_command
    }
}

/// The first of two optional texts that is there.
fn first_text(first: &Option<String>, second: &Option<String>) -> (r: Option<String>)
    ensures
        r.deep_view() == first_of(*first, *second),
{
    match first {
        Some(text) => Some(text.clone()),
        None => clone_option(second),
    }
}

/// The first of two optional lists that is there.
fn first_strings(first: &Option<Vec<String>>, second: &Option<Vec<String>>) -> (r: Option<
    Vec<String>,
>)
    ensures
        r.deep_view() == first_list(*first, *second),
{
    match first {
        Some(list) => {
            let copy = clone_strings(list);
            assert(copy.deep_view() =~= list.deep_view());
            Some(copy)
        },
        None => match second {
            Some(list) => {
                let copy = clone_strings(list);
                assert(copy.deep_view() =~= list.deep_view());
                Some(copy)
            },
            None => None,
        },
    }
}

/// The number that an option gives, else the number of the file.
fn read_u16(option: &Option<String>, file: Option<u16>) -> (r: Option<u16>)
    ensures
        r == number_u16(*option, file),
{
    match option {
        Some(text) => match parse_u16(text.as_str()) {
            Some(value) => Some(value),
            None => file,
        },
        None => file,
    }
}

/// The function key that an option gives, else the key of the file, else
/// the default.
fn read_key(option: &Option<String>, file: Option<u8>, default: u8) -> (r: u8)
    ensures
        r == function_key(*option, file, default),
{
    let set = match option {
        Some(text) => match parse_u8(text.as_str()) {
            Some(value) => Some(value),
            None => file,
        },
        None => file,
    };
    match set {
        Some(key) => key,
        None => default,
    }
}

/// The first definition that holds no equals sign.
fn find_malformed(definitions: &Vec<String>) -> (r: Option<String>)
    ensures
        r.deep_view() == first_malformed(definitions.deep_view()),
{
    let ghost all = definitions.deep_view();
    let mut i: usize = 0;
    assert(all.subrange(0, all.len() as int) == all);
    while i < definitions.len()
        invariant
            i <= definitions.len(),
            all == definitions.deep_view(),
            first_malformed(all.subrange(i as int, all.len() as int)) == first_malformed(all),
        decreases definitions.len() - i,
    {
        let ghost rest = all.subrange(i as int, all.len() as int);
        assert(rest.first() == definitions[i as int]@);
        assert(rest.drop_first() == all.subrange(i + 1, all.len() as int));
        if !contains_char(definitions[i].as_str(), '=') {
            return Some(definitions[i].clone());
        }
        i += 1;
    }
    None
}

/// Adds directories of one kind to a list.
fn add_directories(
    paths: &mut Vec<(String, SessionType)>,
    directories: &Vec<String>,
    kind: SessionType,
)
    ensures
        final(paths).deep_view() == old(paths).deep_view() + with_kind(directories.deep_view(), kind),
{
    let ghost before = paths.deep_view();
    let ghost all = directories.deep_view();
    let mut i: usize = 0;
    assert(paths.deep_view() =~= before + with_kind(all.subrange(0, 0), kind));
    while i < directories.len()
        invariant
            i <= directories.len(),
            all == directories.deep_view(),
            paths.deep_view() == before + with_kind(all.subrange(0, i as int), kind),
        decreases directories.len() - i,
    {
        let ghost so_far = paths.deep_view();
        paths.push((directories[i].clone(), kind));
        assert(paths.deep_view() =~= so_far.push((directories[i as int]@, kind)));
        assert(paths.deep_view() =~= before + with_kind(all.subrange(0, i + 1), kind));
        i += 1;
    }
    assert(all.subrange(0, directories.len() as int) == all);
}

/// Adds the directories that are named for one kind of session.
fn add_session_directories(
    paths: &mut Vec<(String, SessionType)>,
    option: &Option<String>,
    file: &Option<Vec<String>>,
    kind: SessionType,
)
    ensures
        final(paths).deep_view() == old(paths).deep_view() + session_directories(
            *option,
            *file,
            kind,
        ),
{
    match option {
        Some(list) => {
            let directories = split(list.as_str(), ':');
            add_directories(paths, &directories, kind);
        },
        None => match file {
            Some(directories) => {
                add_directories(paths, directories, kind);
            },
            None => {
                assert(paths.deep_view() =~= old(paths).deep_view() + Seq::<
                    (Seq<char>, SessionType),
                >::empty());
            },
        },
    }
}

/// A text of one character.
fn char_text(c: char) -> (r: String)
    ensures
        r@ == seq![c],
{
    let mut r = String::new();
    crate::text::push(&mut r, c);
    assert(r@ =~= seq![c]);
    r
}

impl Greeter {
    /// Applies the debug settings.
    pub fn parse_debug(&mut self)
        ensures
            final(self)@.same_settings(old(self)@),
            final(self)@ == old(self)@.debug_parsed(),
    {
        proof {
            lemma_fields(*self);
            reveal(GreeterView::debug_parsed);
        }
        if self.opts.debug || self.config.defaults.debug.is_some() {
            let file = match first_text(&self.opts.debug_file, &self.config.defaults.debug) {
                Some(file) => file,
                None => String::from_str("/tmp/tuigreet.log"),
            };
            self.set_debug(file);
        }
    }

    /// Applies the greeting. `issue` is the issue file of the host, with its
    /// escape sequences replaced, if it could be read.
    ///
    /// A greeting and the issue file cannot both be asked for.
    pub fn parse_greeting(&mut self, issue: Option<String>) -> (r: Result<(), ConfigError>)
        ensures
            final(self)@.same_settings(old(self)@),
            match r {
                Ok(_) => {
                    &&& !(old(self)@.has_greeting() && old(self)@.has_issue())
                    &&& final(self)@ == old(self)@.greeting_parsed(issue.deep_view())
                },
                Err(error) => {
                    &&& old(self)@.has_greeting() && old(self)@.has_issue()
                    &&& error@ == ConfigErrorView::IssueAndGreeting
                    &&& final(self)@ == old(self)@
                },
            },
    {
        proof {
            lemma_fields(*self);
            reveal(GreeterView::greeting_parsed);
        }
        let has_greeting = self.opts.greeting.is_some() || self.config.ui.greeting.is_some();
        let has_issue = self.opts.issue || self.config.ui.use_issue;

        if has_greeting && has_issue {
            return Err(ConfigError::IssueAndGreeting);
        }
        let greeting = if has_issue {
            issue
        } else {
            first_text(&self.opts.greeting, &self.config.ui.greeting)
        };
        self.set_greeting(greeting);
        Ok(())
    }

    /// Applies the display of secrets. The characters that stand for a
    /// secret cannot be an empty text.
    pub fn parse_asterisks(&mut self) -> (r: Result<(), ConfigError>)
        ensures
            final(self)@.same_settings(old(self)@),
            match r {
                Ok(_) => {
                    &&& !(old(self)@.has_asterisks() && old(self)@.asterisks() == Some(
                        Seq::<char>::empty(),
                    ))
                    &&& final(self)@ == old(self)@.asterisks_parsed()
                },
                Err(error) => {
                    &&& old(self)@.has_asterisks()
                    &&& old(self)@.asterisks() == Some(Seq::<char>::empty())
                    &&& error@ == ConfigErrorView::EmptyAsterisks
                    &&& final(self)@ == old(self)@
                },
            },
    {
        proof {
            lemma_fields(*self);
            reveal(GreeterView::asterisks_parsed);
        }
        let has_asterisks = self.opts.asterisks || self.config.ui.show_asterisks;

        if has_asterisks {
            let given = match &self.opts.asterisks_char {
                Some(text) => Some(text.clone()),
                None => match self.config.ui.asterisks_char {
                    Some(c) => Some(char_text(c)),
                    None => None,
                },
            };
            let asterisk = match given {
                Some(value) => {
                    if value.as_str().unicode_len() < 1 {
                        assert(value@ =~= Seq::<char>::empty());
                        return Err(ConfigError::EmptyAsterisks);
                    }
                    value
                },
                None => String::from_str("*"),
            };
            self.set_secret_display(SecretDisplay::Character(asterisk));
        }
        Ok(())
    }

    /// Applies the default command. Each definition of its environment is a
    /// name, an equals sign and a value.
    pub fn parse_default_command(&mut self) -> (r: Result<(), ConfigError>)
        ensures
            final(self)@.same_settings(old(self)@),
            match r {
                Ok(_) => {
                    &&& old(self)@.malformed_env() is None
                    &&& final(self)@ == old(self)@.default_command_parsed()
                },
                Err(error) => {
                    &&& old(self)@.malformed_env() is Some
                    &&& error@ == ConfigErrorView::MalformedEnv(old(self)@.malformed_env()->0)
                    &&& final(self)@ == old(self)@
                },
            },
    {
        proof {
            lemma_fields(*self);
            reveal(GreeterView::default_command_parsed);
        }
        // A command on the command line overrides the one of the file.
        if let Some(command) = first_text(&self.opts.cmd, &self.config.defaults.command) {
            let envs = first_strings(&self.opts.env, &self.config.defaults.env);

            if let Some(envs) = &envs {
                if let Some(env) = find_malformed(envs) {
                    return Err(ConfigError::MalformedEnv(env));
                }
            }
            self.set_session_source(SessionSource::Command(command));
            self.set_default_env(envs);
        }
        Ok(())
    }

    /// Applies the session settings.
    pub fn parse_sessions(&mut self)
        ensures
            final(self)@.same_settings(old(self)@),
            final(self)@ == old(self)@.sessions_parsed(),
    {
        proof {
            reveal(content);
            reveal(GreeterView::sessions_parsed);
        }
        let ghost before = self.session_paths.deep_view();
        add_session_directories(
            &mut self.session_paths,
            &self.opts.sessions,
            &self.config.sessions.wayland_paths,
            SessionType::Wayland,
        );
        add_session_directories(
            &mut self.session_paths,
            &self.opts.xsessions,
            &self.config.sessions.x11_paths,
            SessionType::X11,
        );

        let wrapper = match first_text(&self.opts.session_wrapper, &self.config.sessions.wayland_wrapper) {
            Some(wrapper) => Some(wrapper),
            None => clone_option(&self.session_wrapper),
        };
        let xwrapper = if !self.opts.no_xsession_wrapper && !self.config.sessions.x11_wrapper_disabled {
            match first_text(&self.opts.xsession_wrapper, &self.config.sessions.x11_wrapper) {
                Some(wrapper) => Some(wrapper),
                None => Some(String::from_str("startx /usr/bin/env")),
            }
        } else {
            clone_option(&self.xsession_wrapper)
        };
        self.session_wrapper = wrapper;
        self.xsession_wrapper = xwrapper;
    }

    /// Applies the time settings. The time format must be one that can be
    /// formatted.
    pub fn parse_time(&mut self) -> (r: Result<(), ConfigError>)
        ensures
            final(self)@.same_settings(old(self)@),
            match r {
                Ok(_) => {
                    &&& old(self)@.given_time_format() is Some ==> !strftime_error(
                        old(self)@.given_time_format()->0,
                    )
                    &&& final(self)@ == old(self)@.time_parsed()
                },
                Err(error) => {
                    &&& old(self)@.given_time_format() is Some
                    &&& strftime_error(old(self)@.given_time_format()->0)
                    &&& error@ == ConfigErrorView::InvalidTimeFormat
                    &&& final(self)@ == old(self)@
                },
            },
    {
        proof {
            lemma_fields(*self);
            lemma_settings(*self);
            reveal(GreeterView::time_parsed);
        }
        let format = match first_text(&self.opts.time_format, &self.config.ui.time_format) {
            Some(format) => {
                if has_strftime_error(format.as_str()) {
                    return Err(ConfigError::InvalidTimeFormat);
                }
                Some(format)
            },
            None => clone_option(&self.time_format),
        };
        let time = self.opts.time || self.config.ui.show_time;
        self.set_time(time, format);
        Ok(())
    }

    /// Applies the user menu. `login_defs` is the content of the file that
    /// defines the range of user identifiers for the system, if it could be
    /// read; `accounts` are the accounts of the system.
    ///
    /// The least user identifier must be below the greatest.
    pub fn parse_menus(&mut self, login_defs: &Option<String>, accounts: &Vec<Account>) -> (r: Result<
        (),
        ConfigError,
    >)
        ensures
            final(self)@.same_settings(old(self)@),
            match r {
                Ok(_) => {
                    &&& old(self)@.has_user_menu() ==> old(self)@.menu_uids(login_defs.deep_view()).0
                        < old(self)@.menu_uids(login_defs.deep_view()).1
                    &&& final(self)@ == old(self)@.menus_parsed(
                        login_defs.deep_view(),
                        accounts.deep_view(),
                    )
                },
                Err(error) => {
                    &&& old(self)@.has_user_menu()
                    &&& old(self)@.menu_uids(login_defs.deep_view()).0 >= old(self)@.menu_uids(
                        login_defs.deep_view(),
                    ).1
                    &&& error@ == ConfigErrorView::UidRange
                    &&& final(self)@ == old(self)@
                },
            },
    {
        proof {
            lemma_fields(*self);
            reveal(GreeterView::menus_parsed);
        }
        if self.opts.user_menu || self.config.ui.show_user_menu {
            let min_uid = read_u16(&self.opts.user_menu_min_uid, self.config.defaults.user_min_uid);
            let max_uid = read_u16(&self.opts.user_menu_max_uid, self.config.defaults.user_max_uid);
            let (min_uid, max_uid) = get_min_max_uids(min_uid, max_uid, login_defs);

            if min_uid >= max_uid {
                return Err(ConfigError::UidRange);
            }
            let users = Menu {
                title: self.messages.title_users.clone(),
                options: get_users(accounts, min_uid, max_uid),
                selected: 0,
            };
            self.set_user_menu(users);
        }
        Ok(())
    }

    /// Applies what is to be remembered. The last session is remembered for
    /// everybody or for each user, not both; and for each user only if the
    /// last user is remembered too.
    pub fn parse_remembers(&mut self) -> (r: Result<(), ConfigError>)
        ensures
            final(self)@.same_settings(old(self)@),
            match r {
                Ok(_) => {
                    &&& !(old(self)@.has_remember_session() && old(self)@.has_remember_user_session())
                    &&& !(old(self)@.has_remember_user_session() && !old(self)@.has_remember())
                    &&& final(self)@ == old(self)@.remembers_parsed()
                },
                Err(error) => {
                    &&& final(self)@ == old(self)@
                    &&& if old(self)@.has_remember_session() && old(self)@.has_remember_user_session() {
                        error@ == ConfigErrorView::RememberConflict
                    } else {
                        &&& old(self)@.has_remember_user_session()
                        &&& !old(self)@.has_remember()
                        &&& error@ == ConfigErrorView::RememberUserSessionAlone
                    }
                },
            },
    {
        proof {
            lemma_fields(*self);
            reveal(GreeterView::remembers_parsed);
        }
        let has_remember = self.opts.remember || self.config.remember.last_user;
        let has_remember_session = self.opts.remember_session || self.config.remember.last_session;
        let has_remember_user_session = self.opts.remember_user_session
            || self.config.remember.last_user_session;

        if has_remember_session && has_remember_user_session {
            return Err(ConfigError::RememberConflict);
        }
        if has_remember_user_session && !has_remember {
            return Err(ConfigError::RememberUserSessionAlone);
        }
        self.set_remembers(has_remember, has_remember_session, has_remember_user_session);
        Ok(())
    }

    /// Applies the power settings.
    pub fn parse_power(&mut self)
        ensures
            final(self)@.same_settings(old(self)@),
            final(self)@ == old(self)@.power_parsed(),
    {
        proof {
            reveal(content);
            reveal(GreeterView::power_parsed);
        }
        let ghost before = self.powers.options.deep_view();
        let shutdown = Power {
            action: PowerOption::Shutdown,
            label: self.messages.shutdown.clone(),
            command: first_text(&self.opts.power_shutdown, &self.config.defaults.shutdown_command),
        };
        let reboot = Power {
            action: PowerOption::Reboot,
            label: self.messages.reboot.clone(),
            command: first_text(&self.opts.power_reboot, &self.config.defaults.reboot_command),
        };
        self.powers.options.push(shutdown);
        self.powers.options.push(reboot);
        assert(self.powers.options.deep_view() =~= before.push(shutdown@).push(reboot@));
        self.power_setsid = !(self.opts.power_no_setsid || self.config.defaults.power_no_setsid);
    }

    /// Binds the three screens to function keys.
    fn bind(&mut self, kb_command: u8, kb_sessions: u8, kb_power: u8)
        ensures
            final(self)@ == (GreeterView { kb_command, kb_sessions, kb_power, ..old(self)@ }),
    {
        proof {
            reveal(content);
        }
        self.kb_command = kb_command;
        self.kb_sessions = kb_sessions;
        self.kb_power = kb_power;
    }

    /// Applies the key bindings. The three screens must be bound to three
    /// different function keys.
    pub fn parse_keybinds(&mut self) -> (r: Result<(), ConfigError>)
        ensures
            final(self)@.same_settings(old(self)@),
            match r {
                Ok(_) => {
                    &&& !old(self)@.keybinds_parsed().keybinds_collide()
                    &&& final(self)@ == old(self)@.keybinds_parsed()
                },
                Err(error) => {
                    &&& old(self)@.keybinds_parsed().keybinds_collide()
                    &&& error@ == ConfigErrorView::KeybindsNotDistinct
                    &&& final(self)@ == old(self)@
                },
            },
    {
        proof {
            lemma_fields(*self);
            reveal(GreeterView::keybinds_parsed);
        }
        let kb_command = read_key(&self.opts.kb_command, self.config.ui.command_f_key, 2);
        let kb_sessions = read_key(&self.opts.kb_sessions, self.config.ui.sessions_f_key, 3);
        let kb_power = read_key(&self.opts.kb_power, self.config.ui.power_f_key, 12);

        if kb_command == kb_sessions || kb_sessions == kb_power || kb_power == kb_command {
            return Err(ConfigError::KeybindsNotDistinct);
        }
        self.bind(kb_command, kb_sessions, kb_power);
        Ok(())
    }
}

impl Greeter {
    /// Applies the theme.
    pub fn parse_theme(&mut self)
        ensures
            final(self)@.same_settings(old(self)@),
            old(self)@.is_themed(final(self)@),
    {
        proof {
            reveal(content);
        }
        if let Some(spec) = &self.opts.theme {
            let theme = Theme::parse(spec.as_str());
            self.theme = theme;
        }
    }

    /// Returns how the greeting is aligned.
    pub fn greet_align(&self) -> (r: GreetAlign)
        ensures
            r == self@.greet_align(),
    {
        proof {
            reveal(content);
        }
        match first_text(&self.opts.greet_align, &self.config.ui.greet_align) {
            Some(value) => {
                if same_text(value.as_str(), "left") {
                    GreetAlign::Left
                } else if same_text(value.as_str(), "right") {
                    GreetAlign::Right
                } else {
                    GreetAlign::Center
                }
            },
            None => GreetAlign::Center,
        }
    }

    /// Applies the settings of the command line and of the configuration
    /// file, one group after the other. `system` is what was read from the
    /// system.
    ///
    /// The first group that cannot be applied ends this with its error; the
    /// groups before it have been applied then.
    pub fn parse_config(&mut self, system: &System) -> (r: Result<(), ConfigError>)
        ensures
            match r {
                Ok(_) => {
                    &&& old(self)@.config_error(*system) is None
                    &&& exists|themed: GreeterView| #[trigger]
                        old(self)@.is_themed(themed) && final(self)@ == themed.config_parsed(*system)
                },
                Err(error) => old(self)@.config_error(*system) == Some(error@),
            },
    {
        let ghost g = self@;
        let ghost defs = system.login_defs.deep_view();
        let ghost accounts = system.accounts.deep_view();
        let issue = get_issue(&system.issue, &system.facts);

        self.parse_theme();
        let ghost themed = self@;
        self.parse_debug();
        proof {
            lemma_same_settings(g, self@);
        }
        match self.parse_greeting(issue) {
            Err(error) => {
                return Err(error);
            },
            Ok(_) => {},
        }
        proof {
            lemma_same_settings(g, self@);
        }
        match self.parse_asterisks() {
            Err(error) => {
                return Err(error);
            },
            Ok(_) => {},
        }
        let ghost g3 = self@;
        proof {
            lemma_same_settings(g, g3);
        }
        match self.parse_default_command() {
            Err(error) => {
                return Err(error);
            },
            Ok(_) => {},
        }
        let ghost g4 = self@;
        self.parse_sessions();
        let ghost g5 = self@;
        proof {
            lemma_same_settings(g, g5);
        }
        match self.parse_time() {
            Err(error) => {
                return Err(error);
            },
            Ok(_) => {},
        }
        let ghost g6 = self@;
        proof {
            lemma_same_settings(g, g6);
        }
        match self.parse_menus(&system.login_defs, &system.accounts) {
            Err(error) => {
                return Err(error);
            },
            Ok(_) => {},
        }
        let ghost g7 = self@;
        proof {
            lemma_same_settings(g, g7);
        }
        match self.parse_remembers() {
            Err(error) => {
                return Err(error);
            },
            Ok(_) => {},
        }
        let ghost g8 = self@;
        self.parse_power();
        let ghost g9 = self@;
        proof {
            lemma_same_settings(g, g9);
            lemma_keybinds_by_settings(g, g9);
        }
        self.parse_keybinds()
    }
}

/// What the settings ask for depends on the settings alone.
pub proof fn lemma_same_settings(g: GreeterView, h: GreeterView)
    requires
        h.same_settings(g),
    ensures
        h.has_greeting() == g.has_greeting(),
        h.has_issue() == g.has_issue(),
        h.has_asterisks() == g.has_asterisks(),
        h.asterisks() == g.asterisks(),
        h.malformed_env() == g.malformed_env(),
        h.given_time_format() == g.given_time_format(),
        h.time_format_fails() == g.time_format_fails(),
        h.has_user_menu() == g.has_user_menu(),
        forall|defs: Option<Seq<char>>| #[trigger] h.menu_uids(defs) == g.menu_uids(defs),
        forall|defs: Option<Seq<char>>| #[trigger] h.uid_range_fails(defs) == g.uid_range_fails(defs),
        h.has_remember() == g.has_remember(),
        h.has_remember_session() == g.has_remember_session(),
        h.has_remember_user_session() == g.has_remember_user_session(),
{
}

/// Whether the key bindings collide depends on the settings alone.
pub proof fn lemma_keybinds_by_settings(g: GreeterView, h: GreeterView)
    requires
        h.same_settings(g),
    ensures
        h.keybinds_parsed().keybinds_collide() == g.keybinds_parsed().keybinds_collide(),
{
    reveal(GreeterView::keybinds_parsed);
}

} // verus!
