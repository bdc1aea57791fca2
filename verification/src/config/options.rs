//! The settings that the command line provides.

use vstd::prelude::*;

verus! {

/// The options of one invocation: for each flag whether it is present, for
/// each option with an argument the argument, if the option is present.
#[derive(Debug)]
pub struct CommandLine {
    pub help: bool,
    pub version: bool,
    pub config: Option<String>,
    /// `--debug` takes an optional argument: the flag and the argument are
    /// kept apart.
    pub debug: bool,
    pub debug_file: Option<String>,
    pub cmd: Option<String>,
    /// The arguments of every `--env`, in order; absent if there is none.
    pub env: Option<Vec<String>>,
    pub sessions: Option<String>,
    pub session_wrapper: Option<String>,
    pub xsessions: Option<String>,
    pub xsession_wrapper: Option<String>,
    pub no_xsession_wrapper: bool,
    pub width: Option<String>,
    pub issue: bool,
    pub greeting: Option<String>,
    pub time: bool,
    pub time_format: Option<String>,
    pub remember: bool,
    pub remember_session: bool,
    pub remember_user_session: bool,
    pub user_menu: bool,
    pub user_menu_min_uid: Option<String>,
    pub user_menu_max_uid: Option<String>,
    pub theme: Option<String>,
    pub asterisks: bool,
    pub asterisks_char: Option<String>,
    pub window_padding: Option<String>,
    pub container_padding: Option<String>,
    pub prompt_padding: Option<String>,
    pub greet_align: Option<String>,
    pub power_shutdown: Option<String>,
    pub power_reboot: Option<String>,
    pub power_no_setsid: bool,
    pub kb_command: Option<String>,
    pub kb_sessions: Option<String>,
    pub kb_power: Option<String>,
}

impl CommandLine {
    /// No option is present.
    pub open spec fn is_unset(self) -> bool {
        &&& !self.help
        &&& !self.version
        &&& self.config is None
        &&& !self.debug
        &&& self.debug_file is None
        &&& self.cmd is None
        &&& self.env is None
        &&& self.sessions is None
        &&& self.session_wrapper is None
        &&& self.xsessions is None
        &&& self.xsession_wrapper is None
        &&& !self.no_xsession_wrapper
        &&& self.width is None
        &&& !self.issue
        &&& self.greeting is None
        &&& !self.time
        &&& self.time_format is None
        &&& !self.remember
        &&& !self.remember_session
        &&& !self.remember_user_session
        &&& !self.user_menu
        &&& self.user_menu_min_uid is None
        &&& self.user_menu_max_uid is None
        &&& self.theme is None
        &&& !self.asterisks
        &&& self.asterisks_char is None
        &&& self.window_padding is None
        &&& self.container_padding is None
        &&& self.prompt_padding is None
        &&& self.greet_align is None
        &&& self.power_shutdown is None
        &&& self.power_reboot is None
        &&& !self.power_no_setsid
        &&& self.kb_command is None
        &&& self.kb_sessions is None
        &&& self.kb_power is None
    }
}

impl Default for CommandLine {
    fn default() -> (r: CommandLine)
        ensures
            r.is_unset(),
    {
        CommandLine {
            help: false,
            version: false,
            config: None,
            debug: false,
            debug_file: None,
            cmd: None,
            env: None,
            sessions: None,
            session_wrapper: None,
            xsessions: None,
            xsession_wrapper: None,
            no_xsession_wrapper: false,
            width: None,
            issue: false,
            greeting: None,
            time: false,
            time_format: None,
            remember: false,
            remember_session: false,
            remember_user_session: false,
            user_menu: false,
            user_menu_min_uid: None,
            user_menu_max_uid: None,
            theme: None,
            asterisks: false,
            asterisks_char: None,
            window_padding: None,
            container_padding: None,
            prompt_padding: None,
            greet_align: None,
            power_shutdown: None,
            power_reboot: None,
            power_no_setsid: false,
            kb_command: None,
            kb_sessions: None,
            kb_power: None,
        }
    }
}

} // verus!
