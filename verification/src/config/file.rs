//! The settings that a configuration file provides.

use vstd::prelude::*;

verus! {

/// The content of a configuration file, section by section.
#[derive(Debug)]
pub struct FileConfig {
    pub defaults: Defaults,
    pub sessions: Sessions,
    pub remember: Remember,
    pub ui: Ui,
}

/// General settings.
#[derive(Debug)]
pub struct Defaults {
    pub debug: Option<String>,
    pub command: Option<String>,
    pub env: Option<Vec<String>>,
    pub user_min_uid: Option<u16>,
    pub user_max_uid: Option<u16>,
    pub power_no_setsid: bool,
    pub shutdown_command: Option<String>,
    pub reboot_command: Option<String>,
}

/// Where sessions are found and how they are wrapped.
#[derive(Debug)]
pub struct Sessions {
    pub wayland_paths: Option<Vec<String>>,
    pub wayland_wrapper: Option<String>,
    pub x11_paths: Option<Vec<String>>,
    pub x11_wrapper: Option<String>,
    pub x11_wrapper_disabled: bool,
}

/// What is remembered from one login to the next.
#[derive(Debug)]
pub struct Remember {
    pub last_user: bool,
    pub last_session: bool,
    pub last_user_session: bool,
}

/// Appearance and key bindings.
#[derive(Debug)]
pub struct Ui {
    pub greeting: Option<String>,
    pub use_issue: bool,
    pub show_time: bool,
    pub time_format: Option<String>,
    pub show_user_menu: bool,
    pub show_asterisks: bool,
    pub asterisks_char: Option<char>,
    pub width: Option<u16>,
    pub window_padding: Option<u16>,
    pub container_padding: Option<u16>,
    pub prompt_padding: Option<u16>,
    pub greet_align: Option<String>,
    pub command_f_key: Option<u8>,
    pub sessions_f_key: Option<u8>,
    pub power_f_key: Option<u8>,
}

impl Defaults {
    /// Nothing is set.
    pub open spec fn is_unset(self) -> bool {
        &&& self.debug is None
        &&& self.command is None
        &&& self.env is None
        &&& self.user_min_uid is None
        &&& self.user_max_uid is None
        &&& !self.power_no_setsid
        &&& self.shutdown_command is None
        &&& self.reboot_command is None
    }
}

impl Default for Defaults {
    fn default() -> (r: Defaults)
        ensures
            r.is_unset(),
    {
        Defaults {
            debug: None,
            command: None,
            env: None,
            user_min_uid: None,
            user_max_uid: None,
            power_no_setsid: false,
            shutdown_command: None,
            reboot_command: None,
        }
    }
}

impl Sessions {
    /// Nothing is set.
    pub open spec fn is_unset(self) -> bool {
        &&& self.wayland_paths is None
        &&& self.wayland_wrapper is None
        &&& self.x11_paths is None
        &&& self.x11_wrapper is None
        &&& !self.x11_wrapper_disabled
    }
}

impl Default for Sessions {
    fn default() -> (r: Sessions)
        ensures
            r.is_unset(),
    {
        Sessions {
            wayland_paths: None,
            wayland_wrapper: None,
            x11_paths: None,
            x11_wrapper: None,
            x11_wrapper_disabled: false,
        }
    }
}

impl Remember {
    /// Nothing is set.
    pub open spec fn is_unset(self) -> bool {
        &&& !self.last_user
        &&& !self.last_session
        &&& !self.last_user_session
    }
}

impl Default for Remember {
    fn default() -> (r: Remember)
        ensures
            r.is_unset(),
    {
        Remember { last_user: false, last_session: false, last_user_session: false }
    }
}

impl Ui {
    /// Nothing is set.
    pub open spec fn is_unset(self) -> bool {
        &&& self.greeting is None
        &&& !self.use_issue
        &&& !self.show_time
        &&& self.time_format is None
        &&& !self.show_user_menu
        &&& !self.show_asterisks
        &&& self.asterisks_char is None
        &&& self.width is None
        &&& self.window_padding is None
        &&& self.container_padding is None
        &&& self.prompt_padding is None
        &&& self.greet_align is None
        &&& self.command_f_key is None
        &&& self.sessions_f_key is None
        &&& self.power_f_key is None
    }
}

impl Default for Ui {
    fn default() -> (r: Ui)
        ensures
            r.is_unset(),
    {
        Ui {
            greeting: None,
            use_issue: false,
            show_time: false,
            time_format: None,
            show_user_menu: false,
            show_asterisks: false,
            asterisks_char: None,
            width: None,
            window_padding: None,
            container_padding: None,
            prompt_padding: None,
            greet_align: None,
            command_f_key: None,
            sessions_f_key: None,
            power_f_key: None,
        }
    }
}

impl FileConfig {
    /// No section sets anything.
    pub open spec fn is_unset(self) -> bool {
        &&& self.defaults.is_unset()
        &&& self.sessions.is_unset()
        &&& self.remember.is_unset()
        &&& self.ui.is_unset()
    }
}

impl Default for FileConfig {
    fn default() -> (r: FileConfig)
        ensures
            r.is_unset(),
    {
        FileConfig {
            defaults: Defaults::default(),
            sessions: Sessions::default(),
            remember: Remember::default(),
            ui: Ui::default(),
        }
    }
}

} // verus!
