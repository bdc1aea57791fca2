//! A greeter for the terminal: the part that decides.
//!
//! The greeter asks for a username, lets a session daemon ask its questions,
//! and has the daemon start the session that the user chose. This crate
//! holds what the greeter decides, and nothing of what it does to the world:
//!
//! - [`greeter`] is the state of the application, and how it is wiped and
//!   reset;
//! - [`keyboard`] says what each key press does to the state, [`ipc`] what
//!   each response of the daemon does to it and how requests wait their
//!   turn, [`power`] how the machine is shut down, and [`main_loop`] what
//!   the main loop does about each event;
//! - [`sessions`] resolves the selection of the user to a command, and
//!   [`ipc::wrap_session_command`] to the command line and the environment
//!   that the daemon is given;
//! - [`config`], [`startup`], [`info`] and [`desktop`] make the state from
//!   the settings and from what was read from the system;
//! - [`util`], [`prompt`] and [`style`] compute sizes, positions, masks and
//!   colors for the screen;
//! - [`laws`] states what holds of all of this together.
//!
//! Every function takes values and returns values. A transition takes the
//! state and an event, changes the state, and returns the actions that the
//! surrounding program has to carry out: requests to queue, files to write,
//! commands to run. Each function says in its contract what it returns, over
//! the mathematical content of its arguments.

pub mod config;
pub mod desktop;
pub mod event;
pub mod greeter;
pub mod info;
pub mod ipc;
pub mod keyboard;
pub mod laws;
pub mod main_loop;
pub mod masked;
pub mod menu;
pub mod numbers;
pub mod power;
pub mod prompt;
pub mod safe_debug;
pub mod sessions;
pub mod startup;
pub mod style;
pub mod text;
pub mod users;
pub mod util;

pub use self::greeter::{AuthStatus, GreetAlign, Greeter, Mode, SecretDisplay};
