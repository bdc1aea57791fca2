//! Settings from the command line and from the configuration file.

pub mod file;
pub mod options;
pub mod parser;
