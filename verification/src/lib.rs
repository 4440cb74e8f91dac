//! The decisions of an input-source switcher for macOS.
//!
//! The program watches which application is active and selects the keyboard
//! input source that its configuration names for that application. This crate
//! holds what the program decides; reading the environment, the files and the
//! system's input sources is left to the program around it.

pub mod clock;
pub mod config;
pub mod follow;
pub mod launch;
pub mod level;
pub mod load;
pub mod logging;
pub mod paths;
pub mod process;
pub mod rules;
pub mod sources;
pub mod text;
pub mod watch;
