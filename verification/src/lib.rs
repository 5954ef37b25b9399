//! A verified core for an interactive cloud-deployment wizard.
//!
//! The library holds the pure logic of the wizard: the menu state machine,
//! the configuration text codec, the command plans for each action, the
//! classification of command outcomes, and log-line formatting.  All file,
//! terminal and subprocess work is left to the surrounding application,
//! which hands plain values in and out.

pub mod actions;
pub mod config;
pub mod logger;
pub mod menu;
pub mod runner;
pub mod scripts;
pub mod text;
