//! A countdown-shutdown scheduling library.
//!
//! The crate resolves natural-language time expressions (Chinese and
//! English) into typed time inputs, runs a cancellable, pausable countdown
//! state machine over them, and encodes the scheduled task for recovery
//! after a restart.

pub mod clock;
pub mod components;
pub mod config;
pub mod countdown;
pub mod logger;
pub mod notification;
mod platform;
pub mod persistence;
pub mod shutdown;
pub mod strings;
pub mod system_compat;
pub mod system;
pub mod theme;
pub mod time_parser;
pub mod types;
