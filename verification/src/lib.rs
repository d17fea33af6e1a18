//! Core of a keyboard-driven terminal client: a chord-resolving keymap state
//! machine, a pipeline from abstract actions to state-mutating commands, and
//! the tick-by-tick discipline that keeps rendering, input polling and
//! command execution from corrupting the shared application state.

pub mod app;
pub mod commands;
pub mod config;
pub mod doc;
pub mod keymap;
pub mod listener;
pub mod response;
