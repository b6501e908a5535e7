//! The engine of an interactive terminal launcher: a filterable list, a
//! one-line prompt and a message screen, each a state machine that consumes
//! keys and hands back an instruction for the driver that owns the terminal.

pub mod app;
pub mod config;
pub mod dispatch;
pub mod driver;
pub mod key;
pub mod style;
pub mod term;
pub mod text;
