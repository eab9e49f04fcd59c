//! Brightness control for a display exposed as one integer control node,
//! with a one-slot backup for power transitions and configurable increments.
//!
//! The modules go from values to commands: `brightness` derives the screen
//! state and bounded steps, `text` reads and writes the decimal text of the
//! nodes, `config` holds the increments, `command` reads a command line, and
//! `control` decides what each command writes and reports.
pub mod brightness;
pub mod text;
pub mod config;
pub mod command;
pub mod control;
