//! Dependency detection and staged installation for OpenClaw, as pure
//! decisions: the library says what to run and what each result means, and
//! the program around it runs the commands.

pub mod config;
pub mod dependency;
pub mod detector;
pub mod executor;
pub mod installer;
pub mod json;
pub mod laws;
pub mod list;
pub mod pattern;
pub mod platform;
pub mod plugin;
pub mod progress;
pub mod text;
