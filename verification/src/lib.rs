//! Decision logic of a small HTTP service that powers a machine off, reboots
//! it or puts it to sleep through the host's service manager.
//!
//! The service runs one command per request and answers with a status and a
//! fixed text. Everything that is decided on the way lives here: which command
//! line stands for an action, how the command's exit code and standard error
//! are judged, and which reply each judgement earns. Running the command,
//! reading files and serving HTTP are left to the program around this crate.
pub mod action;
pub mod api;
pub mod config;
pub mod outcome;
pub mod reply;
pub mod text;
