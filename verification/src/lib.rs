//! Verified planning and command construction for the Sutra community modules.
//!
//! Every module is split into pure decisions (which probe to run, what a probe
//! reply means, which command applies a task, what its output reports); the
//! driver that talks to a node feeds those decisions with command output.

pub mod command;
pub mod text;
pub mod task;
pub mod steps;

pub mod modules;
