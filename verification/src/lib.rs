//! Decision logic of a host-monitoring agent's command-and-control channel.
//!
//! The agent keeps one control connection to its controller. Everything that
//! touches a socket, a process or a clock lives with the caller; this crate
//! holds what is decided in between: which inbound frame starts which task,
//! what a task does with the outcome of its outside work, how a terminal
//! session moves from one state to the next, and how the telemetry snapshot
//! is put together and its delivery judged.

pub mod callbacks;
pub mod config;
pub mod data_struct;
pub mod http;
pub mod text;
