//! Core logic of a small desktop application shell.
//!
//! The shell exposes one invocable command, `greet`, and wires a fixed set of
//! capability plugins (logging, filesystem access, window-state persistence,
//! single-instance enforcement on desktop targets, URL opening) into the host
//! runtime at startup. This crate holds the decisions the shell makes — the
//! greeting text, the plugin attachment order, the logging targets, and the
//! single-instance handler's response — with contracts that pin each of them
//! down. The host-runtime glue (window creation, the event loop, the actual
//! plugin attachment) lives outside this crate and consumes these decisions.

pub mod greeter;
pub mod plugins;
pub mod single_instance;
