//! Droplet launches one configured service, optionally refreshing a dynamic-DNS
//! record first and synchronising a git working tree around the run.
//!
//! This crate holds the decisions: the command-line settings, the validation of
//! the declarative configuration, what each step runs, and the order and failure
//! policy of the steps. Performing a step (spawning a process, issuing a
//! request, touching the disk) is left to the caller.

pub mod settings;
pub mod document;
pub mod error;
pub mod config;
pub mod raw;
pub mod validate;
pub mod dns;
pub mod service;
pub mod sync;
pub mod orchestrator;
