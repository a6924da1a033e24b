//! Domain-rule evaluation, rule sets, DNS filtering state and the service
//! runtime of a system-wide ad blocker, with their contracts.

pub mod text;
pub mod evaluation;
pub mod rules;
pub mod wfp;
pub mod network;
pub mod diagnostics;
pub mod updater;
pub mod config;
pub mod dns;
pub mod service;
pub mod cli;
pub mod host;
