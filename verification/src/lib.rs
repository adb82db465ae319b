//! Bring-up logic for a Lightning node daemon: the decisions, state machines and
//! text formats that take a configured node to an unlocked, serving one.

pub mod alias;
pub mod backend;
pub mod bootstrap;
pub mod bootstrap_laws;
pub mod commands;
pub mod config;
pub mod fault;
pub mod iface;
pub mod json;
pub mod paths;
pub mod properties;
pub mod readiness;
pub mod requests;
pub mod retry;
pub mod secret;
pub mod sequencer;
pub mod text;
pub mod watchtower;
