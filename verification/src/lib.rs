//! Native capability composition for a cross-platform application host.
//!
//! The crate decides which OS integrations are attached to the host for a
//! given build target, which log sinks are active, which commands the host
//! may dispatch, and how a secure document export proceeds from an encoded
//! payload to a single write into public storage.

pub mod codec;
pub mod commands;
pub mod export;
pub mod integrations;
pub mod logging;
pub mod platform;
pub mod startup;
