//! Control-plane logic of a micro-VM sandbox orchestrator.
//!
//! The crate computes, and proves properties of, everything the orchestrator
//! decides: the address block of a sandbox, the host commands that wire and
//! unwire its network, the jailer command line and chroot layout, the
//! sequence of steps that boots a sandbox, and the registry of live
//! sandboxes. Running the commands and talking to sockets is left to the
//! caller.

pub mod commands;
pub mod creation;
pub mod error;
pub mod guest;
pub mod id;
pub mod initializer;
pub mod jailer;
pub mod models;
pub mod network;
pub mod registry;
pub mod sandbox;
pub mod text;
