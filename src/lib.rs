//! Safe start-up of a native plugin that a host process maps into itself.
//!
//! The library decides what the host-facing entry points do: it records the
//! module identity once, caches whether a cooperating loader is present,
//! arbitrates between running start-up on a deferred thread or leaving it to
//! the loader, guards the one-time fault hook and debugger wait, and settles
//! what the fault boundary does with each outcome of the payload.

pub mod once;
pub mod handle;
pub mod coordinator;
pub mod boundary;
pub mod config;
pub mod laws;
