//! Session lifecycle engine for a privilege-elevation broker.
//!
//! A privileged background service lets an authenticated unprivileged client
//! run a program as another user. The client drives one `Session` per
//! elevation request over a message bus: it configures the command, asks the
//! broker to spawn it behind a pseudo-terminal or behind pipes, receives the
//! descriptors, and signals the child. A background reaper unpublishes
//! sessions whose child has exited.
//!
//! This crate holds the verified core of that service: the session state
//! machine, the caller-binding and policy-decision rules, the registry of
//! live session ids, and the wire-level error classification. The bus
//! transport, the policy-authority round trip, and the actual process
//! spawning are performed by an unverified shell, which feeds their outcomes
//! into the functions here as plain values.

pub mod attachment;
pub mod command;
pub mod dispatcher;
pub mod error;
pub mod path;
pub mod registry;
pub mod session;
pub mod signals;

pub use error::ErrorKind;
