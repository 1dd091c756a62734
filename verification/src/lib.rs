//! Verified core of an HTTP gateway in front of a single home-automation hub.
//!
//! The hub accepts one authenticated session at a time and its operations are
//! blocking, order-sensitive calls.  This crate holds the logic that must get
//! session state, serialization and failure handling right: the credential
//! record and its persisted format, the session coordinator's state machine,
//! the mapping from client intents to hub operations, and the serialization
//! discipline under which at most one hub call is ever in flight.
//!
//! Everything that talks to the outside world (HTTP transport, the hub wire
//! protocol, the file system) lives outside this crate and drives these
//! functions with plain values.

pub mod api;
pub mod boundary;
pub mod codec;
pub mod coordinator;
pub mod credentials;
pub mod dispatch;
pub mod laws;
pub mod serial;
