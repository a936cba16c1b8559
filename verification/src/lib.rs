//! Core of an SMTP receiver: the per-connection state machine that
//! drives an SMTP conversation, optionally upgrades the channel to TLS,
//! authenticates the client, assembles a mail transaction and routes
//! the completed mail to a queue and its worker.
//!
//! The library is pure: the machine in [`session`] consumes events —
//! wire lines, policy hook results, TLS, SASL, queue and handoff
//! outcomes — and produces the replies to write and the next outside
//! action to run. The surrounding process performs the I/O and feeds
//! each outcome back as the next event.
pub mod auth;
pub mod body;
pub mod command;
pub mod context;
pub mod laws;
pub mod reply;
pub mod session;
