//! A TLS-enabling adapter around a stream-oriented connection acceptor.
//!
//! The accept path drains a configuration feed non-blockingly, installs the
//! most recently delivered configuration's compiled server context, accepts
//! one inner connection, and hands it back wrapped in a lazy TLS handshake
//! that captures the context current at that instant. The state machine that
//! makes these decisions lives here, fully verified; the polling, awaiting
//! and record-level I/O around it are left to an unverified front end.

pub mod acceptor;
pub mod config;
pub mod handshake;
pub mod listener;
