//! A minimal desktop-application shell: one native command that formats a
//! greeting for the GUI front-end, and the fixed diagnostic used when the
//! host framework's event loop cannot be started.
//!
//! The host framework's window management and command dispatch live in the
//! surrounding application; this crate holds the behaviour that can be
//! stated and proved: the command handler is a pure, total function of its
//! input.

pub mod bootstrap;
pub mod greeting;
