//! Verified core of a pseudo-terminal session orchestrator for an SSH client.
//!
//! The library models and verifies the decision logic of an interactive
//! session: the password-capture state machine that decides when a remembered
//! password is injected and how the following output is treated, the encoding
//! of key events into terminal byte sequences, the bounded transcript buffer
//! and the search that recovers a typed password from it, the bounded input
//! queue, and the bookkeeping that keeps viewport, emulated screen and
//! pseudo-terminal dimensions consistent.
//!
//! Reading from and writing to the pseudo-terminal, process spawning and
//! event polling are left to a thin unverified shell that drives these
//! functions.

pub mod capture;
pub mod keys;
pub mod queue;
pub mod scan;
pub mod session;
pub mod sink;
pub mod size;
pub mod sshconfig;
pub mod transcript;
