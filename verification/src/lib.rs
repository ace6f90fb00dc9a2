//! A local supervisor for a containerized backing service.
//!
//! The supervisor owns one listening endpoint, accepts one client connection
//! at a time, reads one line, and answers with one of `running`, `stopped` or
//! `error`. Handling a command may take blocking calls to an external
//! orchestration tool — query, bring up, bring down — whose results decide
//! the next step. This crate verifies that core: the protocol (`protocol`),
//! the per-command handler machine and the belief state it reconciles
//! (`supervisor`), and the properties the protocol promises its clients
//! (`laws`). The serve loop around it performs the endpoint and collaborator
//! I/O and feeds every result back through the verified step functions.

pub mod laws;
pub mod protocol;
pub mod supervisor;
