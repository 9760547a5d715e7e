//! Orchestration core of a multi-device synchronization client.
//!
//! The crate decides what one synchronization pass does: which stores are
//! available, whether a request is valid, which stores run, and how the
//! outcomes of a pass fold into the result handed to the caller. The stores
//! themselves and the remote service live outside; the caller performs the
//! actions this crate plans and reports back what happened.

pub mod clients;
pub mod credentials;
pub mod error;
pub mod manager;
pub mod msg_types;
pub mod pass;
pub mod text;
