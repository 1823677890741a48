//! Completion cells that hand the outcome of one asynchronous transport
//! operation, completed by a callback on any thread, over to a task that a
//! cooperative scheduler polls and resumes.
//!
//! `SendCell` serves a producer that waits for readiness, submits one item
//! and flushes; `RecvCell` serves a consumer that pulls one item at a time.
//! The caller holds a cell under a lock shared with the transport's callback,
//! performs the submission that a step asks for, and resumes the handle that
//! a completion hands back.

pub mod progress;
pub mod recv_cell;
pub mod send_cell;

pub use progress::Progress;
pub use recv_cell::{PullStep, RecvCell};
pub use send_cell::SendCell;
