//! Simple asynchronous message passing between actors: the decisions of an
//! actor's runtime, stated and proved.
//!
//! An actor runs in a worker task that alternates between waiting (on its
//! mailbox, on futures and streams it spawned, on the delivery of a message)
//! and deciding what to do next. The waiting is done by the runtime around this
//! crate; every decision is made by [`worker::WorkerState::step`], whose
//! contract is an exact transition table with the lifecycle laws proved over it.

pub mod error;
pub mod message;
pub mod request;
pub mod task;
pub mod worker;

pub use error::Error;
