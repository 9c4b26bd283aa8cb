//! A bridge between a producer runtime's asynchronous tasks and a consumer
//! runtime's futures: a write-once completion slot, the adapter state machine
//! that joins the two suspension models, the consumer-facing handle, and the
//! laws that hold of every sequence of events on one operation.

pub mod adapter;
pub mod descriptor;
pub mod handle;
pub mod laws;
pub mod slot;
