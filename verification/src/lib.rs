//! An actor/worker runtime: a plain stateful object is owned by one dedicated
//! worker thread, and callers reach it only through a cloneable controller
//! handle that sends commands over a channel and, for value-returning
//! operations, waits for the matching reply.

pub mod channel;
pub mod controller;
pub mod laws;
pub mod model;
pub mod protocol;
pub mod thingy;
pub mod worker;
