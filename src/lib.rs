//! Supervision of a single long-running worker process: the slot that holds
//! its handle, the decisions taken when it starts and stops, and the
//! forwarding of its output to the diagnostic sinks.
pub mod diagnostic;
pub mod decimal;
pub mod drainer;
pub mod supervisor;
