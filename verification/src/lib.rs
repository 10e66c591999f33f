//! A call bridge between a script engine and the host that embeds it.
//!
//! Scripts run on their own threads and call functions that the host
//! provides. Some of these finish at once, others later; the host's own
//! dispatcher never blocks. The library holds the rules of that exchange:
//! the registries of operations in flight, the queue of requests that only
//! the host's thread may serve, the status of background evaluations, and
//! the wire format of the values that cross the boundary.

pub mod async_eval;
pub mod channel;
pub mod engine;
pub mod error;
pub mod functions;
pub mod json;
pub mod text;
pub mod types;
pub mod values;
