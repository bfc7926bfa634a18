//! Bridge core for hosting script-defined dataflow nodes inside a native
//! runtime.
//!
//! A node of a dataflow graph (a Source, a Sink or an Operator) may be
//! implemented in a dynamically loaded scripting module while scheduling and
//! transport remain native.  This crate holds the verified core of that
//! bridge: the boundary value model, the configuration codec, the value
//! marshaller, the node lifecycle state machine, the interpreter-lock
//! discipline of the call bridge, and the per-node event-loop protocol of the
//! async bridge.  The embedded interpreter itself is reached only through a
//! small set of trusted wrappers and through the unverified shell around this
//! library.

pub mod assoc;
pub mod bridge;
pub mod clock;
pub mod config;
pub mod context;
pub mod error;
pub mod eventloop;
pub mod foreign;
pub mod lifecycle;
pub mod loader;
pub mod message;
pub mod ports;
pub mod timestamp;
pub mod token;
