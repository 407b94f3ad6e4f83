//! The core of a dual-write reverse proxy filter.
//!
//! Every inbound request goes to the primary upstream unchanged. At most once
//! per request, a copy is handed out for delivery to a shadow upstream. What
//! happens to that copy never reaches the client.
//!
//! The filter does no I/O. A host proxy calls its hooks at the right points of
//! a request's life, reads the body, makes the shadow call, and writes the log.

pub mod decorate;
pub mod dispatch;
pub mod error;
pub mod exchange;
pub mod filter;
pub mod guard;
pub mod header;
pub mod laws;
pub mod peer;
pub mod snapshot;
pub mod target;

pub use filter::DualWriteProxy;
