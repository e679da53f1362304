//! Connection-lifecycle management for a pooled asynchronous Redis client.
//!
//! The crate owns the decision logic that a generic resource pool consults
//! when it creates or recycles connections: how an absolute expiry instant is
//! computed from a time-to-live policy, when a returned handle may be reused,
//! and how probe and factory failures are classified.  The pool itself, and
//! the wire protocol, are external collaborators.

pub mod handle;
pub mod manager;
pub mod ttl;

mod redis_types;
mod rng;
