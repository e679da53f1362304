//! Declarations of the redis crate's types that the library carries through
//! its own values.  All of them are opaque here: the library never reads
//! inside them, and every protocol operation on them happens outside it.

use vstd::prelude::*;

verus! {

/// Relies on `redis::Client`: an opaque factory for connections to one Redis
/// server.  It is configured by the embedding application and carried through
/// the manager unread.
#[verifier::external_type_specification]
#[verifier::external_body]
pub struct ExClient(redis::Client);

/// Relies on `redis::aio::MultiplexedConnection`: the live asynchronous
/// transport object a connection handle wraps.
#[verifier::external_type_specification]
#[verifier::external_body]
pub struct ExMultiplexedConnection(redis::aio::MultiplexedConnection);

/// Relies on `redis::RedisError`: the transport-level error type.  The
/// library propagates such errors verbatim and never inspects them.
#[verifier::external_type_specification]
#[verifier::external_body]
pub struct ExRedisError(redis::RedisError);

} // verus!
