//! The connection handle: one live connection plus its frozen expiry instant.

use vstd::prelude::*;
use crate::ttl::{Ttl, expiry_matches};

verus! {

/// True when an expiry instant exists and `now` has reached or passed it.
/// The recycling expiry check uses exactly this: "now >= expires_at", so two
/// equal timestamps already count as expired.
pub open spec fn expired(expires_at: Option<u64>, now: u64) -> bool {
    expires_at matches Some(e) && now >= e
}

/// The connection created by the pool manager.
///
/// It wraps one live connection together with the absolute instant after
/// which the handle must not be reused (`None` means it never expires on its
/// own).  The expiry is frozen at creation: no method of the library ever
/// extends or resets it, and an expired handle is destroyed, never renewed.
pub struct RedisConnection {
    actual: redis::aio::MultiplexedConnection,
    expires_at: Option<u64>,
}

impl RedisConnection {
    /// The frozen expiry instant.
    pub closed spec fn spec_expires_at(&self) -> Option<u64> {
        self.expires_at
    }

    /// The live transport object, exclusively owned by the handle.
    pub closed spec fn spec_connection(&self) -> redis::aio::MultiplexedConnection {
        self.actual
    }

    pub(crate) fn assemble(
        actual: redis::aio::MultiplexedConnection,
        expires_at: Option<u64>,
    ) -> (r: Self)
        ensures
            r.spec_connection() == actual,
            r.spec_expires_at() == expires_at,
    {
        RedisConnection { actual, expires_at }
    }

    /// Read the frozen expiry instant.
    pub fn expires_at(&self) -> (r: Option<u64>)
        ensures
            r == self.spec_expires_at(),
    {
        self.expires_at
    }

    /// Shared access to the underlying connection, for issuing protocol-level
    /// operations directly against it: the handle adds no buffering,
    /// batching, or protocol logic of its own.
    pub fn as_ref(&self) -> (r: &redis::aio::MultiplexedConnection)
        ensures
            r == self.spec_connection(),
    {
        &self.actual
    }

    /// Exclusive access to the underlying connection.  Whatever the caller
    /// does with it, the handle's expiry instant stays frozen.
    pub fn as_mut(&mut self) -> (r: &mut redis::aio::MultiplexedConnection)
        ensures
            *r == old(self).spec_connection(),
            final(self).spec_connection() == *final(r),
            final(self).spec_expires_at() == old(self).spec_expires_at(),
    {
        &mut self.actual
    }
}

/// Law: a handle created at instant `created` under the `Once` policy fails
/// the expiry check at every instant from `created` on — given any
/// non-negative clock advance, its very next recycle rejects it.
pub proof fn lemma_once_expires_immediately(created: u64, expiry: Option<u64>, now: u64)
    requires
        expiry_matches(Some(Ttl::Once), created, expiry),
        created <= now,
    ensures
        expired(expiry, now),
{
}

/// Law: a handle created with no ttl policy configured never fails the
/// expiry check, regardless of how much time has elapsed.
pub proof fn lemma_no_ttl_never_expires(created: u64, expiry: Option<u64>, now: u64)
    requires
        expiry_matches(None, created, expiry),
    ensures
        !expired(expiry, now),
{
}

} // verus!
