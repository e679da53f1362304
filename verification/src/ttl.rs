//! Time-to-live policies and expiry computation.
//!
//! Times are absolute instants of a monotonic clock and durations, both
//! measured in the same unit (ticks) and carried as `u64`.  The embedding
//! application chooses the concrete unit when it converts its clock readings.

use vstd::prelude::*;
use crate::rng::random_below;

verus! {

/// Time to live of a connection.
#[derive(Clone, Copy, Debug)]
pub enum Ttl {
    /// Connection will expire after the given duration.
    Simple(u64),
    /// Connection will expire after at least `min` time and at most
    /// `min + fuzz` time.
    ///
    /// The actual ttl is computed at connection creation by adding `min` to a
    /// random duration drawn from `[0, fuzz)`, independently for every handle.
    Fuzzy { min: u64, fuzz: u64 },
    /// The connection will not be reused: it is already expired the moment it
    /// is created, so a fresh connection is made for every checkout.
    Once,
}

/// A ttl policy parameter outside its valid domain.
#[derive(Clone, Copy, Debug)]
pub enum TtlError {
    /// A `Fuzzy` policy with an empty fuzz range: the randomized component
    /// would degenerate to a constant, so the configuration is rejected
    /// rather than silently coerced to `Simple`.
    InvalidConfig,
}

/// A policy is well configured unless it is `Fuzzy` with an empty range.
pub open spec fn ttl_config_ok(policy: Option<Ttl>) -> bool {
    policy matches Some(Ttl::Fuzzy { fuzz, .. }) ==> fuzz > 0
}

/// The expiry instant that the policy yields never leaves `u64`.
pub open spec fn expiry_fits(policy: Option<Ttl>, now: u64) -> bool {
    match policy {
        None => true,
        Some(Ttl::Simple(d)) => now + d <= u64::MAX,
        Some(Ttl::Fuzzy { min, fuzz }) => now + min + fuzz <= u64::MAX,
        Some(Ttl::Once) => true,
    }
}

/// What `compute_expiry` returns on success: exactly the instant the policy
/// prescribes, except that a `Fuzzy` expiry is pinned only to its half-open
/// range (the draw is random).
pub open spec fn expiry_matches(policy: Option<Ttl>, now: u64, expiry: Option<u64>) -> bool {
    match policy {
        None => expiry is None,
        Some(Ttl::Simple(d)) => expiry matches Some(e) && e == now + d,
        Some(Ttl::Fuzzy { min, fuzz }) => expiry matches Some(e)
            && now + min <= e < now + min + fuzz,
        Some(Ttl::Once) => expiry == Some(now),
    }
}

/// Executable form of `expiry_fits`: the guard a caller can evaluate before
/// asking for an expiry computation.
pub fn expiry_fits_check(policy: &Option<Ttl>, now: u64) -> (r: bool)
    ensures
        r == expiry_fits(*policy, now),
{
    match policy {
        None => true,
        Some(Ttl::Simple(d)) => *d <= u64::MAX - now,
        Some(Ttl::Fuzzy { min, fuzz }) => {
            *min <= u64::MAX - now && *fuzz <= u64::MAX - now - *min
        },
        Some(Ttl::Once) => true,
    }
}

/// Law: a `Simple` policy is deterministic.  Any two expiries it admits for
/// the same creation instant agree, and both equal that instant plus the
/// configured duration.
pub proof fn lemma_simple_expiry_deterministic(d: u64, now: u64, e1: Option<u64>, e2: Option<u64>)
    requires
        expiry_matches(Some(Ttl::Simple(d)), now, e1),
        expiry_matches(Some(Ttl::Simple(d)), now, e2),
    ensures
        e1 == e2,
        e1 matches Some(e) && e == now + d,
{
}

/// Computes the absolute expiry instant of a handle created at `now` under
/// the given policy.  `None` as a policy, the only case without a concrete
/// strategy, means the handle never expires on its own.
pub fn compute_expiry(policy: &Option<Ttl>, now: u64) -> (r: Result<Option<u64>, TtlError>)
    requires
        expiry_fits(*policy, now),
    ensures
        r is Ok <==> ttl_config_ok(*policy),
        r matches Ok(e) ==> expiry_matches(*policy, now, e),
        r matches Err(e) ==> e == TtlError::InvalidConfig,
{
    match policy {
        None => Ok(None),
        Some(Ttl::Simple(d)) => Ok(Some(now + *d)),
        Some(Ttl::Fuzzy { min, fuzz }) => {
            if *fuzz == 0 {
                Err(TtlError::InvalidConfig)
            } else {
                let draw = random_below(*fuzz);
                Ok(Some(now + *min + draw))
            }
        },
        Some(Ttl::Once) => Ok(Some(now)),
    }
}

} // verus!
