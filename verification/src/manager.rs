//! The connection manager: the two lifecycle decisions a generic resource
//! pool consults.
//!
//! The pool calls the manager when it needs a fresh connection and when it is
//! about to hand a previously-issued handle to a new borrower.  Opening a
//! connection and probing one are network operations performed outside the
//! library; the manager owns only the decision logic layered on top: which
//! expiry a new handle freezes, and whether a returned handle may be reused.

use vstd::prelude::*;
use crate::handle::{RedisConnection, expired};
use crate::ttl::{Ttl, TtlError, compute_expiry, expiry_fits, expiry_matches, ttl_config_ok};

verus! {

/// Why `create` produced no handle.
#[derive(Debug)]
pub enum CreateError {
    /// Transport-level failure while opening the connection, surfaced
    /// verbatim from the factory and never retried here.
    Connection(redis::RedisError),
    /// The configured ttl policy is outside its valid domain.
    Config(TtlError),
}

/// What the liveness probe of a recycling attempt came to.  The probe itself
/// is a network operation and runs outside the library; its outcome is handed
/// back in for the verdict.
#[derive(Debug)]
pub enum ProbeOutcome {
    /// No probe was issued: validation on recycle is disabled.
    Skipped,
    /// The probe completed; the boolean is the answer it returned.  Only the
    /// probe's own success matters, not the answer.
    Answered(bool),
    /// The probe itself failed; carries the underlying transport error.
    Failed(redis::RedisError),
}

/// Why a handle must not be reused.  Either way the pool must drop the
/// handle; it is never repaired or renewed.
#[derive(Debug)]
pub enum RecycleRejection {
    /// The liveness probe failed; carries the underlying transport error.
    ProbeFailed(redis::RedisError),
    /// The handle's ttl elapsed: a terminal verdict with no underlying cause.
    Expired,
}

/// Manages creation and destruction of redis connections.
///
/// The configuration is immutable after construction, so one manager may be
/// consulted concurrently from any number of pool workers.
pub struct RedisConnectionManager {
    client: redis::Client,
    check_on_recycle: bool,
    connection_ttl: Option<Ttl>,
}

impl RedisConnectionManager {
    /// Whether a liveness probe is issued before each reuse.
    pub closed spec fn spec_check_on_recycle(&self) -> bool {
        self.check_on_recycle
    }

    /// The configured ttl policy; `None` means handles never expire.
    pub closed spec fn spec_ttl(&self) -> Option<Ttl> {
        self.connection_ttl
    }

    /// The configured connection factory.
    pub closed spec fn spec_client(&self) -> redis::Client {
        self.client
    }

    /// Create a new connection manager.
    ///
    /// If `check_on_recycle` is true, an existence probe is issued before
    /// each connection reuse; if the probe fails to complete, the connection
    /// is dropped and a fresh one is created.
    ///
    /// If `connection_ttl` is set, each connection is recreated once its
    /// computed ttl has elapsed.
    pub fn new(
        client: redis::Client,
        check_on_recycle: bool,
        connection_ttl: Option<Ttl>,
    ) -> (r: Self)
        ensures
            r.spec_client() == client,
            r.spec_check_on_recycle() == check_on_recycle,
            r.spec_ttl() == connection_ttl,
    {
        Self { client, check_on_recycle, connection_ttl }
    }

    /// The factory used to open connections, shared and read-only.
    pub fn client(&self) -> (r: &redis::Client)
        ensures
            r == self.spec_client(),
    {
        &self.client
    }

    /// The configured ttl policy.
    pub fn connection_ttl(&self) -> (r: Option<Ttl>)
        ensures
            r == self.spec_ttl(),
    {
        self.connection_ttl
    }

    /// Whether recycling must issue a liveness probe.  When this returns
    /// false, no probe belongs in the recycling sequence at all.
    pub fn should_probe(&self) -> (r: bool)
        ensures
            r == self.spec_check_on_recycle(),
    {
        self.check_on_recycle
    }

    /// Finish `create`: given the factory's outcome for the one connection
    /// attempt and the creation instant `now`, either propagate the failure
    /// verbatim or wrap the new connection together with its frozen expiry.
    ///
    /// A factory failure is reported as-is and produces no handle; retry and
    /// backoff belong to the owning pool, not here.
    pub fn create_handle(
        &self,
        conn: Result<redis::aio::MultiplexedConnection, redis::RedisError>,
        now: u64,
    ) -> (r: Result<RedisConnection, CreateError>)
        requires
            expiry_fits(self.spec_ttl(), now),
        ensures
            r is Ok <==> (conn is Ok && ttl_config_ok(self.spec_ttl())),
            conn matches Err(e) ==> r matches Err(f) && f == CreateError::Connection(e),
            (conn is Ok && !ttl_config_ok(self.spec_ttl())) ==> (r matches Err(f)
                && f == CreateError::Config(TtlError::InvalidConfig)),
            r matches Ok(h) ==> (conn matches Ok(c)
                && h.spec_connection() == c
                && expiry_matches(self.spec_ttl(), now, h.spec_expires_at())),
    {
        match conn {
            Err(e) => Err(CreateError::Connection(e)),
            Ok(c) => match compute_expiry(&self.connection_ttl, now) {
                Err(e) => Err(CreateError::Config(e)),
                Ok(expiry) => Ok(RedisConnection::assemble(c, expiry)),
            },
        }
    }

    /// Decide whether a returned handle may be reused, given the outcome of
    /// the liveness probe (if one was issued), the handle's frozen expiry
    /// instant, and the current time `now`.
    ///
    /// A failed probe rejects the handle before the expiry check is ever
    /// evaluated, carrying the underlying cause; a completed probe passes
    /// whatever it answered.  Then the handle is rejected as expired exactly
    /// when its expiry instant exists and `now` has reached or passed it.
    /// Success means the handle goes to the next borrower unchanged.
    pub fn recycle_verdict(
        &self,
        expires_at: Option<u64>,
        probe: ProbeOutcome,
        now: u64,
    ) -> (r: Result<(), RecycleRejection>)
        ensures
            probe matches ProbeOutcome::Failed(e) ==> (r matches Err(rej)
                && rej == RecycleRejection::ProbeFailed(e)),
            (!(probe is Failed) && expired(expires_at, now)) ==> (r matches Err(rej)
                && rej == RecycleRejection::Expired),
            (!(probe is Failed) && !expired(expires_at, now)) ==> r is Ok,
    {
        match probe {
            ProbeOutcome::Failed(e) => Err(RecycleRejection::ProbeFailed(e)),
            ProbeOutcome::Skipped | ProbeOutcome::Answered(_) => {
                match expires_at {
                    Some(e) => {
                        if now >= e {
                            Err(RecycleRejection::Expired)
                        } else {
                            Ok(())
                        }
                    },
                    None => Ok(()),
                }
            },
        }
    }
}

} // verus!
