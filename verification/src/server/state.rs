//! Control-plane settings: proxy retry/timeout policy and instance identity.
//!
//! Durations are held as whole nanoseconds, the exact value of a
//! `std::time::Duration`.

use vstd::prelude::*;
use crate::text::{is_blank, trimmed};

verus! {

/// Nanoseconds in the largest `Duration` (`u64::MAX` seconds plus
/// 999_999_999 nanoseconds).
pub const DURATION_MAX_NANOS: u128 = 18446744073709551615999999999u128;

/// Smallest per-attempt timeout: 100 ms.
pub const MIN_TIMEOUT_NANOS: u128 = 100_000_000u128;
/// Largest per-attempt timeout: 120 s.
pub const MAX_TIMEOUT_NANOS: u128 = 120_000_000_000u128;
/// Largest number of retries after the first attempt.
pub const MAX_RETRIES: u32 = 5u32;
/// Smallest backoff: 10 ms.
pub const MIN_BACKOFF_NANOS: u128 = 10_000_000u128;
/// Largest backoff: 5 s.
pub const MAX_BACKOFF_NANOS: u128 = 5_000_000_000u128;

/// `v` clamped into `[lo, hi]`.
pub open spec fn clamp_spec(v: u128, lo: u128, hi: u128) -> u128 {
    if v < lo {
        lo
    } else if v > hi {
        hi
    } else {
        v
    }
}

/// Control-plane proxy retry/timeout policy used during request forwarding.
#[derive(Debug, Clone, Copy, PartialEq, Eq, Structural)]
pub struct ProxyPolicy {
    /// End-to-end timeout applied per upstream attempt, in nanoseconds.
    pub timeout: u128,
    /// Maximum retry attempts after an initial failed try.
    pub max_retries: u32,
    /// Base backoff delay between retry attempts, in nanoseconds.
    pub backoff: u128,
}

impl ProxyPolicy {
    /// Clamp caller-provided timeout/retry settings to safe runtime bounds:
    /// timeout into 100 ms..=120 s, retries to at most 5, backoff into
    /// 10 ms..=5 s.
    pub fn bounded(timeout: u128, max_retries: u32, backoff: u128) -> (r: Self)
        ensures
            r.timeout == clamp_spec(timeout, MIN_TIMEOUT_NANOS, MAX_TIMEOUT_NANOS),
            r.max_retries == (if max_retries < MAX_RETRIES { max_retries } else { MAX_RETRIES }),
            r.backoff == clamp_spec(backoff, MIN_BACKOFF_NANOS, MAX_BACKOFF_NANOS),
    {
        let t = if timeout < MIN_TIMEOUT_NANOS {
            MIN_TIMEOUT_NANOS
        } else if timeout > MAX_TIMEOUT_NANOS {
            MAX_TIMEOUT_NANOS
        } else {
            timeout
        };
        let b = if backoff < MIN_BACKOFF_NANOS {
            MIN_BACKOFF_NANOS
        } else if backoff > MAX_BACKOFF_NANOS {
            MAX_BACKOFF_NANOS
        } else {
            backoff
        };
        let m = if max_retries < MAX_RETRIES {
            max_retries
        } else {
            MAX_RETRIES
        };
        ProxyPolicy { timeout: t, max_retries: m, backoff: b }
    }
}

impl Default for ProxyPolicy {
    /// 5 s timeout, 2 retries, 200 ms backoff.
    fn default() -> (r: Self)
        ensures
            r.timeout == 5_000_000_000u128,
            r.max_retries == 2,
            r.backoff == 200_000_000u128,
    {
        ProxyPolicy { timeout: 5_000_000_000u128, max_retries: 2, backoff: 200_000_000u128 }
    }
}

/// Startup-loaded control-plane settings shared across routing/proxy services.
#[derive(Debug, Clone)]
pub struct ControlPlaneConfig {
    /// Unique identity for this running instance.
    pub instance_id: String,
    /// Emergency rollback switch that forces all requests to stay local.
    pub force_local_only: bool,
    /// Retry + timeout policy for remote forwarding.
    pub proxy: ProxyPolicy,
}

impl ControlPlaneConfig {
    /// Build config while normalizing a blank instance id to `local`.
    pub fn new(instance_id: String, force_local_only: bool, proxy: ProxyPolicy) -> (r: Self)
        ensures
            r.instance_id@ == (if trimmed(instance_id@).len() == 0 {
                "local"@
            } else {
                instance_id@
            }),
            r.force_local_only == force_local_only,
            r.proxy == proxy,
    {
        let id = if is_blank(instance_id.as_str()) {
            String::from_str("local")
        } else {
            instance_id
        };
        ControlPlaneConfig { instance_id: id, force_local_only, proxy }
    }
}

impl Default for ControlPlaneConfig {
    /// Instance `local`, forwarding allowed, default proxy policy.
    fn default() -> (r: Self)
        ensures
            r.instance_id@ == "local"@,
            !r.force_local_only,
            r.proxy.timeout == 5_000_000_000u128,
            r.proxy.max_retries == 2,
            r.proxy.backoff == 200_000_000u128,
    {
        ControlPlaneConfig {
            instance_id: String::from_str("local"),
            force_local_only: false,
            proxy: ProxyPolicy::default(),
        }
    }
}

/// Clamping is idempotent: bounding an already bounded policy changes
/// nothing, and every bounded policy lies within the limits.
pub proof fn law_bounded_policy_is_stable(timeout: u128, max_retries: u32, backoff: u128)
    ensures
        MIN_TIMEOUT_NANOS <= clamp_spec(timeout, MIN_TIMEOUT_NANOS, MAX_TIMEOUT_NANOS) <= MAX_TIMEOUT_NANOS,
        MIN_BACKOFF_NANOS <= clamp_spec(backoff, MIN_BACKOFF_NANOS, MAX_BACKOFF_NANOS) <= MAX_BACKOFF_NANOS,
        clamp_spec(clamp_spec(timeout, MIN_TIMEOUT_NANOS, MAX_TIMEOUT_NANOS), MIN_TIMEOUT_NANOS, MAX_TIMEOUT_NANOS)
            == clamp_spec(timeout, MIN_TIMEOUT_NANOS, MAX_TIMEOUT_NANOS),
        clamp_spec(clamp_spec(backoff, MIN_BACKOFF_NANOS, MAX_BACKOFF_NANOS), MIN_BACKOFF_NANOS, MAX_BACKOFF_NANOS)
            == clamp_spec(backoff, MIN_BACKOFF_NANOS, MAX_BACKOFF_NANOS),
{
}

} // verus!
