//! Control-plane counters.
//!
//! Each routing decision and proxy event bumps one counter; counters wrap
//! around at `u64::MAX` as atomic `fetch_add` does.

use vstd::prelude::*;
use crate::control_plane::{RemoteTarget, WorkspaceSelector};
use crate::control_plane::policy::HttpMethod;

verus! {

/// `x + 1`, wrapping to zero past `u64::MAX`.
pub open spec fn bump(x: u64) -> u64 {
    if x == u64::MAX {
        0
    } else {
        (x + 1) as u64
    }
}

/// The counters' values.
pub struct MetricsModel {
    pub decisions_local: u64,
    pub decisions_forward: u64,
    pub forward_attempts: u64,
    pub forward_retries: u64,
    pub forward_timeout_failures: u64,
}

/// In-memory control-plane counters used as metric hooks.
#[derive(Debug)]
pub struct ControlPlaneMetrics {
    decisions_local: u64,
    decisions_forward: u64,
    forward_attempts: u64,
    forward_retries: u64,
    forward_timeout_failures: u64,
}

impl View for ControlPlaneMetrics {
    type V = MetricsModel;

    closed spec fn view(&self) -> MetricsModel {
        MetricsModel {
            decisions_local: self.decisions_local,
            decisions_forward: self.decisions_forward,
            forward_attempts: self.forward_attempts,
            forward_retries: self.forward_retries,
            forward_timeout_failures: self.forward_timeout_failures,
        }
    }
}

fn inc(x: u64) -> (r: u64)
    ensures
        r == bump(x),
{
    x.wrapping_add(1)
}

impl Default for ControlPlaneMetrics {
    /// All counters at zero.
    fn default() -> (r: Self)
        ensures
            r@ == (MetricsModel {
                decisions_local: 0,
                decisions_forward: 0,
                forward_attempts: 0,
                forward_retries: 0,
                forward_timeout_failures: 0,
            }),
    {
        ControlPlaneMetrics {
            decisions_local: 0,
            decisions_forward: 0,
            forward_attempts: 0,
            forward_retries: 0,
            forward_timeout_failures: 0,
        }
    }
}

impl ControlPlaneMetrics {
    /// Record a selector-resolved request that stayed local.
    pub fn record_local_decision(&mut self, selector: &WorkspaceSelector, method: &HttpMethod, path: &str)
        ensures
            final(self)@ == (MetricsModel { decisions_local: bump(old(self)@.decisions_local), ..old(self)@ }),
    {
        self.decisions_local = inc(self.decisions_local);
    }

    /// Record a selector-resolved request that will be forwarded.
    pub fn record_forward_decision(
        &mut self,
        selector: &WorkspaceSelector,
        method: &HttpMethod,
        path: &str,
        target: &RemoteTarget,
    )
        ensures
            final(self)@ == (MetricsModel { decisions_forward: bump(old(self)@.decisions_forward), ..old(self)@ }),
    {
        self.decisions_forward = inc(self.decisions_forward);
    }

    /// Record one upstream proxy attempt.
    pub fn record_forward_attempt(&mut self, attempt: u32, target_url: &str)
        ensures
            final(self)@ == (MetricsModel { forward_attempts: bump(old(self)@.forward_attempts), ..old(self)@ }),
    {
        self.forward_attempts = inc(self.forward_attempts);
    }

    /// Record one retry after an upstream failure.
    pub fn record_forward_retry(&mut self, attempt: u32, cause: &str)
        ensures
            final(self)@ == (MetricsModel { forward_retries: bump(old(self)@.forward_retries), ..old(self)@ }),
    {
        self.forward_retries = inc(self.forward_retries);
    }

    /// Record final timeout exhaustion after retries.
    pub fn record_timeout_failure(&mut self, attempts: u32)
        ensures
            final(self)@ == (MetricsModel {
                forward_timeout_failures: bump(old(self)@.forward_timeout_failures),
                ..old(self)@
            }),
    {
        self.forward_timeout_failures = inc(self.forward_timeout_failures);
    }

    /// Number of local routing decisions observed.
    pub fn decisions_local(&self) -> (r: u64)
        ensures
            r == self@.decisions_local,
    {
        self.decisions_local
    }

    /// Number of forward routing decisions observed.
    pub fn decisions_forward(&self) -> (r: u64)
        ensures
            r == self@.decisions_forward,
    {
        self.decisions_forward
    }

    /// Number of upstream attempt executions observed.
    pub fn forward_attempts(&self) -> (r: u64)
        ensures
            r == self@.forward_attempts,
    {
        self.forward_attempts
    }

    /// Number of retries observed after non-success attempts.
    pub fn forward_retries(&self) -> (r: u64)
        ensures
            r == self@.forward_retries,
    {
        self.forward_retries
    }

    /// Number of final timeout failures observed.
    pub fn forward_timeout_failures(&self) -> (r: u64)
        ensures
            r == self@.forward_timeout_failures,
    {
        self.forward_timeout_failures
    }
}

} // verus!
