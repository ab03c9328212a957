//! Adaptive per-worker backoff: remote failures raise an attempt level and
//! with it an artificial delay, remote successes lower it, and a hard ceiling
//! turns a run of failures into a permanent stop.

use vstd::prelude::*;

verus! {

/// Per-worker delay and attempt-budget controller.
///
/// The level `i` starts at 0. Each failure hardens the token (level up), each
/// success eases it (level down, never below 0). The delay before the next
/// attempt is `delay_step * i` milliseconds. Once `i` reaches `limit` the
/// token is stopped for good: easing a stopped token is a no-op, so a worker
/// that exhausted its budget cannot revive itself.
#[derive(Debug, Clone, Copy, PartialEq, Eq, Structural)]
pub struct RegulationToken {
    /// Failure ceiling: the token stops once `i >= limit`.
    pub limit: u32,
    /// Milliseconds of delay added per failure level.
    pub delay_step: u32,
    /// Current attempt level.
    pub i: u32,
}

impl RegulationToken {
    /// The delay, in milliseconds, owed before the next attempt.
    pub open spec fn spec_delay(self) -> int {
        self.delay_step * self.i
    }

    /// A stopped token ends its worker: the failure budget is spent.
    pub open spec fn spec_stopped(self) -> bool {
        self.i >= self.limit
    }

    /// The token after one remote success: one level down, except that a
    /// stopped token and a fresh one are left as they are.
    pub open spec fn eased(self) -> RegulationToken {
        if self.spec_stopped() || self.i == 0 {
            self
        } else {
            RegulationToken { limit: self.limit, delay_step: self.delay_step, i: (self.i - 1) as u32 }
        }
    }

    /// The token after one remote failure: one level up, saturating at the
    /// top of the machine range (far beyond any reachable ceiling).
    pub open spec fn hardened(self) -> RegulationToken {
        if self.i == u32::MAX {
            self
        } else {
            RegulationToken { limit: self.limit, delay_step: self.delay_step, i: (self.i + 1) as u32 }
        }
    }

    pub fn new(limit: u32, delay_step: u32) -> (t: RegulationToken)
        ensures
            t.limit == limit,
            t.delay_step == delay_step,
            t.i == 0,
    {
        RegulationToken { limit, delay_step, i: 0 }
    }

    pub fn delay(&self) -> (d: u64)
        ensures
            d == self.spec_delay(),
    {
        let step: u64 = self.delay_step as u64;
        let level: u64 = self.i as u64;
        proof {
            assert(step * level < 0x1_0000_0000_0000_0000) by (nonlinear_arith)
                requires
                    step < 0x1_0000_0000,
                    level < 0x1_0000_0000,
            ;
        }
        step * level
    }

    pub fn is_stopped(&self) -> (b: bool)
        ensures
            b == self.spec_stopped(),
    {
        self.i >= self.limit
    }

    pub fn ease(&mut self)
        ensures
            *final(self) == old(self).eased(),
    {
        if self.i < self.limit && self.i != 0 {
            self.i = self.i - 1;
        }
    }

    pub fn harden(&mut self)
        ensures
            *final(self) == old(self).hardened(),
    {
        if self.i < u32::MAX {
            self.i = self.i + 1;
        }
    }
}

/// The token after `k` consecutive failures, newest last.
pub open spec fn harden_run(t: RegulationToken, k: nat) -> RegulationToken
    decreases k,
{
    if k == 0 {
        t
    } else {
        harden_run(t, (k - 1) as nat).hardened()
    }
}

/// A run of `k` failures from a fresh token raises the level to exactly `k`,
/// so the delay owed afterwards is `delay_step * k`.
pub proof fn lemma_harden_run_delay(limit: u32, delay_step: u32, k: nat)
    requires
        k <= u32::MAX,
    ensures
        harden_run(RegulationToken { limit, delay_step, i: 0 }, k) == (RegulationToken {
            limit,
            delay_step,
            i: k as u32,
        }),
        harden_run(RegulationToken { limit, delay_step, i: 0 }, k).spec_delay() == delay_step * k,
    decreases k,
{
    if k > 0 {
        lemma_harden_run_delay(limit, delay_step, (k - 1) as nat);
    }
}

/// Once stopped, a token stays stopped no matter how many times it is eased:
/// easing never changes a stopped token, and the level never drops below 0.
pub proof fn lemma_stopped_is_permanent(t: RegulationToken)
    requires
        t.spec_stopped(),
    ensures
        t.eased() == t,
        t.eased().spec_stopped(),
{
}

/// Easing a token at level 0 leaves it at level 0: the level never goes
/// below zero.
pub proof fn lemma_ease_floor(t: RegulationToken)
    requires
        t.i == 0,
    ensures
        t.eased().i == 0,
{
}

} // verus!
