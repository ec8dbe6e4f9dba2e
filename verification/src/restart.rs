//! When and after which delay a dead daemon worker is started again.
use vstd::prelude::*;
use crate::task::Retry;

verus! {

/// What happens to a worker that died and is to be restarted.
#[derive(Debug, Clone, Copy, PartialEq, Eq, Structural)]
pub enum Restart {
    /// The retry limit is reached: the worker is not started again.
    GiveUp,
    /// Start the worker again after `delay_ms` milliseconds, from the
    /// retry state `retry`.
    After { delay_ms: usize, retry: Retry },
}

/// The decision for one more restart attempt from the retry state `r`: the
/// attempt is counted, and the worker is restarted while the count does not
/// exceed the limit, after `count * factor` milliseconds. A limit of `n`
/// thus allows `n` restart attempts, and a limit of zero allows none.
pub open spec fn restart_spec(r: Retry) -> Restart {
    if r.attempts >= r.limit {
        Restart::GiveUp
    } else {
        let attempts = r.attempts + 1;
        Restart::After {
            delay_ms: (attempts * r.factor) as usize,
            retry: Retry { attempts: attempts as usize, ..r },
        }
    }
}

/// The decision of the `k`-th consecutive restart attempt (counting from 1)
/// made from the retry state `r`: each restart goes on from the retry state
/// that the previous one returned, and nothing follows a `GiveUp`.
pub open spec fn nth_restart(r: Retry, k: nat) -> Restart
    decreases k,
{
    if k <= 1 {
        restart_spec(r)
    } else {
        match nth_restart(r, (k - 1) as nat) {
            Restart::After { delay_ms, retry } => restart_spec(retry),
            Restart::GiveUp => Restart::GiveUp,
        }
    }
}

impl Retry {
    /// The delay of one more attempt fits in `usize`.
    pub open spec fn can_advance_spec(self) -> bool {
        self.attempts < self.limit ==> (self.attempts + 1) * self.factor <= usize::MAX
    }

    /// Whether the delay of one more attempt fits in `usize`.
    pub fn can_advance(&self) -> (b: bool)
        ensures
            b == self.can_advance_spec(),
    {
        if self.attempts >= self.limit {
            return true;
        }
        let attempts = self.attempts + 1;
        match attempts.checked_mul(self.factor) {
            Some(_) => true,
            None => false,
        }
    }

    /// Decide on restarting a worker that died: count the attempt and
    /// restart after `attempts * factor` milliseconds unless the count would
    /// exceed the limit.
    pub fn next(self) -> (d: Restart)
        requires
            self.can_advance_spec(),
        ensures
            d == restart_spec(self),
            d is GiveUp <==> self.attempts >= self.limit,
            d matches Restart::After { delay_ms, retry } ==>
                retry == (Retry { attempts: (self.attempts + 1) as usize, ..self })
                && retry.attempts == self.attempts + 1
                && delay_ms == (self.attempts + 1) * self.factor,
    {
        if self.attempts >= self.limit {
            Restart::GiveUp
        } else {
            let attempts = self.attempts + 1;
            Restart::After {
                delay_ms: attempts * self.factor,
                retry: Retry { attempts, ..self },
            }
        }
    }
}

/// From a retry state with no attempt counted, the `k`-th consecutive
/// restart attempt restarts the worker exactly when `k` is at most the
/// limit, so a worker is restarted at most `limit` times in a row; the
/// `k`-th restart waits `k * factor` milliseconds and leaves `k` attempts
/// counted.
pub proof fn lemma_restart_sequence(r: Retry, k: nat)
    requires
        r.attempts == 0,
        1 <= k,
        r.limit * r.factor <= usize::MAX,
    ensures
        nth_restart(r, k) is After <==> k <= r.limit,
        k <= r.limit ==> nth_restart(r, k) == (Restart::After {
            delay_ms: (k * r.factor) as usize,
            retry: Retry { attempts: k as usize, ..r },
        }),
        k <= r.limit ==> k * r.factor <= usize::MAX,
    decreases k,
{
    if k <= r.limit {
        assert(k * r.factor <= r.limit * r.factor) by (nonlinear_arith)
            requires
                k <= r.limit,
        ;
    }
    if k > 1 {
        lemma_restart_sequence(r, (k - 1) as nat);
    }
}

/// A retry limit of zero means that no attempt to restart is ever made.
pub proof fn lemma_zero_limit_never_restarts(r: Retry, k: nat)
    requires
        r.limit == 0,
        1 <= k,
    ensures
        nth_restart(r, k) == Restart::GiveUp,
    decreases k,
{
    if k > 1 {
        lemma_zero_limit_never_restarts(r, (k - 1) as nat);
    }
}

/// With a retry factor of zero every restart happens immediately.
pub proof fn lemma_zero_factor_restarts_immediately(r: Retry)
    requires
        r.factor == 0,
    ensures
        restart_spec(r) matches Restart::After { delay_ms, retry } ==> delay_ms == 0 && retry.factor == 0,
{
}

}
