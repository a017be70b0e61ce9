//! The attack scheduler's repeating countdown.
//!
//! The countdown accumulates elapsed milliseconds and reports, on each tick,
//! how many whole periods have elapsed; the remainder is carried into the
//! next tick. Over any window of ticks starting from a fresh countdown, the
//! number of elapses is therefore exactly the window's length divided by the
//! period, rounded down — see [`lemma_elapses_over_window`].

use vstd::arithmetic::div_mod::{
    lemma_fundamental_div_mod, lemma_hoist_over_denominator, lemma_mod_multiples_vanish,
};
use vstd::prelude::*;

use crate::ATTACK_PERIOD_MS;

verus! {

/// A repeating countdown with period [`ATTACK_PERIOD_MS`], driven by
/// per-tick elapsed time.
#[derive(Clone, Copy, PartialEq, Eq, Structural, Debug)]
pub struct AttackTimer {
    /// Milliseconds accumulated since the last elapse; always less than the
    /// period.
    pub acc_ms: u64,
}

/// The number of whole periods that elapse during a tick that starts with
/// `acc` milliseconds accumulated and adds `dt` more.
pub open spec fn elapses_in_tick(acc: int, dt: int) -> int {
    (acc + dt) / (ATTACK_PERIOD_MS as int)
}

/// The milliseconds left accumulated after such a tick.
pub open spec fn acc_after_tick(acc: int, dt: int) -> int {
    (acc + dt) % (ATTACK_PERIOD_MS as int)
}

/// The total of a window of per-tick elapsed times, in milliseconds.
pub open spec fn window_total_ms(dts: Seq<u64>) -> int
    decreases dts.len(),
{
    if dts.len() == 0 {
        0
    } else {
        window_total_ms(dts.drop_last()) + dts.last()
    }
}

/// The accumulator after ticking through a whole window, starting from
/// `acc0` milliseconds accumulated.
pub open spec fn acc_after_window(acc0: int, dts: Seq<u64>) -> int
    decreases dts.len(),
{
    if dts.len() == 0 {
        acc0
    } else {
        acc_after_tick(acc_after_window(acc0, dts.drop_last()), dts.last() as int)
    }
}

/// The total number of elapses reported while ticking through a whole
/// window, starting from `acc0` milliseconds accumulated.
pub open spec fn elapses_over_window(acc0: int, dts: Seq<u64>) -> int
    decreases dts.len(),
{
    if dts.len() == 0 {
        0
    } else {
        elapses_over_window(acc0, dts.drop_last())
            + elapses_in_tick(acc_after_window(acc0, dts.drop_last()), dts.last() as int)
    }
}

impl AttackTimer {
    /// The countdown's invariant: the carried remainder is below the period.
    pub open spec fn wf(self) -> bool {
        self.acc_ms < ATTACK_PERIOD_MS
    }

    /// A fresh countdown with nothing accumulated.
    pub fn new() -> (t: AttackTimer)
        ensures
            t.acc_ms == 0,
            t.wf(),
    {
        AttackTimer { acc_ms: 0 }
    }

    /// Advances the countdown by `dt_ms` elapsed milliseconds and returns
    /// how many whole periods elapsed; the remainder is carried.
    pub fn tick(&mut self, dt_ms: u64) -> (elapses: u64)
        requires
            old(self).wf(),
            dt_ms <= u64::MAX - ATTACK_PERIOD_MS,
        ensures
            final(self).wf(),
            elapses == elapses_in_tick(old(self).acc_ms as int, dt_ms as int),
            final(self).acc_ms == acc_after_tick(old(self).acc_ms as int, dt_ms as int),
    {
        let total: u64 = self.acc_ms + dt_ms;
        let elapses: u64 = total / ATTACK_PERIOD_MS;
        self.acc_ms = total % ATTACK_PERIOD_MS;
        elapses
    }
}

/// Attack-window law: ticking through any window of elapsed times, starting
/// from a countdown with `acc0` accumulated (below the period), reports in
/// total exactly `(acc0 + total time) / period` elapses, rounded down — so
/// from a fresh countdown, `floor(window length / period)` — and carries
/// `(acc0 + total time) % period` into the next window.
pub proof fn lemma_elapses_over_window(acc0: int, dts: Seq<u64>)
    requires
        0 <= acc0 < ATTACK_PERIOD_MS,
    ensures
        elapses_over_window(acc0, dts) == (acc0 + window_total_ms(dts)) / (ATTACK_PERIOD_MS as int),
        acc_after_window(acc0, dts) == (acc0 + window_total_ms(dts)) % (ATTACK_PERIOD_MS as int),
    decreases dts.len(),
{
    let p = ATTACK_PERIOD_MS as int;
    if dts.len() == 0 {
        assert(acc0 / p == 0 && acc0 % p == acc0) by {
            lemma_fundamental_div_mod(acc0, p);
            lemma_mod_multiples_vanish(0, acc0, p);
            lemma_hoist_over_denominator(acc0, 0, p as nat);
        }
    } else {
        let prefix = dts.drop_last();
        let d = dts.last() as int;
        lemma_elapses_over_window(acc0, prefix);
        let a = acc0 + window_total_ms(prefix);
        // a == p * (a / p) + a % p, so a + d == p * (a / p) + (a % p + d):
        // dividing and reducing both sides modulo p splits quotient and
        // remainder of a + d into the window's part and the last tick's.
        lemma_fundamental_div_mod(a, p);
        assert((a + d) % p == (a % p + d) % p) by {
            lemma_mod_multiples_vanish(a / p, a % p + d, p);
        }
        assert((a % p + d) / p + a / p == (a + d) / p) by {
            lemma_hoist_over_denominator(a % p + d, a / p, p as nat);
        }
    }
}

} // verus!
