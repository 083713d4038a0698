//! The cadence of the status timer: a first delay that ends on a multiple
//! of the period on the wall clock, then one tick per period.

use vstd::arithmetic::div_mod::lemma_mod_multiples_vanish;
use vstd::prelude::*;

verus! {

/// The period of the status timer, in nanoseconds: five seconds.
pub const STATUS_PERIOD: u64 = 5_000_000_000;

/// The name under which the host keeps the status timer.
pub const STATUS_TIMER: &'static str = "status_timer";

/// How long to wait at `now` until the clock reads a multiple of `period`:
/// nothing when it already does, or when there is no period to speak of.
pub open spec fn delay_to_multiple(now: nat, period: nat) -> nat {
    if period == 0 {
        0
    } else {
        ((period - now % period) % (period as int)) as nat
    }
}

/// A timer programme: the delay before the first tick and the time from one
/// tick to the next, both in nanoseconds.
#[derive(Clone, Copy, Debug, PartialEq, Eq, Structural)]
pub struct TimerPlan {
    pub initial: u64,
    pub period: u64,
}

impl TimerPlan {
    /// The instant of tick number `k`, counted from zero, of a timer armed
    /// at `armed_at`.
    pub open spec fn fire(self, armed_at: nat, k: nat) -> nat {
        (armed_at + self.initial + k * self.period) as nat
    }

    /// The plan that starts ticking at the next multiple of `period` after
    /// `now`, both counted in nanoseconds since the epoch.
    pub open spec fn aligned_spec(now: nat, period: u64) -> TimerPlan {
        TimerPlan { initial: delay_to_multiple(now, period as nat) as u64, period }
    }

    /// The plan that starts ticking at the next multiple of `period` after
    /// `now`.
    pub fn aligned(now: u128, period: u64) -> (r: TimerPlan)
        ensures
            r == TimerPlan::aligned_spec(now as nat, period),
    {
        TimerPlan { initial: delay_until_multiple(now, period), period }
    }

    /// The plan for a period, with the first delay read off the wall clock
    /// at the time of the call. Whatever the clock says, the first tick
    /// comes before a full period has passed.
    pub fn from_wall_clock(period: u64) -> (r: TimerPlan)
        ensures
            r.period == period,
            period == 0 ==> r.initial == 0,
            period > 0 ==> r.initial < period,
    {
        TimerPlan { initial: wall_clock_delay(period), period }
    }
}

/// The time left at `now` until the next multiple of `period`.
pub fn delay_until_multiple(now: u128, period: u64) -> (r: u64)
    ensures
        r == delay_to_multiple(now as nat, period as nat),
        period > 0 ==> r < period && (now + r) % (period as int) == 0,
{
    if period == 0 {
        return 0;
    }
    let wide: u128 = period as u128;
    let past: u128 = now % wide;
    let r: u128 = if past == 0 {
        0
    } else {
        wide - past
    };
    proof {
        lemma_delay_lands(now as nat, period as nat);
    }
    r as u64
}

/// Waiting out the delay brings the clock to a multiple of the period, and
/// the wait is shorter than one period.
pub proof fn lemma_delay_lands(now: nat, period: nat)
    requires
        period > 0,
    ensures
        delay_to_multiple(now, period) < period,
        (now + delay_to_multiple(now, period)) % period == 0,
        now % period == 0 ==> delay_to_multiple(now, period) == 0,
        now % period != 0 ==> delay_to_multiple(now, period) == period - now % period,
{
    let past = now % period;
    let whole = now / period;
    assert(now == whole * period + past && past < period) by (nonlinear_arith)
        requires
            period > 0,
            past == now % period,
            whole == now / period,
    ;
    if past == 0 {
        assert((period - past) % (period as int) == 0) by (nonlinear_arith)
            requires
                period > 0,
                past == 0,
        ;
    } else {
        assert((period - past) % (period as int) == period - past) by (nonlinear_arith)
            requires
                0 < past < period,
        ;
        assert((whole * period + period) % period == 0) by (nonlinear_arith)
            requires
                period > 0,
        ;
    }
}

/// A timer armed at `now` with the aligned plan ticks on multiples of the
/// period only, and its ticks are exactly one period apart.
pub proof fn lemma_ticks_on_multiples(now: nat, period: u64, k: nat)
    requires
        period > 0,
    ensures
        TimerPlan::aligned_spec(now, period).fire(now, k) % (period as nat) == 0,
        TimerPlan::aligned_spec(now, period).fire(now, k + 1) - TimerPlan::aligned_spec(
            now,
            period,
        ).fire(now, k) == period,
{
    let plan = TimerPlan::aligned_spec(now, period);
    let p = period as nat;
    lemma_delay_lands(now, p);
    let first = now + delay_to_multiple(now, p);
    assert(plan.initial == delay_to_multiple(now, p));
    assert((first + k * p) % p == 0) by {
        lemma_mod_multiples_vanish(k as int, first as int, p as int);
        assert(p * k + first == first + k * p) by (nonlinear_arith);
    }
    assert((k + 1) * p == k * p + p) by (nonlinear_arith);
}

/// Asks `jay_config::timer::duration_until_wall_clock_is_multiple_of` for
/// the delay that fits the system clock at the time of the call, in
/// nanoseconds. The answer depends on the clock; all that is claimed is that
/// it is zero for a period of zero and shorter than the period otherwise.
#[verifier::external_body]
fn wall_clock_delay(period: u64) -> (delay: u64)
    ensures
        period == 0 ==> delay == 0,
        period > 0 ==> delay < period,
{
    let period = std::time::Duration::from_nanos(period);
    jay_config::timer::duration_until_wall_clock_is_multiple_of(period).as_nanos() as u64
}

} // verus!
