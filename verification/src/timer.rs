use vstd::prelude::*;

verus! {

/// A one-shot countdown: it accumulates elapsed time up to its duration and
/// reports completion once the duration is reached; `reset` starts it over.
#[derive(Clone, Copy, Debug, PartialEq, Eq, Structural)]
pub struct Timer {
    pub duration_us: u64,
    pub elapsed_us: u64,
}

/// Accumulated time never exceeds the duration.
pub open spec fn wf_timer(t: Timer) -> bool {
    t.elapsed_us <= t.duration_us
}

/// The timer has run for its full duration.
pub open spec fn timer_done(t: Timer) -> bool {
    t.elapsed_us >= t.duration_us
}

/// Elapsed value after ticking dt on a timer with elapsed e and duration c:
/// accumulation is capped at the duration.
pub open spec fn ticked(e: int, c: int, dt: int) -> int {
    if e + dt >= c {
        c
    } else {
        e + dt
    }
}

impl Timer {
    pub fn new(duration_us: u64) -> (t: Timer)
        ensures
            t.duration_us == duration_us,
            t.elapsed_us == 0,
    {
        Timer { duration_us, elapsed_us: 0 }
    }

    /// Advance the timer by dt microseconds, capping at the duration.
    pub fn tick(&mut self, dt_us: u64)
        requires
            wf_timer(*old(self)),
        ensures
            final(self).duration_us == old(self).duration_us,
            final(self).elapsed_us
                == ticked(old(self).elapsed_us as int, old(self).duration_us as int, dt_us as int),
            wf_timer(*final(self)),
    {
        let remaining = self.duration_us - self.elapsed_us;
        if dt_us >= remaining {
            self.elapsed_us = self.duration_us;
        } else {
            self.elapsed_us = self.elapsed_us + dt_us;
        }
    }

    pub fn finished(&self) -> (r: bool)
        ensures
            r == timer_done(*self),
    {
        self.elapsed_us >= self.duration_us
    }

    /// Start a fresh countdown of the current duration.
    pub fn reset(&mut self)
        ensures
            final(self).duration_us == old(self).duration_us,
            final(self).elapsed_us == 0,
            wf_timer(*final(self)),
    {
        self.elapsed_us = 0;
    }

    pub fn set_duration_us(&mut self, duration_us: u64)
        ensures
            final(self).duration_us == duration_us,
            final(self).elapsed_us == old(self).elapsed_us,
    {
        self.duration_us = duration_us;
    }
}

/// Total of a sequence of frame times.
pub open spec fn time_sum(dts: Seq<int>) -> int
    decreases dts.len(),
{
    if dts.len() == 0 {
        0
    } else {
        dts[0] + time_sum(dts.drop_first())
    }
}

/// Shots fired while the trigger is held over the given frame times, starting
/// from a cooldown with elapsed e and duration c: each frame ticks the
/// cooldown, and whenever it completes a shot fires and it restarts at zero.
/// This is exactly the step `bullet_firing` takes with the fire key held.
pub open spec fn shots_fired(e: int, c: int, dts: Seq<int>) -> int
    decreases dts.len(),
{
    if dts.len() == 0 {
        0
    } else {
        let e2 = ticked(e, c, dts[0]);
        if e2 == c {
            1 + shots_fired(0, c, dts.drop_first())
        } else {
            shots_fired(e2, c, dts.drop_first())
        }
    }
}

/// Law: firing is rate-limited. Over any frame times, n shots require at
/// least n times the cooldown duration of accumulated game time (the cooldown
/// restarts from zero after each shot, so time beyond a completed countdown
/// is discarded, never banked).
pub proof fn lemma_fire_rate_limit(e: int, c: int, dts: Seq<int>)
    requires
        0 < c,
        0 <= e <= c,
        forall|i: int| 0 <= i < dts.len() ==> dts[i] >= 0,
    ensures
        shots_fired(e, c, dts) * c <= e + time_sum(dts),
    decreases dts.len(),
{
    if dts.len() == 0 {
    } else {
        let rest = dts.drop_first();
        assert(forall|i: int| 0 <= i < rest.len() ==> rest[i] == dts[i + 1] && rest[i] >= 0);
        let e2 = ticked(e, c, dts[0]);
        if e2 == c {
            lemma_fire_rate_limit(0, c, rest);
            let n = shots_fired(0, c, rest);
            assert((1 + n) * c == c + n * c) by (nonlinear_arith);
            assert(e + dts[0] >= c);
        } else {
            assert(e2 == e + dts[0]);
            lemma_fire_rate_limit(e2, c, rest);
        }
    }
}

/// Law: with the 0.2 s cooldown, holding fire over frames that total at most
/// one second yields at most five shots.
pub proof fn lemma_five_shot_bound(dts: Seq<int>)
    requires
        forall|i: int| 0 <= i < dts.len() ==> dts[i] >= 0,
        time_sum(dts) <= 1_000_000,
    ensures
        shots_fired(0, 200_000, dts) <= 5,
{
    lemma_fire_rate_limit(0, 200_000, dts);
}

/// n frames of equal length d.
pub open spec fn uniform_frames(n: nat, d: int) -> Seq<int> {
    Seq::new(n, |i: int| d)
}

/// Over uniform frames of length d, with the cooldown duration an exact
/// multiple k of d and the cooldown started with m frames' worth already
/// elapsed, a shot fires every k-th frame: n frames yield (n + m) / k shots.
proof fn lemma_uniform_shots(m: int, k: int, d: int, n: nat)
    requires
        0 < d,
        0 < k,
        0 <= m < k,
    ensures
        shots_fired(m * d, k * d, uniform_frames(n, d)) == (n + m) / k,
    decreases n,
{
    let dts = uniform_frames(n, d);
    vstd::arithmetic::mul::lemma_mul_strict_inequality(m, k, d);
    vstd::arithmetic::mul::lemma_mul_nonnegative(m, d);
    if n == 0 {
        vstd::arithmetic::div_mod::lemma_basic_div(m, k);
    } else {
        assert(dts[0] == d);
        let rest = dts.drop_first();
        assert(rest =~= uniform_frames((n - 1) as nat, d));
        assert((m + 1) * d == m * d + d) by (nonlinear_arith);
        let e2 = ticked(m * d, k * d, d);
        if m + 1 == k {
            assert(e2 == k * d);
            lemma_uniform_shots(0, k, d, (n - 1) as nat);
            vstd::arithmetic::div_mod::lemma_div_plus_one(n - 1, k);
            assert(n + m == k + (n - 1));
        } else {
            vstd::arithmetic::mul::lemma_mul_strict_inequality(m + 1, k, d);
            assert(e2 == (m + 1) * d);
            assert(e2 != k * d);
            lemma_uniform_shots(m + 1, k, d, (n - 1) as nat);
            assert((n - 1) + (m + 1) == n + m);
        }
    }
}

/// Law: with frame steps of one equal length that divides the 0.2 s
/// cooldown evenly, holding fire for frames totalling exactly one second
/// fires exactly five shots. (With frame steps that do not divide the
/// cooldown the count can fall short, since the reset after each shot
/// discards any time beyond the completed countdown.)
pub proof fn lemma_five_shots_exactly(d: int, n: nat)
    requires
        0 < d <= 200_000,
        200_000int % d == 0,
        n * d == 1_000_000,
    ensures
        shots_fired(0, 200_000, uniform_frames(n, d)) == 5,
{
    let k = 200_000int / d;
    vstd::arithmetic::div_mod::lemma_fundamental_div_mod(200_000, d);
    assert(200_000 == k * d) by {
        assert(200_000 == d * k + 200_000int % d);
        assert(d * k == k * d) by (nonlinear_arith);
    }
    vstd::arithmetic::div_mod::lemma_div_non_zero(200_000, d);
    lemma_uniform_shots(0, k, d, n);
    assert(shots_fired(0, 200_000, uniform_frames(n, d)) == n as int / k);
    assert(n as int == 5 * k) by (nonlinear_arith)
        requires n * d == 1_000_000, 200_000 == k * d, 0 < d;
    vstd::arithmetic::div_mod::lemma_div_by_multiple(5, k);
    assert(5 * k == k * 5) by (nonlinear_arith);
}

} // verus!
