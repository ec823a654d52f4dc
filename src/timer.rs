use bevy::time::{Timer, TimerMode};
use std::time::Duration;
use vstd::arithmetic::div_mod::{lemma_fundamental_div_mod, lemma_fundamental_div_mod_converse};
use vstd::prelude::*;

verus! {

/// One tick of a repeating timer: from the elapsed time carried in and the
/// time passed, the elapsed time carried out and the intervals completed.
pub open spec fn tick_result(interval: nat, elapsed: nat, delta: nat) -> (nat, nat) {
    ((elapsed + delta) % interval, (elapsed + delta) / interval)
}

/// Several ticks in a row: the elapsed time left at the end and the total
/// number of intervals completed over all of them.
pub open spec fn ticks_result(interval: nat, elapsed: nat, deltas: Seq<nat>) -> (nat, nat)
    decreases deltas.len(),
{
    if deltas.len() == 0 {
        (elapsed, 0)
    } else {
        let first = tick_result(interval, elapsed, deltas[0]);
        let rest = ticks_result(interval, first.0, deltas.drop_first());
        (rest.0, first.1 + rest.1)
    }
}

pub open spec fn total(deltas: Seq<nat>) -> nat
    decreases deltas.len(),
{
    if deltas.len() == 0 {
        0
    } else {
        deltas[0] + total(deltas.drop_first())
    }
}

/// However the time passed is cut into ticks, a timer that starts with
/// `elapsed` (less than one interval) carried in completes `(elapsed + total) / interval` intervals and
/// carries out the remainder.
pub proof fn lemma_ticks_by_total(interval: nat, elapsed: nat, deltas: Seq<nat>)
    requires
        elapsed < interval,
    ensures
        ticks_result(interval, elapsed, deltas) == (
            (elapsed + total(deltas)) % interval,
            (elapsed + total(deltas)) / interval,
        ),
    decreases deltas.len(),
{
    if deltas.len() > 0 {
        let s = elapsed + deltas[0];
        let q = s / interval;
        let r = s % interval;
        let rest_total = total(deltas.drop_first());
        lemma_ticks_by_total(interval, r, deltas.drop_first());
        let x = r + rest_total;
        let q2 = x / interval;
        let r2 = x % interval;
        lemma_fundamental_div_mod(s as int, interval as int);
        lemma_fundamental_div_mod(x as int, interval as int);
        assert(elapsed + total(deltas) == (q + q2) * interval + r2) by (nonlinear_arith)
            requires
                s == interval * q + r,
                x == interval * q2 + r2,
                x == r + rest_total,
                elapsed + total(deltas) == s + rest_total,
        ;
        lemma_fundamental_div_mod_converse(
            (elapsed + total(deltas)) as int,
            interval as int,
            (q + q2) as int,
            r2 as int,
        );
    } else {
        lemma_fundamental_div_mod_converse(elapsed as int, interval as int, 0, elapsed as int);
    }
}

/// A timer started from zero and fed time that adds up to exactly `k`
/// intervals reports exactly `k` completions in all, however the time is cut
/// into ticks, and ends with nothing carried over.
pub proof fn lemma_completions_independent_of_chunking(interval: nat, deltas: Seq<nat>, k: nat)
    requires
        interval > 0,
        total(deltas) == k * interval,
    ensures
        ticks_result(interval, 0, deltas) == (0nat, k),
{
    lemma_ticks_by_total(interval, 0, deltas);
    lemma_fundamental_div_mod_converse((k * interval) as int, interval as int, k as int, 0);
}

/// Relies on bevy's `Timer::tick` for a repeating, unpaused timer (made with
/// `Timer::new` and `Timer::set_elapsed`, read back with `Timer::elapsed` and
/// `Timer::times_finished_this_tick`): the elapsed time grows by `delta`, the
/// number of whole intervals in it is reported as the times finished in this
/// tick, and the remainder is kept. Returns `(remaining elapsed, times finished)`.
#[verifier::external_body]
fn repeating_tick(interval_ns: u64, elapsed_ns: u64, delta_ns: u64) -> (r: (u64, u32))
    requires
        interval_ns > 0,
        elapsed_ns + delta_ns <= u64::MAX,
        (elapsed_ns + delta_ns) / (interval_ns as int) <= u32::MAX,
    ensures
        r.0 == (elapsed_ns + delta_ns) % (interval_ns as int),
        r.1 == (elapsed_ns + delta_ns) / (interval_ns as int),
{
    let mut t = Timer::new(Duration::from_nanos(interval_ns), TimerMode::Repeating);
    t.set_elapsed(Duration::from_nanos(elapsed_ns));
    t.tick(Duration::from_nanos(delta_ns));
    (t.elapsed().as_nanos() as u64, t.times_finished_this_tick())
}

/// A repeating countdown that reports how many whole intervals elapsed in
/// the last tick, carrying any overshoot into the next interval.
#[derive(Clone, Copy, Debug)]
pub struct FrameTimer {
    pub interval_ns: u64,
    pub elapsed_ns: u64,
    pub finished_this_tick: u32,
}

impl FrameTimer {
    pub open spec fn wf(&self) -> bool {
        0 < self.interval_ns && self.elapsed_ns < self.interval_ns
    }

    /// Whether `delta` can be fed to `tick` without leaving machine ranges.
    pub open spec fn can_tick(&self, delta_ns: u64) -> bool {
        &&& self.elapsed_ns + delta_ns <= u64::MAX
        &&& (self.elapsed_ns + delta_ns) / (self.interval_ns as int) <= u32::MAX
    }

    /// A timer of the given interval that has not yet run.
    pub open spec fn new_spec(interval_ns: u64) -> FrameTimer {
        FrameTimer { interval_ns, elapsed_ns: 0, finished_this_tick: 0 }
    }

    pub fn new(interval_ns: u64) -> (t: FrameTimer)
        requires
            interval_ns > 0,
        ensures
            t.wf(),
            t == FrameTimer::new_spec(interval_ns),
    {
        FrameTimer { interval_ns, elapsed_ns: 0, finished_this_tick: 0 }
    }

    /// Advances the timer by `delta_ns`.
    pub fn tick(&mut self, delta_ns: u64)
        requires
            old(self).wf(),
            old(self).can_tick(delta_ns),
        ensures
            final(self).wf(),
            final(self).interval_ns == old(self).interval_ns,
            (final(self).elapsed_ns as nat, final(self).finished_this_tick as nat) == tick_result(
                old(self).interval_ns as nat,
                old(self).elapsed_ns as nat,
                delta_ns as nat,
            ),
    {
        let (rest, times) = repeating_tick(self.interval_ns, self.elapsed_ns, delta_ns);
        self.elapsed_ns = rest;
        self.finished_this_tick = times;
    }

    /// True when at least one interval elapsed during the last tick.
    pub fn just_finished(&self) -> (r: bool)
        ensures
            r == (self.finished_this_tick > 0),
    {
        self.finished_this_tick > 0
    }
}

} // verus!
