//! Fixed-timestep scheduler: converts variable per-frame elapsed time into a
//! deterministic number of simulation updates at a configurable target rate,
//! carrying leftover time forward and capping catch-up work per pass.
use vstd::prelude::*;
use vstd::arithmetic::div_mod::lemma_div_is_ordered;
use vstd::arithmetic::div_mod::lemma_div_multiples_vanish;
use vstd::arithmetic::div_mod::lemma_fundamental_div_mod_converse;
use crate::MAX_RATE_MILLIHZ;

verus! {

/// Hard cap on the number of updates a single scheduling pass may issue, so a
/// long stall at a low rate cannot stall the host in unbounded catch-up work.
pub const STEP_CAP: u64 = 5000;

/// Duration of one step at the given rate: microseconds per update.
pub open spec fn step_micros_spec(rate_millihz: u64) -> int {
    1_000_000_000 as int / rate_millihz as int
}

/// Number of updates one scheduling pass issues when `total` microseconds have
/// accumulated: the accumulated time divided out in whole steps, capped.
pub open spec fn steps_for(total: int, step: int) -> int {
    if total / step < STEP_CAP as int {
        total / step
    } else {
        STEP_CAP as int
    }
}

pub fn step_micros(rate_millihz: u64) -> (r: u64)
    requires
        0 < rate_millihz <= MAX_RATE_MILLIHZ,
    ensures
        r == step_micros_spec(rate_millihz),
        r >= 1,
{
    proof {
        vstd::arithmetic::div_mod::lemma_div_non_zero(1_000_000_000, rate_millihz as int);
    }
    1_000_000_000 / rate_millihz
}

/// The scheduler's whole state: unspent time, in microseconds. It persists
/// across frames and is never cleared; pausing simply stops feeding it.
pub struct Scheduler {
    pub accumulator: u64,
}

impl Scheduler {
    pub fn new() -> (s: Self)
        ensures
            s.accumulator == 0,
    {
        Scheduler { accumulator: 0 }
    }

    pub fn accumulator(&self) -> (r: u64)
        ensures
            r == self.accumulator,
    {
        self.accumulator
    }

    /// One scheduling pass: adds the frame's elapsed time to the accumulator,
    /// then drains it in whole steps of `step` microseconds, at most
    /// [`STEP_CAP`] of them, returning how many updates the caller must issue.
    ///
    /// The leftover accumulator is exact: what came in, minus the steps spent.
    /// Unless the cap was hit it is smaller than one step.
    pub fn pass(&mut self, elapsed: u64, step: u64) -> (n: u64)
        requires
            step >= 1,
            old(self).accumulator + elapsed <= u64::MAX,
        ensures
            n == steps_for(old(self).accumulator + elapsed, step as int),
            final(self).accumulator == old(self).accumulator + elapsed - n * step,
            n < STEP_CAP ==> final(self).accumulator < step,
    {
        self.accumulator = self.accumulator + elapsed;
        let ghost total = self.accumulator as int;
        let mut n: u64 = 0;
        while self.accumulator >= step && n < STEP_CAP
            invariant
                step >= 1,
                n <= STEP_CAP,
                self.accumulator + n * step == total,
            decreases self.accumulator,
        {
            self.accumulator = self.accumulator - step;
            n = n + 1;
            proof {
                assert(n as int * step as int == (n as int - 1) * step as int + step as int)
                    by (nonlinear_arith);
            }
        }
        proof {
            if n < STEP_CAP {
                lemma_fundamental_div_mod_converse(
                    total,
                    step as int,
                    n as int,
                    self.accumulator as int,
                );
            } else {
                assert(n == STEP_CAP);
                assert(n as int * step as int == step as int * STEP_CAP as int)
                    by (nonlinear_arith)
                    requires
                        n == STEP_CAP,
                ;
                assert(step as int * STEP_CAP as int <= total);
                lemma_div_multiples_vanish(STEP_CAP as int, step as int);
                lemma_div_is_ordered(step as int * STEP_CAP as int, total, step as int);
            }
        }
        n
    }
}

/// Sum of a sequence of durations or counts.
pub open spec fn seq_sum(s: Seq<int>) -> int
    decreases s.len(),
{
    if s.len() == 0 {
        0
    } else {
        seq_sum(s.drop_last()) + s.last()
    }
}

proof fn lemma_seq_sum_take_step(s: Seq<int>, i: int)
    requires
        0 <= i < s.len(),
    ensures
        seq_sum(s.take(i + 1)) == seq_sum(s.take(i)) + s[i],
{
    assert(s.take(i + 1).drop_last() =~= s.take(i));
    assert(s.take(i + 1).last() == s[i]);
}

/// The accumulator telescopes: after any number of passes, the leftover time
/// is exactly the total time fed in minus the total steps spent.
proof fn lemma_accumulator_telescopes(
    accs: Seq<int>,
    counts: Seq<int>,
    elapsed: Seq<int>,
    step: int,
    i: int,
)
    requires
        accs.len() == elapsed.len() + 1,
        counts.len() == elapsed.len(),
        accs[0] == 0,
        forall|k: int|
            0 <= k < elapsed.len() ==> accs[k + 1] == accs[k] + elapsed[k] - counts[k] * step,
        0 <= i <= elapsed.len(),
    ensures
        accs[i] == seq_sum(elapsed.take(i)) - seq_sum(counts.take(i)) * step,
    decreases i,
{
    if i == 0 {
        assert(elapsed.take(0) =~= Seq::<int>::empty());
        assert(counts.take(0) =~= Seq::<int>::empty());
    } else {
        lemma_accumulator_telescopes(accs, counts, elapsed, step, i - 1);
        lemma_seq_sum_take_step(elapsed, i - 1);
        lemma_seq_sum_take_step(counts, i - 1);
        assert(accs[i] == accs[i - 1] + elapsed[i - 1] - counts[i - 1] * step);
        assert((seq_sum(counts.take(i - 1)) + counts[i - 1]) * step == seq_sum(counts.take(i - 1))
            * step + counts[i - 1] * step) by (nonlinear_arith);
    }
}

/// Rate fidelity. Consider any run of scheduling passes at a fixed step
/// duration that starts with an empty accumulator, where `elapsed[k]` is the
/// time fed to pass `k`, `counts[k]` the number of updates it issued, and
/// `accs[k]` the accumulator before pass `k`. Each pass obeys the contract of
/// [`Scheduler::pass`], and none hits the iteration cap (its leftover is
/// smaller than one step). Then the total number of updates issued over the
/// run is exactly the total elapsed time divided by the step duration, rounded
/// down — the integer-time form of `floor(rate * wall_time)`.
pub proof fn lemma_rate_fidelity(accs: Seq<int>, counts: Seq<int>, elapsed: Seq<int>, step: int)
    requires
        step >= 1,
        accs.len() == elapsed.len() + 1,
        counts.len() == elapsed.len(),
        accs[0] == 0,
        forall|k: int|
            0 <= k < elapsed.len() ==> accs[k + 1] == accs[k] + elapsed[k] - counts[k] * step,
        forall|k: int| 0 <= k < elapsed.len() ==> 0 <= #[trigger] accs[k + 1] < step,
    ensures
        seq_sum(counts) == seq_sum(elapsed) / step,
{
    let n = elapsed.len() as int;
    lemma_accumulator_telescopes(accs, counts, elapsed, step, n);
    assert(elapsed.take(n) =~= elapsed);
    assert(counts.take(n) =~= counts);
    if n == 0 {
        assert(seq_sum(elapsed) == 0);
        lemma_fundamental_div_mod_converse(0, step, 0, 0);
    } else {
        let leftover = accs[n];
        assert(0 <= leftover < step);
        assert(seq_sum(elapsed) == seq_sum(counts) * step + leftover);
        lemma_fundamental_div_mod_converse(seq_sum(elapsed), step, seq_sum(counts), leftover);
    }
}

} // verus!
