//! Randomized exponential backoff.
//!
//! Delays are whole milliseconds. Each step adds to the current delay a
//! random share of up to twice its size and caps the sum at the maximum, so
//! that delays double on average while clients that lost the same peer at the
//! same moment spread out.

use vstd::prelude::*;

verus! {

/// The number of values a jitter draw can take. A draw `r` stands for the
/// fraction `r / JITTER_SCALE`, which lies in `[0, 1)`.
pub const JITTER_SCALE: u64 = 0x1_0000_0000;

/// The share of `delay` that a draw adds: `delay * 2 * (r / 2^32)`, rounded down.
pub open spec fn jitter(delay: u64, r: u32) -> nat {
    ((delay as nat) * 2 * (r as nat)) / (JITTER_SCALE as nat)
}

/// The delay that follows `delay` under the cap `max` when `r` is drawn.
pub open spec fn grown(delay: u64, max: u64, r: u32) -> u64 {
    if delay + jitter(delay, r) >= max {
        max
    } else {
        (delay + jitter(delay, r)) as u64
    }
}

/// Draws 32 uniformly distributed bits from the thread-local generator by
/// calling `rand::random::<u32>`. Nothing is claimed of the value: any `u32`
/// may come back, and two calls need not agree. The generator seeds itself
/// from the operating system when a thread first uses it, and panics there
/// if the operating system has no seed to give.
#[verifier::external_body]
fn random_u32() -> (r: u32) {
    rand::random::<u32>()
}

/// The delay between two attempts, and the bounds it moves between.
#[derive(Clone, Copy, Debug, PartialEq, Eq)]
pub struct Backoff {
    /// The delay to start from, and to return to on `reset`.
    pub min: u64,
    /// The delay that no step exceeds.
    pub max: u64,
    /// The delay that the last step gave, or `min` before the first step.
    pub current_delay: u64,
}

impl Backoff {
    /// The bounds are ordered and the current delay lies between them.
    pub open spec fn wf(&self) -> bool {
        self.min <= self.current_delay <= self.max
    }

    /// The state after `reset`.
    pub open spec fn spec_reset(self) -> Backoff {
        Backoff { current_delay: self.min, ..self }
    }

    /// The state after one step in which `r` was drawn.
    pub open spec fn spec_next(self, r: u32) -> Backoff {
        Backoff { current_delay: grown(self.current_delay, self.max, r), ..self }
    }

    /// A backoff that starts at `min`. Where `min` exceeds `max`, every
    /// step gives `max`.
    pub fn new(min: u64, max: u64) -> (backoff: Self)
        ensures
            backoff == (Backoff { min, max, current_delay: min }),
    {
        Backoff { min, max, current_delay: min }
    }

    /// Goes back to the minimum delay.
    pub fn reset(&mut self)
        ensures
            *final(self) == old(self).spec_reset(),
    {
        self.current_delay = self.min;
    }

    /// Advances by one step with the given draw and returns the new delay.
    pub fn next_with(&mut self, r: u32) -> (delay: u64)
        ensures
            *final(self) == old(self).spec_next(r),
            delay == final(self).current_delay,
            delay <= old(self).max,
            old(self).wf() ==> final(self).wf() && old(self).current_delay <= delay,
    {
        let base: u128 = self.current_delay as u128;
        let twice: u128 = base * 2;
        assert(twice * (r as u128) <= 0x2_0000_0000_0000_0000 * 0x1_0000_0000) by (nonlinear_arith)
            requires
                twice <= 0x2_0000_0000_0000_0000,
                r <= 0x1_0000_0000,
        {}
        let scaled: u128 = twice * (r as u128);
        let sum: u128 = base + scaled / (JITTER_SCALE as u128);
        let delay: u64 = if sum >= self.max as u128 {
            self.max
        } else {
            sum as u64
        };
        self.current_delay = delay;
        delay
    }

    /// Advances by one step with a fresh random draw and returns the new
    /// delay: some draw `r` exists for which this call did what
    /// `next_with(r)` does.
    pub fn next(&mut self) -> (delay: u64)
        ensures
            exists|r: u32| *final(self) == old(self).spec_next(r),
            delay == final(self).current_delay,
            delay <= old(self).max,
            old(self).wf() ==> final(self).wf() && old(self).current_delay <= delay,
    {
        let r: u32 = random_u32();
        self.next_with(r)
    }
}

impl Backoff {
    /// The state after the draws of `draws`, taken in order.
    pub open spec fn spec_run(self, draws: Seq<u32>) -> Backoff
        decreases draws.len(),
    {
        if draws.len() == 0 {
            self
        } else {
            self.spec_run(draws.drop_last()).spec_next(draws.last())
        }
    }
}

/// `delay` doubled `times` times.
pub open spec fn doubled(delay: nat, times: nat) -> nat
    decreases times,
{
    if times == 0 {
        delay
    } else {
        2 * doubled(delay, (times - 1) as nat)
    }
}

/// Whatever is drawn, a step keeps the delay between the bounds and does
/// not shorten it.
pub proof fn lemma_next_within_bounds(backoff: Backoff, r: u32)
    requires
        backoff.wf(),
    ensures
        backoff.spec_next(r).wf(),
        backoff.min <= backoff.spec_next(r).current_delay <= backoff.max,
        backoff.current_delay <= backoff.spec_next(r).current_delay,
{
}

/// After a reset the delay is the minimum, and the step that follows gives
/// a delay of at least the minimum and at most the maximum.
pub proof fn lemma_next_after_reset(backoff: Backoff, r: u32)
    requires
        backoff.min <= backoff.max,
    ensures
        backoff.spec_reset().current_delay == backoff.min,
        backoff.min <= backoff.spec_reset().spec_next(r).current_delay <= backoff.max,
{
}

/// However many steps are taken and whatever is drawn, the delay stays
/// between the bounds and never shortens.
pub proof fn lemma_run_within_bounds(backoff: Backoff, draws: Seq<u32>)
    requires
        backoff.wf(),
    ensures
        backoff.spec_run(draws).wf(),
        backoff.spec_run(draws).min == backoff.min,
        backoff.spec_run(draws).max == backoff.max,
        backoff.current_delay <= backoff.spec_run(draws).current_delay,
    decreases draws.len(),
{
    if draws.len() > 0 {
        lemma_run_within_bounds(backoff, draws.drop_last());
    }
}

/// A delay that has reached the maximum stays there.
pub proof fn lemma_next_stays_at_max(backoff: Backoff, r: u32)
    requires
        backoff.current_delay >= backoff.max,
    ensures
        backoff.spec_next(r).current_delay == backoff.max,
{
}

/// A draw in the upper half of its range at least doubles the delay, up to
/// the maximum.
pub proof fn lemma_next_doubles(backoff: Backoff, r: u32)
    requires
        r >= JITTER_SCALE / 2,
    ensures
        backoff.spec_next(r).current_delay == backoff.max || backoff.spec_next(r).current_delay
            >= 2 * backoff.current_delay,
{
    let delay = backoff.current_delay as nat;
    assert(delay * 2 * (r as nat) >= delay * (JITTER_SCALE as nat)) by (nonlinear_arith)
        requires
            2 * (r as nat) >= JITTER_SCALE as nat,
    {}
    assert(jitter(backoff.current_delay, r) >= delay) by (nonlinear_arith)
        requires
            delay * 2 * (r as nat) >= delay * 0x1_0000_0000,
            jitter(backoff.current_delay, r) == (delay * 2 * (r as nat)) / 0x1_0000_0000,
    {}
}

/// The delay saturates: after draws that all lie in the upper half of their
/// range, the delay is the maximum as soon as doubling the first delay that
/// many times reaches the maximum.
pub proof fn lemma_run_saturates(backoff: Backoff, draws: Seq<u32>)
    requires
        forall|i: int| 0 <= i < draws.len() ==> draws[i] >= JITTER_SCALE / 2,
    ensures
        backoff.spec_run(draws).max == backoff.max,
        backoff.spec_run(draws).current_delay == backoff.max || backoff.spec_run(
            draws,
        ).current_delay >= doubled(backoff.current_delay as nat, draws.len()),
        draws.len() > 0 && doubled(backoff.current_delay as nat, draws.len()) >= backoff.max
            ==> backoff.spec_run(draws).current_delay == backoff.max,
    decreases draws.len(),
{
    if draws.len() > 0 {
        let earlier = backoff.spec_run(draws.drop_last());
        lemma_run_saturates(backoff, draws.drop_last());
        lemma_next_doubles(earlier, draws.last());
        if earlier.current_delay >= earlier.max {
            lemma_next_stays_at_max(earlier, draws.last());
        }
        assert(earlier.spec_next(draws.last()).current_delay <= backoff.max);
    }
}

} // verus!
