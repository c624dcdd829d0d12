//! Debounced button input.
//!
//! A leaky integrator: every update reads one raw sample and nudges a bounded
//! counter towards 0 (sample low) or towards `maximum` (sample high). The
//! output switches to low only when the counter reaches 0 and to high only
//! when it reaches `maximum`; everywhere in between it keeps its old value,
//! which gives the filter its hysteresis.

use vstd::prelude::*;

use crate::signal::{RawInputSource, SignalError};

verus! {

/// The abstract state of the debounce filter.
pub ghost struct FilterState {
    pub integrator: int,
    pub maximum: int,
    pub output: bool,
}

impl FilterState {
    /// The integrator never leaves `[0, maximum]`.
    pub open spec fn inv(self) -> bool {
        0 <= self.integrator <= self.maximum
    }

    /// One update on one raw sample: lean the integrator towards the sample,
    /// then move the output only if the integrator has hit a bound.
    pub open spec fn step(self, sample_high: bool) -> FilterState {
        let integrator = if sample_high {
            if self.integrator < self.maximum {
                self.integrator + 1
            } else {
                self.integrator
            }
        } else {
            if self.integrator > 0 {
                self.integrator - 1
            } else {
                0
            }
        };
        let output = if integrator == 0 {
            false
        } else if integrator >= self.maximum {
            true
        } else {
            self.output
        };
        FilterState { integrator, maximum: self.maximum, output }
    }

    /// The filter state after consuming a whole sequence of raw samples.
    pub open spec fn run(self, samples: Seq<bool>) -> FilterState
        decreases samples.len(),
    {
        if samples.len() == 0 {
            self
        } else {
            self.step(samples[0]).run(samples.drop_first())
        }
    }
}

/// A step keeps the invariant.
pub proof fn lemma_step_inv(s: FilterState, sample_high: bool)
    requires
        s.inv(),
    ensures
        s.step(sample_high).inv(),
{
}

/// A run keeps the invariant.
pub proof fn lemma_run_inv(s: FilterState, samples: Seq<bool>)
    requires
        s.inv(),
    ensures
        s.run(samples).inv(),
    decreases samples.len(),
{
    if samples.len() > 0 {
        lemma_run_inv(s.step(samples[0]), samples.drop_first());
    }
}

/// Hysteresis: an update that leaves the integrator strictly inside
/// `(0, maximum)` leaves the output exactly as it was.
pub proof fn lemma_interior_step_keeps_output(s: FilterState, sample_high: bool)
    requires
        s.inv(),
        0 < s.step(sample_high).integrator < s.maximum,
    ensures
        s.step(sample_high).output == s.output,
{
}

/// The output can rise only at the top of the integrator's range: a step
/// that turns it high read a high sample with the integrator already within
/// one of `maximum`.
pub proof fn lemma_rise_step_needs_full_integrator(s: FilterState, sample_high: bool)
    requires
        s.inv(),
        !s.output,
        s.step(sample_high).output,
    ensures
        sample_high,
        s.integrator >= s.maximum - 1,
        s.maximum >= 1,
{
}

/// The output can fall only at the bottom of the integrator's range: a step
/// that turns it low read a low sample with the integrator already within
/// one of 0. (A filter whose `maximum` is 0 is degenerate: its integrator
/// is pinned to 0 and every step drives the output low.)
pub proof fn lemma_fall_step_needs_empty_integrator(s: FilterState, sample_high: bool)
    requires
        s.inv(),
        s.output,
        !s.step(sample_high).output,
    ensures
        s.maximum >= 1 ==> !sample_high,
        s.integrator <= 1,
{
}

/// Each update moves the integrator up by at most one, so any run raises it
/// by at most its length.
pub proof fn lemma_run_integrator_gain(s: FilterState, samples: Seq<bool>)
    requires
        s.inv(),
    ensures
        s.run(samples).integrator <= s.integrator + samples.len(),
    decreases samples.len(),
{
    if samples.len() > 0 {
        lemma_run_integrator_gain(s.step(samples[0]), samples.drop_first());
    }
}

/// Each update moves the integrator down by at most one, so any run lowers it
/// by at most its length.
pub proof fn lemma_run_integrator_loss(s: FilterState, samples: Seq<bool>)
    requires
        s.inv(),
    ensures
        s.run(samples).integrator >= s.integrator - samples.len(),
    decreases samples.len(),
{
    if samples.len() > 0 {
        lemma_run_integrator_loss(s.step(samples[0]), samples.drop_first());
    }
}

/// A low output can only rise after the integrator has climbed all the way
/// to `maximum`: while the room left above the integrator exceeds the number
/// of updates, the output stays low, whatever the samples were.
pub proof fn lemma_low_output_is_stable(s: FilterState, samples: Seq<bool>)
    requires
        s.inv(),
        !s.output,
        samples.len() < s.maximum - s.integrator,
    ensures
        !s.run(samples).output,
    decreases samples.len(),
{
    if samples.len() > 0 {
        lemma_low_output_is_stable(s.step(samples[0]), samples.drop_first());
    }
}

/// A high output can only fall after the integrator has drained all the way
/// to 0: while the integrator exceeds the number of updates, the output
/// stays high, whatever the samples were.
pub proof fn lemma_high_output_is_stable(s: FilterState, samples: Seq<bool>)
    requires
        s.inv(),
        s.output,
        samples.len() < s.integrator,
    ensures
        s.run(samples).output,
    decreases samples.len(),
{
    if samples.len() > 0 {
        lemma_high_output_is_stable(s.step(samples[0]), samples.drop_first());
    }
}

/// From an empty integrator, `maximum` consecutive high samples drive the
/// output high, and no shorter sample sequence of any kind can.
pub proof fn lemma_rise_after_maximum_highs(s: FilterState)
    requires
        s.inv(),
        s.integrator == 0,
        !s.output,
        s.maximum > 0,
    ensures
        s.run(Seq::new(s.maximum as nat, |i: int| true)).output,
        forall|samples: Seq<bool>|
            samples.len() < s.maximum ==> !(#[trigger] s.run(samples)).output,
{
    lemma_high_run_fills(s, s.maximum as nat);
    assert forall|samples: Seq<bool>| samples.len() < s.maximum implies !(#[trigger] s.run(
        samples,
    )).output by {
        lemma_low_output_is_stable(s, samples);
    }
}

/// From a full integrator, `maximum` consecutive low samples drive the
/// output low, and no shorter sample sequence of any kind can.
pub proof fn lemma_fall_after_maximum_lows(s: FilterState)
    requires
        s.inv(),
        s.integrator == s.maximum,
        s.output,
        s.maximum > 0,
    ensures
        !s.run(Seq::new(s.maximum as nat, |i: int| false)).output,
        forall|samples: Seq<bool>|
            samples.len() < s.maximum ==> (#[trigger] s.run(samples)).output,
{
    lemma_low_run_drains(s, s.maximum as nat);
    assert forall|samples: Seq<bool>| samples.len() < s.maximum implies (#[trigger] s.run(
        samples,
    )).output by {
        lemma_high_output_is_stable(s, samples);
    }
}

/// A run of `n` high samples lifts the integrator to `min(integrator + n,
/// maximum)`, and raises the output once the top is reached.
proof fn lemma_high_run_fills(s: FilterState, n: nat)
    requires
        s.inv(),
        s.maximum > 0,
    ensures
        s.run(Seq::new(n, |i: int| true)).integrator == if s.integrator + n <= s.maximum {
            s.integrator + n
        } else {
            s.maximum as int
        },
        n > 0 && s.integrator + n >= s.maximum ==> s.run(Seq::new(n, |i: int| true)).output,
    decreases n,
{
    let samples = Seq::new(n, |i: int| true);
    if n > 0 {
        lemma_high_run_fills(s.step(true), (n - 1) as nat);
        assert(samples.drop_first() =~= Seq::new((n - 1) as nat, |i: int| true));
    }
}

/// A run of `n` low samples drains the integrator to `max(integrator - n,
/// 0)`, and drops the output once the bottom is reached.
proof fn lemma_low_run_drains(s: FilterState, n: nat)
    requires
        s.inv(),
    ensures
        s.run(Seq::new(n, |i: int| false)).integrator == if s.integrator - n >= 0 {
            s.integrator - n
        } else {
            0
        },
        n > 0 && s.integrator - n <= 0 ==> !s.run(Seq::new(n, |i: int| false)).output,
    decreases n,
{
    let samples = Seq::new(n, |i: int| false);
    if n > 0 {
        lemma_low_run_drains(s.step(false), (n - 1) as nat);
        assert(samples.drop_first() =~= Seq::new((n - 1) as nat, |i: int| false));
    }
}

/// Debounces one raw input source.
pub struct Debouncer<T: RawInputSource> {
    integrator: u8,
    maximum: u8,
    output: bool,
    source: T,
}

impl<T: RawInputSource> Debouncer<T> {
    /// The filter state this debouncer is in.
    pub closed spec fn filter(&self) -> FilterState {
        FilterState {
            integrator: self.integrator as int,
            maximum: self.maximum as int,
            output: self.output,
        }
    }

    /// A new debouncer over `source`, starting low, with
    /// `maximum = floor(debounce_time_ms * sample_frequency / 1000)`:
    /// the number of update periods the debounce time spans.
    pub fn new(debounce_time_ms: u32, sample_frequency: u32, source: T) -> (r: Debouncer<T>)
        requires
            debounce_time_ms * sample_frequency / 1000 <= u8::MAX,
        ensures
            r.filter() == (FilterState {
                integrator: 0,
                maximum: debounce_time_ms * sample_frequency / 1000,
                output: false,
            }),
    {
        let maximum = ((debounce_time_ms as u64) * (sample_frequency as u64) / 1000) as u8;
        Debouncer { integrator: 0, maximum, output: false, source }
    }

    /// Read one raw sample and apply one filter step to it. A read failure
    /// is propagated and leaves the filter untouched.
    pub fn update(&mut self) -> (r: Result<(), SignalError>)
        requires
            old(self).filter().inv(),
        ensures
            final(self).filter().maximum == old(self).filter().maximum,
            final(self).filter().inv(),
            r is Ok ==> final(self).filter() == old(self).filter().step(true)
                || final(self).filter() == old(self).filter().step(false),
            r is Err ==> final(self).filter() == old(self).filter(),
    {
        let sample = match self.source.read() {
            Ok(s) => s,
            Err(e) => {
                return Err(e);
            },
        };
        if sample {
            if self.integrator < self.maximum {
                self.integrator = self.integrator + 1;
            }
        } else {
            if self.integrator > 0 {
                self.integrator = self.integrator - 1;
            }
        }
        if self.integrator == 0 {
            self.output = false;
        } else if self.integrator >= self.maximum {
            self.output = true;
        }
        Ok(())
    }

    /// Whether the debounced signal is high. Pure and infallible.
    pub fn is_high(&self) -> (r: bool)
        ensures
            r == self.filter().output,
    {
        self.output
    }

    /// Whether the debounced signal is low. Pure and infallible.
    pub fn is_low(&self) -> (r: bool)
        ensures
            r == !self.filter().output,
    {
        !self.output
    }

    /// The current integrator value.
    pub fn integrator(&self) -> (r: u8)
        ensures
            r as int == self.filter().integrator,
    {
        self.integrator
    }
}

} // verus!
