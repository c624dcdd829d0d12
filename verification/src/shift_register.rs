//! The serial output chain the display digits travel through.
//!
//! A byte is shifted out bit by bit, most significant bit first, on a data
//! line pulsed in by a clock line; a latch pulse then commits everything
//! shifted since the previous commit as one frame.

use vstd::prelude::*;

use crate::signal::{OutputSignal, SignalError};

verus! {

/// The level the data line carries for bit `i` (counted from the left) of a
/// byte shifted out most significant bit first.
pub open spec fn bit_msb_first(data: u8, i: int) -> bool
    recommends
        0 <= i < 8,
{
    (data >> ((7 - i) as u8)) & 1 != 0
}

/// The eight data-line levels a byte is shifted out as.
pub open spec fn bits_msb_first(data: u8) -> Seq<bool> {
    Seq::new(8, |i: int| bit_msb_first(data, i))
}

/// The clock-line levels of `n` rising-then-falling pulses.
pub open spec fn clock_pulses(n: nat) -> Seq<bool> {
    Seq::new(2 * n, |i: int| i % 2 == 0)
}

/// A sink for bytes travelling to the display elements.
///
/// `pending()` holds the bytes shifted in since the last commit; `frames()`
/// holds every committed frame, oldest first.
pub trait Shift: Sized {
    spec fn pending(&self) -> Seq<u8>;

    spec fn frames(&self) -> Seq<Seq<u8>>;

    /// Shift one byte towards the display. On success it joins the pending
    /// bytes; on a signal error nothing is recorded.
    fn shift(&mut self, data: u8) -> (r: Result<(), SignalError>)
        ensures
            r is Ok ==> final(self).pending() == old(self).pending().push(data)
                && final(self).frames() == old(self).frames(),
            r is Err ==> final(self).pending() == old(self).pending() && final(self).frames()
                == old(self).frames(),
    ;

    /// Commit the pending bytes as one frame. On success the pending bytes
    /// are latched; on a signal error nothing is committed.
    fn store(&mut self) -> (r: Result<(), SignalError>)
        ensures
            r is Ok ==> final(self).frames() == old(self).frames().push(old(self).pending())
                && final(self).pending() == Seq::<u8>::empty(),
            r is Err ==> final(self).pending() == old(self).pending() && final(self).frames()
                == old(self).frames(),
    ;
}

/// A shift register driven over three output lines: data, clock and latch.
pub struct ShiftRegister<DataPin, ClockPin, LatchPin> {
    data: DataPin,
    clock: ClockPin,
    latch: LatchPin,
    pending: Ghost<Seq<u8>>,
    frames: Ghost<Seq<Seq<u8>>>,
}

impl<DataPin, ClockPin, LatchPin> ShiftRegister<DataPin, ClockPin, LatchPin> where
    DataPin: OutputSignal,
    ClockPin: OutputSignal,
    LatchPin: OutputSignal,
 {
    /// Every level the data line has been driven to.
    pub closed spec fn data_history(&self) -> Seq<bool> {
        self.data.history()
    }

    /// Every level the clock line has been driven to.
    pub closed spec fn clock_history(&self) -> Seq<bool> {
        self.clock.history()
    }

    /// Every level the latch line has been driven to.
    pub closed spec fn latch_history(&self) -> Seq<bool> {
        self.latch.history()
    }

    /// The data line.
    pub fn data_pin(&self) -> (r: &DataPin)
        ensures
            r.history() == self.data_history(),
    {
        &self.data
    }

    /// The clock line.
    pub fn clock_pin(&self) -> (r: &ClockPin)
        ensures
            r.history() == self.clock_history(),
    {
        &self.clock
    }

    /// The latch line.
    pub fn latch_pin(&self) -> (r: &LatchPin)
        ensures
            r.history() == self.latch_history(),
    {
        &self.latch
    }

    /// A register over the three given lines, with nothing pending and
    /// nothing committed.
    pub fn new(data: DataPin, clock: ClockPin, latch: LatchPin) -> (r: ShiftRegister<
        DataPin,
        ClockPin,
        LatchPin,
    >)
        ensures
            r.pending() == Seq::<u8>::empty(),
            r.frames() == Seq::<Seq<u8>>::empty(),
            r.data_history() == data.history(),
            r.clock_history() == clock.history(),
            r.latch_history() == latch.history(),
    {
        ShiftRegister {
            data,
            clock,
            latch,
            pending: Ghost(Seq::empty()),
            frames: Ghost(Seq::empty()),
        }
    }

    /// Drive one byte out bit by bit, most significant bit first: for each
    /// bit, set the data line to it and pulse the clock once.
    fn shift_byte(&mut self, value: u8) -> (r: Result<(), SignalError>)
        ensures
            r is Ok ==> {
                &&& final(self).pending() == old(self).pending().push(value)
                &&& final(self).frames() == old(self).frames()
                &&& final(self).data_history() == old(self).data_history() + bits_msb_first(
                    value,
                )
                &&& final(self).clock_history() == old(self).clock_history() + clock_pulses(8)
                &&& final(self).latch_history() == old(self).latch_history()
            },
            r is Err ==> final(self).pending() == old(self).pending() && final(self).frames()
                == old(self).frames(),
    {
        let mut i: usize = 0;
        while i < 8
            invariant
                i <= 8,
                self.data.history() == old(self).data_history() + bits_msb_first(value).take(
                    i as int,
                ),
                self.clock.history() == old(self).clock_history() + clock_pulses(i as nat),
                self.latch == old(self).latch,
                self.pending == old(self).pending,
                self.frames == old(self).frames,
            decreases 8 - i,
        {
            let bit = (value >> ((7 - i) as u8)) & 1 != 0;
            let ghost data_before = self.data.history();
            let ghost clock_before = self.clock.history();
            if let Err(e) = self.data.set_state(bit) {
                return Err(e);
            }
            if let Err(e) = self.clock.set_state(true) {
                return Err(e);
            }
            if let Err(e) = self.clock.set_state(false) {
                return Err(e);
            }
            proof {
                assert(bit == bit_msb_first(value, i as int));
                assert(data_before.push(bit) =~= old(self).data_history() + bits_msb_first(
                    value,
                ).take(i + 1));
                assert(clock_before.push(true).push(false) =~= old(self).clock_history()
                    + clock_pulses((i + 1) as nat));
            }
            i = i + 1;
        }
        proof {
            assert(bits_msb_first(value).take(8) =~= bits_msb_first(value));
        }
        self.pending = Ghost(self.pending@.push(value));
        Ok(())
    }

    /// Pulse the latch line once, committing the pending bytes as a frame.
    fn latch_frame(&mut self) -> (r: Result<(), SignalError>)
        ensures
            r is Ok ==> {
                &&& final(self).frames() == old(self).frames().push(old(self).pending())
                &&& final(self).pending() == Seq::<u8>::empty()
                &&& final(self).data_history() == old(self).data_history()
                &&& final(self).clock_history() == old(self).clock_history()
                &&& final(self).latch_history() == old(self).latch_history() + seq![true, false]
            },
            r is Err ==> final(self).pending() == old(self).pending() && final(self).frames()
                == old(self).frames(),
    {
        let ghost latch_before = self.latch.history();
        if let Err(e) = self.latch.set_state(true) {
            return Err(e);
        }
        if let Err(e) = self.latch.set_state(false) {
            return Err(e);
        }
        proof {
            assert(latch_before.push(true).push(false) =~= latch_before + seq![true, false]);
        }
        self.frames = Ghost(self.frames@.push(self.pending@));
        self.pending = Ghost(Seq::empty());
        Ok(())
    }
}

impl<DataPin, ClockPin, LatchPin> Shift for ShiftRegister<DataPin, ClockPin, LatchPin> where
    DataPin: OutputSignal,
    ClockPin: OutputSignal,
    LatchPin: OutputSignal,
 {
    closed spec fn pending(&self) -> Seq<u8> {
        self.pending@
    }

    closed spec fn frames(&self) -> Seq<Seq<u8>> {
        self.frames@
    }

    fn shift(&mut self, data: u8) -> (r: Result<(), SignalError>) {
        self.shift_byte(data)
    }

    fn store(&mut self) -> (r: Result<(), SignalError>) {
        self.latch_frame()
    }
}

} // verus!
