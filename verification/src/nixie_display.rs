//! The display-mode state machine and the digit multiplexing encoder.
//!
//! The display cycles between three modes — time, date and year — and on
//! every render derives four decimal digits and two separator levels from a
//! timestamp. The digits leave through the shift register packed two to a
//! byte, later digits in the high nibble, pairing from the end of the quad:
//! the output chain is wired in reverse.

use vstd::prelude::*;

use crate::shift_register::Shift;
use crate::signal::{OutputSignal, SignalError};

verus! {

/// What the display is showing.
#[derive(Clone, Copy, PartialEq, Eq, Structural, Debug)]
pub enum DisplayMode {
    Time,
    Date,
    Year,
}

/// How hours are rendered in time mode.
#[derive(Clone, Copy, PartialEq, Eq, Structural, Debug)]
pub enum HourFormat {
    TwelveHour,
    TwentyFourHour,
}

/// A wall-clock reading: date and time of day, supplied from outside on
/// every render and never owned by the core.
#[derive(Clone, Copy, PartialEq, Eq, Structural, Debug)]
pub struct Timestamp {
    pub year: u16,
    pub month: u8,
    pub day: u8,
    pub hour: u8,
    pub minute: u8,
    pub second: u8,
}

impl Timestamp {
    pub fn new(year: u16, month: u8, day: u8, hour: u8, minute: u8, second: u8) -> (r: Timestamp)
        ensures
            r == (Timestamp { year, month, day, hour, minute, second }),
    {
        Timestamp { year, month, day, hour, minute, second }
    }
}

/// The hour on a 12-hour face: 12 for 0, then 1 through 11, repeating.
pub open spec fn hour12_of(hour: u8) -> int {
    (hour + 11) % 12 + 1
}

/// The digit quad of time mode: tens and ones of the hour, then tens and
/// ones of the minute.
pub open spec fn time_digits(t: Timestamp, fmt: HourFormat) -> Seq<u8> {
    let hours = if fmt == HourFormat::TwelveHour {
        hour12_of(t.hour)
    } else {
        t.hour as int
    };
    seq![
        (hours / 10) as u8,
        (hours % 10) as u8,
        (t.minute / 10) as u8,
        (t.minute % 10) as u8,
    ]
}

/// The digit quad of date mode: tens and ones of the month, then tens and
/// ones of the day.
pub open spec fn date_digits(t: Timestamp) -> Seq<u8> {
    seq![t.month / 10, t.month % 10, t.day / 10, t.day % 10]
}

/// The digit quad of year mode: the four decimal digits of `year mod
/// 10000`, most significant first.
pub open spec fn year_digits(t: Timestamp) -> Seq<u8> {
    seq![
        ((t.year / 1000) % 10) as u8,
        ((t.year / 100) % 10) as u8,
        ((t.year / 10) % 10) as u8,
        (t.year % 10) as u8,
    ]
}

/// The digit quad a mode renders a timestamp as.
pub open spec fn digits_for(mode: DisplayMode, fmt: HourFormat, t: Timestamp) -> Seq<u8> {
    match mode {
        DisplayMode::Time => time_digits(t, fmt),
        DisplayMode::Date => date_digits(t),
        DisplayMode::Year => year_digits(t),
    }
}

/// The two separator levels a mode renders a timestamp as: in time mode
/// both blink with the parity of the second, in date mode they are fixed at
/// (low, high), in year mode at (low, low).
pub open spec fn separators_for(mode: DisplayMode, t: Timestamp) -> (bool, bool) {
    match mode {
        DisplayMode::Time => if t.second % 2 == 0 {
            (true, true)
        } else {
            (false, false)
        },
        DisplayMode::Date => (false, true),
        DisplayMode::Year => (false, false),
    }
}

/// Two digits packed into one output byte: the later digit of the pair in
/// the high nibble, wrapping silently if a digit exceeds 9.
pub open spec fn pack_pair(hi: u8, lo: u8) -> u8 {
    ((hi * 16 + lo) % 256) as u8
}

/// The bytes a digit quad leaves through the output chain as: pairs taken
/// from the end of the quad, `[d0,d1,d2,d3]` becoming `[d3·16+d2, d1·16+d0]`.
pub open spec fn packed_bytes(digits: Seq<u8>) -> Seq<u8>
    recommends
        digits.len() == 4,
{
    seq![pack_pair(digits[3], digits[2]), pack_pair(digits[1], digits[0])]
}

/// Four display elements and two separator lines behind a shift register.
pub struct NixieDisplay<T, Pin1, Pin2> {
    pub shift_register: T,
    pub separator1: Pin1,
    pub separator2: Pin2,
    pub mode: DisplayMode,
    pub hour_format: HourFormat,
}

/// Holds when a render step has committed exactly one frame carrying
/// `digits` and driven the separator lines to `sep`, leaving mode and hour
/// format alone.
pub open spec fn rendered<T: Shift, Pin1: OutputSignal, Pin2: OutputSignal>(
    pre: NixieDisplay<T, Pin1, Pin2>,
    post: NixieDisplay<T, Pin1, Pin2>,
    digits: Seq<u8>,
    sep: (bool, bool),
) -> bool {
    &&& post.shift_register.frames() == pre.shift_register.frames().push(
        pre.shift_register.pending() + packed_bytes(digits),
    )
    &&& post.shift_register.pending() == Seq::<u8>::empty()
    &&& post.separator1.history() == pre.separator1.history().push(sep.0)
    &&& post.separator2.history() == pre.separator2.history().push(sep.1)
    &&& post.mode == pre.mode
    &&& post.hour_format == pre.hour_format
}

impl<T, Pin1, Pin2> NixieDisplay<T, Pin1, Pin2> where
    T: Shift,
    Pin1: OutputSignal,
    Pin2: OutputSignal,
 {
    /// A display over the given shift register and separator lines,
    /// starting in time mode on a 12-hour face.
    pub fn new(shift_register: T, separator1: Pin1, separator2: Pin2) -> (r: NixieDisplay<
        T,
        Pin1,
        Pin2,
    >)
        ensures
            r.shift_register == shift_register,
            r.separator1 == separator1,
            r.separator2 == separator2,
            r.mode == DisplayMode::Time,
            r.hour_format == HourFormat::TwelveHour,
    {
        NixieDisplay {
            shift_register,
            separator1,
            separator2,
            mode: DisplayMode::Time,
            hour_format: HourFormat::TwelveHour,
        }
    }

    pub fn set_mode(&mut self, mode: DisplayMode)
        ensures
            *final(self) == (NixieDisplay { mode, ..*old(self) }),
    {
        self.mode = mode;
    }

    pub fn set_hour_format(&mut self, hour_format: HourFormat)
        ensures
            *final(self) == (NixieDisplay { hour_format, ..*old(self) }),
    {
        self.hour_format = hour_format;
    }

    /// Advance one mode along the cycle time → date → year → time.
    pub fn next_mode(&mut self)
        ensures
            *final(self) == (NixieDisplay {
                mode: match old(self).mode {
                    DisplayMode::Time => DisplayMode::Date,
                    DisplayMode::Date => DisplayMode::Year,
                    DisplayMode::Year => DisplayMode::Time,
                },
                ..*old(self)
            }),
    {
        self.mode = match self.mode {
            DisplayMode::Time => DisplayMode::Date,
            DisplayMode::Date => DisplayMode::Year,
            DisplayMode::Year => DisplayMode::Time,
        };
    }

    /// Render `time` in the current mode: derive the digit quad and the
    /// separator pair, send the quad through the output chain, then drive
    /// both separator lines.
    pub fn display(&mut self, time: Timestamp) -> (r: Result<(), SignalError>)
        ensures
            final(self).mode == old(self).mode,
            final(self).hour_format == old(self).hour_format,
            r is Ok ==> rendered(
                *old(self),
                *final(self),
                digits_for(old(self).mode, old(self).hour_format, time),
                separators_for(old(self).mode, time),
            ),
    {
        match self.mode {
            DisplayMode::Time => self.display_time(time),
            DisplayMode::Date => self.display_date(time),
            DisplayMode::Year => self.display_year(time),
        }
    }

    /// Render time mode: hour (12- or 24-hour) and minute digits, with both
    /// separators high on even seconds and low on odd ones.
    pub fn display_time(&mut self, time: Timestamp) -> (r: Result<(), SignalError>)
        ensures
            final(self).mode == old(self).mode,
            final(self).hour_format == old(self).hour_format,
            r is Ok ==> rendered(
                *old(self),
                *final(self),
                time_digits(time, old(self).hour_format),
                if time.second % 2 == 0 {
                    (true, true)
                } else {
                    (false, false)
                },
            ),
    {
        let hours: u32 = match self.hour_format {
            HourFormat::TwelveHour => (time.hour as u32 + 11) % 12 + 1,
            HourFormat::TwentyFourHour => time.hour as u32,
        };
        let minutes: u32 = time.minute as u32;
        let digits: Vec<u8> = vec![
            (hours / 10) as u8,
            (hours % 10) as u8,
            (minutes / 10) as u8,
            (minutes % 10) as u8,
        ];
        self.show_digits(digits.as_slice())?;
        let high = time.second % 2 == 0;
        self.separator1.set_state(high)?;
        self.separator2.set_state(high)?;
        Ok(())
    }

    /// Render date mode: month and day digits, separators fixed at
    /// (low, high).
    pub fn display_date(&mut self, time: Timestamp) -> (r: Result<(), SignalError>)
        ensures
            final(self).mode == old(self).mode,
            final(self).hour_format == old(self).hour_format,
            r is Ok ==> rendered(*old(self), *final(self), date_digits(time), (false, true)),
    {
        let digits: Vec<u8> = vec![
            time.month / 10,
            time.month % 10,
            time.day / 10,
            time.day % 10,
        ];
        self.show_digits(digits.as_slice())?;
        self.separator1.set_state(false)?;
        self.separator2.set_state(true)?;
        Ok(())
    }

    /// Render year mode: the four digits of the year, separators fixed at
    /// (low, low).
    pub fn display_year(&mut self, time: Timestamp) -> (r: Result<(), SignalError>)
        ensures
            final(self).mode == old(self).mode,
            final(self).hour_format == old(self).hour_format,
            r is Ok ==> rendered(*old(self), *final(self), year_digits(time), (false, false)),
    {
        let year = time.year;
        let digits: Vec<u8> = vec![
            ((year / 1000) % 10) as u8,
            ((year / 100) % 10) as u8,
            ((year / 10) % 10) as u8,
            (year % 10) as u8,
        ];
        self.show_digits(digits.as_slice())?;
        self.separator1.set_state(false)?;
        self.separator2.set_state(false)?;
        Ok(())
    }

    /// Send a digit quad through the output chain: the two packed bytes,
    /// later pair first, then one latch pulse. Digits above 9 corrupt their
    /// nibble silently rather than failing.
    pub fn show_digits(&mut self, digits: &[u8]) -> (r: Result<(), SignalError>)
        requires
            digits@.len() == 4,
        ensures
            final(self).mode == old(self).mode,
            final(self).hour_format == old(self).hour_format,
            final(self).separator1.history() == old(self).separator1.history(),
            final(self).separator2.history() == old(self).separator2.history(),
            r is Ok ==> final(self).shift_register.frames() == old(
                self,
            ).shift_register.frames().push(
                old(self).shift_register.pending() + packed_bytes(digits@),
            ) && final(self).shift_register.pending() == Seq::<u8>::empty(),
    {
        let ghost pending_before = self.shift_register.pending();
        let first = pack_digits(*vstd::slice::slice_index_get(digits, 3), *vstd::slice::slice_index_get(digits, 2));
        let second = pack_digits(*vstd::slice::slice_index_get(digits, 1), *vstd::slice::slice_index_get(digits, 0));
        self.shift_register.shift(first)?;
        self.shift_register.shift(second)?;
        self.shift_register.store()?;
        proof {
            assert(pending_before.push(first).push(second) =~= pending_before + packed_bytes(
                digits@,
            ));
        }
        Ok(())
    }
}

/// Pack two digits into one output byte, the first in the high nibble,
/// wrapping silently past 255.
fn pack_digits(hi: u8, lo: u8) -> (r: u8)
    ensures
        r == pack_pair(hi, lo),
{
    (((hi as u32) * 16 + (lo as u32)) % 256) as u8
}

} // verus!
