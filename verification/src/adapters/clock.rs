//! Clocks: the system's, a deterministic one, and clock manipulation.
//!
//! All conversions are between absolute unix milliseconds and FILETIME (UTC);
//! local time is never involved.

use vstd::prelude::*;

use crate::ports::{joined_text, ClockShiftError};
use crate::text::{signed_decimal, signed_digits};

verus! {

/// 100 ns intervals between 1601-01-01 and 1970-01-01.
pub const UNIX_EPOCH_FILETIME_100NS: i64 = 116_444_736_000_000_000;

/// 100 ns intervals in a millisecond.
pub const TICKS_PER_MS: i64 = 10_000;

/// Explicit stand-in when clock manipulation is not compiled in: every call
/// fails with a typed, explanatory error.
#[derive(Debug, Clone, Copy, PartialEq, Eq, Structural)]
pub struct UnavailableClockShifter;

impl UnavailableClockShifter {
    /// Always refuses.
    pub fn set_unix_ms(&self, unix_ms: i64) -> (shifted: Result<(), ClockShiftError>)
        ensures
            shifted matches Err(ClockShiftError::Unavailable(reason)) && reason@
                == "build with --features time_shift on Windows"@,
    {
        Err(ClockShiftError::Unavailable("build with --features time_shift on Windows".to_owned()))
    }
}

/// A FILETIME in its two halves.
#[derive(Debug, Clone, Copy, PartialEq, Eq, Structural)]
#[allow(non_snake_case)]
pub struct FileTime {
    /// Low-order half.
    pub dwLowDateTime: u32,
    /// High-order half.
    pub dwHighDateTime: u32,
}

/// Windows clock shifter.
#[derive(Debug, Clone, Copy, PartialEq, Eq, Structural)]
pub struct WindowsClockShifter;

/// The ticks of a time in unix milliseconds.
pub open spec fn ticks_of(unix_ms: int) -> int {
    unix_ms * TICKS_PER_MS + UNIX_EPOCH_FILETIME_100NS
}

/// Can a time be converted: neither its ticks nor their distance to the unix
/// epoch leave 64 bits?
pub open spec fn in_range(unix_ms: int) -> bool {
    &&& i64::MIN <= unix_ms * TICKS_PER_MS <= i64::MAX
    &&& i64::MIN <= ticks_of(unix_ms) <= i64::MAX
}

/// The refusal of a time that cannot be converted.
pub open spec fn out_of_range_words(unix_ms: int) -> Seq<char> {
    "timestamp "@ + signed_digits(unix_ms) + " out of range"@
}

/// Unix milliseconds to FILETIME (100 ns ticks since 1601).
pub fn unix_ms_to_filetime(unix_ms: i64) -> (file_time: Result<i64, ClockShiftError>)
    ensures
        match file_time {
            Ok(ticks) => in_range(unix_ms as int) && ticks == ticks_of(unix_ms as int),
            Err(ClockShiftError::System(reason)) => !in_range(unix_ms as int) && reason@
                == out_of_range_words(unix_ms as int),
            Err(_) => false,
        },
{
    match unix_ms.checked_mul(TICKS_PER_MS) {
        Some(ticks) => match ticks.checked_add(UNIX_EPOCH_FILETIME_100NS) {
            Some(file_time) => Ok(file_time),
            None => Err(out_of_range(unix_ms)),
        },
        None => Err(out_of_range(unix_ms)),
    }
}

/// The refusal of a time that cannot be converted.
fn out_of_range(unix_ms: i64) -> (error: ClockShiftError)
    ensures
        error matches ClockShiftError::System(reason) && reason@ == out_of_range_words(unix_ms as int),
{
    let mut text = joined_text("timestamp ", signed_decimal(unix_ms).as_str());
    text.append(" out of range");
    ClockShiftError::System(text)
}

/// The number of a FILETIME's 64 bits: negative ticks stand for the number 2^64
/// above them.
pub open spec fn unsigned(file_time: i64) -> int {
    if file_time < 0 {
        file_time + 0x1_0000_0000_0000_0000
    } else {
        file_time as int
    }
}

/// The two halves of a FILETIME.
pub fn split_filetime(file_time: i64) -> (split: Result<FileTime, ClockShiftError>)
    ensures
        match split {
            Ok(halves) => halves.dwHighDateTime * 0x1_0000_0000 + halves.dwLowDateTime == unsigned(
                file_time,
            ),
            Err(_) => false,
        },
{
    let number: u128 = if file_time < 0 {
        (file_time as i128 + 0x1_0000_0000_0000_0000i128) as u128
    } else {
        file_time as u128
    };
    Ok(
        FileTime {
            dwLowDateTime: (number % 0x1_0000_0000) as u32,
            dwHighDateTime: (number / 0x1_0000_0000) as u32,
        },
    )
}

/// The halves are the number's own: two FILETIMEs that stand for the same number of
/// ticks have the same halves.
pub proof fn law_halves_identify_the_time(left: FileTime, right: FileTime)
    requires
        left.dwHighDateTime * 0x1_0000_0000 + left.dwLowDateTime == right.dwHighDateTime * 0x1_0000_0000
            + right.dwLowDateTime,
    ensures
        left == right,
{
}

/// Later times have later FILETIMEs, exactly ten thousand ticks per millisecond
/// apart.
pub proof fn law_ticks_advance_with_time(early: int, late: int)
    ensures
        ticks_of(late) - ticks_of(early) == (late - early) * TICKS_PER_MS,
        early < late ==> ticks_of(early) < ticks_of(late),
{
}

impl WindowsClockShifter {
    /// Assemble the adapter.
    pub fn new() -> (shifter: Self)
        ensures
            shifter == WindowsClockShifter,
    {
        WindowsClockShifter
    }

    /// What the system clock is to be set to.
    pub fn target(&self, unix_ms: i64) -> (target: Result<FileTime, ClockShiftError>)
        ensures
            match target {
                Ok(halves) => {
                    &&& in_range(unix_ms as int)
                    &&& halves.dwHighDateTime * 0x1_0000_0000 + halves.dwLowDateTime == unsigned(
                        ticks_of(unix_ms as int) as i64,
                    )
                },
                Err(ClockShiftError::System(reason)) => !in_range(unix_ms as int) && reason@
                    == out_of_range_words(unix_ms as int),
                Err(_) => false,
            },
    {
        match unix_ms_to_filetime(unix_ms) {
            Ok(file_time) => split_filetime(file_time),
            Err(error) => Err(error),
        }
    }
}

/// The real clock, from how long ago the unix epoch was.
#[derive(Debug, Clone, Copy, PartialEq, Eq, Structural)]
pub struct SystemClock;

impl SystemClock {
    /// Unix milliseconds: the time since the epoch, `None` = the clock stands
    /// before it.
    pub fn now_ms(&self, since_epoch_ms: Option<u128>) -> (now: i64)
        ensures
            now == match since_epoch_ms {
                Some(elapsed) => if elapsed <= i64::MAX {
                    elapsed as i64
                } else {
                    i64::MAX
                },
                None => 0i64,
            },
    {
        match since_epoch_ms {
            Some(elapsed) => if elapsed <= i64::MAX as u128 {
                elapsed as i64
            } else {
                i64::MAX
            },
            None => 0,
        }
    }
}

/// Injectable clock. Advance it manually: a study of many sessions simulates in
/// milliseconds.
#[derive(Debug)]
pub struct FakeClock {
    /// The time it shows.
    pub now_ms: i64,
}

/// A time moved by some milliseconds, around the ends of 64 bits.
pub open spec fn moved(now_ms: i64, delta_ms: i64) -> int {
    if now_ms + delta_ms > i64::MAX {
        now_ms + delta_ms - 0x1_0000_0000_0000_0000
    } else if now_ms + delta_ms < i64::MIN {
        now_ms + delta_ms + 0x1_0000_0000_0000_0000
    } else {
        now_ms + delta_ms
    }
}

impl FakeClock {
    /// Clock pinned at `start_ms`.
    pub fn new(start_ms: i64) -> (clock: Self)
        ensures
            clock.now_ms == start_ms,
    {
        FakeClock { now_ms: start_ms }
    }

    /// Move the clock forward (or backward) by `delta_ms`.
    pub fn advance_ms(&mut self, delta_ms: i64)
        ensures
            final(self).now_ms == moved(old(self).now_ms, delta_ms),
    {
        self.now_ms = self.now_ms.wrapping_add(delta_ms);
    }

    /// Hard-set the clock.
    pub fn set_ms(&mut self, value_ms: i64)
        ensures
            final(self).now_ms == value_ms,
    {
        self.now_ms = value_ms;
    }

    /// The time it shows.
    pub fn now_ms(&self) -> (now: i64)
        ensures
            now == self.now_ms,
    {
        self.now_ms
    }

    /// Clock manipulation, which never fails here.
    pub fn set_unix_ms(&mut self, unix_ms: i64) -> (shifted: Result<(), ClockShiftError>)
        ensures
            shifted is Ok,
            final(self).now_ms == unix_ms,
    {
        self.set_ms(unix_ms);
        Ok(())
    }
}

} // verus!
