//! The clock model: wall time reconstructed from the last time that the host
//! specified and the device time that has passed since.

use crate::interface::TimeOfDay;
use vstd::arithmetic::div_mod::lemma_fundamental_div_mod_converse;
use vstd::prelude::*;

verus! {

/// Seconds in a day.
pub const SECONDS_PER_DAY: u32 = 86_400;

/// The time of day `elapsed_ms` milliseconds after `last_specified`.
///
/// The elapsed time is split into whole hours, minutes and seconds, each
/// modulo its base, and added field by field. A seconds sum of 60 or more
/// carries one into the minutes, a minutes sum of 60 or more carries one into
/// the hours, and the hours wrap at 24. A field of `last_specified` that is
/// out of range carries at most one, as any other sum does.
pub open spec fn advance(last_specified: TimeOfDay, elapsed_ms: nat) -> TimeOfDay {
    let elapsed_s = elapsed_ms / 1000;
    let seconds = last_specified.seconds + elapsed_s % 60;
    let minutes = last_specified.minutes + elapsed_s / 60 % 60 + carry(seconds);
    let hours = last_specified.hours + elapsed_s / 60 / 60 % 24 + carry(minutes);
    TimeOfDay {
        hours: (hours % 24) as u8,
        minutes: (minutes % 60) as u8,
        seconds: (seconds % 60) as u8,
    }
}

/// What a seconds or minutes sum hands to the next field.
pub open spec fn carry(sum: int) -> int {
    if sum >= 60 {
        1
    } else {
        0
    }
}

/// The number of seconds between midnight and `t`.
pub open spec fn second_of_day(t: TimeOfDay) -> nat {
    (t.hours * 3600 + t.minutes * 60 + t.seconds) as nat
}

/// The time of day `second` seconds after midnight.
pub open spec fn time_at_second(second: nat) -> TimeOfDay {
    TimeOfDay {
        hours: (second / 3600 % 24) as u8,
        minutes: (second / 60 % 60) as u8,
        seconds: (second % 60) as u8,
    }
}

/// Computes the current time of day from the last specified time and the
/// milliseconds that have passed since it was specified.
pub fn current_time(last_specified: TimeOfDay, elapsed_ms: u64) -> (now: TimeOfDay)
    ensures
        now == advance(last_specified, elapsed_ms as nat),
        now.is_valid(),
{
    let elapsed_s: u64 = elapsed_ms / 1000;
    let mut hours_delta: u64 = elapsed_s / 60 / 60 % 24;
    let mut minutes_delta: u64 = elapsed_s / 60 % 60;
    let seconds_delta: u64 = elapsed_s % 60;

    let seconds_sum: u64 = last_specified.seconds as u64 + seconds_delta;
    if seconds_sum >= 60 {
        minutes_delta += 1;
    }
    let minutes_sum: u64 = last_specified.minutes as u64 + minutes_delta;
    if minutes_sum >= 60 {
        hours_delta += 1;
    }
    let hours_sum: u64 = last_specified.hours as u64 + hours_delta;

    TimeOfDay {
        hours: (hours_sum % 24) as u8,
        minutes: (minutes_sum % 60) as u8,
        seconds: (seconds_sum % 60) as u8,
    }
}

/// What the application knows of time, as plain values.
pub struct ClockModel {
    /// The time of day that was specified last.
    pub last_specified_time: TimeOfDay,
    /// The device time, in milliseconds since boot, at which it was specified.
    pub specified_at: nat,
    /// The device time of the input being processed.
    pub now: nat,
    /// The device time of the input processed before it.
    pub previous: nat,
}

impl ClockModel {
    /// Device time has not run backwards.
    pub open spec fn wf(self) -> bool {
        &&& self.specified_at <= self.now
        &&& self.previous <= self.now
        &&& self.now <= u64::MAX
    }

    /// The clock of a device that has just started, at device time `ms_since_boot`.
    pub open spec fn started_at(ms_since_boot: nat) -> ClockModel {
        ClockModel {
            last_specified_time: TimeOfDay::midnight(),
            specified_at: ms_since_boot,
            now: ms_since_boot,
            previous: ms_since_boot,
        }
    }

    /// The clock after an input is taken up at device time `ms_since_boot`.
    pub open spec fn observed(self, ms_since_boot: nat) -> ClockModel {
        ClockModel { previous: self.now, now: ms_since_boot, ..self }
    }

    /// The clock after the time of day is specified at the current device time.
    pub open spec fn with_time(self, time: TimeOfDay) -> ClockModel {
        ClockModel { last_specified_time: time, specified_at: self.now, ..self }
    }

    /// Milliseconds since the time of day was specified.
    pub open spec fn elapsed_ms(self) -> nat {
        (self.now - self.specified_at) as nat
    }

    /// The current time of day.
    pub open spec fn current_time(self) -> TimeOfDay {
        advance(self.last_specified_time, self.elapsed_ms())
    }

    /// Inputs per second, judged by the last two: 1000 over the milliseconds
    /// between them, which count as one where they are none.
    pub open spec fn fps(self) -> nat {
        let delta = self.now - self.previous;
        (1000int / (if delta < 1 { 1int } else { delta })) as nat
    }
}

/// The clock state that the application keeps between inputs.
pub struct TimeState {
    ms_since_boot_when_time_last_specified: u64,
    last_specified_time: TimeOfDay,
    current_ms_since_boot: u64,
    /// Used only to tell how quickly inputs are processed.
    previous_ms_since_boot: u64,
}

impl View for TimeState {
    type V = ClockModel;

    closed spec fn view(&self) -> ClockModel {
        ClockModel {
            last_specified_time: self.last_specified_time,
            specified_at: self.ms_since_boot_when_time_last_specified as nat,
            now: self.current_ms_since_boot as nat,
            previous: self.previous_ms_since_boot as nat,
        }
    }
}

impl TimeState {
    /// Device time has not run backwards since this state was made.
    pub open spec fn wf(&self) -> bool {
        self@.wf()
    }

    /// The clock of a device that has just started: midnight, specified now.
    pub fn new(ms_since_boot: u64) -> (state: TimeState)
        ensures
            state.wf(),
            state@ == ClockModel::started_at(ms_since_boot as nat),
    {
        TimeState {
            ms_since_boot_when_time_last_specified: ms_since_boot,
            last_specified_time: TimeOfDay { hours: 0, minutes: 0, seconds: 0 },
            current_ms_since_boot: ms_since_boot,
            previous_ms_since_boot: ms_since_boot,
        }
    }

    /// Takes up an input at device time `ms_since_boot`.
    pub fn observe(&mut self, ms_since_boot: u64)
        requires
            old(self).wf(),
            old(self)@.now <= ms_since_boot,
        ensures
            final(self).wf(),
            final(self)@ == old(self)@.observed(ms_since_boot as nat),
    {
        self.previous_ms_since_boot = self.current_ms_since_boot;
        self.current_ms_since_boot = ms_since_boot;
    }

    /// Specifies the time of day, as of the current device time.
    pub fn set_time(&mut self, time: TimeOfDay)
        requires
            old(self).wf(),
        ensures
            final(self).wf(),
            final(self)@ == old(self)@.with_time(time),
    {
        self.last_specified_time = time;
        self.ms_since_boot_when_time_last_specified = self.current_ms_since_boot;
    }

    /// Calculates the current time from the last specified time and the
    /// device time that has passed since.
    pub fn current_time(&self) -> (now: TimeOfDay)
        requires
            self.wf(),
        ensures
            now == self@.current_time(),
            now.is_valid(),
    {
        let ms_delta = self.current_ms_since_boot - self.ms_since_boot_when_time_last_specified;
        current_time(self.last_specified_time, ms_delta)
    }

    /// How many inputs per second are being processed.
    pub fn fps(&self) -> (fps: u32)
        requires
            self.wf(),
        ensures
            fps == self@.fps(),
            fps <= 1000,
    {
        let delta = self.current_ms_since_boot - self.previous_ms_since_boot;
        let divisor = if delta < 1 { 1 } else { delta };
        (1000 / divisor) as u32
    }

    /// The device time of the input being processed.
    pub fn current_ms_since_boot(&self) -> (ms: u64)
        ensures
            ms == self@.now,
    {
        self.current_ms_since_boot
    }
}

/// Whatever the last specified time and the elapsed time are, the computed
/// time has its hours in 0..=23 and its minutes and seconds in 0..=59.
pub proof fn lemma_advance_is_valid(last_specified: TimeOfDay, elapsed_ms: nat)
    ensures
        advance(last_specified, elapsed_ms).is_valid(),
{
}

/// A valid time to which no time is added is unchanged.
pub proof fn lemma_advance_by_zero(t: TimeOfDay)
    requires
        t.is_valid(),
    ensures
        advance(t, 0) == t,
{
}

/// Less than a second of elapsed time leaves a valid time unchanged.
pub proof fn lemma_advance_below_one_second(t: TimeOfDay, elapsed_ms: nat)
    requires
        t.is_valid(),
        elapsed_ms < 1000,
    ensures
        advance(t, elapsed_ms) == t,
{
}

/// A number of seconds written as whole days, hours, minutes and seconds has
/// those hours, minutes and seconds on the clock face.
proof fn lemma_clock_face(total: int, days: int, hours: int, minutes: int, seconds: int)
    requires
        0 <= hours < 24,
        0 <= minutes < 60,
        0 <= seconds < 60,
        total == days * 86_400 + hours * 3600 + minutes * 60 + seconds,
    ensures
        total % 86_400 == hours * 3600 + minutes * 60 + seconds,
        (total % 86_400) / 3600 % 24 == hours,
        (total % 86_400) / 60 % 60 == minutes,
        (total % 86_400) % 60 == seconds,
{
    let day = hours * 3600 + minutes * 60 + seconds;
    lemma_fundamental_div_mod_converse(total, 86_400, days, day);
    lemma_fundamental_div_mod_converse(day, 3600, hours, minutes * 60 + seconds);
    lemma_fundamental_div_mod_converse(day, 60, hours * 60 + minutes, seconds);
    lemma_fundamental_div_mod_converse(hours * 60 + minutes, 60, hours, minutes);
}

/// On a valid time the field-wise addition with carries is the addition of
/// whole seconds on the clock face: the seconds since midnight plus the
/// elapsed seconds, modulo one day.
pub proof fn lemma_advance_adds_seconds(t: TimeOfDay, elapsed_ms: nat)
    requires
        t.is_valid(),
    ensures
        advance(t, elapsed_ms) == time_at_second(
            (second_of_day(t) + elapsed_ms / 1000) % (SECONDS_PER_DAY as nat),
        ),
        second_of_day(advance(t, elapsed_ms)) == (second_of_day(t) + elapsed_ms / 1000) % (
        SECONDS_PER_DAY as nat),
{
    let e = (elapsed_ms / 1000) as int;
    let seconds = t.seconds + e % 60;
    let minutes = t.minutes + e / 60 % 60 + carry(seconds);
    let hours = t.hours + e / 60 / 60 % 24 + carry(minutes);
    let days = e / 60 / 60 / 24 + (if hours >= 24 { 1int } else { 0int });
    let total = second_of_day(t) + e;
    assert(e == (e / 60) * 60 + e % 60);
    assert(e / 60 == (e / 60 / 60) * 60 + e / 60 % 60);
    assert(e / 60 / 60 == (e / 60 / 60 / 24) * 24 + e / 60 / 60 % 24);
    assert(seconds % 60 == seconds - 60 * carry(seconds));
    assert(minutes % 60 == minutes - 60 * carry(minutes));
    assert(hours % 24 == hours - 24 * (if hours >= 24 { 1int } else { 0int }));
    lemma_clock_face(total, days, hours % 24, minutes % 60, seconds % 60);
}

} // verus!
