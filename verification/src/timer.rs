//! A clock that counts seconds by itself between the times that the host
//! reports.

use crate::ble::CurrentTime;
use crate::clock::advance;
use vstd::prelude::*;

verus! {

/// What the clock waits for: the time of the host, or the end of a second.
#[derive(Clone, Copy, Debug, PartialEq, Eq, Structural)]
pub enum TimerEvent {
    /// The host reported the time.
    HostTime(CurrentTime),
    /// A second has passed without a report.
    SecondElapsed,
}

/// The record one second later: the seconds go up by one, or back to zero
/// from 59 on, and then the minutes go up; the minutes go back to zero from
/// 59 on, and then the hours go up; the hours go back to zero from 23 on.
/// The date is not touched.
pub open spec fn one_second_later(time: CurrentTime) -> CurrentTime {
    if time.seconds < 59 {
        CurrentTime { seconds: (time.seconds + 1) as u8, ..time }
    } else if time.minutes < 59 {
        CurrentTime { seconds: 0, minutes: (time.minutes + 1) as u8, ..time }
    } else if time.hours < 23 {
        CurrentTime { seconds: 0, minutes: 0, hours: (time.hours + 1) as u8, ..time }
    } else {
        CurrentTime { seconds: 0, minutes: 0, hours: 0, ..time }
    }
}

/// The record that the clock shows after `event`.
pub open spec fn time_after(time: CurrentTime, event: TimerEvent) -> CurrentTime {
    match event {
        TimerEvent::HostTime(reported) => reported,
        TimerEvent::SecondElapsed => one_second_later(time),
    }
}

/// Moves the record forward by one second.
pub fn tick_second(time: CurrentTime) -> (later: CurrentTime)
    ensures
        later == one_second_later(time),
{
    let mut time = time;
    if time.seconds >= 59 {
        time.seconds = 0;
        if time.minutes >= 59 {
            time.minutes = 0;
            if time.hours >= 23 {
                time.hours = 0;
            } else {
                time.hours += 1;
            }
        } else {
            time.minutes += 1;
        }
    } else {
        time.seconds += 1;
    }
    time
}

/// The record to show after `event`: the time of the host where it
/// reported one, and else the record one second later.
pub fn next_time(time: CurrentTime, event: TimerEvent) -> (next: CurrentTime)
    ensures
        next == time_after(time, event),
{
    match event {
        TimerEvent::HostTime(reported) => reported,
        TimerEvent::SecondElapsed => tick_second(time),
    }
}

/// On a valid time of day, one tick of this clock is what the clock model
/// computes for one second of elapsed time.
pub proof fn lemma_tick_is_one_second(time: CurrentTime)
    requires
        time.time_of_day().is_valid(),
    ensures
        one_second_later(time).time_of_day() == advance(time.time_of_day(), 1000),
        one_second_later(time).time_of_day().is_valid(),
{
}

} // verus!
