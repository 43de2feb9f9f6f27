//! Lengths of time, the clock and timestamps, call by call.

use crate::text::append_padded;
use crate::time;
use crate::time::{current_unix_time, record_time, Duration, Timestamp};
use vstd::prelude::*;

verus! {

/// So many seconds are that, and nothing beyond them.
pub proof fn seconds_are_seconds(secs: u64, d: Duration, back: u64)
    requires
        call_ensures(Duration::from_secs, (secs,), d),
        call_ensures(Duration::as_secs, (&d,), back),
    ensures
        d.secs == secs,
        d.nanos == 0,
        back == secs,
{
}

/// A thousand milliseconds make a second, and each that is left over a million nanoseconds.
pub proof fn milliseconds_make_seconds(millis: u64, d: Duration)
    requires
        call_ensures(Duration::from_millis, (millis,), d),
    ensures
        d.secs == millis / 1000,
        d.nanos == (millis % 1000) * 1_000_000,
{
}

/// The whole seconds of a length of time are told, and it is none only if there is nothing of it.
pub proof fn lengths_are_told(d: Duration, secs: u64, zero: bool, none: Duration)
    requires
        call_ensures(Duration::as_secs, (&d,), secs),
        call_ensures(Duration::is_zero, (&d,), zero),
        call_ensures(<Duration as Default>::default, (), none),
    ensures
        secs == d.secs,
        zero <==> d.secs == 0 && d.nanos == 0,
        none.secs == 0 && none.nanos == 0,
        d.as_nanos() == d.secs * 1_000_000_000 + d.nanos,
{
}

/// A reading of the clock is recorded in milliseconds: nothing for a clock before the epoch, and
/// the greatest number for one too far beyond it.
pub proof fn readings_are_recorded_in_milliseconds(elapsed: Option<Duration>, time: u64)
    requires
        call_ensures(record_time, (elapsed,), time),
    ensures
        match elapsed {
            None => time == 0,
            Some(d) => {
                let millis = d.secs * 1000 + d.nanos / 1_000_000;
                time == millis || (millis > u64::MAX && time == u64::MAX)
            },
        },
{
}

/// A later reading is never recorded as an earlier time.
pub proof fn later_readings_are_recorded_later(a: Duration, b: Duration, at_a: u64, at_b: u64)
    requires
        call_ensures(record_time, (Some(a),), at_a),
        call_ensures(record_time, (Some(b),), at_b),
        a.secs * 1_000_000_000 + a.nanos <= b.secs * 1_000_000_000 + b.nanos,
    ensures
        at_a <= at_b,
{
}

/// The present time is what is recorded of a reading of the clock, in milliseconds.
pub proof fn present_is_a_reading_in_milliseconds(now: u64)
    requires
        call_ensures(current_unix_time, (), now),
    ensures
        exists|elapsed: Option<Duration>| #[trigger]
            time::is_reading(elapsed) && match elapsed {
                None => now == 0,
                Some(d) => {
                    let millis = d.secs * 1000 + d.nanos / 1_000_000;
                    now == millis || (millis > u64::MAX && now == u64::MAX)
                },
            },
{
    let elapsed = choose|elapsed: Option<Duration>| #[trigger]
        time::is_reading(elapsed) && now == time::recorded_time(elapsed);
    assert(time::is_reading(elapsed));
}

/// A timestamp splits a time: sixty seconds make a minute and sixty minutes an hour, and the hours
/// are there from one on, or where they were asked for.
pub proof fn timestamps_split_the_time(d: Duration, force_hours: bool, t: Timestamp, has: bool)
    requires
        call_ensures(Timestamp::new, (d, force_hours), t),
        call_ensures(Timestamp::has_hours, (&t,), has),
    ensures
        t.seconds < 60,
        t.minutes < 60,
        has == (t.hours is Some),
        has <==> force_hours || d.secs >= 3600,
        match t.hours {
            None => t.minutes * 60 + t.seconds == d.secs,
            Some(hours) => exists|rounds: int|
                0 <= rounds && #[trigger] (rounds * 0x1_0000) * 3600 + hours * 3600 + t.minutes * 60
                    + t.seconds == d.secs,
        },
{
    if let Some(hours) = t.hours {
        let rounds: int = d.secs as int / 3600 / 0x1_0000;
        assert((rounds * 0x1_0000) * 3600 + hours * 3600 + t.minutes * 60 + t.seconds == d.secs);
    }
}

/// The text of a timestamp is its parts as numbers are written, with colons between, and the hours
/// only where there are any.
pub proof fn timestamps_are_written_in_parts(
    t: Timestamp,
    s: String,
    hours: &mut String,
    minutes: &mut String,
    seconds: &mut String,
)
    requires
        call_ensures(Timestamp::to_string, (&t,), s),
        old(hours)@.len() == 0,
        old(minutes)@.len() == 0,
        old(seconds)@.len() == 0,
        t.hours matches Some(h) ==> call_ensures(append_padded, (hours, h), ()),
        call_ensures(append_padded, (minutes, t.minutes), ()),
        call_ensures(append_padded, (seconds, t.seconds), ()),
    ensures
        s@ == (if t.hours is Some {
            final(hours)@ + seq![':'] + final(minutes)@ + seq![':'] + final(seconds)@
        } else {
            final(minutes)@ + seq![':'] + final(seconds)@
        }),
{
    assert(s@ =~= (if t.hours is Some {
        final(hours)@ + seq![':'] + final(minutes)@ + seq![':'] + final(seconds)@
    } else {
        final(minutes)@ + seq![':'] + final(seconds)@
    }));
}

/// Without a time, a timestamp is all zeros and has no hours.
pub proof fn timestamps_begin_at_zero(t: Timestamp)
    requires
        call_ensures(<Timestamp as Default>::default, (), t),
    ensures
        t.hours is None,
        t.minutes == 0,
        t.seconds == 0,
{
}

}
