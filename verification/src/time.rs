//! Play times, the clock, and the `hh:mm:ss` text that the player shows.

use crate::text;
use std::time::{SystemTime, SystemTimeError};
use vstd::prelude::*;

verus! {

pub const NANOS_PER_SEC: u32 = 1_000_000_000;

/// A length of time: whole seconds and the nanoseconds beyond them.
#[derive(Clone, Copy, Debug, PartialEq, Eq, Structural)]
pub struct Duration {
    pub secs: u64,
    pub nanos: u32,
}

impl Duration {
    /// The nanoseconds never make up a whole second.
    pub open spec fn well_formed(self) -> bool {
        self.nanos < NANOS_PER_SEC
    }

    /// The whole length in nanoseconds.
    pub open spec fn as_nanos(self) -> int {
        self.secs * NANOS_PER_SEC + self.nanos
    }

    pub fn from_secs(secs: u64) -> (d: Self)
        ensures
            d.well_formed(),
            d.as_nanos() == secs * NANOS_PER_SEC,
            d == (Duration { secs, nanos: 0 }),
    {
        Duration { secs, nanos: 0 }
    }

    pub fn from_millis(millis: u64) -> (d: Self)
        ensures
            d.well_formed(),
            d.as_nanos() == millis * 1_000_000,
    {
        let rest: u64 = millis % 1000;
        Duration { secs: millis / 1000, nanos: rest as u32 * 1_000_000 }
    }

    pub fn as_secs(&self) -> (secs: u64)
        ensures
            secs == self.secs,
            self.well_formed() ==> secs == self.as_nanos() / (NANOS_PER_SEC as int),
    {
        self.secs
    }

    pub fn is_zero(&self) -> (zero: bool)
        ensures
            zero == (self.as_nanos() == 0),
    {
        self.secs == 0 && self.nanos == 0
    }
}

impl Default for Duration {
    fn default() -> (d: Self)
        ensures
            d == (Duration { secs: 0, nanos: 0 }),
    {
        Duration { secs: 0, nanos: 0 }
    }
}

/// A well-formed duration is settled by its length.
pub proof fn durations_of_equal_length_are_equal(a: Duration, b: Duration)
    requires
        a.well_formed(),
        b.well_formed(),
        a.as_nanos() == b.as_nanos(),
    ensures
        a == b,
{
}

/// `std::time::SystemTime`, a reading of the clock that is passed through unread.
#[verifier::external_type_specification]
#[verifier::external_body]
pub struct ExSystemTime(SystemTime);

/// `std::time::SystemTimeError`, which tells only that a clock is set before the epoch.
#[verifier::external_type_specification]
#[verifier::external_body]
pub struct ExSystemTimeError(SystemTimeError);

/// `SystemTime::now` reads the machine's clock. Nothing is claimed of the result.
pub assume_specification[ SystemTime::now ]() -> SystemTime
;

/// `SystemTime::duration_since`, asked for the time since the Unix epoch, which fails on a clock
/// set before it. The length that it gives is handed on as its whole seconds and the nanoseconds
/// beyond them, which never make up a whole second. How long it is rests on the clock, and nothing
/// is claimed of it.
#[verifier::external_body]
fn since_unix_epoch(now: &SystemTime) -> (elapsed: Result<Duration, SystemTimeError>)
    ensures
        elapsed matches Ok(elapsed) ==> elapsed.well_formed(),
{
    now.duration_since(SystemTime::UNIX_EPOCH).map(
        |d| Duration { secs: d.as_secs(), nanos: d.subsec_nanos() },
    )
}

/// Whether the clock was read, and this is the time since the Unix epoch that it gave: none for a
/// clock set before the epoch.
pub closed spec fn is_reading(elapsed: Option<Duration>) -> bool {
    exists|now: SystemTime, since: Result<Duration, SystemTimeError>|
        {
            &&& call_ensures(SystemTime::now, (), now)
            &&& #[trigger] call_ensures(since_unix_epoch, (&now,), since)
            &&& elapsed == match since {
                Ok(since) => Some(since),
                Err(_) => None,
            }
        }
}

/// What is recorded of a reading of the clock, given as the time since the Unix epoch: its whole
/// milliseconds, zero for a clock set before the epoch, and the greatest `u64` for a reading
/// beyond it.
pub open spec fn recorded_time(elapsed: Option<Duration>) -> int {
    match elapsed {
        None => 0,
        Some(elapsed) => {
            let millis = elapsed.as_nanos() / 1_000_000;
            if millis <= u64::MAX {
                millis
            } else {
                u64::MAX as int
            }
        },
    }
}

/// Turns a reading of the clock into the time that is recorded for it.
pub fn record_time(elapsed: Option<Duration>) -> (time: u64)
    ensures
        time == recorded_time(elapsed),
{
    match elapsed {
        None => 0,
        Some(elapsed) => {
            let millis: u128 = elapsed.secs as u128 * 1000 + (elapsed.nanos / 1_000_000) as u128;
            if millis <= u64::MAX as u128 {
                millis as u64
            } else {
                u64::MAX
            }
        },
    }
}

/// The present time in milliseconds since the Unix epoch: what is recorded of a reading of the
/// machine's clock. That the clock is right is not claimed.
pub fn current_unix_time() -> (time: u64)
    ensures
        exists|elapsed: Option<Duration>| #[trigger]
            is_reading(elapsed) && time == recorded_time(elapsed),
{
    let now = SystemTime::now();
    let elapsed = match since_unix_epoch(&now) {
        Ok(elapsed) => Some(elapsed),
        Err(_) => None,
    };
    assert(is_reading(elapsed));
    record_time(elapsed)
}

/// The present time is read off the clock: the length that the clock tells, in milliseconds and
/// nothing else, as far as it fits.
proof fn present_is_read_off_the_clock(time: u64)
    requires
        call_ensures(current_unix_time, (), time),
    ensures
        exists|now: SystemTime, since: Result<Duration, SystemTimeError>|
            {
                &&& call_ensures(SystemTime::now, (), now)
                &&& #[trigger] call_ensures(since_unix_epoch, (&now,), since)
                &&& match since {
                    Err(_) => time == 0,
                    Ok(d) => {
                        let millis = d.secs * 1000 + d.nanos / 1_000_000;
                        time == millis || (millis > u64::MAX && time == u64::MAX)
                    },
                }
            },
{
    let elapsed = choose|elapsed: Option<Duration>| #[trigger]
        is_reading(elapsed) && time == recorded_time(elapsed);
    assert(is_reading(elapsed));
}

/// A time of play as the player shows it.
#[derive(Clone, Copy, Debug, PartialEq, Eq, Structural)]
pub struct Timestamp {
    pub hours: Option<u16>,
    pub minutes: u16,
    pub seconds: u16,
}

impl Timestamp {
    /// The seconds that the timestamp reads as.
    pub open spec fn total_seconds(self) -> int {
        (match self.hours {
            Some(h) => h as int,
            None => 0,
        }) * 3600 + self.minutes * 60 + self.seconds
    }

    /// Minutes and seconds stay below sixty.
    pub open spec fn well_formed(self) -> bool {
        self.minutes < 60 && self.seconds < 60
    }

    /// The timestamp of a time of play.
    pub open spec fn of(time: Duration, force_hours: bool) -> Self {
        Timestamp {
            hours: if time.secs >= 3600 || force_hours {
                Some((time.secs / 3600 % 0x1_0000) as u16)
            } else {
                None
            },
            minutes: (time.secs / 60 % 60) as u16,
            seconds: (time.secs % 60) as u16,
        }
    }

    /// The text of the timestamp: its parts, each at least two digits wide, with colons between.
    pub open spec fn text(self) -> Seq<char> {
        let rest = text::padded(self.minutes as nat) + seq![':'] + text::padded(self.seconds as nat);
        match self.hours {
            Some(h) => text::padded(h as nat) + seq![':'] + rest,
            None => rest,
        }
    }

    /// Splits a time into hours, minutes and seconds. The hours are there from a full hour on, or
    /// where they are asked for; they wrap around beyond `u16`.
    pub fn new(time: Duration, force_hours: bool) -> (t: Self)
        ensures
            t == Timestamp::of(time, force_hours),
    {
        let mut seconds: u64 = time.as_secs();
        let mut minutes: u64 = seconds / 60;
        seconds = seconds - minutes * 60;
        let hours: u64 = minutes / 60;
        minutes = minutes - hours * 60;
        let wrapped: u16 = #[verifier::truncate] (hours as u16);
        assert(wrapped == hours % 0x1_0000) by (bit_vector)
            requires
                wrapped == hours as u16,
        ;
        Timestamp {
            hours: if hours > 0 || force_hours {
                Some(wrapped)
            } else {
                None
            },
            minutes: minutes as u16,
            seconds: seconds as u16,
        }
    }

    pub fn has_hours(&self) -> (b: bool)
        ensures
            b == (self.hours is Some),
    {
        self.hours.is_some()
    }

    /// The timestamp as text: `mm:ss`, with `hh:` before it where there are hours.
    pub fn to_string(&self) -> (s: String)
        ensures
            s@ == self.text(),
    {
        let mut s = String::new();
        if let Some(hours) = self.hours {
            text::append_padded(&mut s, hours);
            s.append(":");
        }
        text::append_padded(&mut s, self.minutes);
        s.append(":");
        text::append_padded(&mut s, self.seconds);
        proof {
            reveal_strlit(":");
            assert(":"@ =~= seq![':']);
            assert(s@ =~= self.text());
        }
        s
    }
}

impl Default for Timestamp {
    fn default() -> (t: Self)
        ensures
            t == (Timestamp { hours: None, minutes: 0, seconds: 0 }),
    {
        Timestamp { hours: None, minutes: 0, seconds: 0 }
    }
}

/// A timestamp keeps minutes and seconds below sixty, and reads as the seconds that it was made
/// from as long as the hours fit, whether or not the hours were asked for.
pub proof fn timestamp_keeps_the_seconds(time: Duration, force_hours: bool)
    ensures
        Timestamp::of(time, force_hours).well_formed(),
        time.secs / 3600 < 0x1_0000 ==> Timestamp::of(time, force_hours).total_seconds()
            == time.secs,
{
}

/// Asking for hours changes the timestamp of a time below one hour only, which then reads zero
/// hours.
pub proof fn asking_for_hours_only_adds_them(time: Duration)
    ensures
        ({
            let plain = Timestamp::of(time, false);
            let forced = Timestamp::of(time, true);
            if time.secs >= 3600 {
                forced == plain
            } else {
                plain.hours is None && forced == (Timestamp { hours: Some(0), ..plain })
            }
        }),
{
}

/// A timestamp can be told from its text.
pub proof fn timestamp_text_is_unambiguous(a: Timestamp, b: Timestamp)
    requires
        a.text() == b.text(),
    ensures
        a == b,
{
    let (am, asec) = (text::padded(a.minutes as nat), text::padded(a.seconds as nat));
    let (bm, bsec) = (text::padded(b.minutes as nat), text::padded(b.seconds as nat));
    text::padded_has_no_colon(a.minutes as nat);
    text::padded_has_no_colon(a.seconds as nat);
    text::padded_has_no_colon(b.minutes as nat);
    text::padded_has_no_colon(b.seconds as nat);
    let a_rest = am + seq![':'] + asec;
    let b_rest = bm + seq![':'] + bsec;
    match (a.hours, b.hours) {
        (Some(ah), Some(bh)) => {
            text::padded_has_no_colon(ah as nat);
            text::padded_has_no_colon(bh as nat);
            first_part_is_settled(text::padded(ah as nat), a_rest, text::padded(bh as nat), b_rest);
            first_part_is_settled(am, asec, bm, bsec);
            text::padded_is_unambiguous(ah as nat, bh as nat);
        },
        (Some(ah), None) => {
            text::padded_has_no_colon(ah as nat);
            first_part_is_settled(text::padded(ah as nat), a_rest, bm, bsec);
            assert(bsec[am.len() as int] == ':');
        },
        (None, Some(bh)) => {
            text::padded_has_no_colon(bh as nat);
            first_part_is_settled(am, asec, text::padded(bh as nat), b_rest);
            assert(asec[bm.len() as int] == ':');
        },
        (None, None) => {
            first_part_is_settled(am, asec, bm, bsec);
        },
    }
    text::padded_is_unambiguous(a.minutes as nat, b.minutes as nat);
    text::padded_is_unambiguous(a.seconds as nat, b.seconds as nat);
}

/// A text splits at its first colon in one way only.
proof fn first_part_is_settled(a: Seq<char>, a_rest: Seq<char>, b: Seq<char>, b_rest: Seq<char>)
    requires
        !a.contains(':'),
        !b.contains(':'),
        a + seq![':'] + a_rest == b + seq![':'] + b_rest,
    ensures
        a == b,
        a_rest == b_rest,
{
    let s = a + seq![':'] + a_rest;
    assert(s[a.len() as int] == ':' && s[b.len() as int] == ':');
    if a.len() < b.len() {
        assert(s[a.len() as int] == b[a.len() as int]);
    }
    if b.len() < a.len() {
        assert(s[b.len() as int] == a[b.len() as int]);
    }
    assert(a =~= s.take(a.len() as int));
    assert(b =~= s.take(b.len() as int));
    assert(a_rest =~= s.skip(a.len() as int + 1));
    assert(b_rest =~= s.skip(b.len() as int + 1));
}

}
