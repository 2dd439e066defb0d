//! Points in time on the UTC time line, as the transcript records them.
//!
//! A `Timestamp` holds what a `chrono::DateTime<Utc>` holds: whole seconds
//! since 1970-01-01T00:00:00Z (leap seconds not counted) and nanoseconds
//! into that second. During a leap second the nanoseconds run from 10^9 up
//! to 2 * 10^9 - 1, and only the last second of a minute can be one.

use vstd::prelude::*;

verus! {

/// Nanoseconds in one second.
pub const NANOS_PER_SEC: u32 = 1_000_000_000;

/// Seconds in one day.
pub const SECS_PER_DAY: i64 = 86_400;

/// The earliest second that chrono can represent: `DateTime::<Utc>::MIN_UTC`.
pub const MIN_SECS: i64 = -8_334_601_228_800;

/// The latest second that chrono can represent: `DateTime::<Utc>::MAX_UTC`, 262142-12-31T23:59:59.
pub const MAX_SECS: i64 = 8_210_266_876_799;

/// A UTC date and time: `secs` seconds after the Unix epoch, plus `nanos`.
#[derive(Clone, Copy, Debug, PartialEq, Eq)]
pub struct Timestamp {
    pub secs: i64,
    pub nanos: u32,
}

impl Timestamp {
    /// Exactly the values that `chrono::DateTime::<Utc>::from_timestamp` accepts.
    pub open spec fn valid(self) -> bool {
        &&& MIN_SECS <= self.secs <= MAX_SECS
        &&& self.nanos < 2 * NANOS_PER_SEC
        &&& self.nanos >= NANOS_PER_SEC ==> self.secs % 60 == 59
    }

    /// Not inside a leap second.
    pub open spec fn is_regular(self) -> bool {
        self.nanos < NANOS_PER_SEC
    }

    /// Whether `self` is valid, as `valid` defines it.
    pub fn is_valid(&self) -> (b: bool)
        ensures
            b == self.valid(),
    {
        MIN_SECS <= self.secs && self.secs <= MAX_SECS && self.nanos < 2 * NANOS_PER_SEC
            && (self.nanos < NANOS_PER_SEC || self.secs % 60 == 59 || self.secs % 60 == -1)
    }

    /// Builds a timestamp, or `None` where chrono would not represent it.
    pub fn from_parts(secs: i64, nanos: u32) -> (t: Option<Timestamp>)
        ensures
            match t {
                Some(t) => t.secs == secs && t.nanos == nanos && t.valid(),
                None => !(Timestamp { secs, nanos }).valid(),
            },
    {
        let t = Timestamp { secs, nanos };
        if t.is_valid() {
            Some(t)
        } else {
            None
        }
    }
}

/// `a` is at or after `b` on the time line, as chrono orders date-times.
pub open spec fn at_or_after(a: Timestamp, b: Timestamp) -> bool {
    a.secs > b.secs || (a.secs == b.secs && a.nanos >= b.nanos)
}

/// Whether `a` is at or after `b`.
pub fn is_at_or_after(a: &Timestamp, b: &Timestamp) -> (r: bool)
    ensures
        r == at_or_after(*a, *b),
{
    a.secs > b.secs || (a.secs == b.secs && a.nanos >= b.nanos)
}

/// The second of the day, 0 to 86399.
pub open spec fn second_of_day(secs: int) -> int {
    secs % (SECS_PER_DAY as int)
}

/// The leap second that chrono counts between `a` and `b` when one of them
/// lies inside a leap second and the other is later (or earlier) in its day.
pub open spec fn leap_adjustment(a: Timestamp, b: Timestamp) -> int {
    let ta = second_of_day(a.secs as int);
    let tb = second_of_day(b.secs as int);
    if ta > tb && b.nanos >= NANOS_PER_SEC {
        1
    } else if ta < tb && a.nanos >= NANOS_PER_SEC {
        -1
    } else {
        0
    }
}

/// The signed time from `b` to `a`, in nanoseconds, as chrono computes `a - b`.
pub open spec fn nanos_between(a: Timestamp, b: Timestamp) -> int {
    (a.secs - b.secs + leap_adjustment(a, b)) * (NANOS_PER_SEC as int) + a.nanos - b.nanos
}

/// Division rounding toward zero, as Rust's `/` on signed integers.
pub open spec fn div_toward_zero(n: int, d: int) -> int {
    if n >= 0 {
        n / d
    } else {
        -((-n) / d)
    }
}

/// The whole milliseconds from `b` to `a`, truncated toward zero.
pub open spec fn millis_between(a: Timestamp, b: Timestamp) -> int {
    div_toward_zero(nanos_between(a, b), 1_000_000)
}

/// Calls `chrono`: `(a - b).num_milliseconds()` for the two `DateTime<Utc>`
/// that `later` and `earlier` stand for. The contract claims that chrono's
/// difference of two date-times is the nanosecond distance of `nanos_between`
/// (one leap second counted as `leap_adjustment` says), and that
/// `num_milliseconds` truncates it toward zero.
#[verifier::external_body]
pub(crate) fn chrono_millis_between(later: &Timestamp, earlier: &Timestamp) -> (ms: i64)
    requires
        later.valid(),
        earlier.valid(),
    ensures
        ms == millis_between(*later, *earlier),
{
    let a = chrono::DateTime::from_timestamp(later.secs, later.nanos).unwrap();
    let b = chrono::DateTime::from_timestamp(earlier.secs, earlier.nanos).unwrap();
    (a - b).num_milliseconds()
}

/// Five hours, in seconds: the length of a billing window.
pub const BILLING_WINDOW_SECS: i64 = 5 * 3600;

/// The start of the billing window that ends at `now`.
pub open spec fn window_start(now: Timestamp) -> Timestamp {
    Timestamp { secs: (now.secs - BILLING_WINDOW_SECS) as i64, nanos: now.nanos }
}

/// Midnight UTC of the day of `now`.
pub open spec fn day_start(now: Timestamp) -> Timestamp {
    Timestamp { secs: (now.secs - second_of_day(now.secs as int)) as i64, nanos: 0 }
}

/// The start of the billing window that ends at `now`: five hours earlier.
pub fn billing_window_start(now: &Timestamp) -> (t: Timestamp)
    requires
        now.valid(),
        now.is_regular(),
        now.secs - BILLING_WINDOW_SECS >= MIN_SECS,
    ensures
        t.valid(),
        t == window_start(*now),
{
    Timestamp { secs: now.secs - BILLING_WINDOW_SECS, nanos: now.nanos }
}

/// Midnight UTC at the start of the day of `now`.
pub fn start_of_day(now: &Timestamp) -> (t: Timestamp)
    requires
        now.valid(),
    ensures
        t.valid(),
        t == day_start(*now),
{
    let r = now.secs % SECS_PER_DAY;
    let tod = if r < 0 { r + SECS_PER_DAY } else { r };
    assert(tod == second_of_day(now.secs as int));
    Timestamp { secs: now.secs - tod, nanos: 0 }
}

/// The day starts at a midnight, at or before `now` and less than a day before it.
pub proof fn lemma_day_start_bounds(now: Timestamp)
    requires
        now.valid(),
    ensures
        day_start(now).valid(),
        day_start(now).secs % SECS_PER_DAY == 0,
        at_or_after(now, day_start(now)),
        now.secs - day_start(now).secs < SECS_PER_DAY,
{
}

/// The billing window ends at `now` and spans five hours.
pub proof fn lemma_window_start_before_now(now: Timestamp)
    requires
        now.valid(),
        now.secs - BILLING_WINDOW_SECS >= MIN_SECS,
    ensures
        at_or_after(now, window_start(now)),
        now.secs - window_start(now).secs == BILLING_WINDOW_SECS,
{
}

/// Being at or after is a total order on timestamps: every timestamp is at
/// or after itself, of two timestamps one is at or after the other, and two
/// timestamps each at or after the other are the same.
pub proof fn lemma_at_or_after_total_order(a: Timestamp, b: Timestamp, c: Timestamp)
    ensures
        at_or_after(a, a),
        at_or_after(a, b) || at_or_after(b, a),
        at_or_after(a, b) && at_or_after(b, a) ==> a == b,
        at_or_after(a, b) && at_or_after(b, c) ==> at_or_after(a, c),
        a.secs > b.secs ==> at_or_after(a, b) && !at_or_after(b, a),
{
}

/// Outside leap seconds, the time between two timestamps with the same
/// fraction of a second is their difference in whole seconds, times 1000.
pub proof fn lemma_millis_between_whole_seconds(a: Timestamp, b: Timestamp)
    requires
        a.is_regular(),
        b.is_regular(),
        a.nanos == b.nanos,
    ensures
        millis_between(a, b) == (a.secs - b.secs) * 1000,
{
    assert(leap_adjustment(a, b) == 0);
    let d = a.secs - b.secs;
    assert(d * 1_000_000_000 == (d * 1000) * 1_000_000);
    if d >= 0 {
        assert((d * 1000) * 1_000_000 / 1_000_000 == d * 1000);
    } else {
        assert((-(d * 1_000_000_000)) == (-(d * 1000)) * 1_000_000);
        assert((-(d * 1000)) * 1_000_000 / 1_000_000 == -(d * 1000));
    }
}

/// The time from `b` to `a` is the negation of the time from `a` to `b`.
pub proof fn lemma_millis_between_antisymmetric(a: Timestamp, b: Timestamp)
    ensures
        millis_between(a, b) == -millis_between(b, a),
{
}

} // verus!
