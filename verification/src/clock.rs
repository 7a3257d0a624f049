//! Points in time, and the clocks that give them.
use vstd::prelude::*;

verus! {

/// The first second that a calendar date can be given for: the start of the year -262143.
pub const MIN_SECS: i64 = -8_334_601_228_800;

/// The last second that a calendar date can be given for: the end of the year 262142.
pub const MAX_SECS: i64 = 8_210_266_876_799;

/// The first second of the year 0, the first that a certificate can name.
pub const FIRST_CERT_SECS: i64 = -62_167_219_200;

/// The last second of the year 9999, the last that a certificate can name.
pub const LAST_CERT_SECS: i64 = 253_402_300_799;

/// How many nanoseconds a second has.
pub const NANOS_PER_SEC: u32 = 1_000_000_000;

/// A point in time: seconds since the start of 1970 in UTC, and nanoseconds past them.
#[derive(Debug, Clone, Copy, PartialEq, Eq, Structural)]
pub struct Timestamp {
    pub secs: i64,
    pub nanos: u32,
}

impl Timestamp {
    /// Whether the point lies in the calendar.
    pub open spec fn wf(self) -> bool {
        &&& MIN_SECS <= self.secs <= MAX_SECS
        &&& self.nanos < NANOS_PER_SEC
    }

    /// Whether the system clock can show the point: it lies in the calendar and not before 1970.
    pub open spec fn showable(self) -> bool {
        self.wf() && self.secs >= 0
    }

    /// Nanoseconds since the start of 1970.
    pub open spec fn view(self) -> int {
        self.secs * 1_000_000_000 + self.nanos
    }

    /// Whether the point lies in the calendar.
    pub fn is_valid(&self) -> (r: bool)
        ensures
            r == self.wf(),
    {
        MIN_SECS <= self.secs && self.secs <= MAX_SECS && self.nanos < NANOS_PER_SEC
    }

    /// The whole seconds from `earlier` to this point, without the fraction; negative if this
    /// point comes first.
    pub fn secs_since(&self, earlier: &Timestamp) -> (r: i64)
        requires
            self.wf(),
            earlier.wf(),
        ensures
            r == whole_secs(self@ - earlier@),
            MIN_SECS - MAX_SECS <= r <= MAX_SECS - MIN_SECS,
    {
        let secs: i64 = self.secs - earlier.secs;
        if secs > 0 && self.nanos < earlier.nanos {
            secs - 1
        } else if secs < 0 && self.nanos > earlier.nanos {
            secs + 1
        } else {
            secs
        }
    }

    /// The point `secs` seconds later, if it lies in the calendar.
    pub fn plus_secs(&self, secs: i64) -> (r: Option<Timestamp>)
        requires
            self.wf(),
        ensures
            match r {
                Some(t) => t.wf() && t.secs == self.secs + secs && t.nanos == self.nanos,
                None => self.secs + secs < MIN_SECS || MAX_SECS < self.secs + secs,
            },
    {
        match self.secs.checked_add(secs) {
            Some(sum) => if MIN_SECS <= sum && sum <= MAX_SECS {
                Some(Timestamp { secs: sum, nanos: self.nanos })
            } else {
                None
            },
            None => None,
        }
    }
}

/// A span of nanoseconds in whole seconds, the fraction dropped on either side of zero.
pub open spec fn whole_secs(nanos: int) -> int {
    if nanos >= 0 {
        nanos / 1_000_000_000
    } else {
        -((-nanos) / 1_000_000_000)
    }
}

/// `chrono::Utc::now`: the time of the system clock, which lies in the calendar and not before 1970.
#[verifier::external_body]
pub(crate) fn utc_now() -> (r: Timestamp)
    ensures
        r.wf(),
        r.secs >= 0,
{
    let now = chrono::Utc::now();
    Timestamp { secs: now.timestamp(), nanos: now.timestamp_subsec_nanos() }
}

/// `time::OffsetDateTime::now_utc`: the second that the system clock shows. Nothing is said of it.
#[verifier::external_body]
pub(crate) fn cert_clock() -> (r: i64) {
    time::OffsetDateTime::now_utc().unix_timestamp()
}

/// Whether the system clock has shown this time: it is what a reading of the clock gave.
pub closed spec fn was_shown(t: Timestamp) -> bool {
    call_ensures(utc_now, (), t)
}

/// Whether the certificate clock has shown this second: it is what a reading of the clock gave.
pub closed spec fn was_dated(second: i64) -> bool {
    call_ensures(cert_clock, (), second)
}

/// A time counts as shown only if `utc_now` has given it, and a second as dated only if `cert_clock`
/// has.
pub(crate) proof fn shown_times_were_read(t: Timestamp, second: i64)
    ensures
        was_shown(t) ==> call_ensures(utc_now, (), t),
        was_dated(second) ==> call_ensures(cert_clock, (), second),
{
}

/// What the system clock shows lies in the calendar and not before 1970.
pub proof fn shown_times_are_showable(t: Timestamp)
    requires
        was_shown(t),
    ensures
        t.showable(),
{
}

/// The time that the system clock shows.
pub(crate) fn now() -> (r: Timestamp)
    ensures
        r.showable(),
        was_shown(r),
{
    utc_now()
}

/// The second that the certificate clock shows.
pub(crate) fn cert_second() -> (r: i64)
    ensures
        was_dated(r),
{
    cert_clock()
}

/// Going some seconds on and taking the difference gives the seconds back, and the fraction stays.
pub proof fn sums_and_differences_agree(t: &Timestamp, secs: i64, later: Timestamp, r: i64)
    requires
        t.wf(),
        call_ensures(Timestamp::plus_secs, (t, secs), Some(later)),
        call_ensures(Timestamp::secs_since, (&later, t), r),
    ensures
        r == secs,
        later.secs - t.secs == secs,
        later.nanos == t.nanos,
{
}

/// Going some seconds on fails exactly where the calendar ends: before the year -262143 and after the
/// year 262142.
pub proof fn sums_stay_in_the_calendar(t: &Timestamp, secs: i64, r: Option<Timestamp>)
    requires
        t.wf(),
        call_ensures(Timestamp::plus_secs, (t, secs), r),
    ensures
        r is Some <==> -8_334_601_228_800 <= t.secs + secs <= 8_210_266_876_799,
{
}

/// The difference of two times is the number of whole seconds that lie between them, and changes its
/// sign with their order.
pub proof fn differences_are_whole_seconds(a: &Timestamp, b: &Timestamp, r: i64, back: i64)
    requires
        a.wf(),
        b.wf(),
        call_ensures(Timestamp::secs_since, (a, b), r),
        call_ensures(Timestamp::secs_since, (b, a), back),
    ensures
        back == -r,
        a.secs > b.secs || (a.secs == b.secs && a.nanos >= b.nanos) ==> {
            let nanos = (a.secs - b.secs) * 1_000_000_000 + a.nanos - b.nanos;
            0 <= r && r * 1_000_000_000 <= nanos < (r + 1) * 1_000_000_000
        },
{
}

/// A time is valid exactly if its second lies in the calendar and its fraction is less than a second.
pub proof fn valid_times_lie_in_the_calendar(t: &Timestamp, r: bool)
    requires
        call_ensures(Timestamp::is_valid, (t,), r),
    ensures
        r <==> -8_334_601_228_800 <= t.secs <= 8_210_266_876_799 && t.nanos < 1_000_000_000,
{
}

} // verus!
