//! Points in time, as a count of nanoseconds since the Unix epoch.
//!
//! The calendar is left to `chrono`: it gives the current time and writes a
//! point in time as text. Differences and comparisons are computed here.

use vstd::prelude::*;

verus! {

/// Nanoseconds in a second.
pub const NANOS_PER_SEC: u32 = 1_000_000_000;

/// Seconds in a day.
pub const SECS_PER_DAY: i64 = 86_400;

/// The first second a `Timestamp` can hold.
pub const MIN_SECS: i64 = -8_334_601_228_800;

/// The last second a `Timestamp` can hold: the end of the last year of
/// `chrono`'s calendar.
pub const MAX_SECS: i64 = 8_210_266_876_799;

/// A point in time in UTC.
#[derive(Clone, Copy, Debug, PartialEq, Eq, Structural)]
pub struct Timestamp {
    secs: i64,
    nanos: u32,
}

/// `diff` in whole units, rounded towards zero.
pub open spec fn whole_units(diff: int, unit: int) -> int {
    if diff >= 0 {
        diff / unit
    } else {
        -((-diff) / unit)
    }
}

/// Whether a second and a fraction of it make a `Timestamp`.
pub open spec fn representable(secs: int, nanos: int) -> bool {
    MIN_SECS <= secs <= MAX_SECS && 0 <= nanos < NANOS_PER_SEC
}

/// What `chrono` writes for the point in time `nanos` nanoseconds after the
/// epoch under the format `pattern`.
pub uninterp spec fn formatted_time(nanos: int, pattern: Seq<char>) -> Seq<char>;

/// The format with minutes: year, month, day, hour and minute.
pub open spec fn minute_pattern() -> Seq<char> {
    "%Y-%m-%d %H:%M"@
}

/// The format with seconds and the name of the time zone.
pub open spec fn second_pattern() -> Seq<char> {
    "%Y-%m-%d %H:%M:%S UTC"@
}

impl View for Timestamp {
    type V = int;

    /// The nanoseconds since the Unix epoch.
    closed spec fn view(&self) -> int {
        self.secs * (NANOS_PER_SEC as int) + self.nanos
    }
}

impl Timestamp {
    /// The point in time lies within the calendar, and its nanoseconds
    /// within a second.
    #[verifier::type_invariant]
    pub closed spec fn wf(self) -> bool {
        representable(self.secs as int, self.nanos as int)
    }

    /// The point in time `nanos` nanoseconds after the second `secs` of the
    /// Unix epoch, where the calendar reaches it.
    pub fn new(secs: i64, nanos: u32) -> (r: Option<Timestamp>)
        ensures
            r is Some <==> representable(secs as int, nanos as int),
            r matches Some(t) ==> t@ == secs * (NANOS_PER_SEC as int) + nanos && t.wf(),
    {
        if MIN_SECS <= secs && secs <= MAX_SECS && nanos < NANOS_PER_SEC {
            Some(Timestamp { secs, nanos })
        } else {
            None
        }
    }

    /// The Unix epoch: the beginning of the year 1970.
    pub fn epoch() -> (r: Timestamp)
        ensures
            r@ == 0,
            r.wf(),
    {
        Timestamp { secs: 0, nanos: 0 }
    }

    /// The beginning of the second `secs` of the Unix epoch.
    pub fn from_secs(secs: i64) -> (r: Option<Timestamp>)
        ensures
            r is Some <==> MIN_SECS <= secs <= MAX_SECS,
            r matches Some(t) ==> t@ == secs * (NANOS_PER_SEC as int) && t.wf(),
    {
        Timestamp::new(secs, 0)
    }

    /// The whole seconds since the Unix epoch, rounded down.
    pub fn secs(&self) -> (r: i64)
        ensures
            r == self@ / (NANOS_PER_SEC as int),
            MIN_SECS <= r <= MAX_SECS,
    {
        proof {
            use_type_invariant(self);
            let n = NANOS_PER_SEC as int;
            assert((self.secs * n + self.nanos) / n == self.secs) by (nonlinear_arith)
                requires
                    0 <= self.nanos < n,
                    n > 0,
            ;
        }
        self.secs
    }

    /// The nanoseconds since the last whole second.
    pub fn nanos(&self) -> (r: u32)
        ensures
            r == self@ % (NANOS_PER_SEC as int),
            r < NANOS_PER_SEC,
    {
        proof {
            use_type_invariant(self);
            let n = NANOS_PER_SEC as int;
            assert((self.secs * n + self.nanos) % n == self.nanos) by (nonlinear_arith)
                requires
                    0 <= self.nanos < n,
                    n > 0,
            ;
        }
        self.nanos
    }

    /// The bounds of the view of a point in time.
    pub proof fn lemma_range(self)
        requires
            self.wf(),
        ensures
            MIN_SECS * (NANOS_PER_SEC as int) <= self@ < (MAX_SECS + 1) * (NANOS_PER_SEC as int),
    {
    }

    /// The nanoseconds since the Unix epoch.
    pub fn total_nanos(&self) -> (r: i128)
        ensures
            r == self@,
            MIN_SECS * (NANOS_PER_SEC as int) <= r < (MAX_SECS + 1) * (NANOS_PER_SEC as int),
    {
        proof {
            use_type_invariant(self);
            self.lemma_range();
        }
        let whole: i128 = (self.secs as i128) * 1_000_000_000;
        whole + (self.nanos as i128)
    }

    /// Whether `self` is earlier than `other`.
    pub fn is_before(&self, other: &Timestamp) -> (r: bool)
        ensures
            r == (self@ < other@),
    {
        self.total_nanos() < other.total_nanos()
    }

    /// Whether `self` is later than `other`.
    pub fn is_after(&self, other: &Timestamp) -> (r: bool)
        ensures
            r == (self@ > other@),
    {
        self.total_nanos() > other.total_nanos()
    }

    /// The whole seconds from `earlier` to `self`, rounded towards zero;
    /// negative where `earlier` is the later of the two.
    pub fn seconds_since(&self, earlier: &Timestamp) -> (r: i64)
        ensures
            r == whole_units(self@ - earlier@, NANOS_PER_SEC as int),
    {
        let diff: i128 = self.total_nanos() - earlier.total_nanos();
        let unit: i128 = NANOS_PER_SEC as i128;
        let q: i128 = if diff >= 0 {
            diff / unit
        } else {
            -((-diff) / unit)
        };
        assert(q == whole_units(diff as int, unit as int));
        assert(-20_000_000_000_000 <= q <= 20_000_000_000_000) by {
            let d = diff as int;
            let u = unit as int;
            assert(u == 1_000_000_000);
            assert(-17_000_000_000_000 * u <= d <= 17_000_000_000_000 * u);
            if d >= 0 {
                assert(d / u <= 17_000_000_000_000) by (nonlinear_arith)
                    requires
                        0 <= d <= 17_000_000_000_000 * u,
                        u > 0,
                ;
                assert(d / u >= 0) by (nonlinear_arith)
                    requires
                        0 <= d,
                        u > 0,
                ;
            } else {
                assert((-d) / u <= 17_000_000_000_000) by (nonlinear_arith)
                    requires
                        0 <= -d <= 17_000_000_000_000 * u,
                        u > 0,
                ;
                assert((-d) / u >= 0) by (nonlinear_arith)
                    requires
                        0 <= -d,
                        u > 0,
                ;
            }
        }
        q as i64
    }

    /// The whole days from `earlier` to `self`, rounded towards zero.
    pub fn days_since(&self, earlier: &Timestamp) -> (r: i64)
        ensures
            r == whole_units(self@ - earlier@, SECS_PER_DAY * (NANOS_PER_SEC as int)),
    {
        let diff: i128 = self.total_nanos() - earlier.total_nanos();
        let unit: i128 = (SECS_PER_DAY as i128) * (NANOS_PER_SEC as i128);
        let q: i128 = if diff >= 0 {
            diff / unit
        } else {
            -((-diff) / unit)
        };
        assert(q == whole_units(diff as int, unit as int));
        assert(-200_000_000 <= q <= 200_000_000) by {
            let d = diff as int;
            let u = unit as int;
            assert(u == 86_400_000_000_000);
            assert(-17_000_000_000_000_000_000_000 <= d <= 17_000_000_000_000_000_000_000);
            if d >= 0 {
                assert(d / u <= 200_000_000) by (nonlinear_arith)
                    requires
                        0 <= d <= 17_000_000_000_000_000_000_000,
                        u == 86_400_000_000_000,
                ;
                assert(d / u >= 0) by (nonlinear_arith)
                    requires
                        0 <= d,
                        u > 0,
                ;
            } else {
                assert((-d) / u <= 200_000_000) by (nonlinear_arith)
                    requires
                        0 <= -d <= 17_000_000_000_000_000_000_000,
                        u == 86_400_000_000_000,
                ;
                assert((-d) / u >= 0) by (nonlinear_arith)
                    requires
                        0 <= -d,
                        u > 0,
                ;
            }
        }
        q as i64
    }

    /// The point in time as year, month, day, hour and minute.
    pub fn format_minute(&self) -> (s: String)
        ensures
            s@ == formatted_time(self@, minute_pattern()),
    {
        proof {
            use_type_invariant(self);
        }
        format_time(self.secs, self.nanos, "%Y-%m-%d %H:%M")
    }

    /// The point in time as year, month, day, hour, minute and second,
    /// followed by the name of the time zone.
    pub fn format_second(&self) -> (s: String)
        ensures
            s@ == formatted_time(self@, second_pattern()),
    {
        proof {
            use_type_invariant(self);
        }
        format_time(self.secs, self.nanos, "%Y-%m-%d %H:%M:%S UTC")
    }
}

/// `chrono::Utc::now`: the second of the current time and the nanoseconds
/// since that second began. The time lies within `chrono`'s calendar and
/// not before the epoch, and a second has a thousand million nanoseconds.
#[verifier::external_body]
fn utc_now() -> (r: (i64, u32))
    ensures
        0 <= r.0 <= MAX_SECS,
        r.1 < NANOS_PER_SEC,
{
    let t = chrono::Utc::now();
    (t.timestamp(), t.timestamp_subsec_nanos())
}

/// The current time.
pub fn current_time() -> (r: Timestamp)
    ensures
        r.wf(),
        r@ >= 0,
{
    let (secs, nanos) = utc_now();
    assert(secs * (NANOS_PER_SEC as int) >= 0) by (nonlinear_arith)
        requires
            secs >= 0,
    ;
    Timestamp { secs, nanos }
}

/// `chrono::DateTime::format`: the point in time written under one of the
/// two formats of this library, both of which `chrono` accepts. The text is
/// named, not spelled out.
#[verifier::external_body]
fn format_time(secs: i64, nanos: u32, pattern: &str) -> (s: String)
    requires
        representable(secs as int, nanos as int),
        pattern@ == minute_pattern() || pattern@ == second_pattern(),
    ensures
        s@ == formatted_time(secs * (NANOS_PER_SEC as int) + nanos, pattern@),
{
    chrono::DateTime::from_timestamp(secs, nanos).unwrap().format(pattern).to_string()
}

} // verus!
