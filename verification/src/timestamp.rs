//! Instants in UTC, held as seconds and nanoseconds since 1970-01-01, and
//! their two renderings. The calendar arithmetic is chrono's.

use vstd::prelude::*;

verus! {

/// Seconds of the last instant a [`Timestamp`] can hold: 9999-12-31 23:59:59 UTC.
pub const MAX_SECONDS: i64 = 253_402_300_799;

/// Nanoseconds in one second.
pub const NANOS_PER_SECOND: u32 = 1_000_000_000;

/// Whether seconds and nanoseconds denote an instant between the start of
/// 1970 and the end of the year 9999, the nanoseconds below one second.
pub open spec fn representable(secs: int, nanos: int) -> bool {
    0 <= secs <= MAX_SECONDS && 0 <= nanos < NANOS_PER_SECOND
}

/// The nearest second that a timestamp can hold.
pub open spec fn clamp_seconds(secs: int) -> int {
    if secs < 0 {
        0
    } else if secs > MAX_SECONDS {
        MAX_SECONDS as int
    } else {
        secs
    }
}

/// The nearest nanosecond count below one second.
pub open spec fn clamp_nanos(nanos: int) -> int {
    if nanos >= NANOS_PER_SECOND {
        NANOS_PER_SECOND - 1
    } else {
        nanos
    }
}

/// The console rendering of an instant, `YYYY-MM-DD HH:MM:SS.mmm`, as chrono
/// writes it for the pattern `%Y-%m-%d %H:%M:%S%.3f`.
pub uninterp spec fn console_time_text(secs: int, nanos: int) -> Seq<char>;

/// The ISO 8601 rendering of an instant in UTC, as chrono writes it in
/// RFC 3339 form with `Z` for the offset and the shortest of zero, three, six
/// or nine fractional digits that is exact.
pub uninterp spec fn iso_time_text(secs: int, nanos: int) -> Seq<char>;

/// An instant in UTC with nanosecond precision.
#[derive(Debug)]
pub struct Timestamp {
    secs: i64,
    nanos: u32,
}

impl View for Timestamp {
    type V = (int, int);

    /// Seconds since 1970-01-01 00:00:00 UTC, and nanoseconds into that second.
    closed spec fn view(&self) -> (int, int) {
        (self.secs as int, self.nanos as int)
    }
}

impl Clone for Timestamp {
    fn clone(&self) -> (copy: Self)
        ensures
            copy@ == self@,
    {
        proof {
            use_type_invariant(self);
        }
        Timestamp { secs: self.secs, nanos: self.nanos }
    }
}

impl Timestamp {
    #[verifier::type_invariant]
    spec fn in_range(self) -> bool {
        representable(self.secs as int, self.nanos as int)
    }

    /// The timestamp for `secs` and `nanos`, if they are representable.
    pub fn new(secs: i64, nanos: u32) -> (made: Option<Timestamp>)
        ensures
            made is Some <==> representable(secs as int, nanos as int),
            made matches Some(t) ==> t@ == (secs as int, nanos as int),
    {
        if 0 <= secs && secs <= MAX_SECONDS && nanos < NANOS_PER_SECOND {
            Some(Timestamp { secs, nanos })
        } else {
            None
        }
    }

    /// The timestamp nearest to a clock reading: seconds and nanoseconds are
    /// each brought into the representable range.
    pub fn from_reading(secs: i64, nanos: u32) -> (t: Timestamp)
        ensures
            t@ == (clamp_seconds(secs as int), clamp_nanos(nanos as int)),
    {
        let s: i64 = if secs < 0 {
            0
        } else if secs > MAX_SECONDS {
            MAX_SECONDS
        } else {
            secs
        };
        let n: u32 = if nanos >= NANOS_PER_SECOND {
            NANOS_PER_SECOND - 1
        } else {
            nanos
        };
        Timestamp { secs: s, nanos: n }
    }

    /// The current time, read from the system clock.
    pub fn now() -> (t: Timestamp)
        ensures
            representable(t@.0, t@.1),
    {
        let (secs, nanos) = clock_reading();
        Timestamp::from_reading(secs, nanos)
    }

    /// Seconds since 1970-01-01 00:00:00 UTC.
    pub fn secs(&self) -> (s: i64)
        ensures
            s == self@.0,
    {
        self.secs
    }

    /// Nanoseconds into the second.
    pub fn nanos(&self) -> (n: u32)
        ensures
            n == self@.1,
    {
        self.nanos
    }

    /// The console rendering, with millisecond precision.
    pub fn console_text(&self) -> (s: String)
        ensures
            s@ == console_time_text(self@.0, self@.1),
    {
        proof {
            use_type_invariant(self);
        }
        format_console_time(self.secs, self.nanos)
    }

    /// The ISO 8601 rendering, as the file sink writes it.
    pub fn iso_text(&self) -> (s: String)
        ensures
            s@ == iso_time_text(self@.0, self@.1),
    {
        proof {
            use_type_invariant(self);
        }
        format_iso_time(self.secs, self.nanos)
    }
}

/// Reads the system clock through `chrono::Utc::now` and hands back its
/// `timestamp` and `timestamp_subsec_nanos`. Nothing is claimed of the
/// reading. chrono panics where the system clock stands before 1970.
#[verifier::external_body]
fn clock_reading() -> (reading: (i64, u32)) {
    let now = chrono::Utc::now();
    (now.timestamp(), now.timestamp_subsec_nanos())
}

/// Calls `chrono::DateTime::format` with the pattern `%Y-%m-%d %H:%M:%S%.3f`
/// on the instant that `chrono::DateTime::from_timestamp` makes of the
/// arguments. Claimed: for a representable instant the conversion succeeds and
/// the text is a function of the arguments alone.
#[verifier::external_body]
fn format_console_time(secs: i64, nanos: u32) -> (s: String)
    requires
        representable(secs as int, nanos as int),
    ensures
        s@ == console_time_text(secs as int, nanos as int),
{
    match chrono::DateTime::from_timestamp(secs, nanos) {
        Some(instant) => instant.format("%Y-%m-%d %H:%M:%S%.3f").to_string(),
        None => String::new(),
    }
}

/// Calls `chrono::DateTime::to_rfc3339_opts` with `SecondsFormat::AutoSi` and
/// `Z` for UTC on the instant that `chrono::DateTime::from_timestamp` makes of
/// the arguments. Claimed: for a representable instant the conversion succeeds
/// and the text is a function of the arguments alone.
#[verifier::external_body]
fn format_iso_time(secs: i64, nanos: u32) -> (s: String)
    requires
        representable(secs as int, nanos as int),
    ensures
        s@ == iso_time_text(secs as int, nanos as int),
{
    match chrono::DateTime::from_timestamp(secs, nanos) {
        Some(instant) => instant.to_rfc3339_opts(chrono::SecondsFormat::AutoSi, true),
        None => String::new(),
    }
}

} // verus!
