//! Instants and spans of time as plain numbers, and the clocks that give them.

use vstd::prelude::*;

verus! {

/// An instant of the UTC time line: whole seconds since the start of 1970,
/// and the nanoseconds into that second.
#[derive(Debug, Clone, Copy, PartialEq, Eq, Structural)]
pub struct Timestamp {
    pub seconds: i64,
    pub nanoseconds: u32,
}

impl Timestamp {
    /// The instant `seconds` and `nanoseconds` after the start of 1970.
    pub fn new(seconds: i64, nanoseconds: u32) -> (t: Timestamp)
        ensures
            t == (Timestamp { seconds, nanoseconds }),
    {
        Timestamp { seconds, nanoseconds }
    }

    /// `self` comes strictly after `other`.
    pub open spec fn is_after(self, other: Timestamp) -> bool {
        self.seconds > other.seconds || (self.seconds == other.seconds && self.nanoseconds
            > other.nanoseconds)
    }

    /// Whether `self` comes strictly after `other`.
    pub fn after(&self, other: &Timestamp) -> (b: bool)
        ensures
            b == self.is_after(*other),
    {
        self.seconds > other.seconds || (self.seconds == other.seconds && self.nanoseconds
            > other.nanoseconds)
    }

    /// The nanoseconds from the start of 1970 to the instant.
    pub open spec fn total_nanoseconds(self) -> int {
        self.seconds * 1_000_000_000 + self.nanoseconds
    }

    /// The nanoseconds from `earlier` to `self`; negative where `self` comes
    /// first.
    pub fn nanoseconds_since(&self, earlier: &Timestamp) -> (n: i128)
        ensures
            n == self.total_nanoseconds() - earlier.total_nanoseconds(),
    {
        let seconds: i128 = self.seconds as i128 - earlier.seconds as i128;
        let nanoseconds: i128 = self.nanoseconds as i128 - earlier.nanoseconds as i128;
        seconds * 1_000_000_000 + nanoseconds
    }

    /// The current instant, read from `chrono::Utc::now`, which takes it from
    /// the system clock: seconds and nanoseconds are those of
    /// `DateTime::timestamp` and `DateTime::timestamp_subsec_nanos`. The
    /// clock counts from the start of 1970 and never reports a leap second,
    /// so the seconds are not negative and the nanoseconds stay below one
    /// second. `chrono` panics where the system clock stands before 1970.
    #[verifier::external_body]
    pub(crate) fn now() -> (t: Timestamp)
        ensures
            t.seconds >= 0,
            t.nanoseconds < 1_000_000_000,
    {
        let now = chrono::Utc::now();
        Timestamp { seconds: now.timestamp(), nanoseconds: now.timestamp_subsec_nanos() }
    }
}

/// The pattern of a date and a time of day, with the word `UTC` behind it.
pub open spec fn date_time_pattern() -> Seq<char> {
    "%Y-%m-%d %H:%M:%S UTC"@
}

/// The pattern of a date and a time of day as they stand in file names.
pub open spec fn stamp_pattern() -> Seq<char> {
    "%Y%m%d_%H%M%S"@
}

/// The pattern of a date as it stands in file names.
pub open spec fn date_pattern() -> Seq<char> {
    "%Y%m%d"@
}

/// The pattern of a time of day as it stands in file names.
pub open spec fn time_pattern() -> Seq<char> {
    "%H%M%S"@
}

/// The text that `chrono` writes for the instant `seconds` and `nanoseconds`
/// after the start of 1970 under the pattern `pattern`; nothing where
/// `chrono` has no date for the instant.
pub uninterp spec fn formatted_time(seconds: i64, nanoseconds: u32, pattern: Seq<char>) -> Option<
    Seq<char>,
>;

impl Timestamp {
    /// The text of the instant under `pattern`, which is one of the four
    /// patterns of this module; empty where `chrono` has no date for the
    /// instant.
    pub open spec fn text(self, pattern: Seq<char>) -> Seq<char> {
        match formatted_time(self.seconds, self.nanoseconds, pattern) {
            Some(text) => text,
            None => Seq::empty(),
        }
    }

    /// The text of the instant under one of the four patterns of this
    /// module. The instant is made into a date by
    /// `chrono::DateTime::from_timestamp`, which gives none where the
    /// instant lies outside the years that `chrono` knows; the date is
    /// written by `DateTime::format`.
    #[verifier::external_body]
    pub(crate) fn format(&self, pattern: &str) -> (text: Option<String>)
        requires
            pattern@ == date_time_pattern() || pattern@ == stamp_pattern() || pattern@
                == date_pattern() || pattern@ == time_pattern(),
        ensures
            match text {
                Some(t) => formatted_time(self.seconds, self.nanoseconds, pattern@) == Some(t@),
                None => formatted_time(self.seconds, self.nanoseconds, pattern@) is None,
            },
    {
        match chrono::DateTime::from_timestamp(self.seconds, self.nanoseconds) {
            Some(date) => Some(date.format(pattern).to_string()),
            None => None,
        }
    }

    /// The date and the time of day of the instant, with the word `UTC`
    /// behind them, such as `2015-05-15 00:00:00 UTC`.
    pub fn date_time_text(&self) -> (text: String)
        ensures
            text@ == self.text(date_time_pattern()),
    {
        match self.format("%Y-%m-%d %H:%M:%S UTC") {
            Some(text) => text,
            None => String::new(),
        }
    }

    /// The date and the time of day of the instant as they stand in file
    /// names, such as `20150515_000000`.
    pub fn stamp_text(&self) -> (text: String)
        ensures
            text@ == self.text(stamp_pattern()),
    {
        match self.format("%Y%m%d_%H%M%S") {
            Some(text) => text,
            None => String::new(),
        }
    }

    /// The date of the instant as it stands in file names, such as
    /// `20150515`.
    pub fn date_text(&self) -> (text: String)
        ensures
            text@ == self.text(date_pattern()),
    {
        match self.format("%Y%m%d") {
            Some(text) => text,
            None => String::new(),
        }
    }

    /// The time of day of the instant as it stands in file names, such as
    /// `000000`.
    pub fn time_text(&self) -> (text: String)
        ensures
            text@ == self.text(time_pattern()),
    {
        match self.format("%H%M%S") {
            Some(text) => text,
            None => String::new(),
        }
    }
}

/// A length of time: whole seconds and the nanoseconds of the second that
/// has begun, which stay below one second.
#[derive(Debug, Clone, Copy, PartialEq, Eq, Structural)]
pub struct TimeSpan {
    seconds: u64,
    nanoseconds: u32,
}

/// The text that `std::time::Duration`'s `Debug` gives for the duration of
/// `seconds` seconds and `nanoseconds` nanoseconds.
pub uninterp spec fn duration_debug_text(seconds: u64, nanoseconds: u32) -> Seq<char>;

/// The text of a duration as `std::time::Duration`'s `Debug` writes it. The
/// duration is made by `Duration::new`, which takes it over as it is where
/// the nanoseconds stay below one second.
#[verifier::external_body]
fn debug_text(seconds: u64, nanoseconds: u32) -> (text: String)
    requires
        nanoseconds < 1_000_000_000,
    ensures
        text@ == duration_debug_text(seconds, nanoseconds),
{
    format!("{:?}", std::time::Duration::new(seconds, nanoseconds))
}

impl TimeSpan {
    /// The whole seconds of the span.
    pub closed spec fn spec_seconds(&self) -> u64 {
        self.seconds
    }

    /// The nanoseconds of the span beyond its whole seconds.
    pub closed spec fn spec_nanoseconds(&self) -> u32 {
        self.nanoseconds
    }

    /// The nanoseconds stay below one second.
    #[verifier::type_invariant]
    pub open spec fn inv(&self) -> bool {
        self.spec_nanoseconds() < 1_000_000_000
    }

    /// A span of `seconds` whole seconds.
    pub fn from_secs(seconds: u64) -> (s: TimeSpan)
        ensures
            s.spec_seconds() == seconds,
            s.spec_nanoseconds() == 0,
    {
        TimeSpan { seconds, nanoseconds: 0 }
    }

    /// A span of `millis` milliseconds.
    pub fn from_millis(millis: u64) -> (s: TimeSpan)
        ensures
            s.spec_seconds() == millis / 1000,
            s.spec_nanoseconds() == (millis % 1000) * 1_000_000,
    {
        TimeSpan { seconds: millis / 1000, nanoseconds: ((millis % 1000) as u32) * 1_000_000 }
    }

    /// The span of `seconds` seconds and `nanoseconds` nanoseconds, where the
    /// nanoseconds stay below one second; otherwise nothing.
    pub fn new(seconds: u64, nanoseconds: u32) -> (s: Option<TimeSpan>)
        ensures
            match s {
                Some(span) => nanoseconds < 1_000_000_000 && span.spec_seconds() == seconds
                    && span.spec_nanoseconds() == nanoseconds,
                None => nanoseconds >= 1_000_000_000,
            },
    {
        if nanoseconds < 1_000_000_000 {
            Some(TimeSpan { seconds, nanoseconds })
        } else {
            None
        }
    }

    /// The whole seconds of the span.
    pub fn seconds(&self) -> (n: u64)
        ensures
            n == self.spec_seconds(),
    {
        self.seconds
    }

    /// The nanoseconds of the span beyond its whole seconds.
    pub fn nanoseconds(&self) -> (n: u32)
        ensures
            n == self.spec_nanoseconds(),
            n < 1_000_000_000,
    {
        proof {
            use_type_invariant(self);
        }
        self.nanoseconds
    }

    /// The text of the span as a duration is written for diagnosis.
    pub open spec fn spec_debug_text(&self) -> Seq<char> {
        duration_debug_text(self.spec_seconds(), self.spec_nanoseconds())
    }

    /// The text of the span as a duration is written for diagnosis, such as
    /// `5s` or `1.5s`.
    pub fn debug_text(&self) -> (text: String)
        ensures
            text@ == self.spec_debug_text(),
    {
        proof {
            use_type_invariant(self);
        }
        debug_text(self.seconds, self.nanoseconds)
    }
}

#[verifier::external_type_specification]
#[verifier::external_body]
pub struct ExInstant(std::time::Instant);

/// A reading of the monotonic clock, from `std::time::Instant::now`.
#[verifier::external_body]
pub(crate) fn instant_now() -> (start: std::time::Instant) {
    std::time::Instant::now()
}

/// The whole milliseconds that have passed since `start`, from
/// `std::time::Instant::elapsed`; a count beyond 64 bits is cut to its low 64
/// bits.
#[verifier::external_body]
pub(crate) fn elapsed_millis(start: &std::time::Instant) -> (millis: u64) {
    start.elapsed().as_millis() as u64
}

} // verus!
