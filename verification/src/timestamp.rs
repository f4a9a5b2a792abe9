//! Instants of time, as the feeds date their records.

use vstd::prelude::*;

verus! {

/// An instant of UTC: the whole seconds since 1970-01-01T00:00:00Z, leap seconds
/// not counted, and the nanoseconds past that second. A leap second is held as the
/// second before it with a billion or more nanoseconds.
#[derive(Debug, Clone, Copy, PartialEq, Eq, Structural)]
pub struct Timestamp {
    pub secs: i64,
    pub nanos: u32,
}

/// The instant that chrono's `DateTime::parse_from_rfc3339` reads from `text`, as
/// the pair of `DateTime::timestamp` and `DateTime::timestamp_subsec_nanos`;
/// `None` where it reports an error.
pub uninterp spec fn rfc3339_instant(text: Seq<char>) -> Option<(i64, u32)>;

/// The instant that chrono's `DateTime::parse_from_rfc2822` reads from `text`, as
/// the pair of `DateTime::timestamp` and `DateTime::timestamp_subsec_nanos`;
/// `None` where it reports an error.
pub uninterp spec fn rfc2822_instant(text: Seq<char>) -> Option<(i64, u32)>;

/// What chrono's `DateTime::to_rfc3339_opts` writes, with whole seconds and `Z`
/// for UTC, for the instant that `DateTime::from_timestamp` makes of the two
/// numbers; `None` where `from_timestamp` makes none.
pub uninterp spec fn rfc3339_seconds_text(secs: i64, nanos: u32) -> Option<Seq<char>>;

/// Calls chrono's `DateTime::parse_from_rfc3339` on `text`. The contract only
/// gives the outcome its name: a text has one reading, whenever it is parsed.
#[verifier::external_body]
fn read_rfc3339(text: &str) -> (r: Option<(i64, u32)>)
    ensures
        r == rfc3339_instant(text@),
{
    match chrono::DateTime::parse_from_rfc3339(text) {
        Ok(at) => Some((at.timestamp(), at.timestamp_subsec_nanos())),
        Err(_) => None,
    }
}

/// Calls chrono's `DateTime::parse_from_rfc2822` on `text`. The contract only
/// gives the outcome its name: a text has one reading, whenever it is parsed.
#[verifier::external_body]
fn read_rfc2822(text: &str) -> (r: Option<(i64, u32)>)
    ensures
        r == rfc2822_instant(text@),
{
    match chrono::DateTime::parse_from_rfc2822(text) {
        Ok(at) => Some((at.timestamp(), at.timestamp_subsec_nanos())),
        Err(_) => None,
    }
}

/// Calls chrono's `DateTime::from_timestamp` and, on the instant it makes,
/// `DateTime::to_rfc3339_opts` with `SecondsFormat::Secs` and `Z` for UTC. The
/// contract only gives the outcome its name.
#[verifier::external_body]
fn write_rfc3339_seconds(secs: i64, nanos: u32) -> (r: Option<String>)
    ensures
        match r {
            Some(text) => rfc3339_seconds_text(secs, nanos) == Some(text@),
            None => rfc3339_seconds_text(secs, nanos) is None,
        },
{
    match chrono::DateTime::from_timestamp(secs, nanos) {
        Some(at) => Some(at.to_rfc3339_opts(chrono::SecondsFormat::Secs, true)),
        None => None,
    }
}

impl Timestamp {
    /// Whether `self` lies before `other`.
    pub open spec fn before(self, other: Timestamp) -> bool {
        self.secs < other.secs || (self.secs == other.secs && self.nanos < other.nanos)
    }

    /// The nanoseconds from `earlier` to `self`; negative where `self` is the earlier.
    pub open spec fn nanos_since(self, earlier: Timestamp) -> int {
        (self.secs - earlier.secs) * 1_000_000_000 + (self.nanos - earlier.nanos)
    }

    /// The whole seconds from `earlier` to `self`, rounded towards zero and kept
    /// within the range of `i64`.
    pub open spec fn seconds_since_spec(self, earlier: Timestamp) -> int {
        let nanos = self.nanos_since(earlier);
        let whole = if nanos >= 0 {
            nanos / 1_000_000_000
        } else {
            -((-nanos) / 1_000_000_000)
        };
        if whole < i64::MIN {
            i64::MIN as int
        } else if whole > i64::MAX {
            i64::MAX as int
        } else {
            whole
        }
    }

    /// The timestamp of a reading: the pair of seconds and nanoseconds.
    pub open spec fn of_reading(reading: Option<(i64, u32)>) -> Option<Timestamp> {
        match reading {
            Some((secs, nanos)) => Some(Timestamp { secs, nanos }),
            None => None,
        }
    }

    /// The timestamp that two readings of one text give: the first where there is
    /// one, else the second.
    pub open spec fn first_reading(
        first: Option<(i64, u32)>,
        second: Option<(i64, u32)>,
    ) -> Option<Timestamp> {
        if first is Some {
            Self::of_reading(first)
        } else {
            Self::of_reading(second)
        }
    }

    /// The instant that `text` denotes: its reading as an RFC 2822 date and time
    /// or, where it has none, as an RFC 3339 one.
    pub open spec fn parse_spec(text: Seq<char>) -> Option<Timestamp> {
        Self::first_reading(rfc2822_instant(text), rfc3339_instant(text))
    }

    /// Whether `self` lies before `other`.
    pub fn is_before(&self, other: &Timestamp) -> (r: bool)
        ensures
            r == self.before(*other),
    {
        self.secs < other.secs || (self.secs == other.secs && self.nanos < other.nanos)
    }

    /// The whole seconds from `earlier` to `self`, rounded towards zero and kept
    /// within the range of `i64`.
    pub fn seconds_since(&self, earlier: &Timestamp) -> (r: i64)
        ensures
            r == self.seconds_since_spec(*earlier),
    {
        let nanos: i128 = (self.secs as i128 - earlier.secs as i128) * 1_000_000_000 + (
        self.nanos as i128 - earlier.nanos as i128);
        if nanos >= 0 {
            let whole: u128 = (nanos as u128) / 1_000_000_000;
            if whole > i64::MAX as u128 {
                i64::MAX
            } else {
                whole as i64
            }
        } else {
            let whole: u128 = ((-nanos) as u128) / 1_000_000_000;
            if whole > i64::MAX as u128 {
                i64::MIN
            } else {
                -(whole as i64)
            }
        }
    }

    /// The timestamp that two readings of one text give: the first where there is
    /// one, else the second.
    pub fn from_readings(first: Option<(i64, u32)>, second: Option<(i64, u32)>) -> (r: Option<
        Timestamp,
    >)
        ensures
            r == Self::first_reading(first, second),
    {
        let reading = match first {
            Some(_) => first,
            None => second,
        };
        match reading {
            Some((secs, nanos)) => Some(Timestamp { secs, nanos }),
            None => None,
        }
    }

    /// Reads `text` as a date and time of RFC 2822 or, failing that, of RFC 3339.
    pub fn parse(text: &str) -> (r: Option<Timestamp>)
        ensures
            r == Self::parse_spec(text@),
    {
        let first = read_rfc2822(text);
        if first.is_some() {
            Self::from_readings(first, None)
        } else {
            Self::from_readings(None, read_rfc3339(text))
        }
    }

    /// The instant as an RFC 3339 date and time of UTC with whole seconds, such as
    /// `2024-01-01T00:00:00Z`; `None` for an instant outside the calendar.
    pub fn to_rfc3339_seconds(&self) -> (r: Option<String>)
        ensures
            match r {
                Some(text) => rfc3339_seconds_text(self.secs, self.nanos) == Some(text@),
                None => rfc3339_seconds_text(self.secs, self.nanos) is None,
            },
    {
        write_rfc3339_seconds(self.secs, self.nanos)
    }
}

} // verus!
