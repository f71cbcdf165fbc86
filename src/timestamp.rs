use vstd::prelude::*;

verus! {

/// An instant in UTC: whole seconds since the Unix epoch and the nanoseconds
/// past that second. As in chrono, a leap second is shown as a nanosecond
/// count of one billion or more, so `nanos` stays below two billion.
#[derive(Clone, Copy, Debug, PartialEq, Eq, Structural)]
pub struct Timestamp {
    pub seconds: i64,
    pub nanos: u32,
}

pub const NANOS_LIMIT: u32 = 2_000_000_000;

impl Timestamp {
    pub open spec fn wf(self) -> bool {
        self.nanos < NANOS_LIMIT
    }

    /// `self` is not later than `other`.
    pub open spec fn no_later_than(self, other: Timestamp) -> bool {
        self.seconds < other.seconds || (self.seconds == other.seconds && self.nanos <= other.nanos)
    }

    /// Builds an instant from its parts.
    pub fn from_parts(seconds: i64, nanos: u32) -> (r: Timestamp)
        ensures
            r.seconds == seconds,
            r.nanos == nanos,
    {
        Timestamp { seconds, nanos }
    }

    /// Whether `self` comes no later than `other`.
    pub fn is_no_later_than(&self, other: &Timestamp) -> (r: bool)
        ensures
            r == self.no_later_than(*other),
    {
        self.seconds < other.seconds || (self.seconds == other.seconds && self.nanos <= other.nanos)
    }

    /// The later of `self` and `other`.
    pub fn latest(self, other: Timestamp) -> (r: Timestamp)
        ensures
            r == (if self.no_later_than(other) { other } else { self }),
            self.no_later_than(r),
            other.no_later_than(r),
    {
        if self.is_no_later_than(&other) {
            other
        } else {
            self
        }
    }

    /// The instant read from storage, where one could be read; `fallback`
    /// otherwise.
    pub fn stored_or(parsed: Option<Timestamp>, fallback: Timestamp) -> (r: Timestamp)
        ensures
            r == (match parsed {
                Some(t) => t,
                None => fallback,
            }),
    {
        match parsed {
            Some(t) => t,
            None => fallback,
        }
    }

    /// The current time, as the system clock gives it.
    pub fn now() -> (r: Timestamp)
        ensures
            r.wf(),
            r.seconds >= 0,
    {
        clock_now()
    }
}

/// What chrono's RFC 3339 reader (spaces allowed as the date/time separator)
/// makes of a text: the instant it names, or nothing where it names none.
pub uninterp spec fn rfc3339_instant(text: Seq<char>) -> Option<Timestamp>;

/// Relies on chrono::Utc::now, read back through `DateTime::timestamp` and
/// `DateTime::timestamp_subsec_nanos`. chrono builds it from the time elapsed
/// since the epoch (it panics for a clock set before 1970), so the seconds are
/// not negative and the nanoseconds are those of a `Duration`, below one
/// billion.
#[verifier::external_body]
fn clock_now() -> (r: Timestamp)
    ensures
        r.seconds >= 0,
        r.nanos < 1_000_000_000,
{
    let now = chrono::Utc::now();
    Timestamp { seconds: now.timestamp(), nanos: now.timestamp_subsec_nanos() }
}

/// Relies on `<chrono::DateTime<chrono::Utc> as FromStr>::from_str`, which
/// reads relaxed RFC 3339 and converts the offset to UTC. Its result depends
/// on the text alone; a `NaiveTime` keeps its nanoseconds below two billion.
#[verifier::external_body]
pub(crate) fn parse_instant(text: &str) -> (r: Option<Timestamp>)
    ensures
        r == rfc3339_instant(text@),
        r matches Some(t) ==> t.wf(),
{
    match text.parse::<chrono::DateTime<chrono::Utc>>() {
        Ok(d) => Some(Timestamp { seconds: d.timestamp(), nanos: d.timestamp_subsec_nanos() }),
        Err(_) => None,
    }
}

} // verus!
