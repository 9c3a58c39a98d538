//! Instants in UTC, held as seconds and nanoseconds since the Unix epoch,
//! and their RFC 3339 text.
use vstd::prelude::*;

verus! {

/// 0000-01-01T00:00:00Z.
pub const MIN_SECS: i64 = -62167219200;

/// 9999-12-31T23:59:59Z.
pub const MAX_SECS: i64 = 253402300799;

/// An instant in UTC between the years 0 and 9999, without leap seconds.
#[derive(Clone, Copy, Debug, PartialEq, Eq, Structural)]
pub struct Timestamp {
    pub secs: i64,
    pub nanos: u32,
}

/// The pair is an instant in the range that a four-digit year covers.
pub open spec fn instant_valid(secs: int, nanos: int) -> bool {
    MIN_SECS <= secs <= MAX_SECS && 0 <= nanos < 1_000_000_000
}

impl Timestamp {
    pub open spec fn wf(self) -> bool {
        instant_valid(self.secs as int, self.nanos as int)
    }

    /// Whether the instant lies in the supported range.
    pub fn is_valid(&self) -> (r: bool)
        ensures
            r == self.wf(),
    {
        MIN_SECS <= self.secs && self.secs <= MAX_SECS && self.nanos < 1_000_000_000
    }

    /// Builds an instant from seconds and nanoseconds since the epoch.
    pub fn from_parts(secs: i64, nanos: u32) -> (r: Option<Timestamp>)
        ensures
            r is Some <==> instant_valid(secs as int, nanos as int),
            r is Some ==> r->Some_0 == (Timestamp { secs, nanos }),
    {
        if MIN_SECS <= secs && secs <= MAX_SECS && nanos < 1_000_000_000 {
            Some(Timestamp { secs, nanos })
        } else {
            None
        }
    }
}

/// The text that chrono's `to_rfc3339` writes for an instant.
pub uninterp spec fn rfc3339_text(secs: int, nanos: int) -> Seq<char>;

/// The instant, in seconds and nanoseconds, that chrono reads from a text,
/// if it reads one.
pub uninterp spec fn utc_instant(s: Seq<char>) -> Option<(int, int)>;

#[verifier::external_type_specification]
#[verifier::external_body]
pub struct ExParseError(chrono::ParseError);

/// Relies on chrono's `DateTime::<Utc>::to_rfc3339`: the text depends on
/// the instant alone.
#[verifier::external_body]
pub(crate) fn format_rfc3339(t: &Timestamp) -> (r: String)
    requires
        t.wf(),
    ensures
        r@ == rfc3339_text(t.secs as int, t.nanos as int),
{
    chrono::DateTime::from_timestamp(t.secs, t.nanos).unwrap_or_default().to_rfc3339()
}

/// Relies on chrono's `FromStr` for `DateTime<Utc>`: it reads the relaxed
/// RFC 3339 form, and reads back every text that `to_rfc3339` writes for an
/// instant between the years 0 and 9999 as that instant.
#[verifier::external_body]
pub(crate) fn parse_utc(s: &str) -> (r: Result<(i64, u32), chrono::ParseError>)
    ensures
        r is Ok <==> utc_instant(s@) is Some,
        r is Ok ==> utc_instant(s@) == Some((r->Ok_0.0 as int, r->Ok_0.1 as int)),
        forall|secs: int, nanos: int|
            instant_valid(secs, nanos) && s@ == #[trigger] rfc3339_text(secs, nanos) ==> r is Ok
                && r->Ok_0.0 == secs && r->Ok_0.1 == nanos,
{
    s.parse::<chrono::DateTime<chrono::Utc>>().map(|d| (d.timestamp(), d.timestamp_subsec_nanos()))
}

} // verus!
