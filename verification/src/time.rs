//! Creation times: instants on the UTC time line, held as plain integers
//! and written as RFC 3339 text.

use crate::text::opt_text;
use vstd::prelude::*;

verus! {

/// The RFC 3339 text of the instant `secs` seconds and `nanos` nanoseconds
/// after the Unix epoch, in UTC with the suffix `Z` and with as many
/// fractional digits as the nanoseconds need; `None` where the calendar in
/// use has no such instant.
pub uninterp spec fn rfc3339_text(secs: i64, nanos: u32) -> Option<Seq<char>>;

/// The instant that a text in (relaxed) RFC 3339 form names, as seconds
/// and nanoseconds after the Unix epoch; `None` where the text names none.
pub uninterp spec fn rfc3339_instant(text: Seq<char>) -> Option<(i64, u32)>;

/// `chrono::DateTime::to_rfc3339_opts` with `SecondsFormat::AutoSi` and
/// `Z` for the offset, on the value of `chrono::DateTime::from_timestamp`:
/// the text depends on the two numbers alone, and there is none where
/// `from_timestamp` refuses them.
#[verifier::external_body]
fn format_instant(secs: i64, nanos: u32) -> (r: Option<String>)
    ensures
        opt_text(r) == rfc3339_text(secs, nanos),
{
    let instant = chrono::DateTime::from_timestamp(secs, nanos)?;
    Some(instant.to_rfc3339_opts(chrono::SecondsFormat::AutoSi, true))
}

/// `str::parse` into a `chrono::DateTime<chrono::Utc>`, read back through
/// `timestamp` and `timestamp_subsec_nanos`: the instant depends on the
/// text alone, and there is none where the text does not parse.
#[verifier::external_body]
fn parse_instant(text: &str) -> (r: Option<(i64, u32)>)
    ensures
        r == rfc3339_instant(text@),
{
    let instant = text.parse::<chrono::DateTime<chrono::Utc>>().ok()?;
    Some((instant.timestamp(), instant.timestamp_subsec_nanos()))
}

/// An instant that can be written as RFC 3339 text.
#[derive(Clone, Copy, Debug, PartialEq, Eq)]
pub struct Timestamp {
    secs: i64,
    nanos: u32,
}

impl Timestamp {
    #[verifier::type_invariant]
    spec fn writable(self) -> bool {
        rfc3339_text(self.secs, self.nanos) is Some
    }

    /// Whole seconds after the Unix epoch.
    pub closed spec fn secs(self) -> i64 {
        self.secs
    }

    /// Nanoseconds after the whole second.
    pub closed spec fn nanos(self) -> u32 {
        self.nanos
    }

    /// The instant with these numbers.
    pub closed spec fn at(secs: i64, nanos: u32) -> Timestamp {
        Timestamp { secs, nanos }
    }

    /// The RFC 3339 text of this instant.
    pub open spec fn text(self) -> Seq<char> {
        rfc3339_text(self.secs(), self.nanos())->0
    }

    /// An instant is its two numbers: equal numbers make equal instants.
    pub proof fn lemma_numbers(self)
        ensures
            self == Timestamp::at(self.secs(), self.nanos()),
    {
    }

    /// The two numbers of an instant are those it was made with.
    pub proof fn lemma_at(secs: i64, nanos: u32)
        ensures
            Timestamp::at(secs, nanos).secs() == secs,
            Timestamp::at(secs, nanos).nanos() == nanos,
    {
    }

    /// The instant with these numbers, where it can be written.
    pub fn new(secs: i64, nanos: u32) -> (r: Option<Timestamp>)
        ensures
            r == instant_timestamp(Some((secs, nanos))),
            r is Some <==> rfc3339_text(secs, nanos) is Some,
            r matches Some(t) ==> t.secs() == secs && t.nanos() == nanos,
    {
        match format_instant(secs, nanos) {
            Some(_) => Some(Timestamp { secs, nanos }),
            None => None,
        }
    }

    /// Whole seconds after the Unix epoch.
    pub fn seconds(&self) -> (s: i64)
        ensures
            s == self.secs(),
    {
        self.secs
    }

    /// Nanoseconds after the whole second.
    pub fn subsec_nanos(&self) -> (n: u32)
        ensures
            n == self.nanos(),
    {
        self.nanos
    }

    /// This instant as RFC 3339 text.
    pub fn to_rfc3339(&self) -> (s: String)
        ensures
            s@ == self.text(),
            rfc3339_text(self.secs(), self.nanos()) == Some(s@),
    {
        proof {
            use_type_invariant(self);
        }
        match format_instant(self.secs, self.nanos) {
            Some(s) => s,
            None => String::new(),
        }
    }
}

/// The timestamp of a parsed instant, where the instant can be written
/// again.
pub open spec fn instant_timestamp(instant: Option<(i64, u32)>) -> Option<Timestamp> {
    match instant {
        Some((secs, nanos)) => if rfc3339_text(secs, nanos) is Some {
            Some(Timestamp::at(secs, nanos))
        } else {
            None
        },
        None => None,
    }
}

/// The timestamp that a text in (relaxed) RFC 3339 form names.
pub open spec fn text_timestamp(text: Seq<char>) -> Option<Timestamp> {
    instant_timestamp(rfc3339_instant(text))
}

/// Takes a parsed instant for a timestamp, where it can be written again.
pub fn timestamp_from_instant(instant: Option<(i64, u32)>) -> (r: Option<Timestamp>)
    ensures
        r == instant_timestamp(instant),
{
    match instant {
        Some((secs, nanos)) => Timestamp::new(secs, nanos),
        None => None,
    }
}

/// Reads an instant from text in (relaxed) RFC 3339 form.
pub fn parse_timestamp(text: &str) -> (r: Option<Timestamp>)
    ensures
        r == text_timestamp(text@),
{
    timestamp_from_instant(parse_instant(text))
}

} // verus!
