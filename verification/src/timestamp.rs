//! Instants on the UTC time line, and their RFC 3339 text.
//!
//! An instant is held as seconds and nanoseconds since the Unix epoch. The
//! calendar is chrono's: it says which instants have a date, and writes the
//! text. The clock is the caller's: whoever wants the present time reads it
//! and hands it in.

use vstd::prelude::*;

verus! {

/// The text that chrono writes for the instant `secs` seconds and `nanos`
/// nanoseconds after 1970-01-01T00:00:00Z: date and time after RFC 3339, in
/// UTC with the suffix `Z`, the fraction of a second in 0, 3, 6 or 9 digits.
/// `None` where chrono has no date for the instant.
pub uninterp spec fn rfc3339_text(secs: i64, nanos: u32) -> Option<Seq<char>>;

/// The instant lies between 1970-01-01T00:00:00Z and the last nanosecond of
/// the year 9999, and its nanoseconds are less than a second.
pub open spec fn in_four_digit_years(secs: i64, nanos: u32) -> bool {
    0 <= secs <= 253_402_300_799 && nanos < 1_000_000_000
}

/// `chrono::DateTime::from_timestamp`, and on the `DateTime<Utc>` it gives
/// `to_rfc3339_opts` with `SecondsFormat::AutoSi` and `Z` for the offset. The
/// first is `None` for seconds beyond chrono's years and for nanoseconds that
/// no second holds; the second writes into a `String` and does not fail. The
/// contract claims that the outcome depends on the two numbers alone, and
/// that there is a text from 1970 to the end of the year 9999: chrono's
/// years reach far beyond these, and it takes nanoseconds below a second in
/// every second.
#[verifier::external_body]
fn format_rfc3339(secs: i64, nanos: u32) -> (text: Option<String>)
    ensures
        match text {
            Some(t) => rfc3339_text(secs, nanos) == Some(t@),
            None => rfc3339_text(secs, nanos) is None,
        },
        in_four_digit_years(secs, nanos) ==> text is Some,
{
    match chrono::DateTime::from_timestamp(secs, nanos) {
        Some(t) => Some(t.to_rfc3339_opts(chrono::SecondsFormat::AutoSi, true)),
        None => None,
    }
}

/// An instant that has a date: seconds and nanoseconds since the Unix epoch.
#[derive(Clone, Copy, Debug, PartialEq, Eq, Structural)]
pub struct Timestamp {
    secs: i64,
    nanos: u32,
}

impl Timestamp {
    #[verifier::type_invariant]
    spec fn has_date(self) -> bool {
        rfc3339_text(self.secs, self.nanos) is Some
    }

    /// Whole seconds since the Unix epoch.
    pub closed spec fn spec_secs(self) -> i64 {
        self.secs
    }

    /// Nanoseconds since the last whole second.
    pub closed spec fn spec_nanos(self) -> u32 {
        self.nanos
    }

    /// The RFC 3339 text of the instant.
    pub open spec fn text(self) -> Seq<char> {
        rfc3339_text(self.spec_secs(), self.spec_nanos())->0
    }

    /// The instant `secs` seconds and `nanos` nanoseconds after the Unix
    /// epoch, if it has a date. From 1970 to the end of the year 9999 every
    /// instant has one.
    pub fn new(secs: i64, nanos: u32) -> (instant: Option<Timestamp>)
        ensures
            instant is Some <==> rfc3339_text(secs, nanos) is Some,
            in_four_digit_years(secs, nanos) ==> instant is Some,
            instant matches Some(t) ==> t.spec_secs() == secs && t.spec_nanos() == nanos,
    {
        match format_rfc3339(secs, nanos) {
            Some(_) => Some(Timestamp { secs, nanos }),
            None => None,
        }
    }

    #[verifier::when_used_as_spec(spec_secs)]
    pub fn secs(self) -> (secs: i64)
        ensures
            secs == self.spec_secs(),
    {
        self.secs
    }

    #[verifier::when_used_as_spec(spec_nanos)]
    pub fn nanos(self) -> (nanos: u32)
        ensures
            nanos == self.spec_nanos(),
    {
        self.nanos
    }

    /// The RFC 3339 text of the instant, such as `2022-01-01T00:00:00Z`.
    pub fn to_rfc3339(self) -> (text: String)
        ensures
            text@ == self.text(),
    {
        proof {
            use_type_invariant(&self);
        }
        match format_rfc3339(self.secs, self.nanos) {
            Some(text) => text,
            None => String::new(),
        }
    }
}

} // verus!
