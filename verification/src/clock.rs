//! Points in time, read from the clock, parsed, printed and taken apart with
//! `chrono`.

use vstd::prelude::*;

verus! {

#[verifier::external_type_specification]
#[verifier::external_body]
pub struct ExNaiveDateTime(chrono::NaiveDateTime);

/// The instant that `chrono::DateTime::parse_from_rfc3339` reads from a text,
/// as (whole seconds since the Unix epoch, nanoseconds past that second), or
/// `None` where the text is not accepted.
pub uninterp spec fn rfc3339_instant(text: Seq<char>) -> Option<(i64, u32)>;

/// What `chrono::DateTime::<Utc>::to_rfc3339` writes for an instant.
pub uninterp spec fn rfc3339_text(secs: i64, nanos: u32) -> Seq<char>;

/// The instants whose year in UTC lies between 0 and 9999: those that RFC 3339
/// writes with a four-digit year.
pub open spec fn four_digit_year(at: (i64, u32)) -> bool {
    -62167219200 <= at.0 <= 253402300799
}

/// What `chrono::NaiveDateTime::format` writes for the UTC date and time of an
/// instant and a pattern.
pub uninterp spec fn formatted_utc(secs: i64, nanos: u32, pattern: Seq<char>) -> Seq<char>;

/// What `chrono::Datelike::day` gives for the UTC date of an instant.
pub uninterp spec fn utc_day_of_month(secs: i64, nanos: u32) -> u32;

/// A conversion specifier that `chrono`'s `strftime` patterns accept:
/// day, month, year, hour and minute.
pub open spec fn basic_specifier(c: char) -> bool {
    c == 'd' || c == 'm' || c == 'Y' || c == 'H' || c == 'M'
}

/// A pattern in which every `%` starts one of the basic specifiers; all other
/// characters are copied as they are.
pub open spec fn plain_pattern(p: Seq<char>) -> bool {
    forall|i: int|
        0 <= i < p.len() && #[trigger] p[i] == '%' ==> i + 1 < p.len() && basic_specifier(p[i + 1])
}

/// How the bot shows the day and minute of a subscription.
pub const DISPLAY_PATTERN: &'static str = "%d.%m.%Y %H:%M";

pub proof fn lemma_display_pattern_is_plain()
    ensures
        plain_pattern(DISPLAY_PATTERN@),
{
    reveal_strlit("%d.%m.%Y %H:%M");
    let p = DISPLAY_PATTERN@;
    assert forall|i: int| 0 <= i < p.len() && #[trigger] p[i] == '%' implies i + 1 < p.len()
        && basic_specifier(p[i + 1]) by {
        assert(i == 0 || i == 3 || i == 6 || i == 9 || i == 12);
    }
}

/// A point in time in UTC. Its value is the instant, as (whole seconds since
/// the Unix epoch, nanoseconds past that second); every `UtcTime` is made by
/// `UtcTime::now` or `UtcTime::parse_rfc3339`, which keep `chrono`'s UTC date
/// and time and the instant it stands for side by side.
#[derive(Clone, Copy)]
pub struct UtcTime {
    at: chrono::NaiveDateTime,
    secs: i64,
    nanos: u32,
    from_clock: bool,
}

impl View for UtcTime {
    type V = (i64, u32);

    closed spec fn view(&self) -> (i64, u32) {
        (self.secs, self.nanos)
    }
}

impl UtcTime {
    /// Whether the time is a reading of the clock (made by `UtcTime::now`),
    /// rather than one read from a text.
    pub closed spec fn read_from_clock(&self) -> bool {
        self.from_clock
    }

    /// Calls `chrono::Utc::now`. The clock decides the instant: nothing is
    /// stated of it, only that the time is marked as a reading of the clock.
    #[verifier::external_body]
    pub(crate) fn now() -> (r: UtcTime)
        ensures
            r.read_from_clock(),
    {
        let now = chrono::Utc::now();
        UtcTime { at: now.naive_utc(), secs: now.timestamp(), nanos: now.timestamp_subsec_nanos(), from_clock: true }
    }

    /// Calls `chrono::DateTime::parse_from_rfc3339` and takes the instant of the
    /// result in UTC; states that the result is the instant that
    /// `rfc3339_instant` names for the text.
    #[verifier::external_body]
    pub(crate) fn parse_rfc3339(text: &str) -> (r: Option<UtcTime>)
        ensures
            match r {
                Some(t) => rfc3339_instant(text@) == Some(t@) && !t.read_from_clock(),
                None => rfc3339_instant(text@) is None,
            },
    {
        match chrono::DateTime::parse_from_rfc3339(text) {
            Ok(parsed) => {
                let utc = parsed.with_timezone(&chrono::Utc);
                Some(UtcTime {
                    at: utc.naive_utc(),
                    secs: utc.timestamp(),
                    nanos: utc.timestamp_subsec_nanos(),
                    from_clock: false,
                })
            },
            Err(_) => None,
        }
    }

    /// Calls `chrono::DateTime::to_rfc3339`; the result is named by
    /// `rfc3339_text`. For a four-digit year, `parse_from_rfc3339` reads the
    /// same instant back: the text is written in UTC with the year in four
    /// digits, a leap second as second 60, and every non-zero digit of the
    /// fraction, all of which the parser reads.
    #[verifier::external_body]
    pub(crate) fn to_rfc3339(&self) -> (r: String)
        ensures
            r@ == rfc3339_text(self@.0, self@.1),
            four_digit_year(self@) ==> rfc3339_instant(r@) == Some(self@),
    {
        self.at.and_utc().to_rfc3339()
    }

    /// Calls `chrono::NaiveDateTime::format` on the UTC date and time and
    /// writes the result out; named by `formatted_utc`. The pattern is one that `chrono` accepts, so writing it
    /// out cannot fail.
    #[verifier::external_body]
    pub(crate) fn format(&self, pattern: &str) -> (r: String)
        requires
            plain_pattern(pattern@),
        ensures
            r@ == formatted_utc(self@.0, self@.1, pattern@),
    {
        self.at.format(pattern).to_string()
    }

    /// Calls `chrono::Datelike::day` on the UTC date and time: the day of the
    /// month, which its documentation puts between 1 and 31.
    #[verifier::external_body]
    pub(crate) fn day(&self) -> (r: u32)
        ensures
            r == utc_day_of_month(self@.0, self@.1),
            1 <= r <= 31,
    {
        chrono::Datelike::day(&self.at)
    }
}

} // verus!
