use vstd::prelude::*;

verus! {

/// The day count of the local date that a time zone shows at an instant,
/// given as seconds since the first of January 1970, UTC. `None` where
/// the zone's name is not known or the instant is out of the calendar's
/// reach.
pub uninterp spec fn zone_day(zone: Seq<char>, utc_seconds: int) -> Option<int>;

/// The instant as local date and time of a zone, written out after a
/// pattern in the manner of a locale. `None` where the zone or the locale
/// is not known, the instant is out of the calendar's reach, or the
/// pattern cannot be written in that locale.
pub uninterp spec fn zone_moment(
    zone: Seq<char>,
    locale: Seq<char>,
    pattern: Seq<char>,
    utc_seconds: int,
) -> Option<Seq<char>>;

/// The date that a text begins with, read after a pattern, as its day
/// count, and the text that follows the date.
pub uninterp spec fn leading_date(text: Seq<char>, pattern: Seq<char>) -> Option<(int, Seq<char>)>;

/// The day with this count, written out after a pattern in the manner of
/// a locale. `None` where the calendar has no such day or the locale's
/// name is not known.
pub uninterp spec fn localized_date(locale: Seq<char>, pattern: Seq<char>, days: int) -> Option<
    Seq<char>,
>;

/// The day with this count in the form year, month, day. `None` where the
/// calendar has no such day.
pub uninterp spec fn iso_date(days: int) -> Option<Seq<char>>;

/// The lower-case form of a text.
pub uninterp spec fn lowercase_of(text: Seq<char>) -> Seq<char>;

/// An optional day count as an optional mathematical integer.
pub open spec fn widened(day: Option<i32>) -> Option<int> {
    match day {
        Some(n) => Some(n as int),
        None => None,
    }
}

/// The view of an optional text.
pub open spec fn shown(text: Option<String>) -> Option<Seq<char>> {
    match text {
        Some(t) => Some(t@),
        None => None,
    }
}

/// The view of an optional day count with a text.
pub open spec fn shown_date(parsed: Option<(i32, &str)>) -> Option<(int, Seq<char>)> {
    match parsed {
        Some((n, rest)) => Some((n as int, rest@)),
        None => None,
    }
}

/// The patterns by which days are written out: the day of the month, the
/// month's name and the weekday, with the year or without it.
pub const DATE_WITH_YEAR: &'static str = "%-d %B %Y (%A)";

pub const DATE_WITHOUT_YEAR: &'static str = "%-d %B (%A)";

/// The pattern by which a moment is written out: the locale's date and
/// time, and the zone's abbreviation.
pub const MOMENT: &'static str = "%c %Z";

/// `chrono_tz::Tz::from_str`, `chrono::DateTime::from_timestamp`,
/// `chrono::DateTime::with_timezone` and
/// `chrono::Datelike::num_days_from_ce`: the day count of the zone's local
/// date at the instant. The contract only gives that count a name.
#[verifier::external_body]
pub(crate) fn zone_day_at(zone: &str, utc_seconds: i64) -> (day: Option<i32>)
    ensures
        widened(day) == zone_day(zone@, utc_seconds as int),
{
    let tz = zone.parse::<chrono_tz::Tz>().ok()?;
    let instant = chrono::DateTime::from_timestamp(utc_seconds, 0)?;
    Some(chrono::Datelike::num_days_from_ce(&instant.with_timezone(&tz)))
}

/// `chrono::DateTime::format_localized` on the instant in the zone, and
/// `chrono::format::DelayedFormat::write_to`: the moment as text. `None`
/// where the zone or the locale is not known, where the instant is out of
/// the calendar's reach, and where the formatting fails, as it does for a
/// locale whose own pattern of date and time holds a conversion that
/// chrono does not read. The contract only gives the text a name.
#[verifier::external_body]
pub(crate) fn zone_moment_text(zone: &str, locale: &str, pattern: &str, utc_seconds: i64) -> (text:
    Option<String>)
    requires
        pattern@ == MOMENT@,
    ensures
        shown(text) == zone_moment(zone@, locale@, pattern@, utc_seconds as int),
{
    let tz = zone.parse::<chrono_tz::Tz>().ok()?;
    let locale = chrono::Locale::try_from(locale).ok()?;
    let instant = chrono::DateTime::from_timestamp(utc_seconds, 0)?;
    let mut text = String::new();
    instant.with_timezone(&tz).format_localized(pattern, locale).write_to(&mut text).ok()?;
    Some(text)
}

/// `chrono::NaiveDate::parse_and_remainder`, with the date taken as its
/// day count: the date at the start of the text and what follows it, or
/// `None` where the text does not begin with a date. The contract only
/// gives the result a name.
#[verifier::external_body]
pub(crate) fn leading_date_of<'a>(text: &'a str, pattern: &str) -> (parsed: Option<(i32, &'a str)>)
    ensures
        shown_date(parsed) == leading_date(text@, pattern@),
{
    chrono::NaiveDate::parse_and_remainder(text, pattern).ok().map(
        |(date, rest)| (chrono::Datelike::num_days_from_ce(&date), rest),
    )
}

/// `chrono::NaiveDate::from_num_days_from_ce_opt` and
/// `chrono::NaiveDate::format_localized`: the day as text. The pattern
/// must be one of the two date patterns, which never fail to format. The
/// contract only gives the text a name.
#[verifier::external_body]
pub(crate) fn localized_date_text(locale: &str, pattern: &str, days: i32) -> (text: Option<String>)
    requires
        pattern@ == DATE_WITH_YEAR@ || pattern@ == DATE_WITHOUT_YEAR@,
    ensures
        shown(text) == localized_date(locale@, pattern@, days as int),
{
    let locale = chrono::Locale::try_from(locale).ok()?;
    let date = chrono::NaiveDate::from_num_days_from_ce_opt(days)?;
    Some(date.format_localized(pattern, locale).to_string())
}

/// `chrono::NaiveDate::from_num_days_from_ce_opt` and the `Display` of
/// `chrono::NaiveDate`: the day in the form year, month, day. The
/// contract only gives the text a name.
#[verifier::external_body]
pub(crate) fn iso_date_text(days: i32) -> (text: Option<String>)
    ensures
        shown(text) == iso_date(days as int),
{
    chrono::NaiveDate::from_num_days_from_ce_opt(days).map(|date| date.to_string())
}

/// `str::to_lowercase`: the lower-case form of the text. The contract
/// only gives it a name.
#[verifier::external_body]
pub(crate) fn lowercase(text: &str) -> (lower: String)
    ensures
        lower@ == lowercase_of(text@),
{
    text.to_lowercase()
}

} // verus!
