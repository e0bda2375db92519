//! Calendar dates and the metadata of date nodes.

use vstd::prelude::*;
use chrono::Datelike;
use crate::error::{opt_text, NodeSpaceError, NodeSpaceResult, ValidationError};
use crate::json::{field, lemma_lookup_first, JsonValue};
use crate::text::decimal;

verus! {

/// The earliest year chrono represents.
pub const MIN_YEAR: i32 = -262143;

/// The latest year chrono represents.
pub const MAX_YEAR: i32 = 262142;

/// Whether `year` is a leap year of the proleptic Gregorian calendar.
pub open spec fn is_leap_year(year: int) -> bool {
    (year % 4 == 0 && year % 100 != 0) || year % 400 == 0
}

/// The number of days of a month.
pub open spec fn days_in_month(year: int, month: int) -> int {
    if month == 2 {
        if is_leap_year(year) { 29 } else { 28 }
    } else if month == 4 || month == 6 || month == 9 || month == 11 {
        30
    } else {
        31
    }
}

/// Whether year, month and day name a date that chrono represents.
pub open spec fn valid_date(year: int, month: int, day: int) -> bool {
    &&& MIN_YEAR <= year <= MAX_YEAR
    &&& 1 <= month <= 12
    &&& 1 <= day <= days_in_month(year, month)
}

/// The decimal digits of `n`, zero-padded to at least four.
pub open spec fn four_digits(n: nat) -> Seq<char> {
    if n < 10 {
        "000"@ + decimal(n)
    } else if n < 100 {
        "00"@ + decimal(n)
    } else if n < 1000 {
        "0"@ + decimal(n)
    } else {
        decimal(n)
    }
}

/// chrono's `%Y`: four zero-padded digits for years 0 to 9999, and
/// otherwise a sign followed by at least four digits.
pub open spec fn year_text(year: int) -> Seq<char> {
    if 0 <= year <= 9999 {
        four_digits(year as nat)
    } else if year < 0 {
        "-"@ + four_digits((-year) as nat)
    } else {
        "+"@ + four_digits(year as nat)
    }
}

/// chrono's `%m` and `%d`: two zero-padded digits.
pub open spec fn two_digits(n: nat) -> Seq<char> {
    if n < 10 {
        "0"@ + decimal(n)
    } else {
        decimal(n)
    }
}

/// chrono's `%B`: the English name of a month.
pub open spec fn month_name(month: int) -> Seq<char> {
    if month == 1 { "January"@ }
    else if month == 2 { "February"@ }
    else if month == 3 { "March"@ }
    else if month == 4 { "April"@ }
    else if month == 5 { "May"@ }
    else if month == 6 { "June"@ }
    else if month == 7 { "July"@ }
    else if month == 8 { "August"@ }
    else if month == 9 { "September"@ }
    else if month == 10 { "October"@ }
    else if month == 11 { "November"@ }
    else { "December"@ }
}

/// The text of a date in the `%Y-%m-%d` format.
pub open spec fn iso_date_text(year: int, month: int, day: int) -> Seq<char> {
    year_text(year) + "-"@ + two_digits(month as nat) + "-"@ + two_digits(day as nat)
}

/// The text of a date in the `%B %-d, %Y` format, such as "June 30, 2025".
pub open spec fn long_date_text(year: int, month: int, day: int) -> Seq<char> {
    month_name(month) + " "@ + decimal(day as nat) + ", "@ + year_text(year)
}

/// The date that `%Y-%m-%d` parsing reads from a text, if any.
pub uninterp spec fn parsed_iso_date(text: Seq<char>) -> Option<(int, int, int)>;

/// Relies on chrono::NaiveDate::from_ymd_opt, which accepts exactly the
/// proleptic Gregorian dates of the years MIN_YEAR to MAX_YEAR.
#[verifier::external_body]
fn date_exists(year: i32, month: u32, day: u32) -> (r: bool)
    ensures
        r == valid_date(year as int, month as int, day as int),
{
    chrono::NaiveDate::from_ymd_opt(year, month, day).is_some()
}

/// Relies on chrono's `NaiveDate::format` with `%Y-%m-%d` (year, month and
/// day written as in `format/formatting.rs`).
#[verifier::external_body]
fn format_iso_date(year: i32, month: u32, day: u32) -> (r: String)
    requires
        valid_date(year as int, month as int, day as int),
    ensures
        r@ == iso_date_text(year as int, month as int, day as int),
{
    chrono::NaiveDate::from_ymd_opt(year, month, day).unwrap().format("%Y-%m-%d").to_string()
}

/// Relies on chrono's `NaiveDate::format` with `%B %-d, %Y` (English month
/// names from `format/locales.rs`, day unpadded).
#[verifier::external_body]
fn format_long_date(year: i32, month: u32, day: u32) -> (r: String)
    requires
        valid_date(year as int, month as int, day as int),
    ensures
        r@ == long_date_text(year as int, month as int, day as int),
{
    chrono::NaiveDate::from_ymd_opt(year, month, day).unwrap().format("%B %-d, %Y").to_string()
}

/// Relies on chrono::NaiveDate::parse_from_str with `%Y-%m-%d`: the date
/// it reads depends on the text alone, and is a date chrono represents.
#[verifier::external_body]
fn parse_iso_date(text: &str) -> (r: Option<(i32, u32, u32)>)
    ensures
        match r {
            Some((y, m, d)) => parsed_iso_date(text@) == Some((y as int, m as int, d as int))
                && valid_date(y as int, m as int, d as int),
            None => parsed_iso_date(text@) is None,
        },
{
    chrono::NaiveDate::parse_from_str(text, "%Y-%m-%d").ok().map(|d| (d.year(), d.month(), d.day()))
}

/// Relies on chrono::Utc::now and DateTime::date_naive: today's date in
/// UTC, which is a date chrono represents.
#[verifier::external_body]
fn today_utc() -> (r: (i32, u32, u32))
    ensures
        valid_date(r.0 as int, r.1 as int, r.2 as int),
{
    let d = chrono::Utc::now().date_naive();
    (d.year(), d.month(), d.day())
}

/// A day of the proleptic Gregorian calendar.
#[derive(Debug, Clone, Copy, PartialEq, Eq, Structural)]
pub struct CalendarDate {
    year: i32,
    month: u32,
    day: u32,
}

impl CalendarDate {
    #[verifier::type_invariant]
    spec fn inv(self) -> bool {
        valid_date(self.year as int, self.month as int, self.day as int)
    }

    pub closed spec fn spec_year(self) -> int {
        self.year as int
    }

    pub closed spec fn spec_month(self) -> int {
        self.month as int
    }

    pub closed spec fn spec_day(self) -> int {
        self.day as int
    }

    /// The date with the given year, month (1 to 12) and day (from 1), if
    /// it exists.
    pub fn from_ymd(year: i32, month: u32, day: u32) -> (r: Option<CalendarDate>)
        ensures
            r is Some <==> valid_date(year as int, month as int, day as int),
            r matches Some(d) ==> d.spec_year() == year && d.spec_month() == month
                && d.spec_day() == day,
    {
        if date_exists(year, month, day) {
            Some(CalendarDate { year, month, day })
        } else {
            None
        }
    }

    pub fn year(&self) -> (r: i32)
        ensures
            r == self.spec_year(),
    {
        self.year
    }

    pub fn month(&self) -> (r: u32)
        ensures
            r == self.spec_month(),
    {
        self.month
    }

    pub fn day(&self) -> (r: u32)
        ensures
            r == self.spec_day(),
    {
        self.day
    }

    /// The date as `YYYY-MM-DD`.
    pub fn to_iso_string(&self) -> (r: String)
        ensures
            r@ == iso_date_text(self.spec_year(), self.spec_month(), self.spec_day()),
    {
        proof {
            use_type_invariant(self);
        }
        format_iso_date(self.year, self.month, self.day)
    }

    /// The date as, for example, "June 30, 2025".
    pub fn to_long_string(&self) -> (r: String)
        ensures
            r@ == long_date_text(self.spec_year(), self.spec_month(), self.spec_day()),
    {
        proof {
            use_type_invariant(self);
        }
        format_long_date(self.year, self.month, self.day)
    }

    /// Today's date in UTC.
    pub fn today() -> (r: CalendarDate) {
        let (year, month, day) = today_utc();
        CalendarDate { year, month, day }
    }
}

/// What a date node records of its date.
#[derive(Debug, Clone)]
pub struct DateNodeMetadata {
    /// The date as `YYYY-MM-DD`.
    pub date: String,
    /// A UTC offset or a time zone name.
    pub timezone: String,
    /// The date as displayed, such as "June 30, 2025".
    pub display_format: String,
    /// Whether date navigation created the node.
    pub created_by_navigation: bool,
    /// Language of the display format, such as "en-US".
    pub locale: Option<String>,
}

/// Two date records with the same content.
pub open spec fn same_date_metadata(a: DateNodeMetadata, b: DateNodeMetadata) -> bool {
    &&& a.date@ == b.date@
    &&& a.timezone@ == b.timezone@
    &&& a.display_format@ == b.display_format@
    &&& a.created_by_navigation == b.created_by_navigation
    &&& opt_text(a.locale) == opt_text(b.locale)
}

impl PartialEq for DateNodeMetadata {
    fn eq(&self, other: &DateNodeMetadata) -> (r: bool) {
        let same_locale = match (&self.locale, &other.locale) {
            (None, None) => true,
            (Some(a), Some(b)) => *a == *b,
            _ => false,
        };
        self.date == other.date && self.timezone == other.timezone
            && self.display_format == other.display_format
            && self.created_by_navigation == other.created_by_navigation && same_locale
    }
}

impl vstd::std_specs::cmp::PartialEqSpecImpl for DateNodeMetadata {
    open spec fn obeys_eq_spec() -> bool {
        true
    }

    open spec fn eq_spec(&self, other: &DateNodeMetadata) -> bool {
        same_date_metadata(*self, *other)
    }
}

impl Default for DateNodeMetadata {
    fn default() -> (r: Self)
        ensures
            r.timezone@ == "UTC"@,
            r.display_format@.len() == 0,
            !r.created_by_navigation,
            r.locale is None,
    {
        let today = CalendarDate::today();
        DateNodeMetadata {
            date: today.to_iso_string(),
            timezone: String::from_str("UTC"),
            display_format: String::new(),
            created_by_navigation: false,
            locale: None,
        }
    }
}

impl DateNodeMetadata {
    /// The record of `date` as created by navigation, in UTC and en-US.
    pub fn new(date: CalendarDate) -> (r: Self)
        ensures
            r.date@ == iso_date_text(date.spec_year(), date.spec_month(), date.spec_day()),
            r.timezone@ == "UTC"@,
            r.display_format@ == long_date_text(date.spec_year(), date.spec_month(), date.spec_day()),
            r.created_by_navigation,
            opt_text(r.locale) == Some("en-US"@),
    {
        Self::with_timezone(date, "UTC")
    }

    /// The record of `date` as created by navigation, in the given time
    /// zone and en-US.
    pub fn with_timezone(date: CalendarDate, timezone: &str) -> (r: Self)
        ensures
            r.date@ == iso_date_text(date.spec_year(), date.spec_month(), date.spec_day()),
            r.timezone@ == timezone@,
            r.display_format@ == long_date_text(date.spec_year(), date.spec_month(), date.spec_day()),
            r.created_by_navigation,
            opt_text(r.locale) == Some("en-US"@),
    {
        DateNodeMetadata {
            date: date.to_iso_string(),
            timezone: String::from_str(timezone),
            display_format: date.to_long_string(),
            created_by_navigation: true,
            locale: Some(String::from_str("en-US")),
        }
    }

    /// The recorded date, read back as `YYYY-MM-DD`; a validation error
    /// when the text is not such a date.
    pub fn parse_date(&self) -> (r: NodeSpaceResult<CalendarDate>)
        ensures
            match r {
                Ok(d) => parsed_iso_date(self.date@) == Some((d.spec_year(), d.spec_month(), d.spec_day())),
                Err(e) => {
                    &&& parsed_iso_date(self.date@) is None
                    &&& e matches NodeSpaceError::Validation(ValidationError::InvalidFormat { field, expected, actual, examples })
                    &&& field@ == "date"@
                    &&& expected@ == "%Y-%m-%d"@
                    &&& actual@ == self.date@
                    &&& examples@.len() == 0
                },
            },
    {
        match parse_iso_date(self.date.as_str()) {
            Some((year, month, day)) => Ok(CalendarDate { year, month, day }),
            None => Err(
                NodeSpaceError::Validation(
                    ValidationError::invalid_format("date", "%Y-%m-%d", self.date.as_str()),
                ),
            ),
        }
    }
}

/// The locale a record holds: absent and null both mean none.
pub open spec fn locale_rep(v: Option<JsonValue>, locale: Option<String>) -> bool {
    match locale {
        None => v is None || v == Some(JsonValue::Null),
        Some(l) => v matches Some(JsonValue::Str(t)) && t@ == l@,
    }
}

/// `v` records the date metadata `m`, under the fields' names.
pub open spec fn date_metadata_rep(v: JsonValue, m: DateNodeMetadata) -> bool {
    &&& field(v, "date"@) matches Some(JsonValue::Str(t)) && t@ == m.date@
    &&& field(v, "timezone"@) matches Some(JsonValue::Str(t)) && t@ == m.timezone@
    &&& field(v, "display_format"@) matches Some(JsonValue::Str(t)) && t@ == m.display_format@
    &&& field(v, "created_by_navigation"@) == Some(JsonValue::Bool(m.created_by_navigation))
    &&& locale_rep(field(v, "locale"@), m.locale)
}

/// `v` records some date metadata.
pub open spec fn date_metadata_ok(v: JsonValue) -> bool {
    &&& field(v, "date"@) matches Some(JsonValue::Str(_))
    &&& field(v, "timezone"@) matches Some(JsonValue::Str(_))
    &&& field(v, "display_format"@) matches Some(JsonValue::Str(_))
    &&& field(v, "created_by_navigation"@) matches Some(JsonValue::Bool(_))
    &&& (field(v, "locale"@) is None || field(v, "locale"@) matches Some(JsonValue::Null)
        || field(v, "locale"@) matches Some(JsonValue::Str(_)))
}

fn text_field(v: &JsonValue, key: &str) -> (r: Option<String>)
    ensures
        match r {
            Some(s) => field(*v, key@) matches Some(JsonValue::Str(t)) && t@ == s@,
            None => !(field(*v, key@) matches Some(JsonValue::Str(_))),
        },
{
    match v.get(key) {
        Some(JsonValue::Str(t)) => Some(t.clone()),
        _ => None,
    }
}

/// The date metadata recorded in `v`; `None` when a field is missing or
/// of the wrong kind.
pub fn read_date_metadata(v: &JsonValue) -> (r: Option<DateNodeMetadata>)
    ensures
        r is Some <==> date_metadata_ok(*v),
        r matches Some(m) ==> date_metadata_rep(*v, m),
{
    let date = text_field(v, "date")?;
    let timezone = text_field(v, "timezone")?;
    let display_format = text_field(v, "display_format")?;
    let created_by_navigation = match v.get("created_by_navigation") {
        Some(JsonValue::Bool(b)) => *b,
        _ => {
            return None;
        },
    };
    let locale = match v.get("locale") {
        None => None,
        Some(JsonValue::Null) => None,
        Some(JsonValue::Str(t)) => Some(t.clone()),
        _ => {
            return None;
        },
    };
    Some(DateNodeMetadata { date, timezone, display_format, created_by_navigation, locale })
}

/// The record of `m` as a tree, under the fields' names.
pub fn write_date_metadata(m: &DateNodeMetadata) -> (r: JsonValue)
    ensures
        date_metadata_rep(r, *m),
{
    let mut e: Vec<(String, JsonValue)> = Vec::new();
    e.push((String::from_str("date"), JsonValue::Str(m.date.clone())));
    e.push((String::from_str("timezone"), JsonValue::Str(m.timezone.clone())));
    e.push((String::from_str("display_format"), JsonValue::Str(m.display_format.clone())));
    e.push((String::from_str("created_by_navigation"), JsonValue::Bool(m.created_by_navigation)));
    let locale = match &m.locale {
        Some(l) => JsonValue::Str(l.clone()),
        None => JsonValue::Null,
    };
    e.push((String::from_str("locale"), locale));
    proof {
        reveal_strlit("date");
        reveal_strlit("timezone");
        reveal_strlit("display_format");
        reveal_strlit("created_by_navigation");
        reveal_strlit("locale");
        let s = e@;
        assert forall|j: int| 0 <= j < 5 implies (#[trigger] s[j]).0@.len() == seq![4int, 8, 14, 21, 6][j] by {}
        lemma_lookup_first(s, 0, "date"@);
        lemma_lookup_first(s, 1, "timezone"@);
        lemma_lookup_first(s, 2, "display_format"@);
        lemma_lookup_first(s, 3, "created_by_navigation"@);
        lemma_lookup_first(s, 4, "locale"@);
    }
    JsonValue::Object(e)
}

} // verus!
