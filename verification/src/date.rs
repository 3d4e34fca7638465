//! Calendar dates without a time of day.
//!
//! A [`CalendarDate`] is a day of the proleptic Gregorian calendar, kept as a
//! year, a month and a day. A deadline is written `YYYY-MM-DD`; whether a
//! text has that shape is decided here, and `chrono` reads the date out of
//! it. Rendering a date for a person is done by `chrono` too; the order of
//! dates and the step to the following day are computed here. No clock is
//! read here: today's date is handed in by the caller, who makes it with
//! [`CalendarDate::new`].

use chrono::Datelike;
use crate::text::has_no_colon;
use vstd::arithmetic::div_mod::lemma_mod_multiples_vanish;
use vstd::pervasive::unreached;
use vstd::prelude::*;
use vstd::string::StrSliceExecFns;

verus! {

/// Lowest year a date may carry.
pub const MIN_YEAR: i32 = -262143;

/// Highest year a date may carry.
pub const MAX_YEAR: i32 = 262142;

/// A year, a month and a day as mathematical integers.
pub struct Ymd {
    pub year: int,
    pub month: int,
    pub day: int,
}

/// Leap years of the proleptic Gregorian calendar; year 0 is one of them.
pub open spec fn is_leap_year(year: int) -> bool {
    year % 4 == 0 && (year % 100 != 0 || year % 400 == 0)
}

/// Number of days in `month` of `year`, for a month from 1 to 12.
pub open spec fn days_in_month(year: int, month: int) -> int {
    if month == 2 {
        if is_leap_year(year) {
            29
        } else {
            28
        }
    } else if month == 4 || month == 6 || month == 9 || month == 11 {
        30
    } else {
        31
    }
}

/// The three-letter English name of a month from 1 to 12.
pub open spec fn month_abbreviation(month: int) -> Seq<char> {
    if month == 1 {
        "Jan"@
    } else if month == 2 {
        "Feb"@
    } else if month == 3 {
        "Mar"@
    } else if month == 4 {
        "Apr"@
    } else if month == 5 {
        "May"@
    } else if month == 6 {
        "Jun"@
    } else if month == 7 {
        "Jul"@
    } else if month == 8 {
        "Aug"@
    } else if month == 9 {
        "Sep"@
    } else if month == 10 {
        "Oct"@
    } else if month == 11 {
        "Nov"@
    } else {
        "Dec"@
    }
}

/// The character that writes a value from 0 to 9.
pub open spec fn digit(value: int) -> char {
    seq!['0', '1', '2', '3', '4', '5', '6', '7', '8', '9'][value]
}

/// A natural number in base ten, without leading zeros.
pub open spec fn decimal(value: nat) -> Seq<char>
    decreases value,
{
    if value < 10 {
        seq![digit(value as int)]
    } else {
        decimal(value / 10).push(digit(value as int % 10))
    }
}

/// A natural number in base ten, with zeros in front up to four digits.
pub open spec fn four_digits(value: nat) -> Seq<char> {
    if value < 10 {
        seq!['0', '0', '0'] + decimal(value)
    } else if value < 100 {
        seq!['0', '0'] + decimal(value)
    } else if value < 1000 {
        seq!['0'] + decimal(value)
    } else {
        decimal(value)
    }
}

/// A year as it is written in a rendered date: four digits from 0 to 9999,
/// and a sign in front of at least four digits outside that range.
pub open spec fn year_text(year: int) -> Seq<char> {
    if year < 0 {
        seq!['-'] + four_digits((-year) as nat)
    } else if year > 9999 {
        seq!['+'] + decimal(year as nat)
    } else {
        four_digits(year as nat)
    }
}

impl Ymd {
    /// The day exists in the calendar and its year is within the supported range.
    pub open spec fn is_valid(self) -> bool {
        &&& MIN_YEAR <= self.year <= MAX_YEAR
        &&& 1 <= self.month <= 12
        &&& 1 <= self.day <= days_in_month(self.year, self.month)
    }

    /// Calendar-day order: `self` falls strictly earlier than `other`.
    pub open spec fn precedes(self, other: Ymd) -> bool {
        self.year < other.year || (self.year == other.year && (self.month < other.month || (
        self.month == other.month && self.day < other.day)))
    }

    /// The day after `self`.
    pub open spec fn next(self) -> Ymd {
        if self.day < days_in_month(self.year, self.month) {
            Ymd { year: self.year, month: self.month, day: self.day + 1 }
        } else if self.month < 12 {
            Ymd { year: self.year, month: self.month + 1, day: 1 }
        } else {
            Ymd { year: self.year + 1, month: 1, day: 1 }
        }
    }

    /// The date written for a person, such as `Jan 1, 2020`.
    pub open spec fn text(self) -> Seq<char> {
        month_abbreviation(self.month) + " "@ + decimal(self.day as nat) + ", "@ + year_text(
            self.year,
        )
    }
}

/// Leap years repeat every 400 years.
pub proof fn lemma_leap_years_repeat(year: int, cycles: int)
    ensures
        is_leap_year(year + 400 * cycles) == is_leap_year(year),
{
    lemma_mod_multiples_vanish(100 * cycles, year, 4);
    lemma_mod_multiples_vanish(4 * cycles, year, 100);
    lemma_mod_multiples_vanish(cycles, year, 400);
    assert(4 * (100 * cycles) + year == year + 400 * cycles);
    assert(100 * (4 * cycles) + year == year + 400 * cycles);
    assert(400 * cycles + year == year + 400 * cycles);
}

/// A number in base ten holds no colon.
pub proof fn lemma_decimal_has_no_colon(value: nat)
    ensures
        has_no_colon(decimal(value)),
    decreases value,
{
    if value >= 10 {
        lemma_decimal_has_no_colon(value / 10);
    }
}

/// A rendered date holds no colon.
pub proof fn lemma_date_text_has_no_colon(date: Ymd)
    ensures
        has_no_colon(date.text()),
{
    reveal_strlit("Jan");
    reveal_strlit("Feb");
    reveal_strlit("Mar");
    reveal_strlit("Apr");
    reveal_strlit("May");
    reveal_strlit("Jun");
    reveal_strlit("Jul");
    reveal_strlit("Aug");
    reveal_strlit("Sep");
    reveal_strlit("Oct");
    reveal_strlit("Nov");
    reveal_strlit("Dec");
    reveal_strlit(" ");
    reveal_strlit(", ");
    lemma_decimal_has_no_colon(date.day as nat);
    lemma_decimal_has_no_colon(date.year as nat);
    lemma_decimal_has_no_colon((-date.year) as nat);
    assert(has_no_colon(month_abbreviation(date.month)));
    assert(has_no_colon(year_text(date.year)));
}

/// The triple of machine integers as a mathematical date.
pub open spec fn ymd_of(triple: (i32, u32, u32)) -> Ymd {
    Ymd { year: triple.0 as int, month: triple.1 as int, day: triple.2 as int }
}

/// The character is one of the ten digits.
pub open spec fn is_digit(c: char) -> bool {
    '0' <= c && c <= '9'
}

/// The value of a digit.
pub open spec fn digit_value(c: char) -> int {
    c as int - '0' as int
}

/// What stands at position `index` of a deadline: a hyphen after the year
/// and after the month, a digit elsewhere.
pub open spec fn fits_deadline_shape(index: int, c: char) -> bool {
    if index == 4 || index == 7 {
        c == '-'
    } else {
        is_digit(c)
    }
}

/// The text has the shape `YYYY-MM-DD`: four digits, a hyphen, two digits,
/// a hyphen, two digits, and nothing else.
pub open spec fn is_deadline_shape(text: Seq<char>) -> bool {
    text.len() == 10 && forall|i: int| 0 <= i < 10 ==> fits_deadline_shape(i, #[trigger] text[i])
}

/// The year, month and day that a text of the shape `YYYY-MM-DD` writes.
pub open spec fn written_date(text: Seq<char>) -> Ymd {
    Ymd {
        year: 1000 * digit_value(text[0]) + 100 * digit_value(text[1]) + 10 * digit_value(text[2])
            + digit_value(text[3]),
        month: 10 * digit_value(text[5]) + digit_value(text[6]),
        day: 10 * digit_value(text[8]) + digit_value(text[9]),
    }
}

/// The date that `text` denotes as a deadline: it has the shape
/// `YYYY-MM-DD` and writes a day of the calendar. `None` for any other text.
pub open spec fn deadline_in(text: Seq<char>) -> Option<Ymd> {
    if is_deadline_shape(text) && written_date(text).is_valid() {
        Some(written_date(text))
    } else {
        None
    }
}

/// The pattern by which `chrono` reads a deadline: year, month and day in
/// digits, with hyphens between them.
pub open spec fn deadline_pattern() -> Seq<char> {
    "%Y-%m-%d"@
}

/// The pattern by which `chrono` renders a date: month name, day, comma, year.
pub open spec fn rendering_pattern() -> Seq<char> {
    "%b %-d, %Y"@
}

/// Trusted: `chrono::NaiveDate::parse_from_str` under the pattern `%Y-%m-%d`,
/// followed by the accessors `year`, `month` and `day` of `chrono::Datelike`.
///
/// The contract claims that, of a text of four digits, a hyphen, two digits,
/// a hyphen and two digits, chrono reads the three numbers as they are
/// written and answers with their date where the calendar has that day, and
/// with an error where it has not. Nothing is claimed of texts of another
/// shape, of which chrono reads some.
#[verifier::external_body]
fn read_date(text: &str, pattern: &str) -> (triple: Option<(i32, u32, u32)>)
    requires
        is_deadline_shape(text@),
        pattern@ == deadline_pattern(),
    ensures
        match triple {
            Some(t) => deadline_in(text@) == Some(ymd_of(t)),
            None => deadline_in(text@) is None,
        },
{
    match chrono::NaiveDate::parse_from_str(text, pattern) {
        Ok(date) => Some((date.year(), date.month(), date.day())),
        Err(_) => None,
    }
}

/// Trusted: `chrono::NaiveDate::format` under the pattern `%b %-d, %Y`, on the
/// date that `chrono::NaiveDate::from_ymd_opt` makes of the three numbers.
///
/// The contract claims that a day of the calendar within chrono's range of
/// years is a date to chrono too, and that its rendering is what chrono's
/// table of specifiers says of the three that the pattern uses: `%b` is the
/// English three-letter month name, `%-d` the day without padding, `%Y` the
/// year in four digits, signed and in at least four digits outside 0..=9999.
/// The pattern is fixed because chrono's rendering panics on a pattern that
/// it cannot read.
#[verifier::external_body]
fn render_date(year: i32, month: u32, day: u32, pattern: &str) -> (text: Option<String>)
    requires
        ymd_of((year, month, day)).is_valid(),
        pattern@ == rendering_pattern(),
    ensures
        text is Some,
        text matches Some(t) ==> t@ == ymd_of((year, month, day)).text(),
{
    match chrono::NaiveDate::from_ymd_opt(year, month, day) {
        Some(date) => Some(date.format(pattern).to_string()),
        None => None,
    }
}

/// A calendar date.
#[derive(Clone, Copy, Debug, PartialEq, Eq)]
pub struct CalendarDate {
    year: i32,
    month: u32,
    day: u32,
}

impl View for CalendarDate {
    type V = Ymd;

    closed spec fn view(&self) -> Ymd {
        ymd_of((self.year, self.month, self.day))
    }
}

impl CalendarDate {
    /// Every date that the program holds is a day of the calendar.
    #[verifier::type_invariant]
    pub open spec fn is_valid(self) -> bool {
        self@.is_valid()
    }

    /// The date of the given year, month and day, if there is such a day.
    pub fn new(year: i32, month: u32, day: u32) -> (date: Option<CalendarDate>)
        ensures
            date is Some <==> ymd_of((year, month, day)).is_valid(),
            date matches Some(d) ==> d@ == ymd_of((year, month, day)),
    {
        if year < MIN_YEAR || year > MAX_YEAR || month < 1 || month > 12 || day < 1 {
            return None;
        }
        if day > month_length(year, month) {
            return None;
        }
        Some(CalendarDate { year, month, day })
    }

    /// Reads a deadline such as `2030-01-01`: a text of the shape
    /// `YYYY-MM-DD` that writes a day of the calendar.
    pub fn parse(text: &str) -> (date: Option<CalendarDate>)
        ensures
            match date {
                Some(d) => deadline_in(text@) == Some(d@),
                None => deadline_in(text@) is None,
            },
    {
        if !has_deadline_shape(text) {
            return None;
        }
        match read_date(text, "%Y-%m-%d") {
            Some((year, month, day)) => Some(CalendarDate { year, month, day }),
            None => None,
        }
    }

    /// Whether `self` falls strictly earlier than `other`.
    pub fn is_before(&self, other: &CalendarDate) -> (earlier: bool)
        ensures
            earlier == self@.precedes(other@),
    {
        self.year < other.year || (self.year == other.year && (self.month < other.month || (
        self.month == other.month && self.day < other.day)))
    }

    /// The day after `self`, unless `self` is the last day of the last year.
    pub fn next_day(&self) -> (next: Option<CalendarDate>)
        ensures
            next is Some <==> self@.next().is_valid(),
            next matches Some(d) ==> d@ == self@.next(),
    {
        proof {
            use_type_invariant(self);
        }
        if self.day < month_length(self.year, self.month) {
            Some(CalendarDate { year: self.year, month: self.month, day: self.day + 1 })
        } else if self.month < 12 {
            Some(CalendarDate { year: self.year, month: self.month + 1, day: 1 })
        } else if self.year < MAX_YEAR {
            Some(CalendarDate { year: self.year + 1, month: 1, day: 1 })
        } else {
            None
        }
    }

    /// The date written for a person, such as `Jan 1, 2020`.
    pub fn text(&self) -> (text: String)
        ensures
            text@ == self@.text(),
    {
        proof {
            use_type_invariant(self);
        }
        match render_date(self.year, self.month, self.day, "%b %-d, %Y") {
            Some(text) => text,
            None => unreached(),
        }
    }

    /// The year.
    pub fn year(&self) -> (year: i32)
        ensures
            year == self@.year,
    {
        self.year
    }

    /// The month, from 1 to 12.
    pub fn month(&self) -> (month: u32)
        ensures
            month == self@.month,
    {
        self.month
    }

    /// The day of the month, from 1.
    pub fn day(&self) -> (day: u32)
        ensures
            day == self@.day,
    {
        self.day
    }
}

/// Whether the text has the shape `YYYY-MM-DD`: four digits, a hyphen, two
/// digits, a hyphen, two digits, and nothing else.
pub fn has_deadline_shape(text: &str) -> (shaped: bool)
    ensures
        shaped == is_deadline_shape(text@),
{
    if text.unicode_len() != 10 {
        return false;
    }
    let mut index: usize = 0;
    while index < 10
        invariant
            index <= 10,
            text@.len() == 10,
            forall|i: int| 0 <= i < index ==> fits_deadline_shape(i, #[trigger] text@[i]),
        decreases 10 - index,
    {
        let c = text.get_char(index);
        let fits = if index == 4 || index == 7 {
            c == '-'
        } else {
            '0' <= c && c <= '9'
        };
        if !fits {
            return false;
        }
        index += 1;
    }
    true
}

/// Whether a year within the supported range is a leap year.
fn leap(year: i32) -> (leap: bool)
    requires
        MIN_YEAR <= year <= MAX_YEAR,
    ensures
        leap == is_leap_year(year as int),
{
    // 656 cycles of 400 years lift every supported year above zero, where
    // the remainders are computed, and leave its place in the cycle alone.
    let lifted: i32 = year + 262400;
    proof {
        lemma_leap_years_repeat(year as int, 656);
    }
    lifted % 4 == 0 && (lifted % 100 != 0 || lifted % 400 == 0)
}

/// Number of days in a month from 1 to 12 of a year within the supported
/// range.
fn month_length(year: i32, month: u32) -> (length: u32)
    requires
        MIN_YEAR <= year <= MAX_YEAR,
        1 <= month <= 12,
    ensures
        length == days_in_month(year as int, month as int),
{
    if month == 2 {
        if leap(year) {
            29
        } else {
            28
        }
    } else if month == 4 || month == 6 || month == 9 || month == 11 {
        30
    } else {
        31
    }
}

} // verus!
