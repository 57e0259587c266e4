//! A UTC instant with millisecond precision, and the two texts that a
//! signature carries of it.
//!
//! An instant is held as its calendar fields, for every instant that
//! `chrono::DateTime<Utc>` can hold. The texts are written by `chrono`; what
//! it writes for such fields is stated in full by [`datestamp_text`] and
//! [`amz_date_text`].
use vstd::prelude::*;

verus! {

/// The calendar fields of an instant, as mathematical integers.
pub struct Instant {
    pub year: int,
    pub month: int,
    pub day: int,
    pub hour: int,
    pub minute: int,
    pub second: int,
    pub millisecond: int,
}

/// Whether `year` has 366 days in the proleptic Gregorian calendar.
pub open spec fn is_leap_year(year: int) -> bool {
    year % 4 == 0 && (year % 100 != 0 || year % 400 == 0)
}

/// The number of days of a month of the proleptic Gregorian calendar.
pub open spec fn days_in_month(year: int, month: int) -> int {
    if month == 2 {
        if is_leap_year(year) {
            29
        } else {
            28
        }
    } else if month == 4 || month == 6 || month == 9 || month == 11 {
        30
    } else {
        31
    }
}

/// The first year of the calendar.
pub const MIN_YEAR: i32 = -262143;

/// The last year of the calendar.
pub const MAX_YEAR: i32 = 262142;

/// Whether the fields name an instant: a day that exists, in a year of the
/// calendar, and a time of day. A leap second is the second 59 with a
/// millisecond from 1000 to 1999; no other second has a millisecond past
/// 999.
pub open spec fn is_valid_instant(i: Instant) -> bool {
    &&& MIN_YEAR <= i.year <= MAX_YEAR
    &&& 1 <= i.month <= 12
    &&& 1 <= i.day <= days_in_month(i.year, i.month)
    &&& 0 <= i.hour <= 23
    &&& 0 <= i.minute <= 59
    &&& 0 <= i.second <= 59
    &&& 0 <= i.millisecond <= 1999
    &&& i.millisecond >= 1000 ==> i.second == 59
}

/// The character of a decimal digit.
pub open spec fn digit_char(digit: int) -> char {
    ((48 + digit) as u8) as char
}

/// The last `width` decimal digits of `value`, the most significant first:
/// `value` padded with zeros where it has fewer digits.
pub open spec fn decimal_text(value: int, width: nat) -> Seq<char>
    decreases width,
{
    if width == 0 {
        Seq::empty()
    } else {
        decimal_text(value / 10, (width - 1) as nat).push(digit_char(value % 10))
    }
}

/// The number of digits that a year beyond four digits is written with,
/// for the size of the year: four at least.
pub open spec fn year_width(size: int) -> nat {
    if size < 10000 {
        4
    } else if size < 100000 {
        5
    } else {
        6
    }
}

/// A year as text: four digits from the year 0 to the year 9999; before and
/// after, a sign and the digits of the year's size, four of them at least.
pub open spec fn year_text(year: int) -> Seq<char> {
    if 0 <= year <= 9999 {
        decimal_text(year, 4)
    } else if year < 0 {
        seq!['-'] + decimal_text(-year, year_width(-year))
    } else {
        seq!['+'] + decimal_text(year, year_width(year))
    }
}

/// The date of an instant as `YYYYMMDD`, with the year as [`year_text`]
/// writes it.
pub open spec fn datestamp_text(i: Instant) -> Seq<char> {
    year_text(i.year) + decimal_text(i.month, 2) + decimal_text(i.day, 2)
}

/// An instant as `YYYY-MM-DDTHH:MM:SS.mmmZ`, with the year as [`year_text`]
/// writes it. A leap second reads as the second 60.
pub open spec fn amz_date_text(i: Instant) -> Seq<char> {
    year_text(i.year) + seq!['-'] + decimal_text(i.month, 2) + seq!['-'] + decimal_text(i.day, 2)
        + seq!['T'] + decimal_text(i.hour, 2) + seq![':'] + decimal_text(i.minute, 2) + seq![':']
        + decimal_text(i.second + i.millisecond / 1000, 2) + seq!['.'] + decimal_text(
        i.millisecond % 1000,
        3,
    ) + seq!['Z']
}

/// Decimal text has `width` characters, all of them digits.
pub proof fn lemma_decimal_text_shape(value: int, width: nat)
    ensures
        decimal_text(value, width).len() == width,
        forall|i: int|
            0 <= i < width ==> '0' <= #[trigger] decimal_text(value, width)[i] <= '9',
    decreases width,
{
    if width > 0 {
        lemma_decimal_text_shape(value / 10, (width - 1) as nat);
        let digit: int = value % 10;
        assert(0 <= digit <= 9);
        assert('0' <= digit_char(digit) <= '9');
    }
}

/// A year is written with four to seven characters, each a digit or a sign;
/// from the year 0 to the year 9999, with four.
pub proof fn lemma_year_text_shape(year: int)
    ensures
        4 <= year_text(year).len() <= 7,
        0 <= year <= 9999 ==> year_text(year).len() == 4,
        forall|i: int|
            0 <= i < year_text(year).len() ==> {
                let c = #[trigger] year_text(year)[i];
                ('0' <= c <= '9') || c == '+' || c == '-'
            },
{
    lemma_decimal_text_shape(year, 4);
    lemma_decimal_text_shape(year, year_width(year));
    lemma_decimal_text_shape(-year, year_width(-year));
}

/// An instant is written with 24 to 27 characters; from the year 0 to the
/// year 9999, with 24.
pub proof fn lemma_amz_date_text_len(i: Instant)
    ensures
        24 <= amz_date_text(i).len() <= 27,
        0 <= i.year <= 9999 ==> amz_date_text(i).len() == 24,
{
    lemma_year_text_shape(i.year);
    lemma_decimal_text_shape(i.month, 2);
    lemma_decimal_text_shape(i.day, 2);
    lemma_decimal_text_shape(i.hour, 2);
    lemma_decimal_text_shape(i.minute, 2);
    lemma_decimal_text_shape(i.second + i.millisecond / 1000, 2);
    lemma_decimal_text_shape(i.millisecond % 1000, 3);
}

/// A UTC instant with millisecond precision.
///
/// Every value names an instant that exists: see [`is_valid_instant`]. The
/// fields are those of `chrono`: the second runs from 0 to 59, and a leap
/// second is the second 59 with a millisecond from 1000 to 1999.
#[derive(Clone, Copy, Debug)]
pub struct Timestamp {
    year: i32,
    month: u8,
    day: u8,
    hour: u8,
    minute: u8,
    second: u8,
    millisecond: u16,
}

impl View for Timestamp {
    type V = Instant;

    closed spec fn view(&self) -> Instant {
        Instant {
            year: self.year as int,
            month: self.month as int,
            day: self.day as int,
            hour: self.hour as int,
            minute: self.minute as int,
            second: self.second as int,
            millisecond: self.millisecond as int,
        }
    }
}

/// The number of days of a month, for a year of the calendar.
fn month_length(year: i32, month: u8) -> (days: u8)
    requires
        MIN_YEAR <= year <= MAX_YEAR,
    ensures
        days == days_in_month(year as int, month as int),
{
    if month == 2 {
        // Leap years come round every 400 years: count from a year 0 that
        // lies before the first year of the calendar.
        let shifted: u32 = (year + 400_000) as u32;
        assert(shifted % 4 == 0 <==> year % 4 == 0);
        assert(shifted % 100 == 0 <==> year % 100 == 0);
        assert(shifted % 400 == 0 <==> year % 400 == 0);
        if shifted % 4 == 0 && (shifted % 100 != 0 || shifted % 400 == 0) {
            29
        } else {
            28
        }
    } else if month == 4 || month == 6 || month == 9 || month == 11 {
        30
    } else {
        31
    }
}

impl Timestamp {
    #[verifier::type_invariant]
    pub closed spec fn is_valid(self) -> bool {
        is_valid_instant(self@)
    }

    /// The instant with the given calendar fields, if there is one.
    pub fn new(
        year: i32,
        month: u8,
        day: u8,
        hour: u8,
        minute: u8,
        second: u8,
        millisecond: u16,
    ) -> (made: Option<Timestamp>)
        ensures
            made is Some <==> is_valid_instant(
                (Instant {
                    year: year as int,
                    month: month as int,
                    day: day as int,
                    hour: hour as int,
                    minute: minute as int,
                    second: second as int,
                    millisecond: millisecond as int,
                }),
            ),
            made matches Some(t) ==> t@ == (Instant {
                year: year as int,
                month: month as int,
                day: day as int,
                hour: hour as int,
                minute: minute as int,
                second: second as int,
                millisecond: millisecond as int,
            }),
    {
        if year < MIN_YEAR || year > MAX_YEAR || month < 1 || month > 12 || day < 1 {
            return None;
        }
        if day > month_length(year, month) {
            return None;
        }
        if hour > 23 || minute > 59 || second > 59 || millisecond > 1999 {
            return None;
        }
        if millisecond > 999 && second != 59 {
            return None;
        }
        Some(Timestamp { year, month, day, hour, minute, second, millisecond })
    }

    /// The date as `YYYYMMDD`.
    pub fn datestamp(&self) -> (text: String)
        ensures
            text@ == datestamp_text(self@),
    {
        proof {
            use_type_invariant(self);
        }
        chrono_datestamp(self)
    }

    /// The instant as `YYYY-MM-DDTHH:MM:SS.mmmZ`.
    pub fn amz_date(&self) -> (text: String)
        ensures
            text@ == amz_date_text(self@),
    {
        proof {
            use_type_invariant(self);
        }
        chrono_rfc3339_millis(self)
    }
}

/// Makes the `chrono::DateTime<Utc>` with these fields, by
/// `NaiveDate::from_ymd_opt`, `and_hms_milli_opt` and `and_utc`, and calls
/// `date_naive().format("%Y%m%d").to_string()` on it. The contract states
/// the text in full: for a year from 0 to 9999, `%Y` writes four digits
/// padded with zeros, and for any other year a sign and the year's size in
/// four digits at least; `%m` and `%d` write two digits each, padded with
/// zeros. The precondition leaves out the fields for which no date or time
/// exists, for which the two `unwrap` would panic.
#[verifier::external_body]
pub(crate) fn chrono_datestamp(t: &Timestamp) -> (text: String)
    requires
        t.is_valid(),
    ensures
        text@ == datestamp_text(t@),
{
    let date = chrono::NaiveDate::from_ymd_opt(t.year, t.month.into(), t.day.into());
    let time = date.unwrap().and_hms_milli_opt(
        t.hour.into(),
        t.minute.into(),
        t.second.into(),
        t.millisecond.into(),
    );
    time.unwrap().and_utc().date_naive().format("%Y%m%d").to_string()
}

/// Makes the `chrono::DateTime<Utc>` with these fields, as above, and calls
/// `to_rfc3339_opts(SecondsFormat::Millis, true)` on it. The contract states
/// the text in full: the year as `%Y` writes it, then the other fields in
/// fixed widths, padded with zeros, between the separators `-`, `-`, `T`,
/// `:`, `:`, `.`, and `Z` for the offset of UTC. Of a leap second, which
/// `chrono` holds as the second 59 with a millisecond past 999, it writes
/// the second 60 and the millisecond less 1000. The precondition leaves out
/// the fields for which no date or time exists, for which the two `unwrap`
/// would panic.
#[verifier::external_body]
pub(crate) fn chrono_rfc3339_millis(t: &Timestamp) -> (text: String)
    requires
        t.is_valid(),
    ensures
        text@ == amz_date_text(t@),
{
    let date = chrono::NaiveDate::from_ymd_opt(t.year, t.month.into(), t.day.into());
    let time = date.unwrap().and_hms_milli_opt(
        t.hour.into(),
        t.minute.into(),
        t.second.into(),
        t.millisecond.into(),
    );
    time.unwrap().and_utc().to_rfc3339_opts(chrono::SecondsFormat::Millis, true)
}

} // verus!
