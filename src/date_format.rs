use vstd::prelude::*;
use vstd::string::StrSliceExecFns;
use crate::text::{
    digit_at, four_digits, is_digit, lemma_two_digits_value, lemma_value2_digits, push_char,
    push_four_digits, push_two_digits, two_digits, value2, value4,
};

verus! {

/// Whether `year` is a leap year of the proleptic Gregorian calendar.
pub open spec fn is_leap_year(year: int) -> bool {
    (year % 4 == 0 && year % 100 != 0) || year % 400 == 0
}

/// The number of days of `month` (1 to 12) in `year`.
pub open spec fn days_in_month(year: int, month: int) -> int {
    if month == 2 {
        if is_leap_year(year) { 29 } else { 28 }
    } else if month == 4 || month == 6 || month == 9 || month == 11 {
        30
    } else {
        31
    }
}

/// A date and a time of day at one-second resolution, with a four-digit year.
#[derive(Clone, Copy, Debug, PartialEq, Eq, Structural)]
pub struct DateTimeFields {
    pub year: u16,
    pub month: u8,
    pub day: u8,
    pub hour: u8,
    pub minute: u8,
    pub second: u8,
}

impl DateTimeFields {
    /// The fields name an existing second of the calendar.
    pub open spec fn wf(&self) -> bool {
        &&& self.year <= 9999
        &&& 1 <= self.month <= 12
        &&& 1 <= self.day <= days_in_month(self.year as int, self.month as int)
        &&& self.hour < 24
        &&& self.minute < 60
        &&& self.second < 60
    }

    /// Builds the value, or `None` where the fields name no second of the calendar.
    pub fn new(year: u16, month: u8, day: u8, hour: u8, minute: u8, second: u8) -> (r: Option<
        DateTimeFields,
    >)
        ensures
            r is Some <==> (DateTimeFields { year, month, day, hour, minute, second }).wf(),
            r is Some ==> r->Some_0 == (DateTimeFields { year, month, day, hour, minute, second }),
    {
        let t = DateTimeFields { year, month, day, hour, minute, second };
        if year <= 9999 && 1 <= month && month <= 12 && 1 <= day && day <= month_length(year, month)
            && hour < 24 && minute < 60 && second < 60 {
            Some(t)
        } else {
            None
        }
    }

    /// The date as `YYYY-MM-DD`.
    pub open spec fn date_text(&self) -> Seq<char> {
        four_digits(self.year as int) + seq!['-'] + two_digits(self.month as int) + seq!['-']
            + two_digits(self.day as int)
    }

    /// Writes the date as `YYYY-MM-DD`, dropping the time of day.
    pub fn format_date(&self) -> (r: String)
        requires
            self.wf(),
        ensures
            r@ == self.date_text(),
    {
        let mut s = String::new();
        push_four_digits(&mut s, self.year);
        push_char(&mut s, '-');
        push_two_digits(&mut s, self.month);
        push_char(&mut s, '-');
        push_two_digits(&mut s, self.day);
        assert(s@ =~= self.date_text());
        s
    }
}

/// The number of days of `month` (1 to 12) in `year`.
pub fn month_length(year: u16, month: u8) -> (r: u8)
    requires
        1 <= month <= 12,
    ensures
        r as int == days_in_month(year as int, month as int),
{
    if month == 2 {
        if (year % 4 == 0 && year % 100 != 0) || year % 400 == 0 {
            29
        } else {
            28
        }
    } else if month == 4 || month == 6 || month == 9 || month == 11 {
        30
    } else {
        31
    }
}

/// The compact timestamp of an instant in UTC: `YYYYMMDDTHHMMSSZ`.
pub open spec fn compact_text(t: DateTimeFields) -> Seq<char> {
    four_digits(t.year as int) + two_digits(t.month as int) + two_digits(t.day as int) + seq!['T']
        + two_digits(t.hour as int) + two_digits(t.minute as int) + two_digits(t.second as int)
        + seq!['Z']
}

/// Whether position `i` of a compact timestamp holds a digit.
pub open spec fn is_digit_position(i: int) -> bool {
    (0 <= i < 8) || (9 <= i < 15)
}

/// `s` has the shape `DDDDDDDDTDDDDDDZ`, each `D` a digit.
pub open spec fn compact_shape(s: Seq<char>) -> bool {
    &&& s.len() == 16
    &&& s[8] == 'T'
    &&& s[15] == 'Z'
    &&& forall|i: int| #[trigger] is_digit_position(i) ==> is_digit(s[i])
}

/// The fields that the digits of a compact timestamp give.
pub open spec fn compact_fields(s: Seq<char>) -> DateTimeFields {
    DateTimeFields {
        year: value4(s, 0) as u16,
        month: value2(s, 4) as u8,
        day: value2(s, 6) as u8,
        hour: value2(s, 9) as u8,
        minute: value2(s, 11) as u8,
        second: value2(s, 13) as u8,
    }
}

/// The instant that a compact timestamp denotes, if it is one.
pub open spec fn compact_parse(s: Seq<char>) -> Option<DateTimeFields> {
    if compact_shape(s) && compact_fields(s).wf() {
        Some(compact_fields(s))
    } else {
        None
    }
}

/// Writes `t` as a compact UTC timestamp, `YYYYMMDDTHHMMSSZ`.
pub fn serialize(t: &DateTimeFields) -> (r: String)
    requires
        t.wf(),
    ensures
        r@ == compact_text(*t),
{
    let mut s = String::new();
    push_four_digits(&mut s, t.year);
    push_two_digits(&mut s, t.month);
    push_two_digits(&mut s, t.day);
    push_char(&mut s, 'T');
    push_two_digits(&mut s, t.hour);
    push_two_digits(&mut s, t.minute);
    push_two_digits(&mut s, t.second);
    push_char(&mut s, 'Z');
    assert(s@ =~= compact_text(*t));
    s
}

/// Reads the two digits of `s` that start at `i`.
fn read_two(s: &str, i: usize) -> (r: Option<u8>)
    requires
        i < 15,
        i + 1 < s@.len(),
    ensures
        r is Some <==> is_digit(s@[i as int]) && is_digit(s@[i + 1]),
        r is Some ==> r->Some_0 as int == value2(s@, i as int) && r->Some_0 < 100,
{
    let a = digit_at(s, i)?;
    let b = digit_at(s, i + 1)?;
    Some(a * 10 + b)
}

/// Reads a compact UTC timestamp, `YYYYMMDDTHHMMSSZ`; `None` where `s` has another
/// shape or names no second of the calendar.
pub fn deserialize(s: &str) -> (r: Option<DateTimeFields>)
    ensures
        r == compact_parse(s@),
{
    if s.unicode_len() != 16 {
        return None;
    }
    if s.get_char(8) != 'T' || s.get_char(15) != 'Z' {
        return None;
    }
    let y1 = read_two(s, 0);
    let y2 = read_two(s, 2);
    let mo = read_two(s, 4);
    let d = read_two(s, 6);
    let h = read_two(s, 9);
    let mi = read_two(s, 11);
    let se = read_two(s, 13);
    match (y1, y2, mo, d, h, mi, se) {
        (Some(y1), Some(y2), Some(mo), Some(d), Some(h), Some(mi), Some(se)) => {
            assert(compact_shape(s@)) by {
                assert forall|i: int| #[trigger] is_digit_position(i) implies is_digit(s@[i]) by {
                    if i == 0 || i == 2 || i == 4 || i == 6 || i == 9 || i == 11 || i == 13 {
                    } else {
                        assert(i == 1 || i == 3 || i == 5 || i == 7 || i == 10 || i == 12 || i
                            == 14);
                    }
                }
            }
            let year: u16 = y1 as u16 * 100 + y2 as u16;
            DateTimeFields::new(year, mo, d, h, mi, se)
        },
        _ => {
            assert(!compact_shape(s@)) by {
                if compact_shape(s@) {
                    assert(is_digit_position(0) && is_digit_position(1) && is_digit_position(2));
                    assert(is_digit_position(3) && is_digit_position(4) && is_digit_position(5));
                    assert(is_digit_position(6) && is_digit_position(7) && is_digit_position(9));
                    assert(is_digit_position(10) && is_digit_position(11) && is_digit_position(12));
                    assert(is_digit_position(13) && is_digit_position(14));
                }
            }
            None
        },
    }
}

/// Decoding a timestamp written by the encoder gives back the same instant, for every
/// instant at one-second resolution.
pub proof fn lemma_timestamp_round_trip(t: DateTimeFields)
    requires
        t.wf(),
    ensures
        compact_parse(compact_text(t)) == Some(t),
{
    let s = compact_text(t);
    lemma_two_digits_value(t.year as int / 100);
    lemma_two_digits_value(t.year as int % 100);
    lemma_two_digits_value(t.month as int);
    lemma_two_digits_value(t.day as int);
    lemma_two_digits_value(t.hour as int);
    lemma_two_digits_value(t.minute as int);
    lemma_two_digits_value(t.second as int);
    assert(s.subrange(0, 2) =~= two_digits(t.year as int / 100));
    assert(s.subrange(2, 4) =~= two_digits(t.year as int % 100));
    assert(s.subrange(4, 6) =~= two_digits(t.month as int));
    assert(s.subrange(6, 8) =~= two_digits(t.day as int));
    assert(s.subrange(9, 11) =~= two_digits(t.hour as int));
    assert(s.subrange(11, 13) =~= two_digits(t.minute as int));
    assert(s.subrange(13, 15) =~= two_digits(t.second as int));
    assert(compact_shape(s));
    assert(compact_fields(s) == t);
}

/// Every accepted compact timestamp is the encoder's text for the instant it denotes:
/// the format has one spelling per instant.
pub proof fn lemma_timestamp_canonical(s: Seq<char>)
    requires
        compact_parse(s) is Some,
    ensures
        compact_text(compact_parse(s)->Some_0) == s,
{
    let t = compact_fields(s);
    assert(is_digit_position(0) && is_digit_position(1) && is_digit_position(2));
    assert(is_digit_position(3) && is_digit_position(4) && is_digit_position(5));
    assert(is_digit_position(6) && is_digit_position(7) && is_digit_position(9));
    assert(is_digit_position(10) && is_digit_position(11) && is_digit_position(12));
    assert(is_digit_position(13) && is_digit_position(14));
    lemma_value2_digits(s, 0);
    lemma_value2_digits(s, 2);
    lemma_value2_digits(s, 4);
    lemma_value2_digits(s, 6);
    lemma_value2_digits(s, 9);
    lemma_value2_digits(s, 11);
    lemma_value2_digits(s, 13);
    assert(t.year as int / 100 == value2(s, 0));
    assert(t.year as int % 100 == value2(s, 2));
    assert(compact_text(t) =~= s);
}

} // verus!
