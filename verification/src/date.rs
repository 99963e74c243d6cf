//! Calendar dates and their `YYYY-MM-DD` text form, the form the store and
//! the command line use for birth dates.

use vstd::prelude::*;

use crate::text::{digit_char, digit_str, digit_val, lemma_digit_char_val};

verus! {

/// A calendar date. A value is meaningful when `wf` holds: the year has at
/// most four digits and month and day fall inside the calendar.
#[derive(Clone, Copy, Debug, PartialEq, Eq, Structural)]
pub struct Date {
    pub year: u16,
    pub month: u8,
    pub day: u8,
}

pub open spec fn is_leap_year(y: int) -> bool {
    (y % 4 == 0 && y % 100 != 0) || y % 400 == 0
}

pub open spec fn days_in_month(y: int, m: int) -> int {
    if m == 2 {
        if is_leap_year(y) {
            29
        } else {
            28
        }
    } else if m == 4 || m == 6 || m == 9 || m == 11 {
        30
    } else {
        31
    }
}

impl Date {
    pub open spec fn wf(self) -> bool {
        &&& self.year <= 9999
        &&& 1 <= self.month <= 12
        &&& 1 <= self.day <= days_in_month(self.year as int, self.month as int)
    }

    /// Builds a date, or nothing when the fields do not name a calendar day.
    pub fn from_ymd(year: u16, month: u8, day: u8) -> (r: Option<Date>)
        ensures
            r matches Some(d) ==> d.wf() && d == (Date { year, month, day }),
            r is None ==> !(Date { year, month, day }).wf(),
    {
        let d = Date { year, month, day };
        if d.check_wf() {
            Some(d)
        } else {
            None
        }
    }

    /// Decides `wf` executably.
    pub fn check_wf(&self) -> (r: bool)
        ensures
            r == self.wf(),
    {
        self.year <= 9999 && 1 <= self.month && self.month <= 12 && 1 <= self.day
            && self.day <= days_in_month_exec(self.year, self.month)
    }
}

/// Executable twin of `days_in_month`.
pub fn days_in_month_exec(y: u16, m: u8) -> (r: u8)
    ensures
        r as int == days_in_month(y as int, m as int),
{
    if m == 2 {
        if (y % 4 == 0 && y % 100 != 0) || y % 400 == 0 {
            29
        } else {
            28
        }
    } else if m == 4 || m == 6 || m == 9 || m == 11 {
        30
    } else {
        31
    }
}

/// The ten characters `YYYY-MM-DD` of a date.
pub open spec fn date_chars(d: Date) -> Seq<char> {
    seq![
        digit_char(d.year as int / 1000 % 10),
        digit_char(d.year as int / 100 % 10),
        digit_char(d.year as int / 10 % 10),
        digit_char(d.year as int % 10),
        '-',
        digit_char(d.month as int / 10 % 10),
        digit_char(d.month as int % 10),
        '-',
        digit_char(d.day as int / 10 % 10),
        digit_char(d.day as int % 10),
    ]
}

/// The date whose text form a character sequence is, if it is one.
pub open spec fn parse_date_chars(s: Seq<char>) -> Option<Date> {
    if exists|d: Date| d.wf() && date_chars(d) == s {
        Some(choose|d: Date| d.wf() && date_chars(d) == s)
    } else {
        None
    }
}

proof fn lemma_u16_digits_unique(y: u16, a: u16, b: u16, c: u16, e: u16)
    requires
        a < 10,
        b < 10,
        c < 10,
        e < 10,
        y as int == a * 1000 + b * 100 + c * 10 + e,
    ensures
        y as int / 1000 % 10 == a,
        y as int / 100 % 10 == b,
        y as int / 10 % 10 == c,
        y as int % 10 == e,
{
    assert(y / 1000 % 10 == a && y / 100 % 10 == b && y / 10 % 10 == c && y % 10
        == e) by (bit_vector)
        requires
            a < 10 && b < 10 && c < 10 && e < 10 && y == a * 1000 + b * 100 + c * 10 + e,
    ;
}

proof fn lemma_u8_digits_unique(v: u8, a: u8, b: u8)
    requires
        a < 10,
        b < 10,
        v as int == a * 10 + b,
    ensures
        v as int / 10 % 10 == a,
        v as int % 10 == b,
{
    assert(v / 10 % 10 == a && v % 10 == b) by (bit_vector)
        requires
            a < 10 && b < 10 && v == a * 10 + b,
    ;
}

proof fn lemma_u16_digit_breakdown(y: u16)
    requires
        y <= 9999,
    ensures
        y as int == (y as int / 1000 % 10) * 1000 + (y as int / 100 % 10) * 100 + (y as int / 10
            % 10) * 10 + y as int % 10,
        0 <= y as int / 1000 % 10 < 10,
        0 <= y as int / 100 % 10 < 10,
        0 <= y as int / 10 % 10 < 10,
        0 <= y as int % 10 < 10,
{
    assert(y == (y / 1000 % 10) * 1000 + (y / 100 % 10) * 100 + (y / 10 % 10) * 10 + y
        % 10) by (bit_vector)
        requires
            y <= 9999,
    ;
}

proof fn lemma_u8_digit_breakdown(v: u8)
    requires
        v <= 99,
    ensures
        v as int == (v as int / 10 % 10) * 10 + v as int % 10,
        0 <= v as int / 10 % 10 < 10,
        0 <= v as int % 10 < 10,
{
    assert(v == (v / 10 % 10) * 10 + v % 10) by (bit_vector)
        requires
            v <= 99,
    ;
}

/// From the text form of a well-formed date, each field can be read back: the
/// digit characters determine year, month and day.
proof fn lemma_fields_from_chars(d: Date, s: Seq<char>)
    requires
        d.wf(),
        s == date_chars(d),
    ensures
        s.len() == 10,
        s[4] == '-',
        s[7] == '-',
        d.year as int == digit_val(s[0]) * 1000 + digit_val(s[1]) * 100 + digit_val(s[2]) * 10
            + digit_val(s[3]),
        d.month as int == digit_val(s[5]) * 10 + digit_val(s[6]),
        d.day as int == digit_val(s[8]) * 10 + digit_val(s[9]),
        forall|i: int| (0 <= i < 4 || i == 5 || i == 6 || i == 8 || i == 9) ==> digit_val(s[i]) < 10,
{
    lemma_u16_digit_breakdown(d.year);
    lemma_u8_digit_breakdown(d.month);
    lemma_u8_digit_breakdown(d.day);
    lemma_digit_char_val(d.year as int / 1000 % 10);
    lemma_digit_char_val(d.year as int / 100 % 10);
    lemma_digit_char_val(d.year as int / 10 % 10);
    lemma_digit_char_val(d.year as int % 10);
    lemma_digit_char_val(d.month as int / 10 % 10);
    lemma_digit_char_val(d.month as int % 10);
    lemma_digit_char_val(d.day as int / 10 % 10);
    lemma_digit_char_val(d.day as int % 10);
}

/// The text form is one-to-one on well-formed dates.
pub proof fn lemma_date_chars_injective(d1: Date, d2: Date)
    requires
        d1.wf(),
        d2.wf(),
        date_chars(d1) == date_chars(d2),
    ensures
        d1 == d2,
{
    lemma_fields_from_chars(d1, date_chars(d1));
    lemma_fields_from_chars(d2, date_chars(d2));
}

/// Parsing the text form of a well-formed date gives that date back.
pub proof fn lemma_parse_date_chars_round_trip(d: Date)
    requires
        d.wf(),
    ensures
        parse_date_chars(date_chars(d)) == Some(d),
{
    assert(exists|x: Date| x.wf() && date_chars(x) == date_chars(d));
    let x = choose|x: Date| x.wf() && date_chars(x) == date_chars(d);
    lemma_date_chars_injective(x, d);
}

impl Date {
    /// Renders the date as `YYYY-MM-DD`.
    pub fn format_iso(&self) -> (r: String)
        requires
            self.wf(),
        ensures
            r@ == date_chars(*self),
    {
        let mut s = String::new();
        s.append(digit_str((self.year / 1000 % 10) as u8));
        s.append(digit_str((self.year / 100 % 10) as u8));
        s.append(digit_str((self.year / 10 % 10) as u8));
        s.append(digit_str((self.year % 10) as u8));
        s.append("-");
        s.append(digit_str(self.month / 10 % 10));
        s.append(digit_str(self.month % 10));
        s.append("-");
        s.append(digit_str(self.day / 10 % 10));
        s.append(digit_str(self.day % 10));
        proof {
            reveal_strlit("-");
            assert(s@ =~= date_chars(*self));
        }
        s
    }
}

/// Reads the decimal value of a digit character, or nothing.
fn char_digit(c: char) -> (r: Option<u16>)
    ensures
        r matches Some(v) ==> v < 10 && c == digit_char(v as int) && digit_val(c) == v as int,
        r is None ==> digit_val(c) == 10,
{
    match c {
        '0' => Some(0),
        '1' => Some(1),
        '2' => Some(2),
        '3' => Some(3),
        '4' => Some(4),
        '5' => Some(5),
        '6' => Some(6),
        '7' => Some(7),
        '8' => Some(8),
        '9' => Some(9),
        _ => None,
    }
}

/// Parses `YYYY-MM-DD` into a date. Succeeds exactly on the text forms of
/// well-formed dates, and then returns the date the text renders.
pub fn parse_iso(s: &str) -> (r: Option<Date>)
    ensures
        r == parse_date_chars(s@),
        r matches Some(d) ==> d.wf() && s@ == date_chars(d),
{
    let n = s.unicode_len();
    if n != 10 {
        proof {
            assert forall|d: Date| d.wf() implies s@ != date_chars(d) by {
                assert(date_chars(d).len() == 10);
            }
        }
        return None;
    }
    if s.get_char(4) != '-' || s.get_char(7) != '-' {
        proof {
            assert forall|d: Date| d.wf() implies s@ != date_chars(d) by {
                assert(date_chars(d)[4] == '-' && date_chars(d)[7] == '-');
            }
        }
        return None;
    }
    let (d0, d1, d2, d3) = (
        char_digit(s.get_char(0)),
        char_digit(s.get_char(1)),
        char_digit(s.get_char(2)),
        char_digit(s.get_char(3)),
    );
    let (d5, d6) = (char_digit(s.get_char(5)), char_digit(s.get_char(6)));
    let (d8, d9) = (char_digit(s.get_char(8)), char_digit(s.get_char(9)));
    match (d0, d1, d2, d3, d5, d6, d8, d9) {
        (
            Some(y0),
            Some(y1),
            Some(y2),
            Some(y3),
            Some(m0),
            Some(m1),
            Some(a0),
            Some(a1),
        ) => {
            let year: u16 = y0 * 1000 + y1 * 100 + y2 * 10 + y3;
            let month: u8 = (m0 * 10 + m1) as u8;
            let day: u8 = (a0 * 10 + a1) as u8;
            let d = Date { year, month, day };
            if d.check_wf() {
                proof {
                    lemma_u16_digits_unique(year, y0, y1, y2, y3);
                    lemma_u8_digits_unique(month, m0 as u8, m1 as u8);
                    lemma_u8_digits_unique(day, a0 as u8, a1 as u8);
                    assert(s@ =~= date_chars(d));
                    lemma_parse_date_chars_round_trip(d);
                }
                Some(d)
            } else {
                proof {
                    assert forall|x: Date| x.wf() implies s@ != date_chars(x) by {
                        if s@ == date_chars(x) {
                            lemma_fields_from_chars(x, s@);
                            assert(x == d);
                        }
                    }
                }
                None
            }
        },
        _ => {
            proof {
                assert forall|x: Date| x.wf() implies s@ != date_chars(x) by {
                    if s@ == date_chars(x) {
                        lemma_fields_from_chars(x, s@);
                    }
                }
            }
            None
        },
    }
}

} // verus!
