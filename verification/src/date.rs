//! Calendar dates, written `YYYY-MM-DD`.
//!
//! A date argument on the command line must name a valid calendar day;
//! a month argument is written `YYYYMM` and stands for the first day of
//! that month. Parsing is strict: four digits, a dash, two digits, a
//! dash, two digits, nothing else. Rendering is the exact inverse, so a
//! parsed date round-trips to the text it came from.

use vstd::prelude::*;
use vstd::string::StrSliceExecFns;
use vstd::string::StringExecFns;
use crate::strnum::all_digits;
use crate::strnum::dec_val;
use crate::strnum::pad2;
use crate::strnum::pad4;
use crate::strnum::parse_digits_range;
use crate::strnum::pow10;
use crate::strnum::push_pad2;
use crate::strnum::push_pad4;

verus! {

/// A calendar day. Valid values satisfy `wf`.
#[derive(Clone, Copy, Debug, PartialEq, Eq, Structural)]
pub struct Date {
    pub year: u32,
    pub month: u32,
    pub day: u32,
}

/// Leap years of the Gregorian calendar.
pub open spec fn is_leap_year(y: int) -> bool {
    y % 4 == 0 && (y % 100 != 0 || y % 400 == 0)
}

/// How many days the month `m` of year `y` has, for `1 <= m <= 12`.
pub open spec fn days_in_month(y: int, m: int) -> int {
    if m == 2 {
        if is_leap_year(y) {
            29
        } else {
            28
        }
    } else if m == 4 || m == 6 || m == 9 || m == 11 {
        30
    } else {
        31
    }
}

impl Date {
    /// A well-formed date: a four-digit year and a day that exists in
    /// its month.
    pub open spec fn wf(self) -> bool {
        self.year <= 9999 && 1 <= self.month <= 12 && self.day >= 1 && self.day <= days_in_month(
            self.year as int,
            self.month as int,
        )
    }
}

/// The canonical `YYYY-MM-DD` rendering of a date.
pub open spec fn date_str(d: Date) -> Seq<char> {
    pad4(d.year as int) + seq!['-'] + pad2(d.month as int) + seq!['-'] + pad2(d.day as int)
}

/// What `YYYY-MM-DD` text denotes: ten characters, digits and dashes in
/// their places, naming a valid calendar day.
pub open spec fn parse_date_seq(s: Seq<char>) -> Option<Date> {
    if s.len() == 10 && s[4] == '-' && s[7] == '-' && all_digits(s.subrange(0, 4)) && all_digits(
        s.subrange(5, 7),
    ) && all_digits(s.subrange(8, 10)) {
        let y = dec_val(s.subrange(0, 4));
        let m = dec_val(s.subrange(5, 7));
        let d = dec_val(s.subrange(8, 10));
        if 1 <= m <= 12 && 1 <= d <= days_in_month(y, m) {
            Some(Date { year: y as u32, month: m as u32, day: d as u32 })
        } else {
            None
        }
    } else {
        None
    }
}

/// What `YYYYMM` text denotes: six digits naming a month; it stands for
/// the first day of that month.
pub open spec fn parse_month_seq(s: Seq<char>) -> Option<Date> {
    if s.len() == 6 && all_digits(s.subrange(0, 4)) && all_digits(s.subrange(4, 6)) {
        let y = dec_val(s.subrange(0, 4));
        let m = dec_val(s.subrange(4, 6));
        if 1 <= m <= 12 {
            Some(Date { year: y as u32, month: m as u32, day: 1 })
        } else {
            None
        }
    } else {
        None
    }
}

/// Whether year `y` is a leap year.
pub fn is_leap(year: u32) -> (r: bool)
    ensures
        r == is_leap_year(year as int),
{
    year % 4 == 0 && (year % 100 != 0 || year % 400 == 0)
}

/// How many days the given month has.
pub fn days_in_month_count(year: u32, month: u32) -> (r: u32)
    requires
        1 <= month <= 12,
    ensures
        r == days_in_month(year as int, month as int),
{
    if month == 2 {
        if is_leap(year) {
            29
        } else {
            28
        }
    } else if month == 4 || month == 6 || month == 9 || month == 11 {
        30
    } else {
        31
    }
}

/// Parses strict `YYYY-MM-DD` text into a date; `None` on anything else.
pub fn parse_date(text: &str) -> (r: Option<Date>)
    ensures
        r == parse_date_seq(text@),
        r matches Some(d) ==> d.wf(),
{
    let n = text.unicode_len();
    if n != 10 {
        return None;
    }
    if text.get_char(4) != '-' || text.get_char(7) != '-' {
        return None;
    }
    let year = match parse_digits_range(text, 0, 4) {
        Some(y) => y,
        None => {
            proof {
                crate::strnum::lemma_small_digit_range(text@, 0, 4);
            }
            return None;
        },
    };
    let month = match parse_digits_range(text, 5, 7) {
        Some(m) => m,
        None => {
            proof {
                crate::strnum::lemma_small_digit_range(text@, 5, 7);
            }
            return None;
        },
    };
    let day = match parse_digits_range(text, 8, 10) {
        Some(d) => d,
        None => {
            proof {
                crate::strnum::lemma_small_digit_range(text@, 8, 10);
            }
            return None;
        },
    };
    if month < 1 || month > 12 {
        return None;
    }
    if day < 1 || day > days_in_month_count(year, month) {
        return None;
    }
    proof {
        crate::strnum::lemma_dec_val_upper(text@.subrange(0, 4));
        assert(pow10(4) == 10000) by {
            reveal_with_fuel(pow10, 5);
        }
    }
    Some(Date { year, month, day })
}

/// Parses strict `YYYYMM` text into the first day of that month; `None`
/// on anything else.
pub fn parse_month(text: &str) -> (r: Option<Date>)
    ensures
        r == parse_month_seq(text@),
        r matches Some(d) ==> d.wf() && d.day == 1,
{
    let n = text.unicode_len();
    if n != 6 {
        return None;
    }
    let year = match parse_digits_range(text, 0, 4) {
        Some(y) => y,
        None => {
            proof {
                crate::strnum::lemma_small_digit_range(text@, 0, 4);
            }
            return None;
        },
    };
    let month = match parse_digits_range(text, 4, 6) {
        Some(m) => m,
        None => {
            proof {
                crate::strnum::lemma_small_digit_range(text@, 4, 6);
            }
            return None;
        },
    };
    if month < 1 || month > 12 {
        return None;
    }
    proof {
        crate::strnum::lemma_dec_val_upper(text@.subrange(0, 4));
        assert(pow10(4) == 10000) by {
            reveal_with_fuel(pow10, 5);
        }
    }
    Some(Date { year, month, day: 1 })
}

/// Renders a date as `YYYY-MM-DD`, zero-padded.
pub fn format_date(d: &Date) -> (r: String)
    requires
        d.wf(),
    ensures
        r@ == date_str(*d),
{
    let mut s = String::new();
    push_pad4(&mut s, d.year);
    proof {
        reveal_strlit("-");
    }
    s.append("-");
    push_pad2(&mut s, d.month);
    s.append("-");
    push_pad2(&mut s, d.day);
    proof {
        assert("-"@ =~= seq!['-']);
        assert(Seq::<char>::empty() + pad4(d.year as int) + "-"@ + pad2(d.month as int) + "-"@
            + pad2(d.day as int) =~= date_str(*d));
    }
    s
}

/// Rendering a well-formed date and parsing the text back gives the same
/// date.
pub proof fn lemma_format_then_parse(d: Date)
    requires
        d.wf(),
    ensures
        parse_date_seq(date_str(d)) == Some(d),
{
    let s = date_str(d);
    crate::strnum::lemma_pad4_props(d.year as int);
    crate::strnum::lemma_pad2_props(d.month as int);
    crate::strnum::lemma_pad2_props(d.day as int);
    assert(s.len() == 10);
    assert(s[4] == '-');
    assert(s[7] == '-');
    assert(s.subrange(0, 4) =~= pad4(d.year as int));
    assert(s.subrange(5, 7) =~= pad2(d.month as int));
    assert(s.subrange(8, 10) =~= pad2(d.day as int));
}

/// Parsing `YYYY-MM-DD` text and rendering the date back gives the same
/// text: the grammar is canonical.
pub proof fn lemma_parse_then_format(s: Seq<char>, d: Date)
    requires
        parse_date_seq(s) == Some(d),
    ensures
        date_str(d) == s,
        d.wf(),
{
    let ys = s.subrange(0, 4);
    let ms = s.subrange(5, 7);
    let ds = s.subrange(8, 10);
    crate::strnum::lemma_pad4_inverse(ys);
    crate::strnum::lemma_pad2_inverse(ms);
    crate::strnum::lemma_pad2_inverse(ds);
    crate::strnum::lemma_dec_val_nonneg(ys);
    crate::strnum::lemma_dec_val_upper(ys);
    assert(pow10(4) == 10000) by {
        reveal_with_fuel(pow10, 5);
    }
    assert(date_str(d) =~= s);
}

} // verus!
