//! Clock-time parsing and rendering.
//!
//! A timestamp cell on the attendance page reads `HH:MM`: two digit
//! characters of hours, a delimiter, and at least one digit of minutes.
//! Hours may exceed 24 — the remote system writes post-midnight times as,
//! for example, `26:00` for 2 a.m. — so no upper bound is put on them
//! here. A cell may also hold arbitrary other text (a status label, an
//! empty string), which simply fails to parse.

use vstd::prelude::*;
use vstd::string::StrSliceExecFns;
use vstd::string::StringExecFns;
use crate::strnum::all_digits;
use crate::strnum::contains_char;
use crate::strnum::dec_val;
use crate::strnum::hhmm;
use crate::strnum::parse_digits_range;
use crate::strnum::push_pad2;
use crate::strnum::str_contains_char;

verus! {

/// The minute count that the text `s` denotes, counted from midnight, or
/// `None` where `s` is not a well-formed timestamp.
///
/// `s` parses when it is at least four characters long, contains a `:`,
/// its first two characters are digits (the hours), and everything after
/// the third character is a digit string (the minutes) such that
/// `hours * 60 + minutes` fits in a `u32`. The character between the two
/// fields is skipped as the delimiter; with both fields all digits, only
/// `:` can stand there.
pub open spec fn time_minutes(s: Seq<char>) -> Option<u32> {
    if s.len() < 4 || !contains_char(s, ':') {
        None
    } else {
        let hours = dec_val(s.subrange(0, 2));
        let minutes = dec_val(s.subrange(3, s.len() as int));
        if all_digits(s.subrange(0, 2)) && all_digits(s.subrange(3, s.len() as int)) && hours * 60
            + minutes <= u32::MAX {
            Some((hours * 60 + minutes) as u32)
        } else {
            None
        }
    }
}

/// Turns a timestamp such as `06:45` into minutes counted from midnight
/// (here `6 * 60 + 45 == 405`). Tolerates malformed or absent text by
/// returning `None`; never panics.
pub fn parse_time_to_minutes(text: &str) -> (r: Option<u32>)
    ensures
        r == time_minutes(text@),
{
    let n = text.unicode_len();
    if n < 4 {
        return None;
    }
    if !str_contains_char(text, ':') {
        return None;
    }
    let hours = match parse_digits_range(text, 0, 2) {
        Some(h) => h,
        None => {
            proof {
                let mins_part = text@.subrange(3, text@.len() as int);
                if all_digits(mins_part) {
                    crate::strnum::lemma_dec_val_nonneg(mins_part);
                }
            }
            return None;
        },
    };
    let minutes = match parse_digits_range(text, 3, n) {
        Some(m) => m,
        None => {
            proof {
                let hours_part = text@.subrange(0, 2);
                if all_digits(hours_part) {
                    crate::strnum::lemma_dec_val_nonneg(hours_part);
                }
            }
            return None;
        },
    };
    let total: u64 = (hours as u64) * 60 + (minutes as u64);
    proof {
        crate::strnum::lemma_dec_val_nonneg(text@.subrange(3, text@.len() as int));
    }
    if total > u32::MAX as u64 {
        return None;
    }
    Some(total as u32)
}

/// Renders a minute count as zero-padded `HH:MM` (hours may take more
/// than two characters for large totals).
pub fn format_hhmm(total: u32) -> (r: String)
    ensures
        r@ == hhmm(total as int),
{
    let mut s = String::new();
    push_pad2(&mut s, total / 60);
    proof {
        reveal_strlit(":");
    }
    s.append(":");
    push_pad2(&mut s, total % 60);
    proof {
        assert(Seq::<char>::empty() + crate::strnum::pad2(total as int / 60) + ":"@
            + crate::strnum::pad2(total as int % 60) =~= hhmm(total as int));
    }
    s
}

} // verus!
