//! Digit strings and decimal rendering.
//!
//! The spec side fixes what a sequence of decimal digit characters is
//! worth and what the decimal rendering of a number looks like; the exec
//! side parses and renders accordingly.

use vstd::prelude::*;
use vstd::string::StrSliceExecFns;
use vstd::string::StringExecFns;

verus! {

/// `c` is one of the ten ASCII digit characters.
pub open spec fn is_digit_char(c: char) -> bool {
    48 <= c as int && c as int <= 57
}

/// The value of a single digit character.
pub open spec fn digit_val(c: char) -> int {
    c as int - 48
}

/// The digit character for a value in `[0, 9]`.
pub open spec fn digit_char(d: int) -> char {
    ((d + 48) as u8) as char
}

/// Every character of `s` is a decimal digit.
pub open spec fn all_digits(s: Seq<char>) -> bool {
    forall|i: int| 0 <= i < s.len() ==> is_digit_char(#[trigger] s[i])
}

/// `c` occurs somewhere in `s`.
pub open spec fn contains_char(s: Seq<char>, c: char) -> bool {
    exists|i: int| 0 <= i < s.len() && s[i] == c
}

/// The number that the digit string `s` denotes, most significant digit
/// first; an empty string is worth zero.
pub open spec fn dec_val(s: Seq<char>) -> int
    decreases s.len(),
{
    if s.len() == 0 {
        0
    } else {
        dec_val(s.drop_last()) * 10 + digit_val(s.last())
    }
}

/// The decimal rendering of `n >= 0`, without padding; zero renders as "0".
pub open spec fn dec_digits(n: int) -> Seq<char>
    decreases n,
{
    if n <= 9 {
        seq![digit_char(n)]
    } else {
        dec_digits(n / 10).push(digit_char(n % 10))
    }
}

/// The decimal rendering of `n`, zero-padded on the left to at least two
/// characters.
pub open spec fn pad2(n: int) -> Seq<char> {
    if n <= 9 {
        seq!['0'] + dec_digits(n)
    } else {
        dec_digits(n)
    }
}

/// The decimal rendering of `n`, zero-padded on the left to at least four
/// characters.
pub open spec fn pad4(n: int) -> Seq<char> {
    if n <= 9 {
        seq!['0', '0', '0'] + dec_digits(n)
    } else if n <= 99 {
        seq!['0', '0'] + dec_digits(n)
    } else if n <= 999 {
        seq!['0'] + dec_digits(n)
    } else {
        dec_digits(n)
    }
}

/// A minute count rendered as zero-padded `HH:MM`.
pub open spec fn hhmm(total: int) -> Seq<char> {
    pad2(total / 60) + seq![':'] + pad2(total % 60)
}

/// A digit string is worth a nonnegative number.
pub proof fn lemma_dec_val_nonneg(s: Seq<char>)
    requires
        all_digits(s),
    ensures
        dec_val(s) >= 0,
    decreases s.len(),
{
    if s.len() > 0 {
        assert(all_digits(s.drop_last()));
        lemma_dec_val_nonneg(s.drop_last());
    }
}

/// Dropping characters from the end of a digit string cannot increase its
/// value.
pub proof fn lemma_dec_val_prefix_le(s: Seq<char>, j: int)
    requires
        all_digits(s),
        0 <= j <= s.len(),
    ensures
        dec_val(s.subrange(0, j)) <= dec_val(s),
    decreases s.len() - j,
{
    if j == s.len() {
        assert(s.subrange(0, j) =~= s);
    } else {
        lemma_dec_val_prefix_le(s, j + 1);
        let t = s.subrange(0, j + 1);
        assert(t.drop_last() =~= s.subrange(0, j));
        assert(all_digits(t.drop_last()));
        lemma_dec_val_nonneg(t.drop_last());
        assert(dec_val(t) == dec_val(t.drop_last()) * 10 + digit_val(s[j]));
        assert(dec_val(t.drop_last()) <= dec_val(t));
    }
}

/// Powers of ten, for digit-count bounds.
pub open spec fn pow10(k: int) -> int
    decreases k,
{
    if k <= 0 {
        1
    } else {
        10 * pow10(k - 1)
    }
}

/// A digit string of length `k` is worth less than `10^k`.
pub proof fn lemma_dec_val_upper(s: Seq<char>)
    requires
        all_digits(s),
    ensures
        dec_val(s) < pow10(s.len() as int),
    decreases s.len(),
{
    if s.len() > 0 {
        assert(all_digits(s.drop_last()));
        lemma_dec_val_upper(s.drop_last());
        assert(digit_val(s.last()) <= 9);
    }
}

/// A digit string that does not start with `0` is worth at least
/// `10^(len - 1)`.
pub proof fn lemma_dec_val_lower(s: Seq<char>)
    requires
        all_digits(s),
        s.len() > 0,
        s[0] != '0',
    ensures
        dec_val(s) >= pow10(s.len() - 1),
    decreases s.len(),
{
    if s.len() == 1 {
        reveal_with_fuel(dec_val, 2);
        assert(s.drop_last() =~= Seq::<char>::empty());
        assert(digit_val(s[0]) >= 1);
        assert(dec_val(s) == digit_val(s[0]));
    } else {
        assert(s.drop_last()[0] == s[0]);
        assert(all_digits(s.drop_last()));
        lemma_dec_val_lower(s.drop_last());
        assert(digit_val(s.last()) >= 0);
    }
}

/// The decimal rendering of a nonnegative number is all digits.
pub proof fn lemma_dec_digits_are_digits(n: int)
    requires
        n >= 0,
    ensures
        all_digits(dec_digits(n)),
    decreases n,
{
    if n <= 9 {
        assert(is_digit_char(digit_char(n)));
        assert forall|i: int| 0 <= i < dec_digits(n).len() implies is_digit_char(
            #[trigger] dec_digits(n)[i],
        ) by {
            assert(dec_digits(n)[i] == digit_char(n));
        }
    } else {
        lemma_dec_digits_are_digits(n / 10);
        let pre = dec_digits(n / 10);
        assert forall|i: int| 0 <= i < dec_digits(n).len() implies is_digit_char(
            #[trigger] dec_digits(n)[i],
        ) by {
            if i < pre.len() {
                assert(dec_digits(n)[i] == pre[i]);
            } else {
                assert(dec_digits(n)[i] == digit_char(n % 10));
                assert(is_digit_char(digit_char(n % 10)));
            }
        }
    }
}

/// How many characters the decimal rendering takes, for small ranges.
pub proof fn lemma_dec_digits_len(n: int)
    requires
        n >= 0,
    ensures
        n <= 9 ==> dec_digits(n).len() == 1,
        10 <= n <= 99 ==> dec_digits(n).len() == 2,
        100 <= n <= 999 ==> dec_digits(n).len() == 3,
        1000 <= n <= 9999 ==> dec_digits(n).len() == 4,
    decreases n,
{
    if n > 9 {
        lemma_dec_digits_len(n / 10);
    }
}

/// Rendering a number and reading the digits back gives the number.
pub proof fn lemma_dec_val_of_dec_digits(n: int)
    requires
        n >= 0,
    ensures
        dec_val(dec_digits(n)) == n,
    decreases n,
{
    if n <= 9 {
        reveal_with_fuel(dec_val, 2);
        let s = dec_digits(n);
        assert(s.drop_last() =~= Seq::<char>::empty());
        assert(dec_val(s) == digit_val(digit_char(n)));
        assert(digit_val(digit_char(n)) == n);
    } else {
        lemma_dec_val_of_dec_digits(n / 10);
        let s = dec_digits(n);
        assert(s.drop_last() =~= dec_digits(n / 10));
        assert(s.last() == digit_char(n % 10));
        assert(digit_val(digit_char(n % 10)) == n % 10);
        assert(dec_val(s) == dec_val(dec_digits(n / 10)) * 10 + (n % 10));
    }
}

/// A leading zero does not change what a digit string is worth.
pub proof fn lemma_dec_val_leading_zero(s: Seq<char>)
    ensures
        dec_val(seq!['0'] + s) == dec_val(s),
    decreases s.len(),
{
    let z = seq!['0'] + s;
    if s.len() == 0 {
        reveal_with_fuel(dec_val, 2);
        assert(z.drop_last() =~= Seq::<char>::empty());
        assert(z.last() == '0');
        assert(dec_val(z) == digit_val('0'));
    } else {
        lemma_dec_val_leading_zero(s.drop_last());
        assert(z.drop_last() =~= seq!['0'] + s.drop_last());
        assert(z.last() == s.last());
    }
}

/// Reading a canonical rendering back: a digit string without a leading
/// zero is the decimal rendering of its value.
pub proof fn lemma_dec_digits_of_val(s: Seq<char>)
    requires
        all_digits(s),
        s.len() > 0,
        s[0] != '0',
    ensures
        dec_digits(dec_val(s)) == s,
    decreases s.len(),
{
    if s.len() == 1 {
        reveal_with_fuel(dec_val, 2);
        assert(s.drop_last() =~= Seq::<char>::empty());
        assert(dec_val(s) == digit_val(s[0]));
        assert(digit_char(digit_val(s[0])) == s[0]);
        assert(dec_digits(dec_val(s)) =~= s);
    } else {
        let t = s.drop_last();
        assert(t[0] == s[0]);
        assert(all_digits(t));
        lemma_dec_digits_of_val(t);
        lemma_dec_val_lower(t);
        assert(pow10(t.len() - 1) >= 1) by {
            lemma_pow10_pos(t.len() - 1);
        }
        let v = dec_val(s);
        assert(v == dec_val(t) * 10 + digit_val(s.last()));
        assert(dec_val(t) >= 1);
        assert(0 <= digit_val(s.last()) <= 9);
        assert(v >= 10);
        assert(v / 10 == dec_val(t) && v % 10 == digit_val(s.last())) by {
            assert(v == dec_val(t) * 10 + digit_val(s.last()));
        }
        assert(dec_digits(v) == dec_digits(dec_val(t)).push(digit_char(v % 10)));
        assert(digit_char(digit_val(s.last())) == s.last());
        assert(dec_digits(v) =~= s);
    }
}

/// `10^k > 0` for every `k`.
pub proof fn lemma_pow10_pos(k: int)
    ensures
        pow10(k) >= 1,
    decreases k,
{
    if k > 0 {
        lemma_pow10_pos(k - 1);
    }
}

/// For `0 <= n <= 99`, the two-character padded rendering is all digits,
/// has length two, and is worth `n`.
pub proof fn lemma_pad2_props(n: int)
    requires
        0 <= n <= 99,
    ensures
        all_digits(pad2(n)),
        pad2(n).len() == 2,
        dec_val(pad2(n)) == n,
{
    lemma_dec_digits_are_digits(n);
    lemma_dec_digits_len(n);
    lemma_dec_val_of_dec_digits(n);
    if n <= 9 {
        lemma_dec_val_leading_zero(dec_digits(n));
        assert forall|i: int| 0 <= i < pad2(n).len() implies is_digit_char(
            #[trigger] pad2(n)[i],
        ) by {
            if i == 0 {
                assert(pad2(n)[0] == '0');
            } else {
                assert(pad2(n)[i] == dec_digits(n)[i - 1]);
            }
        }
    }
}

/// For `0 <= n <= 9999`, the four-character padded rendering is all
/// digits, has length four, and is worth `n`.
pub proof fn lemma_pad4_props(n: int)
    requires
        0 <= n <= 9999,
    ensures
        all_digits(pad4(n)),
        pad4(n).len() == 4,
        dec_val(pad4(n)) == n,
{
    lemma_dec_digits_are_digits(n);
    lemma_dec_digits_len(n);
    lemma_dec_val_of_dec_digits(n);
    let dd = dec_digits(n);
    if n <= 9 {
        assert(seq!['0', '0', '0'] + dd =~= seq!['0'] + (seq!['0'] + (seq!['0'] + dd)));
        lemma_dec_val_leading_zero(dd);
        lemma_dec_val_leading_zero(seq!['0'] + dd);
        lemma_dec_val_leading_zero(seq!['0'] + (seq!['0'] + dd));
    } else if n <= 99 {
        assert(seq!['0', '0'] + dd =~= seq!['0'] + (seq!['0'] + dd));
        lemma_dec_val_leading_zero(dd);
        lemma_dec_val_leading_zero(seq!['0'] + dd);
    } else if n <= 999 {
        lemma_dec_val_leading_zero(dd);
    }
    assert forall|i: int| 0 <= i < pad4(n).len() implies is_digit_char(#[trigger] pad4(n)[i]) by {
        let lead = 4 - dd.len();
        if i < lead {
            assert(pad4(n)[i] == '0');
        } else {
            assert(pad4(n)[i] == dd[i - lead]);
        }
    }
}

/// Any two-character digit string is the padded rendering of its value.
pub proof fn lemma_pad2_inverse(s: Seq<char>)
    requires
        all_digits(s),
        s.len() == 2,
    ensures
        pad2(dec_val(s)) == s,
{
    let v = dec_val(s);
    lemma_dec_val_nonneg(s);
    lemma_dec_val_upper(s);
    if s[0] != '0' {
        lemma_dec_val_lower(s);
        lemma_dec_digits_of_val(s);
        assert(pad2(v) =~= s);
    } else {
        let t = s.subrange(1, 2);
        assert(s =~= seq!['0'] + t);
        lemma_dec_val_leading_zero(t);
        assert(all_digits(t)) by {
            assert(t[0] == s[1]);
        }
        assert(v == dec_val(t));
        assert(v == digit_val(s[1])) by {
            reveal_with_fuel(dec_val, 2);
            assert(t.drop_last() =~= Seq::<char>::empty());
            assert(t.last() == s[1]);
        }
        assert(v <= 9);
        assert(dec_digits(v) =~= t) by {
            assert(digit_char(digit_val(s[1])) == s[1]);
        }
        assert(pad2(v) =~= s);
    }
}

/// Any four-character digit string is the padded rendering of its value.
pub proof fn lemma_pad4_inverse(s: Seq<char>)
    requires
        all_digits(s),
        s.len() == 4,
    ensures
        pad4(dec_val(s)) == s,
{
    let v = dec_val(s);
    lemma_dec_val_nonneg(s);
    lemma_dec_val_upper(s);
    assert(pow10(4) == 10000) by {
        reveal_with_fuel(pow10, 5);
    }
    if s[0] != '0' {
        lemma_dec_val_lower(s);
        assert(pow10(3) == 1000) by {
            reveal_with_fuel(pow10, 5);
        }
        lemma_dec_digits_of_val(s);
        assert(pad4(v) =~= s);
    } else {
        let t = s.subrange(1, 4);
        assert(s =~= seq!['0'] + t);
        assert(all_digits(t)) by {
            assert forall|i: int| 0 <= i < t.len() implies is_digit_char(#[trigger] t[i]) by {
                assert(t[i] == s[i + 1]);
            }
        }
        lemma_dec_val_leading_zero(t);
        assert(v == dec_val(t));
        lemma_pad3_inverse(t);
        assert(pad4(v) =~= s);
    }
}

/// Any three-character digit string, left-padded with one zero, is the
/// four-character padded rendering of its value.
proof fn lemma_pad3_inverse(s: Seq<char>)
    requires
        all_digits(s),
        s.len() == 3,
    ensures
        dec_val(s) <= 999,
        seq!['0'] + (if dec_val(s) <= 9 {
            seq!['0', '0'] + dec_digits(dec_val(s))
        } else if dec_val(s) <= 99 {
            seq!['0'] + dec_digits(dec_val(s))
        } else {
            dec_digits(dec_val(s))
        }) =~= seq!['0'] + s,
{
    let v = dec_val(s);
    lemma_dec_val_nonneg(s);
    lemma_dec_val_upper(s);
    assert(pow10(3) == 1000) by {
        reveal_with_fuel(pow10, 4);
    }
    if s[0] != '0' {
        lemma_dec_val_lower(s);
        assert(pow10(2) == 100) by {
            reveal_with_fuel(pow10, 4);
        }
        lemma_dec_digits_of_val(s);
    } else {
        let t = s.subrange(1, 3);
        assert(s =~= seq!['0'] + t);
        assert(all_digits(t)) by {
            assert forall|i: int| 0 <= i < t.len() implies is_digit_char(#[trigger] t[i]) by {
                assert(t[i] == s[i + 1]);
            }
        }
        lemma_dec_val_leading_zero(t);
        assert(v == dec_val(t));
        lemma_dec_val_upper(t);
        assert(pow10(2) == 100) by {
            reveal_with_fuel(pow10, 3);
        }
        lemma_pad2_inverse(t);
        assert(pad2(v) == t);
        if v <= 9 {
            assert(seq!['0', '0'] + dec_digits(v) =~= seq!['0'] + (seq!['0'] + dec_digits(v)));
            assert(seq!['0'] + dec_digits(v) =~= pad2(v));
        }
    }
}

/// A digit range of at most four characters cannot be worth more than a
/// `u32` holds; discharges the overflow disjunct of a failed
/// small-range parse.
pub proof fn lemma_small_digit_range(s: Seq<char>, from: int, to: int)
    requires
        0 <= from <= to <= s.len(),
        to - from <= 4,
    ensures
        all_digits(s.subrange(from, to)) ==> dec_val(s.subrange(from, to)) <= u32::MAX,
{
    let part = s.subrange(from, to);
    if all_digits(part) {
        lemma_dec_val_upper(part);
        assert(pow10(4) == 10000 && pow10(3) == 1000 && pow10(2) == 100 && pow10(1) == 10 && pow10(
            0,
        ) == 1) by {
            reveal_with_fuel(pow10, 5);
        }
    }
}

/// Appends `d`'s digit character to `s`.
fn push_digit(s: &mut String, d: u32)
    requires
        d <= 9,
    ensures
        final(s)@ == old(s)@ + seq![digit_char(d as int)],
{
    let part: &str = match d {
        0 => "0",
        1 => "1",
        2 => "2",
        3 => "3",
        4 => "4",
        5 => "5",
        6 => "6",
        7 => "7",
        8 => "8",
        _ => "9",
    };
    proof {
        reveal_strlit("0");
        reveal_strlit("1");
        reveal_strlit("2");
        reveal_strlit("3");
        reveal_strlit("4");
        reveal_strlit("5");
        reveal_strlit("6");
        reveal_strlit("7");
        reveal_strlit("8");
        reveal_strlit("9");
        assert(part@ =~= seq![digit_char(d as int)]);
    }
    s.append(part);
}

/// Appends the unpadded decimal rendering of `n`.
pub fn push_dec(s: &mut String, n: u32)
    ensures
        final(s)@ == old(s)@ + dec_digits(n as int),
    decreases n,
{
    if n <= 9 {
        push_digit(s, n);
    } else {
        push_dec(s, n / 10);
        push_digit(s, n % 10);
        proof {
            assert(old(s)@ + dec_digits(n as int / 10) + seq![digit_char(n as int % 10)] =~= old(
                s,
            )@ + dec_digits(n as int));
        }
    }
}

/// Appends the decimal rendering of `n`, zero-padded to at least two
/// characters.
pub fn push_pad2(s: &mut String, n: u32)
    ensures
        final(s)@ == old(s)@ + pad2(n as int),
{
    if n <= 9 {
        proof {
            reveal_strlit("0");
        }
        s.append("0");
        push_digit(s, n);
        proof {
            assert(old(s)@ + "0"@ + seq![digit_char(n as int)] =~= old(s)@ + pad2(n as int));
        }
    } else {
        push_dec(s, n);
    }
}

/// Appends the decimal rendering of `n`, zero-padded to at least four
/// characters.
pub fn push_pad4(s: &mut String, n: u32)
    ensures
        final(s)@ == old(s)@ + pad4(n as int),
{
    if n <= 9 {
        proof {
            reveal_strlit("000");
        }
        s.append("000");
        push_digit(s, n);
        proof {
            assert("000"@ =~= seq!['0', '0', '0']);
            assert(old(s)@ + "000"@ + seq![digit_char(n as int)] =~= old(s)@ + pad4(n as int));
        }
    } else if n <= 99 {
        proof {
            reveal_strlit("00");
        }
        s.append("00");
        push_dec(s, n);
        proof {
            assert("00"@ =~= seq!['0', '0']);
            assert(old(s)@ + "00"@ + dec_digits(n as int) =~= old(s)@ + pad4(n as int));
        }
    } else if n <= 999 {
        proof {
            reveal_strlit("0");
        }
        s.append("0");
        push_dec(s, n);
        proof {
            assert("0"@ =~= seq!['0']);
            assert(old(s)@ + "0"@ + dec_digits(n as int) =~= old(s)@ + pad4(n as int));
        }
    } else {
        push_dec(s, n);
    }
}

/// Whether the digit character at a given position agrees with `is_digit_char`.
fn is_digit(c: char) -> (r: bool)
    ensures
        r == is_digit_char(c),
{
    let v = c as u32;
    48 <= v && v <= 57
}

/// Parses the characters of `s` in `[from, to)` as an unsigned decimal
/// number. Fails if the range is empty, holds a non-digit, or denotes a
/// value above `u32::MAX`.
pub fn parse_digits_range(s: &str, from: usize, to: usize) -> (r: Option<u32>)
    requires
        from <= to <= s@.len(),
    ensures
        ({
            let part = s@.subrange(from as int, to as int);
            match r {
                Some(v) => from < to && all_digits(part) && v == dec_val(part),
                None => from == to || !all_digits(part) || dec_val(part) > u32::MAX,
            }
        }),
{
    let ghost part = s@.subrange(from as int, to as int);
    if from == to {
        return None;
    }
    let mut acc: u64 = 0;
    let mut i: usize = from;
    while i < to
        invariant
            from <= i <= to <= s@.len(),
            part == s@.subrange(from as int, to as int),
            forall|j: int| from <= j < i ==> is_digit_char(#[trigger] s@[j]),
            acc == dec_val(s@.subrange(from as int, i as int)),
            acc <= u32::MAX,
        decreases to - i,
    {
        let c = s.get_char(i);
        if !is_digit(c) {
            assert(!all_digits(part)) by {
                assert(part[i - from] == s@[i as int]);
            }
            return None;
        }
        let d = (c as u32) - 48;
        proof {
            let pre = s@.subrange(from as int, i as int);
            let ext = s@.subrange(from as int, i as int + 1);
            assert(ext.drop_last() =~= pre);
            assert(ext.last() == s@[i as int]);
            assert(dec_val(ext) == dec_val(pre) * 10 + digit_val(s@[i as int]));
        }
        acc = acc * 10 + (d as u64);
        i = i + 1;
        if acc > u32::MAX as u64 {
            proof {
                let pre = s@.subrange(from as int, i as int);
                assert(pre =~= part.subrange(0, i - from));
                if all_digits(part) {
                    lemma_dec_val_prefix_le(part, i - from);
                }
            }
            return None;
        }
    }
    proof {
        assert(s@.subrange(from as int, i as int) =~= part);
        assert(all_digits(part)) by {
            assert forall|j: int| 0 <= j < part.len() implies is_digit_char(#[trigger] part[j]) by {
                assert(part[j] == s@[from + j]);
            }
        }
    }
    Some(acc as u32)
}

/// Whether `c` occurs among the characters of `s` in `[0, s@.len())`.
pub fn str_contains_char(s: &str, c: char) -> (r: bool)
    ensures
        r == contains_char(s@, c),
{
    let n = s.unicode_len();
    let mut i: usize = 0;
    while i < n
        invariant
            0 <= i <= n == s@.len(),
            forall|j: int| 0 <= j < i ==> s@[j] != c,
        decreases n - i,
    {
        if s.get_char(i) == c {
            return true;
        }
        i = i + 1;
    }
    false
}

} // verus!
