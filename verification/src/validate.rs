//! The two field checks: which texts are a brightness, and which a colour.

use crate::text::chars_of;
use vstd::prelude::*;

verus! {

/// One of the ten decimal digits.
pub open spec fn is_digit(c: char) -> bool {
    '0' <= c <= '9'
}

/// The number that a decimal digit stands for.
pub open spec fn digit_value(c: char) -> nat {
    (c as u32 - '0' as u32) as nat
}

/// The number that a run of decimal digits stands for, read in base ten.
/// Leading zeros add nothing; the empty run stands for zero.
pub open spec fn decimal_value(digits: Seq<char>) -> nat
    decreases digits.len(),
{
    if digits.len() == 0 {
        0
    } else {
        10 * decimal_value(digits.drop_last()) + digit_value(digits.last())
    }
}

/// Whether every character of `s` is a decimal digit.
pub open spec fn all_digits(s: Seq<char>) -> bool {
    forall|i: int| 0 <= i < s.len() ==> is_digit(#[trigger] s[i])
}

/// What follows the sign: `s` without a leading `+`, if it has one.
pub open spec fn unsigned_part(s: Seq<char>) -> Seq<char> {
    if s.len() > 0 && s[0] == '+' {
        s.skip(1)
    } else {
        s
    }
}

/// A brightness is a decimal numeral for a number from 0 to 255: an optional
/// `+`, then at least one digit and nothing but digits. No white space, no
/// `-`, no other character; leading zeros are allowed.
pub open spec fn is_brightness(s: Seq<char>) -> bool {
    let digits = unsigned_part(s);
    &&& digits.len() > 0
    &&& all_digits(digits)
    &&& decimal_value(digits) <= 255
}

/// The level that a brightness text stands for.
pub open spec fn brightness_value(s: Seq<char>) -> nat {
    decimal_value(unsigned_part(s))
}

/// One colour channel, written as two characters: fully off or fully on.
pub open spec fn is_channel(high: char, low: char) -> bool {
    (high == '0' && low == '0') || (high == 'F' && low == 'F')
}

/// A colour is three channels, red, green and blue, and nothing else.
pub open spec fn is_color(s: Seq<char>) -> bool {
    &&& s.len() == 6
    &&& is_channel(s[0], s[1])
    &&& is_channel(s[2], s[3])
    &&& is_channel(s[4], s[5])
}

/// The eight colours written out: each of red, green and blue off or on.
pub open spec fn is_listed_color(s: Seq<char>) -> bool {
    ||| s == "000000"@
    ||| s == "0000FF"@
    ||| s == "00FF00"@
    ||| s == "00FFFF"@
    ||| s == "FF0000"@
    ||| s == "FF00FF"@
    ||| s == "FFFF00"@
    ||| s == "FFFFFF"@
}

/// A text is a colour exactly when it is one of the eight listed ones.
pub proof fn lemma_color_is_listed(s: Seq<char>)
    ensures
        is_color(s) <==> is_listed_color(s),
{
    reveal_strlit("000000");
    reveal_strlit("0000FF");
    reveal_strlit("00FF00");
    reveal_strlit("00FFFF");
    reveal_strlit("FF0000");
    reveal_strlit("FF00FF");
    reveal_strlit("FFFF00");
    reveal_strlit("FFFFFF");
    if is_color(s) {
        let red = s[0] == 'F';
        let green = s[2] == 'F';
        let blue = s[4] == 'F';
        if !red && !green && !blue {
            assert(s =~= "000000"@);
        } else if !red && !green && blue {
            assert(s =~= "0000FF"@);
        } else if !red && green && !blue {
            assert(s =~= "00FF00"@);
        } else if !red && green && blue {
            assert(s =~= "00FFFF"@);
        } else if red && !green && !blue {
            assert(s =~= "FF0000"@);
        } else if red && !green && blue {
            assert(s =~= "FF00FF"@);
        } else if red && green && !blue {
            assert(s =~= "FFFF00"@);
        } else {
            assert(s =~= "FFFFFF"@);
        }
    }
}

/// A run of digits stands for at least as much as any run it starts with.
pub proof fn lemma_decimal_value_grows(digits: Seq<char>, k: int)
    requires
        0 <= k <= digits.len(),
    ensures
        decimal_value(digits.take(k)) <= decimal_value(digits),
    decreases digits.len(),
{
    if k == digits.len() {
        assert(digits.take(k) =~= digits);
    } else {
        assert(digits.drop_last().take(k) =~= digits.take(k));
        lemma_decimal_value_grows(digits.drop_last(), k);
    }
}

/// The level that `s` stands for, if `s` is a brightness.
pub fn parse_brightness(s: &str) -> (level: Option<u8>)
    ensures
        level is Some <==> is_brightness(s@),
        level matches Some(v) ==> v == brightness_value(s@),
{
    let chars = chars_of(s);
    let n: usize = chars.len();
    let first: usize = if n > 0 && chars[0] == '+' {
        1
    } else {
        0
    };
    let ghost digits = unsigned_part(s@);
    assert(digits =~= s@.skip(first as int));
    if first == n {
        return None;
    }
    let mut value: u32 = 0;
    let mut i: usize = first;
    assert(digits.take(0) =~= Seq::<char>::empty());
    while i < n
        invariant
            first <= i <= n,
            n == chars.len(),
            chars@ == s@,
            digits == s@.skip(first as int),
            digits == unsigned_part(s@),
            all_digits(digits.take(i - first)),
            value == decimal_value(digits.take(i - first)),
            value <= 255,
        decreases n - i,
    {
        let c = chars[i];
        let ghost seen = digits.take(i - first + 1);
        assert(seen.drop_last() =~= digits.take(i - first));
        assert(seen.last() == c);
        if !('0' <= c && c <= '9') {
            assert(!is_digit(digits[i - first]));
            return None;
        }
        let next: u32 = value * 10 + (c as u32 - '0' as u32);
        if next > 255 {
            proof {
                lemma_decimal_value_grows(digits, i - first + 1);
            }
            return None;
        }
        value = next;
        i += 1;
    }
    assert(digits.take(n - first) =~= digits);
    Some(value as u8)
}

/// Whether `s` is a brightness: a decimal numeral for a number from 0 to 255.
pub fn is_valid_brightness(s: &str) -> (ok: bool)
    ensures
        ok == is_brightness(s@),
{
    parse_brightness(s).is_some()
}

/// Whether `s` is a colour that the keyboard accepts: one of the eight.
pub fn is_valid_color(s: &str) -> (ok: bool)
    ensures
        ok == is_color(s@),
        ok == is_listed_color(s@),
{
    proof {
        lemma_color_is_listed(s@);
    }
    let chars = chars_of(s);
    chars.len() == 6 && is_on_or_off(chars[0], chars[1]) && is_on_or_off(chars[2], chars[3])
        && is_on_or_off(chars[4], chars[5])
}

/// Whether two characters spell a channel that is fully off or fully on.
fn is_on_or_off(high: char, low: char) -> (ok: bool)
    ensures
        ok == is_channel(high, low),
{
    (high == '0' && low == '0') || (high == 'F' && low == 'F')
}

} // verus!
