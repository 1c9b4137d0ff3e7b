//! Text helpers: comparing strings, and writing and reading decimal numbers.

use vstd::prelude::*;
use vstd::utf8::*;

verus! {

/// Tells whether two strings hold the same characters.
pub fn same_text(a: &str, b: &str) -> (same: bool)
    ensures
        same == (a@ == b@),
{
    let left = a.as_bytes();
    let right = b.as_bytes();
    proof {
        encode_utf8_decode_utf8(a@);
        encode_utf8_decode_utf8(b@);
    }
    if left.len() != right.len() {
        return false;
    }
    let mut i: usize = 0;
    while i < left.len()
        invariant
            i <= left@.len(),
            left@.len() == right@.len(),
            left@ == encode_utf8(a@),
            right@ == encode_utf8(b@),
            decode_utf8(encode_utf8(a@)) == a@,
            decode_utf8(encode_utf8(b@)) == b@,
            forall|k: int| 0 <= k < i ==> left@[k] == right@[k],
        decreases left@.len() - i,
    {
        if left[i] != right[i] {
            return false;
        }
        i += 1;
    }
    assert(left@ =~= right@);
    true
}

/// The character that writes a digit.
pub open spec fn digit_char(digit: nat) -> char
    recommends
        digit < 10,
{
    if digit == 0 {
        '0'
    } else if digit == 1 {
        '1'
    } else if digit == 2 {
        '2'
    } else if digit == 3 {
        '3'
    } else if digit == 4 {
        '4'
    } else if digit == 5 {
        '5'
    } else if digit == 6 {
        '6'
    } else if digit == 7 {
        '7'
    } else if digit == 8 {
        '8'
    } else {
        '9'
    }
}

/// The digit that a character writes, if it writes one.
pub open spec fn digit_value(c: char) -> Option<nat> {
    if c == '0' {
        Some(0)
    } else if c == '1' {
        Some(1)
    } else if c == '2' {
        Some(2)
    } else if c == '3' {
        Some(3)
    } else if c == '4' {
        Some(4)
    } else if c == '5' {
        Some(5)
    } else if c == '6' {
        Some(6)
    } else if c == '7' {
        Some(7)
    } else if c == '8' {
        Some(8)
    } else if c == '9' {
        Some(9)
    } else {
        None
    }
}

/// A number in decimal, without sign or leading zeros.
pub open spec fn decimal_digits(n: nat) -> Seq<char>
    decreases n,
{
    if n < 10 {
        seq![digit_char(n)]
    } else {
        decimal_digits(n / 10).push(digit_char(n % 10))
    }
}

/// The number that a run of digits writes, leading zeros allowed. `None` for the
/// empty text and for a text that holds anything but digits.
pub open spec fn digits_value(text: Seq<char>) -> Option<nat>
    decreases text.len(),
{
    if text.len() == 0 {
        None
    } else {
        match digit_value(text.last()) {
            None => None,
            Some(digit) => if text.len() == 1 {
                Some(digit)
            } else {
                match digits_value(text.drop_last()) {
                    None => None,
                    Some(high) => Some(10 * high + digit),
                }
            },
        }
    }
}

/// The number that a text writes in decimal, without sign or leading zeros.
pub open spec fn decimal_value(text: Seq<char>) -> Option<nat> {
    if text.len() > 1 && text[0] == '0' {
        None
    } else {
        digits_value(text)
    }
}

/// What [`parse_u32`] returns: the number that the text writes, if it fits.
pub open spec fn u32_value(text: Seq<char>) -> Option<u32> {
    match decimal_value(text) {
        Some(n) => if n <= u32::MAX {
            Some(n as u32)
        } else {
            None
        },
        None => None,
    }
}

/// Reading a number back from its decimal text gives the number.
pub proof fn lemma_decimal_round_trip(n: nat)
    ensures
        decimal_value(decimal_digits(n)) == Some(n),
        decimal_digits(n).len() >= 1,
        n >= 10 ==> decimal_digits(n)[0] != '0' && decimal_digits(n).len() >= 2,
    decreases n,
{
    if n >= 10 {
        lemma_decimal_round_trip(n / 10);
        let high = decimal_digits(n / 10);
        let text = decimal_digits(n);
        assert(text.drop_last() =~= high);
        assert(text.last() == digit_char(n % 10));
        assert(text[0] == high[0]);
        if n / 10 < 10 {
            assert(high =~= seq![digit_char(n / 10)]);
        }
    }
}

/// A text that reads as a number is that number's decimal text: no two texts
/// write the same number.
pub proof fn lemma_decimal_is_canonical(text: Seq<char>)
    requires
        decimal_value(text) is Some,
    ensures
        decimal_digits(decimal_value(text).unwrap()) == text,
    decreases text.len(),
{
    let n = decimal_value(text).unwrap();
    if text.len() == 1 {
        assert(text =~= seq![digit_char(n)]);
    } else {
        let high = text.drop_last();
        assert(high[0] == text[0]);
        assert(digits_value(high) is Some);
        if high.len() == 1 {
            assert(digits_value(high).unwrap() != 0);
        } else {
            lemma_leading_digit(high);
        }
        lemma_decimal_is_canonical(high);
        assert(n / 10 == digits_value(high).unwrap());
        assert(text =~= high.push(text.last()));
    }
}

/// A run of digits that does not start with a zero writes a number that is not
/// zero, and every further digit makes it at least ten times larger.
proof fn lemma_leading_digit(text: Seq<char>)
    requires
        digits_value(text) is Some,
        text[0] != '0',
    ensures
        digits_value(text).unwrap() >= 1,
        text.len() >= 2 ==> digits_value(text).unwrap() >= 10,
    decreases text.len(),
{
    if text.len() >= 2 {
        let high = text.drop_last();
        assert(high[0] == text[0]);
        lemma_leading_digit(high);
    }
}

/// A longer run of digits writes a number that is no smaller than the number
/// written by any part of it that starts at the same place.
proof fn lemma_prefix_value(text: Seq<char>, len: int)
    requires
        1 <= len <= text.len(),
        digits_value(text) is Some,
    ensures
        digits_value(text.take(len)) is Some,
        digits_value(text.take(len)).unwrap() <= digits_value(text).unwrap(),
    decreases text.len(),
{
    if len == text.len() {
        assert(text.take(len) =~= text);
    } else {
        let high = text.drop_last();
        assert(high.take(len) =~= text.take(len));
        lemma_prefix_value(high, len);
    }
}

/// A run of digits holds nothing but ASCII characters.
proof fn lemma_digits_are_ascii(text: Seq<char>)
    requires
        digits_value(text) is Some,
    ensures
        is_ascii_chars(text),
    decreases text.len(),
{
    if text.len() >= 2 {
        let high = text.drop_last();
        lemma_digits_are_ascii(high);
        assert forall|i: int| 0 <= i < text.len() implies '\0' <= #[trigger] text[i] <= '\u{7f}' by {
            if i < text.len() - 1 {
                assert(text[i] == high[i]);
            }
        }
    }
}

/// Writes a number in decimal.
pub fn decimal(n: u32) -> (text: String)
    ensures
        text@ == decimal_digits(n as nat),
    decreases n,
{
    let last = digit_text((n % 10) as u8);
    if n < 10 {
        last.to_owned()
    } else {
        let mut text = decimal(n / 10);
        text.append(last);
        text
    }
}

/// The one-character text of a digit.
fn digit_text(digit: u8) -> (text: &'static str)
    requires
        digit < 10,
    ensures
        text@ == seq![digit_char(digit as nat)],
{
    proof {
        reveal_strlit("0");
        reveal_strlit("1");
        reveal_strlit("2");
        reveal_strlit("3");
        reveal_strlit("4");
        reveal_strlit("5");
        reveal_strlit("6");
        reveal_strlit("7");
        reveal_strlit("8");
        reveal_strlit("9");
    }
    let text = if digit == 0 {
        "0"
    } else if digit == 1 {
        "1"
    } else if digit == 2 {
        "2"
    } else if digit == 3 {
        "3"
    } else if digit == 4 {
        "4"
    } else if digit == 5 {
        "5"
    } else if digit == 6 {
        "6"
    } else if digit == 7 {
        "7"
    } else if digit == 8 {
        "8"
    } else {
        "9"
    };
    assert(text@ =~= seq![digit_char(digit as nat)]);
    text
}

/// Reads a number written in decimal, without sign or leading zeros, that fits in
/// 32 bits.
pub fn parse_u32(text: &str) -> (value: Option<u32>)
    ensures
        value == u32_value(text@),
{
    if !text.is_ascii() {
        proof {
            if digits_value(text@) is Some {
                lemma_digits_are_ascii(text@);
            }
        }
        return None;
    }
    let len = text.unicode_len();
    if len == 0 {
        return None;
    }
    if len > 1 && text.get_ascii(0) == 48 {
        return None;
    }
    let mut total: u64 = 0;
    let mut i: usize = 0;
    while i < len
        invariant
            i <= len,
            len == text@.len(),
            is_ascii_chars(text@),
            total <= u32::MAX,
            i == 0 ==> total == 0,
            i > 0 ==> digits_value(text@.take(i as int)) == Some(total as nat),
        decreases len - i,
    {
        let byte = text.get_ascii(i);
        let ghost part = text@.take(i as int + 1);
        proof {
            is_ascii_chars_nat_bound(text@);
            assert(part.last() == text@[i as int]);
            assert(part.drop_last() =~= text@.take(i as int));
        }
        if byte < 48 || byte > 57 {
            proof {
                assert(digit_value(text@[i as int]) is None);
                if digits_value(text@) is Some {
                    lemma_prefix_value(text@, i as int + 1);
                }
            }
            return None;
        }
        let digit: u64 = (byte - 48) as u64;
        assert(digit_value(text@[i as int]) == Some(digit as nat));
        let next: u64 = 10 * total + digit;
        assert(digits_value(part) == Some(next as nat));
        if next > 0xffff_ffff {
            proof {
                if digits_value(text@) is Some {
                    lemma_prefix_value(text@, i as int + 1);
                }
            }
            return None;
        }
        total = next;
        i += 1;
    }
    assert(text@.take(len as int) =~= text@);
    Some(total as u32)
}

} // verus!
