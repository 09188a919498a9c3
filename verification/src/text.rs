//! Small operations on text: comparing, joining, and reading a decimal
//! integer.

use vstd::prelude::*;
use vstd::string::*;
use vstd::utf8::encode_utf8_decode_utf8;

verus! {

/// The characters of each string of `items`, in the same order.
pub open spec fn texts_of(items: Seq<String>) -> Seq<Seq<char>> {
    Seq::new(items.len(), |i: int| items[i]@)
}

/// The strings of `items` laid end to end, with `separator` between each
/// two neighbours.
pub open spec fn joined(items: Seq<Seq<char>>, separator: Seq<char>) -> Seq<char>
    decreases items.len(),
{
    if items.len() == 0 {
        Seq::empty()
    } else if items.len() == 1 {
        items[0]
    } else {
        joined(items.drop_last(), separator) + separator + items.last()
    }
}

/// One item joins to itself, and two items join to the first, the
/// separator and the second.
pub proof fn lemma_joined_few(first: Seq<char>, second: Seq<char>, separator: Seq<char>)
    ensures
        joined(seq![first], separator) == first,
        joined(seq![first, second], separator) == first + separator + second,
{
    let pair = seq![first, second];
    assert(pair.drop_last() =~= seq![first]);
    assert(joined(seq![first], separator) == first);
    assert(pair.last() == second);
}

/// Whether `c` is one of the ten decimal digits.
pub open spec fn is_digit(c: char) -> bool {
    '0' <= c <= '9'
}

/// The number that the digits of `digits` spell in base ten.
pub open spec fn decimal(digits: Seq<char>) -> int
    decreases digits.len(),
{
    if digits.len() == 0 {
        0
    } else {
        decimal(digits.drop_last()) * 10 + (digits.last() as int - '0' as int)
    }
}

/// The digits of `text`: all of it but a leading sign.
pub open spec fn digits_of(text: Seq<char>) -> Seq<char> {
    if text.len() > 0 && (text[0] == '-' || text[0] == '+') {
        text.skip(1)
    } else {
        text
    }
}

/// The integer that `text` spells: an optional sign, `+` or `-`, then one
/// decimal digit or more and nothing else.
pub open spec fn integer_of(text: Seq<char>) -> Option<int> {
    let digits = digits_of(text);
    if digits.len() == 0 || !(forall|i: int| 0 <= i < digits.len() ==> is_digit(#[trigger] digits[i])) {
        None
    } else if text[0] == '-' {
        Some(-decimal(digits))
    } else {
        Some(decimal(digits))
    }
}

/// The integer that `text` spells, where it fits 64 bits with a sign.
pub open spec fn i64_of(text: Seq<char>) -> Option<i64> {
    match integer_of(text) {
        Some(n) => if i64::MIN <= n <= i64::MAX {
            Some(n as i64)
        } else {
            None
        },
        None => None,
    }
}

/// A number only grows when digits are written behind it.
proof fn lemma_decimal_grows(digits: Seq<char>, n: int)
    requires
        0 <= n <= digits.len(),
        forall|i: int| 0 <= i < digits.len() ==> is_digit(#[trigger] digits[i]),
    ensures
        0 <= decimal(digits.take(n)) <= decimal(digits),
    decreases digits.len() - n,
{
    if n == digits.len() {
        assert(digits.take(n) =~= digits);
        lemma_decimal_nonnegative(digits);
    } else {
        lemma_decimal_grows(digits, n + 1);
        assert(digits.take(n + 1).drop_last() =~= digits.take(n));
        assert(is_digit(digits[n]));
        lemma_decimal_nonnegative(digits.take(n));
    }
}

proof fn lemma_decimal_nonnegative(digits: Seq<char>)
    requires
        forall|i: int| 0 <= i < digits.len() ==> is_digit(#[trigger] digits[i]),
    ensures
        0 <= decimal(digits),
    decreases digits.len(),
{
    if digits.len() > 0 {
        lemma_decimal_nonnegative(digits.drop_last());
        assert(is_digit(digits[digits.len() - 1]));
    }
}

/// Whether two strings hold the same characters.
pub fn same_text(left: &str, right: &str) -> (same: bool)
    ensures
        same == (left@ == right@),
{
    let left_bytes = left.as_bytes();
    let right_bytes = right.as_bytes();
    proof {
        // Two strings with the same bytes hold the same characters.
        encode_utf8_decode_utf8(left@);
        encode_utf8_decode_utf8(right@);
    }
    if left_bytes.len() != right_bytes.len() {
        return false;
    }
    let mut i: usize = 0;
    while i < left_bytes.len()
        invariant
            i <= left_bytes.len(),
            left_bytes.len() == right_bytes.len(),
            left_bytes@ == left.spec_bytes(),
            right_bytes@ == right.spec_bytes(),
            forall|k: int| 0 <= k < i ==> left_bytes@[k] == right_bytes@[k],
        decreases left_bytes.len() - i,
    {
        if left_bytes[i] != right_bytes[i] {
            return false;
        }
        i += 1;
    }
    assert(left_bytes@ =~= right_bytes@);
    true
}

/// Joins `items` into one string, with `separator` between each two
/// neighbours.
pub fn join(items: &Vec<String>, separator: &str) -> (out: String)
    ensures
        out@ == joined(texts_of(items@), separator@),
{
    let mut out = String::new();
    let mut i: usize = 0;
    while i < items.len()
        invariant
            i <= items.len(),
            out@ == joined(texts_of(items@).take(i as int), separator@),
        decreases items.len() - i,
    {
        if i > 0 {
            out.append(separator);
        }
        out.append(items[i].as_str());
        proof {
            let texts = texts_of(items@);
            assert(texts.take(i + 1).drop_last() =~= texts.take(i as int));
            assert(texts.take(i + 1).last() == texts[i as int]);
        }
        i += 1;
    }
    proof {
        assert(texts_of(items@).take(items.len() as int) =~= texts_of(items@));
    }
    out
}

/// Reads a decimal integer of 64 bits: an optional sign, then digits only.
/// Text that spells no integer, or one out of range, gives `None`.
pub fn parse_i64(text: &str) -> (number: Option<i64>)
    ensures
        number == i64_of(text@),
{
    if !text.is_ascii() {
        proof {
            let i = choose|i: int| 0 <= i < text@.len() && !('\0' <= #[trigger] text@[i] <= '\u{7f}');
            let digits = digits_of(text@);
            if i == 0 {
                assert(digits.len() > 0 ==> !is_digit(digits[0]));
            } else {
                assert(!is_digit(digits[i - (text@.len() - digits.len())]));
            }
        }
        return None;
    }
    let bytes = text.as_bytes();
    proof {
        broadcast use is_ascii_spec_bytes;
    }
    let len = bytes.len();
    if len == 0 {
        return None;
    }
    let negative = bytes[0] == 45u8;
    let start: usize = if bytes[0] == 45u8 || bytes[0] == 43u8 {
        1
    } else {
        0
    };
    let ghost digits = digits_of(text@);
    assert(digits =~= text@.skip(start as int));
    if start == len {
        return None;
    }
    let mut magnitude: u64 = 0;
    let mut i: usize = start;
    while i < len
        invariant
            start <= i <= len,
            len == text@.len(),
            bytes@ =~= Seq::new(text@.len(), |k: int| text@[k] as u8),
            is_ascii(text),
            digits == digits_of(text@),
            digits == text@.skip(start as int),
            forall|k: int| 0 <= k < i - start ==> is_digit(#[trigger] digits[k]),
            magnitude == decimal(digits.take(i - start)),
            magnitude <= 0x8000_0000_0000_0000u64,
        decreases len - i,
    {
        let byte = bytes[i];
        assert(byte == text@[i as int] as u8);
        assert(digits[i - start] == text@[i as int]);
        if byte < 48u8 || byte > 57u8 {
            assert(!is_digit(digits[i - start]));
            return None;
        }
        let digit: u64 = (byte - 48u8) as u64;
        proof {
            assert(is_digit(digits[i - start]));
            assert(digits.take(i - start + 1).drop_last() =~= digits.take(i - start));
            assert(decimal(digits.take(i - start + 1)) == magnitude * 10 + digit);
        }
        if magnitude > (0x8000_0000_0000_0000u64 - digit) / 10 {
            proof {
                if forall|k: int| 0 <= k < digits.len() ==> is_digit(#[trigger] digits[k]) {
                    lemma_decimal_grows(digits, i - start + 1);
                }
            }
            return None;
        }
        magnitude = magnitude * 10 + digit;
        i += 1;
    }
    assert(digits.take(len - start) =~= digits);
    if negative {
        if magnitude == 0x8000_0000_0000_0000u64 {
            Some(i64::MIN)
        } else {
            Some(0 - (magnitude as i64))
        }
    } else if magnitude > 0x7fff_ffff_ffff_ffffu64 {
        None
    } else {
        Some(magnitude as i64)
    }
}

} // verus!
