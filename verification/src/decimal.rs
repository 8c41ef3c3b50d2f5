//! Unsigned integers as decimal text.

use vstd::prelude::*;

verus! {

/// ASCII `0`; the digits follow it in order.
pub const ASCII_ZERO: u8 = 48;

/// ASCII `+`.
pub const ASCII_PLUS: u8 = 43;

/// Whether `byte` is an ASCII decimal digit.
pub open spec fn is_digit(byte: u8) -> bool {
    ASCII_ZERO <= byte <= ASCII_ZERO + 9
}

/// Whether `text` holds decimal digits only.
pub open spec fn all_digits(text: Seq<u8>) -> bool {
    forall|i: int| 0 <= i < text.len() ==> is_digit(#[trigger] text[i])
}

/// The shortest decimal notation of `n`: no sign, no leading zero.
pub open spec fn decimal_text(n: nat) -> Seq<u8>
    decreases n,
{
    if n < 10 {
        seq![(ASCII_ZERO + n) as u8]
    } else {
        decimal_text(n / 10).push((ASCII_ZERO + n % 10) as u8)
    }
}

/// The number that a string of digits denotes; leading zeros count for nothing.
pub open spec fn digits_value(digits: Seq<u8>) -> nat
    decreases digits.len(),
{
    if digits.len() == 0 {
        0
    } else {
        digits_value(digits.drop_last()) * 10 + (digits.last() - ASCII_ZERO) as nat
    }
}

/// `text` without its sign, where it starts with one `+`.
pub open spec fn unsigned_part(text: Seq<u8>) -> Seq<u8> {
    if text.len() > 0 && text[0] == ASCII_PLUS {
        text.subrange(1, text.len() as int)
    } else {
        text
    }
}

/// What `text` denotes as a 32-bit unsigned integer: an optional `+`, then one
/// or more digits whose value fits. Anything else denotes nothing.
pub open spec fn parse_decimal(text: Seq<u8>) -> Option<u32> {
    let digits = unsigned_part(text);
    if digits.len() > 0 && all_digits(digits) && digits_value(digits) <= u32::MAX {
        Some(digits_value(digits) as u32)
    } else {
        None
    }
}

/// A longer string of digits never denotes less than one of its prefixes.
pub proof fn lemma_digits_value_grows(digits: Seq<u8>, k: int)
    requires
        0 <= k <= digits.len(),
    ensures
        digits_value(digits.subrange(0, k)) <= digits_value(digits),
    decreases digits.len(),
{
    if k == digits.len() {
        assert(digits.subrange(0, k) =~= digits);
    } else {
        lemma_digits_value_grows(digits.drop_last(), k);
        assert(digits.drop_last().subrange(0, k) =~= digits.subrange(0, k));
    }
}

/// The notation of a number is made of digits, and denotes that number.
pub proof fn lemma_decimal_text_digits(n: nat)
    ensures
        decimal_text(n).len() > 0,
        all_digits(decimal_text(n)),
        digits_value(decimal_text(n)) == n,
    decreases n,
{
    if n < 10 {
        let text = decimal_text(n);
        assert(text.drop_last() =~= Seq::<u8>::empty());
        assert(digits_value(text.drop_last()) == 0);
    } else {
        lemma_decimal_text_digits(n / 10);
        let text = decimal_text(n);
        assert(text.drop_last() =~= decimal_text(n / 10));
    }
}

/// The notation of a number starts with a zero only where the number is zero.
pub proof fn lemma_decimal_text_is_shortest(n: nat)
    ensures
        decimal_text(n)[0] == ASCII_ZERO <==> n == 0,
    decreases n,
{
    if n >= 10 {
        lemma_decimal_text_is_shortest(n / 10);
        lemma_decimal_text_digits(n / 10);
    }
}

/// Reading back what was written gives the number that was written.
pub proof fn lemma_parse_decimal_text(n: u32)
    ensures
        parse_decimal(decimal_text(n as nat)) == Some(n),
{
    lemma_decimal_text_digits(n as nat);
    assert(is_digit(decimal_text(n as nat)[0]));
}

/// Text that denotes an integer is a run of digits, with at most a `+` before it.
pub proof fn lemma_integer_text_is_digits(text: Seq<u8>)
    requires
        parse_decimal(text) is Some,
    ensures
        text.len() > 0,
        forall|i: int| 1 <= i < text.len() ==> is_digit(#[trigger] text[i]),
        is_digit(text[0]) || (text[0] == ASCII_PLUS && text.len() > 1),
{
    let digits = unsigned_part(text);
    assert(all_digits(digits));
    if text[0] == ASCII_PLUS {
        assert forall|i: int| 1 <= i < text.len() implies is_digit(#[trigger] text[i]) by {
            assert(digits[i - 1] == text[i]);
        }
    } else {
        assert(digits == text);
    }
}

/// Appends the decimal notation of `n` to `buffer`.
pub fn append_decimal(buffer: &mut Vec<u8>, n: u32)
    ensures
        final(buffer)@ == old(buffer)@ + decimal_text(n as nat),
    decreases n,
{
    if n >= 10 {
        append_decimal(buffer, n / 10);
    }
    let digit: u8 = (n % 10) as u8;
    buffer.push(ASCII_ZERO + digit);
    assert(buffer@ =~= old(buffer)@ + decimal_text(n as nat));
}

/// Reads `text` as a 32-bit unsigned integer.
pub fn parse_u32(text: &[u8]) -> (number: Option<u32>)
    ensures
        number == parse_decimal(text@),
{
    let start: usize = if text.len() > 0 && text[0] == ASCII_PLUS { 1 } else { 0 };
    let ghost digits = unsigned_part(text@);
    assert(digits =~= text@.subrange(start as int, text@.len() as int));
    if start == text.len() {
        return None;
    }
    let mut value: u64 = 0;
    let mut i: usize = start;
    while i < text.len()
        invariant
            start <= i <= text@.len(),
            digits == unsigned_part(text@),
            digits == text@.subrange(start as int, text@.len() as int),
            all_digits(digits.subrange(0, i - start)),
            value == digits_value(digits.subrange(0, i - start)),
            value <= u32::MAX,
        decreases text@.len() - i,
    {
        let byte: u8 = text[i];
        assert(byte == digits[i - start]);
        if byte < ASCII_ZERO || byte > ASCII_ZERO + 9 {
            assert(!is_digit(digits[i - start]));
            return None;
        }
        let next: u64 = value * 10 + (byte - ASCII_ZERO) as u64;
        proof {
            let longer = digits.subrange(0, i + 1 - start);
            assert(longer.drop_last() =~= digits.subrange(0, i - start));
            assert(longer.last() == byte);
            assert(next == digits_value(longer));
            assert forall|k: int| 0 <= k < longer.len() implies is_digit(#[trigger] longer[k]) by {
                if k < i - start {
                    assert(digits.subrange(0, i - start)[k] == longer[k]);
                }
            }
        }
        if next > u32::MAX as u64 {
            proof {
                lemma_digits_value_grows(digits, i + 1 - start);
            }
            return None;
        }
        value = next;
        i += 1;
    }
    assert(digits.subrange(0, i - start) =~= digits);
    Some(value as u32)
}

} // verus!
