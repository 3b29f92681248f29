//! Byte strings as text of digits and letters.
//!
//! The bytes, behind one byte of value one that keeps leading zeros, are
//! read as one big number, most significant byte first. The text is that
//! number in base 62, most significant digit first, with the digits
//! `0`-`9`, `A`-`Z`, `a`-`z` in this order.

use crate::shared_string::SharedString;
use vstd::arithmetic::div_mod::lemma_div_decreases;
use vstd::arithmetic::div_mod::lemma_fundamental_div_mod_converse;
use vstd::prelude::*;
use vstd::utf8::decode_utf8;
use vstd::utf8::encode_utf8;
use vstd::utf8::valid_utf8;

verus! {

/// The message of the error for a text that holds a character which is no
/// digit of base 62.
pub const INVALID_CHARACTER: &'static str = "invalid base62 character";

/// The number that the digits stand for in the given base, most significant
/// digit first.
pub open spec fn digits_value(digits: Seq<u8>, base: nat) -> nat
    decreases digits.len(),
{
    if digits.len() == 0 {
        0
    } else {
        digits_value(digits.drop_last(), base) * base + digits.last() as nat
    }
}

/// The digits of a number in the given base, most significant first and
/// without leading zeros: none for zero.
pub open spec fn value_digits(n: nat, base: nat) -> Seq<u8>
    decreases n,
{
    if n == 0 || base < 2 {
        Seq::empty()
    } else {
        proof {
            lemma_div_decreases(n as int, base as int);
        }
        value_digits(n / base, base).push(#[verifier::truncate] ((n % base) as u8))
    }
}

/// Digits of the given base, the first of them not zero.
pub open spec fn canonical(digits: Seq<u8>, base: nat) -> bool {
    &&& forall|i: int| 0 <= i < digits.len() ==> (#[trigger] digits[i] as nat) < base
    &&& digits.len() > 0 ==> digits[0] != 0
}

/// The character for a digit of base 62.
pub open spec fn symbol(digit: u8) -> u8 {
    if digit < 10 {
        (48 + digit) as u8
    } else if digit < 36 {
        (55 + digit) as u8
    } else {
        (61 + digit) as u8
    }
}

/// The digit that a character stands for, if it stands for one.
pub open spec fn symbol_value(character: u8) -> Option<u8> {
    if 48 <= character <= 57 {
        Some((character - 48) as u8)
    } else if 65 <= character <= 90 {
        Some((character - 55) as u8)
    } else if 97 <= character <= 122 {
        Some((character - 61) as u8)
    } else {
        None
    }
}

/// Whether every character of the text is a digit of base 62.
pub open spec fn is_text(text: Seq<u8>) -> bool {
    forall|i: int| 0 <= i < text.len() ==> symbol_value(#[trigger] text[i]) is Some
}

/// The digits that the characters of a text stand for.
pub open spec fn text_digits(text: Seq<u8>) -> Seq<u8> {
    Seq::new(text.len(), |i: int| symbol_value(text[i]).unwrap())
}

/// The characters for the digits.
pub open spec fn digits_text(digits: Seq<u8>) -> Seq<u8> {
    Seq::new(digits.len(), |i: int| symbol(digits[i]))
}

/// The text for a byte string, as its bytes.
pub open spec fn encode_spec(data: Seq<u8>) -> Seq<u8> {
    digits_text(value_digits(digits_value(seq![1u8] + data, 256), 62))
}

/// The byte string that a text stands for: the bytes of its number without
/// the first of them. `None` where a character is no digit.
pub open spec fn decode_spec(text: Seq<u8>) -> Option<Seq<u8>> {
    if is_text(text) {
        let bytes = value_digits(digits_value(text_digits(text), 62), 256);
        if bytes.len() == 0 {
            Some(bytes)
        } else {
            Some(bytes.skip(1))
        }
    } else {
        None
    }
}

/// `String::from_utf8`: the text that the bytes encode, where they are
/// valid UTF-8, and nothing otherwise.
#[verifier::external_body]
fn string_from_utf8(bytes: Vec<u8>) -> (r: Option<String>)
    ensures
        valid_utf8(bytes@) ==> r is Some && r->Some_0@ == decode_utf8(bytes@),
        !valid_utf8(bytes@) ==> r is None,
{
    String::from_utf8(bytes).ok()
}

/// Digits that are not empty and start with a digit that is not zero stand
/// for a number that is not zero.
pub proof fn lemma_canonical_positive(digits: Seq<u8>, base: nat)
    requires
        canonical(digits, base),
        digits.len() > 0,
    ensures
        digits_value(digits, base) > 0,
    decreases digits.len(),
{
    if digits.len() > 1 {
        let front = digits.drop_last();
        assert(front[0] == digits[0]);
        assert forall|i: int| 0 <= i < front.len() implies (#[trigger] front[i] as nat) < base by {
            assert(front[i] == digits[i]);
        }
        lemma_canonical_positive(front, base);
        assert(digits_value(front, base) * base >= 1) by (nonlinear_arith)
            requires
                digits_value(front, base) > 0,
                base > (digits[0] as nat),
        ;
    }
}

/// The digits of a number are digits of the base, without a leading zero.
pub proof fn lemma_value_digits_canonical(n: nat, base: nat)
    requires
        2 <= base <= 256,
    ensures
        canonical(value_digits(n, base), base),
        n > 0 ==> value_digits(n, base).len() > 0,
    decreases n,
{
    if n > 0 {
        lemma_div_decreases(n as int, base as int);
        lemma_value_digits_canonical(n / base, base);
        let front = value_digits(n / base, base);
        let digits = value_digits(n, base);
        assert(n % base < base) by (nonlinear_arith)
            requires
                base > 0,
        ;
        if n / base == 0 {
            assert(n % base == n) by (nonlinear_arith)
                requires
                    n / base == 0,
                    base > 0,
            ;
        }
        assert forall|i: int| 0 <= i < digits.len() implies (#[trigger] digits[i] as nat)
            < base by {
            if i < front.len() {
                assert(digits[i] == front[i]);
            }
        }
    }
}

/// The digits of a number stand for that number.
pub proof fn lemma_digits_of_value(n: nat, base: nat)
    requires
        2 <= base <= 256,
    ensures
        digits_value(value_digits(n, base), base) == n,
    decreases n,
{
    if n > 0 {
        lemma_div_decreases(n as int, base as int);
        lemma_digits_of_value(n / base, base);
        let digits = value_digits(n, base);
        assert(digits.drop_last() =~= value_digits(n / base, base));
        assert(n % base < base && (n / base) * base + n % base == n) by (nonlinear_arith)
            requires
                base > 0,
        ;
    }
}

/// Digits without a leading zero are the digits of the number that they
/// stand for.
pub proof fn lemma_value_of_digits(digits: Seq<u8>, base: nat)
    requires
        2 <= base <= 256,
        canonical(digits, base),
    ensures
        value_digits(digits_value(digits, base), base) == digits,
    decreases digits.len(),
{
    if digits.len() == 0 {
        assert(value_digits(0, base) =~= digits);
    } else {
        let front = digits.drop_last();
        let last = digits.last() as nat;
        let n = digits_value(digits, base);
        assert(last < base);
        if front.len() > 0 {
            assert(front[0] == digits[0]);
        }
        assert forall|i: int| 0 <= i < front.len() implies (#[trigger] front[i] as nat) < base by {
            assert(front[i] == digits[i]);
        }
        lemma_value_of_digits(front, base);
        lemma_canonical_positive(digits, base);
        lemma_fundamental_div_mod_converse(
            n as int,
            base as int,
            digits_value(front, base) as int,
            last as int,
        );
        assert(value_digits(n, base) =~= digits);
    }
}

/// Reading a text undoes writing it: the text of a byte string stands for
/// that byte string.
pub proof fn lemma_decode_encode(data: Seq<u8>)
    ensures
        is_text(encode_spec(data)),
        decode_spec(encode_spec(data)) == Some(data),
{
    let bytes = seq![1u8] + data;
    let n = digits_value(bytes, 256);
    let digits = value_digits(n, 62);
    let text = encode_spec(data);
    lemma_value_digits_canonical(n, 62);
    assert forall|i: int| 0 <= i < text.len() implies symbol_value(#[trigger] text[i]) == Some(
        digits[i],
    ) by {
        assert((digits[i] as nat) < 62);
    }
    assert(text_digits(text) =~= digits);
    lemma_digits_of_value(n, 62);
    assert(bytes[0] == 1u8);
    lemma_value_of_digits(bytes, 256);
    assert(bytes.skip(1) =~= data);
}

/// Divides a number, given by its digits in base `from`, by `to`: the
/// digits of the quotient, without leading zeros, and the remainder.
fn divide(digits: &Vec<u8>, from: u32, to: u32) -> (r: (Vec<u8>, u8))
    requires
        2 <= from <= 256,
        2 <= to <= 256,
        forall|i: int| 0 <= i < digits@.len() ==> (#[trigger] digits@[i] as nat) < from,
    ensures
        canonical(r.0@, from as nat),
        r.1 < to,
        digits_value(digits@, from as nat) == digits_value(r.0@, from as nat) * to + r.1,
{
    let mut quotient: Vec<u8> = Vec::new();
    let mut remainder: u32 = 0;
    let mut index: usize = 0;
    assert(digits_value(quotient@, from as nat) * to == 0) by (nonlinear_arith)
        requires
            digits_value(quotient@, from as nat) == 0,
    ;
    while index < digits.len()
        invariant
            2 <= from <= 256,
            2 <= to <= 256,
            forall|i: int| 0 <= i < digits@.len() ==> (#[trigger] digits@[i] as nat) < from,
            index <= digits@.len(),
            remainder < to,
            canonical(quotient@, from as nat),
            digits_value(digits@.take(index as int), from as nat) == digits_value(
                quotient@,
                from as nat,
            ) * to + remainder,
        decreases digits@.len() - index,
    {
        let digit: u32 = digits[index] as u32;
        assert(digits@[index as int] as nat == digit);
        assert(remainder * from + digit < to * from) by (nonlinear_arith)
            requires
                remainder < to,
                digit < from,
        ;
        assert(to * from <= 65536) by (nonlinear_arith)
            requires
                to <= 256,
                from <= 256,
        ;
        let total: u32 = remainder * from + digit;
        let place: u32 = total / to;
        let left: u32 = total % to;
        let ghost front = digits_value(quotient@, from as nat);
        proof {
            assert(digits@.take(index + 1).drop_last() =~= digits@.take(index as int));
            assert(total == place * to + left && left < to) by (nonlinear_arith)
                requires
                    place == total / to,
                    left == total % to,
                    to > 0,
            ;
            assert(place < from) by (nonlinear_arith)
                requires
                    total == place * to + left,
                    total < to * from,
                    to > 0,
            ;
            assert((front * to + remainder) * from + digit == (front * from + place) * to + left)
                by (nonlinear_arith)
                requires
                    remainder * from + digit == place * to + left,
            ;
            assert(quotient@.push(place as u8).drop_last() =~= quotient@);
        }
        if quotient.len() > 0 || place != 0 {
            quotient.push(place as u8);
        } else {
            assert(front * from + place == 0) by (nonlinear_arith)
                requires
                    front == 0,
                    place == 0,
            ;
        }
        remainder = left;
        index += 1;
    }
    assert(digits@.take(index as int) =~= digits@);
    (quotient, remainder as u8)
}

/// Writes a number, given by its digits in base `from`, in base `to`:
/// most significant digit first, without leading zeros.
fn convert_base(digits: &[u8], from: u32, to: u32) -> (r: Vec<u8>)
    requires
        2 <= from <= 256,
        2 <= to <= 256,
        forall|i: int| 0 <= i < digits@.len() ==> (#[trigger] digits@[i] as nat) < from,
    ensures
        r@ == value_digits(digits_value(digits@, from as nat), to as nat),
{
    let ghost number = digits_value(digits@, from as nat);
    let mut current = vstd::slice::slice_to_vec(digits);
    let mut reversed: Vec<u8> = Vec::new();
    let mut done = false;
    assert(value_digits(number, to as nat) + reversed@.reverse() =~= value_digits(
        number,
        to as nat,
    ));
    while !done
        invariant
            2 <= from <= 256,
            2 <= to <= 256,
            forall|i: int| 0 <= i < current@.len() ==> (#[trigger] current@[i] as nat) < from,
            done ==> digits_value(current@, from as nat) == 0,
            value_digits(number, to as nat) == value_digits(
                digits_value(current@, from as nat),
                to as nat,
            ) + reversed@.reverse(),
        decreases
                digits_value(current@, from as nat) + (if done {
                    0nat
                } else {
                    1nat
                }),
    {
        let (quotient, digit) = divide(&current, from, to);
        proof {
            let before = digits_value(current@, from as nat);
            let after = digits_value(quotient@, from as nat);
            if quotient@.len() > 0 {
                lemma_canonical_positive(quotient@, from as nat);
            }
            lemma_fundamental_div_mod_converse(
                before as int,
                to as int,
                after as int,
                digit as int,
            );
            assert(after > 0 ==> after < before) by (nonlinear_arith)
                requires
                    before == after * to + digit,
                    to >= 2,
            ;
            if quotient@.len() == 0 {
                assert(after == 0);
                assert(after * to == 0) by (nonlinear_arith)
                    requires
                        after == 0,
                ;
            }
            if before > 0 {
                assert(value_digits(after, to as nat).push(digit) + reversed@.reverse()
                    =~= value_digits(after, to as nat) + reversed@.push(digit).reverse());
            }
        }
        if quotient.len() == 0 && digit == 0 {
            done = true;
        } else {
            reversed.push(digit);
            current = quotient;
        }
    }
    let mut output: Vec<u8> = Vec::new();
    let mut left: usize = reversed.len();
    while left > 0
        invariant
            left <= reversed@.len(),
            output@ == reversed@.reverse().take(reversed@.len() - left),
        decreases left,
    {
        left -= 1;
        output.push(reversed[left]);
        assert(output@ =~= reversed@.reverse().take(reversed@.len() - left));
    }
    assert(output@ =~= reversed@.reverse());
    assert(value_digits(0, to as nat) + reversed@.reverse() =~= reversed@.reverse());
    output
}

/// The character for a digit of base 62.
fn symbol_of(digit: u8) -> (r: u8)
    requires
        digit < 62,
    ensures
        r == symbol(digit),
        r < 128,
{
    if digit < 10 {
        48 + digit
    } else if digit < 36 {
        55 + digit
    } else {
        61 + digit
    }
}

/// The digit that a character stands for, if it stands for one.
fn value_of(character: u8) -> (r: Option<u8>)
    ensures
        r == symbol_value(character),
        r is Some ==> r->Some_0 < 62,
{
    if 48 <= character && character <= 57 {
        Some(character - 48)
    } else if 65 <= character && character <= 90 {
        Some(character - 55)
    } else if 97 <= character && character <= 122 {
        Some(character - 61)
    } else {
        None
    }
}

/// Bytes below 128 are the UTF-8 form of the text of as many characters,
/// each with the number of its byte.
proof fn lemma_ascii_text(bytes: Seq<u8>)
    requires
        forall|i: int| 0 <= i < bytes.len() ==> #[trigger] bytes[i] < 128,
    ensures
        valid_utf8(bytes),
        encode_utf8(decode_utf8(bytes)) == bytes,
{
    let chars = Seq::new(bytes.len(), |i: int| bytes[i] as char);
    assert(vstd::utf8::is_ascii_chars(chars));
    vstd::utf8::is_ascii_chars_encode_utf8(chars);
    assert(encode_utf8(chars) =~= bytes);
    vstd::utf8::encode_utf8_valid_utf8(chars);
    vstd::utf8::decode_utf8_encode_utf8(bytes);
}

/// The text for a byte string.
pub fn encode(data: &[u8]) -> (r: String)
    ensures
        encode_utf8(r@) == encode_spec(data@),
{
    let mut number: Vec<u8> = Vec::new();
    number.push(1);
    number.extend_from_slice(data);
    assert(number@ =~= seq![1u8] + data@);
    let digits = convert_base(number.as_slice(), 256, 62);
    proof {
        lemma_value_digits_canonical(digits_value(number@, 256), 62);
    }
    let mut text: Vec<u8> = Vec::new();
    let mut index: usize = 0;
    while index < digits.len()
        invariant
            index <= digits@.len(),
            canonical(digits@, 62),
            text@ == digits_text(digits@).take(index as int),
            forall|i: int| 0 <= i < text@.len() ==> #[trigger] text@[i] < 128,
        decreases digits@.len() - index,
    {
        assert((digits@[index as int] as nat) < 62);
        text.push(symbol_of(digits[index]));
        index += 1;
        assert(text@ =~= digits_text(digits@).take(index as int));
    }
    assert(text@ =~= encode_spec(data@));
    proof {
        lemma_ascii_text(text@);
    }
    match string_from_utf8(text) {
        Some(token) => token,
        None => String::new(),
    }
}

/// The byte string that a text stands for.
pub fn decode(text: &str) -> (r: Result<Vec<u8>, SharedString>)
    ensures
        match decode_spec(encode_utf8(text@)) {
            Some(data) => r is Ok && r->Ok_0@ == data,
            None => r == Err::<Vec<u8>, SharedString>(SharedString::Static(INVALID_CHARACTER)),
        },
{
    let characters = text.as_bytes();
    let mut digits: Vec<u8> = Vec::new();
    let mut index: usize = 0;
    while index < characters.len()
        invariant
            characters@ == encode_utf8(text@),
            index <= characters@.len(),
            is_text(characters@.take(index as int)),
            digits@ == text_digits(characters@.take(index as int)),
            forall|i: int| 0 <= i < digits@.len() ==> (#[trigger] digits@[i] as nat) < 62,
        decreases characters@.len() - index,
    {
        match value_of(characters[index]) {
            Some(digit) => {
                digits.push(digit);
            },
            None => {
                assert(!is_text(characters@));
                return Err(SharedString::from_static(INVALID_CHARACTER));
            },
        }
        index += 1;
        assert(digits@ =~= text_digits(characters@.take(index as int)));
    }
    assert(characters@.take(index as int) =~= characters@);
    let mut bytes = convert_base(digits.as_slice(), 62, 256);
    let ghost number = bytes@;
    if bytes.len() > 0 {
        let _ = bytes.remove(0);
        assert(bytes@ =~= number.skip(1));
    }
    Ok(bytes)
}

} // verus!
