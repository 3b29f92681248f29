//! Unsigned integers that fit where a signed 64-bit integer is stored.

use vstd::prelude::*;
use vstd::string::StringExecFns;

verus! {

/// The character for a decimal digit.
pub open spec fn digit_char(digit: nat) -> char {
    (48 + digit) as char
}

/// The decimal digits of a number, most significant first.
pub open spec fn decimal_digits(n: nat) -> Seq<char>
    decreases n,
{
    if n < 10 {
        seq![digit_char(n)]
    } else {
        decimal_digits(n / 10).push(digit_char(n % 10))
    }
}

/// A number in decimal, with a minus sign where it is negative.
pub open spec fn decimal_text(n: int) -> Seq<char> {
    if n < 0 {
        seq!['-'] + decimal_digits((-n) as nat)
    } else {
        decimal_digits(n as nat)
    }
}

/// The message of the error for a negative number.
pub open spec fn negative_message(value: int) -> Seq<char> {
    "Negative integer "@ + decimal_text(value) + " cannot be converted to positive integer."@
}

/// The message of the error for a number that is too large.
pub open spec fn too_large_message(value: int) -> Seq<char> {
    "The integer "@ + decimal_text(value) + " is too large."@
}

/// `i64::to_string`: the number in decimal.
#[verifier::external_body]
pub(crate) fn i64_to_string(value: i64) -> (r: String)
    ensures
        r@ == decimal_text(value as int),
{
    value.to_string()
}

/// `u64::to_string`: the number in decimal.
#[verifier::external_body]
fn u64_to_string(value: u64) -> (r: String)
    ensures
        r@ == decimal_text(value as int),
{
    value.to_string()
}

fn negative_error(number: String) -> (r: String)
    ensures
        r@ == "Negative integer "@ + number@ + " cannot be converted to positive integer."@,
{
    String::from_str("Negative integer ").concat(number.as_str()).concat(
        " cannot be converted to positive integer.",
    )
}

fn too_large_error(number: String) -> (r: String)
    ensures
        r@ == "The integer "@ + number@ + " is too large."@,
{
    String::from_str("The integer ").concat(number.as_str()).concat(" is too large.")
}

/// An unsigned 32-bit integer.
#[derive(Clone, Copy, Debug, PartialEq, Eq, Structural)]
pub struct Uint32(pub u32);

/// An unsigned integer of 63 bits: one that a signed 64-bit integer can
/// hold.
#[derive(Clone, Copy, Debug, PartialEq, Eq, Structural)]
pub struct Uint63(pub u64);

impl Uint32 {
    /// The largest of these numbers.
    pub fn max_value() -> (r: Uint32)
        ensures
            r == Uint32(u32::MAX),
    {
        Uint32(u32::MAX)
    }

    /// The smallest of these numbers.
    pub fn min_value() -> (r: Uint32)
        ensures
            r == Uint32(0),
    {
        Uint32(0)
    }

    pub fn try_from_i64(value: i64) -> (r: Result<Uint32, String>)
        ensures
            0 <= value <= u32::MAX ==> r == Ok::<Uint32, String>(Uint32(value as u32)),
            value < 0 ==> r is Err && r->Err_0@ == negative_message(value as int),
            value > u32::MAX ==> r is Err && r->Err_0@ == too_large_message(value as int),
    {
        if 0 > value {
            Err(negative_error(i64_to_string(value)))
        } else if (u32::MAX as i64) < value {
            Err(too_large_error(i64_to_string(value)))
        } else {
            Ok(Uint32(value as u32))
        }
    }
}

impl Uint63 {
    /// The largest of these numbers.
    pub fn max_value() -> (r: Uint63)
        ensures
            r == Uint63(0x7fff_ffff_ffff_ffff),
            r.valid(),
    {
        Uint63(0x7fff_ffff_ffff_ffff)
    }

    /// The smallest of these numbers.
    pub fn min_value() -> (r: Uint63)
        ensures
            r == Uint63(0),
    {
        Uint63(0)
    }

    /// Whether the number is one of 63 bits.
    pub open spec fn valid(&self) -> bool {
        self.0 <= 0x7fff_ffff_ffff_ffff
    }

    pub fn try_from_i64(value: i64) -> (r: Result<Uint63, String>)
        ensures
            0 <= value ==> r == Ok::<Uint63, String>(Uint63(value as u64)),
            value < 0 ==> r is Err && r->Err_0@ == negative_message(value as int),
            r is Ok ==> r->Ok_0.valid(),
    {
        if 0 > value {
            Err(negative_error(i64_to_string(value)))
        } else {
            Ok(Uint63(value as u64))
        }
    }

    pub fn try_from_u64(value: u64) -> (r: Result<Uint63, String>)
        ensures
            value <= 0x7fff_ffff_ffff_ffff ==> r == Ok::<Uint63, String>(Uint63(value)),
            value > 0x7fff_ffff_ffff_ffff ==> r is Err && r->Err_0@ == too_large_message(
                value as int,
            ),
    {
        if 0x7fff_ffff_ffff_ffff < value {
            Err(too_large_error(u64_to_string(value)))
        } else {
            Ok(Uint63(value))
        }
    }

    /// Says whether the number is one of 63 bits.
    pub fn check(&self) -> (r: Result<(), String>)
        ensures
            self.valid() ==> r is Ok,
            !self.valid() ==> r is Err && r->Err_0@ == too_large_message(self.0 as int),
    {
        match Uint63::try_from_u64(self.0) {
            Ok(_) => Ok(()),
            Err(err) => Err(err),
        }
    }
}

} // verus!
