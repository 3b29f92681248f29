//! An identifier of eight bytes.

use std::ops::Deref;
use std::str::FromStr;
use vstd::prelude::*;
use vstd::std_specs::cmp::PartialEqSpecImpl;

verus! {

#[derive(Debug, Eq, PartialOrd, Ord, Clone, Copy, Default, Hash)]
pub struct Id8(pub i64);

impl PartialEq for Id8 {
    fn eq(&self, other: &Id8) -> (r: bool) {
        self.0 == other.0
    }
}

impl PartialEqSpecImpl for Id8 {
    open spec fn obeys_eq_spec() -> bool {
        true
    }

    open spec fn eq_spec(&self, other: &Id8) -> bool {
        self.0 == other.0
    }
}

impl PartialEq<i64> for Id8 {
    fn eq(&self, other: &i64) -> (r: bool) {
        self.0 == *other
    }
}

impl PartialEqSpecImpl<i64> for Id8 {
    open spec fn obeys_eq_spec() -> bool {
        true
    }

    open spec fn eq_spec(&self, other: &i64) -> bool {
        self.0 == *other
    }
}

impl From<i64> for Id8 {
    fn from(id: i64) -> (r: Id8) {
        Id8(id)
    }
}

impl vstd::std_specs::convert::FromSpecImpl<i64> for Id8 {
    open spec fn obeys_from_spec() -> bool {
        true
    }

    open spec fn from_spec(id: i64) -> Id8 {
        Id8(id)
    }
}

impl From<Id8> for i64 {
    fn from(id: Id8) -> (r: i64) {
        id.0
    }
}

impl vstd::std_specs::convert::FromSpecImpl<Id8> for i64 {
    open spec fn obeys_from_spec() -> bool {
        true
    }

    open spec fn from_spec(id: Id8) -> i64 {
        id.0
    }
}

impl Deref for Id8 {
    type Target = i64;

    fn deref(&self) -> (r: &i64)
        ensures
            *r == self.0,
    {
        &self.0
    }
}

impl AsRef<i64> for Id8 {
    fn as_ref(&self) -> (r: &i64)
        ensures
            *r == self.0,
    {
        &self.0
    }
}

impl AsMut<i64> for Id8 {
    fn as_mut(&mut self) -> (r: &mut i64)
        ensures
            *r == old(self).0,
            final(self).0 == *final(r),
    {
        &mut self.0
    }
}

#[verifier::external_type_specification]
#[verifier::external_body]
pub struct ExParseIntError(std::num::ParseIntError);

/// The number that a text is read as by `i64::from_str`, if it is read as
/// one.
pub uninterp spec fn parsed_i64(text: Seq<char>) -> Option<i64>;

/// `i64::from_str`: the number that the text stands for in decimal, or the
/// reason why it stands for none.
#[verifier::external_body]
fn i64_from_str(src: &str) -> (r: Result<i64, std::num::ParseIntError>)
    ensures
        match parsed_i64(src@) {
            Some(value) => r == Ok::<i64, std::num::ParseIntError>(value),
            None => r is Err,
        },
{
    i64::from_str(src)
}

impl FromStr for Id8 {
    type Err = std::num::ParseIntError;

    fn from_str(src: &str) -> (r: Result<Id8, std::num::ParseIntError>)
        ensures
            match parsed_i64(src@) {
                Some(value) => r == Ok::<Id8, std::num::ParseIntError>(Id8(value)),
                None => r is Err,
            },
    {
        match i64_from_str(src) {
            Ok(value) => Ok(Id8(value)),
            Err(err) => Err(err),
        }
    }
}

impl Id8 {
    /// The identifier in decimal.
    pub fn to_string(&self) -> (r: String)
        ensures
            r@ == crate::newtypes::decimal_text(self.0 as int),
    {
        crate::newtypes::i64_to_string(self.0)
    }
}

} // verus!
