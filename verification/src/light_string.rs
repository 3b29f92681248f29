//! A string that is either a literal of the program or shared on the heap.

use crate::buffer::bytes_from_vec;
use crate::buffer::bytes_view;
use crate::shared_string::SharedString;
use bytes::Bytes;
use std::ops::Deref;
use std::sync::Arc;
use vstd::prelude::*;

verus! {

#[derive(Clone, PartialEq, Eq, Debug)]
pub enum LightString {
    Static(&'static str),
    Arc(Arc<str>),
}

impl View for LightString {
    type V = Seq<char>;

    open spec fn view(&self) -> Seq<char> {
        match self {
            LightString::Static(val) => val@,
            LightString::Arc(val) => val@,
        }
    }
}

/// `Arc::<str>::from(String)`: the same text, shared.
#[verifier::external_body]
pub(crate) fn arc_from_string(value: String) -> (r: Arc<str>)
    ensures
        r@ == value@,
{
    Arc::from(value)
}

/// `Arc::<str>::from(Box<str>)`: the same text, shared.
#[verifier::external_body]
pub(crate) fn arc_from_box(value: Box<str>) -> (r: Arc<str>)
    ensures
        r@ == value@,
{
    Arc::from(value)
}

/// The `Deref` of `Arc<str>`: the text that it shares.
#[verifier::external_body]
pub(crate) fn arc_as_str(value: &Arc<str>) -> (r: &str)
    ensures
        r@ == value@,
{
    value
}

impl LightString {
    pub fn from_static(src: &'static str) -> (r: LightString)
        ensures
            r == LightString::Static(src),
            r@ == src@,
    {
        LightString::Static(src)
    }

    pub fn as_str(&self) -> (r: &str)
        ensures
            r@ == self@,
    {
        match self {
            LightString::Static(val) => val,
            LightString::Arc(val) => arc_as_str(val),
        }
    }

    pub fn as_bytes(&self) -> (r: &[u8])
        ensures
            r@ == vstd::utf8::encode_utf8(self@),
    {
        self.as_str().as_bytes()
    }

    pub fn into_bytes(self) -> (r: Bytes)
        ensures
            bytes_view(r) == vstd::utf8::encode_utf8(self@),
    {
        match self {
            LightString::Static(val) => Bytes::from_static(val.as_bytes()),
            LightString::Arc(val) => bytes_from_vec(
                vstd::slice::slice_to_vec(arc_as_str(&val).as_bytes()),
            ),
        }
    }

    /// The text as an owned string.
    pub fn to_string(&self) -> (r: String)
        ensures
            r@ == self@,
    {
        self.as_str().to_owned()
    }
}

impl Default for LightString {
    fn default() -> (r: LightString)
        ensures
            r@.len() == 0,
    {
        proof {
            reveal_strlit("");
        }
        LightString::from_static("")
    }
}

impl AsRef<str> for LightString {
    fn as_ref(&self) -> (r: &str)
        ensures
            r@ == self@,
    {
        self.as_str()
    }
}

impl Deref for LightString {
    type Target = str;

    fn deref(&self) -> (r: &str)
        ensures
            r@ == self@,
    {
        self.as_str()
    }
}

impl From<&'static str> for LightString {
    fn from(value: &'static str) -> (r: LightString) {
        LightString::from_static(value)
    }
}

impl vstd::std_specs::convert::FromSpecImpl<&'static str> for LightString {
    open spec fn obeys_from_spec() -> bool {
        true
    }

    open spec fn from_spec(value: &'static str) -> LightString {
        LightString::Static(value)
    }
}

impl From<String> for LightString {
    fn from(value: String) -> (r: LightString)
        ensures
            r@ == value@,
    {
        LightString::Arc(arc_from_string(value))
    }
}

impl vstd::std_specs::convert::FromSpecImpl<String> for LightString {
    open spec fn obeys_from_spec() -> bool {
        false
    }

    open spec fn from_spec(value: String) -> LightString {
        arbitrary()
    }
}

impl From<Arc<str>> for LightString {
    fn from(value: Arc<str>) -> (r: LightString) {
        LightString::Arc(value)
    }
}

impl vstd::std_specs::convert::FromSpecImpl<Arc<str>> for LightString {
    open spec fn obeys_from_spec() -> bool {
        true
    }

    open spec fn from_spec(value: Arc<str>) -> LightString {
        LightString::Arc(value)
    }
}

impl From<Box<str>> for LightString {
    fn from(value: Box<str>) -> (r: LightString)
        ensures
            r@ == value@,
    {
        LightString::Arc(arc_from_box(value))
    }
}

impl vstd::std_specs::convert::FromSpecImpl<Box<str>> for LightString {
    open spec fn obeys_from_spec() -> bool {
        false
    }

    open spec fn from_spec(value: Box<str>) -> LightString {
        arbitrary()
    }
}

impl From<SharedString> for LightString {
    fn from(value: SharedString) -> (r: LightString) {
        match value {
            SharedString::Static(val) => LightString::Static(val),
            SharedString::Arc(val) => LightString::Arc(val),
        }
    }
}

impl vstd::std_specs::convert::FromSpecImpl<SharedString> for LightString {
    open spec fn obeys_from_spec() -> bool {
        true
    }

    open spec fn from_spec(value: SharedString) -> LightString {
        match value {
            SharedString::Static(val) => LightString::Static(val),
            SharedString::Arc(val) => LightString::Arc(val),
        }
    }
}

} // verus!
