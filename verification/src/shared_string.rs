//! A message string that is either a literal of the program or shared on the
//! heap.

use crate::buffer::bytes_from_vec;
use crate::light_string::arc_as_str;
use crate::light_string::arc_from_box;
use crate::light_string::arc_from_string;
use crate::buffer::bytes_view;
use crate::light_string::LightString;
use bytes::Bytes;
use std::ops::Deref;
use std::sync::Arc;
use vstd::prelude::*;

verus! {

#[derive(Clone, PartialEq, Eq, Debug)]
pub enum SharedString {
    Static(&'static str),
    Arc(Arc<str>),
}

impl View for SharedString {
    type V = Seq<char>;

    open spec fn view(&self) -> Seq<char> {
        match self {
            SharedString::Static(val) => val@,
            SharedString::Arc(val) => val@,
        }
    }
}

impl SharedString {
    pub fn from_static(src: &'static str) -> (r: SharedString)
        ensures
            r == SharedString::Static(src),
            r@ == src@,
    {
        SharedString::Static(src)
    }

    pub fn as_str(&self) -> (r: &str)
        ensures
            r@ == self@,
    {
        match self {
            SharedString::Static(val) => val,
            SharedString::Arc(val) => arc_as_str(val),
        }
    }

    pub fn as_bytes(&self) -> (r: &[u8])
        ensures
            r@ == vstd::utf8::encode_utf8(self@),
    {
        self.as_str().as_bytes()
    }

    pub fn into_bytes(self) -> (r: Bytes)
        ensures
            bytes_view(r) == vstd::utf8::encode_utf8(self@),
    {
        match self {
            SharedString::Static(val) => Bytes::from_static(val.as_bytes()),
            SharedString::Arc(val) => bytes_from_vec(
                vstd::slice::slice_to_vec(arc_as_str(&val).as_bytes()),
            ),
        }
    }

    /// The text as an owned string.
    pub fn to_string(&self) -> (r: String)
        ensures
            r@ == self@,
    {
        self.as_str().to_owned()
    }
}

impl Default for SharedString {
    fn default() -> (r: SharedString)
        ensures
            r@.len() == 0,
    {
        proof {
            reveal_strlit("");
        }
        SharedString::from_static("")
    }
}

impl AsRef<str> for SharedString {
    fn as_ref(&self) -> (r: &str)
        ensures
            r@ == self@,
    {
        self.as_str()
    }
}

impl Deref for SharedString {
    type Target = str;

    fn deref(&self) -> (r: &str)
        ensures
            r@ == self@,
    {
        self.as_str()
    }
}

impl From<&'static str> for SharedString {
    fn from(value: &'static str) -> (r: SharedString) {
        SharedString::from_static(value)
    }
}

impl vstd::std_specs::convert::FromSpecImpl<&'static str> for SharedString {
    open spec fn obeys_from_spec() -> bool {
        true
    }

    open spec fn from_spec(value: &'static str) -> SharedString {
        SharedString::Static(value)
    }
}

impl From<String> for SharedString {
    fn from(value: String) -> (r: SharedString)
        ensures
            r@ == value@,
    {
        SharedString::Arc(arc_from_string(value))
    }
}

impl vstd::std_specs::convert::FromSpecImpl<String> for SharedString {
    open spec fn obeys_from_spec() -> bool {
        false
    }

    open spec fn from_spec(value: String) -> SharedString {
        arbitrary()
    }
}

impl From<Arc<str>> for SharedString {
    fn from(value: Arc<str>) -> (r: SharedString) {
        SharedString::Arc(value)
    }
}

impl vstd::std_specs::convert::FromSpecImpl<Arc<str>> for SharedString {
    open spec fn obeys_from_spec() -> bool {
        true
    }

    open spec fn from_spec(value: Arc<str>) -> SharedString {
        SharedString::Arc(value)
    }
}

impl From<Box<str>> for SharedString {
    fn from(value: Box<str>) -> (r: SharedString)
        ensures
            r@ == value@,
    {
        SharedString::Arc(arc_from_box(value))
    }
}

impl vstd::std_specs::convert::FromSpecImpl<Box<str>> for SharedString {
    open spec fn obeys_from_spec() -> bool {
        false
    }

    open spec fn from_spec(value: Box<str>) -> SharedString {
        arbitrary()
    }
}

impl From<LightString> for SharedString {
    fn from(value: LightString) -> (r: SharedString) {
        match value {
            LightString::Static(val) => SharedString::Static(val),
            LightString::Arc(val) => SharedString::Arc(val),
        }
    }
}

impl vstd::std_specs::convert::FromSpecImpl<LightString> for SharedString {
    open spec fn obeys_from_spec() -> bool {
        true
    }

    open spec fn from_spec(value: LightString) -> SharedString {
        match value {
            LightString::Static(val) => SharedString::Static(val),
            LightString::Arc(val) => SharedString::Arc(val),
        }
    }
}

} // verus!
