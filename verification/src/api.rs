//! The answer of a remote call: a code, which is zero for success, the data
//! and a message.

use crate::shared_string::SharedString;
use vstd::prelude::*;
use vstd::utf8::encode_utf8;

verus! {

/// The message of an answer that reports success.
pub const SUCCESS: &'static str = "success";

/// The bytes of an answer that reports success and carries no data.
pub const SUCCESS_BODY: &'static str = "{\"code\":0,\"message\":\"success\",\"data\":null}";

#[derive(Debug)]
pub struct Response<T> {
    pub code: i32,
    pub data: Option<T>,
    pub message: SharedString,
}

impl<T> Response<T> {
    /// An answer that reports success.
    pub fn success(data: Option<T>) -> (r: Response<T>)
        ensures
            r.code == 0,
            r.data == data,
            r.message == SharedString::Static(SUCCESS),
    {
        Response { code: 0, data: data, message: SharedString::from_static(SUCCESS) }
    }

    /// An answer that reports a failure. Its code is never zero: zero is
    /// replaced by minus one.
    pub fn failure(code: i32, msg: SharedString, data: Option<T>) -> (r: Response<T>)
        ensures
            r.code == if code == 0 {
                -1i32
            } else {
                code
            },
            r.data == data,
            r.message == msg,
    {
        let mut kept = code;
        if 0 == kept {
            kept = -1;
        }
        Response { code: kept, data: data, message: msg }
    }
}

/// The bytes of an answer that reports success and carries no data.
pub fn success() -> (r: &'static [u8])
    ensures
        r@ == encode_utf8(SUCCESS_BODY@),
{
    SUCCESS_BODY.as_bytes()
}

} // verus!
