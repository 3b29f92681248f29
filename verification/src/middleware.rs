//! Middleware turns one handler into another; two of them, one after the
//! other, are a middleware again.

use vstd::prelude::*;

verus! {

/// Two middlewares as one: the second is applied to a handler first, and
/// the first to what comes out.
pub struct JoinMiddleware<M1, M2> {
    pub middleware1: M1,
    pub middleware2: M2,
}

impl<M1, M2> JoinMiddleware<M1, M2> {
    pub fn new(middleware1: M1, middleware2: M2) -> (r: JoinMiddleware<M1, M2>)
        ensures
            r.middleware1 == middleware1,
            r.middleware2 == middleware2,
    {
        JoinMiddleware { middleware1: middleware1, middleware2: middleware2 }
    }
}

} // verus!
