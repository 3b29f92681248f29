//! Handlers with a function in front of them or behind them.
//!
//! A handler takes an input and gives an output. A mapper in front of it
//! changes the input before the handler sees it; one behind it changes the
//! output.

use vstd::prelude::*;

verus! {

/// A function that changes the input of a handler.
pub struct Mapper<M>(pub M);

/// A handler with a function in front of it.
pub struct InputMapperHandler<H, M> {
    pub input_mapper: M,
    pub handler: H,
}

/// A handler with a function behind it.
pub struct OutputMapperHandler<H, M> {
    pub handler: H,
    pub output_mapper: M,
}

impl<M> Mapper<M> {
    /// Puts the function in front of a handler.
    pub fn chain<H>(self, handler: H) -> (r: InputMapperHandler<H, M>)
        ensures
            r.input_mapper == self.0,
            r.handler == handler,
    {
        InputMapperHandler { input_mapper: self.0, handler: handler }
    }
}

impl<H, M> OutputMapperHandler<H, M> {
    /// Puts a function behind a handler.
    pub fn new(handler: H, output_mapper: M) -> (r: OutputMapperHandler<H, M>)
        ensures
            r.handler == handler,
            r.output_mapper == output_mapper,
    {
        OutputMapperHandler { handler: handler, output_mapper: output_mapper }
    }
}

} // verus!
