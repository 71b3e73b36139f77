use crate::failure::{Failure, OpaqueFailure};
use vstd::prelude::*;

verus! {

/// A failure reported by the query language parsing subsystem.
#[derive(Debug)]
pub struct SparqlParseError {
    message: String,
}

impl SparqlParseError {
    /// The display text the parser gave this failure.
    pub closed spec fn text(&self) -> Seq<char> {
        self.message@
    }

    pub fn new(message: String) -> (r: Self)
        ensures
            r.text() == message@,
    {
        SparqlParseError { message }
    }
}

impl Failure for SparqlParseError {
    open spec fn chain(&self) -> Seq<Seq<char>> {
        seq![self.text()]
    }

    fn display(&self) -> (r: String) {
        self.message.clone()
    }

    fn into_opaque(self) -> (r: OpaqueFailure) {
        OpaqueFailure::from_text(self.message)
    }
}

} // verus!
