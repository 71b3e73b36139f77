use crate::failure::{Failure, OpaqueFailure};
use vstd::prelude::*;

verus! {

/// A failure reported by the IRI parsing subsystem. This crate only
/// carries it: the parser builds one with the message it chose.
#[derive(Debug)]
pub struct IriParseError {
    message: String,
}

impl IriParseError {
    /// The display text the parser gave this failure.
    pub closed spec fn text(&self) -> Seq<char> {
        self.message@
    }

    pub fn new(message: String) -> (r: Self)
        ensures
            r.text() == message@,
    {
        IriParseError { message }
    }
}

impl Failure for IriParseError {
    open spec fn chain(&self) -> Seq<Seq<char>> {
        seq![self.text()]
    }

    fn display(&self) -> (r: String) {
        self.message.clone()
    }

    fn into_opaque(self) -> (r: OpaqueFailure) {
        OpaqueFailure::from_text(self.message)
    }
}

/// A failure reported by the blank node identifier parsing subsystem.
#[derive(Debug)]
pub struct BlankNodeIdParseError {
    message: String,
}

impl BlankNodeIdParseError {
    /// The display text the parser gave this failure.
    pub closed spec fn text(&self) -> Seq<char> {
        self.message@
    }

    pub fn new(message: String) -> (r: Self)
        ensures
            r.text() == message@,
    {
        BlankNodeIdParseError { message }
    }
}

impl Failure for BlankNodeIdParseError {
    open spec fn chain(&self) -> Seq<Seq<char>> {
        seq![self.text()]
    }

    fn display(&self) -> (r: String) {
        self.message.clone()
    }

    fn into_opaque(self) -> (r: OpaqueFailure) {
        OpaqueFailure::from_text(self.message)
    }
}

/// A failure reported by the language tag parsing subsystem.
#[derive(Debug)]
pub struct LanguageTagParseError {
    message: String,
}

impl LanguageTagParseError {
    /// The display text the parser gave this failure.
    pub closed spec fn text(&self) -> Seq<char> {
        self.message@
    }

    pub fn new(message: String) -> (r: Self)
        ensures
            r.text() == message@,
    {
        LanguageTagParseError { message }
    }
}

impl Failure for LanguageTagParseError {
    open spec fn chain(&self) -> Seq<Seq<char>> {
        seq![self.text()]
    }

    fn display(&self) -> (r: String) {
        self.message.clone()
    }

    fn into_opaque(self) -> (r: OpaqueFailure) {
        OpaqueFailure::from_text(self.message)
    }
}

} // verus!
