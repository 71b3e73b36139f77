use vstd::prelude::*;

verus! {

/// The capability a failure value must offer to travel inside the error
/// facade's catch-all slot: it can say what its display text is, and it
/// can surrender itself as an owned display/cause chain.
///
/// Subsystems implement this for their own failure types; the facade
/// never needs to know those types.
pub trait Failure: Sized {
    /// The display texts of this failure and of its causes, the failure's
    /// own text first, each cause after the failure it produced.
    spec fn chain(&self) -> Seq<Seq<char>>;

    /// The failure's own display text.
    fn display(&self) -> (r: String)
        ensures
            r@ == self.chain()[0],
    ;

    /// Moves the failure into an owned chain of display texts. The chain
    /// is preserved exactly, so wrapping loses no diagnostic text.
    fn into_opaque(self) -> (r: OpaqueFailure)
        ensures
            r.texts() == self.chain(),
    ;
}

/// An owned failure of a kind the facade was not built to know: its
/// display text together with the failure that caused it, if any.
/// It owns all of its data, so it can be stored and sent across
/// execution contexts freely.
#[derive(Debug)]
pub struct OpaqueFailure {
    text: String,
    cause: Option<Box<OpaqueFailure>>,
}

impl OpaqueFailure {
    /// The display texts of this failure and of its causes, outermost
    /// first; never empty.
    pub closed spec fn texts(&self) -> Seq<Seq<char>>
        decreases *self,
    {
        match self.cause {
            Some(c) => seq![self.text@] + c.texts(),
            None => seq![self.text@],
        }
    }

    pub proof fn lemma_texts_nonempty(&self)
        ensures
            self.texts().len() >= 1,
    {
    }

    /// A failure that consists of a display text alone.
    pub fn from_text(text: String) -> (r: Self)
        ensures
            r.texts() == seq![text@],
    {
        OpaqueFailure { text, cause: None }
    }

    /// A failure with a display text and, optionally, the failure that
    /// caused it.
    pub fn new(text: String, cause: Option<OpaqueFailure>) -> (r: Self)
        ensures
            r.texts() == match cause {
                Some(c) => seq![text@] + c.texts(),
                None => seq![text@],
            },
    {
        match cause {
            Some(c) => OpaqueFailure { text, cause: Some(Box::new(c)) },
            None => OpaqueFailure { text, cause: None },
        }
    }

    /// The failure that caused this one, if any: one step along the chain.
    pub fn cause(&self) -> (r: Option<&OpaqueFailure>)
        ensures
            match r {
                Some(c) => c.texts() == self.texts().skip(1) && self.texts().len() >= 2,
                None => self.texts().len() == 1,
            },
    {
        match &self.cause {
            Some(c) => {
                proof {
                    c.lemma_texts_nonempty();
                    assert(self.texts().skip(1) =~= c.texts());
                }
                Some(&**c)
            },
            None => None,
        }
    }
}

impl Failure for OpaqueFailure {
    open spec fn chain(&self) -> Seq<Seq<char>> {
        self.texts()
    }

    fn display(&self) -> (r: String) {
        self.text.clone()
    }

    fn into_opaque(self) -> (r: OpaqueFailure) {
        self
    }
}

} // verus!
