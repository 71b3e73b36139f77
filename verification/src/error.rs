use crate::failure::{Failure, OpaqueFailure};
use crate::model::{BlankNodeIdParseError, IriParseError, LanguageTagParseError};
use crate::sparql::SparqlParseError;
use quick_xml::Error as QuickXmlError;
use vstd::prelude::*;

verus! {

#[verifier::external_type_specification]
#[verifier::external_body]
pub struct ExIoError(std::io::Error);

#[verifier::external_type_specification]
#[verifier::external_body]
pub struct ExFromUtf8Error(std::string::FromUtf8Error);

#[verifier::external_type_specification]
#[verifier::external_body]
pub struct ExTurtleError(rio_turtle::TurtleError);

#[verifier::external_type_specification]
#[verifier::external_body]
pub struct ExRdfXmlError(rio_xml::RdfXmlError);

#[verifier::external_type_specification]
#[verifier::external_body]
pub struct ExQuickXmlError(QuickXmlError);

/// Relies on `std::io::Error`'s `Display` implementation: the text of an
/// operating system failure. That text may come from the operating system
/// itself, so nothing is stated about its content.
#[verifier::external_body]
fn io_display(error: &std::io::Error) -> (r: String) {
    error.to_string()
}

/// Relies on `std::string::FromUtf8Error`'s `Display` implementation: the
/// text describing an invalid byte sequence.
#[verifier::external_body]
fn from_utf8_display(error: &std::string::FromUtf8Error) -> (r: String) {
    error.to_string()
}

/// Relies on `rio_turtle::TurtleError`'s `Display` implementation: the text
/// of a Turtle family parser failure. That text may delegate to an
/// operating system failure, so nothing is stated about its content.
#[verifier::external_body]
fn turtle_display(error: &rio_turtle::TurtleError) -> (r: String) {
    error.to_string()
}

/// Relies on `rio_xml::RdfXmlError`'s `Display` implementation: the text of
/// an XML document parser failure. That text may delegate to an operating
/// system failure, so nothing is stated about its content.
#[verifier::external_body]
fn rdf_xml_display(error: &rio_xml::RdfXmlError) -> (r: String) {
    error.to_string()
}

/// Relies on `quick_xml::Error`'s `Display` implementation: the text of an
/// XML tokenizer failure. That text may delegate to an operating system
/// failure, so nothing is stated about its content.
#[verifier::external_body]
fn quick_xml_display(error: &QuickXmlError) -> (r: String) {
    error.to_string()
}

/// What an `Error` holds: exactly one failure kind, with its payload.
/// The two operating system level kinds keep the failure value itself;
/// the parsing kinds are modelled by their display text; the catch-all
/// kind by its chain of display texts, outermost first.
pub enum ErrorModel {
    Msg { msg: Seq<char> },
    Io(std::io::Error),
    FromUtf8(std::string::FromUtf8Error),
    Iri(Seq<char>),
    BlankNode(Seq<char>),
    LanguageTag(Seq<char>),
    Other(Seq<Seq<char>>),
}

/// What an error's immediate cause is: the payload of every kind but
/// `Msg`, which has no deeper cause.
pub enum CauseModel {
    Io(std::io::Error),
    FromUtf8(std::string::FromUtf8Error),
    Iri(Seq<char>),
    BlankNode(Seq<char>),
    LanguageTag(Seq<char>),
    Other(Seq<Seq<char>>),
}

impl ErrorModel {
    /// The display text of the facade, where it can be pinned down.
    /// The facade adds no decoration: a message displays as itself, every
    /// other kind delegates verbatim to its payload. The two operating
    /// system level kinds delegate to text this crate does not model,
    /// so for them nothing is stated.
    pub open spec fn text(self) -> Option<Seq<char>> {
        match self {
            ErrorModel::Msg { msg } => Some(msg),
            ErrorModel::Io(_) => None,
            ErrorModel::FromUtf8(_) => None,
            ErrorModel::Iri(t) => Some(t),
            ErrorModel::BlankNode(t) => Some(t),
            ErrorModel::LanguageTag(t) => Some(t),
            ErrorModel::Other(c) => Some(c[0]),
        }
    }

    /// The immediate cause: every kind but `Msg` exposes its payload,
    /// unchanged.
    pub open spec fn cause(self) -> Option<CauseModel> {
        match self {
            ErrorModel::Msg { .. } => None,
            ErrorModel::Io(e) => Some(CauseModel::Io(e)),
            ErrorModel::FromUtf8(e) => Some(CauseModel::FromUtf8(e)),
            ErrorModel::Iri(t) => Some(CauseModel::Iri(t)),
            ErrorModel::BlankNode(t) => Some(CauseModel::BlankNode(t)),
            ErrorModel::LanguageTag(t) => Some(CauseModel::LanguageTag(t)),
            ErrorModel::Other(c) => Some(CauseModel::Other(c)),
        }
    }
}

impl CauseModel {
    /// The display text of the cause, where it can be pinned down; as for
    /// `ErrorModel::text`, the operating system level kinds are left open.
    pub open spec fn text(self) -> Option<Seq<char>> {
        match self {
            CauseModel::Io(_) => None,
            CauseModel::FromUtf8(_) => None,
            CauseModel::Iri(t) => Some(t),
            CauseModel::BlankNode(t) => Some(t),
            CauseModel::LanguageTag(t) => Some(t),
            CauseModel::Other(c) => Some(c[0]),
        }
    }
}

#[derive(Debug)]
enum ErrorKind {
    Msg { msg: String },
    Io(std::io::Error),
    FromUtf8(std::string::FromUtf8Error),
    Iri(IriParseError),
    BlankNode(BlankNodeIdParseError),
    LanguageTag(LanguageTagParseError),
    Other(Box<OpaqueFailure>),
}

/// The single public error type: one well-known failure kind held inline,
/// by value, or any other failure behind one heap allocation. The active
/// kind never changes after construction.
#[derive(Debug)]
pub struct Error {
    inner: ErrorKind,
}

impl View for Error {
    type V = ErrorModel;

    closed spec fn view(&self) -> ErrorModel {
        match self.inner {
            ErrorKind::Msg { msg } => ErrorModel::Msg { msg: msg@ },
            ErrorKind::Io(e) => ErrorModel::Io(e),
            ErrorKind::FromUtf8(e) => ErrorModel::FromUtf8(e),
            ErrorKind::Iri(e) => ErrorModel::Iri(e.text()),
            ErrorKind::BlankNode(e) => ErrorModel::BlankNode(e.text()),
            ErrorKind::LanguageTag(e) => ErrorModel::LanguageTag(e.text()),
            ErrorKind::Other(o) => ErrorModel::Other(o.texts()),
        }
    }
}

/// A borrowed view of an error's immediate cause: the payload the error
/// was built from, exposed for diagnostic chaining.
pub enum Cause<'a> {
    Io(&'a std::io::Error),
    FromUtf8(&'a std::string::FromUtf8Error),
    Iri(&'a IriParseError),
    BlankNode(&'a BlankNodeIdParseError),
    LanguageTag(&'a LanguageTagParseError),
    Other(&'a OpaqueFailure),
}

impl<'a> View for Cause<'a> {
    type V = CauseModel;

    closed spec fn view(&self) -> CauseModel {
        match *self {
            Cause::Io(e) => CauseModel::Io(*e),
            Cause::FromUtf8(e) => CauseModel::FromUtf8(*e),
            Cause::Iri(e) => CauseModel::Iri(e.text()),
            Cause::BlankNode(e) => CauseModel::BlankNode(e.text()),
            Cause::LanguageTag(e) => CauseModel::LanguageTag(e.text()),
            Cause::Other(o) => CauseModel::Other(o.texts()),
        }
    }
}

impl<'a> Cause<'a> {
    /// The cause's display text: delegated verbatim to the payload.
    pub fn display(&self) -> (r: String)
        ensures
            self@.text() matches Some(t) ==> r@ == t,
    {
        match self {
            Cause::Io(e) => io_display(e),
            Cause::FromUtf8(e) => from_utf8_display(e),
            Cause::Iri(e) => e.display(),
            Cause::BlankNode(e) => e.display(),
            Cause::LanguageTag(e) => e.display(),
            Cause::Other(o) => o.display(),
        }
    }
}

impl Error {
    /// Builds an error from a printable error message.
    pub fn msg(msg: String) -> (r: Self)
        ensures
            r@ == (ErrorModel::Msg { msg: msg@ }),
    {
        Error { inner: ErrorKind::Msg { msg } }
    }

    /// Wraps another failure: anything offering the display/cause
    /// capability rides in the catch-all slot, behind one heap
    /// allocation, with its chain of display texts kept exactly.
    pub fn wrap<F: Failure + Send + Sync + 'static>(failure: F) -> (r: Self)
        ensures
            r@ == ErrorModel::Other(failure.chain()),
    {
        Error { inner: ErrorKind::Other(Box::new(failure.into_opaque())) }
    }

    /// The display text: exactly the message for `Msg`, with no added
    /// prefix or suffix; for every other kind, the payload's own text,
    /// verbatim.
    pub fn display(&self) -> (r: String)
        ensures
            self@.text() matches Some(t) ==> r@ == t,
    {
        match &self.inner {
            ErrorKind::Msg { msg } => msg.clone(),
            ErrorKind::Io(e) => io_display(e),
            ErrorKind::FromUtf8(e) => from_utf8_display(e),
            ErrorKind::Iri(e) => e.display(),
            ErrorKind::BlankNode(e) => e.display(),
            ErrorKind::LanguageTag(e) => e.display(),
            ErrorKind::Other(o) => o.display(),
        }
    }

    /// The failure that directly produced this error: the payload the
    /// error was built from, for every kind but `Msg`, which has no
    /// deeper cause.
    pub fn cause(&self) -> (r: Option<Cause<'_>>)
        ensures
            match self@.cause() {
                Some(c) => r matches Some(given) && given@ == c,
                None => r is None,
            },
    {
        match &self.inner {
            ErrorKind::Msg { .. } => None,
            ErrorKind::Io(e) => Some(Cause::Io(e)),
            ErrorKind::FromUtf8(e) => Some(Cause::FromUtf8(e)),
            ErrorKind::Iri(e) => Some(Cause::Iri(e)),
            ErrorKind::BlankNode(e) => Some(Cause::BlankNode(e)),
            ErrorKind::LanguageTag(e) => Some(Cause::LanguageTag(e)),
            ErrorKind::Other(o) => Some(Cause::Other(&**o)),
        }
    }

    /// Converts an operating system failure: held inline, by value,
    /// unchanged.
    pub fn from_io(error: std::io::Error) -> (r: Self)
        ensures
            r@ == ErrorModel::Io(error),
    {
        Error { inner: ErrorKind::Io(error) }
    }

    /// Converts a text decoding failure: held inline, by value, unchanged.
    pub fn from_utf8(error: std::string::FromUtf8Error) -> (r: Self)
        ensures
            r@ == ErrorModel::FromUtf8(error),
    {
        Error { inner: ErrorKind::FromUtf8(error) }
    }

    /// Converts an IRI parsing failure: held inline, by value, unchanged.
    pub fn from_iri(error: IriParseError) -> (r: Self)
        ensures
            r@ == ErrorModel::Iri(error.text()),
    {
        Error { inner: ErrorKind::Iri(error) }
    }

    /// Converts a blank node identifier parsing failure: held inline, by
    /// value, unchanged.
    pub fn from_blank_node(error: BlankNodeIdParseError) -> (r: Self)
        ensures
            r@ == ErrorModel::BlankNode(error.text()),
    {
        Error { inner: ErrorKind::BlankNode(error) }
    }

    /// Converts a language tag parsing failure: held inline, by value,
    /// unchanged.
    pub fn from_language_tag(error: LanguageTagParseError) -> (r: Self)
        ensures
            r@ == ErrorModel::LanguageTag(error.text()),
    {
        Error { inner: ErrorKind::LanguageTag(error) }
    }

    /// Converts a query language parsing failure, routing it through
    /// `wrap`: it is foreign to this core, so it takes the catch-all path.
    pub fn from_sparql(error: SparqlParseError) -> (r: Self)
        ensures
            r@ == ErrorModel::Other(seq![error.text()]),
    {
        Self::wrap(error)
    }

    /// Converts a Turtle family parser failure, routing its display text
    /// through `wrap`.
    pub fn from_turtle(error: rio_turtle::TurtleError) -> (r: Self)
        ensures
            r@ matches ErrorModel::Other(c) && c.len() == 1,
    {
        let text = turtle_display(&error);
        Self::wrap(OpaqueFailure::from_text(text))
    }

    /// Converts an XML document parser failure, routing its display text
    /// through `wrap`.
    pub fn from_rdf_xml(error: rio_xml::RdfXmlError) -> (r: Self)
        ensures
            r@ matches ErrorModel::Other(c) && c.len() == 1,
    {
        let text = rdf_xml_display(&error);
        Self::wrap(OpaqueFailure::from_text(text))
    }

    /// Converts an XML tokenizer failure, routing its display text through
    /// `wrap`.
    pub fn from_quick_xml(error: QuickXmlError) -> (r: Self)
        ensures
            r@ matches ErrorModel::Other(c) && c.len() == 1,
    {
        let text = quick_xml_display(&error);
        Self::wrap(OpaqueFailure::from_text(text))
    }

    /// Converts the platform's uninhabited type: a vacuous conversion,
    /// since no such value exists; it can never be called.
    pub fn from_platform_infallible(never: std::convert::Infallible) -> Self {
        crate::infallible::Infallible::from_platform(never).into_error()
    }
}

/// Law: an error built from a well-known failure keeps that failure as its
/// immediate cause, unchanged; where the failure's display text is
/// modelled, the cause displays exactly that text.
pub proof fn lemma_known_kind_cause_lossless(m: ErrorModel)
    ensures
        m matches ErrorModel::Io(e) ==> m.cause() == Some(CauseModel::Io(e)),
        m matches ErrorModel::FromUtf8(e) ==> m.cause() == Some(CauseModel::FromUtf8(e)),
        m matches ErrorModel::Iri(t) ==> m.cause() == Some(CauseModel::Iri(t))
            && CauseModel::Iri(t).text() == Some(t),
        m matches ErrorModel::BlankNode(t) ==> m.cause() == Some(CauseModel::BlankNode(t))
            && CauseModel::BlankNode(t).text() == Some(t),
        m matches ErrorModel::LanguageTag(t) ==> m.cause() == Some(CauseModel::LanguageTag(t))
            && CauseModel::LanguageTag(t).text() == Some(t),
{
}

/// Law: a wrapped failure becomes the error's immediate cause, and both
/// the error and the cause display the failure's own text, the first
/// entry of its chain.
pub proof fn lemma_wrap_cause_keeps_text(chain: Seq<Seq<char>>)
    ensures
        ErrorModel::Other(chain).cause() == Some(CauseModel::Other(chain)),
        ErrorModel::Other(chain).text() == Some(chain[0]),
        CauseModel::Other(chain).text() == Some(chain[0]),
{
}

/// Law: a message error displays exactly its text and has no deeper cause.
pub proof fn lemma_msg_displays_exactly(msg: Seq<char>)
    ensures
        (ErrorModel::Msg { msg }).text() == Some(msg),
        (ErrorModel::Msg { msg }).cause() is None,
{
}

} // verus!
