use oxigraph::{
    BlankNodeIdParseError, Error, Failure, IriParseError, LanguageTagParseError, OpaqueFailure,
    SparqlParseError,
};
use rio_api::parser::TriplesParser;

#[test]
fn msg_displays_exactly() {
    let e = Error::msg("x".to_string());
    assert_eq!(e.display(), "x");
}

#[test]
fn msg_with_longer_text_adds_no_decoration() {
    let e = Error::msg("something went wrong".to_string());
    assert_eq!(e.display(), "something went wrong");
}

#[test]
fn empty_msg_displays_empty() {
    let e = Error::msg(String::new());
    assert_eq!(e.display(), "");
}

#[test]
fn msg_has_no_cause() {
    let e = Error::msg("x".to_string());
    assert!(e.cause().is_none());
}

#[test]
fn invalid_iri_failure_keeps_parser_message() {
    // The identifier parser rejects the text `not an iri` and reports its
    // own message; the facade must reproduce that message exactly.
    let failure = IriParseError::new("No scheme found in an absolute IRI 'not an iri'".to_string());
    let own_text = failure.display();
    let e = Error::from_iri(failure);
    assert_eq!(e.display(), own_text);
    assert_eq!(e.cause().expect("an IRI failure has a cause").display(), own_text);
}

#[test]
fn blank_node_failure_keeps_parser_message() {
    let failure = BlankNodeIdParseError::new("The blank node identifier is empty".to_string());
    let own_text = failure.display();
    let e = Error::from_blank_node(failure);
    assert_eq!(e.display(), own_text);
    assert_eq!(e.cause().expect("a blank node failure has a cause").display(), own_text);
}

#[test]
fn language_tag_failure_keeps_parser_message() {
    let failure = LanguageTagParseError::new("invalid language subtag".to_string());
    let own_text = failure.display();
    let e = Error::from_language_tag(failure);
    assert_eq!(e.display(), own_text);
    assert_eq!(e.cause().expect("a language tag failure has a cause").display(), own_text);
}

#[test]
fn io_failure_keeps_text_and_cause() {
    let io = std::io::Error::new(std::io::ErrorKind::NotFound, "the store is gone");
    let own_text = io.to_string();
    let e = Error::from_io(io);
    assert_eq!(e.display(), own_text);
    assert_eq!(e.cause().expect("an I/O failure has a cause").display(), own_text);
}

#[test]
fn utf8_failure_keeps_text_and_cause() {
    let bad = String::from_utf8(vec![0x66, 0x6f, 0x80]).unwrap_err();
    let own_text = bad.to_string();
    let e = Error::from_utf8(bad);
    assert_eq!(e.display(), own_text);
    assert_eq!(e.cause().expect("a decoding failure has a cause").display(), own_text);
}

#[test]
fn wrap_displays_the_wrapped_text() {
    let e = Error::wrap(OpaqueFailure::from_text("boom".to_string()));
    assert_eq!(e.display(), "boom");
}

#[test]
fn wrap_cause_displays_like_the_original() {
    let failure = OpaqueFailure::from_text("boom".to_string());
    let own_text = failure.display();
    let e = Error::wrap(failure);
    assert_eq!(e.cause().expect("a wrapped failure has a cause").display(), own_text);
}

#[test]
fn wrapped_chain_is_kept() {
    let inner = OpaqueFailure::from_text("inner".to_string());
    let outer = OpaqueFailure::new("outer".to_string(), Some(inner));
    let e = Error::wrap(outer);
    assert_eq!(e.display(), "outer");
    let cause = e.cause().expect("a wrapped failure has a cause");
    assert_eq!(cause.display(), "outer");
}

#[test]
fn opaque_failure_exposes_its_own_cause() {
    let inner = OpaqueFailure::from_text("inner".to_string());
    let outer = OpaqueFailure::new("outer".to_string(), Some(inner));
    assert_eq!(outer.display(), "outer");
    let step = outer.cause().expect("outer was built with a cause");
    assert_eq!(step.display(), "inner");
    assert!(step.cause().is_none());
}

#[test]
fn opaque_failure_without_cause_has_none() {
    let alone = OpaqueFailure::from_text("alone".to_string());
    assert!(alone.cause().is_none());
}

#[test]
fn sparql_failure_keeps_parser_message() {
    let failure = SparqlParseError::new("unexpected token at line 3".to_string());
    let own_text = failure.display();
    let e = Error::from_sparql(failure);
    assert_eq!(e.display(), own_text);
    assert_eq!(e.cause().expect("a query failure has a cause").display(), own_text);
}

fn make_turtle_error() -> rio_turtle::TurtleError {
    let mut parser = rio_turtle::TurtleParser::new(b"@@@ this is not turtle".as_ref(), None);
    parser
        .parse_all(&mut |_| Ok::<(), rio_turtle::TurtleError>(()))
        .expect_err("the document is not valid Turtle")
}

#[test]
fn turtle_failure_keeps_text_and_cause() {
    let failure = make_turtle_error();
    let own_text = failure.to_string();
    let e = Error::from_turtle(failure);
    assert_eq!(e.display(), own_text);
    assert_eq!(e.cause().expect("a parser failure has a cause").display(), own_text);
}

fn make_rdf_xml_error() -> rio_xml::RdfXmlError {
    let mut parser = rio_xml::RdfXmlParser::new(b"<rdf:RDF".as_ref(), None);
    parser
        .parse_all(&mut |_| Ok::<(), rio_xml::RdfXmlError>(()))
        .expect_err("the document is not valid XML")
}

#[test]
fn rdf_xml_failure_keeps_text_and_cause() {
    let failure = make_rdf_xml_error();
    let own_text = failure.to_string();
    let e = Error::from_rdf_xml(failure);
    assert_eq!(e.display(), own_text);
    assert_eq!(e.cause().expect("a parser failure has a cause").display(), own_text);
}

#[test]
fn quick_xml_failure_keeps_text_and_cause() {
    let io = std::io::Error::new(std::io::ErrorKind::UnexpectedEof, "socket closed");
    let failure = quick_xml::Error::from(io);
    let own_text = failure.to_string();
    let e = Error::from_quick_xml(failure);
    assert_eq!(e.display(), own_text);
    assert_eq!(e.cause().expect("a tokenizer failure has a cause").display(), own_text);
}
