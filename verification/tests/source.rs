use sophia::error::TermError;
use sophia::parser::rio_common::{RawQuad, RawTerm, StrictRioSource};
use sophia::parser::trig::{parse_str, TriGParser};
use sophia::parser::ParseError;
use sophia::quad::Quadruple;
use sophia::term::BoxTerm;

fn raw(s: &str, p: &str, o: RawTerm, g: Option<&str>) -> RawQuad {
    RawQuad {
        subject: RawTerm::Iri(s.to_string()),
        predicate: p.to_string(),
        object: o,
        graph_name: g.map(|g| RawTerm::Iri(g.to_string())),
    }
}

#[test]
fn source_yields_quads_in_order_then_ends() {
    let quads = vec![
        raw("http://a/1", "http://a/p", RawTerm::BNode("b".into()), None),
        raw("http://a/2", "http://a/p", RawTerm::Simple("x".into()), Some("http://a/g")),
        raw("http://a/3", "http://a/p", RawTerm::Lang("x".into(), "en".into()), None),
        raw(
            "http://a/4",
            "http://a/p",
            RawTerm::Typed("1".into(), "http://a/dt".into()),
            None,
        ),
    ];
    let mut src = StrictRioSource::new(quads, None);
    assert!(!src.is_exhausted());
    let q1 = src.next().unwrap().unwrap();
    assert_eq!(q1.s().to_string(), "<http://a/1>");
    assert_eq!(q1.p().to_string(), "<http://a/p>");
    assert_eq!(q1.o().to_string(), "_:b");
    assert!(q1.g().is_none());
    let q2 = src.next().unwrap().unwrap();
    assert_eq!(q2.s().to_string(), "<http://a/2>");
    assert_eq!(q2.o().to_string(), "\"x\"");
    assert_eq!(q2.g().unwrap().to_string(), "<http://a/g>");
    let q3 = src.next().unwrap().unwrap();
    assert_eq!(q3.o().to_string(), "\"x\"@en");
    let q4 = src.next().unwrap().unwrap();
    assert_eq!(q4.o().to_string(), "\"1\"^^<http://a/dt>");
    assert!(src.is_exhausted());
    assert!(src.next().is_none());
    assert!(src.next().is_none());
}

#[test]
fn source_yields_the_failure_once_after_the_quads() {
    let failure = ParseError::Syntax {
        message: "premature end of file".to_string(),
        position: Some((3, 7)),
    };
    let quads = vec![raw("http://a/1", "http://a/p", RawTerm::BNode("b".into()), None)];
    let mut src = StrictRioSource::new(quads, Some(failure.clone()));
    assert!(matches!(src.next(), Some(Ok(_))));
    assert!(!src.is_exhausted());
    assert_eq!(src.next(), Some(Err(failure)));
    assert!(src.is_exhausted());
    assert_eq!(src.next(), None);
    assert_eq!(src.next(), None);
}

#[test]
fn source_fails_on_a_term_that_breaks_a_rule_and_yields_nothing_more() {
    let quads = vec![
        raw("http://a/1", "http://a/p", RawTerm::BNode("b".into()), None),
        raw("http://a/2", "http://a/p", RawTerm::Lang("x".into(), "en-".into()), None),
        raw("http://a/3", "http://a/p", RawTerm::BNode("c".into()), None),
    ];
    let failure = ParseError::Syntax { message: "late".to_string(), position: None };
    let mut src = StrictRioSource::new(quads, Some(failure));
    assert!(matches!(src.next(), Some(Ok(_))));
    assert_eq!(
        src.next(),
        Some(Err(ParseError::Term(TermError::InvalidLanguageTag("en-".to_string()))))
    );
    assert!(src.is_exhausted());
    assert_eq!(src.next(), None);
    assert_eq!(src.next(), None);
}

#[test]
fn first_broken_rule_of_a_quad_is_reported() {
    let q = RawQuad {
        subject: RawTerm::BNode("a.".into()),
        predicate: "not an iri".into(),
        object: RawTerm::Typed("1".into(), "a b".into()),
        graph_name: Some(RawTerm::Iri("<".into())),
    };
    assert_eq!(q.into_quad().unwrap_err(), TermError::InvalidBlankNodeId("a.".into()));
    let q = RawQuad { subject: RawTerm::BNode("a".into()), ..q };
    assert_eq!(q.into_quad().unwrap_err(), TermError::InvalidIri("not an iri".into()));
    let q = RawQuad { predicate: "http://a/p".into(), ..q };
    assert_eq!(q.into_quad().unwrap_err(), TermError::InvalidIri("a b".into()));
    let q = RawQuad { object: RawTerm::Iri("a b".into()), ..q };
    assert_eq!(q.into_quad().unwrap_err(), TermError::InvalidIri("a b".into()));
    let q = RawQuad { object: RawTerm::Simple("a b".into()), ..q };
    assert_eq!(q.into_quad().unwrap_err(), TermError::InvalidIri("<".into()));
    let q = RawQuad { graph_name: None, ..q };
    let quad = q.into_quad().unwrap();
    assert_eq!(quad.s(), &BoxTerm::new_bnode("a").unwrap());
    assert_eq!(quad.o().to_string(), "\"a b\"");
    assert!(quad.g().is_none());
}

#[test]
fn raw_terms_become_terms() {
    assert_eq!(
        RawTerm::Iri("http://a/".into()).into_term().unwrap(),
        BoxTerm::new_iri("http://a/").unwrap()
    );
    assert_eq!(
        RawTerm::BNode("b".into()).into_term().unwrap(),
        BoxTerm::new_bnode("b").unwrap()
    );
    assert_eq!(
        RawTerm::Simple("s".into()).into_term().unwrap(),
        BoxTerm::new_literal_dt("s", sophia::ns::xsd::string().copy_into()).unwrap()
    );
    assert_eq!(
        RawTerm::Lang("s".into(), "EN".into()).into_term().unwrap(),
        BoxTerm::new_literal_lang("s", "en").unwrap()
    );
    assert_eq!(
        RawTerm::Typed("1".into(), "http://a/dt".into()).into_term().unwrap(),
        BoxTerm::new_literal_dt("1", BoxTerm::new_iri("http://a/dt").unwrap()).unwrap()
    );
    assert_eq!(
        RawTerm::BNode("".into()).into_term().unwrap_err(),
        TermError::InvalidBlankNodeId("".into())
    );
}

#[test]
fn parse_errors_describe_and_locate_themselves() {
    let e = ParseError::Syntax { message: "unexpected character".to_string(), position: Some((2, 5)) };
    assert_eq!(e.message(), "unexpected character");
    assert_eq!(e.position(), Some((2, 5)));
    let e = ParseError::Term(TermError::InvalidIri("a b".to_string()));
    assert_eq!(e.message(), "invalid IRI: a b");
    assert_eq!(e.position(), None);
}

#[test]
fn trig_relative_iris_are_resolved_against_the_base() {
    let p = TriGParser { base: Some("http://localhost/ex".to_string()) };
    let mut src = p.parse("<#a> <#b> <c> .");
    let q = src.next().unwrap().unwrap();
    assert_eq!(q.s().to_string(), "<http://localhost/ex#a>");
    assert_eq!(q.p().to_string(), "<http://localhost/ex#b>");
    assert_eq!(q.o().to_string(), "<http://localhost/c>");
    assert!(q.g().is_none());
    assert!(src.next().is_none());
}

#[test]
fn trig_without_base_uses_the_stand_in() {
    let mut src = parse_str("<http://a/s> <http://a/p> \"v\"@en-GB, 42 .");
    let q = src.next().unwrap().unwrap();
    assert_eq!(q.o().to_string(), "\"v\"@en-gb");
    let q = src.next().unwrap().unwrap();
    assert_eq!(q.o().to_string(), "\"42\"^^<http://www.w3.org/2001/XMLSchema#integer>");
    assert!(src.next().is_none());
    let default = TriGParser::default();
    assert!(default.base.is_none());
    let mut src = default.parse_str("<s> <p> <o> .");
    let q = src.next().unwrap().unwrap();
    assert_eq!(q.s().to_string(), "<x-no-base:///s>");
}

#[test]
fn trig_invalid_base_fails_at_the_first_pull() {
    let p = TriGParser { base: Some("not a base".to_string()) };
    let mut src = p.parse("<http://a/s> <http://a/p> <http://a/o> .");
    assert!(matches!(src.next(), Some(Err(ParseError::Syntax { .. }))));
    assert!(src.next().is_none());
}

#[test]
fn trig_empty_document_has_no_quads() {
    let mut src = parse_str("");
    assert!(src.is_exhausted());
    assert!(src.next().is_none());
}

#[test]
fn trig_blank_nodes_and_typed_literals_come_through() {
    let text = "@prefix x: <http://a/> .\n_:g { [] x:p \"1.5\"^^x:dt . }\n{ x:s x:p _:b . }\n";
    let mut src = parse_str(text);
    let q = src.next().unwrap().unwrap();
    assert!(q.s().to_string().starts_with("_:"));
    assert_eq!(q.p().to_string(), "<http://a/p>");
    assert_eq!(q.o().to_string(), "\"1.5\"^^<http://a/dt>");
    assert_eq!(q.g().unwrap().to_string(), "_:g");
    let q = src.next().unwrap().unwrap();
    assert_eq!(q.s().to_string(), "<http://a/s>");
    assert_eq!(q.o().to_string(), "_:b");
    assert!(q.g().is_none());
    assert!(src.next().is_none());
}

#[test]
fn trig_unknown_prefix_is_a_syntax_error() {
    let mut src = parse_str("<http://a/s> <http://a/p> <http://a/o> .\nx:s x:p x:o .\n");
    assert!(matches!(src.next(), Some(Ok(_))));
    match src.next() {
        Some(Err(e)) => {
            assert!(e.message().contains("unknown prefix"));
            assert_eq!(e.position().map(|p| p.0), Some(2));
        }
        other => panic!("expected an error, got {:?}", other),
    }
    assert!(src.next().is_none());
}
