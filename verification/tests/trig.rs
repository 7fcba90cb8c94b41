use sophia::matcher::{TermMatcher, ANY};
use sophia::ns::{rdf, xsd};
use sophia::parser::rio_common::BoxQuad;
use sophia::parser::trig::TriGParser;
use sophia::parser::ParseError;
use sophia::quad::Quadruple;
use sophia::term::StaticTerm;

/// The quads of `d` whose four terms match the four matchers.
fn quads_matching<'a, S, P, O, G>(
    d: &'a [BoxQuad],
    ms: &'a S,
    mp: &'a P,
    mo: &'a O,
    mg: &'a G,
) -> impl Iterator<Item = &'a BoxQuad> + 'a
where
    S: TermMatcher,
    P: TermMatcher,
    O: TermMatcher,
    G: TermMatcher,
{
    d.iter().filter(move |q| {
        ms.matches(q.s())
            && mp.matches(q.p())
            && mo.matches(q.o())
            && q.g().map_or(false, |g| mg.matches(g))
    })
}

#[test]
fn test_simple_trig_string() {
    let turtle = r#"
            @prefix : <http://example.org/ns/> .

            <#g1> {
                <#me> :knows _:alice.
            }
            <#g2> {
                _:alice a :Person ; :name "Alice".
            }
        "#;

    let mut d: Vec<BoxQuad> = Vec::new();
    let p = TriGParser {
        base: Some("http://localhost/ex".into()),
    };
    let mut source = p.parse_str(&turtle);
    let mut c = 0;
    while let Some(pulled) = source.next() {
        d.push(pulled.unwrap());
        c += 1;
    }
    assert_eq!(c, 3);
    assert!(quads_matching(
        &d,
        &StaticTerm::new_iri("http://localhost/ex#me").unwrap(),
        &StaticTerm::new_iri("http://example.org/ns/knows").unwrap(),
        &ANY,
        &StaticTerm::new_iri("http://localhost/ex#g1").unwrap(),
    )
    .next()
    .is_some());
    assert!(quads_matching(
        &d,
        &ANY,
        &rdf::type_(),
        &StaticTerm::new_iri("http://example.org/ns/Person").unwrap(),
        &StaticTerm::new_iri("http://localhost/ex#g2").unwrap(),
    )
    .next()
    .is_some());
    assert!(quads_matching(
        &d,
        &ANY,
        &StaticTerm::new_iri("http://example.org/ns/name").unwrap(),
        &StaticTerm::new_literal_dt("Alice", xsd::string()).unwrap(),
        &StaticTerm::new_iri("http://localhost/ex#g2").unwrap(),
    )
    .next()
    .is_some());
}

#[test]
fn trig_query_returns_exactly_one_fact() {
    let turtle = "@prefix : <http://example.org/ns/> .\n<#g1> { <#me> :knows _:alice . }\n<#g2> { _:alice a :Person ; :name \"Alice\" . }\n";
    let p = TriGParser {
        base: Some("http://localhost/ex".into()),
    };
    let mut source = p.parse(turtle);
    let mut d: Vec<BoxQuad> = Vec::new();
    while let Some(pulled) = source.next() {
        d.push(pulled.unwrap());
    }
    assert_eq!(d.len(), 3);
    let found = quads_matching(
        &d,
        &StaticTerm::new_iri("http://localhost/ex#me").unwrap(),
        &StaticTerm::new_iri("http://example.org/ns/knows").unwrap(),
        &ANY,
        &StaticTerm::new_iri("http://localhost/ex#g1").unwrap(),
    )
    .count();
    assert_eq!(found, 1);
}

#[test]
fn trig_unterminated_literal_fails_then_ends() {
    let text = "<http://a/s> <http://a/p> <http://a/o> .\n<http://a/s> <http://a/p> \"never closed .\n";
    let p = TriGParser { base: None };
    let mut source = p.parse_str(text);
    let first = source.next();
    assert!(matches!(first, Some(Ok(_))));
    let second = source.next();
    match second {
        Some(Err(ParseError::Syntax { message, position })) => {
            assert!(!message.is_empty());
            assert!(position.is_some());
        }
        other => panic!("expected a syntax error, got {:?}", other),
    }
    assert!(source.is_exhausted());
    assert!(source.next().is_none());
    assert!(source.next().is_none());
}
