use sophia::literal::AsLiteral;
use sophia::matcher::{AnyOrExactly, AnyTerm, TermMatcher, ANY};
use sophia::term::{BoxTerm, RcTerm, RefTerm, StaticTerm, Term};

/// A term made from a number: one of the four variants in turn, with a
/// text that depends on the number.
fn numbered_term(n: u32) -> BoxTerm {
    let seed = n.wrapping_mul(2654435761).rotate_left(n % 13);
    match n % 5 {
        0 => BoxTerm::new_iri(&format!("http://example.org/{}/{}", n, seed)).unwrap(),
        1 => BoxTerm::new_bnode(&format!("b{}x{}", n, seed)).unwrap(),
        2 => BoxTerm::new_literal_lang(&format!("{} \n {}", seed, n), "en-GB").unwrap(),
        3 => BoxTerm::new_literal_dt(
            &format!("{}", seed),
            BoxTerm::new_iri(&format!("http://example.org/dt{}", n % 7)).unwrap(),
        )
        .unwrap(),
        _ => BoxTerm::new_variable(&format!("v{}", seed)).unwrap(),
    }
}

#[test]
fn wildcard_matches_everything_and_names_no_constant() {
    for n in 0..1000 {
        let t = numbered_term(n);
        assert!(ANY.matches(&t));
        assert!(AnyTerm {}.matches(&t.as_ref_term()));
        assert!(AnyOrExactly::<BoxTerm>::Any.matches(&t));
    }
    assert!(ANY.constant().is_none());
    assert!(AnyOrExactly::<BoxTerm>::Any.constant().is_none());
}

#[test]
fn set_matcher_matches_its_members_only() {
    let city = StaticTerm::new_iri("http://example.org/City").unwrap();
    let country = StaticTerm::new_iri("http://example.org/Country").unwrap();
    let person = RcTerm::new_iri("http://example.org/Person").unwrap();
    let set = [city, country];
    assert!(set[..].matches(&RcTerm::new_iri("http://example.org/City").unwrap()));
    assert!(set[..].matches(&RcTerm::new_iri_suffixed("http://example.org/", "Country").unwrap()));
    assert!(!set[..].matches(&person));
    assert!(set[..].constant().is_none());
    assert!(set.constant().is_none());
    assert!(set.matches(&city));
    assert!(!set.matches(&person));

    let singleton = [city];
    let c = singleton[..].constant();
    assert!(c.is_some());
    assert_eq!(c.unwrap(), &BoxTerm::new_iri("http://example.org/City").unwrap());
    assert!(singleton[..].matches(&city));
    assert!(!singleton[..].matches(&country));
}

#[test]
fn a_named_constant_is_matched_and_nothing_else_is() {
    let c = BoxTerm::new_literal_lang("chat", "fr-FR").unwrap();
    let exact = AnyOrExactly::Exactly(c.clone());
    let as_slice = [c.clone()];
    for n in 0..200 {
        let u = numbered_term(n);
        let same = u == c;
        assert!(!same);
        assert_eq!(c.matches(&u), same);
        assert_eq!(exact.matches(&u), same);
        assert_eq!(as_slice[..].matches(&u), same);
    }
    let again = RcTerm::new_literal_lang("chat", "FR-fr").unwrap();
    assert!(c.matches(&again));
    assert!(exact.matches(&again));
    assert!(as_slice[..].matches(&again));
    assert_eq!(c.constant().unwrap(), &again);
    assert_eq!(exact.constant().unwrap(), &again);
    assert_eq!(as_slice[..].constant().unwrap(), &again);
}

#[test]
fn optional_term_makes_a_matcher() {
    let none: Option<BoxTerm> = None;
    let any = AnyOrExactly::from(none);
    assert!(matches!(any, AnyOrExactly::Any));
    let t = BoxTerm::new_bnode("b").unwrap();
    let exactly = AnyOrExactly::from(Some(t.clone()));
    assert!(matches!(exactly, AnyOrExactly::Exactly(_)));
    assert!(exactly.matches(&t));
    assert!(!exactly.matches(&BoxTerm::new_bnode("c").unwrap()));
    assert!(any.matches(&t));
}

#[test]
fn arrays_never_name_a_constant() {
    let a = BoxTerm::new_iri("http://a/").unwrap();
    let b = BoxTerm::new_iri("http://b/").unwrap();
    let twice = [a.clone(), a.clone()];
    assert!(twice.constant().is_none());
    assert!(twice.matches(&a));
    assert!(!twice.matches(&b));
    let three = [a.clone(), b.clone(), a.clone()];
    assert!(three.constant().is_none());
    assert!(three.matches(&b));
    let twelve = [
        a.clone(), a.clone(), a.clone(), a.clone(), a.clone(), a.clone(),
        a.clone(), a.clone(), a.clone(), a.clone(), a.clone(), b.clone(),
    ];
    assert!(twelve.constant().is_none());
    assert!(twelve.matches(&b));
    assert!(!twelve.matches(&"a".as_term()));
}

#[test]
fn a_function_matches_by_content() {
    let is_literal = |t: &RefTerm| matches!(t, Term::Literal(_));
    assert!(is_literal.constant().is_none());
    assert!(is_literal.matches(&"x".as_term()));
    assert!(is_literal.matches(&BoxTerm::new_literal_lang("x", "en").unwrap()));
    assert!(!is_literal.matches(&BoxTerm::new_iri("x").unwrap()));
    let by_text = |t: &RefTerm| t.to_string() == "<http://a/b>";
    assert!(by_text.matches(&RcTerm::new_iri_suffixed("http://a/", "b").unwrap()));
    assert!(!by_text.matches(&RcTerm::new_iri("http://a/c").unwrap()));
}
