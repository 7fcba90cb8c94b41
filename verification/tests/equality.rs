use sophia::literal::AsLiteral;
use sophia::term::{ArcTerm, BoxTerm, RcTerm, RefTerm, StaticTerm, Term};
use std::collections::hash_map::DefaultHasher;
use std::hash::{Hash, Hasher};

fn hash_of<T: Hash>(t: &T) -> u64 {
    let mut h = DefaultHasher::new();
    t.hash(&mut h);
    h.finish()
}

#[test]
fn equality_is_an_equivalence_across_storages() {
    let a = BoxTerm::new_iri("http://example.org/foo/bar").unwrap();
    let b = RcTerm::new_iri_suffixed("http://example.org/foo/", "bar").unwrap();
    let c = ArcTerm::new_iri_suffixed("http://example.org/", "foo/bar").unwrap();
    let d: Term<String> = Term::new_iri("http://example.org/foo/bar").unwrap();
    let e = StaticTerm::new_iri("http://example.org/foo/bar").unwrap();
    // reflexive
    assert!(a == a);
    assert!(b == b);
    // mutually equal, in both orders
    assert!(a == b);
    assert!(b == a);
    assert!(b == c);
    assert!(c == b);
    // transitive with a third, stored differently
    assert!(a == c);
    assert!(c == d);
    assert!(d == e);
    assert!(a == e);
    // and all hash alike
    assert_eq!(hash_of(&a), hash_of(&b));
    assert_eq!(hash_of(&b), hash_of(&c));
    assert_eq!(hash_of(&c), hash_of(&d));
    assert_eq!(hash_of(&d), hash_of(&e));
}

#[test]
fn terms_of_different_variants_are_never_equal() {
    let iri = BoxTerm::new_iri("a").unwrap();
    let bnode = BoxTerm::new_bnode("a").unwrap();
    let var = BoxTerm::new_variable("a").unwrap();
    let lit = "a".as_term();
    assert!(iri != bnode);
    assert!(iri != var);
    assert!(iri != lit);
    assert!(bnode != var);
    assert!(bnode != lit);
    assert!(var != lit);
    assert!(bnode == RcTerm::new_bnode("a").unwrap());
    assert!(var == RcTerm::new_variable("a").unwrap());
    assert!(bnode != RcTerm::new_bnode("b").unwrap());
    assert!(var != RcTerm::new_variable("b").unwrap());
    assert!(iri != RcTerm::new_iri("b").unwrap());
}

#[test]
fn language_tags_are_compared_without_case() {
    let a = BoxTerm::new_literal_lang("chat", "fr-FR").unwrap();
    let b = RcTerm::new_literal_lang("chat", "fr-fr").unwrap();
    let c = RcTerm::new_literal_lang("chat", "fr").unwrap();
    assert!(a == b);
    assert!(b == a);
    assert_eq!(hash_of(&a), hash_of(&b));
    assert!(a != c);
    assert!(b != c);
    // the lexical value is compared as it is
    let d = RcTerm::new_literal_lang("Chat", "fr-FR").unwrap();
    assert!(a != d);
}

#[test]
fn plain_literal_never_equals_language_tagged_literal() {
    let plain = "chat".as_term();
    let tagged = StaticTerm::new_literal_lang("chat", "fr").unwrap();
    assert!(plain != tagged);
    assert!(tagged != plain);
    let typed = BoxTerm::new_literal_dt("chat", sophia::ns::xsd::string().copy_into()).unwrap();
    assert!(plain == typed);
    assert_eq!(hash_of(&plain), hash_of(&typed));
}

#[test]
fn datatypes_are_compared_by_the_text_of_their_iris() {
    let int1 = BoxTerm::new_literal_dt(
        "42",
        BoxTerm::new_iri("http://www.w3.org/2001/XMLSchema#integer").unwrap(),
    )
    .unwrap();
    let int2 = StaticTerm::new_literal_dt("42", sophia::ns::xsd::integer()).unwrap();
    let dec = StaticTerm::new_literal_dt("42", sophia::ns::xsd::decimal()).unwrap();
    assert!(int1 == int2);
    assert_eq!(hash_of(&int1), hash_of(&int2));
    assert!(int1 != dec);
}

#[test]
fn hash_texts_are_the_content_with_the_tag_in_lower_case() {
    let a = BoxTerm::new_literal_lang("chat", "fr-FR").unwrap();
    assert_eq!(a.hash_texts(), vec!["chat".to_string(), "fr-fr".to_string()]);
    let b = BoxTerm::new_iri_suffixed("http://a/", "b").unwrap();
    assert_eq!(b.hash_texts(), vec!["http://a/b".to_string()]);
    let c = BoxTerm::new_literal_dt("1", b).unwrap();
    assert_eq!(c.hash_texts(), vec!["1".to_string(), "http://a/b".to_string()]);
    assert_eq!(BoxTerm::new_bnode("x").unwrap().hash_texts(), vec!["x".to_string()]);
    assert_eq!(BoxTerm::new_variable("y").unwrap().hash_texts(), vec!["y".to_string()]);
}

#[test]
fn copies_in_another_storage_are_the_same_term() {
    let a = BoxTerm::new_literal_lang("chat", "fr-FR").unwrap();
    let b: RcTerm = a.copy_into();
    let c: RefTerm = a.as_ref_term();
    let d: Term<String> = Term::from_with(&a, |s: &str| s.to_string());
    let e: ArcTerm = c.copy_with(|s: &str| std::sync::Arc::from(s));
    assert!(a == b);
    assert!(a == c);
    assert!(a == d);
    assert!(a == e);
    assert_eq!(b.to_string(), "\"chat\"@fr-FR");
    assert_eq!(e.value(), "chat");
    let i = BoxTerm::new_iri_suffixed("http://a/", "b").unwrap();
    let j: RcTerm = i.copy_into();
    assert!(i == j);
    assert_eq!(j.value(), "http://a/b");
    assert!(j.is_absolute());
}
