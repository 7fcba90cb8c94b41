use sophia::iri::{Iri, Normalization};
use sophia::literal_kind::LiteralKind;
use sophia::term_data::TermData;
use std::borrow::Cow;
use std::rc::Rc;

fn parts<T: TermData>(iri: &Iri<T>) -> (String, Option<String>) {
    (
        iri.ns().as_str().to_string(),
        iri.suffix().as_ref().map(|s| s.as_str().to_string()),
    )
}

#[test]
fn iri_cut_at_last_hash_or_slash() {
    let whole: Iri<Box<str>> = Iri::new("http://example.org/ns#term").unwrap();
    let n = whole.normalized(Normalization::LastHashOrSlash);
    assert!(matches!(n, Cow::Owned(_)));
    assert_eq!(parts(&n), ("http://example.org/ns#".to_string(), Some("term".to_string())));
    assert!(*n == whole);
    assert_eq!(n.is_absolute(), whole.is_absolute());

    let slash: Iri<Box<str>> = Iri::new_suffixed("http://example.org/a/", "b/c").unwrap();
    let n = slash.normalized(Normalization::LastHashOrSlash);
    assert_eq!(parts(&n), ("http://example.org/a/b/".to_string(), Some("c".to_string())));
    assert_eq!(n.value(), "http://example.org/a/b/c");
}

#[test]
fn iri_already_cut_is_borrowed() {
    let cut: Iri<Rc<str>> = Iri::new_suffixed("http://example.org/ns#", "term").unwrap();
    let n = cut.normalized(Normalization::LastHashOrSlash);
    assert!(matches!(n, Cow::Borrowed(_)));
    assert!(cut.is_normalized(Normalization::LastHashOrSlash));
    assert!(!cut.is_normalized(Normalization::NoSuffix));

    let ends: Iri<Rc<str>> = Iri::new("http://example.org/").unwrap();
    assert!(matches!(ends.normalized(Normalization::LastHashOrSlash), Cow::Borrowed(_)));
    assert!(matches!(ends.normalized(Normalization::NoSuffix), Cow::Borrowed(_)));

    let bare: Iri<Rc<str>> = Iri::new("term").unwrap();
    assert!(matches!(bare.normalized(Normalization::LastHashOrSlash), Cow::Borrowed(_)));
}

#[test]
fn iri_without_suffix() {
    let cut: Iri<String> = Iri::new_suffixed("http://example.org/ns#", "term").unwrap();
    let n = cut.normalized(Normalization::NoSuffix);
    assert!(matches!(n, Cow::Owned(_)));
    assert_eq!(parts(&n), ("http://example.org/ns#term".to_string(), None));
    assert!(*n == cut);
}

#[test]
fn iri_with_odd_cuts_is_cut_anew() {
    let empty_suffix: Iri<String> = Iri::new_suffixed("http://example.org/", "").unwrap();
    let n = empty_suffix.normalized(Normalization::LastHashOrSlash);
    assert!(matches!(n, Cow::Owned(_)));
    assert_eq!(parts(&n), ("http://example.org/".to_string(), None));

    let no_separator: Iri<String> = Iri::new_suffixed("te", "rm").unwrap();
    let n = no_separator.normalized(Normalization::LastHashOrSlash);
    assert!(matches!(n, Cow::Owned(_)));
    assert_eq!(parts(&n), ("term".to_string(), None));

    let late: Iri<String> = Iri::new_suffixed("http://example.org", "/a#b").unwrap();
    let n = late.normalized(Normalization::LastHashOrSlash);
    assert_eq!(parts(&n), ("http://example.org/a#".to_string(), Some("b".to_string())));
}

#[test]
fn literal_kind_normalized() {
    let lang: LiteralKind<Box<str>> = LiteralKind::Lang("en".into());
    assert!(matches!(lang.normalized(Normalization::NoSuffix), Cow::Borrowed(_)));
    assert!(matches!(lang.normalized(Normalization::LastHashOrSlash), Cow::Borrowed(_)));

    let dt: LiteralKind<Box<str>> =
        LiteralKind::Datatype(Iri::new("http://www.w3.org/2001/XMLSchema#integer").unwrap());
    assert!(matches!(dt.normalized(Normalization::NoSuffix), Cow::Borrowed(_)));
    let n = dt.normalized(Normalization::LastHashOrSlash);
    match &n {
        Cow::Owned(LiteralKind::Datatype(iri)) => {
            assert_eq!(
                parts(iri),
                ("http://www.w3.org/2001/XMLSchema#".to_string(), Some("integer".to_string()))
            );
        }
        _ => panic!("expected a new datatype"),
    }
    assert!(*n == dt);
    assert!(matches!(n.normalized(Normalization::LastHashOrSlash), Cow::Borrowed(_)));
}

#[test]
fn literal_kind_copied_with_a_factory() {
    let lang: LiteralKind<Box<str>> = LiteralKind::Lang("en-GB".into());
    let copy: LiteralKind<Rc<str>> = LiteralKind::from_with(&lang, |s: &str| Rc::from(s));
    assert!(copy == lang);
    assert_eq!(copy.hash_key(), "en-gb");
    let dt: LiteralKind<Box<str>> =
        LiteralKind::Datatype(Iri::new_suffixed("http://a/", "dt").unwrap());
    let copy: LiteralKind<String> = LiteralKind::from_with(&dt, |s: &str| s.to_string());
    assert!(copy == dt);
    assert!(copy != lang);
    assert_eq!(copy.hash_key(), "http://a/dt");
    match copy {
        LiteralKind::Datatype(iri) => {
            assert_eq!(parts(&iri), ("http://a/".to_string(), Some("dt".to_string())))
        }
        _ => panic!("expected a datatype"),
    }
}
