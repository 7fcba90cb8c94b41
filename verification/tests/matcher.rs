use sophia::matcher::{AnyOrExactly, TermMatcher, ANY};
use sophia::term::{BoxTerm, RcTerm, RefTerm};

#[test]
fn test_term_as_matcher() {
    let m = BoxTerm::new_iri("http://champin.net/#pa").unwrap();
    // comparing to a term using a different term data, and differently cut,
    // to make the test less obvious
    let t1 = RcTerm::new_iri_suffixed("http://champin.net/#", "pa").unwrap();
    let t2 = RcTerm::new_iri("http://example.org/").unwrap();

    let mc = TermMatcher::constant(&m);
    assert!(mc.is_some());
    assert_eq!(mc.unwrap(), &t1);
    assert!(TermMatcher::matches(&m, &t1));
    assert!(!TermMatcher::matches(&m, &t2));
}

#[test]
fn test_any_as_matcher() {
    let m = ANY;
    // comparing to a term using a different term data, and differently cut,
    // to make the test less obvious
    let t1 = RcTerm::new_iri_suffixed("http://champin.net/#", "pa").unwrap();

    let mc = TermMatcher::constant(&m);
    assert!(mc.is_none());
    assert!(TermMatcher::matches(&m, &t1));
}

#[test]
fn test_aoe_any_as_matcher() {
    let m = AnyOrExactly::<BoxTerm>::Any;
    // comparing to a term using a different term data, and differently cut,
    // to make the test less obvious
    let t1 = RcTerm::new_iri_suffixed("http://champin.net/#", "pa").unwrap();

    let mc = TermMatcher::constant(&m);
    assert!(mc.is_none());
    assert!(TermMatcher::matches(&m, &t1));
}

#[test]
fn test_aoe_exactly_as_matcher() {
    let m = AnyOrExactly::Exactly(BoxTerm::new_iri("http://champin.net/#pa").unwrap());
    // comparing to a term using a different term data, and differently cut,
    // to make the test less obvious
    let t1 = RcTerm::new_iri_suffixed("http://champin.net/#", "pa").unwrap();
    let t2 = RcTerm::new_iri("http://example.org/").unwrap();

    let mc = TermMatcher::constant(&m);
    assert!(mc.is_some());
    assert_eq!(mc.unwrap(), &t1);
    assert!(TermMatcher::matches(&m, &t1));
    assert!(!TermMatcher::matches(&m, &t2));
}

#[test]
fn test_array2_as_matcher() {
    let m = [
        BoxTerm::new_iri("http://champin.net/#pa").unwrap(),
        BoxTerm::new_iri("http://example.org/").unwrap(),
    ];
    // comparing to a term using a different term data, and differently cut,
    // to make the test less obvious
    let t1 = RcTerm::new_iri_suffixed("http://champin.net/#", "pa").unwrap();
    let t2 = RcTerm::new_iri("http://example.org/").unwrap();
    let t3 = RcTerm::new_iri("http://example.org/other").unwrap();

    let mc = TermMatcher::constant(&m);
    assert!(mc.is_none());
    assert!(TermMatcher::matches(&m[..], &t1));
    assert!(TermMatcher::matches(&m[..], &t2));
    assert!(!TermMatcher::matches(&m[..], &t3));
}

#[test]
fn test_array1_as_matcher() {
    let m = [BoxTerm::new_iri("http://champin.net/#pa").unwrap()];
    // comparing to a term using a different term data, and differently cut,
    // to make the test less obvious
    let t1 = RcTerm::new_iri_suffixed("http://champin.net/#", "pa").unwrap();
    let t2 = RcTerm::new_iri("http://example.org/").unwrap();

    let mc = TermMatcher::constant(&m[..]);
    assert!(mc.is_some());
    assert_eq!(mc.unwrap(), &t1);
    assert!(TermMatcher::matches(&m[..], &t1));
    assert!(!TermMatcher::matches(&m[..], &t2));
}

#[test]
fn test_array0_as_matcher() {
    let m: [BoxTerm; 0] = [];
    // comparing to a term using a different term data, and differently cut,
    // to make the test less obvious
    let t1 = RcTerm::new_iri_suffixed("http://champin.net/#", "pa").unwrap();

    let mc = TermMatcher::constant(&m[..]);
    assert!(mc.is_none());
    assert!(!TermMatcher::matches(&m[..], &t1));
}

#[test]
fn test_func_as_matcher() {
    let t1 = RcTerm::new_iri_suffixed("http://champin.net/#", "pa").unwrap();
    let t2 = RcTerm::new_iri("http://example.org/").unwrap();

    let m = |t: &RefTerm| t.value().starts_with("http://champin");
    assert!(TermMatcher::constant(&m).is_none());
    assert!(TermMatcher::matches(&m, &t1));
    assert!(!TermMatcher::matches(&m, &t2));
}
