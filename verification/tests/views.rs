use sophia::quad::Quadruple;
use sophia::term::{BoxTerm, StaticTerm};
use sophia::triple::Triple;

fn spo() -> [BoxTerm; 3] {
    [
        BoxTerm::new_iri("http://example.org/s").unwrap(),
        BoxTerm::new_iri("http://example.org/p").unwrap(),
        BoxTerm::new_literal_lang("o", "en").unwrap(),
    ]
}

#[test]
fn triple_as_default_graph_quad_and_back() {
    let t = spo();
    let q = spo().as_quad();
    assert_eq!(q.s(), &t[0]);
    assert_eq!(q.p(), &t[1]);
    assert_eq!(q.o(), &t[2]);
    assert!(q.g().is_none());
    let back = q.unwrap();
    assert_eq!(back[0], t[0]);
    assert_eq!(back[1], t[1]);
    assert_eq!(back[2], t[2]);
}

#[test]
fn triple_as_named_graph_quad_and_back() {
    let t = spo();
    let g = BoxTerm::new_iri("http://example.org/g").unwrap();
    let q = spo().as_quad_from(g.clone());
    assert_eq!(q.s(), &t[0]);
    assert_eq!(q.p(), &t[1]);
    assert_eq!(q.o(), &t[2]);
    assert_eq!(q.g(), Some(&g));
    let back = q.unwrap();
    assert_eq!(back[0], t[0]);
    assert_eq!(back[1], t[1]);
    assert_eq!(back[2], t[2]);
}

#[test]
fn references_to_triples_are_triples() {
    let t = spo();
    let r = &t;
    assert_eq!(Triple::s(&r), &t[0]);
    assert_eq!(Triple::p(&r), &t[1]);
    assert_eq!(Triple::o(&r), &t[2]);
    let borrowed = [&t[2], &t[1], &t[0]];
    assert_eq!(borrowed.s(), &t[2]);
    assert_eq!(borrowed.p(), &t[1]);
    assert_eq!(borrowed.o(), &t[0]);
    // a view over a borrowed triple leaves the triple where it is
    let q = r.as_quad();
    assert_eq!(q.o(), &t[2]);
    assert!(q.g().is_none());
    let same: &[BoxTerm; 3] = q.unwrap();
    assert!(std::ptr::eq(same, &t));
    let name = BoxTerm::new_bnode("g").unwrap();
    let q = (&t).as_quad_from(name.clone());
    assert_eq!(q.g(), Some(&name));
    assert!(std::ptr::eq(q.unwrap(), &t));
}

#[test]
fn tuple_quads_give_their_terms() {
    let s = StaticTerm::new_iri("http://a/s").unwrap();
    let p = StaticTerm::new_iri("http://a/p").unwrap();
    let o = StaticTerm::new_bnode("o").unwrap();
    let g = StaticTerm::new_iri("http://a/g").unwrap();
    let named = ([s, p, o], Some(g));
    assert_eq!(named.s(), &s);
    assert_eq!(named.p(), &p);
    assert_eq!(named.o(), &o);
    assert_eq!(named.g(), Some(&g));
    let default = ([s, p, o], None);
    assert!(default.g().is_none());
    let by_ref = &named;
    assert_eq!(Quadruple::g(&by_ref), Some(&g));
    assert_eq!(Quadruple::s(&by_ref), &s);
}
