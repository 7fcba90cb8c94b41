//! A quad is a triple in a graph of a dataset: subject, predicate, object,
//! and the name of the graph, or no name for the default graph.
use crate::model::QuadView;
use crate::term::Term;
use crate::term_data::TermData;
use vstd::prelude::*;

verus! {

/// This trait represents an abstract RDF quad.
pub trait Quadruple {
    type TermData: TermData;

    /// The subject of this quad.
    spec fn spec_s(&self) -> Term<Self::TermData>;

    /// The predicate of this quad.
    spec fn spec_p(&self) -> Term<Self::TermData>;

    /// The object of this quad.
    spec fn spec_o(&self) -> Term<Self::TermData>;

    /// The name of the graph of this quad, or `None` for the default
    /// graph.
    spec fn spec_g(&self) -> Option<Term<Self::TermData>>;

    /// The subject of this quad.
    fn s(&self) -> (r: &Term<Self::TermData>)
        ensures
            *r == self.spec_s(),
    ;

    /// The predicate of this quad.
    fn p(&self) -> (r: &Term<Self::TermData>)
        ensures
            *r == self.spec_p(),
    ;

    /// The object of this quad.
    fn o(&self) -> (r: &Term<Self::TermData>)
        ensures
            *r == self.spec_o(),
    ;

    /// The name of the graph of this quad, or `None` for the default
    /// graph.
    fn g(&self) -> (r: Option<&Term<Self::TermData>>)
        ensures
            r matches Some(name) ==> self.spec_g() == Some(*name),
            r is None ==> self.spec_g() is None,
    ;
}

/// What a quad is, apart from how its terms are stored.
pub open spec fn quad_view<Q: Quadruple>(q: Q) -> QuadView {
    QuadView {
        s: q.spec_s()@,
        p: q.spec_p()@,
        o: q.spec_o()@,
        g: match q.spec_g() {
            Some(g) => Some(g@),
            None => None,
        },
    }
}

/// Each term of the quad obeys the lexical rule of its variant.
pub open spec fn quad_wf<Q: Quadruple>(q: Q) -> bool {
    &&& q.spec_s().wf()
    &&& q.spec_p().wf()
    &&& q.spec_o().wf()
    &&& (q.spec_g() matches Some(g) ==> g.wf())
}

impl<T: TermData> Quadruple for ([Term<T>; 3], Option<Term<T>>) {
    type TermData = T;

    open spec fn spec_s(&self) -> Term<T> {
        self.0@[0]
    }

    open spec fn spec_p(&self) -> Term<T> {
        self.0@[1]
    }

    open spec fn spec_o(&self) -> Term<T> {
        self.0@[2]
    }

    open spec fn spec_g(&self) -> Option<Term<T>> {
        self.1
    }

    #[inline]
    fn s(&self) -> (r: &Term<T>) {
        &self.0[0]
    }

    #[inline]
    fn p(&self) -> (r: &Term<T>) {
        &self.0[1]
    }

    #[inline]
    fn o(&self) -> (r: &Term<T>) {
        &self.0[2]
    }

    #[inline]
    fn g(&self) -> (r: Option<&Term<T>>) {
        self.1.as_ref()
    }
}

impl<'a, Q: Quadruple> Quadruple for &'a Q {
    type TermData = Q::TermData;

    open spec fn spec_s(&self) -> Term<Q::TermData> {
        (**self).spec_s()
    }

    open spec fn spec_p(&self) -> Term<Q::TermData> {
        (**self).spec_p()
    }

    open spec fn spec_o(&self) -> Term<Q::TermData> {
        (**self).spec_o()
    }

    open spec fn spec_g(&self) -> Option<Term<Q::TermData>> {
        (**self).spec_g()
    }

    #[inline]
    fn s(&self) -> (r: &Term<Q::TermData>) {
        (*self).s()
    }

    #[inline]
    fn p(&self) -> (r: &Term<Q::TermData>) {
        (*self).p()
    }

    #[inline]
    fn o(&self) -> (r: &Term<Q::TermData>) {
        (*self).o()
    }

    #[inline]
    fn g(&self) -> (r: Option<&Term<Q::TermData>>) {
        (*self).g()
    }
}

} // verus!
