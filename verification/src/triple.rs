//! An RDF triple expresses a single fact.
//! It is formed of three terms called *subject*, *predicate* and *object*.
//!
//! Any triple can be seen as a quad, in the default graph or in a named
//! one, through an adapter that holds the triple and hands it back.
use crate::quad::Quadruple;
use crate::term::Term;
use crate::term_data::TermData;
use vstd::prelude::*;

verus! {

/// This trait represents an abstract RDF triple,
/// and provide convenient methods for working with triples.
pub trait Triple {
    type TermData: TermData;

    /// The subject of this triple.
    spec fn spec_s(&self) -> Term<Self::TermData>;

    /// The predicate of this triple.
    spec fn spec_p(&self) -> Term<Self::TermData>;

    /// The object of this triple.
    spec fn spec_o(&self) -> Term<Self::TermData>;

    /// The subject of this triple.
    fn s(&self) -> (r: &Term<Self::TermData>)
        ensures
            *r == self.spec_s(),
    ;

    /// The predicate of this triple.
    fn p(&self) -> (r: &Term<Self::TermData>)
        ensures
            *r == self.spec_p(),
    ;

    /// The object of this triple.
    fn o(&self) -> (r: &Term<Self::TermData>)
        ensures
            *r == self.spec_o(),
    ;

    /// [`Quadruple`] adapter owning this triple,
    /// pretending to belong to the default graph.
    fn as_quad(self) -> (q: TripleAsQuad<Self>) where Self: Sized
        ensures
            q.0 == self,
    {
        TripleAsQuad(self)
    }

    /// [`Quadruple`] adapter owning this triple,
    /// pretending to belong to a named graph with the given name.
    fn as_quad_from(self, name: Term<Self::TermData>) -> (q: TripleAsQuadFrom<Self>) where
        Self: Sized,

        ensures
            q.0 == self,
            q.1 == name,
    {
        TripleAsQuadFrom(self, name)
    }
}

impl<T> Triple for [Term<T>; 3] where T: TermData {
    type TermData = T;

    open spec fn spec_s(&self) -> Term<T> {
        self@[0]
    }

    open spec fn spec_p(&self) -> Term<T> {
        self@[1]
    }

    open spec fn spec_o(&self) -> Term<T> {
        self@[2]
    }

    #[inline]
    fn s(&self) -> (r: &Term<T>) {
        &self[0]
    }

    #[inline]
    fn p(&self) -> (r: &Term<T>) {
        &self[1]
    }

    #[inline]
    fn o(&self) -> (r: &Term<T>) {
        &self[2]
    }
}

impl<'a, T> Triple for [&'a Term<T>; 3] where T: TermData {
    type TermData = T;

    open spec fn spec_s(&self) -> Term<T> {
        *self@[0]
    }

    open spec fn spec_p(&self) -> Term<T> {
        *self@[1]
    }

    open spec fn spec_o(&self) -> Term<T> {
        *self@[2]
    }

    #[inline]
    fn s(&self) -> (r: &Term<T>) {
        self[0]
    }

    #[inline]
    fn p(&self) -> (r: &Term<T>) {
        self[1]
    }

    #[inline]
    fn o(&self) -> (r: &Term<T>) {
        self[2]
    }
}

impl<'a, T: Triple> Triple for &'a T {
    type TermData = T::TermData;

    open spec fn spec_s(&self) -> Term<T::TermData> {
        (**self).spec_s()
    }

    open spec fn spec_p(&self) -> Term<T::TermData> {
        (**self).spec_p()
    }

    open spec fn spec_o(&self) -> Term<T::TermData> {
        (**self).spec_o()
    }

    #[inline]
    fn s(&self) -> (r: &Term<T::TermData>) {
        (*self).s()
    }

    #[inline]
    fn p(&self) -> (r: &Term<T::TermData>) {
        (*self).p()
    }

    #[inline]
    fn o(&self) -> (r: &Term<T::TermData>) {
        (*self).o()
    }
}

/// The adapter returned by [`Triple::as_quad`].
pub struct TripleAsQuad<T>(pub T);

impl<T> TripleAsQuad<T> {
    /// The triple that this adapter holds.
    pub open spec fn triple(&self) -> T {
        self.0
    }

    /// Unwrap this adapter to get the triple back.
    pub fn unwrap(self) -> (t: T)
        ensures
            t == self.triple(),
    {
        self.0
    }
}

impl<T: Triple> Quadruple for TripleAsQuad<T> {
    type TermData = T::TermData;

    open spec fn spec_s(&self) -> Term<T::TermData> {
        self.triple().spec_s()
    }

    open spec fn spec_p(&self) -> Term<T::TermData> {
        self.triple().spec_p()
    }

    open spec fn spec_o(&self) -> Term<T::TermData> {
        self.triple().spec_o()
    }

    open spec fn spec_g(&self) -> Option<Term<T::TermData>> {
        None
    }

    #[inline]
    fn s(&self) -> (r: &Term<T::TermData>) {
        self.0.s()
    }

    #[inline]
    fn p(&self) -> (r: &Term<T::TermData>) {
        self.0.p()
    }

    #[inline]
    fn o(&self) -> (r: &Term<T::TermData>) {
        self.0.o()
    }

    #[inline]
    fn g(&self) -> (r: Option<&Term<T::TermData>>) {
        None
    }
}

/// The adapter returned by [`Triple::as_quad_from`].
pub struct TripleAsQuadFrom<T: Triple>(pub T, pub Term<T::TermData>);

impl<T: Triple> TripleAsQuadFrom<T> {
    /// The triple that this adapter holds.
    pub open spec fn triple(&self) -> T {
        self.0
    }

    /// The graph name that this adapter holds.
    pub open spec fn name(&self) -> Term<T::TermData> {
        self.1
    }

    /// Unwrap this adapter to get the triple back.
    pub fn unwrap(self) -> (t: T)
        ensures
            t == self.triple(),
    {
        self.0
    }
}

impl<T: Triple> Quadruple for TripleAsQuadFrom<T> {
    type TermData = T::TermData;

    open spec fn spec_s(&self) -> Term<T::TermData> {
        self.triple().spec_s()
    }

    open spec fn spec_p(&self) -> Term<T::TermData> {
        self.triple().spec_p()
    }

    open spec fn spec_o(&self) -> Term<T::TermData> {
        self.triple().spec_o()
    }

    open spec fn spec_g(&self) -> Option<Term<T::TermData>> {
        Some(self.name())
    }

    #[inline]
    fn s(&self) -> (r: &Term<T::TermData>) {
        self.0.s()
    }

    #[inline]
    fn p(&self) -> (r: &Term<T::TermData>) {
        self.0.p()
    }

    #[inline]
    fn o(&self) -> (r: &Term<T::TermData>) {
        self.0.o()
    }

    #[inline]
    fn g(&self) -> (r: Option<&Term<T::TermData>>) {
        Some(&self.1)
    }
}

/// A triple seen as a quad of the default graph keeps its subject,
/// predicate and object, has no graph name, and is handed back unchanged.
pub proof fn lemma_as_quad_roundtrip<T: Triple>(t: T)
    ensures
        TripleAsQuad(t).triple() == t,
        TripleAsQuad(t).spec_s() == t.spec_s(),
        TripleAsQuad(t).spec_p() == t.spec_p(),
        TripleAsQuad(t).spec_o() == t.spec_o(),
        TripleAsQuad(t).spec_g() is None,
{
}

/// A triple seen as a quad of a named graph keeps its subject, predicate
/// and object, has the name it was given, and is handed back unchanged.
pub proof fn lemma_as_quad_from_roundtrip<T: Triple>(t: T, name: Term<T::TermData>)
    ensures
        TripleAsQuadFrom(t, name).triple() == t,
        TripleAsQuadFrom(t, name).spec_s() == t.spec_s(),
        TripleAsQuadFrom(t, name).spec_p() == t.spec_p(),
        TripleAsQuadFrom(t, name).spec_o() == t.spec_o(),
        TripleAsQuadFrom(t, name).spec_g() == Some(name),
{
}

} // verus!
