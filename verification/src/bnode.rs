//! Blank nodes.
use crate::error::{TermError, TermErrorView};
use crate::hashing::feed;
use crate::lexical::{is_bnode_id, is_valid_bnode_id};
use crate::term_data::{FromText, TermData};
use crate::text::text_eq;
use std::hash::{Hash, Hasher};
use vstd::prelude::*;
use vstd::std_specs::cmp::PartialEqSpecImpl;

verus! {

/// A blank node: a label that stands for a node without an IRI.
#[derive(Clone, Copy, Debug, Eq)]
pub struct BlankNode<T: TermData> {
    id: T,
}

impl<T: TermData> View for BlankNode<T> {
    type V = Seq<char>;

    /// The label.
    closed spec fn view(&self) -> Seq<char> {
        self.id.text()
    }
}

impl<T: TermData> BlankNode<T> {
    /// The label is a blank node label.
    pub open spec fn wf(&self) -> bool {
        is_bnode_id(self@)
    }

    /// A blank node with the label `id`.
    ///
    /// Fails with `InvalidBlankNodeId` exactly when the text is not a blank
    /// node label.
    pub fn new<'a>(id: &'a str) -> (r: Result<Self, TermError>) where T: FromText<'a>
        ensures
            is_bnode_id(id@) ==> r is Ok,
            r matches Ok(b) ==> b@ == id@ && b.wf(),
            r matches Err(e) ==> !is_bnode_id(id@) && e@ == TermErrorView::InvalidBlankNodeId(id@),
    {
        if is_valid_bnode_id(id) {
            Ok(BlankNode { id: T::from_text(id) })
        } else {
            Err(TermError::InvalidBlankNodeId(id.to_owned()))
        }
    }

    /// A blank node with a label that is known to be valid.
    pub fn new_unchecked(id: T) -> (r: Self)
        requires
            is_bnode_id(id.text()),
        ensures
            r@ == id.text(),
            r.wf(),
    {
        BlankNode { id }
    }

    /// The label.
    pub fn as_str(&self) -> (r: &str)
        ensures
            r@ == self@,
    {
        self.id.as_str()
    }

    /// A copy of `other` in another storage, made by `factory`.
    pub fn from_with<'a, U: TermData, F: Fn(&'a str) -> T>(
        other: &'a BlankNode<U>,
        factory: &F,
    ) -> (r: Self)
        requires
            forall|s: &'a str| call_requires(factory, (s,)),
            forall|s: &'a str, t: T| call_ensures(factory, (s,), t) ==> t.text() == s@,
        ensures
            r@ == other@,
    {
        BlankNode { id: factory(other.id.as_str()) }
    }
}

impl<T: TermData, U: TermData> PartialEq<BlankNode<U>> for BlankNode<T> {
    /// Two blank nodes are equal when their labels are the same.
    fn eq(&self, other: &BlankNode<U>) -> (r: bool) {
        text_eq(self.id.as_str(), other.id.as_str())
    }
}

impl<T: TermData, U: TermData> PartialEqSpecImpl<BlankNode<U>> for BlankNode<T> {
    open spec fn obeys_eq_spec() -> bool {
        true
    }

    open spec fn eq_spec(&self, other: &BlankNode<U>) -> bool {
        self@ == other@
    }
}

impl<T: TermData> Hash for BlankNode<T> {
    /// Feeds the label to the hasher.
    fn hash<H: Hasher>(&self, state: &mut H) {
        feed(state, self.id.as_str())
    }
}

} // verus!
