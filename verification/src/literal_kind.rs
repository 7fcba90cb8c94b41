//! The two kinds of literals: language-tagged, and typed.
use crate::hashing::feed;
use crate::iri::{in_form, Iri, Normalization};
use crate::lexical::is_lang_tag;
use crate::model::{kind_hash_text, same_kind, LiteralKindView};
use crate::term_data::{FromText, TermData};
use crate::text::{ascii_lowercase, eq_ignore_ascii_case, push_lowercase};
use std::borrow::Cow;
use std::hash::{Hash, Hasher};
use vstd::prelude::*;
use vstd::std_specs::cmp::PartialEqSpecImpl;

verus! {

/// There are two kinds of literals: language-tagged, and typed.
#[derive(Clone, Copy, Debug, Eq)]
pub enum LiteralKind<T: TermData> {
    /// A language tag.
    Lang(T),
    /// The IRI of a datatype.
    Datatype(Iri<T>),
}

impl<T: TermData> View for LiteralKind<T> {
    type V = LiteralKindView;

    open spec fn view(&self) -> LiteralKindView {
        match self {
            LiteralKind::Lang(tag) => LiteralKindView::Lang(tag.text()),
            LiteralKind::Datatype(iri) => LiteralKindView::Datatype(iri@),
        }
    }
}

impl<T: TermData> LiteralKind<T> {
    /// The tag is a language tag, or the datatype is a well-formed IRI.
    pub open spec fn wf(&self) -> bool {
        match self {
            LiteralKind::Lang(tag) => is_lang_tag(tag.text()),
            LiteralKind::Datatype(iri) => iri.wf(),
        }
    }

    /// The kind is a language tag, or a datatype whose IRI is cut as
    /// `policy` asks.
    pub open spec fn in_form(&self, policy: Normalization) -> bool {
        match self {
            LiteralKind::Lang(_) => true,
            LiteralKind::Datatype(iri) => in_form(iri.spec_ns(), iri.spec_suffix(), policy),
        }
    }

    /// Copy another literal kind with the given factory.
    pub fn from_with<'a, U: TermData, F: Fn(&'a str) -> T>(
        other: &'a LiteralKind<U>,
        factory: F,
    ) -> (r: Self)
        requires
            forall|s: &'a str| call_requires(factory, (s,)),
            forall|s: &'a str, t: T| call_ensures(factory, (s,), t) ==> t.text() == s@,
        ensures
            r@ == other@,
            other.wf() ==> r.wf(),
            forall|policy: Normalization| r.in_form(policy) == other.in_form(policy),
    {
        match other {
            LiteralKind::Lang(tag) => LiteralKind::Lang(factory(tag.as_str())),
            LiteralKind::Datatype(iri) => LiteralKind::Datatype(Iri::from_with(iri, &factory)),
        }
    }

    /// If the literal is typed, cut the IRI of its datatype as the given
    /// policy asks.
    ///
    /// If it is already cut so, or if the literal is language-tagged, the
    /// kind is returned unchanged, borrowed; otherwise a new kind is
    /// returned, the same datatype with its text cut anew.
    pub fn normalized(&self, policy: Normalization) -> (r: Cow<'_, Self>) where
        T: Clone + for <'x>FromText<'x>,

        ensures
            r matches Cow::Borrowed(b) ==> *b == *self && self.in_form(policy),
            r matches Cow::Owned(o) ==> o@ == self@ && o.in_form(policy) && !self.in_form(policy)
                && (self.wf() ==> o.wf()),
    {
        match self {
            LiteralKind::Lang(_) => Cow::Borrowed(self),
            LiteralKind::Datatype(iri) => match iri.normalized(policy) {
                Cow::Borrowed(_) => Cow::Borrowed(self),
                Cow::Owned(iri) => Cow::Owned(LiteralKind::Datatype(iri)),
            },
        }
    }

    /// The text that this kind feeds to a hasher.
    pub fn hash_key(&self) -> (r: String)
        ensures
            r@ == kind_hash_text(self@),
    {
        match self {
            LiteralKind::Lang(tag) => {
                let mut out = String::new();
                push_lowercase(&mut out, tag.as_str());
                assert(out@ =~= ascii_lowercase(tag.text()));
                out
            },
            LiteralKind::Datatype(iri) => iri.value(),
        }
    }
}

impl<T: TermData> Hash for LiteralKind<T> {
    /// Feeds the text of [`LiteralKind::hash_key`]: the tag in lower case,
    /// or the whole text of the datatype, so that kinds that are equal
    /// hash alike.
    fn hash<H: Hasher>(&self, state: &mut H) {
        let key = self.hash_key();
        feed(state, key.as_str())
    }
}

impl<T: TermData, U: TermData> PartialEq<LiteralKind<U>> for LiteralKind<T> {
    /// Language tags are compared without regard to the case of ASCII
    /// letters, datatypes by the text of their IRIs; a language tag never
    /// equals a datatype.
    fn eq(&self, other: &LiteralKind<U>) -> (r: bool) {
        match (self, other) {
            (LiteralKind::Lang(tag1), LiteralKind::Lang(tag2)) => eq_ignore_ascii_case(
                tag1.as_str(),
                tag2.as_str(),
            ),
            (LiteralKind::Datatype(iri1), LiteralKind::Datatype(iri2)) => iri1 == iri2,
            _ => false,
        }
    }
}

impl<T: TermData, U: TermData> PartialEqSpecImpl<LiteralKind<U>> for LiteralKind<T> {
    open spec fn obeys_eq_spec() -> bool {
        true
    }

    open spec fn eq_spec(&self, other: &LiteralKind<U>) -> bool {
        same_kind(self@, other@)
    }
}

} // verus!
