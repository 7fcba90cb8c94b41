//! Literals: a lexical value with a language tag or a datatype.
use crate::error::{TermError, TermErrorView};
use crate::hashing::feed;
use crate::iri::Iri;
use crate::lexical::{is_lang_tag, is_valid_lang_tag};
use crate::literal_kind::LiteralKind;
use crate::display::xsd_string_text;
use crate::model::{same_kind, LiteralKindView, TermView};
use crate::ns::xsd_string_iri;
use crate::term::{RefTerm, Term};
use crate::term_data::{FromText, TermData};
use crate::text::text_eq;
use std::hash::{Hash, Hasher};
use vstd::prelude::*;
use vstd::std_specs::cmp::PartialEqSpecImpl;

verus! {

/// A literal: a lexical value and the kind that says how to read it.
#[derive(Clone, Copy, Debug, Eq)]
pub struct Literal<T: TermData> {
    txt: T,
    kind: LiteralKind<T>,
}

impl<T: TermData> Literal<T> {
    /// The lexical value.
    pub closed spec fn spec_txt(&self) -> Seq<char> {
        self.txt.text()
    }

    /// The kind, as it is stored.
    pub closed spec fn spec_kind(&self) -> LiteralKind<T> {
        self.kind
    }

    /// The kind is well formed.
    pub open spec fn wf(&self) -> bool {
        self.spec_kind().wf()
    }

    /// A literal with the lexical value `txt` and the language tag `lang`.
    ///
    /// Fails with `InvalidLanguageTag` exactly when `lang` is not a
    /// language tag.
    pub fn new_lang<'a>(txt: &'a str, lang: &'a str) -> (r: Result<Self, TermError>) where
        T: FromText<'a>,

        ensures
            is_lang_tag(lang@) ==> r is Ok,
            r matches Ok(l) ==> l.spec_txt() == txt@ && l.spec_kind()@ == LiteralKindView::Lang(
                lang@,
            ) && l.wf(),
            r matches Err(e) ==> !is_lang_tag(lang@)
                && e@ == TermErrorView::InvalidLanguageTag(lang@),
    {
        if is_valid_lang_tag(lang) {
            Ok(Literal { txt: T::from_text(txt), kind: LiteralKind::Lang(T::from_text(lang)) })
        } else {
            Err(TermError::InvalidLanguageTag(lang.to_owned()))
        }
    }

    /// A literal with the lexical value `txt` and the datatype `dt`.
    pub fn new_dt<'a>(txt: &'a str, dt: Iri<T>) -> (r: Self) where T: FromText<'a>
        ensures
            r.spec_txt() == txt@,
            r.spec_kind() == LiteralKind::Datatype(dt),
    {
        Literal { txt: T::from_text(txt), kind: LiteralKind::Datatype(dt) }
    }

    /// A literal made of a lexical value and a kind.
    pub fn from_parts(txt: T, kind: LiteralKind<T>) -> (r: Self)
        ensures
            r.spec_txt() == txt.text(),
            r.spec_kind() == kind,
    {
        Literal { txt, kind }
    }

    /// The lexical value.
    pub fn txt(&self) -> (r: &T)
        ensures
            r.text() == self.spec_txt(),
    {
        &self.txt
    }

    /// The kind.
    pub fn kind(&self) -> (r: &LiteralKind<T>)
        ensures
            *r == self.spec_kind(),
    {
        &self.kind
    }

    /// A copy of `other` in another storage, each text made by `factory`.
    pub fn from_with<'a, U: TermData, F: Fn(&'a str) -> T>(
        other: &'a Literal<U>,
        factory: &F,
    ) -> (r: Self)
        requires
            forall|s: &'a str| call_requires(factory, (s,)),
            forall|s: &'a str, t: T| call_ensures(factory, (s,), t) ==> t.text() == s@,
        ensures
            r.spec_txt() == other.spec_txt(),
            r.spec_kind()@ == other.spec_kind()@,
            other.wf() ==> r.wf(),
    {
        let txt = factory(other.txt.as_str());
        let kind = LiteralKind::from_with(&other.kind, factory);
        Literal { txt, kind }
    }
}

impl<T: TermData> Hash for Literal<T> {
    /// Feeds the lexical value, then what the kind feeds.
    fn hash<H: Hasher>(&self, state: &mut H) {
        feed(state, self.txt.as_str());
        self.kind.hash(state)
    }
}

impl<T: TermData, U: TermData> PartialEq<Literal<U>> for Literal<T> {
    /// Two literals are equal when their lexical values are the same and
    /// their kinds are equal.
    fn eq(&self, other: &Literal<U>) -> (r: bool) {
        text_eq(self.txt.as_str(), other.txt.as_str()) && self.kind == other.kind
    }
}

impl<T: TermData, U: TermData> PartialEqSpecImpl<Literal<U>> for Literal<T> {
    open spec fn obeys_eq_spec() -> bool {
        true
    }

    open spec fn eq_spec(&self, other: &Literal<U>) -> bool {
        self.spec_txt() == other.spec_txt() && same_kind(self.spec_kind()@, other.spec_kind()@)
    }
}

/// Texts that can be read as plain literals.
pub trait AsLiteral {
    /// The lexical value of the literal that this text stands for.
    spec fn lexical(&self) -> Seq<char>;

    /// The literal with this lexical value and the string datatype of XML
    /// Schema, borrowing the text.
    fn as_term(&self) -> (r: RefTerm<'_>)
        ensures
            r@ == TermView::Literal(
                self.lexical(),
                LiteralKindView::Datatype(xsd_string_text()),
            ),
            r.wf(),
    ;
}

impl AsLiteral for str {
    open spec fn lexical(&self) -> Seq<char> {
        self@
    }

    fn as_term(&self) -> (r: RefTerm<'_>) {
        Term::Literal(Literal::new_dt(self, xsd_string_iri()))
    }
}

} // verus!
