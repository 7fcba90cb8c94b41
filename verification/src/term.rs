//! Terms: IRIs, blank nodes, literals and variables.
use crate::bnode::BlankNode;
use crate::error::{TermError, TermErrorView};
use crate::iri::Iri;
use crate::lexical::{is_bnode_id, is_iri_ref, is_lang_tag, is_var_name};
use crate::literal::Literal;
use crate::hashing::feed;
use crate::model::{same_term, term_hash_texts, LiteralKindView, TermView};
use crate::term_data::{FromText, TermData};
use crate::variable::Variable;
use std::hash::{Hash, Hasher};
use std::rc::Rc;
use std::sync::Arc;
use vstd::prelude::*;
use vstd::std_specs::cmp::PartialEqSpecImpl;

verus! {

/// A term whose text is owned, each in a box of its own.
pub type BoxTerm = Term<Box<str>>;

/// A term whose text is shared behind a reference count.
pub type RcTerm = Term<Rc<str>>;

/// A term whose text is shared behind an atomic reference count.
pub type ArcTerm = Term<Arc<str>>;

/// A term whose text is borrowed.
pub type RefTerm<'a> = Term<&'a str>;

/// A term whose text is borrowed for the whole run of the program.
pub type StaticTerm = RefTerm<'static>;

/// An atom of graph data. What a term is does not depend on `T`, the
/// storage of its text: see [`TermView`].
#[derive(Clone, Copy, Debug, Eq)]
pub enum Term<T: TermData> {
    /// An IRI reference.
    Iri(Iri<T>),
    /// A blank node.
    BNode(BlankNode<T>),
    /// A literal.
    Literal(Literal<T>),
    /// A variable.
    Variable(Variable<T>),
}

impl<T: TermData> View for Term<T> {
    type V = TermView;

    open spec fn view(&self) -> TermView {
        match self {
            Term::Iri(iri) => TermView::Iri(iri@),
            Term::BNode(b) => TermView::BNode(b@),
            Term::Literal(l) => TermView::Literal(l.spec_txt(), l.spec_kind()@),
            Term::Variable(v) => TermView::Variable(v@),
        }
    }
}

impl<T: TermData> Term<T> {
    /// The text of the term obeys the lexical rule of its variant.
    pub open spec fn wf(&self) -> bool {
        match self {
            Term::Iri(iri) => iri.wf(),
            Term::BNode(b) => b.wf(),
            Term::Literal(l) => l.wf(),
            Term::Variable(v) => v.wf(),
        }
    }

    /// The text by which the term is known: the whole text of an IRI, the
    /// label of a blank node, the lexical value of a literal, the name of
    /// a variable.
    pub open spec fn spec_value(&self) -> Seq<char> {
        match self@ {
            TermView::Iri(x) => x,
            TermView::BNode(x) => x,
            TermView::Literal(x, _) => x,
            TermView::Variable(x) => x,
        }
    }

    /// An IRI with the text of `iri`.
    ///
    /// Fails with `InvalidIri` exactly when the text is not an IRI
    /// reference.
    pub fn new_iri<'a>(iri: &'a str) -> (r: Result<Self, TermError>) where T: FromText<'a>
        ensures
            is_iri_ref(iri@) ==> r is Ok,
            r matches Ok(t) ==> t@ == TermView::Iri(iri@) && t.wf(),
            r matches Err(e) ==> !is_iri_ref(iri@) && e@ == TermErrorView::InvalidIri(iri@),
    {
        match Iri::new(iri) {
            Ok(i) => Ok(Term::Iri(i)),
            Err(e) => Err(e),
        }
    }

    /// An IRI whose text is `ns` followed by `suffix`. It is the same term
    /// as the IRI made of the whole text in one piece.
    ///
    /// Fails with `InvalidIri` exactly when the whole text is not an IRI
    /// reference.
    pub fn new_iri_suffixed<'a>(ns: &'a str, suffix: &'a str) -> (r: Result<Self, TermError>) where
        T: FromText<'a>,

        ensures
            is_iri_ref(ns@ + suffix@) ==> r is Ok,
            r matches Ok(t) ==> t@ == TermView::Iri(ns@ + suffix@) && t.wf(),
            r matches Err(e) ==> !is_iri_ref(ns@ + suffix@)
                && e@ == TermErrorView::InvalidIri(ns@ + suffix@),
    {
        match Iri::new_suffixed(ns, suffix) {
            Ok(i) => Ok(Term::Iri(i)),
            Err(e) => Err(e),
        }
    }

    /// A blank node with the label `id`.
    ///
    /// Fails with `InvalidBlankNodeId` exactly when the text is not a blank
    /// node label.
    pub fn new_bnode<'a>(id: &'a str) -> (r: Result<Self, TermError>) where T: FromText<'a>
        ensures
            is_bnode_id(id@) ==> r is Ok,
            r matches Ok(t) ==> t@ == TermView::BNode(id@) && t.wf(),
            r matches Err(e) ==> !is_bnode_id(id@) && e@ == TermErrorView::InvalidBlankNodeId(id@),
    {
        match BlankNode::new(id) {
            Ok(b) => Ok(Term::BNode(b)),
            Err(e) => Err(e),
        }
    }

    /// A literal with the lexical value `txt` and the language tag `lang`.
    ///
    /// Fails with `InvalidLanguageTag` exactly when `lang` is not a
    /// language tag.
    pub fn new_literal_lang<'a>(txt: &'a str, lang: &'a str) -> (r: Result<Self, TermError>) where
        T: FromText<'a>,

        ensures
            is_lang_tag(lang@) ==> r is Ok,
            r matches Ok(t) ==> t@ == TermView::Literal(txt@, LiteralKindView::Lang(lang@))
                && t.wf(),
            r matches Err(e) ==> !is_lang_tag(lang@)
                && e@ == TermErrorView::InvalidLanguageTag(lang@),
    {
        match Literal::new_lang(txt, lang) {
            Ok(l) => Ok(Term::Literal(l)),
            Err(e) => Err(e),
        }
    }

    /// A literal with the lexical value `txt` and the datatype `dt`.
    ///
    /// Fails with `InvalidDatatype` exactly when `dt` is not an IRI; the
    /// error then holds the text of `dt`.
    pub fn new_literal_dt<'a>(txt: &'a str, dt: Term<T>) -> (r: Result<Self, TermError>) where
        T: FromText<'a>,

        ensures
            dt is Iri ==> r is Ok,
            r matches Ok(t) ==> dt matches Term::Iri(iri) && t@ == TermView::Literal(
                txt@,
                LiteralKindView::Datatype(iri@),
            ) && (dt.wf() ==> t.wf()),
            r matches Err(e) ==> !(dt is Iri)
                && e@ == TermErrorView::InvalidDatatype(dt.spec_value()),
    {
        match dt {
            Term::Iri(iri) => Ok(Term::Literal(Literal::new_dt(txt, iri))),
            _ => Err(TermError::InvalidDatatype(dt.value())),
        }
    }

    /// A variable with the name `name`.
    ///
    /// Fails with `InvalidVariableName` exactly when the text is not a
    /// variable name.
    pub fn new_variable<'a>(name: &'a str) -> (r: Result<Self, TermError>) where T: FromText<'a>
        ensures
            is_var_name(name@) ==> r is Ok,
            r matches Ok(t) ==> t@ == TermView::Variable(name@) && t.wf(),
            r matches Err(e) ==> !is_var_name(name@)
                && e@ == TermErrorView::InvalidVariableName(name@),
    {
        match Variable::new(name) {
            Ok(v) => Ok(Term::Variable(v)),
            Err(e) => Err(e),
        }
    }

    /// The text by which the term is known, in a new string.
    pub fn value(&self) -> (r: String)
        ensures
            r@ == self.spec_value(),
    {
        match self {
            Term::Iri(iri) => iri.value(),
            Term::BNode(b) => b.as_str().to_owned(),
            Term::Literal(l) => l.txt().as_str().to_owned(),
            Term::Variable(v) => v.as_str().to_owned(),
        }
    }

    /// Whether the term is an absolute IRI.
    pub fn is_absolute(&self) -> (r: bool)
        ensures
            r == (self matches Term::Iri(iri) && iri.spec_absolute()),
    {
        match self {
            Term::Iri(iri) => iri.is_absolute(),
            _ => false,
        }
    }

    /// A copy of `other` in another storage, each text made by `factory`.
    /// The copy is the same term as `other`.
    pub fn from_with<'a, U: TermData, F: Fn(&'a str) -> T>(other: &'a Term<U>, factory: F) -> (r:
        Self)
        requires
            forall|s: &'a str| call_requires(factory, (s,)),
            forall|s: &'a str, t: T| call_ensures(factory, (s,), t) ==> t.text() == s@,
        ensures
            r@ == other@,
            other.wf() ==> r.wf(),
    {
        match other {
            Term::Iri(iri) => Term::Iri(Iri::from_with(iri, &factory)),
            Term::BNode(b) => Term::BNode(BlankNode::from_with(b, &factory)),
            Term::Literal(l) => Term::Literal(Literal::from_with(l, &factory)),
            Term::Variable(v) => Term::Variable(Variable::from_with(v, &factory)),
        }
    }

    /// A copy of this term in another storage, each text made by
    /// `factory`. The copy is the same term as this one.
    pub fn copy_with<'a, U: TermData, F: Fn(&'a str) -> U>(&'a self, factory: F) -> (r: Term<U>)
        requires
            forall|s: &'a str| call_requires(factory, (s,)),
            forall|s: &'a str, t: U| call_ensures(factory, (s,), t) ==> t.text() == s@,
        ensures
            r@ == self@,
            self.wf() ==> r.wf(),
    {
        Term::from_with(self, factory)
    }

    /// A copy of this term in a storage that can be made from any string
    /// slice. The copy is the same term as this one.
    pub fn copy_into<U: for <'x>FromText<'x>>(&self) -> (r: Term<U>)
        ensures
            r@ == self@,
            self.wf() ==> r.wf(),
    {
        let factory = |s: &str| -> (t: U)
            ensures
                t.text() == s@,
            { U::from_text(s) };
        Term::from_with(self, factory)
    }

    /// This term with its text borrowed. It is the same term as this one.
    pub fn as_ref_term<'a>(&'a self) -> (r: RefTerm<'a>)
        ensures
            r@ == self@,
            self.wf() ==> r.wf(),
    {
        let factory = |s: &'a str| -> (t: &'a str)
            ensures
                t@ == s@,
            { s };
        Term::from_with(self, factory)
    }
}

impl<T: TermData> Term<T> {
    /// The texts that this term feeds to a hasher, in order. Terms that
    /// are equal feed the same texts.
    pub fn hash_texts(&self) -> (r: Vec<String>)
        ensures
            r@.len() == term_hash_texts(self@).len(),
            forall|i: int| 0 <= i < r@.len() ==> (#[trigger] r@[i])@ == term_hash_texts(self@)[i],
    {
        let mut out: Vec<String> = Vec::new();
        match self {
            Term::Iri(iri) => {
                out.push(iri.value());
            },
            Term::BNode(b) => {
                out.push(b.as_str().to_owned());
            },
            Term::Literal(l) => {
                out.push(l.txt().as_str().to_owned());
                out.push(l.kind().hash_key());
            },
            Term::Variable(v) => {
                out.push(v.as_str().to_owned());
            },
        }
        out
    }
}

impl<T: TermData> Hash for Term<T> {
    /// Feeds each of the texts of [`Term::hash_texts`] to the hasher:
    /// terms that are equal hash alike.
    fn hash<H: Hasher>(&self, state: &mut H) {
        let texts = self.hash_texts();
        let mut i: usize = 0;
        while i < texts.len()
            invariant
                i <= texts.len(),
            decreases texts.len() - i,
        {
            feed(state, texts[i].as_str());
            i += 1;
        }
    }
}

impl<T: TermData, U: TermData> PartialEq<Term<U>> for Term<T> {
    /// Two terms are equal when they are the same term, whatever the
    /// storage of each.
    fn eq(&self, other: &Term<U>) -> (r: bool) {
        match (self, other) {
            (Term::Iri(a), Term::Iri(b)) => a == b,
            (Term::BNode(a), Term::BNode(b)) => a == b,
            (Term::Literal(a), Term::Literal(b)) => a == b,
            (Term::Variable(a), Term::Variable(b)) => a == b,
            _ => false,
        }
    }
}

impl<T: TermData, U: TermData> PartialEqSpecImpl<Term<U>> for Term<T> {
    open spec fn obeys_eq_spec() -> bool {
        true
    }

    open spec fn eq_spec(&self, other: &Term<U>) -> bool {
        same_term(self@, other@)
    }
}

} // verus!
