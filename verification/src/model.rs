//! What a term is, apart from how its text is stored: the mathematical
//! model that the contracts of this crate speak of, the relation that says
//! when two terms are the same, and what a term feeds to a hasher.
use crate::error::TermErrorView;
use crate::lexical::{is_bnode_id, is_iri_ref, is_lang_tag, is_var_name};
use crate::text::ascii_lowercase;
use vstd::prelude::*;

verus! {

/// The kind of a literal: a language tag or the text of a datatype IRI.
pub enum LiteralKindView {
    Lang(Seq<char>),
    Datatype(Seq<char>),
}

/// A term: the whole text of an IRI, the label of a blank node, the lexical
/// value and the kind of a literal, or the name of a variable.
pub enum TermView {
    Iri(Seq<char>),
    BNode(Seq<char>),
    Literal(Seq<char>, LiteralKindView),
    Variable(Seq<char>),
}

/// A quad: subject, predicate, object, and the name of its graph, if it is
/// not in the default graph.
pub struct QuadView {
    pub s: TermView,
    pub p: TermView,
    pub o: TermView,
    pub g: Option<TermView>,
}

/// The lexical rule that a term breaks, with the text that breaks it, or
/// `None` for a term whose text obeys the rule of its variant. The
/// datatype of a literal is held to the rule of IRIs.
pub open spec fn lexical_error(t: TermView) -> Option<TermErrorView> {
    match t {
        TermView::Iri(x) => if is_iri_ref(x) {
            None
        } else {
            Some(TermErrorView::InvalidIri(x))
        },
        TermView::BNode(x) => if is_bnode_id(x) {
            None
        } else {
            Some(TermErrorView::InvalidBlankNodeId(x))
        },
        TermView::Literal(_, LiteralKindView::Lang(tag)) => if is_lang_tag(tag) {
            None
        } else {
            Some(TermErrorView::InvalidLanguageTag(tag))
        },
        TermView::Literal(_, LiteralKindView::Datatype(dt)) => if is_iri_ref(dt) {
            None
        } else {
            Some(TermErrorView::InvalidIri(dt))
        },
        TermView::Variable(x) => if is_var_name(x) {
            None
        } else {
            Some(TermErrorView::InvalidVariableName(x))
        },
    }
}

/// The first lexical error among the terms of a quad, taken in the order
/// subject, predicate, object, graph name.
pub open spec fn quad_error(q: QuadView) -> Option<TermErrorView> {
    if lexical_error(q.s) is Some {
        lexical_error(q.s)
    } else if lexical_error(q.p) is Some {
        lexical_error(q.p)
    } else if lexical_error(q.o) is Some {
        lexical_error(q.o)
    } else {
        match q.g {
            Some(g) => lexical_error(g),
            None => None,
        }
    }
}

/// Two kinds are the same: two language tags that differ at most in the
/// case of their ASCII letters, or two datatypes with the same text. A
/// language tag is never the same as a datatype.
pub open spec fn same_kind(a: LiteralKindView, b: LiteralKindView) -> bool {
    match (a, b) {
        (LiteralKindView::Lang(x), LiteralKindView::Lang(y)) => ascii_lowercase(x)
            == ascii_lowercase(y),
        (LiteralKindView::Datatype(x), LiteralKindView::Datatype(y)) => x == y,
        _ => false,
    }
}

/// Two terms are the same: they are of one variant, with the same text,
/// and for literals the same kind.
pub open spec fn same_term(a: TermView, b: TermView) -> bool {
    match (a, b) {
        (TermView::Iri(x), TermView::Iri(y)) => x == y,
        (TermView::BNode(x), TermView::BNode(y)) => x == y,
        (TermView::Literal(x, j), TermView::Literal(y, k)) => x == y && same_kind(j, k),
        (TermView::Variable(x), TermView::Variable(y)) => x == y,
        _ => false,
    }
}

/// The text that a kind feeds to a hasher: the tag in lower case, or the
/// text of the datatype.
pub open spec fn kind_hash_text(k: LiteralKindView) -> Seq<char> {
    match k {
        LiteralKindView::Lang(tag) => ascii_lowercase(tag),
        LiteralKindView::Datatype(iri) => iri,
    }
}

/// The texts that a term feeds to a hasher, in order.
pub open spec fn term_hash_texts(t: TermView) -> Seq<Seq<char>> {
    match t {
        TermView::Iri(x) => seq![x],
        TermView::BNode(x) => seq![x],
        TermView::Literal(x, k) => seq![x, kind_hash_text(k)],
        TermView::Variable(x) => seq![x],
    }
}

/// Every kind is the same as itself.
pub proof fn lemma_same_kind_reflexive(a: LiteralKindView)
    ensures
        same_kind(a, a),
{
}

/// Sameness of kinds does not depend on the order of the two.
pub proof fn lemma_same_kind_symmetric(a: LiteralKindView, b: LiteralKindView)
    ensures
        same_kind(a, b) == same_kind(b, a),
{
}

/// Two kinds that are the same as a third are the same.
pub proof fn lemma_same_kind_transitive(a: LiteralKindView, b: LiteralKindView, c: LiteralKindView)
    requires
        same_kind(a, b),
        same_kind(b, c),
    ensures
        same_kind(a, c),
{
}

/// Kinds that are the same feed the same text to a hasher.
pub proof fn lemma_same_kind_same_hash(a: LiteralKindView, b: LiteralKindView)
    requires
        same_kind(a, b),
    ensures
        kind_hash_text(a) == kind_hash_text(b),
{
}

/// Every term is the same as itself.
pub proof fn lemma_same_term_reflexive(a: TermView)
    ensures
        same_term(a, a),
{
}

/// Sameness of terms does not depend on the order of the two.
pub proof fn lemma_same_term_symmetric(a: TermView, b: TermView)
    ensures
        same_term(a, b) == same_term(b, a),
{
}

/// Two terms that are the same as a third are the same.
pub proof fn lemma_same_term_transitive(a: TermView, b: TermView, c: TermView)
    requires
        same_term(a, b),
        same_term(b, c),
    ensures
        same_term(a, c),
{
}

/// Terms that are the same feed the same texts to a hasher.
pub proof fn lemma_same_term_same_hash(a: TermView, b: TermView)
    requires
        same_term(a, b),
    ensures
        term_hash_texts(a) == term_hash_texts(b),
{
}

/// Two language tags that differ only in the case of ASCII letters make
/// the same kind, also where the letters are not those of an example.
pub proof fn lemma_lang_case_insensitive(x: Seq<char>, y: Seq<char>)
    requires
        ascii_lowercase(x) == ascii_lowercase(y),
    ensures
        same_kind(LiteralKindView::Lang(x), LiteralKindView::Lang(y)),
        kind_hash_text(LiteralKindView::Lang(x)) == kind_hash_text(LiteralKindView::Lang(y)),
{
}

/// A literal with a language tag is never the same as one with a datatype,
/// whatever their lexical values.
pub proof fn lemma_lang_never_datatype(x: Seq<char>, tag: Seq<char>, y: Seq<char>, dt: Seq<char>)
    ensures
        !same_term(
            TermView::Literal(x, LiteralKindView::Lang(tag)),
            TermView::Literal(y, LiteralKindView::Datatype(dt)),
        ),
{
}

} // verus!
