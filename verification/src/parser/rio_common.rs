//! Common ground of the parsers built on RIO: the plain form of what such a
//! parser hands out, its conversion into quads of this crate, and the
//! source from which the quads are pulled.
use crate::error::TermError;
use crate::iri::Iri;
use crate::literal::Literal;
use crate::model::{lexical_error, quad_error, LiteralKindView, QuadView, TermView};
use crate::display::xsd_string_text;
use crate::ns::xsd_string_iri;
use crate::parser::{ParseError, ParseErrorView};
use crate::quad::{quad_view, quad_wf, Quadruple};
use crate::term::{BoxTerm, Term};
use vstd::prelude::*;

verus! {

/// The quads of RIO, which borrow their text from the parser that hands
/// them out. Nothing is known of one but through the functions below.
#[verifier::external_type_specification]
#[verifier::external_body]
pub struct ExRioQuad<'a>(rio_api::model::Quad<'a>);

/// A term as a parser hands it out: plain text, not yet held to any
/// lexical rule.
#[derive(Debug, Clone, PartialEq, Eq)]
pub enum RawTerm {
    /// An IRI.
    Iri(String),
    /// A blank node, by its label.
    BNode(String),
    /// A literal without language tag or datatype.
    Simple(String),
    /// A literal with its lexical value and its language tag.
    Lang(String, String),
    /// A literal with its lexical value and the IRI of its datatype.
    Typed(String, String),
}

impl View for RawTerm {
    type V = TermView;

    /// The term that the plain text stands for. A simple literal has the
    /// string datatype of XML Schema.
    open spec fn view(&self) -> TermView {
        match self {
            RawTerm::Iri(iri) => TermView::Iri(iri@),
            RawTerm::BNode(id) => TermView::BNode(id@),
            RawTerm::Simple(value) => TermView::Literal(
                value@,
                LiteralKindView::Datatype(xsd_string_text()),
            ),
            RawTerm::Lang(value, language) => TermView::Literal(
                value@,
                LiteralKindView::Lang(language@),
            ),
            RawTerm::Typed(value, datatype) => TermView::Literal(
                value@,
                LiteralKindView::Datatype(datatype@),
            ),
        }
    }
}

/// A quad as a parser hands it out.
#[derive(Debug, Clone, PartialEq, Eq)]
pub struct RawQuad {
    pub subject: RawTerm,
    /// The IRI of the predicate.
    pub predicate: String,
    pub object: RawTerm,
    /// The name of the graph, or `None` for the default graph.
    pub graph_name: Option<RawTerm>,
}

impl View for RawQuad {
    type V = QuadView;

    open spec fn view(&self) -> QuadView {
        QuadView {
            s: self.subject@,
            p: TermView::Iri(self.predicate@),
            o: self.object@,
            g: match self.graph_name {
                Some(g) => Some(g@),
                None => None,
            },
        }
    }
}

/// The views of a sequence of raw quads.
pub open spec fn raw_quads_view(quads: Seq<RawQuad>) -> Seq<QuadView> {
    Seq::new(quads.len(), |i: int| quads[i]@)
}

/// The field `subject` of a quad of RIO, an IRI or a blank node, with its
/// text copied.
#[verifier::external_body]
fn quad_subject(q: &rio_api::model::Quad<'_>) -> RawTerm {
    match q.subject {
        rio_api::model::NamedOrBlankNode::NamedNode(n) => RawTerm::Iri(n.iri.to_owned()),
        rio_api::model::NamedOrBlankNode::BlankNode(b) => RawTerm::BNode(b.id.to_owned()),
    }
}

/// The field `predicate` of a quad of RIO, an IRI, with its text copied.
#[verifier::external_body]
fn quad_predicate(q: &rio_api::model::Quad<'_>) -> String {
    q.predicate.iri.to_owned()
}

/// The field `object` of a quad of RIO, an IRI, a blank node or one of the
/// three forms of literals, with its text copied.
#[verifier::external_body]
fn quad_object(q: &rio_api::model::Quad<'_>) -> RawTerm {
    match q.object {
        rio_api::model::Term::NamedNode(n) => RawTerm::Iri(n.iri.to_owned()),
        rio_api::model::Term::BlankNode(b) => RawTerm::BNode(b.id.to_owned()),
        rio_api::model::Term::Literal(rio_api::model::Literal::Simple { value }) => RawTerm::Simple(value.to_owned()),
        rio_api::model::Term::Literal(
            rio_api::model::Literal::LanguageTaggedString { value, language },
        ) => {
            RawTerm::Lang(value.to_owned(), language.to_owned())
        },
        rio_api::model::Term::Literal(rio_api::model::Literal::Typed { value, datatype }) => {
            RawTerm::Typed(value.to_owned(), datatype.iri.to_owned())
        },
    }
}

/// The field `graph_name` of a quad of RIO, an IRI or a blank node where
/// the quad is in a named graph, with its text copied.
#[verifier::external_body]
fn quad_graph_name(q: &rio_api::model::Quad<'_>) -> Option<RawTerm> {
    match q.graph_name {
        Some(rio_api::model::NamedOrBlankNode::NamedNode(n)) => Some(RawTerm::Iri(n.iri.to_owned())),
        Some(rio_api::model::NamedOrBlankNode::BlankNode(b)) => Some(RawTerm::BNode(b.id.to_owned())),
        None => None,
    }
}

/// `subject` is the subject that was read from the quad `q`: what the reader of
/// the field `subject` answered for `q`, and nothing else.
pub(crate) closed spec fn is_subject_of(q: rio_api::model::Quad<'_>, subject: RawTerm) -> bool {
    call_ensures(quad_subject, (&q,), subject)
}

/// `predicate` is the predicate that was read from the quad `q`: what the reader of
/// the field `predicate` answered for `q`, and nothing else.
pub(crate) closed spec fn is_predicate_of(q: rio_api::model::Quad<'_>, predicate: String) -> bool {
    call_ensures(quad_predicate, (&q,), predicate)
}

/// `object` is the object that was read from the quad `q`: what the reader of
/// the field `object` answered for `q`, and nothing else.
pub(crate) closed spec fn is_object_of(q: rio_api::model::Quad<'_>, object: RawTerm) -> bool {
    call_ensures(quad_object, (&q,), object)
}

/// `graph_name` is the graph name that was read from the quad `q`: what the reader of
/// the field `graph_name` answered for `q`, and nothing else.
pub(crate) closed spec fn is_graph_name_of(
    q: rio_api::model::Quad<'_>,
    graph_name: Option<RawTerm>,
) -> bool {
    call_ensures(quad_graph_name, (&q,), graph_name)
}

/// The plain form of a quad of RIO: each of its four fields is what is
/// read from the field of the same name of `q`.
pub(crate) fn raw_quad(q: &rio_api::model::Quad<'_>) -> (r: RawQuad)
    ensures
        is_subject_of(*q, r.subject),
        is_predicate_of(*q, r.predicate),
        is_object_of(*q, r.object),
        is_graph_name_of(*q, r.graph_name),
{
    RawQuad {
        subject: quad_subject(q),
        predicate: quad_predicate(q),
        object: quad_object(q),
        graph_name: quad_graph_name(q),
    }
}

/// Appends the plain form of the quad `q` of RIO to `out`: the quads that
/// `out` held stay, and one more follows them, each of whose four fields
/// is what is read from the field of the same name of `q`.
pub(crate) fn push_raw_quad(out: &mut Vec<RawQuad>, q: &rio_api::model::Quad<'_>)
    ensures
        final(out)@.len() == old(out)@.len() + 1,
        final(out)@.drop_last() == old(out)@,
        is_subject_of(*q, final(out)@.last().subject),
        is_predicate_of(*q, final(out)@.last().predicate),
        is_object_of(*q, final(out)@.last().object),
        is_graph_name_of(*q, final(out)@.last().graph_name),
{
    out.push(raw_quad(q));
    assert(out@.drop_last() =~= old(out)@);
}

/// A quad whose terms own their text.
pub type BoxQuad = ([BoxTerm; 3], Option<BoxTerm>);

impl RawTerm {
    /// The term that this plain text stands for, if the text obeys the
    /// lexical rule of its variant, and else the rule that it breaks.
    pub fn into_term(&self) -> (r: Result<BoxTerm, TermError>)
        ensures
            lexical_error(self@) is None ==> r is Ok,
            r matches Ok(t) ==> lexical_error(self@) is None && t@ == self@ && t.wf(),
            r matches Err(e) ==> lexical_error(self@) == Some(e@),
    {
        match self {
            RawTerm::Iri(iri) => Term::new_iri(iri.as_str()),
            RawTerm::BNode(id) => Term::new_bnode(id.as_str()),
            RawTerm::Simple(value) => {
                proof {
                    crate::ns::lemma_xsd_string_text();
                }
                Ok(Term::Literal(Literal::new_dt(value.as_str(), xsd_string_iri())))
            },
            RawTerm::Lang(value, language) => Term::new_literal_lang(
                value.as_str(),
                language.as_str(),
            ),
            RawTerm::Typed(value, datatype) => match Iri::new(datatype.as_str()) {
                Ok(dt) => Ok(Term::Literal(Literal::new_dt(value.as_str(), dt))),
                Err(e) => Err(e),
            },
        }
    }
}

impl RawQuad {
    /// The quad that this plain text stands for, if each of its terms
    /// obeys its lexical rule, and else the first rule that is broken.
    pub fn into_quad(&self) -> (r: Result<BoxQuad, TermError>)
        ensures
            quad_error(self@) is None ==> r is Ok,
            r matches Ok(q) ==> quad_error(self@) is None && quad_view(q) == self@ && quad_wf(q),
            r matches Err(e) ==> quad_error(self@) == Some(e@),
    {
        let s = match self.subject.into_term() {
            Ok(t) => t,
            Err(e) => {
                return Err(e);
            },
        };
        let p = match Term::new_iri(self.predicate.as_str()) {
            Ok(t) => t,
            Err(e) => {
                return Err(e);
            },
        };
        let o = match self.object.into_term() {
            Ok(t) => t,
            Err(e) => {
                return Err(e);
            },
        };
        let g = match &self.graph_name {
            Some(name) => match name.into_term() {
                Ok(t) => Some(t),
                Err(e) => {
                    return Err(e);
                },
            },
            None => None,
        };
        Ok(([s, p, o], g))
    }
}

/// What a source is: the quads that the parser read and that the source
/// did not hand out yet, and the failure on which the parser stopped after
/// them, if it did.
pub struct SourceView {
    pub pending: Seq<QuadView>,
    pub failure: Option<ParseErrorView>,
}

/// What a pull yields.
pub enum Pulled {
    /// The next quad.
    Quadruple(QuadView),
    /// A failure, after which the source is exhausted.
    Failure(ParseErrorView),
    /// The end of the source.
    End,
}

/// The source that yields nothing any more.
pub open spec fn exhausted() -> SourceView {
    SourceView { pending: Seq::empty(), failure: None }
}

/// What pulling from the source `s` yields.
///
/// While quads are pending, the first of them is yielded, unless one of
/// its terms breaks a lexical rule: that is a failure. After the quads,
/// the failure of the parser is yielded, if there is one. Only then comes
/// the end.
pub open spec fn pulled(s: SourceView) -> Pulled {
    if s.pending.len() > 0 {
        match quad_error(s.pending[0]) {
            None => Pulled::Quadruple(s.pending[0]),
            Some(e) => Pulled::Failure(ParseErrorView::Term(e)),
        }
    } else {
        match s.failure {
            Some(e) => Pulled::Failure(e),
            None => Pulled::End,
        }
    }
}

/// What is left of the source `s` after a pull: the same without the quad
/// that was yielded, and nothing after a failure.
pub open spec fn after_pull(s: SourceView) -> SourceView {
    match pulled(s) {
        Pulled::Quadruple(_) => SourceView { pending: s.pending.drop_first(), failure: s.failure },
        Pulled::Failure(_) => exhausted(),
        Pulled::End => s,
    }
}

/// What a pull yielded, apart from how the terms are stored.
pub open spec fn pulled_view(r: Option<Result<BoxQuad, ParseError>>) -> Pulled {
    match r {
        Some(Ok(q)) => Pulled::Quadruple(quad_view(q)),
        Some(Err(e)) => Pulled::Failure(e@),
        None => Pulled::End,
    }
}

/// A source of quads in strict mode: the first failure ends it.
///
/// The quads are pulled one by one with [`StrictRioSource::next`]. The
/// source cannot be started again.
pub struct StrictRioSource {
    /// The quads not handed out yet, the next one last.
    stack: Vec<RawQuad>,
    failure: Option<ParseError>,
}

impl View for StrictRioSource {
    type V = SourceView;

    closed spec fn view(&self) -> SourceView {
        SourceView {
            pending: Seq::new(
                self.stack@.len(),
                |i: int| self.stack@[self.stack@.len() - 1 - i]@,
            ),
            failure: match self.failure {
                Some(e) => Some(e@),
                None => None,
            },
        }
    }
}

impl StrictRioSource {
    /// The source of the quads that a parser read, in their order, and of
    /// the failure on which the parser stopped, if it did.
    pub fn new(quads: Vec<RawQuad>, failure: Option<ParseError>) -> (src: Self)
        ensures
            src@.pending == raw_quads_view(quads@),
            src@.failure == (match failure {
                Some(e) => Some(e@),
                None => None,
            }),
    {
        let mut quads = quads;
        let ghost all = quads@;
        let mut stack: Vec<RawQuad> = Vec::new();
        while quads.len() > 0
            invariant
                quads@.len() + stack@.len() == all.len(),
                forall|i: int| 0 <= i < quads@.len() ==> quads@[i] == all[i],
                forall|i: int| 0 <= i < stack@.len() ==> stack@[i] == all[all.len() - 1 - i],
            decreases quads@.len(),
        {
            let q = quads.pop().unwrap();
            stack.push(q);
        }
        let src = StrictRioSource { stack, failure };
        assert(src@.pending =~= raw_quads_view(all));
        src
    }

    /// Pulls the next quad.
    ///
    /// Yields the next quad, or the failure that ends the source, or
    /// `None` at the end. After a failure, and after the end, every pull
    /// yields `None`. Each term of a quad that is yielded obeys the lexical
    /// rule of its variant.
    pub fn next(&mut self) -> (r: Option<Result<BoxQuad, ParseError>>)
        ensures
            pulled_view(r) == pulled(old(self)@),
            final(self)@ == after_pull(old(self)@),
            r matches Some(Ok(q)) ==> quad_wf(q),
    {
        match self.stack.pop() {
            Some(raw) => {
                assert(raw@ == old(self)@.pending[0]);
                match raw.into_quad() {
                    Ok(q) => {
                        assert(self@.pending =~= old(self)@.pending.drop_first());
                        Some(Ok(q))
                    },
                    Err(e) => {
                        self.stack = Vec::new();
                        self.failure = None;
                        assert(self@.pending =~= Seq::empty());
                        Some(Err(ParseError::Term(e)))
                    },
                }
            },
            None => {
                let failure = self.failure.take();
                assert(self@.pending =~= Seq::empty());
                match failure {
                    Some(e) => Some(Err(e)),
                    None => None,
                }
            },
        }
    }

    /// Whether every pull from now on yields `None`.
    pub fn is_exhausted(&self) -> (r: bool)
        ensures
            r == (self@ == exhausted()),
    {
        let r = self.stack.len() == 0 && self.failure.is_none();
        assert(self@.pending.len() == self.stack@.len());
        assert(r ==> self@.pending =~= Seq::empty());
        r
    }
}

/// A pull that yields a failure leaves a source from which every further
/// pull yields the end; and a pull that yields the end leaves the source
/// as it was, so that the end, once reached, stays.
pub proof fn lemma_failure_exhausts(s: SourceView)
    ensures
        pulled(s) is Failure ==> after_pull(s) == exhausted(),
        pulled(s) is End ==> after_pull(s) == s,
        pulled(exhausted()) is End,
        after_pull(exhausted()) == exhausted(),
{
}

/// A pull that yields a quad leaves one pending quad less: a source is
/// finite.
pub proof fn lemma_pull_shortens(s: SourceView)
    ensures
        pulled(s) is Quadruple ==> after_pull(s).pending.len() + 1 == s.pending.len(),
        after_pull(s).pending.len() <= s.pending.len(),
{
}

} // verus!
