//! The error of building a term.
use crate::text::push_str;
use vstd::prelude::*;

verus! {

/// Why a term could not be built: the text breaks the lexical rule of the
/// kind of term asked for. Each variant holds the offending text.
#[derive(Debug, Clone, PartialEq, Eq)]
pub enum TermError {
    /// The text is not an IRI reference.
    InvalidIri(String),
    /// The text is not a language tag.
    InvalidLanguageTag(String),
    /// The text is not a blank node label.
    InvalidBlankNodeId(String),
    /// The text is not a variable name.
    InvalidVariableName(String),
    /// The term given as a datatype is not an IRI; the text is that by
    /// which the term is known.
    InvalidDatatype(String),
}

/// A [`TermError`] with the text it holds.
pub enum TermErrorView {
    InvalidIri(Seq<char>),
    InvalidLanguageTag(Seq<char>),
    InvalidBlankNodeId(Seq<char>),
    InvalidVariableName(Seq<char>),
    InvalidDatatype(Seq<char>),
}

impl View for TermError {
    type V = TermErrorView;

    open spec fn view(&self) -> TermErrorView {
        match self {
            TermError::InvalidIri(s) => TermErrorView::InvalidIri(s@),
            TermError::InvalidLanguageTag(s) => TermErrorView::InvalidLanguageTag(s@),
            TermError::InvalidBlankNodeId(s) => TermErrorView::InvalidBlankNodeId(s@),
            TermError::InvalidVariableName(s) => TermErrorView::InvalidVariableName(s@),
            TermError::InvalidDatatype(s) => TermErrorView::InvalidDatatype(s@),
        }
    }
}

/// The description of an error: what was expected, then the text that was
/// refused.
pub open spec fn term_error_text(e: TermErrorView) -> Seq<char> {
    match e {
        TermErrorView::InvalidIri(s) => "invalid IRI: "@ + s,
        TermErrorView::InvalidLanguageTag(s) => "invalid language tag: "@ + s,
        TermErrorView::InvalidBlankNodeId(s) => "invalid blank node label: "@ + s,
        TermErrorView::InvalidVariableName(s) => "invalid variable name: "@ + s,
        TermErrorView::InvalidDatatype(s) => "datatype is not an IRI: "@ + s,
    }
}

impl TermError {
    /// A description of the error for a human reader.
    pub fn to_string(&self) -> (r: String)
        ensures
            r@ == term_error_text(self@),
    {
        let (head, subject) = match self {
            TermError::InvalidIri(s) => ("invalid IRI: ", s),
            TermError::InvalidLanguageTag(s) => ("invalid language tag: ", s),
            TermError::InvalidBlankNodeId(s) => ("invalid blank node label: ", s),
            TermError::InvalidVariableName(s) => ("invalid variable name: ", s),
            TermError::InvalidDatatype(s) => ("datatype is not an IRI: ", s),
        };
        let mut out = head.to_owned();
        push_str(&mut out, subject.as_str());
        out
    }
}

} // verus!
