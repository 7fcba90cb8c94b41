//! Parsing text into quads.
//!
//! A parser of some syntax is wrapped so that its quads are pulled one by
//! one from a source that yields terms of this crate and fails with one
//! error type, whatever the syntax.
use crate::error::{term_error_text, TermError, TermErrorView};
use crate::parser::guard::Refusal;
use vstd::prelude::*;

pub mod guard;
pub mod rio_common;
pub mod trig;

verus! {

/// Why pulling a quad from a source failed.
#[derive(Debug, Clone, PartialEq, Eq)]
pub enum ParseError {
    /// The parser refused the text. The position, where the parser knows
    /// it, is a line and a byte on that line.
    Syntax { message: String, position: Option<(usize, usize)> },
    /// The parser produced a term whose text breaks a lexical rule.
    Term(TermError),
    /// The text was not handed to the parser, which is not safe on it.
    Refused(Refusal),
}

/// A [`ParseError`] with the text it holds.
pub enum ParseErrorView {
    Syntax { message: Seq<char>, position: Option<(usize, usize)> },
    Term(TermErrorView),
    Refused(Refusal),
}

/// The description of a refusal.
pub open spec fn refusal_text(why: Refusal) -> Seq<char> {
    match why {
        Refusal::BracketInBase => "refused: the base IRI holds a bracket"@,
        Refusal::AtInBase => "refused: the base IRI holds an at sign"@,
        Refusal::BracketInIri => "refused: a bracket follows an open angle bracket"@,
        Refusal::AtInBaseDirective => "refused: the IRI of a base directive holds an at sign"@,
        Refusal::TooDeep => "refused: brackets are nested too deep"@,
    }
}

impl View for ParseError {
    type V = ParseErrorView;

    open spec fn view(&self) -> ParseErrorView {
        match self {
            ParseError::Syntax { message, position } => ParseErrorView::Syntax {
                message: message@,
                position: *position,
            },
            ParseError::Term(e) => ParseErrorView::Term(e@),
            ParseError::Refused(why) => ParseErrorView::Refused(*why),
        }
    }
}

/// The description that a parse error carries.
pub open spec fn parse_error_text(e: ParseErrorView) -> Seq<char> {
    match e {
        ParseErrorView::Syntax { message, position } => message,
        ParseErrorView::Term(t) => term_error_text(t),
        ParseErrorView::Refused(why) => refusal_text(why),
    }
}

impl ParseError {
    /// A description of the error for a human reader.
    pub fn message(&self) -> (r: String)
        ensures
            r@ == parse_error_text(self@),
    {
        match self {
            ParseError::Syntax { message, position } => message.clone(),
            ParseError::Term(e) => e.to_string(),
            ParseError::Refused(why) => match why {
                Refusal::BracketInBase => "refused: the base IRI holds a bracket".to_owned(),
                Refusal::AtInBase => "refused: the base IRI holds an at sign".to_owned(),
                Refusal::BracketInIri => "refused: a bracket follows an open angle bracket"
                    .to_owned(),
                Refusal::AtInBaseDirective => "refused: the IRI of a base directive holds an at sign"
                    .to_owned(),
                Refusal::TooDeep => "refused: brackets are nested too deep".to_owned(),
            },
        }
    }

    /// The line, and the byte on that line, where the parser stopped, if
    /// it said so.
    pub fn position(&self) -> (r: Option<(usize, usize)>)
        ensures
            r == (match self@ {
                ParseErrorView::Syntax { message, position } => position,
                ParseErrorView::Term(_) => None,
                ParseErrorView::Refused(_) => None,
            }),
    {
        match self {
            ParseError::Syntax { message, position } => *position,
            ParseError::Term(_) => None,
            ParseError::Refused(_) => None,
        }
    }
}

} // verus!
