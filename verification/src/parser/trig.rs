//! Adapter for the TriG parser of RIO.
use crate::parser::guard::{refusal, refusal_of, rio_admits};
use crate::parser::rio_common::{
    push_raw_quad, raw_quads_view, RawQuad, SourceView, StrictRioSource,
};
use crate::model::QuadView;
use crate::parser::{ParseError, ParseErrorView};
use rio_api::parser::{ParseError as RioParseError, QuadsParser};
use vstd::prelude::*;

verus! {

/// What the TriG parser of RIO reads in the text `data` with the base IRI
/// `base`: the quads, in the order of the text, up to the end or to the
/// first error, and of that error the description and, where the parser
/// gives one, the position (a line, and a byte on that line).
pub uninterp spec fn rio_trig(data: Seq<char>, base: Seq<char>) -> (
    Seq<QuadView>,
    Option<(Seq<char>, Option<(usize, usize)>)>,
);

/// Runs `rio_turtle::TriGParser::new` on the bytes of `data` and on
/// `base`, then `parse_all` on the parser. The quads that the parser hands
/// to its callback are collected in their plain form; an error of `new` or
/// of `parse_all` ends the run, and comes back as what its `Display` and
/// its `textual_position` give. The parser reads nothing but its two
/// arguments, so its result is a function of them: [`rio_trig`].
///
/// The parser panics on an IRI with a bracket after user-information and
/// on a base IRI with user-information, and it follows nested brackets by
/// recursion: only a text that [`rio_admits`] is handed to it, in which
/// no IRI holds a bracket, no base IRI holds an at sign, and brackets are
/// nested no deeper than the limit.
#[verifier::external_body]
fn rio_parse_trig(data: &str, base: &str) -> (r: (
    Vec<RawQuad>,
    Option<(String, Option<(usize, usize)>)>,
))
    requires
        rio_admits(data@, base@),
    ensures
        raw_quads_view(r.0@) == rio_trig(data@, base@).0,
        (match r.1 {
            Some(e) => Some((e.0@, e.1)),
            None => None,
        }) == rio_trig(data@, base@).1,
{
    let mut quads = Vec::new();
    let done = match rio_turtle::TriGParser::new(data.as_bytes(), base) {
        Ok(mut parser) => parser.parse_all(&mut |q| { push_raw_quad(&mut quads, &q); Ok(()) }),
        Err(e) => Err(e),
    };
    let at = |p: rio_api::parser::LineBytePosition| (p.line_number(), p.byte_number());
    (quads, done.err().map(|e| (format!("{}", e), e.textual_position().map(at))))
}

/// What the source of the document `data`, read with the base IRI `base`,
/// holds: what the parser of RIO reads in it, or, for a text that is not
/// handed to the parser, no quad and the refusal.
pub open spec fn parsed(data: Seq<char>, base: Seq<char>) -> SourceView {
    match refusal_of(data, base) {
        Some(why) => SourceView {
            pending: Seq::empty(),
            failure: Some(ParseErrorView::Refused(why)),
        },
        None => SourceView {
            pending: rio_trig(data, base).0,
            failure: match rio_trig(data, base).1 {
                Some(e) => Some(ParseErrorView::Syntax { message: e.0, position: e.1 }),
                None => None,
            },
        },
    }
}

/// TriG parser based on RIO.
#[derive(Clone, Debug, Default)]
pub struct TriGParser {
    /// The IRI against which the relative IRIs of the text are resolved.
    pub base: Option<String>,
}

impl TriGParser {
    /// The base IRI that is handed to the parser: the one of `base`, or a
    /// stand-in that means that there is none.
    pub open spec fn spec_base(&self) -> Seq<char> {
        match self.base {
            Some(base) => base@,
            None => "x-no-base:///"@,
        }
    }

    /// The source of the quads of the TriG document `data`.
    ///
    /// The source holds what the parser of RIO reads in `data` with the
    /// base IRI of this parser. A text on which the parser is not safe is
    /// not handed to it: its source holds no quad and fails with the
    /// refusal at the first pull.
    pub fn parse(&self, data: &str) -> (src: StrictRioSource)
        ensures
            src@ == parsed(data@, self.spec_base()),
    {
        let base: &str = match &self.base {
            Some(base) => base.as_str(),
            None => "x-no-base:///",
        };
        match refusal(data, base) {
            Some(why) => {
                let src = StrictRioSource::new(Vec::new(), Some(ParseError::Refused(why)));
                assert(src@.pending =~= Seq::empty());
                src
            },
            None => {
                let (quads, failure) = rio_parse_trig(data, base);
                let failure = match failure {
                    Some((message, position)) => Some(ParseError::Syntax { message, position }),
                    None => None,
                };
                StrictRioSource::new(quads, failure)
            },
        }
    }

    /// The source of the quads of the TriG document `txt`.
    pub fn parse_str(&self, txt: &str) -> (src: StrictRioSource)
        ensures
            src@ == parsed(txt@, self.spec_base()),
    {
        self.parse(txt)
    }
}

/// The source of the quads of the TriG document `txt`, read without a base
/// IRI.
pub fn parse_str(txt: &str) -> (src: StrictRioSource)
    ensures
        src@ == parsed(txt@, "x-no-base:///"@),
{
    let parser = TriGParser { base: None };
    parser.parse(txt)
}

} // verus!
