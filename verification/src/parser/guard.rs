//! Which texts are handed to the parser of RIO, and which are refused
//! before it sees them.
//!
//! The parser of RIO panics on an IRI whose text holds `[`, where
//! user-information stands before a bracketed host. It panics when it
//! resolves a relative IRI against a base IRI that holds
//! user-information, which ends with `@`. And it follows the nesting of
//! `[ … ]` and `( … )` by recursion without a limit. A text is handed to
//! it only where none of this can happen:
//!
//! * the base IRI holds no `[` and no `@`;
//! * no `[`, written as it is or as the escape `\u005B` or `\U0000005B`,
//!   stands on a line after a `<` that no `>` has closed. Every IRI of a
//!   document stands between `<` and the next `>` of its line, so no IRI
//!   that the parser reads holds a `[`. A text that holds such a `<` in a
//!   string or a comment is refused as well;
//! * no `@`, written as it is or as the escape `\u0040` or `\U00000040`,
//!   stands in the IRI of a base directive: after a `<` that follows the
//!   word `base`, in either case, with nothing but blanks and comments in
//!   between. So no base IRI that the parser ever holds has an `@`;
//! * `[` and `(` outside strings, IRIs and comments are never nested more
//!   than [`MAX_NESTING`] deep.
use crate::text::{chars_of, lower_char, to_lower_char};
use vstd::prelude::*;

verus! {

/// The deepest nesting of `[` and `(` that is handed to the parser.
pub const MAX_NESTING: usize = 64;

/// Why a text is not handed to the parser.
#[derive(Debug, Clone, Copy, PartialEq, Eq, Structural)]
pub enum Refusal {
    /// The base IRI holds a `[`.
    BracketInBase,
    /// The base IRI holds an `@`.
    AtInBase,
    /// A `[`, or an escape that stands for it, follows an open `<`.
    BracketInIri,
    /// An `@`, or an escape that stands for it, stands in the IRI of a
    /// base directive.
    AtInBaseDirective,
    /// Brackets are nested more than [`MAX_NESTING`] deep.
    TooDeep,
}

/// The end of a line.
pub open spec fn is_line_end(c: char) -> bool {
    c == '\n' || c == '\r'
}

/// A character that ends what a `<` has opened: `>`, or the end of the
/// line.
pub open spec fn closes_angle(c: char) -> bool {
    c == '>' || is_line_end(c)
}

/// Some character of `s` is `[`.
pub open spec fn has_bracket(s: Seq<char>) -> bool {
    exists|j: int| 0 <= j < s.len() && #[trigger] s[j] == '['
}

/// Some character of `s` is `@`.
pub open spec fn has_at(s: Seq<char>) -> bool {
    exists|j: int| 0 <= j < s.len() && #[trigger] s[j] == '@'
}

/// The `<` at `w` is still open at `j`: nothing closes it in between.
pub open spec fn angle_open(s: Seq<char>, w: int, j: int) -> bool {
    &&& 0 <= w < j <= s.len()
    &&& s[w] == '<'
    &&& forall|k: int| w < k < j ==> !closes_angle(#[trigger] s[k])
}

/// Some `<` before `j` is still open at `j`.
pub open spec fn in_angle(s: Seq<char>, j: int) -> bool {
    exists|w: int| angle_open(s, w, j)
}

/// At `j` stands `[`, or one of the two escapes that stand for it: `\u`
/// and the four hexadecimal digits `005B`, or `\U` and the eight digits
/// `0000005B`.
pub open spec fn bracket_at(s: Seq<char>, j: int) -> bool {
    ||| s[j] == '['
    ||| (j + 5 < s.len() && s[j] == '\\' && s[j + 1] == 'u' && s[j + 2] == '0' && s[j + 3] == '0'
        && s[j + 4] == '5' && (s[j + 5] == 'B' || s[j + 5] == 'b'))
    ||| (j + 9 < s.len() && s[j] == '\\' && s[j + 1] == 'U' && s[j + 2] == '0' && s[j + 3] == '0'
        && s[j + 4] == '0' && s[j + 5] == '0' && s[j + 6] == '0' && s[j + 7] == '0' && s[j + 8]
        == '5' && (s[j + 9] == 'B' || s[j + 9] == 'b'))
}

/// Somewhere in `s` a `[`, or an escape for it, follows an open `<`.
pub open spec fn bracket_in_iri(s: Seq<char>) -> bool {
    exists|j: int| 0 <= j < s.len() && in_angle(s, j) && #[trigger] bracket_at(s, j)
}

/// At `j` stands `@`, or one of the two escapes that stand for it: `\u`
/// and the four hexadecimal digits `0040`, or `\U` and the eight digits
/// `00000040`.
pub open spec fn at_sign_at(s: Seq<char>, j: int) -> bool {
    ||| s[j] == '@'
    ||| (j + 5 < s.len() && s[j] == '\\' && s[j + 1] == 'u' && s[j + 2] == '0' && s[j + 3] == '0'
        && s[j + 4] == '4' && s[j + 5] == '0')
    ||| (j + 9 < s.len() && s[j] == '\\' && s[j + 1] == 'U' && s[j + 2] == '0' && s[j + 3] == '0'
        && s[j + 4] == '0' && s[j + 5] == '0' && s[j + 6] == '0' && s[j + 7] == '0' && s[j + 8]
        == '4' && s[j + 9] == '0')
}

/// A blank between tokens.
pub open spec fn is_blank(c: char) -> bool {
    c == ' ' || c == '\t' || is_line_end(c)
}

/// The word `base`, in either case, ends at `k`. Both forms of the base
/// directive, `@base` and `BASE`, end with it.
pub open spec fn base_word_ends_at(s: Seq<char>, k: int) -> bool {
    &&& 3 <= k < s.len()
    &&& lower_char(s[k - 3]) == 'b'
    &&& lower_char(s[k - 2]) == 'a'
    &&& lower_char(s[k - 1]) == 's'
    &&& lower_char(s[k]) == 'e'
}

/// What may separate the word `base` from the IRI of its directive.
pub struct Gap {
    /// Since some word `base`, only blanks and whole comments were read.
    pub blank: bool,
    /// Since some word `base`, only blanks and comments were read, and
    /// the last comment is not at its end.
    pub comment: bool,
}

/// The gap after the character at `k`, read in the gap `g`.
pub open spec fn gap_step(g: Gap, s: Seq<char>, k: int) -> Gap {
    let c = s[k];
    Gap {
        blank: (g.blank && is_blank(c)) || (g.comment && is_line_end(c)) || base_word_ends_at(
            s,
            k,
        ),
        comment: (g.blank && c == '#') || (g.comment && !is_line_end(c)),
    }
}

/// The gap after the first `n` characters of `s`.
pub open spec fn gap(s: Seq<char>, n: int) -> Gap
    decreases n,
{
    if n <= 0 {
        Gap { blank: false, comment: false }
    } else {
        gap_step(gap(s, n - 1), s, n - 1)
    }
}

/// The `<` at `w` may open the IRI of a base directive, and is still open
/// at `j`.
pub open spec fn base_angle_open(s: Seq<char>, w: int, j: int) -> bool {
    angle_open(s, w, j) && gap(s, w).blank
}

/// Some `<` that may open the IRI of a base directive is still open at
/// `j`.
pub open spec fn in_base_angle(s: Seq<char>, j: int) -> bool {
    exists|w: int| base_angle_open(s, w, j)
}

/// Somewhere in `s` an `@`, or an escape for it, stands in what may be
/// the IRI of a base directive.
pub open spec fn at_in_base_directive(s: Seq<char>) -> bool {
    exists|j: int| 0 <= j < s.len() && in_base_angle(s, j) && #[trigger] at_sign_at(s, j)
}

/// In what the scan of a document stands.
#[derive(Debug, Clone, Copy)]
pub enum Mode {
    /// Between or inside the tokens that hold no free text.
    Normal,
    /// Inside an IRI, after `<`.
    Iri,
    /// Inside a comment, after `#`.
    Comment,
    /// Inside a string of one line, opened by the quote given.
    Short(char),
    /// Inside a string of several lines, opened by three of the quote
    /// given.
    Long(char),
}

/// The state of the scan of a document.
pub struct Scan {
    pub mode: Mode,
    /// How many of the next characters belong to what was just read.
    pub skip: int,
    /// How many `[` and `(` are open.
    pub depth: int,
}

/// Three times the quote `q` stand at `i`.
pub open spec fn triple_at(s: Seq<char>, i: int, q: char) -> bool {
    i + 2 < s.len() && s[i] == q && s[i + 1] == q && s[i + 2] == q
}

/// The state after the character at `i`, read in the state `st`.
///
/// Strings, IRIs and comments are told apart as the grammar of Turtle and
/// TriG tells them apart; a backslash takes the next character with it.
/// Outside of them `[` and `(` open a level, `]` and `)` close one.
pub open spec fn step(st: Scan, s: Seq<char>, i: int) -> Scan {
    let c = s[i];
    if st.skip > 0 {
        Scan { mode: st.mode, skip: st.skip - 1, depth: st.depth }
    } else {
        match st.mode {
            Mode::Normal => if c == '<' {
                Scan { mode: Mode::Iri, skip: 0, depth: st.depth }
            } else if c == '#' {
                Scan { mode: Mode::Comment, skip: 0, depth: st.depth }
            } else if c == '"' || c == '\'' {
                if triple_at(s, i, c) {
                    Scan { mode: Mode::Long(c), skip: 2, depth: st.depth }
                } else {
                    Scan { mode: Mode::Short(c), skip: 0, depth: st.depth }
                }
            } else if c == '\\' {
                Scan { mode: Mode::Normal, skip: 1, depth: st.depth }
            } else if c == '[' || c == '(' {
                Scan { mode: Mode::Normal, skip: 0, depth: st.depth + 1 }
            } else if c == ']' || c == ')' {
                Scan {
                    mode: Mode::Normal,
                    skip: 0,
                    depth: if st.depth > 0 {
                        st.depth - 1
                    } else {
                        0
                    },
                }
            } else {
                st
            },
            Mode::Iri => if closes_angle(c) {
                Scan { mode: Mode::Normal, skip: 0, depth: st.depth }
            } else {
                st
            },
            Mode::Comment => if is_line_end(c) {
                Scan { mode: Mode::Normal, skip: 0, depth: st.depth }
            } else {
                st
            },
            Mode::Short(q) => if c == q || is_line_end(c) {
                Scan { mode: Mode::Normal, skip: 0, depth: st.depth }
            } else if c == '\\' {
                Scan { mode: st.mode, skip: 1, depth: st.depth }
            } else {
                st
            },
            Mode::Long(q) => if triple_at(s, i, q) {
                Scan { mode: Mode::Normal, skip: 2, depth: st.depth }
            } else if c == '\\' {
                Scan { mode: st.mode, skip: 1, depth: st.depth }
            } else {
                st
            },
        }
    }
}

/// The state of the scan after the first `n` characters of `s`.
pub open spec fn scan(s: Seq<char>, n: int) -> Scan
    decreases n,
{
    if n <= 0 {
        Scan { mode: Mode::Normal, skip: 0, depth: 0 }
    } else {
        step(scan(s, n - 1), s, n - 1)
    }
}

/// Nowhere in `s` are more than [`MAX_NESTING`] brackets open.
pub open spec fn nesting_ok(s: Seq<char>) -> bool {
    forall|n: int| 0 <= n <= s.len() ==> (#[trigger] scan(s, n)).depth <= MAX_NESTING
}

/// Why the document `data` with the base IRI `base` is not handed to the
/// parser, or `None` where it is.
pub open spec fn refusal_of(data: Seq<char>, base: Seq<char>) -> Option<Refusal> {
    if has_bracket(base) {
        Some(Refusal::BracketInBase)
    } else if has_at(base) {
        Some(Refusal::AtInBase)
    } else if bracket_in_iri(data) {
        Some(Refusal::BracketInIri)
    } else if at_in_base_directive(data) {
        Some(Refusal::AtInBaseDirective)
    } else if !nesting_ok(data) {
        Some(Refusal::TooDeep)
    } else {
        None
    }
}

/// The document `data` with the base IRI `base` is handed to the parser.
pub open spec fn rio_admits(data: Seq<char>, base: Seq<char>) -> bool {
    refusal_of(data, base) is None
}

/// What is open after the character at `i` follows from what was open
/// before it.
pub proof fn lemma_angle_step(s: Seq<char>, i: int)
    requires
        0 <= i < s.len(),
    ensures
        in_angle(s, i + 1) == (s[i] == '<' || (in_angle(s, i) && !closes_angle(s[i]))),
{
    if s[i] == '<' {
        assert(angle_open(s, i, i + 1));
    } else if in_angle(s, i) && !closes_angle(s[i]) {
        let w = choose|w: int| angle_open(s, w, i);
        assert(angle_open(s, w, i + 1));
        assert(in_angle(s, i + 1));
    }
    let j = i + 1;
    if in_angle(s, j) {
        let w = choose|w: int| angle_open(s, w, j);
        if w < i {
            assert(!closes_angle(s[i]));
            assert(angle_open(s, w, i));
        }
    }
}

/// Which `<` of a base directive is open after the character at `i`
/// follows from which was open before it.
pub proof fn lemma_base_angle_step(s: Seq<char>, i: int)
    requires
        0 <= i < s.len(),
    ensures
        in_base_angle(s, i + 1) == ((s[i] == '<' && gap(s, i).blank) || (in_base_angle(s, i)
            && !closes_angle(s[i]))),
{
    if s[i] == '<' && gap(s, i).blank {
        assert(base_angle_open(s, i, i + 1));
        assert(in_base_angle(s, i + 1));
    } else if in_base_angle(s, i) && !closes_angle(s[i]) {
        let w = choose|w: int| base_angle_open(s, w, i);
        assert(base_angle_open(s, w, i + 1));
        assert(in_base_angle(s, i + 1));
    }
    let j = i + 1;
    if in_base_angle(s, j) {
        let w = choose|w: int| base_angle_open(s, w, j);
        if w < i {
            assert(!closes_angle(s[i]));
            assert(base_angle_open(s, w, i));
        }
    }
}

fn is_at_sign_at(v: &Vec<char>, j: usize) -> (b: bool)
    requires
        j < v.len(),
    ensures
        b == at_sign_at(v@, j as int),
{
    let n = v.len();
    if v[j] == '@' {
        return true;
    }
    if v[j] != '\\' {
        return false;
    }
    if n - j > 5 && v[j + 1] == 'u' && v[j + 2] == '0' && v[j + 3] == '0' && v[j + 4] == '4' && v[j
        + 5] == '0' {
        return true;
    }
    n - j > 9 && v[j + 1] == 'U' && v[j + 2] == '0' && v[j + 3] == '0' && v[j + 4] == '0' && v[j
        + 5] == '0' && v[j + 6] == '0' && v[j + 7] == '0' && v[j + 8] == '4' && v[j + 9] == '0'
}

fn does_base_word_end_at(v: &Vec<char>, k: usize) -> (b: bool)
    requires
        k < v.len(),
    ensures
        b == base_word_ends_at(v@, k as int),
{
    k >= 3 && to_lower_char(v[k - 3]) == 'b' && to_lower_char(v[k - 2]) == 'a' && to_lower_char(
        v[k - 1],
    ) == 's' && to_lower_char(v[k]) == 'e'
}

fn is_bracket_at(v: &Vec<char>, j: usize) -> (b: bool)
    requires
        j < v.len(),
    ensures
        b == bracket_at(v@, j as int),
{
    let n = v.len();
    if v[j] == '[' {
        return true;
    }
    if v[j] != '\\' {
        return false;
    }
    if n - j > 5 && v[j + 1] == 'u' && v[j + 2] == '0' && v[j + 3] == '0' && v[j + 4] == '5' && (v[j
        + 5] == 'B' || v[j + 5] == 'b') {
        return true;
    }
    n - j > 9 && v[j + 1] == 'U' && v[j + 2] == '0' && v[j + 3] == '0' && v[j + 4] == '0' && v[j
        + 5] == '0' && v[j + 6] == '0' && v[j + 7] == '0' && v[j + 8] == '5' && (v[j + 9] == 'B'
        || v[j + 9] == 'b')
}

fn is_triple_at(v: &Vec<char>, i: usize, q: char) -> (b: bool)
    requires
        i < v.len(),
    ensures
        b == triple_at(v@, i as int, q),
{
    v.len() - i > 2 && v[i] == q && v[i + 1] == q && v[i + 2] == q
}

fn line_end(c: char) -> (b: bool)
    ensures
        b == is_line_end(c),
{
    c == '\n' || c == '\r'
}

/// Whether some character of `s` is `[`.
pub fn holds_bracket(s: &str) -> (b: bool)
    ensures
        b == has_bracket(s@),
{
    let v = chars_of(s);
    let mut i: usize = 0;
    while i < v.len()
        invariant
            i <= v.len(),
            v@ == s@,
            forall|j: int| 0 <= j < i ==> v@[j] != '[',
        decreases v.len() - i,
    {
        if v[i] == '[' {
            return true;
        }
        i += 1;
    }
    false
}

/// Whether some character of `s` is `@`.
pub fn holds_at(s: &str) -> (b: bool)
    ensures
        b == has_at(s@),
{
    let v = chars_of(s);
    let mut i: usize = 0;
    while i < v.len()
        invariant
            i <= v.len(),
            v@ == s@,
            forall|j: int| 0 <= j < i ==> v@[j] != '@',
        decreases v.len() - i,
    {
        if v[i] == '@' {
            return true;
        }
        i += 1;
    }
    false
}

/// Whether an `@`, or an escape for it, stands in what may be the IRI of
/// a base directive of `v`.
pub fn holds_at_in_base_directive(v: &Vec<char>) -> (b: bool)
    ensures
        b == at_in_base_directive(v@),
{
    let n = v.len();
    let mut blank = false;
    let mut comment = false;
    let mut open = false;
    let mut i: usize = 0;
    while i < n
        invariant
            i <= n,
            n == v.len(),
            gap(v@, i as int) == (Gap { blank, comment }),
            open == in_base_angle(v@, i as int),
            forall|j: int| 0 <= j < i ==> !(in_base_angle(v@, j) && #[trigger] at_sign_at(v@, j)),
        decreases n - i,
    {
        if open && is_at_sign_at(v, i) {
            return true;
        }
        let c = v[i];
        proof {
            lemma_base_angle_step(v@, i as int);
        }
        open = (c == '<' && blank) || (open && c != '>' && !line_end(c));
        let ends = line_end(c);
        let next_blank = (blank && (c == ' ' || c == '\t' || ends)) || (comment && ends)
            || does_base_word_end_at(v, i);
        let next_comment = (blank && c == '#') || (comment && !ends);
        assert(gap(v@, i + 1) == gap_step(gap(v@, i as int), v@, i as int));
        blank = next_blank;
        comment = next_comment;
        i += 1;
    }
    false
}

/// Whether a `[`, or an escape for it, follows an open `<` in `v`.
pub fn holds_bracket_in_iri(v: &Vec<char>) -> (b: bool)
    ensures
        b == bracket_in_iri(v@),
{
    let n = v.len();
    let mut open = false;
    let mut i: usize = 0;
    while i < n
        invariant
            i <= n,
            n == v.len(),
            open == in_angle(v@, i as int),
            forall|j: int| 0 <= j < i ==> !(in_angle(v@, j) && #[trigger] bracket_at(v@, j)),
        decreases n - i,
    {
        if open && is_bracket_at(v, i) {
            return true;
        }
        let c = v[i];
        proof {
            lemma_angle_step(v@, i as int);
        }
        open = c == '<' || (open && c != '>' && !line_end(c));
        i += 1;
    }
    false
}

/// Whether the brackets of `v` are never nested more than
/// [`MAX_NESTING`] deep.
pub fn nests_within_limit(v: &Vec<char>) -> (b: bool)
    ensures
        b == nesting_ok(v@),
{
    let n = v.len();
    let mut mode = Mode::Normal;
    let mut skip: u8 = 0;
    let mut depth: usize = 0;
    let mut i: usize = 0;
    while i < n
        invariant
            i <= n,
            n == v.len(),
            0 <= skip <= 2,
            depth <= MAX_NESTING,
            scan(v@, i as int) == (Scan { mode, skip: skip as int, depth: depth as int }),
            forall|m: int| 0 <= m <= i ==> (#[trigger] scan(v@, m)).depth <= MAX_NESTING,
        decreases n - i,
    {
        let c = v[i];
        let ghost before = scan(v@, i as int);
        if skip > 0 {
            skip -= 1;
        } else {
            match mode {
                Mode::Normal => {
                    if c == '<' {
                        mode = Mode::Iri;
                    } else if c == '#' {
                        mode = Mode::Comment;
                    } else if c == '"' || c == '\'' {
                        if is_triple_at(v, i, c) {
                            mode = Mode::Long(c);
                            skip = 2;
                        } else {
                            mode = Mode::Short(c);
                        }
                    } else if c == '\\' {
                        skip = 1;
                    } else if c == '[' || c == '(' {
                        depth += 1;
                    } else if c == ']' || c == ')' {
                        if depth > 0 {
                            depth -= 1;
                        }
                    }
                },
                Mode::Iri => {
                    if c == '>' || line_end(c) {
                        mode = Mode::Normal;
                    }
                },
                Mode::Comment => {
                    if line_end(c) {
                        mode = Mode::Normal;
                    }
                },
                Mode::Short(q) => {
                    if c == q || line_end(c) {
                        mode = Mode::Normal;
                    } else if c == '\\' {
                        skip = 1;
                    }
                },
                Mode::Long(q) => {
                    if is_triple_at(v, i, q) {
                        mode = Mode::Normal;
                        skip = 2;
                    } else if c == '\\' {
                        skip = 1;
                    }
                },
            }
        }
        assert(scan(v@, i + 1) == step(before, v@, i as int));
        assert(scan(v@, i + 1) == (Scan { mode, skip: skip as int, depth: depth as int }));
        if depth > MAX_NESTING {
            return false;
        }
        i += 1;
    }
    true
}

/// Why the document `data` with the base IRI `base` is not handed to the
/// parser, or `None` where it is.
pub fn refusal(data: &str, base: &str) -> (r: Option<Refusal>)
    ensures
        r == refusal_of(data@, base@),
{
    if holds_bracket(base) {
        return Some(Refusal::BracketInBase);
    }
    if holds_at(base) {
        return Some(Refusal::AtInBase);
    }
    let v = chars_of(data);
    if holds_bracket_in_iri(&v) {
        return Some(Refusal::BracketInIri);
    }
    if holds_at_in_base_directive(&v) {
        return Some(Refusal::AtInBaseDirective);
    }
    if !nests_within_limit(&v) {
        return Some(Refusal::TooDeep);
    }
    None
}

} // verus!
