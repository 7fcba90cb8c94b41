//! The canonical text of a term, in the syntax of the N-Triples family.
//!
//! An IRI stands between angle brackets, a blank node after `_:`, a
//! variable after `?`. A literal is its lexical value between double
//! quotes, with control characters, backslashes and double quotes written
//! as escapes, and then `@` and the language tag, or `^^` and the datatype
//! between angle brackets. A literal whose datatype is the string datatype
//! of XML Schema has no such ending. Characters outside ASCII are written
//! as they are.
use crate::bnode::BlankNode;
use crate::iri::Iri;
use crate::literal::Literal;
use crate::literal_kind::LiteralKind;
use crate::model::{LiteralKindView, TermView};
use crate::term::Term;
use crate::term_data::TermData;
use crate::text::push_str;
use crate::variable::Variable;
use vstd::prelude::*;

verus! {

/// The text of the IRI of the string datatype of XML Schema, which a plain
/// literal has without saying so.
pub open spec fn xsd_string_text() -> Seq<char> {
    "http://www.w3.org/2001/XMLSchema#string"@
}

/// An ASCII control character.
pub open spec fn is_control(c: char) -> bool {
    c < ' ' || c == '\u{7f}'
}

/// The upper-case hexadecimal digit of a number below 16.
pub open spec fn hex_digit(n: int) -> char
    recommends
        0 <= n < 16,
{
    if n < 10 {
        (('0' as int) + n) as char
    } else {
        (('A' as int) + n - 10) as char
    }
}

/// How one character of a lexical value is written between double quotes:
/// a short escape where the syntax has one, `\u00` and two hexadecimal
/// digits for any other control character, and the character itself
/// otherwise.
pub open spec fn escape_char(c: char) -> Seq<char> {
    if c == '\n' {
        seq!['\\', 'n']
    } else if c == '\r' {
        seq!['\\', 'r']
    } else if c == '\t' {
        seq!['\\', 't']
    } else if c == '\u{8}' {
        seq!['\\', 'b']
    } else if c == '\u{c}' {
        seq!['\\', 'f']
    } else if c == '"' {
        seq!['\\', '"']
    } else if c == '\\' {
        seq!['\\', '\\']
    } else if is_control(c) {
        seq!['\\', 'u', '0', '0', hex_digit((c as int) / 16), hex_digit((c as int) % 16)]
    } else {
        seq![c]
    }
}

/// A lexical value with each of its characters written by
/// [`escape_char`].
pub open spec fn escape(s: Seq<char>) -> Seq<char>
    decreases s.len(),
{
    if s.len() == 0 {
        Seq::empty()
    } else {
        escape(s.drop_last()) + escape_char(s.last())
    }
}

/// The character that a short escape stands for, by the character that
/// follows its backslash.
pub open spec fn short_escape(x: char) -> Option<char> {
    if x == 'n' {
        Some('\n')
    } else if x == 'r' {
        Some('\r')
    } else if x == 't' {
        Some('\t')
    } else if x == 'b' {
        Some('\u{8}')
    } else if x == 'f' {
        Some('\u{c}')
    } else if x == '"' {
        Some('"')
    } else if x == '\\' {
        Some('\\')
    } else {
        None
    }
}

/// The number that an upper-case hexadecimal digit stands for.
pub open spec fn hex_value(c: char) -> Option<int> {
    if '0' <= c && c <= '9' {
        Some((c as int) - ('0' as int))
    } else if 'A' <= c && c <= 'F' {
        Some((c as int) - ('A' as int) + 10)
    } else {
        None
    }
}

/// `c` in front of the text `rest`, where there is such a text.
pub open spec fn prepend(c: char, rest: Option<Seq<char>>) -> Option<Seq<char>> {
    match rest {
        Some(r) => Some(seq![c] + r),
        None => None,
    }
}

/// The lexical value that the text `t` between double quotes stands for,
/// or `None` where `t` is not what [`escape`] writes for any value.
pub open spec fn unescape(t: Seq<char>) -> Option<Seq<char>>
    decreases t.len(),
{
    if t.len() == 0 {
        Some(Seq::empty())
    } else if t[0] != '\\' {
        if t[0] == '"' || is_control(t[0]) {
            None
        } else {
            prepend(t[0], unescape(t.skip(1)))
        }
    } else if t.len() < 2 {
        None
    } else if short_escape(t[1]) is Some {
        prepend(short_escape(t[1])->0, unescape(t.skip(2)))
    } else if t.len() >= 6 && t[1] == 'u' && t[2] == '0' && t[3] == '0' && hex_value(t[4]) is Some
        && hex_value(t[5]) is Some {
        let n = hex_value(t[4])->0 * 16 + hex_value(t[5])->0;
        if is_control(n as char) && escape_char(n as char).len() == 6 {
            prepend(n as char, unescape(t.skip(6)))
        } else {
            None
        }
    } else {
        None
    }
}

/// A lexical value is written as its first character followed by the
/// rest.
pub proof fn lemma_escape_front(s: Seq<char>)
    requires
        s.len() > 0,
    ensures
        escape(s) == escape_char(s[0]) + escape(s.drop_first()),
    decreases s.len(),
{
    if s.len() == 1 {
        assert(s.drop_last() =~= Seq::<char>::empty());
        assert(s.drop_first() =~= Seq::<char>::empty());
        assert(escape(s.drop_last()) =~= Seq::<char>::empty());
        assert(escape(s) =~= escape_char(s[0]) + escape(s.drop_first()));
    } else {
        lemma_escape_front(s.drop_last());
        assert(s.drop_last().drop_first() =~= s.drop_first().drop_last());
        assert(s.drop_last()[0] == s[0]);
        assert(s.drop_first().last() == s.last());
        assert(escape(s) =~= escape_char(s[0]) + escape(s.drop_first()));
    }
}

/// What is written for one character is read back as that character,
/// whatever follows.
pub proof fn lemma_unescape_char(c: char, rest: Seq<char>)
    ensures
        unescape(escape_char(c) + rest) == prepend(c, unescape(rest)),
{
    let t = escape_char(c) + rest;
    if escape_char(c).len() == 1 {
        assert(t[0] == c);
        assert(t.skip(1) =~= rest);
    } else if escape_char(c).len() == 2 {
        assert(t[0] == '\\');
        assert(t[1] == escape_char(c)[1]);
        assert(short_escape(t[1]) == Some(c));
        assert(t.skip(2) =~= rest);
    } else {
        let hi = (c as int) / 16;
        let lo = (c as int) % 16;
        assert(is_control(c));
        assert(0 <= hi < 8 && 0 <= lo < 16);
        assert(t[0] == '\\' && t[1] == 'u' && t[2] == '0' && t[3] == '0');
        assert(t[4] == hex_digit(hi) && t[5] == hex_digit(lo));
        assert(hex_value(hex_digit(hi)) == Some(hi));
        assert(hex_value(hex_digit(lo)) == Some(lo));
        assert(short_escape('u') is None);
        assert((hi * 16 + lo) as char == c);
        assert(t.skip(6) =~= rest);
    }
}

/// Rendering round-trips through escaping: what is written for a lexical
/// value is read back as that value. So two lexical values are written
/// alike only if they are the same.
pub proof fn lemma_unescape_escape(s: Seq<char>)
    ensures
        unescape(escape(s)) == Some(s),
    decreases s.len(),
{
    if s.len() == 0 {
    } else {
        lemma_escape_front(s);
        lemma_unescape_escape(s.drop_first());
        lemma_unescape_char(s[0], escape(s.drop_first()));
        assert(seq![s[0]] + s.drop_first() =~= s);
    }
}

/// What follows the closing quote of a literal.
pub open spec fn kind_ending(k: LiteralKindView) -> Seq<char> {
    match k {
        LiteralKindView::Lang(tag) => seq!['@'] + tag,
        LiteralKindView::Datatype(dt) => if dt == xsd_string_text() {
            Seq::empty()
        } else {
            seq!['^', '^', '<'] + dt + seq!['>']
        },
    }
}

/// The canonical text of an IRI.
pub open spec fn render_iri(text: Seq<char>) -> Seq<char> {
    seq!['<'] + text + seq!['>']
}

/// The canonical text of a literal.
pub open spec fn render_literal(txt: Seq<char>, k: LiteralKindView) -> Seq<char> {
    seq!['"'] + escape(txt) + seq!['"'] + kind_ending(k)
}

/// The canonical text of a term.
pub open spec fn render(t: TermView) -> Seq<char> {
    match t {
        TermView::Iri(x) => render_iri(x),
        TermView::BNode(x) => seq!['_', ':'] + x,
        TermView::Literal(x, k) => render_literal(x, k),
        TermView::Variable(x) => seq!['?'] + x,
    }
}

fn to_hex_digit(n: u8) -> (c: char)
    requires
        n < 16,
    ensures
        c == hex_digit(n as int),
{
    if n < 10 {
        (48u8 + n) as char
    } else {
        (55u8 + n) as char
    }
}

/// Appends to `w` the character `c` as it is written between double
/// quotes.
pub fn write_escaped_char(w: &mut String, c: char)
    ensures
        final(w)@ == old(w)@ + escape_char(c),
{
    if c == '\n' {
        w.push('\\');
        w.push('n');
    } else if c == '\r' {
        w.push('\\');
        w.push('r');
    } else if c == '\t' {
        w.push('\\');
        w.push('t');
    } else if c == '\u{8}' {
        w.push('\\');
        w.push('b');
    } else if c == '\u{c}' {
        w.push('\\');
        w.push('f');
    } else if c == '"' {
        w.push('\\');
        w.push('"');
    } else if c == '\\' {
        w.push('\\');
        w.push('\\');
    } else if c < ' ' || c == '\u{7f}' {
        let n: u8 = c as u8;
        w.push('\\');
        w.push('u');
        w.push('0');
        w.push('0');
        w.push(to_hex_digit(n / 16));
        w.push(to_hex_digit(n % 16));
    } else {
        w.push(c);
    }
    assert(w@ =~= old(w)@ + escape_char(c));
}

/// Appends to `w` the lexical value `txt` as it is written between double
/// quotes.
pub fn write_escaped(w: &mut String, txt: &str)
    ensures
        final(w)@ == old(w)@ + escape(txt@),
{
    for c in iter: txt.chars()
        invariant
            w@ == old(w)@ + escape(iter.seq().take(iter.index() as int)),
            iter.seq() == txt@,
    {
        let ghost k = iter.index() as int;
        write_escaped_char(w, c);
        proof {
            let next = txt@.take(k + 1);
            assert(next.drop_last() =~= txt@.take(k));
            assert(next.last() == c);
        }
    }
    assert(txt@.take(txt@.len() as int) =~= txt@);
}

impl<T: TermData> Iri<T> {
    /// Appends the canonical text of this IRI to `w`.
    pub fn write_fmt(&self, w: &mut String)
        ensures
            final(w)@ == old(w)@ + render_iri(self@),
    {
        w.push('<');
        self.write_to(w);
        w.push('>');
        assert(w@ =~= old(w)@ + render_iri(self@));
    }
}

impl<T: TermData> BlankNode<T> {
    /// Appends the canonical text of this blank node to `w`.
    pub fn write_fmt(&self, w: &mut String)
        ensures
            final(w)@ == old(w)@ + (seq!['_', ':'] + self@),
    {
        w.push('_');
        w.push(':');
        push_str(w, self.as_str());
        assert(w@ =~= old(w)@ + (seq!['_', ':'] + self@));
    }
}

impl<T: TermData> Variable<T> {
    /// Appends the canonical text of this variable to `w`.
    pub fn write_fmt(&self, w: &mut String)
        ensures
            final(w)@ == old(w)@ + (seq!['?'] + self@),
    {
        w.push('?');
        push_str(w, self.as_str());
        assert(w@ =~= old(w)@ + (seq!['?'] + self@));
    }
}

impl<T: TermData> LiteralKind<T> {
    /// Whether this kind is the string datatype of XML Schema.
    pub fn is_xsd_string(&self) -> (r: bool)
        ensures
            r == (self@ == LiteralKindView::Datatype(xsd_string_text())),
    {
        match self {
            LiteralKind::Lang(_) => false,
            LiteralKind::Datatype(iri) => iri.is("http://www.w3.org/2001/XMLSchema#string"),
        }
    }

    /// Appends to `w` what follows the closing quote of a literal of this
    /// kind.
    pub fn write_ending(&self, w: &mut String)
        ensures
            final(w)@ == old(w)@ + kind_ending(self@),
    {
        match self {
            LiteralKind::Lang(tag) => {
                w.push('@');
                push_str(w, tag.as_str());
                assert(w@ =~= old(w)@ + kind_ending(self@));
            },
            LiteralKind::Datatype(iri) => {
                if !self.is_xsd_string() {
                    w.push('^');
                    w.push('^');
                    iri.write_fmt(w);
                    assert(w@ =~= old(w)@ + kind_ending(self@));
                } else {
                    assert(w@ =~= old(w)@ + kind_ending(self@));
                }
            },
        }
    }
}

impl<T: TermData> Literal<T> {
    /// Appends the canonical text of this literal to `w`.
    pub fn write_fmt(&self, w: &mut String)
        ensures
            final(w)@ == old(w)@ + render_literal(self.spec_txt(), self.spec_kind()@),
    {
        w.push('"');
        write_escaped(w, self.txt().as_str());
        w.push('"');
        self.kind().write_ending(w);
        assert(w@ =~= old(w)@ + render_literal(self.spec_txt(), self.spec_kind()@));
    }
}

/// Write a single RDF term into `w` using the N-Triples syntax.
pub fn write_term<T: TermData>(w: &mut String, t: &Term<T>)
    ensures
        final(w)@ == old(w)@ + render(t@),
{
    match t {
        Term::Iri(iri) => {
            iri.write_fmt(w);
        },
        Term::BNode(bn) => {
            bn.write_fmt(w);
        },
        Term::Literal(lit) => {
            lit.write_fmt(w);
        },
        Term::Variable(var) => {
            var.write_fmt(w);
        },
    };
}

impl<T: TermData> Term<T> {
    /// The canonical text of this term, in one new string.
    pub fn to_string(&self) -> (r: String)
        ensures
            r@ == render(self@),
    {
        let mut out = String::new();
        write_term(&mut out, self);
        assert(out@ =~= render(self@));
        out
    }
}

} // verus!
