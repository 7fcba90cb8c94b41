//! The lexical rules of terms: which texts may be an IRI reference, a
//! language tag, a blank node label or a variable name.
//!
//! Each rule is stated once as a predicate on a sequence of characters and
//! decided by an executable function on a string slice.
use crate::text::chars_of;
use vstd::prelude::*;

verus! {

/// An ASCII letter.
pub open spec fn is_alpha(c: char) -> bool {
    ('a' <= c && c <= 'z') || ('A' <= c && c <= 'Z')
}

/// An ASCII digit.
pub open spec fn is_digit(c: char) -> bool {
    '0' <= c && c <= '9'
}

/// A character that may follow the first letter of an IRI scheme.
pub open spec fn is_scheme_char(c: char) -> bool {
    is_alpha(c) || is_digit(c) || c == '+' || c == '-' || c == '.'
}

/// A character that may stand in an IRI reference written between angle
/// brackets: anything but a control character, a space, or one of
/// `<`, `>`, `"`, `{`, `}`, `|`, `^`, `` ` `` and `\`.
pub open spec fn is_iri_char(c: char) -> bool {
    &&& c > ' '
    &&& c != '<'
    &&& c != '>'
    &&& c != '"'
    &&& c != '{'
    &&& c != '}'
    &&& c != '|'
    &&& c != '^'
    &&& c != '`'
    &&& c != '\\'
}

/// The letters of the production `PN_CHARS_BASE` of Turtle.
pub open spec fn is_pn_chars_base(c: char) -> bool {
    let n = c as u32;
    ||| is_alpha(c)
    ||| (0xC0 <= n && n <= 0xD6)
    ||| (0xD8 <= n && n <= 0xF6)
    ||| (0xF8 <= n && n <= 0x2FF)
    ||| (0x370 <= n && n <= 0x37D)
    ||| (0x37F <= n && n <= 0x1FFF)
    ||| (0x200C <= n && n <= 0x200D)
    ||| (0x2070 <= n && n <= 0x218F)
    ||| (0x2C00 <= n && n <= 0x2FEF)
    ||| (0x3001 <= n && n <= 0xD7FF)
    ||| (0xF900 <= n && n <= 0xFDCF)
    ||| (0xFDF0 <= n && n <= 0xFFFD)
    ||| (0x10000 <= n && n <= 0xEFFFF)
}

/// A character that may start a blank node label or a variable name.
pub open spec fn is_name_start(c: char) -> bool {
    is_pn_chars_base(c) || c == '_' || is_digit(c)
}

/// A character that may stand inside a variable name.
pub open spec fn is_var_char(c: char) -> bool {
    let n = c as u32;
    ||| is_name_start(c)
    ||| n == 0xB7
    ||| (0x300 <= n && n <= 0x36F)
    ||| (0x203F <= n && n <= 0x2040)
}

/// A character that may stand inside a blank node label.
pub open spec fn is_label_char(c: char) -> bool {
    is_var_char(c) || c == '-' || c == '.'
}

/// A hexadecimal digit, in either case.
pub open spec fn is_hex(c: char) -> bool {
    is_digit(c) || ('a' <= c && c <= 'f') || ('A' <= c && c <= 'F')
}

/// The character at `i` is not `%`, or two hexadecimal digits follow it.
pub open spec fn percent_ok(s: Seq<char>, i: int) -> bool {
    s[i] == '%' ==> i + 2 < s.len() && is_hex(s[i + 1]) && is_hex(s[i + 2])
}

/// `s` is an IRI reference, absolute or relative: each of its characters
/// may stand in one, and each `%` starts a percent-encoded byte.
pub open spec fn is_iri_ref(s: Seq<char>) -> bool {
    forall|i: int| 0 <= i < s.len() ==> is_iri_char(#[trigger] s[i]) && percent_ok(s, i)
}

/// The colon at `k` ends a scheme that starts `s`: a letter, then letters,
/// digits, `+`, `-` or `.`.
pub open spec fn scheme_ends_at(s: Seq<char>, k: int) -> bool {
    &&& 0 < k < s.len()
    &&& s[k] == ':'
    &&& is_alpha(s[0])
    &&& forall|j: int| 0 < j < k ==> is_scheme_char(#[trigger] s[j])
}

/// `s` starts with a scheme and a colon, which makes an IRI reference
/// absolute.
pub open spec fn has_scheme(s: Seq<char>) -> bool {
    exists|k: int| scheme_ends_at(s, k)
}

/// `s` is a language tag: one or more ASCII letters, then any number of
/// groups made of `-` and one or more ASCII letters or digits.
pub open spec fn is_lang_tag(s: Seq<char>) -> bool {
    &&& s.len() > 0
    &&& s[0] != '-'
    &&& s[s.len() - 1] != '-'
    &&& forall|i: int|
        0 <= i < s.len() ==> is_alpha(s[i]) || is_digit(s[i]) || #[trigger] s[i] == '-'
    &&& forall|i: int| 0 < i < s.len() && #[trigger] s[i] == '-' ==> s[i - 1] != '-'
    &&& forall|i: int|
        0 <= i < s.len() && is_digit(#[trigger] s[i]) ==> exists|j: int|
            0 <= j < i && #[trigger] s[j] == '-'
}

/// `s` is a blank node label: it starts with a letter, a digit or `_`,
/// goes on with label characters, and does not end with `.`.
pub open spec fn is_bnode_id(s: Seq<char>) -> bool {
    &&& s.len() > 0
    &&& is_name_start(s[0])
    &&& s[s.len() - 1] != '.'
    &&& forall|i: int| 0 <= i < s.len() ==> is_label_char(#[trigger] s[i])
}

/// `s` is a variable name: it starts with a letter, a digit or `_` and goes
/// on with name characters.
pub open spec fn is_var_name(s: Seq<char>) -> bool {
    &&& s.len() > 0
    &&& is_name_start(s[0])
    &&& forall|i: int| 0 <= i < s.len() ==> is_var_char(#[trigger] s[i])
}

fn alpha(c: char) -> (b: bool)
    ensures
        b == is_alpha(c),
{
    ('a' <= c && c <= 'z') || ('A' <= c && c <= 'Z')
}

fn digit(c: char) -> (b: bool)
    ensures
        b == is_digit(c),
{
    '0' <= c && c <= '9'
}

fn hex(c: char) -> (b: bool)
    ensures
        b == is_hex(c),
{
    digit(c) || ('a' <= c && c <= 'f') || ('A' <= c && c <= 'F')
}

fn scheme_char(c: char) -> (b: bool)
    ensures
        b == is_scheme_char(c),
{
    alpha(c) || digit(c) || c == '+' || c == '-' || c == '.'
}

fn iri_char(c: char) -> (b: bool)
    ensures
        b == is_iri_char(c),
{
    c > ' ' && c != '<' && c != '>' && c != '"' && c != '{' && c != '}' && c != '|' && c != '^'
        && c != '`' && c != '\\'
}

fn pn_chars_base(c: char) -> (b: bool)
    ensures
        b == is_pn_chars_base(c),
{
    let n: u32 = c as u32;
    alpha(c) || (0xC0 <= n && n <= 0xD6) || (0xD8 <= n && n <= 0xF6) || (0xF8 <= n && n <= 0x2FF)
        || (0x370 <= n && n <= 0x37D) || (0x37F <= n && n <= 0x1FFF) || (0x200C <= n && n
        <= 0x200D) || (0x2070 <= n && n <= 0x218F) || (0x2C00 <= n && n <= 0x2FEF) || (0x3001
        <= n && n <= 0xD7FF) || (0xF900 <= n && n <= 0xFDCF) || (0xFDF0 <= n && n <= 0xFFFD) || (
    0x10000 <= n && n <= 0xEFFFF)
}

fn name_start(c: char) -> (b: bool)
    ensures
        b == is_name_start(c),
{
    pn_chars_base(c) || c == '_' || digit(c)
}

fn var_char(c: char) -> (b: bool)
    ensures
        b == is_var_char(c),
{
    let n: u32 = c as u32;
    name_start(c) || n == 0xB7 || (0x300 <= n && n <= 0x36F) || (0x203F <= n && n <= 0x2040)
}

fn label_char(c: char) -> (b: bool)
    ensures
        b == is_label_char(c),
{
    var_char(c) || c == '-' || c == '.'
}

/// Decides [`is_iri_ref`] on characters.
pub fn check_iri_chars(v: &Vec<char>) -> (b: bool)
    ensures
        b == is_iri_ref(v@),
{
    let n = v.len();
    let mut i: usize = 0;
    while i < n
        invariant
            i <= n,
            n == v.len(),
            forall|j: int| 0 <= j < i ==> is_iri_char(#[trigger] v@[j]) && percent_ok(v@, j),
        decreases n - i,
    {
        if !iri_char(v[i]) {
            return false;
        }
        if v[i] == '%' && (n - i <= 2 || !hex(v[i + 1]) || !hex(v[i + 2])) {
            assert(!percent_ok(v@, i as int));
            return false;
        }
        i += 1;
    }
    true
}

/// Decides [`has_scheme`] on characters.
pub fn check_scheme(v: &Vec<char>) -> (b: bool)
    ensures
        b == has_scheme(v@),
{
    if v.len() == 0 || !alpha(v[0]) {
        return false;
    }
    let mut i: usize = 1;
    while i < v.len()
        invariant
            1 <= i <= v.len(),
            is_alpha(v@[0]),
            forall|j: int| 0 < j < i ==> is_scheme_char(#[trigger] v@[j]),
        decreases v.len() - i,
    {
        if v[i] == ':' {
            assert(scheme_ends_at(v@, i as int));
            return true;
        }
        if !scheme_char(v[i]) {
            assert forall|k: int| !scheme_ends_at(v@, k) by {
                if scheme_ends_at(v@, k) {
                    if k > i {
                        assert(is_scheme_char(v@[i as int]));
                    } else if k < i {
                        assert(is_scheme_char(v@[k]));
                    }
                }
            }
            return false;
        }
        i += 1;
    }
    assert forall|k: int| !scheme_ends_at(v@, k) by {
        if scheme_ends_at(v@, k) {
            assert(is_scheme_char(v@[k]));
        }
    }
    false
}

/// Whether `s` is an IRI reference.
pub fn is_valid_iri_ref(s: &str) -> (b: bool)
    ensures
        b == is_iri_ref(s@),
{
    let v = chars_of(s);
    check_iri_chars(&v)
}

/// Whether `s` starts with a scheme.
pub fn is_absolute_iri_ref(s: &str) -> (b: bool)
    ensures
        b == has_scheme(s@),
{
    let v = chars_of(s);
    check_scheme(&v)
}

/// Whether `s` is a language tag.
pub fn is_valid_lang_tag(s: &str) -> (b: bool)
    ensures
        b == is_lang_tag(s@),
{
    let v = chars_of(s);
    let n = v.len();
    if n == 0 || v[0] == '-' || v[n - 1] == '-' {
        return false;
    }
    let mut seen_dash = false;
    let mut i: usize = 0;
    while i < n
        invariant
            i <= n,
            n == v.len(),
            v@ == s@,
            n > 0,
            forall|j: int|
                0 <= j < i ==> is_alpha(v@[j]) || is_digit(v@[j]) || #[trigger] v@[j] == '-',
            forall|j: int| 0 < j < i && #[trigger] v@[j] == '-' ==> v@[j - 1] != '-',
            forall|j: int|
                0 <= j < i && is_digit(#[trigger] v@[j]) ==> exists|k: int|
                    0 <= k < j && #[trigger] v@[k] == '-',
            seen_dash <==> exists|k: int| 0 <= k < i && #[trigger] v@[k] == '-',
        decreases n - i,
    {
        let c = v[i];
        if c == '-' {
            if i > 0 && v[i - 1] == '-' {
                return false;
            }
            seen_dash = true;
        } else if digit(c) {
            if !seen_dash {
                return false;
            }
        } else if !alpha(c) {
            assert(!(is_alpha(v@[i as int]) || is_digit(v@[i as int]) || v@[i as int] == '-'));
            return false;
        }
        i += 1;
    }
    true
}

/// Whether `s` is a blank node label.
pub fn is_valid_bnode_id(s: &str) -> (b: bool)
    ensures
        b == is_bnode_id(s@),
{
    let v = chars_of(s);
    let n = v.len();
    if n == 0 || !name_start(v[0]) || v[n - 1] == '.' {
        return false;
    }
    let mut i: usize = 0;
    while i < n
        invariant
            i <= n,
            n == v.len(),
            v@ == s@,
            forall|j: int| 0 <= j < i ==> is_label_char(#[trigger] v@[j]),
        decreases n - i,
    {
        if !label_char(v[i]) {
            return false;
        }
        i += 1;
    }
    true
}

/// Whether `s` is a variable name.
pub fn is_valid_var_name(s: &str) -> (b: bool)
    ensures
        b == is_var_name(s@),
{
    let v = chars_of(s);
    let n = v.len();
    if n == 0 || !name_start(v[0]) {
        return false;
    }
    let mut i: usize = 0;
    while i < n
        invariant
            i <= n,
            n == v.len(),
            v@ == s@,
            forall|j: int| 0 <= j < i ==> is_var_char(#[trigger] v@[j]),
        decreases n - i,
    {
        if !var_char(v[i]) {
            return false;
        }
        i += 1;
    }
    true
}

} // verus!
