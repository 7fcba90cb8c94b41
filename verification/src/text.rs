//! Small helpers on text: characters of a string slice, ASCII case folding,
//! and appending to a buffer.
use std::str::Chars;
use vstd::prelude::*;
use vstd::std_specs::iter::IteratorSpec;
use vstd::string::group_string_axioms;

verus! {

/// `String::push` appends one character to the text of the buffer.
pub assume_specification[ String::push ](s: &mut String, c: char)
    ensures
        final(s)@ == old(s)@.push(c),
;

/// The characters of `s`, in order.
pub fn chars_of(s: &str) -> (r: Vec<char>)
    ensures
        r@ == s@,
{
    let mut out: Vec<char> = Vec::new();
    for c in iter: s.chars()
        invariant
            out@ == iter.seq().take(iter.index() as int),
            iter.seq() == s@,
    {
        out.push(c);
    }
    out
}

/// The lower-case form of an ASCII upper-case letter; any other character
/// is left as it is.
pub open spec fn lower_char(c: char) -> char {
    if 'A' <= c && c <= 'Z' {
        ((c as u8) + 32) as char
    } else {
        c
    }
}

/// `s` with every ASCII upper-case letter replaced by its lower-case form.
pub open spec fn ascii_lowercase(s: Seq<char>) -> Seq<char> {
    Seq::new(s.len(), |i: int| lower_char(s[i]))
}

/// Executable form of [`lower_char`].
pub fn to_lower_char(c: char) -> (r: char)
    ensures
        r == lower_char(c),
{
    if 'A' <= c && c <= 'Z' {
        let b: u8 = c as u8;
        (b + 32) as char
    } else {
        c
    }
}

/// Appends the text of `s` to `out`.
pub fn push_str(out: &mut String, s: &str)
    ensures
        final(out)@ == old(out)@ + s@,
{
    for c in iter: s.chars()
        invariant
            out@ == old(out)@ + iter.seq().take(iter.index() as int),
            iter.seq() == s@,
    {
        out.push(c);
    }
}

/// Appends the lower-case form of `s` to `out`.
pub fn push_lowercase(out: &mut String, s: &str)
    ensures
        final(out)@ == old(out)@ + ascii_lowercase(s@),
{
    for c in iter: s.chars()
        invariant
            out@ == old(out)@ + ascii_lowercase(iter.seq().take(iter.index() as int)),
            iter.seq() == s@,
    {
        let ghost k = iter.index() as int;
        out.push(to_lower_char(c));
        assert(ascii_lowercase(s@.take(k + 1)) =~= ascii_lowercase(s@.take(k)).push(
            lower_char(c),
        ));
    }
    assert(s@.take(s@.len() as int) =~= s@);
}

/// Whether `a` and `b` are the same text once ASCII letters are folded to
/// lower case.
pub fn eq_ignore_ascii_case(a: &str, b: &str) -> (r: bool)
    ensures
        r == (ascii_lowercase(a@) == ascii_lowercase(b@)),
{
    broadcast use group_string_axioms;
    let mut ia = a.chars();
    let mut ib = b.chars();
    let ghost mut k: int = 0;
    assert(a@.skip(0) =~= a@);
    assert(b@.skip(0) =~= b@);
    loop
        invariant
            0 <= k <= a@.len(),
            k <= b@.len(),
            a@.skip(k) == ia.remaining(),
            b@.skip(k) == ib.remaining(),
            forall|j: int| 0 <= j < k ==> lower_char(a@[j]) == lower_char(b@[j]),
        decreases a@.len() - k,
    {
        let x = ia.next();
        let y = ib.next();
        match (x, y) {
            (None, None) => {
                assert(a@.skip(k).len() == 0 && b@.skip(k).len() == 0);
                assert(ascii_lowercase(a@) =~= ascii_lowercase(b@));
                return true;
            },
            (Some(p), Some(q)) => {
                assert(a@.skip(k).len() > 0 && a@.skip(k)[0] == p);
                assert(b@.skip(k).len() > 0 && b@.skip(k)[0] == q);
                assert(a@[k] == p && b@[k] == q);
                if to_lower_char(p) != to_lower_char(q) {
                    assert(ascii_lowercase(a@)[k] != ascii_lowercase(b@)[k]);
                    return false;
                }
                proof {
                    assert(a@.skip(k + 1) =~= a@.skip(k).drop_first());
                    assert(b@.skip(k + 1) =~= b@.skip(k).drop_first());
                    k = k + 1;
                }
            },
            (Some(p), None) => {
                assert(b@.skip(k).len() == 0 && a@.skip(k).len() > 0);
                assert(ascii_lowercase(a@).len() != ascii_lowercase(b@).len());
                return false;
            },
            (None, Some(q)) => {
                assert(a@.skip(k).len() == 0 && b@.skip(k).len() > 0);
                assert(ascii_lowercase(a@).len() != ascii_lowercase(b@).len());
                return false;
            },
        }
    }
}

/// The text made of an optional character.
pub open spec fn optional_char(r: Option<char>) -> Seq<char> {
    match r {
        Some(c) => seq![c],
        None => Seq::empty(),
    }
}

/// The next character of `first`, or of `second` once `first` is at its
/// end.
fn next_of<'a>(first: &mut Chars<'a>, second: &mut Chars<'a>) -> (r: Option<char>)
    ensures
        (*old(first)).remaining() + (*old(second)).remaining() == optional_char(r) + (
            (*final(first)).remaining() + (*final(second)).remaining()),
        r is None ==> (*final(first)).remaining().len() == 0 && (*final(second)).remaining().len()
            == 0,
{
    broadcast use group_string_axioms;
    let ghost before = *first;
    let ghost before2 = *second;
    match first.next() {
        Some(c) => {
            assert(before.remaining() + before2.remaining() =~= optional_char(Some(c)) + (
                (*first).remaining() + (*second).remaining()));
            Some(c)
        },
        None => {
            let r = second.next();
            assert(before.remaining() + before2.remaining() =~= optional_char(r) + (
                (*first).remaining() + (*second).remaining()));
            r
        },
    }
}

/// Whether `a` followed by `b` is the same text as `c` followed by `d`.
pub fn concat_eq(a: &str, b: &str, c: &str, d: &str) -> (r: bool)
    ensures
        r == (a@ + b@ == c@ + d@),
{
    broadcast use group_string_axioms;
    let mut ia = a.chars();
    let mut ib = b.chars();
    let mut ic = c.chars();
    let mut id = d.chars();
    let ghost left = a@ + b@;
    let ghost right = c@ + d@;
    let ghost mut k: int = 0;
    assert(left.skip(0) =~= left);
    assert(right.skip(0) =~= right);
    loop
        invariant
            left == a@ + b@,
            right == c@ + d@,
            0 <= k <= left.len(),
            k <= right.len(),
            left.skip(k) == ia.remaining() + ib.remaining(),
            right.skip(k) == ic.remaining() + id.remaining(),
            left.take(k) == right.take(k),
        decreases left.len() - k,
    {
        let x = next_of(&mut ia, &mut ib);
        let y = next_of(&mut ic, &mut id);
        match (x, y) {
            (None, None) => {
                assert(left.skip(k).len() == 0);
                assert(right.skip(k).len() == 0);
                assert(left =~= left.take(k));
                assert(right =~= right.take(k));
                return true;
            },
            (Some(p), Some(q)) => {
                assert(left.skip(k).len() > 0 && left.skip(k)[0] == p);
                assert(right.skip(k).len() > 0 && right.skip(k)[0] == q);
                assert(left[k] == p && right[k] == q);
                if p != q {
                    assert(left[k] != right[k]);
                    return false;
                }
                proof {
                    assert(left.skip(k + 1) =~= left.skip(k).drop_first());
                    assert(right.skip(k + 1) =~= right.skip(k).drop_first());
                    assert(left.skip(k + 1) =~= ia.remaining() + ib.remaining());
                    assert(right.skip(k + 1) =~= ic.remaining() + id.remaining());
                    assert(left.take(k + 1) =~= left.take(k).push(p));
                    assert(right.take(k + 1) =~= right.take(k).push(q));
                    k = k + 1;
                }
            },
            (Some(p), None) => {
                assert(right.skip(k).len() == 0);
                assert(left.skip(k).len() > 0);
                assert(left.len() != right.len());
                return false;
            },
            (None, Some(q)) => {
                assert(left.skip(k).len() == 0);
                assert(right.skip(k).len() > 0);
                assert(left.len() != right.len());
                return false;
            },
        }
    }
}

/// Whether `a` and `b` are the same text.
pub fn text_eq(a: &str, b: &str) -> (r: bool)
    ensures
        r == (a@ == b@),
{
    proof {
        reveal_strlit("");
        assert(a@ + ""@ =~= a@);
        assert(b@ + ""@ =~= b@);
    }
    concat_eq(a, "", b, "")
}

/// The characters of `a` followed by those of `b`.
pub fn chars_of_pair(a: &str, b: &str) -> (r: Vec<char>)
    ensures
        r@ == a@ + b@,
{
    let mut out = chars_of(a);
    for c in iter: b.chars()
        invariant
            out@ == a@ + iter.seq().take(iter.index() as int),
            iter.seq() == b@,
    {
        out.push(c);
    }
    out
}

/// The text made of the characters of `v` from `from` up to `to`.
pub fn string_of(v: &Vec<char>, from: usize, to: usize) -> (r: String)
    requires
        from <= to <= v.len(),
    ensures
        r@ == v@.subrange(from as int, to as int),
{
    let mut out = String::new();
    let mut i: usize = from;
    while i < to
        invariant
            from <= i <= to <= v.len(),
            out@ == v@.subrange(from as int, i as int),
        decreases to - i,
    {
        out.push(v[i]);
        assert(v@.subrange(from as int, i + 1) =~= v@.subrange(from as int, i as int).push(
            v@[i as int],
        ));
        i += 1;
    }
    out
}

} // verus!
