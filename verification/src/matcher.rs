//! Matchers: objects that can be used to match zero, one or several terms.
//!
//! A matcher answers whether a term matches, and may name the one term
//! that it matches, so that a caller with an index keyed by term can look
//! that term up instead of scanning. A matcher that names a term matches
//! the terms equal to it, and no other.
use crate::model::{same_term, TermView};
use crate::term::{RefTerm, Term};
use crate::term_data::TermData;
use vstd::prelude::*;

pub mod arrays;

verus! {

/// Some term of `s` is the same term as `t`.
pub open spec fn any_same<U: TermData>(s: Seq<Term<U>>, t: TermView) -> bool {
    exists|i: int| 0 <= i < s.len() && same_term((#[trigger] s[i])@, t)
}

/// Generic trait for matching terms.
pub trait TermMatcher {
    type TermData: TermData;

    /// The term that this matcher names as the only one it matches.
    spec fn spec_constant(&self) -> Option<TermView>;

    /// Whether this matcher matches the term `t`.
    spec fn spec_matches(&self, t: TermView) -> bool;

    /// The matcher can be asked about any term, and its answer depends on
    /// the term alone. Every matcher of this crate is so, but for a
    /// function used as a matcher, which has to be.
    spec fn is_pure(&self) -> bool;

    /// A matcher that names a term matches exactly the terms that are the
    /// same as it.
    proof fn lemma_constant(&self, t: TermView)
        ensures
            self.spec_constant() matches Some(c) ==> self.spec_matches(t) == same_term(c, t),
    ;

    /// If this matcher matches only one term, return this term, else
    /// `None`.
    fn constant(&self) -> (r: Option<&Term<Self::TermData>>)
        ensures
            r matches Some(c) ==> self.spec_constant() == Some(c@),
            r is None ==> self.spec_constant() is None,
    ;

    /// Check whether this matcher matches `t`.
    fn matches<T: TermData>(&self, t: &Term<T>) -> (r: bool)
        requires
            self.is_pure(),
        ensures
            r == self.spec_matches(t@),
    ;
}

/// The type of the [`ANY`] singleton matcher.
pub struct AnyTerm;

/// A universal matcher: it matches any term.
pub const ANY: AnyTerm = AnyTerm;

impl TermMatcher for AnyTerm {
    type TermData = &'static str;

    open spec fn spec_constant(&self) -> Option<TermView> {
        None
    }

    open spec fn spec_matches(&self, t: TermView) -> bool {
        true
    }

    open spec fn is_pure(&self) -> bool {
        true
    }

    proof fn lemma_constant(&self, t: TermView) {
    }

    fn constant(&self) -> (r: Option<&Term<Self::TermData>>) {
        None
    }

    fn matches<T: TermData>(&self, _t: &Term<T>) -> (r: bool) {
        true
    }
}

/// A matcher matching either any term, or only a specific one.
pub enum AnyOrExactly<T> {
    Any,
    Exactly(T),
}

impl<T> From<Option<T>> for AnyOrExactly<T> {
    /// No term makes a matcher of any term; a term makes a matcher of that
    /// term exactly.
    fn from(other: Option<T>) -> (r: AnyOrExactly<T>) {
        match other {
            None => AnyOrExactly::Any,
            Some(t) => AnyOrExactly::Exactly(t),
        }
    }
}

impl<T> vstd::std_specs::convert::FromSpecImpl<Option<T>> for AnyOrExactly<T> {
    open spec fn obeys_from_spec() -> bool {
        true
    }

    open spec fn from_spec(other: Option<T>) -> AnyOrExactly<T> {
        match other {
            None => AnyOrExactly::Any,
            Some(t) => AnyOrExactly::Exactly(t),
        }
    }
}

impl<U: TermData> TermMatcher for AnyOrExactly<Term<U>> {
    type TermData = U;

    open spec fn spec_constant(&self) -> Option<TermView> {
        match self {
            AnyOrExactly::Any => None,
            AnyOrExactly::Exactly(t) => Some(t@),
        }
    }

    open spec fn spec_matches(&self, t: TermView) -> bool {
        match self {
            AnyOrExactly::Any => true,
            AnyOrExactly::Exactly(tself) => same_term(tself@, t),
        }
    }

    open spec fn is_pure(&self) -> bool {
        true
    }

    proof fn lemma_constant(&self, t: TermView) {
    }

    fn constant(&self) -> (r: Option<&Term<Self::TermData>>) {
        match self {
            AnyOrExactly::Any => None,
            AnyOrExactly::Exactly(t) => Some(t),
        }
    }

    fn matches<T: TermData>(&self, t: &Term<T>) -> (r: bool) {
        match self {
            AnyOrExactly::Any => true,
            AnyOrExactly::Exactly(tself) => tself == t,
        }
    }
}

impl<U: TermData> TermMatcher for Term<U> {
    type TermData = U;

    open spec fn spec_constant(&self) -> Option<TermView> {
        Some(self@)
    }

    open spec fn spec_matches(&self, t: TermView) -> bool {
        same_term(self@, t)
    }

    open spec fn is_pure(&self) -> bool {
        true
    }

    proof fn lemma_constant(&self, t: TermView) {
    }

    fn constant(&self) -> (r: Option<&Term<Self::TermData>>) {
        Some(self)
    }

    fn matches<T: TermData>(&self, t: &Term<T>) -> (r: bool) {
        t == self
    }
}

/// Whether `t` equals some term of `terms`: a linear scan that stops at
/// the first hit.
pub fn matches_any<U: TermData, T: TermData>(terms: &[Term<U>], t: &Term<T>) -> (r: bool)
    ensures
        r == any_same(terms@, t@),
{
    let mut i: usize = 0;
    while i < terms.len()
        invariant
            i <= terms@.len(),
            forall|j: int| 0 <= j < i ==> !same_term((#[trigger] terms@[j])@, t@),
        decreases terms@.len() - i,
    {
        if t == &terms[i] {
            assert(same_term(terms@[i as int]@, t@));
            return true;
        }
        i += 1;
    }
    false
}

impl<U: TermData> TermMatcher for [Term<U>] {
    type TermData = U;

    open spec fn spec_constant(&self) -> Option<TermView> {
        if self@.len() == 1 {
            Some(self@[0]@)
        } else {
            None
        }
    }

    open spec fn spec_matches(&self, t: TermView) -> bool {
        any_same(self@, t)
    }

    open spec fn is_pure(&self) -> bool {
        true
    }

    proof fn lemma_constant(&self, t: TermView) {
        if self@.len() == 1 && same_term(self@[0]@, t) {
            assert(any_same(self@, t));
        }
    }

    fn constant(&self) -> (r: Option<&Term<Self::TermData>>) {
        if self.len() == 1 {
            Some(&self[0])
        } else {
            None
        }
    }

    fn matches<T: TermData>(&self, t: &Term<T>) -> (r: bool) {
        matches_any(self, t)
    }
}

/// The answers of `f` depend on the term alone: asked twice about terms
/// that are alike, it cannot answer yes once and no once.
pub open spec fn answers_by_term<F: Fn(&RefTerm) -> bool>(f: F) -> bool {
    forall|a: RefTerm, b: RefTerm, x: bool, y: bool|
        a@ == b@ && #[trigger] call_ensures(f, (&a,), x) && #[trigger] call_ensures(f, (&b,), y)
            ==> x == y
}

impl<F: Fn(&RefTerm) -> bool> TermMatcher for F {
    type TermData = &'static str;

    open spec fn spec_constant(&self) -> Option<TermView> {
        None
    }

    open spec fn spec_matches(&self, t: TermView) -> bool {
        exists|rt: RefTerm| rt@ == t && #[trigger] call_ensures(*self, (&rt,), true)
    }

    open spec fn is_pure(&self) -> bool {
        &&& forall|rt: RefTerm| #[trigger] call_requires(*self, (&rt,))
        &&& answers_by_term(*self)
    }

    proof fn lemma_constant(&self, t: TermView) {
    }

    fn constant(&self) -> (r: Option<&Term<Self::TermData>>) {
        None
    }

    fn matches<T: TermData>(&self, t: &Term<T>) -> (r: bool)
        ensures
            exists|rt: RefTerm| rt@ == t@ && #[trigger] call_ensures(*self, (&rt,), r),
    {
        let rt = t.as_ref_term();
        let r = self(&rt);
        r
    }
}

/// A function that accepts every term and answers by the term alone can
/// be used as a matcher, and matches the terms for which it answers yes.
pub proof fn lemma_function_matcher<F: Fn(&RefTerm) -> bool>(f: F)
    requires
        forall|rt: RefTerm| #[trigger] call_requires(f, (&rt,)),
        answers_by_term(f),
    ensures
        f.is_pure(),
        f.spec_constant() is None,
        forall|rt: RefTerm, b: bool| #[trigger]
            call_ensures(f, (&rt,), b) ==> f.spec_matches(rt@) == b,
{
    assert forall|rt: RefTerm, b: bool| #[trigger]
        call_ensures(f, (&rt,), b) implies f.spec_matches(rt@) == b by {
        if f.spec_matches(rt@) {
            let w = choose|w: RefTerm| w@ == rt@ && #[trigger] call_ensures(f, (&w,), true);
            assert(call_ensures(f, (&w,), true));
        }
    }
}

/// A matcher that names a constant matches that term, every term that is
/// the same as it, and no other.
pub proof fn lemma_constant_is_matched_alone<M: TermMatcher>(m: M, c: TermView, u: TermView)
    requires
        m.spec_constant() == Some(c),
    ensures
        m.spec_matches(c),
        m.spec_matches(u) == same_term(c, u),
{
    m.lemma_constant(c);
    m.lemma_constant(u);
}

/// The universal matcher matches every term, and names no constant.
pub proof fn lemma_any_matches_everything(t: TermView)
    ensures
        ANY.spec_matches(t),
        ANY.spec_constant() is None,
        AnyOrExactly::<Term<&'static str>>::Any.spec_matches(t),
        AnyOrExactly::<Term<&'static str>>::Any.spec_constant() is None,
{
}

} // verus!
