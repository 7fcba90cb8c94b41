//! Small arrays of terms as matchers.
//!
//! An array of two to twelve terms matches the terms equal to one of its
//! own, as a slice does. Unlike a slice it never names a constant, not even
//! when, by repeating one term, it matches a single term only: an array is
//! meant for a pattern of several values.
use crate::matcher::{any_same, matches_any, TermMatcher};
use crate::model::TermView;
use crate::term::Term;
use crate::term_data::TermData;
use vstd::prelude::*;

verus! {

impl<U: TermData> TermMatcher for [Term<U>; 2] {
    type TermData = U;

    open spec fn spec_constant(&self) -> Option<TermView> {
        None
    }

    open spec fn spec_matches(&self, t: TermView) -> bool {
        any_same(self@, t)
    }

    open spec fn is_pure(&self) -> bool {
        true
    }

    proof fn lemma_constant(&self, t: TermView) {
    }

    fn constant(&self) -> (r: Option<&Term<Self::TermData>>) {
        None
    }

    fn matches<T: TermData>(&self, t: &Term<T>) -> (r: bool) {
        matches_any(self.as_slice(), t)
    }
}

impl<U: TermData> TermMatcher for [Term<U>; 3] {
    type TermData = U;

    open spec fn spec_constant(&self) -> Option<TermView> {
        None
    }

    open spec fn spec_matches(&self, t: TermView) -> bool {
        any_same(self@, t)
    }

    open spec fn is_pure(&self) -> bool {
        true
    }

    proof fn lemma_constant(&self, t: TermView) {
    }

    fn constant(&self) -> (r: Option<&Term<Self::TermData>>) {
        None
    }

    fn matches<T: TermData>(&self, t: &Term<T>) -> (r: bool) {
        matches_any(self.as_slice(), t)
    }
}

impl<U: TermData> TermMatcher for [Term<U>; 4] {
    type TermData = U;

    open spec fn spec_constant(&self) -> Option<TermView> {
        None
    }

    open spec fn spec_matches(&self, t: TermView) -> bool {
        any_same(self@, t)
    }

    open spec fn is_pure(&self) -> bool {
        true
    }

    proof fn lemma_constant(&self, t: TermView) {
    }

    fn constant(&self) -> (r: Option<&Term<Self::TermData>>) {
        None
    }

    fn matches<T: TermData>(&self, t: &Term<T>) -> (r: bool) {
        matches_any(self.as_slice(), t)
    }
}

impl<U: TermData> TermMatcher for [Term<U>; 5] {
    type TermData = U;

    open spec fn spec_constant(&self) -> Option<TermView> {
        None
    }

    open spec fn spec_matches(&self, t: TermView) -> bool {
        any_same(self@, t)
    }

    open spec fn is_pure(&self) -> bool {
        true
    }

    proof fn lemma_constant(&self, t: TermView) {
    }

    fn constant(&self) -> (r: Option<&Term<Self::TermData>>) {
        None
    }

    fn matches<T: TermData>(&self, t: &Term<T>) -> (r: bool) {
        matches_any(self.as_slice(), t)
    }
}

impl<U: TermData> TermMatcher for [Term<U>; 6] {
    type TermData = U;

    open spec fn spec_constant(&self) -> Option<TermView> {
        None
    }

    open spec fn spec_matches(&self, t: TermView) -> bool {
        any_same(self@, t)
    }

    open spec fn is_pure(&self) -> bool {
        true
    }

    proof fn lemma_constant(&self, t: TermView) {
    }

    fn constant(&self) -> (r: Option<&Term<Self::TermData>>) {
        None
    }

    fn matches<T: TermData>(&self, t: &Term<T>) -> (r: bool) {
        matches_any(self.as_slice(), t)
    }
}

impl<U: TermData> TermMatcher for [Term<U>; 7] {
    type TermData = U;

    open spec fn spec_constant(&self) -> Option<TermView> {
        None
    }

    open spec fn spec_matches(&self, t: TermView) -> bool {
        any_same(self@, t)
    }

    open spec fn is_pure(&self) -> bool {
        true
    }

    proof fn lemma_constant(&self, t: TermView) {
    }

    fn constant(&self) -> (r: Option<&Term<Self::TermData>>) {
        None
    }

    fn matches<T: TermData>(&self, t: &Term<T>) -> (r: bool) {
        matches_any(self.as_slice(), t)
    }
}

impl<U: TermData> TermMatcher for [Term<U>; 8] {
    type TermData = U;

    open spec fn spec_constant(&self) -> Option<TermView> {
        None
    }

    open spec fn spec_matches(&self, t: TermView) -> bool {
        any_same(self@, t)
    }

    open spec fn is_pure(&self) -> bool {
        true
    }

    proof fn lemma_constant(&self, t: TermView) {
    }

    fn constant(&self) -> (r: Option<&Term<Self::TermData>>) {
        None
    }

    fn matches<T: TermData>(&self, t: &Term<T>) -> (r: bool) {
        matches_any(self.as_slice(), t)
    }
}

impl<U: TermData> TermMatcher for [Term<U>; 9] {
    type TermData = U;

    open spec fn spec_constant(&self) -> Option<TermView> {
        None
    }

    open spec fn spec_matches(&self, t: TermView) -> bool {
        any_same(self@, t)
    }

    open spec fn is_pure(&self) -> bool {
        true
    }

    proof fn lemma_constant(&self, t: TermView) {
    }

    fn constant(&self) -> (r: Option<&Term<Self::TermData>>) {
        None
    }

    fn matches<T: TermData>(&self, t: &Term<T>) -> (r: bool) {
        matches_any(self.as_slice(), t)
    }
}

impl<U: TermData> TermMatcher for [Term<U>; 10] {
    type TermData = U;

    open spec fn spec_constant(&self) -> Option<TermView> {
        None
    }

    open spec fn spec_matches(&self, t: TermView) -> bool {
        any_same(self@, t)
    }

    open spec fn is_pure(&self) -> bool {
        true
    }

    proof fn lemma_constant(&self, t: TermView) {
    }

    fn constant(&self) -> (r: Option<&Term<Self::TermData>>) {
        None
    }

    fn matches<T: TermData>(&self, t: &Term<T>) -> (r: bool) {
        matches_any(self.as_slice(), t)
    }
}

impl<U: TermData> TermMatcher for [Term<U>; 11] {
    type TermData = U;

    open spec fn spec_constant(&self) -> Option<TermView> {
        None
    }

    open spec fn spec_matches(&self, t: TermView) -> bool {
        any_same(self@, t)
    }

    open spec fn is_pure(&self) -> bool {
        true
    }

    proof fn lemma_constant(&self, t: TermView) {
    }

    fn constant(&self) -> (r: Option<&Term<Self::TermData>>) {
        None
    }

    fn matches<T: TermData>(&self, t: &Term<T>) -> (r: bool) {
        matches_any(self.as_slice(), t)
    }
}

impl<U: TermData> TermMatcher for [Term<U>; 12] {
    type TermData = U;

    open spec fn spec_constant(&self) -> Option<TermView> {
        None
    }

    open spec fn spec_matches(&self, t: TermView) -> bool {
        any_same(self@, t)
    }

    open spec fn is_pure(&self) -> bool {
        true
    }

    proof fn lemma_constant(&self, t: TermView) {
    }

    fn constant(&self) -> (r: Option<&Term<Self::TermData>>) {
        None
    }

    fn matches<T: TermData>(&self, t: &Term<T>) -> (r: bool) {
        matches_any(self.as_slice(), t)
    }
}

} // verus!
