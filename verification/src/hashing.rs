//! Feeding text to a hasher.
use std::hash::{Hash, Hasher};
use vstd::prelude::*;

verus! {

/// `<str as Hash>::hash` feeds the bytes of the text, and a byte that ends
/// it, to the hasher. Nothing is stated of the hasher's state, which only
/// the hasher knows how to read.
#[verifier::external_body]
pub(crate) fn feed<H: Hasher>(state: &mut H, s: &str) {
    s.hash(state)
}

} // verus!
