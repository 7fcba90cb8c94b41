//! The laws of `==` on terms, whatever the storage of each side.
use crate::model::term_hash_texts;
use crate::term::Term;
use crate::term_data::TermData;
use vstd::prelude::*;
use vstd::std_specs::cmp::PartialEqSpec;

verus! {

/// Equality of terms is an equivalence whatever the storage of each: a term
/// equals itself, two terms are equal in either order, two terms equal to
/// a third are equal, and terms with the same content in different
/// storages are equal.
pub proof fn lemma_eq_across_storages<T: TermData, U: TermData, V: TermData>(
    a: Term<T>,
    b: Term<U>,
    c: Term<V>,
)
    ensures
        a.eq_spec(&a),
        a.eq_spec(&b) == b.eq_spec(&a),
        a.eq_spec(&b) && b.eq_spec(&c) ==> a.eq_spec(&c),
        a@ == b@ ==> a.eq_spec(&b),
        a.eq_spec(&b) ==> term_hash_texts(a@) == term_hash_texts(b@),
{
}

} // verus!
