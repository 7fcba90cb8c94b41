//! Terms of well-known vocabularies.
use crate::display::xsd_string_text;
use crate::iri::Iri;
use crate::lexical::{has_scheme, is_iri_ref, scheme_ends_at};
use crate::term_data::FromText;
use vstd::prelude::*;

pub mod rdf;
pub mod xsd;

verus! {

/// The text of the IRI of the string datatype is an absolute IRI.
pub proof fn lemma_xsd_string_text()
    ensures
        xsd_string_text() == "http://www.w3.org/2001/XMLSchema#string"@,
        is_iri_ref(xsd_string_text()),
        has_scheme(xsd_string_text()),
{
    reveal_strlit("http://www.w3.org/2001/XMLSchema#string");
    assert(scheme_ends_at(xsd_string_text(), 4));
}

/// The IRI of the string datatype of XML Schema, in any storage.
pub fn xsd_string_iri<'a, T: FromText<'a>>() -> (r: Iri<T>)
    ensures
        r@ == xsd_string_text(),
        r.wf(),
{
    proof {
        lemma_xsd_string_text();
    }
    Iri::new_unchecked(T::from_text("http://www.w3.org/2001/XMLSchema#string"), None, true)
}

} // verus!
