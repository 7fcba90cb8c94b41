//! Terms of the RDF vocabulary.
use crate::iri::Iri;
use crate::lexical::scheme_ends_at;
use crate::model::TermView;
use crate::term::{StaticTerm, Term};
use vstd::prelude::*;

verus! {

/// The property that says of which class a resource is an instance.
pub fn type_() -> (r: StaticTerm)
    ensures
        r@ == TermView::Iri("http://www.w3.org/1999/02/22-rdf-syntax-ns#"@ + "type"@),
        r.wf(),
{
    proof {
        reveal_strlit("http://www.w3.org/1999/02/22-rdf-syntax-ns#");
        reveal_strlit("type");
        assert(scheme_ends_at("http://www.w3.org/1999/02/22-rdf-syntax-ns#"@ + "type"@, 4));
    }
    Term::Iri(Iri::new_unchecked("http://www.w3.org/1999/02/22-rdf-syntax-ns#", Some("type"), true))
}

/// The datatype of language-tagged strings.
pub fn lang_string() -> (r: StaticTerm)
    ensures
        r@ == TermView::Iri("http://www.w3.org/1999/02/22-rdf-syntax-ns#"@ + "langString"@),
        r.wf(),
{
    proof {
        reveal_strlit("http://www.w3.org/1999/02/22-rdf-syntax-ns#");
        reveal_strlit("langString");
        assert(scheme_ends_at("http://www.w3.org/1999/02/22-rdf-syntax-ns#"@ + "langString"@, 4));
    }
    Term::Iri(
        Iri::new_unchecked("http://www.w3.org/1999/02/22-rdf-syntax-ns#", Some("langString"), true),
    )
}

} // verus!
