//! The datatypes of XML Schema that literals most often have.
use crate::iri::Iri;
use crate::lexical::scheme_ends_at;
use crate::model::TermView;
use crate::term::{StaticTerm, Term};
use vstd::prelude::*;

verus! {

/// The datatype of character strings.
pub fn string() -> (r: StaticTerm)
    ensures
        r@ == TermView::Iri("http://www.w3.org/2001/XMLSchema#"@ + "string"@),
        r.wf(),
{
    proof {
        reveal_strlit("http://www.w3.org/2001/XMLSchema#");
        reveal_strlit("string");
        assert(scheme_ends_at("http://www.w3.org/2001/XMLSchema#"@ + "string"@, 4));
    }
    Term::Iri(Iri::new_unchecked("http://www.w3.org/2001/XMLSchema#", Some("string"), true))
}

/// The datatype of truth values.
pub fn boolean() -> (r: StaticTerm)
    ensures
        r@ == TermView::Iri("http://www.w3.org/2001/XMLSchema#"@ + "boolean"@),
        r.wf(),
{
    proof {
        reveal_strlit("http://www.w3.org/2001/XMLSchema#");
        reveal_strlit("boolean");
        assert(scheme_ends_at("http://www.w3.org/2001/XMLSchema#"@ + "boolean"@, 4));
    }
    Term::Iri(Iri::new_unchecked("http://www.w3.org/2001/XMLSchema#", Some("boolean"), true))
}

/// The datatype of whole numbers.
pub fn integer() -> (r: StaticTerm)
    ensures
        r@ == TermView::Iri("http://www.w3.org/2001/XMLSchema#"@ + "integer"@),
        r.wf(),
{
    proof {
        reveal_strlit("http://www.w3.org/2001/XMLSchema#");
        reveal_strlit("integer");
        assert(scheme_ends_at("http://www.w3.org/2001/XMLSchema#"@ + "integer"@, 4));
    }
    Term::Iri(Iri::new_unchecked("http://www.w3.org/2001/XMLSchema#", Some("integer"), true))
}

/// The datatype of decimal numbers.
pub fn decimal() -> (r: StaticTerm)
    ensures
        r@ == TermView::Iri("http://www.w3.org/2001/XMLSchema#"@ + "decimal"@),
        r.wf(),
{
    proof {
        reveal_strlit("http://www.w3.org/2001/XMLSchema#");
        reveal_strlit("decimal");
        assert(scheme_ends_at("http://www.w3.org/2001/XMLSchema#"@ + "decimal"@, 4));
    }
    Term::Iri(Iri::new_unchecked("http://www.w3.org/2001/XMLSchema#", Some("decimal"), true))
}

/// The datatype of double-precision floating-point numbers.
pub fn double() -> (r: StaticTerm)
    ensures
        r@ == TermView::Iri("http://www.w3.org/2001/XMLSchema#"@ + "double"@),
        r.wf(),
{
    proof {
        reveal_strlit("http://www.w3.org/2001/XMLSchema#");
        reveal_strlit("double");
        assert(scheme_ends_at("http://www.w3.org/2001/XMLSchema#"@ + "double"@, 4));
    }
    Term::Iri(Iri::new_unchecked("http://www.w3.org/2001/XMLSchema#", Some("double"), true))
}

} // verus!
