//! The standard `owl:` namespace.

use vstd::prelude::*;
use crate::term::Term;
use crate::term::TermV;
use crate::vocab::vocab_term;

verus! {

/// The `owl:` IRI prefix.
pub open spec fn prefix_v() -> Seq<char> {
    "http://www.w3.org/2002/07/owl#"@
}

/// The full IRI of the term `local` in the `owl:` namespace.
pub open spec fn term_iri(local: Seq<char>) -> Seq<char> {
    prefix_v() + local
}

/// The `owl:` IRI prefix.
pub fn prefix() -> (r: String)
    ensures
        r@ == prefix_v(),
{
    String::from_str("http://www.w3.org/2002/07/owl#")
}

/// The term `owl:Thing`.
pub fn thing() -> (t: Term)
    ensures
        t@ == TermV::Iri(term_iri("Thing"@)),
{
    vocab_term("http://www.w3.org/2002/07/owl#", "Thing")
}

/// The term `owl:Nothing`.
pub fn nothing() -> (t: Term)
    ensures
        t@ == TermV::Iri(term_iri("Nothing"@)),
{
    vocab_term("http://www.w3.org/2002/07/owl#", "Nothing")
}

/// The term `owl:Class`.
pub fn class() -> (t: Term)
    ensures
        t@ == TermV::Iri(term_iri("Class"@)),
{
    vocab_term("http://www.w3.org/2002/07/owl#", "Class")
}

/// The term `owl:sameAs`.
pub fn same_as() -> (t: Term)
    ensures
        t@ == TermV::Iri(term_iri("sameAs"@)),
{
    vocab_term("http://www.w3.org/2002/07/owl#", "sameAs")
}

/// The term `owl:inverseOf`.
pub fn inverse_of() -> (t: Term)
    ensures
        t@ == TermV::Iri(term_iri("inverseOf"@)),
{
    vocab_term("http://www.w3.org/2002/07/owl#", "inverseOf")
}

} // verus!
