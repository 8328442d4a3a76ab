//! The standard `rdfs:` namespace.

use vstd::prelude::*;
use crate::term::Term;
use crate::term::TermV;
use crate::vocab::vocab_term;

verus! {

/// The `rdfs:` IRI prefix.
pub open spec fn prefix_v() -> Seq<char> {
    "http://www.w3.org/2000/01/rdf-schema#"@
}

/// The full IRI of the term `local` in the `rdfs:` namespace.
pub open spec fn term_iri(local: Seq<char>) -> Seq<char> {
    prefix_v() + local
}

/// The `rdfs:` IRI prefix.
pub fn prefix() -> (r: String)
    ensures
        r@ == prefix_v(),
{
    String::from_str("http://www.w3.org/2000/01/rdf-schema#")
}

/// The term `rdfs:Class`.
pub fn class() -> (t: Term)
    ensures
        t@ == TermV::Iri(term_iri("Class"@)),
{
    vocab_term("http://www.w3.org/2000/01/rdf-schema#", "Class")
}

/// The term `rdfs:label`.
pub fn label() -> (t: Term)
    ensures
        t@ == TermV::Iri(term_iri("label"@)),
{
    vocab_term("http://www.w3.org/2000/01/rdf-schema#", "label")
}

/// The term `rdfs:comment`.
pub fn comment() -> (t: Term)
    ensures
        t@ == TermV::Iri(term_iri("comment"@)),
{
    vocab_term("http://www.w3.org/2000/01/rdf-schema#", "comment")
}

/// The term `rdfs:domain`.
pub fn domain() -> (t: Term)
    ensures
        t@ == TermV::Iri(term_iri("domain"@)),
{
    vocab_term("http://www.w3.org/2000/01/rdf-schema#", "domain")
}

/// The term `rdfs:range`.
pub fn range() -> (t: Term)
    ensures
        t@ == TermV::Iri(term_iri("range"@)),
{
    vocab_term("http://www.w3.org/2000/01/rdf-schema#", "range")
}

/// The term `rdfs:seeAlso`.
pub fn see_also() -> (t: Term)
    ensures
        t@ == TermV::Iri(term_iri("seeAlso"@)),
{
    vocab_term("http://www.w3.org/2000/01/rdf-schema#", "seeAlso")
}

} // verus!
