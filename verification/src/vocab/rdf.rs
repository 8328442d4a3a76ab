//! The standard `rdf:` namespace: the core syntax terms that the parser
//! recognizes.
//!
//! NB: since `type` is a reserved keyword in Rust, the term `rdf:type`
//! spells `type_` (with a trailing underscore).

use vstd::prelude::*;
use crate::term::Term;
use crate::term::TermV;
use crate::vocab::vocab_term;

verus! {

/// The `rdf:` IRI prefix.
pub open spec fn prefix_v() -> Seq<char> {
    "http://www.w3.org/1999/02/22-rdf-syntax-ns#"@
}

/// The full IRI of the term `local` in the `rdf:` namespace.
pub open spec fn term_iri(local: Seq<char>) -> Seq<char> {
    prefix_v() + local
}

/// The `rdf:` IRI prefix.
pub fn prefix() -> (r: String)
    ensures
        r@ == prefix_v(),
{
    String::from_str("http://www.w3.org/1999/02/22-rdf-syntax-ns#")
}

/// The term `rdf:type`.
pub fn type_() -> (t: Term)
    ensures
        t@ == TermV::Iri(term_iri("type"@)),
{
    vocab_term("http://www.w3.org/1999/02/22-rdf-syntax-ns#", "type")
}

/// The term `rdf:Description`.
pub fn description() -> (t: Term)
    ensures
        t@ == TermV::Iri(term_iri("Description"@)),
{
    vocab_term("http://www.w3.org/1999/02/22-rdf-syntax-ns#", "Description")
}

/// The term `rdf:about`.
pub fn about() -> (t: Term)
    ensures
        t@ == TermV::Iri(term_iri("about"@)),
{
    vocab_term("http://www.w3.org/1999/02/22-rdf-syntax-ns#", "about")
}

/// The term `rdf:ID`.
pub fn id() -> (t: Term)
    ensures
        t@ == TermV::Iri(term_iri("ID"@)),
{
    vocab_term("http://www.w3.org/1999/02/22-rdf-syntax-ns#", "ID")
}

/// The term `rdf:nodeID`.
pub fn node_id() -> (t: Term)
    ensures
        t@ == TermV::Iri(term_iri("nodeID"@)),
{
    vocab_term("http://www.w3.org/1999/02/22-rdf-syntax-ns#", "nodeID")
}

/// The term `rdf:resource`.
pub fn resource() -> (t: Term)
    ensures
        t@ == TermV::Iri(term_iri("resource"@)),
{
    vocab_term("http://www.w3.org/1999/02/22-rdf-syntax-ns#", "resource")
}

/// The term `rdf:datatype`.
pub fn datatype() -> (t: Term)
    ensures
        t@ == TermV::Iri(term_iri("datatype"@)),
{
    vocab_term("http://www.w3.org/1999/02/22-rdf-syntax-ns#", "datatype")
}

/// The term `rdf:parseType`.
pub fn parse_type() -> (t: Term)
    ensures
        t@ == TermV::Iri(term_iri("parseType"@)),
{
    vocab_term("http://www.w3.org/1999/02/22-rdf-syntax-ns#", "parseType")
}

/// The term `rdf:li`.
pub fn li() -> (t: Term)
    ensures
        t@ == TermV::Iri(term_iri("li"@)),
{
    vocab_term("http://www.w3.org/1999/02/22-rdf-syntax-ns#", "li")
}

/// The term `rdf:Property`.
pub fn property() -> (t: Term)
    ensures
        t@ == TermV::Iri(term_iri("Property"@)),
{
    vocab_term("http://www.w3.org/1999/02/22-rdf-syntax-ns#", "Property")
}

} // verus!
