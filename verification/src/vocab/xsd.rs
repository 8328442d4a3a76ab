//! The standard `xsd:` namespace: the XML Schema datatypes this library
//! commonly refers to.

use vstd::prelude::*;
use crate::term::Term;
use crate::term::TermV;
use crate::vocab::vocab_term;

verus! {

/// The `xsd:` IRI prefix.
pub open spec fn prefix_v() -> Seq<char> {
    "http://www.w3.org/2001/XMLSchema#"@
}

/// The full IRI of the term `local` in the `xsd:` namespace.
pub open spec fn term_iri(local: Seq<char>) -> Seq<char> {
    prefix_v() + local
}

/// The `xsd:` IRI prefix.
pub fn prefix() -> (r: String)
    ensures
        r@ == prefix_v(),
{
    String::from_str("http://www.w3.org/2001/XMLSchema#")
}

/// The term `xsd:string`.
pub fn string() -> (t: Term)
    ensures
        t@ == TermV::Iri(term_iri("string"@)),
{
    vocab_term("http://www.w3.org/2001/XMLSchema#", "string")
}

/// The datatype `xsd:string` as an IRI.
pub fn string_iri() -> (i: crate::term::Iri)
    ensures
        i@ == term_iri("string"@),
{
    let full = String::from_str("http://www.w3.org/2001/XMLSchema#").concat("string");
    let absolute = crate::validate::check_abs_iri(full.as_str());
    crate::term::Iri {
        ns: String::from_str("http://www.w3.org/2001/XMLSchema#"),
        suffix: Some(String::from_str("string")),
        absolute,
    }
}

/// The term `xsd:integer`.
pub fn integer() -> (t: Term)
    ensures
        t@ == TermV::Iri(term_iri("integer"@)),
{
    vocab_term("http://www.w3.org/2001/XMLSchema#", "integer")
}

/// The term `xsd:boolean`.
pub fn boolean() -> (t: Term)
    ensures
        t@ == TermV::Iri(term_iri("boolean"@)),
{
    vocab_term("http://www.w3.org/2001/XMLSchema#", "boolean")
}

/// The term `xsd:decimal`.
pub fn decimal() -> (t: Term)
    ensures
        t@ == TermV::Iri(term_iri("decimal"@)),
{
    vocab_term("http://www.w3.org/2001/XMLSchema#", "decimal")
}

/// The term `xsd:date`.
pub fn date() -> (t: Term)
    ensures
        t@ == TermV::Iri(term_iri("date"@)),
{
    vocab_term("http://www.w3.org/2001/XMLSchema#", "date")
}

/// The term `xsd:dateTime`.
pub fn date_time() -> (t: Term)
    ensures
        t@ == TermV::Iri(term_iri("dateTime"@)),
{
    vocab_term("http://www.w3.org/2001/XMLSchema#", "dateTime")
}

/// The term `xsd:anyURI`.
pub fn any_uri() -> (t: Term)
    ensures
        t@ == TermV::Iri(term_iri("anyURI"@)),
{
    vocab_term("http://www.w3.org/2001/XMLSchema#", "anyURI")
}

} // verus!
