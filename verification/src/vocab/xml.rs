//! The standard `xml:` namespace.

use vstd::prelude::*;
use crate::term::Term;
use crate::term::TermV;
use crate::vocab::vocab_term;

verus! {

/// The `xml:` IRI prefix.
pub open spec fn prefix_v() -> Seq<char> {
    "http://www.w3.org/XML/1998/namespace#"@
}

/// The full IRI of the term `local` in the `xml:` namespace.
pub open spec fn term_iri(local: Seq<char>) -> Seq<char> {
    prefix_v() + local
}

/// The `xml:` IRI prefix.
pub fn prefix() -> (r: String)
    ensures
        r@ == prefix_v(),
{
    String::from_str("http://www.w3.org/XML/1998/namespace#")
}

/// The term `xml:lang`.
pub fn lang() -> (t: Term)
    ensures
        t@ == TermV::Iri(term_iri("lang"@)),
{
    vocab_term("http://www.w3.org/XML/1998/namespace#", "lang")
}

/// The term `xml:space`.
pub fn space() -> (t: Term)
    ensures
        t@ == TermV::Iri(term_iri("space"@)),
{
    vocab_term("http://www.w3.org/XML/1998/namespace#", "space")
}

/// The term `xml:base`.
pub fn base() -> (t: Term)
    ensures
        t@ == TermV::Iri(term_iri("base"@)),
{
    vocab_term("http://www.w3.org/XML/1998/namespace#", "base")
}

/// The term `xml:id`.
pub fn id() -> (t: Term)
    ensures
        t@ == TermV::Iri(term_iri("id"@)),
{
    vocab_term("http://www.w3.org/XML/1998/namespace#", "id")
}

} // verus!
