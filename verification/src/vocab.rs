//! Static vocabulary tables: terms of the well-known namespaces, one module
//! per namespace, each built from its documented IRI prefix.

use vstd::prelude::*;
use crate::term::Iri;
use crate::term::Term;
use crate::term::TermV;
use crate::validate::check_abs_iri;

pub mod owl;
pub mod rdf;
pub mod rdfs;
pub mod xml;
pub mod xsd;

verus! {

/// Builds the vocabulary term `prefix` + `local`.
pub fn vocab_term(prefix: &str, local: &str) -> (t: Term)
    ensures
        t@ == TermV::Iri(prefix@ + local@),
{
    let full = String::from_str(prefix).concat(local);
    let absolute = check_abs_iri(full.as_str());
    Term::Iri(
        Iri { ns: String::from_str(prefix), suffix: Some(String::from_str(local)), absolute },
    )
}

} // verus!
