//! Custom namespaces: validated IRI prefix strings from which IRI terms are
//! formed by concatenation with a local suffix.

use vstd::prelude::*;
use crate::errors::ErrV;
use crate::errors::RdfError;
use crate::term::Iri;
use crate::term::Term;
use crate::term::TermV;
use crate::validate::check_abs_iri;
use crate::validate::check_iri_ref;
use crate::validate::iri_ref_ok;

verus! {

/// A validated IRI prefix string.
#[derive(Debug)]
pub struct Namespace(pub String);

impl View for Namespace {
    type V = Seq<char>;

    open spec fn view(&self) -> Seq<char> {
        self.0@
    }
}

impl Clone for Namespace {
    fn clone(&self) -> (r: Self)
        ensures
            r == *self,
    {
        Namespace(self.0.clone())
    }
}

impl Namespace {
    /// A well-formed namespace holds a valid IRI reference.
    pub open spec fn wf(&self) -> bool {
        iri_ref_ok(self@)
    }

    /// Build a custom namespace based on the given IRI.
    ///
    /// `iri` must be a valid IRI, otherwise this constructor returns an error.
    pub fn new(iri: &str) -> (r: Result<Namespace, RdfError>)
        ensures
            r is Ok <==> iri_ref_ok(iri@),
            r matches Ok(ns) ==> ns@ == iri@ && ns.wf(),
            r matches Err(e) ==> e@ == ErrV::InvalidIri(iri@),
    {
        if check_iri_ref(iri) {
            Ok(Namespace(String::from_str(iri)))
        } else {
            Err(RdfError::InvalidIri(String::from_str(iri)))
        }
    }

    /// The namespace text.
    pub fn as_str(&self) -> (r: &str)
        ensures
            r@ == self@,
    {
        self.0.as_str()
    }

    /// Build an IRI term by appending `suffix` to this namespace.
    ///
    /// Returns an error if the concatenation is not a valid IRI.
    pub fn get(&self, suffix: &str) -> (r: Result<Term, RdfError>)
        ensures
            r is Ok <==> iri_ref_ok(self@ + suffix@),
            r matches Ok(t) ==> t@ == TermV::Iri(self@ + suffix@) && t.wf(),
            r matches Err(e) ==> e@ == ErrV::InvalidIri(self@ + suffix@),
    {
        match self.get_iri(suffix) {
            Ok(iri) => Ok(Term::Iri(iri)),
            Err(e) => Err(e),
        }
    }

    /// Build an IRI by appending `suffix` to this namespace.
    ///
    /// Returns an error if the concatenation is not a valid IRI.  The result
    /// keeps the split: its namespace part is this namespace's text and its
    /// local suffix is `suffix`.
    pub fn get_iri(&self, suffix: &str) -> (r: Result<Iri, RdfError>)
        ensures
            r is Ok <==> iri_ref_ok(self@ + suffix@),
            r matches Ok(i) ==> i@ == self@ + suffix@ && i.wf() && i.ns@ == self@ && (
            i.suffix matches Some(sf) && sf@ == suffix@),
            r matches Err(e) ==> e@ == ErrV::InvalidIri(self@ + suffix@),
    {
        let full = self.0.clone().concat(suffix);
        if check_iri_ref(full.as_str()) {
            let absolute = check_abs_iri(full.as_str());
            Ok(Iri { ns: self.0.clone(), suffix: Some(String::from_str(suffix)), absolute })
        } else {
            Err(RdfError::InvalidIri(full))
        }
    }

    /// Maps this namespace to another one by applying `f` to its text.
    ///
    /// The result is not re-validated; `f` is expected to preserve validity.
    pub fn map<F: FnOnce(String) -> String>(self, f: F) -> (r: Namespace)
        requires
            f.requires((self.0,)),
        ensures
            f.ensures((self.0,), r.0),
    {
        Namespace(f(self.0))
    }

    /// Tries to map this namespace to another one by applying `f` to its text.
    pub fn try_map<E, F: FnOnce(String) -> Result<String, E>>(self, f: F) -> (r: Result<
        Namespace,
        E,
    >)
        requires
            f.requires((self.0,)),
        ensures
            r matches Ok(ns) ==> f.ensures((self.0,), Ok(ns.0)),
            r matches Err(e) ==> f.ensures((self.0,), Err(e)),
    {
        match f(self.0) {
            Ok(text) => Ok(Namespace(text)),
            Err(e) => Err(e),
        }
    }

    /// Turns an IRI into a namespace; the IRI must have no suffix.
    pub fn try_from_iri(iri: Iri) -> (r: Result<Namespace, RdfError>)
        ensures
            iri.suffix is Some ==> (r matches Err(e) && e@ == ErrV::IsSuffixed),
            iri.suffix is None ==> (r matches Ok(ns) && ns@ == iri@),
    {
        match iri.suffix {
            Some(_) => Err(RdfError::IsSuffixed),
            None => Ok(Namespace(iri.ns)),
        }
    }
}

} // verus!
