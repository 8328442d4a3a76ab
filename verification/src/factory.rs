//! The term factory: constructors that validate the syntactic categories
//! (IRI references, blank-node labels, language tags) and never panic on
//! malformed input.

use vstd::prelude::*;
use crate::errors::ErrV;
use crate::errors::RdfError;
use crate::strutil::ascii_lower;
use crate::strutil::to_ascii_lower;
use crate::term::Iri;
use crate::term::LitKindV;
use crate::term::LiteralKind;
use crate::term::Term;
use crate::term::TermV;
use crate::validate::check_abs_iri;
use crate::validate::check_iri_ref;
use crate::validate::check_lang_tag;
use crate::validate::iri_ref_ok;
use crate::validate::lang_tag_ok;

verus! {

/// Builds an IRI term from its full text, validating it.
pub fn iri(text: String) -> (r: Result<Term, RdfError>)
    ensures
        r is Ok <==> iri_ref_ok(text@),
        r matches Ok(t) ==> t@ == TermV::Iri(text@) && t.wf(),
        r matches Err(e) ==> e@ == ErrV::InvalidIri(text@),
{
    if check_iri_ref(text.as_str()) {
        let absolute = check_abs_iri(text.as_str());
        Ok(Term::Iri(Iri { ns: text, suffix: None, absolute }))
    } else {
        Err(RdfError::InvalidIri(text))
    }
}

/// Builds a blank-node term; the label must be non-empty.
pub fn bnode(label: String) -> (r: Result<Term, RdfError>)
    ensures
        r is Ok <==> label@.len() > 0,
        r matches Ok(t) ==> t@ == TermV::BNode(label@) && t.wf(),
        r matches Err(e) ==> e@ == ErrV::InvalidBlankNodeLabel(label@),
{
    if label.as_str().unicode_len() > 0 {
        Ok(Term::BlankNode(label))
    } else {
        Err(RdfError::InvalidBlankNodeLabel(label))
    }
}

/// Builds a typed literal; the datatype IRI is validated.
pub fn literal_dt(lexical: String, datatype: Iri) -> (r: Result<Term, RdfError>)
    ensures
        r is Ok <==> iri_ref_ok(datatype@),
        r matches Ok(t) ==> t@ == TermV::Literal(lexical@, LitKindV::Typed(datatype@)),
        r matches Err(e) ==> e@ == ErrV::InvalidIri(datatype@),
{
    let value = datatype.value();
    if check_iri_ref(value.as_str()) {
        Ok(Term::Literal(lexical, LiteralKind::Typed(datatype)))
    } else {
        Err(RdfError::InvalidIri(value))
    }
}

/// Builds a language-tagged literal.  The tag must match the BCP-47 grammar;
/// comparison of tags is case-insensitive, so the stored form is lowercased.
pub fn literal_lang(lexical: String, tag: &str) -> (r: Result<Term, RdfError>)
    ensures
        r is Ok <==> lang_tag_ok(tag@),
        r matches Ok(t) ==> t@ == TermV::Literal(lexical@, LitKindV::Lang(ascii_lower(tag@))),
        r matches Err(e) ==> e@ == ErrV::MalformedLanguageTag(tag@),
{
    if check_lang_tag(tag) {
        Ok(Term::Literal(lexical, LiteralKind::Lang(to_ascii_lower(tag))))
    } else {
        Err(RdfError::MalformedLanguageTag(String::from_str(tag)))
    }
}

/// Re-creates a term under this factory.
pub fn copy(t: &Term) -> (r: Term)
    ensures
        r@ == t@,
{
    t.clone()
}

/// Interns a string for reuse.
pub fn get_term_data(s: &str) -> (r: String)
    ensures
        r@ == s@,
{
    String::from_str(s)
}

} // verus!
