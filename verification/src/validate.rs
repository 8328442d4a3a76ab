//! Syntactic validation of IRI references and language tags.
//!
//! Both checks are purely syntactic functions of their argument; their exact
//! grammars (RFC 3987 and BCP 47) are pages long, so each result is given a
//! name that the contracts of this crate speak of.

use vstd::prelude::*;

verus! {

/// Whether a character sequence is a valid (absolute or relative) IRI
/// reference, per the grammar that `sophia_iri::is_valid_iri_ref` implements.
pub uninterp spec fn iri_ref_ok(s: Seq<char>) -> bool;

/// Whether a character sequence is a valid absolute IRI reference, per the
/// grammar that `sophia_iri::is_absolute_iri_ref` implements.
pub uninterp spec fn abs_iri_ok(s: Seq<char>) -> bool;

/// Whether a character sequence is a well-formed BCP-47 language tag, per the
/// grammar that `language_tags::LanguageTag::parse` implements.
pub uninterp spec fn lang_tag_ok(s: Seq<char>) -> bool;

/// Relies on `sophia_iri::is_valid_iri_ref`: a purely syntactic check of a
/// string against the IRI-reference grammar.
#[verifier::external_body]
pub fn check_iri_ref(s: &str) -> (r: bool)
    ensures
        r == iri_ref_ok(s@),
{
    sophia_iri::is_valid_iri_ref(s)
}

/// Relies on `sophia_iri::is_absolute_iri_ref`: a purely syntactic check of a
/// string against the absolute-IRI grammar.
#[verifier::external_body]
pub fn check_abs_iri(s: &str) -> (r: bool)
    ensures
        r == abs_iri_ok(s@),
{
    sophia_iri::is_absolute_iri_ref(s)
}

/// Relies on `language_tags::LanguageTag::parse`: a purely syntactic check of
/// a string against the BCP-47 grammar.
#[verifier::external_body]
pub fn check_lang_tag(s: &str) -> (r: bool)
    ensures
        r == lang_tag_ok(s@),
{
    language_tags::LanguageTag::parse(s).is_ok()
}

} // verus!
