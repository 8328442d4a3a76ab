//! Error kinds reported by the parser, the namespace layer and the term
//! factory.  Errors are carried as `Err` items inside the triple stream and
//! never panic across the iteration boundary.

use vstd::prelude::*;

verus! {

/// Mathematical model of an error: each variant mirrors [`RdfError`] with
/// string payloads abstracted to character sequences.
pub ghost enum ErrV {
    /// A string that should be an IRI failed syntactic validation.
    InvalidIri(Seq<char>),
    /// A suffixed IRI was passed where a namespace (prefix only) was required.
    IsSuffixed,
    /// An XML qname lacked a colon and no default namespace was in scope.
    MissingPrefix(Seq<char>),
    /// The prefix has no binding in the current scope.
    UnknownPrefix(Seq<char>),
    /// Attempt to bind the reserved prefix `_`.
    ReservedPrefix,
    /// More than one of the mutually exclusive subject-marking attributes.
    AmbiguousSubject,
    /// More than one of the mutually exclusive object-marking attributes.
    AmbiguousObject,
    /// The XML event source reported an error.
    XmlSource(Seq<char>),
    /// The event stream ended with open elements.
    UnexpectedEof,
    /// A language tag does not match the BCP-47 grammar.
    MalformedLanguageTag(Seq<char>),
    /// A recognized RDF/XML construct that this parser does not support.
    NotImplemented(Seq<char>),
    /// A blank-node label that is empty.
    InvalidBlankNodeLabel(Seq<char>),
}

/// An error from parsing, namespace resolution or term construction.
#[derive(Debug)]
pub enum RdfError {
    /// A string that should be an IRI failed syntactic validation.
    InvalidIri(String),
    /// A suffixed IRI was passed where a namespace (prefix only) was required.
    IsSuffixed,
    /// An XML qname lacked a colon and no default namespace was in scope.
    MissingPrefix(String),
    /// The prefix has no binding in the current scope.
    UnknownPrefix(String),
    /// Attempt to bind the reserved prefix `_`.
    ReservedPrefix,
    /// More than one of the mutually exclusive subject-marking attributes.
    AmbiguousSubject,
    /// More than one of the mutually exclusive object-marking attributes.
    AmbiguousObject,
    /// The XML event source reported an error.
    XmlSource(String),
    /// The event stream ended with open elements.
    UnexpectedEof,
    /// A language tag does not match the BCP-47 grammar.
    MalformedLanguageTag(String),
    /// A recognized RDF/XML construct that this parser does not support.
    NotImplemented(String),
    /// A blank-node label that is empty.
    InvalidBlankNodeLabel(String),
}

impl View for RdfError {
    type V = ErrV;

    open spec fn view(&self) -> ErrV {
        match self {
            RdfError::InvalidIri(s) => ErrV::InvalidIri(s@),
            RdfError::IsSuffixed => ErrV::IsSuffixed,
            RdfError::MissingPrefix(s) => ErrV::MissingPrefix(s@),
            RdfError::UnknownPrefix(s) => ErrV::UnknownPrefix(s@),
            RdfError::ReservedPrefix => ErrV::ReservedPrefix,
            RdfError::AmbiguousSubject => ErrV::AmbiguousSubject,
            RdfError::AmbiguousObject => ErrV::AmbiguousObject,
            RdfError::XmlSource(s) => ErrV::XmlSource(s@),
            RdfError::UnexpectedEof => ErrV::UnexpectedEof,
            RdfError::MalformedLanguageTag(s) => ErrV::MalformedLanguageTag(s@),
            RdfError::NotImplemented(s) => ErrV::NotImplemented(s@),
            RdfError::InvalidBlankNodeLabel(s) => ErrV::InvalidBlankNodeLabel(s@),
        }
    }
}

} // verus!
