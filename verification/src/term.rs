//! The RDF term model: IRIs, blank nodes, literals and variables, and the
//! triples built from them.
//!
//! An IRI term stores a namespace part and an optional local suffix; the term
//! logically denotes their concatenation, and the split is kept only as a
//! representation detail.  The mathematical view of a term (`TermV`) is
//! therefore *canonical*: it exposes the concatenated IRI value, so that two
//! terms are equal exactly when they denote the same RDF term.

use vstd::prelude::*;

verus! {

/// Canonical model of a term: IRIs appear as their full concatenated value.
pub ghost enum TermV {
    /// An IRI, as its full text.
    Iri(Seq<char>),
    /// A blank node, by its label.
    BNode(Seq<char>),
    /// A literal: lexical form plus kind.
    Literal(Seq<char>, LitKindV),
    /// A variable of the generalized RDF model; never produced by the parser.
    Var(Seq<char>),
}

/// Model of a literal kind.
pub ghost enum LitKindV {
    /// Typed literal; the datatype IRI as its full text.
    Typed(Seq<char>),
    /// Language-tagged literal; the tag is stored lowercased.
    Lang(Seq<char>),
}

/// Model of a triple.
pub ghost struct TripleV {
    pub s: TermV,
    pub p: TermV,
    pub o: TermV,
}

/// The concatenated value denoted by a namespace part and an optional suffix.
pub open spec fn iri_value(ns: Seq<char>, suffix: Option<Seq<char>>) -> Seq<char> {
    match suffix {
        Some(sf) => ns + sf,
        None => ns,
    }
}

/// An IRI reference, split into a namespace part and an optional local
/// suffix.  `absolute` caches whether the concatenated value matches the
/// absolute-IRI grammar; see [`Iri::wf`].
#[derive(Debug)]
pub struct Iri {
    pub ns: String,
    pub suffix: Option<String>,
    pub absolute: bool,
}

impl View for Iri {
    type V = Seq<char>;

    /// The full IRI text denoted by this value.
    open spec fn view(&self) -> Seq<char> {
        iri_value(self.ns@, match self.suffix {
            Some(ref sf) => Some(sf@),
            None => None,
        })
    }
}

impl Iri {
    /// A well-formed IRI value: the text is a syntactically valid IRI
    /// reference and `absolute` agrees with the absolute-IRI grammar.
    pub open spec fn wf(&self) -> bool {
        &&& crate::validate::iri_ref_ok(self@)
        &&& self.absolute == crate::validate::abs_iri_ok(self@)
    }

    /// The full IRI text.
    pub fn value(&self) -> (r: String)
        ensures
            r@ == self@,
    {
        match &self.suffix {
            Some(sf) => self.ns.clone().concat(sf.as_str()),
            None => self.ns.clone(),
        }
    }
}

impl Clone for Iri {
    fn clone(&self) -> (r: Self)
        ensures
            r == *self,
    {
        Iri {
            ns: self.ns.clone(),
            suffix: match &self.suffix {
                Some(sf) => Some(sf.clone()),
                None => None,
            },
            absolute: self.absolute,
        }
    }
}

impl PartialEq for Iri {
    /// Two IRI terms are equal when they denote the same full IRI text,
    /// regardless of how that text is split.
    fn eq(&self, other: &Self) -> (r: bool) {
        self.value() == other.value()
    }
}

impl vstd::std_specs::cmp::PartialEqSpecImpl for Iri {
    open spec fn obeys_eq_spec() -> bool {
        true
    }

    open spec fn eq_spec(&self, other: &Self) -> bool {
        self@ == other@
    }
}

/// The kind of a literal term.  A plain literal of the RDF 1.1 model is
/// represented as a typed literal with datatype `xsd:string`.
#[derive(Debug)]
pub enum LiteralKind {
    /// Typed literal with its datatype IRI.
    Typed(Iri),
    /// Language-tagged literal; the stored tag is lowercased.
    Lang(String),
}

impl View for LiteralKind {
    type V = LitKindV;

    open spec fn view(&self) -> LitKindV {
        match self {
            LiteralKind::Typed(dt) => LitKindV::Typed(dt@),
            LiteralKind::Lang(tag) => LitKindV::Lang(tag@),
        }
    }
}

impl Clone for LiteralKind {
    fn clone(&self) -> (r: Self)
        ensures
            r@ == self@,
    {
        match self {
            LiteralKind::Typed(dt) => LiteralKind::Typed(dt.clone()),
            LiteralKind::Lang(tag) => LiteralKind::Lang(tag.clone()),
        }
    }
}

/// An RDF term of the generalized model.
#[derive(Debug)]
pub enum Term {
    /// An IRI term.
    Iri(Iri),
    /// A blank node with its label.
    BlankNode(String),
    /// A literal: lexical form and kind.
    Literal(String, LiteralKind),
    /// A variable; part of the generalized model, never produced here.
    Variable(String),
}

impl View for Term {
    type V = TermV;

    open spec fn view(&self) -> TermV {
        match self {
            Term::Iri(iri) => TermV::Iri(iri@),
            Term::BlankNode(label) => TermV::BNode(label@),
            Term::Literal(lex, kind) => TermV::Literal(lex@, kind@),
            Term::Variable(name) => TermV::Var(name@),
        }
    }
}

impl Term {
    /// A well-formed term: IRIs (including a typed literal's datatype) are
    /// valid IRI references with a correct `absolute` flag, and blank-node
    /// labels are non-empty.
    pub open spec fn wf(&self) -> bool {
        match self {
            Term::Iri(iri) => iri.wf(),
            Term::BlankNode(label) => label@.len() > 0,
            Term::Literal(_, LiteralKind::Typed(dt)) => dt.wf(),
            Term::Literal(_, LiteralKind::Lang(_)) => true,
            Term::Variable(_) => true,
        }
    }
}

impl Clone for Term {
    fn clone(&self) -> (r: Self)
        ensures
            r@ == self@,
    {
        match self {
            Term::Iri(iri) => Term::Iri(iri.clone()),
            Term::BlankNode(label) => Term::BlankNode(label.clone()),
            Term::Literal(lex, kind) => Term::Literal(lex.clone(), kind.clone()),
            Term::Variable(name) => Term::Variable(name.clone()),
        }
    }
}

impl PartialEq for Term {
    /// Term equality compares denoted values: IRI terms by their full text.
    fn eq(&self, other: &Self) -> (r: bool) {
        match (self, other) {
            (Term::Iri(a), Term::Iri(b)) => a.value() == b.value(),
            (Term::BlankNode(a), Term::BlankNode(b)) => *a == *b,
            (Term::Literal(l1, k1), Term::Literal(l2, k2)) => {
                *l1 == *l2 && match (k1, k2) {
                    (LiteralKind::Typed(d1), LiteralKind::Typed(d2)) => d1.value() == d2.value(),
                    (LiteralKind::Lang(t1), LiteralKind::Lang(t2)) => *t1 == *t2,
                    _ => false,
                }
            },
            (Term::Variable(a), Term::Variable(b)) => *a == *b,
            _ => false,
        }
    }
}

impl vstd::std_specs::cmp::PartialEqSpecImpl for Term {
    open spec fn obeys_eq_spec() -> bool {
        true
    }

    open spec fn eq_spec(&self, other: &Self) -> bool {
        self@ == other@
    }
}

/// An RDF triple: subject, predicate, object.
#[derive(Debug)]
pub struct Triple {
    pub s: Term,
    pub p: Term,
    pub o: Term,
}

impl View for Triple {
    type V = TripleV;

    open spec fn view(&self) -> TripleV {
        TripleV { s: self.s@, p: self.p@, o: self.o@ }
    }
}

impl Clone for Triple {
    fn clone(&self) -> (r: Self)
        ensures
            r@ == self@,
    {
        Triple { s: self.s.clone(), p: self.p.clone(), o: self.o.clone() }
    }
}

impl PartialEq for Triple {
    fn eq(&self, other: &Self) -> (r: bool) {
        self.s == other.s && self.p == other.p && self.o == other.o
    }
}

impl vstd::std_specs::cmp::PartialEqSpecImpl for Triple {
    open spec fn obeys_eq_spec() -> bool {
        true
    }

    open spec fn eq_spec(&self, other: &Self) -> bool {
        self@ == other@
    }
}

} // verus!
