//! The mathematical model of the event state machine.
//!
//! A parser state holds the scope stacks (namespace frames and `xml:lang`
//! frames), the striped `parents` stack, the queue of produced triples and
//! errors, the node/predicate alternation flag, the blank-node counter and
//! the text accumulator.  [`step`] says exactly how one XML event transforms
//! a state; the executable machine is proved to follow it event by event.

use vstd::prelude::*;
use crate::errors::ErrV;
use crate::prefix::PrefixMapV;
use crate::prefix::expand_curie_string_v;
use crate::strutil::ascii_lower;
use crate::strutil::dec_digits;
use crate::strutil::has_prefix;
use crate::term::LitKindV;
use crate::term::TermV;
use crate::term::TripleV;
use crate::validate::iri_ref_ok;
use crate::validate::lang_tag_ok;
use crate::vocab::rdf;
use crate::vocab::xml;
use crate::vocab::xsd;

verus! {

/// Model of one XML event, as handed to the state machine.
pub ghost enum EventV {
    /// A start tag with its attributes.
    Start { name: Seq<char>, attrs: Seq<(Seq<char>, Seq<char>)> },
    /// An empty element tag with its attributes.
    Empty { name: Seq<char>, attrs: Seq<(Seq<char>, Seq<char>)> },
    /// An end tag.
    End { name: Seq<char> },
    /// Character data.
    Text { content: Seq<char> },
}

/// Model of the text accumulator of the current predicate.
pub ghost struct TextV {
    /// Datatype IRI taken from `rdf:datatype`, if any.
    pub datatype: Option<Seq<char>>,
    /// The accumulated character data.
    pub text: Seq<char>,
}

/// Model of the whole parser state.
pub ghost struct StateV {
    /// One prefix-mapping frame per open element, plus the root frame.
    pub namespaces: Seq<PrefixMapV>,
    /// One `xml:lang` frame per open element, plus the root frame.
    pub lang: Seq<Option<Seq<char>>>,
    /// The striped stack: subject terms at even positions, predicate IRIs at
    /// odd positions.
    pub parents: Seq<TermV>,
    /// The queue of produced triples and surfaced errors, oldest first.
    pub queue: Seq<Result<TripleV, ErrV>>,
    /// True while inside a node element (the next child is a predicate).
    pub in_node: bool,
    /// The blank-node counter.
    pub bnodes: nat,
    /// The text accumulator, present only inside a predicate element.
    pub text: Option<TextV>,
}

/// A structurally sound state: the two scope stacks have equal, nonzero
/// length.
pub open spec fn wf_state(s: StateV) -> bool {
    s.namespaces.len() == s.lang.len() && s.namespaces.len() >= 1
}

/// The root prefix-mapping frame: only `xml` is bound.
pub open spec fn root_frame() -> PrefixMapV {
    PrefixMapV {
        map: Map::<Seq<char>, Seq<char>>::empty().insert(
            "xml"@,
            "http://www.w3.org/XML/1998/namespace#"@,
        ),
        default_ns: None,
    }
}

/// The state at the start of a document.
pub open spec fn init_state() -> StateV {
    StateV {
        namespaces: seq![root_frame()],
        lang: seq![None],
        parents: Seq::empty(),
        queue: Seq::empty(),
        in_node: false,
        bnodes: 0,
        text: None,
    }
}

/// The label generated for the `n`-th anonymous blank node.
pub open spec fn gen_label(n: nat) -> Seq<char> {
    "n"@ + dec_digits(n)
}

/// The label stored for a user-supplied `rdf:nodeID` value.
pub open spec fn user_label(v: Seq<char>) -> Seq<char> {
    "o"@ + v
}

/// Errors as queue entries, in order.
pub open spec fn err_entries(errs: Seq<ErrV>) -> Seq<Result<TripleV, ErrV>> {
    errs.map_values(|e: ErrV| Err::<TripleV, ErrV>(e))
}

/// The triple a property attribute contributes about `subject`.
pub open spec fn prop_entry(subject: TermV, pv: (TermV, Seq<char>)) -> Result<TripleV, ErrV> {
    Ok(
        TripleV {
            s: subject,
            p: pv.0,
            o: TermV::Literal(pv.1, LitKindV::Typed(xsd::term_iri("string"@))),
        },
    )
}

/// The triples of a node's property attributes, in attribute order.
pub open spec fn prop_entries(subject: TermV, props: Seq<(TermV, Seq<char>)>) -> Seq<
    Result<TripleV, ErrV>,
> {
    props.map_values(|pv: (TermV, Seq<char>)| prop_entry(subject, pv))
}

/// The blank-node counter after generating one label; it sticks at the
/// machine bound rather than wrapping.
pub open spec fn bump(n: nat) -> nat {
    if n < u64::MAX {
        (n + 1) as nat
    } else {
        n
    }
}

/// Whether an attribute key is a namespace declaration (`xmlns` itself or
/// an `xmlns:`-prefixed key).
pub open spec fn is_xmlns(k: Seq<char>) -> bool {
    k == "xmlns"@ || has_prefix(k, "xmlns:"@)
}

/// Accumulator of the namespace-declaration pass over an element's
/// attributes.
pub ghost struct ScopeAcc {
    pub pm: PrefixMapV,
    pub errs: Seq<ErrV>,
}

/// One attribute of the namespace-declaration pass: `xmlns:p` binds `p`
/// (binding `_` or an invalid IRI surfaces an error and is skipped), a bare
/// `xmlns` sets the default namespace.
pub open spec fn xmlns_attr_step(acc: ScopeAcc, k: Seq<char>, v: Seq<char>) -> ScopeAcc {
    if has_prefix(k, "xmlns:"@) {
        let p = k.skip(6);
        if p == "_"@ {
            ScopeAcc { pm: acc.pm, errs: acc.errs.push(ErrV::ReservedPrefix) }
        } else if iri_ref_ok(v) {
            ScopeAcc {
                pm: PrefixMapV { map: acc.pm.map.insert(p, v), default_ns: acc.pm.default_ns },
                errs: acc.errs,
            }
        } else {
            ScopeAcc { pm: acc.pm, errs: acc.errs.push(ErrV::InvalidIri(v)) }
        }
    } else if k == "xmlns"@ {
        if iri_ref_ok(v) {
            ScopeAcc {
                pm: PrefixMapV { map: acc.pm.map, default_ns: Some(v) },
                errs: acc.errs,
            }
        } else {
            ScopeAcc { pm: acc.pm, errs: acc.errs.push(ErrV::InvalidIri(v)) }
        }
    } else {
        acc
    }
}

/// The namespace-declaration pass over the first `i` attributes.
pub open spec fn scan_xmlns(pm: PrefixMapV, attrs: Seq<(Seq<char>, Seq<char>)>, i: int) -> ScopeAcc
    decreases i,
{
    if i <= 0 {
        ScopeAcc { pm, errs: Seq::empty() }
    } else {
        let prev = scan_xmlns(pm, attrs, i - 1);
        xmlns_attr_step(prev, attrs[i - 1].0, attrs[i - 1].1)
    }
}

/// The `xml:lang` pass over the first `i` attributes: the last `xml:lang`
/// attribute wins, and an empty value clears the inherited tag.
pub open spec fn scan_lang(
    l: Option<Seq<char>>,
    attrs: Seq<(Seq<char>, Seq<char>)>,
    i: int,
) -> Option<Seq<char>>
    decreases i,
{
    if i <= 0 {
        l
    } else {
        let prev = scan_lang(l, attrs, i - 1);
        if attrs[i - 1].0 == "xml:lang"@ {
            if attrs[i - 1].1.len() == 0 {
                None
            } else {
                Some(attrs[i - 1].1)
            }
        } else {
            prev
        }
    }
}

/// Entering an element's scope: clone the top frames, apply the namespace
/// declarations and `xml:lang`, push both frames, reset the accumulator,
/// surface any errors.
pub open spec fn enter_scope_v(s: StateV, attrs: Seq<(Seq<char>, Seq<char>)>) -> StateV
    recommends
        wf_state(s),
{
    let acc = scan_xmlns(s.namespaces.last(), attrs, attrs.len() as int);
    let nl = scan_lang(s.lang.last(), attrs, attrs.len() as int);
    StateV {
        namespaces: s.namespaces.push(acc.pm),
        lang: s.lang.push(nl),
        queue: s.queue + err_entries(acc.errs),
        text: None,
        ..s
    }
}

/// Leaving an element's scope: pop one frame from each stack (the root
/// frames always stay) and reset the accumulator.
pub open spec fn leave_scope_v(s: StateV) -> StateV {
    StateV {
        namespaces: if s.namespaces.len() >= 2 {
            s.namespaces.drop_last()
        } else {
            s.namespaces
        },
        lang: if s.lang.len() >= 2 {
            s.lang.drop_last()
        } else {
            s.lang
        },
        text: None,
        ..s
    }
}

/// Accumulator of the subject-and-properties pass of a node element.
pub ghost struct NodeAcc {
    /// The subject found so far, from `rdf:about` or `rdf:nodeID`.
    pub subject: Option<TermV>,
    /// Whether a subject-marking attribute was already seen.
    pub marker: bool,
    /// Whether a second subject-marking attribute was seen; subject
    /// determination has then failed and the node's own triples are
    /// suppressed.
    pub ambiguous: bool,
    /// Property attributes: resolved predicate and literal value, in order.
    pub props: Seq<(TermV, Seq<char>)>,
    /// Errors surfaced by this pass, in order.
    pub errs: Seq<ErrV>,
}

/// One attribute of a node element: subject markers (`rdf:about`, `rdf:ID`,
/// `rdf:nodeID`) are mutually exclusive, `xml:lang` and namespace
/// declarations are ignored, anything else is a property attribute.
pub open spec fn node_attr_step(pm: PrefixMapV, acc: NodeAcc, k: Seq<char>, v: Seq<char>) -> NodeAcc {
    if is_xmlns(k) {
        acc
    } else {
        match expand_curie_string_v(pm, k) {
            Err(e) => NodeAcc { errs: acc.errs.push(e), ..acc },
            Ok(kt) => if kt == TermV::Iri(rdf::term_iri("about"@)) {
                if acc.marker {
                    NodeAcc { ambiguous: true, errs: acc.errs.push(ErrV::AmbiguousSubject), ..acc }
                } else if iri_ref_ok(v) {
                    NodeAcc { subject: Some(TermV::Iri(v)), marker: true, ..acc }
                } else {
                    NodeAcc { marker: true, errs: acc.errs.push(ErrV::InvalidIri(v)), ..acc }
                }
            } else if kt == TermV::Iri(rdf::term_iri("ID"@)) {
                if acc.marker {
                    NodeAcc { ambiguous: true, errs: acc.errs.push(ErrV::AmbiguousSubject), ..acc }
                } else {
                    NodeAcc {
                        marker: true,
                        errs: acc.errs.push(ErrV::NotImplemented("rdf:ID"@)),
                        ..acc
                    }
                }
            } else if kt == TermV::Iri(rdf::term_iri("nodeID"@)) {
                if acc.marker {
                    NodeAcc { ambiguous: true, errs: acc.errs.push(ErrV::AmbiguousSubject), ..acc }
                } else {
                    NodeAcc { subject: Some(TermV::BNode(user_label(v))), marker: true, ..acc }
                }
            } else if kt == TermV::Iri(xml::term_iri("lang"@)) {
                acc
            } else {
                NodeAcc { props: acc.props.push((kt, v)), ..acc }
            },
        }
    }
}

/// The subject-and-properties pass over the first `i` attributes.
pub open spec fn scan_node_attrs(
    pm: PrefixMapV,
    attrs: Seq<(Seq<char>, Seq<char>)>,
    i: int,
) -> NodeAcc
    decreases i,
{
    if i <= 0 {
        NodeAcc {
            subject: None,
            marker: false,
            ambiguous: false,
            props: Seq::empty(),
            errs: Seq::empty(),
        }
    } else {
        let prev = scan_node_attrs(pm, attrs, i - 1);
        node_attr_step(pm, prev, attrs[i - 1].0, attrs[i - 1].1)
    }
}

/// The queue entries contributed by a node element's name: its `rdf:type`
/// triple, unless the element is `rdf:Description`; an unresolvable name
/// surfaces its error instead.
pub open spec fn type_entries(pm: PrefixMapV, name: Seq<char>, subject: TermV) -> Seq<
    Result<TripleV, ErrV>,
> {
    match expand_curie_string_v(pm, name) {
        Err(e) => seq![Err::<TripleV, ErrV>(e)],
        Ok(ty) => if ty == TermV::Iri(rdf::term_iri("Description"@)) {
            Seq::empty()
        } else {
            seq![
                Ok::<TripleV, ErrV>(
                    TripleV { s: subject, p: TermV::Iri(rdf::term_iri("type"@)), o: ty },
                ),
            ]
        },
    }
}

/// The entries a node element adds to the queue, its subject, and the new
/// counter: scan errors first, then the `rdf:type` triple (unless the
/// element is `rdf:Description`), then one triple per property attribute in
/// attribute order, then the link from the grandparent subject through the
/// parent predicate.  When subject determination failed (more than one
/// subject-marking attribute), only the errors are enqueued: the node's own
/// triples are suppressed, and the subject serves only as the striping
/// placeholder.
pub open spec fn node_entries(s: StateV, name: Seq<char>, attrs: Seq<(Seq<char>, Seq<char>)>) -> (
    Seq<Result<TripleV, ErrV>>,
    TermV,
    nat,
)
    recommends
        wf_state(s),
{
    let pm = s.namespaces.last();
    let acc = scan_node_attrs(pm, attrs, attrs.len() as int);
    let subject = match acc.subject {
        Some(t) => t,
        None => TermV::BNode(gen_label(s.bnodes)),
    };
    let bn = if acc.subject is Some {
        s.bnodes
    } else {
        bump(s.bnodes)
    };
    let ty_entries = type_entries(pm, name, subject);
    let props = prop_entries(subject, acc.props);
    let link_entries = if s.parents.len() >= 2 {
        seq![
            Ok::<TripleV, ErrV>(
                TripleV {
                    s: s.parents[s.parents.len() - 2],
                    p: s.parents[s.parents.len() - 1],
                    o: subject,
                },
            ),
        ]
    } else {
        Seq::empty()
    };
    if acc.ambiguous {
        (err_entries(acc.errs), subject, bn)
    } else {
        (err_entries(acc.errs) + ty_entries + props + link_entries, subject, bn)
    }
}

/// A node element opens: emit its entries and push its subject.
pub open spec fn node_start_v(s: StateV, name: Seq<char>, attrs: Seq<(Seq<char>, Seq<char>)>) -> StateV
    recommends
        wf_state(s),
{
    let (entries, subject, bn) = node_entries(s, name, attrs);
    StateV { parents: s.parents.push(subject), queue: s.queue + entries, bnodes: bn, ..s }
}

/// An empty node element: equivalent to a node opened and immediately
/// closed, so it emits the same entries but leaves `parents` alone.
pub open spec fn node_empty_v(s: StateV, name: Seq<char>, attrs: Seq<(Seq<char>, Seq<char>)>) -> StateV
    recommends
        wf_state(s),
{
    let (entries, subject, bn) = node_entries(s, name, attrs);
    StateV { queue: s.queue + entries, bnodes: bn, ..s }
}

/// Accumulator of the datatype pass of a predicate element.
pub ghost struct PredAcc {
    /// The datatype from `rdf:datatype`, if any; the last one wins.
    pub datatype: Option<Seq<char>>,
    /// Errors surfaced by this pass, in order.
    pub errs: Seq<ErrV>,
}

/// One attribute of a predicate element: `rdf:datatype` records the object
/// literal's datatype, `rdf:parseType` is unsupported, namespace
/// declarations and anything else are ignored.
pub open spec fn pred_attr_step(pm: PrefixMapV, acc: PredAcc, k: Seq<char>, v: Seq<char>) -> PredAcc {
    if is_xmlns(k) {
        acc
    } else {
        match expand_curie_string_v(pm, k) {
            Err(e) => PredAcc { errs: acc.errs.push(e), ..acc },
            Ok(kt) => if kt == TermV::Iri(rdf::term_iri("datatype"@)) {
                if iri_ref_ok(v) {
                    PredAcc { datatype: Some(v), ..acc }
                } else {
                    PredAcc { errs: acc.errs.push(ErrV::InvalidIri(v)), ..acc }
                }
            } else if kt == TermV::Iri(rdf::term_iri("parseType"@)) {
                PredAcc { errs: acc.errs.push(ErrV::NotImplemented("rdf:parseType"@)), ..acc }
            } else {
                acc
            },
        }
    }
}

/// The datatype pass over the first `i` attributes.
pub open spec fn scan_pred_attrs(
    pm: PrefixMapV,
    attrs: Seq<(Seq<char>, Seq<char>)>,
    i: int,
) -> PredAcc
    decreases i,
{
    if i <= 0 {
        PredAcc { datatype: None, errs: Seq::empty() }
    } else {
        let prev = scan_pred_attrs(pm, attrs, i - 1);
        pred_attr_step(pm, prev, attrs[i - 1].0, attrs[i - 1].1)
    }
}

/// A predicate element opens: resolve its name (an unresolvable name
/// surfaces an error and a placeholder IRI keeps the striping), push it,
/// and initialize the text accumulator with the optional datatype.
pub open spec fn predicate_start_v(
    s: StateV,
    name: Seq<char>,
    attrs: Seq<(Seq<char>, Seq<char>)>,
) -> StateV
    recommends
        wf_state(s),
{
    let pm = s.namespaces.last();
    let acc = scan_pred_attrs(pm, attrs, attrs.len() as int);
    let name_errs: Seq<Result<TripleV, ErrV>> = match expand_curie_string_v(pm, name) {
        Ok(_) => Seq::empty(),
        Err(e) => seq![Err::<TripleV, ErrV>(e)],
    };
    let p_term = match expand_curie_string_v(pm, name) {
        Ok(t) => t,
        Err(_) => TermV::Iri(name),
    };
    StateV {
        parents: s.parents.push(p_term),
        queue: s.queue + name_errs + err_entries(acc.errs),
        text: Some(TextV { datatype: acc.datatype, text: Seq::empty() }),
        ..s
    }
}

/// A start tag: enter the scope; the root wrapper `rdf:RDF` does nothing
/// more, any other element alternates the striping flag and is read as a
/// node or as a predicate.
pub open spec fn start_step(s: StateV, name: Seq<char>, attrs: Seq<(Seq<char>, Seq<char>)>) -> StateV
    recommends
        wf_state(s),
{
    let s1 = enter_scope_v(s, attrs);
    if name == "rdf:RDF"@ {
        s1
    } else if !s.in_node {
        node_start_v(StateV { in_node: true, ..s1 }, name, attrs)
    } else {
        predicate_start_v(StateV { in_node: false, ..s1 }, name, attrs)
    }
}

/// A predicate element closes: if character data was accumulated and is
/// non-empty, emit the object literal.  `rdf:datatype` overrides the scoped
/// `xml:lang`; with neither, the literal is typed `xsd:string`.
pub open spec fn predicate_end_v(s: StateV, name: Seq<char>) -> StateV
    recommends
        wf_state(s),
{
    let pm = s.namespaces.last();
    match expand_curie_string_v(pm, name) {
        Err(e) => StateV { queue: s.queue.push(Err(e)), ..s },
        Ok(p) => match s.text {
            None => s,
            Some(tv) => if tv.text.len() == 0 || s.parents.len() < 2 {
                s
            } else {
                let subj = s.parents[s.parents.len() - 2];
                match tv.datatype {
                    Some(dv) => StateV {
                        queue: s.queue.push(
                            Ok(
                                TripleV {
                                    s: subj,
                                    p,
                                    o: TermV::Literal(tv.text, LitKindV::Typed(dv)),
                                },
                            ),
                        ),
                        ..s
                    },
                    None => match s.lang.last() {
                        Some(tag) => if lang_tag_ok(tag) {
                            StateV {
                                queue: s.queue.push(
                                    Ok(
                                        TripleV {
                                            s: subj,
                                            p,
                                            o: TermV::Literal(
                                                tv.text,
                                                LitKindV::Lang(ascii_lower(tag)),
                                            ),
                                        },
                                    ),
                                ),
                                ..s
                            }
                        } else {
                            StateV {
                                queue: s.queue.push(Err(ErrV::MalformedLanguageTag(tag))),
                                ..s
                            }
                        },
                        None => StateV {
                            queue: s.queue.push(
                                Ok(
                                    TripleV {
                                        s: subj,
                                        p,
                                        o: TermV::Literal(
                                            tv.text,
                                            LitKindV::Typed(xsd::term_iri("string"@)),
                                        ),
                                    },
                                ),
                            ),
                            ..s
                        },
                    },
                }
            },
        },
    }
}

/// An end tag: a closing predicate may emit its literal, the striping flag
/// alternates (except for the root wrapper), the scope is left and one
/// parent is popped.
pub open spec fn end_step(s: StateV, name: Seq<char>) -> StateV
    recommends
        wf_state(s),
{
    let s1 = if name == "rdf:RDF"@ {
        s
    } else {
        let s0 = if !s.in_node {
            predicate_end_v(s, name)
        } else {
            s
        };
        StateV { in_node: !s0.in_node, ..s0 }
    };
    let s2 = leave_scope_v(s1);
    StateV {
        parents: if s2.parents.len() >= 1 {
            s2.parents.drop_last()
        } else {
            s2.parents
        },
        ..s2
    }
}

/// Character data: recorded only while inside a predicate element with an
/// active accumulator; appended verbatim, never trimmed.
pub open spec fn text_step(s: StateV, content: Seq<char>) -> StateV {
    if !s.in_node {
        match s.text {
            Some(tv) => StateV {
                text: Some(TextV { datatype: tv.datatype, text: tv.text + content }),
                ..s
            },
            None => s,
        }
    } else {
        s
    }
}

/// Accumulator of the object pass of an empty predicate element.
pub ghost struct ObjAcc {
    /// The object found so far, from `rdf:resource` or `rdf:nodeID`.
    pub object: Option<TermV>,
    /// Whether a second object-marking attribute was seen; the element's
    /// triple is then suppressed.
    pub ambiguous: bool,
    /// Errors surfaced by this pass, in order.
    pub errs: Seq<ErrV>,
}

/// One attribute of an empty predicate element: `rdf:resource` names an IRI
/// object, `rdf:nodeID` a blank object; at most one may be present.
pub open spec fn obj_attr_step(pm: PrefixMapV, acc: ObjAcc, k: Seq<char>, v: Seq<char>) -> ObjAcc {
    if is_xmlns(k) {
        acc
    } else {
        match expand_curie_string_v(pm, k) {
            Err(e) => ObjAcc { errs: acc.errs.push(e), ..acc },
            Ok(kt) => if kt == TermV::Iri(rdf::term_iri("resource"@)) {
                if acc.object is Some {
                    ObjAcc { ambiguous: true, errs: acc.errs.push(ErrV::AmbiguousObject), ..acc }
                } else if iri_ref_ok(v) {
                    ObjAcc { object: Some(TermV::Iri(v)), ..acc }
                } else {
                    ObjAcc { errs: acc.errs.push(ErrV::InvalidIri(v)), ..acc }
                }
            } else if kt == TermV::Iri(rdf::term_iri("nodeID"@)) {
                if acc.object is Some {
                    ObjAcc { ambiguous: true, errs: acc.errs.push(ErrV::AmbiguousObject), ..acc }
                } else {
                    ObjAcc { object: Some(TermV::BNode(user_label(v))), ..acc }
                }
            } else {
                acc
            },
        }
    }
}

/// The object pass over the first `i` attributes.
pub open spec fn scan_obj_attrs(
    pm: PrefixMapV,
    attrs: Seq<(Seq<char>, Seq<char>)>,
    i: int,
) -> ObjAcc
    decreases i,
{
    if i <= 0 {
        ObjAcc { object: None, ambiguous: false, errs: Seq::empty() }
    } else {
        let prev = scan_obj_attrs(pm, attrs, i - 1);
        obj_attr_step(pm, prev, attrs[i - 1].0, attrs[i - 1].1)
    }
}

/// An empty predicate element: resolve the predicate, find the object among
/// the attributes and emit the triple from the current parent subject.  An
/// empty predicate with no object-marking attribute is unsupported and
/// surfaces an error; one with more than one object-marking attribute fails
/// with `AmbiguousObject` and emits no triple.
pub open spec fn predicate_empty_v(
    s: StateV,
    name: Seq<char>,
    attrs: Seq<(Seq<char>, Seq<char>)>,
) -> StateV
    recommends
        wf_state(s),
{
    let pm = s.namespaces.last();
    match expand_curie_string_v(pm, name) {
        Err(e) => StateV { queue: s.queue.push(Err(e)), ..s },
        Ok(p) => {
            let acc = scan_obj_attrs(pm, attrs, attrs.len() as int);
            let errs = err_entries(acc.errs);
            if acc.ambiguous {
                StateV { queue: s.queue + errs, ..s }
            } else {
                match acc.object {
                    Some(o) => if s.parents.len() >= 1 {
                        StateV {
                            queue: s.queue + errs + seq![
                                Ok::<TripleV, ErrV>(TripleV { s: s.parents.last(), p, o }),
                            ],
                            ..s
                        }
                    } else {
                        StateV { queue: s.queue + errs, ..s }
                    },
                    None => StateV {
                        queue: s.queue + errs + seq![
                            Err::<TripleV, ErrV>(
                                ErrV::NotImplemented(
                                    "empty property element without rdf:resource or rdf:nodeID"@,
                                ),
                            ),
                        ],
                        ..s
                    },
                }
            }
        },
    }
}

/// An empty element tag: enter and leave the scope around the node or
/// predicate reading; the root wrapper `rdf:RDF` reads as nothing.
pub open spec fn empty_step(s: StateV, name: Seq<char>, attrs: Seq<(Seq<char>, Seq<char>)>) -> StateV
    recommends
        wf_state(s),
{
    let s1 = enter_scope_v(s, attrs);
    let s2 = if name == "rdf:RDF"@ {
        s1
    } else if !s.in_node {
        node_empty_v(s1, name, attrs)
    } else {
        predicate_empty_v(s1, name, attrs)
    };
    leave_scope_v(s2)
}

/// How one XML event transforms the parser state.
pub open spec fn step(s: StateV, e: EventV) -> StateV
    recommends
        wf_state(s),
{
    match e {
        EventV::Start { name, attrs } => start_step(s, name, attrs),
        EventV::Empty { name, attrs } => empty_step(s, name, attrs),
        EventV::End { name } => end_step(s, name),
        EventV::Text { content } => text_step(s, content),
    }
}

/// The state after a sequence of events, from a given start state.
pub open spec fn run(s: StateV, events: Seq<EventV>) -> StateV
    decreases events.len(),
{
    if events.len() == 0 {
        s
    } else {
        step(run(s, events.drop_last()), events.last())
    }
}

/// All entries produced by a whole event stream, including the trailing
/// `UnexpectedEof` error when the document ends with open elements.
pub open spec fn doc_results(events: Seq<EventV>) -> Seq<Result<TripleV, ErrV>> {
    let fin = run(init_state(), events);
    if fin.namespaces.len() > 1 || fin.parents.len() > 0 {
        fin.queue + seq![Err::<TripleV, ErrV>(ErrV::UnexpectedEof)]
    } else {
        fin.queue
    }
}

/// Every step keeps the scope stacks aligned and nonempty.
pub proof fn lemma_step_wf(s: StateV, e: EventV)
    requires
        wf_state(s),
    ensures
        wf_state(step(s, e)),
{
}

} // verus!
