//! Laws of the state machine, proved against the model in [`crate::model`]:
//! the scope-stack depth invariants, the striping of the `parents` stack,
//! blank-node label disjointness and freshness, the root emitting nothing,
//! which node elements emit a type triple, how `rdf:datatype` and `xml:lang`
//! pick a literal's kind, and that character data outside predicate content
//! is ignored.

use vstd::prelude::*;
use crate::errors::ErrV;
use crate::model::EventV;
use crate::model::StateV;
use crate::model::bump;
use crate::model::doc_results;
use crate::model::enter_scope_v;
use crate::model::gen_label;
use crate::model::init_state;
use crate::model::leave_scope_v;
use crate::model::node_entries;
use crate::model::node_start_v;
use crate::model::predicate_end_v;
use crate::model::predicate_start_v;
use crate::model::run;
use crate::model::scan_node_attrs;
use crate::model::start_step;
use crate::model::step;
use crate::model::text_step;
use crate::model::type_entries;
use crate::model::user_label;
use crate::model::wf_state;
use crate::prefix::PrefixMapV;
use crate::prefix::expand_curie_string_v;
use crate::strutil::ascii_lower;
use crate::strutil::dec_digits;
use crate::strutil::lemma_dec_digits_injective;
use crate::term::LitKindV;
use crate::term::TermV;
use crate::term::TripleV;
use crate::validate::lang_tag_ok;
use crate::vocab::rdf;
use crate::vocab::xsd;

verus! {

broadcast use vstd::seq::group_seq_axioms;

/// The XML element depth after a sequence of events.
pub open spec fn depth_after(events: Seq<EventV>) -> int
    decreases events.len(),
{
    if events.len() == 0 {
        0
    } else {
        depth_after(events.drop_last()) + match events.last() {
            EventV::Start { .. } => 1int,
            EventV::End { .. } => -1,
            _ => 0,
        }
    }
}

/// One event of a well-formed document at depth `d`: the root wrapper is
/// named `rdf:RDF` and appears only at the root, and no end tag closes an
/// element that is not open.
pub open spec fn event_ok(e: EventV, d: int) -> bool {
    match e {
        EventV::Start { name, .. } => if d == 0 {
            name == "rdf:RDF"@
        } else {
            name != "rdf:RDF"@
        },
        EventV::End { name } => d >= 1 && (if d == 1 {
            name == "rdf:RDF"@
        } else {
            name != "rdf:RDF"@
        }),
        EventV::Empty { name, .. } => if d == 0 {
            name == "rdf:RDF"@
        } else {
            name != "rdf:RDF"@
        },
        EventV::Text { .. } => true,
    }
}

/// A prefix of a well-formed document's event stream.
pub open spec fn doc_shaped(events: Seq<EventV>) -> bool
    decreases events.len(),
{
    if events.len() == 0 {
        true
    } else {
        doc_shaped(events.drop_last()) && event_ok(
            events.last(),
            depth_after(events.drop_last()),
        )
    }
}

/// A term that can stand in subject position.
pub open spec fn is_subject_term(t: TermV) -> bool {
    t is Iri || t is BNode
}

/// The striping invariant of the `parents` stack: subject terms at even
/// positions, predicate IRIs at odd positions.
pub open spec fn striped(parents: Seq<TermV>) -> bool {
    forall|i: int|
        0 <= i < parents.len() ==> (if i % 2 == 0 {
            is_subject_term(#[trigger] parents[i])
        } else {
            parents[i] is Iri
        })
}

/// The subject found by the attribute scan of a node element is always an
/// IRI or a blank node.
proof fn lemma_scan_subject_shape(pm: PrefixMapV, attrs: Seq<(Seq<char>, Seq<char>)>, i: int)
    ensures
        match scan_node_attrs(pm, attrs, i).subject {
            None => true,
            Some(t) => is_subject_term(t),
        },
    decreases i,
{
    if i > 0 {
        lemma_scan_subject_shape(pm, attrs, i - 1);
    }
}

/// Stack depths and striping: after each event of a well-formed document,
/// both scope stacks hold one frame per open element plus the root frame,
/// the `parents` stack holds one entry per open element below the wrapper,
/// the striping flag follows the depth's parity, and `parents` alternates
/// between subject terms and predicate IRIs, starting with a subject.
#[verifier::rlimit(60)]
pub proof fn lemma_run_structure(events: Seq<EventV>)
    requires
        doc_shaped(events),
    ensures
        ({
            let s = run(init_state(), events);
            let d = depth_after(events);
            &&& d >= 0
            &&& s.namespaces.len() == d + 1
            &&& s.lang.len() == d + 1
            &&& s.parents.len() == (if d >= 1 {
                d - 1
            } else {
                0int
            })
            &&& s.in_node == (d >= 2 && d % 2 == 0)
            &&& striped(s.parents)
        }),
    decreases events.len(),
{
    if events.len() == 0 {
    } else {
        let pre = events.drop_last();
        let e = events.last();
        lemma_run_structure(pre);
        let s = run(init_state(), pre);
        let d = depth_after(pre);
        let sn = run(init_state(), events);
        assert(sn == step(s, e));
        match e {
            EventV::Start { name, attrs } => {
                let s1 = enter_scope_v(s, attrs);
                if name == "rdf:RDF"@ {
                } else if !s.in_node {
                    let s2 = StateV { in_node: true, ..s1 };
                    let s3 = node_start_v(s2, name, attrs);
                    lemma_scan_subject_shape(s2.namespaces.last(), attrs, attrs.len() as int);
                    let subject = node_entries(s2, name, attrs).1;
                    assert(is_subject_term(subject));
                    assert(s3.parents == s.parents.push(subject));
                    assert forall|i: int|
                        0 <= i < s3.parents.len() implies (if i % 2 == 0 {
                        is_subject_term(#[trigger] s3.parents[i])
                    } else {
                        s3.parents[i] is Iri
                    }) by {
                        if i < s.parents.len() {
                            assert(s3.parents[i] == s.parents[i]);
                        } else {
                            assert(s3.parents[i] == subject);
                        }
                    }
                } else {
                    let s2 = StateV { in_node: false, ..s1 };
                    let s3 = predicate_start_v(s2, name, attrs);
                    let p_term = match expand_curie_string_v(s2.namespaces.last(), name) {
                        Ok(t) => t,
                        Err(_) => TermV::Iri(name),
                    };
                    assert(p_term is Iri);
                    assert(s3.parents == s.parents.push(p_term));
                    assert forall|i: int|
                        0 <= i < s3.parents.len() implies (if i % 2 == 0 {
                        is_subject_term(#[trigger] s3.parents[i])
                    } else {
                        s3.parents[i] is Iri
                    }) by {
                        if i < s.parents.len() {
                            assert(s3.parents[i] == s.parents[i]);
                        } else {
                            assert(s3.parents[i] == p_term);
                        }
                    }
                }
            },
            EventV::End { name } => {
                assert(striped(sn.parents)) by {
                    assert forall|i: int|
                        0 <= i < sn.parents.len() implies (if i % 2 == 0 {
                        is_subject_term(#[trigger] sn.parents[i])
                    } else {
                        sn.parents[i] is Iri
                    }) by {
                        assert(sn.parents[i] == s.parents[i]);
                    }
                }
            },
            EventV::Empty { name, attrs } => {
                assert(sn.parents == s.parents);
            },
            EventV::Text { content } => {
                assert(sn.parents == s.parents);
            },
        }
    }
}

/// Blank-node label disjointness: labels the parser generates begin with
/// `n`, labels taken from `rdf:nodeID` begin with `o`, so the two families
/// can never collide.
pub proof fn lemma_bnode_labels_disjoint(n: nat, v: Seq<char>)
    ensures
        gen_label(n).len() > 0 && gen_label(n)[0] == 'n',
        user_label(v).len() > 0 && user_label(v)[0] == 'o',
        gen_label(n) != user_label(v),
{
    reveal_strlit("n");
    reveal_strlit("o");
    assert(gen_label(n)[0] == 'n');
    assert(user_label(v)[0] == 'o');
}

/// Generated blank-node labels are injective: distinct counter values give
/// distinct labels, so every anonymous node element gets a fresh subject.
pub proof fn lemma_gen_label_injective(m: nat, n: nat)
    requires
        m != n,
    ensures
        gen_label(m) != gen_label(n),
{
    reveal_strlit("n");
    if gen_label(m) == gen_label(n) {
        lemma_dec_digits_injective(m, n);
        assert(dec_digits(m) =~= dec_digits(n)) by {
            assert(gen_label(m).len() == 1 + dec_digits(m).len());
            assert forall|i: int| 0 <= i < dec_digits(m).len() implies dec_digits(m)[i]
                == dec_digits(n)[i] by {
                assert(gen_label(m)[i + 1] == dec_digits(m)[i]);
                assert(gen_label(n)[i + 1] == dec_digits(n)[i]);
            }
        }
        assert(false);
    }
}

/// A node element with no subject-marking attribute takes the fresh label of
/// the current counter as its subject and advances the counter.
pub proof fn lemma_fresh_subject(s: StateV, name: Seq<char>, attrs: Seq<(Seq<char>, Seq<char>)>)
    requires
        wf_state(s),
        scan_node_attrs(s.namespaces.last(), attrs, attrs.len() as int).subject is None,
    ensures
        node_entries(s, name, attrs).1 == TermV::BNode(gen_label(s.bnodes)),
        node_entries(s, name, attrs).2 == bump(s.bnodes),
{
}

/// Subject determination fails on a second subject-marking attribute: the
/// scan surfaces `AmbiguousSubject`, and the node's own triples (type,
/// property and parent-link) are all suppressed; only the scan's errors are
/// enqueued.  The returned subject serves only as the striping placeholder.
pub proof fn lemma_ambiguous_subject_suppresses(
    s: StateV,
    name: Seq<char>,
    attrs: Seq<(Seq<char>, Seq<char>)>,
)
    requires
        wf_state(s),
        scan_node_attrs(s.namespaces.last(), attrs, attrs.len() as int).ambiguous,
    ensures
        node_entries(s, name, attrs).0 == crate::model::err_entries(
            scan_node_attrs(s.namespaces.last(), attrs, attrs.len() as int).errs,
        ),
{
}

/// Object determination fails on a second object-marking attribute: the
/// element surfaces `AmbiguousObject` and emits no triple.
pub proof fn lemma_ambiguous_object_suppresses(
    s: StateV,
    name: Seq<char>,
    attrs: Seq<(Seq<char>, Seq<char>)>,
    p: TermV,
)
    requires
        wf_state(s),
        expand_curie_string_v(s.namespaces.last(), name) == Ok::<TermV, ErrV>(p),
        crate::model::scan_obj_attrs(s.namespaces.last(), attrs, attrs.len() as int).ambiguous,
    ensures
        crate::model::predicate_empty_v(s, name, attrs).queue == s.queue
            + crate::model::err_entries(
            crate::model::scan_obj_attrs(s.namespaces.last(), attrs, attrs.len() as int).errs,
        ),
{
}

/// The type triple of a node element whose subject determination succeeded:
/// `rdf:Description` contributes none, any other resolvable element name
/// contributes exactly one, typing the node's subject with the resolved IRI.
/// (A node with an ambiguous subject suppresses all its entries; see
/// [`lemma_ambiguous_subject_suppresses`].)
pub proof fn lemma_type_triple(
    pm: PrefixMapV,
    name: Seq<char>,
    subject: TermV,
    ty: TermV,
)
    requires
        expand_curie_string_v(pm, name) == Ok::<TermV, ErrV>(ty),
    ensures
        ty == TermV::Iri(rdf::term_iri("Description"@)) ==> type_entries(pm, name, subject)
            == Seq::<Result<TripleV, ErrV>>::empty(),
        ty != TermV::Iri(rdf::term_iri("Description"@)) ==> type_entries(pm, name, subject)
            == seq![
            Ok::<TripleV, ErrV>(
                TripleV { s: subject, p: TermV::Iri(rdf::term_iri("type"@)), o: ty },
            ),
        ],
{
}

/// `rdf:datatype` on a predicate overrides the scoped `xml:lang`: the object
/// literal is typed with the recorded datatype whatever the language scope
/// holds.
pub proof fn lemma_datatype_overrides_lang(s: StateV, name: Seq<char>, p: TermV, dv: Seq<char>)
    requires
        wf_state(s),
        expand_curie_string_v(s.namespaces.last(), name) == Ok::<TermV, ErrV>(p),
        s.text matches Some(tv) && tv.datatype == Some(dv) && tv.text.len() > 0,
        s.parents.len() >= 2,
    ensures
        predicate_end_v(s, name).queue == s.queue.push(
            Ok(
                TripleV {
                    s: s.parents[s.parents.len() - 2],
                    p,
                    o: TermV::Literal(s.text.unwrap().text, LitKindV::Typed(dv)),
                },
            ),
        ),
{
}

/// A language-tagged literal: with no datatype and a well-formed scoped
/// `xml:lang`, the object literal carries the lowercased tag.
pub proof fn lemma_lang_literal(s: StateV, name: Seq<char>, p: TermV, tag: Seq<char>)
    requires
        wf_state(s),
        expand_curie_string_v(s.namespaces.last(), name) == Ok::<TermV, ErrV>(p),
        s.text matches Some(tv) && tv.datatype is None && tv.text.len() > 0,
        s.parents.len() >= 2,
        s.lang.last() == Some(tag),
        lang_tag_ok(tag),
    ensures
        predicate_end_v(s, name).queue == s.queue.push(
            Ok(
                TripleV {
                    s: s.parents[s.parents.len() - 2],
                    p,
                    o: TermV::Literal(s.text.unwrap().text, LitKindV::Lang(ascii_lower(tag))),
                },
            ),
        ),
{
}

/// Absent datatype and absent language scope: the object literal is typed
/// `xsd:string`.
pub proof fn lemma_plain_literal_string(s: StateV, name: Seq<char>, p: TermV)
    requires
        wf_state(s),
        expand_curie_string_v(s.namespaces.last(), name) == Ok::<TermV, ErrV>(p),
        s.text matches Some(tv) && tv.datatype is None && tv.text.len() > 0,
        s.parents.len() >= 2,
        s.lang.last() is None,
    ensures
        predicate_end_v(s, name).queue == s.queue.push(
            Ok(
                TripleV {
                    s: s.parents[s.parents.len() - 2],
                    p,
                    o: TermV::Literal(
                        s.text.unwrap().text,
                        LitKindV::Typed(xsd::term_iri("string"@)),
                    ),
                },
            ),
        ),
{
}

/// A node-element attribute that neither declares a namespace nor marks the
/// subject: its only effect on the attribute scan is to contribute its own
/// property or error.
pub open spec fn plain_node_attr(pm: PrefixMapV, k: Seq<char>) -> bool {
    crate::model::is_xmlns(k) || match expand_curie_string_v(pm, k) {
        Err(_) => true,
        Ok(kt) => kt != TermV::Iri(rdf::term_iri("about"@)) && kt != TermV::Iri(
            rdf::term_iri("ID"@),
        ) && kt != TermV::Iri(rdf::term_iri("nodeID"@)),
    }
}

/// The attribute-order half of multiset equivalence, one transposition at a
/// time: swapping two adjacent attributes that do not mark the subject
/// leaves the scanned subject and marker unchanged and the collected
/// properties and errors equal as multisets.
pub proof fn lemma_node_attr_swap(
    pm: PrefixMapV,
    acc: crate::model::NodeAcc,
    k1: Seq<char>,
    v1: Seq<char>,
    k2: Seq<char>,
    v2: Seq<char>,
)
    requires
        plain_node_attr(pm, k1),
        plain_node_attr(pm, k2),
    ensures
        ({
            let a = crate::model::node_attr_step(
                pm,
                crate::model::node_attr_step(pm, acc, k1, v1),
                k2,
                v2,
            );
            let b = crate::model::node_attr_step(
                pm,
                crate::model::node_attr_step(pm, acc, k2, v2),
                k1,
                v1,
            );
            &&& a.subject == b.subject
            &&& a.marker == b.marker
            &&& a.ambiguous == b.ambiguous
            &&& a.props.to_multiset() == b.props.to_multiset()
            &&& a.errs.to_multiset() == b.errs.to_multiset()
        }),
{
    broadcast use vstd::seq_lib::group_to_multiset_ensures;

    let a = crate::model::node_attr_step(
        pm,
        crate::model::node_attr_step(pm, acc, k1, v1),
        k2,
        v2,
    );
    let b = crate::model::node_attr_step(
        pm,
        crate::model::node_attr_step(pm, acc, k2, v2),
        k1,
        v1,
    );
    assert(a.props.to_multiset() =~= b.props.to_multiset());
    assert(a.errs.to_multiset() =~= b.errs.to_multiset());
}

/// Two node scans are equivalent when they agree on the subject and marker
/// and collect the same properties and errors as multisets.
pub open spec fn acc_equiv(a: crate::model::NodeAcc, b: crate::model::NodeAcc) -> bool {
    &&& a.subject == b.subject
    &&& a.marker == b.marker
    &&& a.ambiguous == b.ambiguous
    &&& a.props.to_multiset() == b.props.to_multiset()
    &&& a.errs.to_multiset() == b.errs.to_multiset()
}

/// The node scan reads only the first `i` attributes.
proof fn lemma_scan_prefix(
    pm: PrefixMapV,
    a1: Seq<(Seq<char>, Seq<char>)>,
    a2: Seq<(Seq<char>, Seq<char>)>,
    i: int,
)
    requires
        forall|l: int| 0 <= l < i ==> a1[l] == a2[l],
    ensures
        scan_node_attrs(pm, a1, i) == scan_node_attrs(pm, a2, i),
    decreases i,
{
    if i > 0 {
        lemma_scan_prefix(pm, a1, a2, i - 1);
    }
}

/// One scan step applied to equivalent accumulators keeps them equivalent.
proof fn lemma_step_equiv(
    pm: PrefixMapV,
    a: crate::model::NodeAcc,
    b: crate::model::NodeAcc,
    k: Seq<char>,
    v: Seq<char>,
)
    requires
        acc_equiv(a, b),
    ensures
        acc_equiv(
            crate::model::node_attr_step(pm, a, k, v),
            crate::model::node_attr_step(pm, b, k, v),
        ),
{
    broadcast use vstd::seq_lib::group_to_multiset_ensures;

}

/// The attribute-order half of multiset equivalence, lifted to an attribute
/// list: swapping two adjacent attributes that do not mark the subject
/// leaves the whole node scan equivalent, so the element contributes the
/// same subject and the same multiset of property triples and errors.
pub proof fn lemma_scan_transposition(
    pm: PrefixMapV,
    attrs: Seq<(Seq<char>, Seq<char>)>,
    swapped: Seq<(Seq<char>, Seq<char>)>,
    j: int,
    i: int,
)
    requires
        0 <= j,
        j + 2 <= attrs.len(),
        attrs.len() == swapped.len(),
        swapped[j] == attrs[j + 1],
        swapped[j + 1] == attrs[j],
        forall|l: int| 0 <= l < attrs.len() && l != j && l != j + 1 ==> swapped[l] == attrs[l],
        plain_node_attr(pm, attrs[j].0),
        plain_node_attr(pm, attrs[j + 1].0),
        j + 2 <= i <= attrs.len(),
    ensures
        acc_equiv(scan_node_attrs(pm, attrs, i), scan_node_attrs(pm, swapped, i)),
    decreases i,
{
    broadcast use vstd::seq_lib::group_to_multiset_ensures;

    if i == j + 2 {
        lemma_scan_prefix(pm, attrs, swapped, j);
        let base = scan_node_attrs(pm, attrs, j);
        lemma_node_attr_swap(pm, base, attrs[j].0, attrs[j].1, attrs[j + 1].0, attrs[j + 1].1);
        assert(scan_node_attrs(pm, attrs, j + 1) == crate::model::node_attr_step(
            pm,
            base,
            attrs[j].0,
            attrs[j].1,
        ));
        assert(scan_node_attrs(pm, swapped, j + 1) == crate::model::node_attr_step(
            pm,
            base,
            attrs[j + 1].0,
            attrs[j + 1].1,
        ));
    } else {
        lemma_scan_transposition(pm, attrs, swapped, j, i - 1);
        assert(swapped[i - 1] == attrs[i - 1]);
        lemma_step_equiv(
            pm,
            scan_node_attrs(pm, attrs, i - 1),
            scan_node_attrs(pm, swapped, i - 1),
            attrs[i - 1].0,
            attrs[i - 1].1,
        );
    }
}

/// Multiset-equal error lists contribute multiset-equal queue entries.
proof fn lemma_err_entries_multiset(a: Seq<ErrV>, b: Seq<ErrV>)
    requires
        a.to_multiset() == b.to_multiset(),
    ensures
        crate::model::err_entries(a).to_multiset() == crate::model::err_entries(b).to_multiset(),
    decreases a.len(),
{
    broadcast use {
        vstd::seq_lib::group_to_multiset_ensures,
        vstd::multiset::group_multiset_axioms,
        crate::seqmaps::lemma_map_values_push,
        crate::seqmaps::lemma_map_values_remove,
        crate::seqmaps::lemma_map_values_index,
    };

    a.to_multiset_ensures();
    b.to_multiset_ensures();
    if a.len() == 0 {
        assert(crate::model::err_entries(a).to_multiset() =~= crate::model::err_entries(
            b,
        ).to_multiset());
    } else {
        let x = a.last();
        assert(a.contains(x));
        assert(b.to_multiset().count(x) >= 1);
        assert(b.contains(x));
        b.index_of_first_ensures(x);
        let k = b.index_of_first(x).unwrap();
        assert(a =~= a.drop_last().push(x));
        assert(a.to_multiset() == a.drop_last().to_multiset().insert(x));
        assert(b.remove(k).to_multiset() == b.to_multiset().remove(x));
        assert(a.drop_last().to_multiset() =~= b.remove(k).to_multiset());
        lemma_err_entries_multiset(a.drop_last(), b.remove(k));
        assert(crate::model::err_entries(a) == crate::model::err_entries(
            a.drop_last().push(x),
        ));
        assert(crate::model::err_entries(a.drop_last().push(x)) == crate::model::err_entries(
            a.drop_last(),
        ).push(Err(x)));
        assert(crate::model::err_entries(a).to_multiset() == crate::model::err_entries(
            a.drop_last(),
        ).to_multiset().insert(Err(x)));
        assert(crate::model::err_entries(b.remove(k)) == crate::model::err_entries(b).remove(k));
        assert(crate::model::err_entries(b)[k] == Err::<TripleV, ErrV>(b[k]));
        assert(crate::model::err_entries(b).remove(k).to_multiset() == crate::model::err_entries(
            b,
        ).to_multiset().remove(Err(x)));
        assert(crate::model::err_entries(b).contains(Err::<TripleV, ErrV>(x)));
        assert(crate::model::err_entries(b).to_multiset().count(Err::<TripleV, ErrV>(x)) >= 1);
        assert(crate::model::err_entries(a).to_multiset() =~= crate::model::err_entries(
            b,
        ).to_multiset());
    }
}

/// Multiset-equal property lists about one subject contribute multiset-equal
/// queue entries.
proof fn lemma_prop_entries_multiset(
    subject: TermV,
    a: Seq<(TermV, Seq<char>)>,
    b: Seq<(TermV, Seq<char>)>,
)
    requires
        a.to_multiset() == b.to_multiset(),
    ensures
        crate::model::prop_entries(subject, a).to_multiset() == crate::model::prop_entries(
            subject,
            b,
        ).to_multiset(),
    decreases a.len(),
{
    broadcast use {
        vstd::seq_lib::group_to_multiset_ensures,
        vstd::multiset::group_multiset_axioms,
        crate::seqmaps::lemma_map_values_push,
        crate::seqmaps::lemma_map_values_remove,
        crate::seqmaps::lemma_map_values_index,
    };

    a.to_multiset_ensures();
    b.to_multiset_ensures();
    if a.len() == 0 {
        assert(crate::model::prop_entries(subject, a).to_multiset()
            =~= crate::model::prop_entries(subject, b).to_multiset());
    } else {
        let x = a.last();
        assert(a.contains(x));
        assert(b.to_multiset().count(x) >= 1);
        assert(b.contains(x));
        b.index_of_first_ensures(x);
        let k = b.index_of_first(x).unwrap();
        assert(a =~= a.drop_last().push(x));
        assert(a.to_multiset() == a.drop_last().to_multiset().insert(x));
        assert(b.remove(k).to_multiset() == b.to_multiset().remove(x));
        assert(a.drop_last().to_multiset() =~= b.remove(k).to_multiset());
        lemma_prop_entries_multiset(subject, a.drop_last(), b.remove(k));
        assert(crate::model::prop_entries(subject, a) == crate::model::prop_entries(
            subject,
            a.drop_last().push(x),
        ));
        assert(crate::model::prop_entries(subject, a.drop_last().push(x))
            == crate::model::prop_entries(subject, a.drop_last()).push(
            crate::model::prop_entry(subject, x),
        ));
        assert(crate::model::prop_entries(subject, a).to_multiset()
            == crate::model::prop_entries(subject, a.drop_last()).to_multiset().insert(
            crate::model::prop_entry(subject, x),
        ));
        assert(crate::model::prop_entries(subject, b.remove(k)) == crate::model::prop_entries(
            subject,
            b,
        ).remove(k));
        assert(crate::model::prop_entries(subject, b)[k] == crate::model::prop_entry(
            subject,
            b[k],
        ));
        assert(crate::model::prop_entries(subject, b).remove(k).to_multiset()
            == crate::model::prop_entries(subject, b).to_multiset().remove(
            crate::model::prop_entry(subject, x),
        ));
        assert(crate::model::prop_entries(subject, b).contains(
            crate::model::prop_entry(subject, x),
        ));
        assert(crate::model::prop_entries(subject, b).to_multiset().count(
            crate::model::prop_entry(subject, x),
        ) >= 1);
        assert(crate::model::prop_entries(subject, a).to_multiset()
            =~= crate::model::prop_entries(subject, b).to_multiset());
    }
}

/// The attribute-order law at the level of a whole node element: swapping
/// two adjacent attributes that do not mark the subject leaves the element's
/// subject and counter unchanged and its queue entries equal as a multiset.
pub proof fn lemma_node_entries_transposition(
    s: StateV,
    name: Seq<char>,
    attrs: Seq<(Seq<char>, Seq<char>)>,
    swapped: Seq<(Seq<char>, Seq<char>)>,
    j: int,
)
    requires
        wf_state(s),
        0 <= j,
        j + 2 <= attrs.len(),
        attrs.len() == swapped.len(),
        swapped[j] == attrs[j + 1],
        swapped[j + 1] == attrs[j],
        forall|l: int| 0 <= l < attrs.len() && l != j && l != j + 1 ==> swapped[l] == attrs[l],
        plain_node_attr(s.namespaces.last(), attrs[j].0),
        plain_node_attr(s.namespaces.last(), attrs[j + 1].0),
    ensures
        node_entries(s, name, attrs).1 == node_entries(s, name, swapped).1,
        node_entries(s, name, attrs).2 == node_entries(s, name, swapped).2,
        node_entries(s, name, attrs).0.to_multiset() == node_entries(
            s,
            name,
            swapped,
        ).0.to_multiset(),
{
    broadcast use {
        vstd::seq_lib::group_to_multiset_ensures,
        vstd::seq_lib::lemma_multiset_commutative,
        vstd::multiset::group_multiset_axioms,
    };

    let pm = s.namespaces.last();
    lemma_scan_transposition(pm, attrs, swapped, j, attrs.len() as int);
    let acc1 = scan_node_attrs(pm, attrs, attrs.len() as int);
    let acc2 = scan_node_attrs(pm, swapped, swapped.len() as int);
    lemma_err_entries_multiset(acc1.errs, acc2.errs);
    let errs1 = crate::model::err_entries(acc1.errs);
    let errs2 = crate::model::err_entries(acc2.errs);
    if !acc1.ambiguous {
        let subject = node_entries(s, name, attrs).1;
        lemma_prop_entries_multiset(subject, acc1.props, acc2.props);
        let ty = type_entries(pm, name, subject);
        let props1 = crate::model::prop_entries(subject, acc1.props);
        let props2 = crate::model::prop_entries(subject, acc2.props);
        let link: Seq<Result<TripleV, ErrV>> = if s.parents.len() >= 2 {
            seq![
                Ok::<TripleV, ErrV>(
                    TripleV {
                        s: s.parents[s.parents.len() - 2],
                        p: s.parents[s.parents.len() - 1],
                        o: subject,
                    },
                ),
            ]
        } else {
            Seq::empty()
        };
        assert(node_entries(s, name, attrs).0 == errs1 + ty + props1 + link);
        assert(node_entries(s, name, swapped).0 == errs2 + ty + props2 + link);
        assert((errs1 + ty + props1 + link).to_multiset() == errs1.to_multiset().add(
            ty.to_multiset(),
        ).add(props1.to_multiset()).add(link.to_multiset()));
        assert((errs2 + ty + props2 + link).to_multiset() == errs2.to_multiset().add(
            ty.to_multiset(),
        ).add(props2.to_multiset()).add(link.to_multiset()));
    }
}

/// Character data outside predicate content changes nothing: a text event
/// inside a node element, or with no active accumulator, leaves the state
/// unchanged.  This is the whitespace half of the event-reordering law:
/// insignificant whitespace between elements cannot affect the emitted
/// triples.
pub proof fn lemma_text_ignored_outside_predicate(s: StateV, content: Seq<char>)
    requires
        s.in_node || s.text is None,
    ensures
        step(s, EventV::Text { content }) == s,
{
    if !s.in_node {
        assert(text_step(s, content) == s);
    }
}

/// The empty document: the event stream of `<rdf:RDF/>` produces no triples
/// and no errors.
pub proof fn lemma_empty_document()
    ensures
        doc_results(
            seq![EventV::Empty { name: "rdf:RDF"@, attrs: Seq::<(Seq<char>, Seq<char>)>::empty() }],
        ) == Seq::<Result<TripleV, ErrV>>::empty(),
{
    let ev = EventV::Empty {
        name: "rdf:RDF"@,
        attrs: Seq::<(Seq<char>, Seq<char>)>::empty(),
    };
    let evs = seq![ev];
    assert(evs.drop_last() =~= Seq::<EventV>::empty());
    assert(evs.drop_last().len() == 0);
    assert(run(init_state(), evs.drop_last()) == init_state());
    assert(evs.last() == ev);
    assert(run(init_state(), evs) == step(init_state(), ev));
    let s0 = init_state();
    let s1 = enter_scope_v(s0, Seq::empty());
    assert(s1.queue =~= Seq::<Result<TripleV, ErrV>>::empty());
    let s2 = leave_scope_v(s1);
    assert(s2.namespaces =~= s0.namespaces);
    assert(step(s0, ev).queue =~= Seq::<Result<TripleV, ErrV>>::empty());
    assert(step(s0, ev).namespaces.len() == 1);
    assert(step(s0, ev).parents.len() == 0);
}

} // verus!
