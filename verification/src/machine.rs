//! The event-driven state machine: the executable parser core, proved to
//! follow the mathematical model in [`crate::model`] event by event.

use vstd::prelude::*;
use crate::errors::ErrV;
use crate::errors::RdfError;
use crate::event::XmlEvent;
use crate::event::attrs_v;
use crate::event::events_v;
use crate::model::EventV;
use crate::model::StateV;
use crate::model::TextV;
use crate::model::doc_results;
use crate::model::empty_step;
use crate::model::end_step;
use crate::model::enter_scope_v;
use crate::model::gen_label;
use crate::model::init_state;
use crate::model::leave_scope_v;
use crate::model::node_attr_step;
use crate::model::node_empty_v;
use crate::model::node_entries;
use crate::model::node_start_v;
use crate::model::obj_attr_step;
use crate::model::pred_attr_step;
use crate::model::err_entries;
use crate::model::prop_entry;
use crate::model::prop_entries;
use crate::model::predicate_empty_v;
use crate::model::predicate_end_v;
use crate::model::predicate_start_v;
use crate::model::root_frame;
use crate::model::run;
use crate::model::scan_lang;
use crate::model::scan_node_attrs;
use crate::model::scan_obj_attrs;
use crate::model::scan_pred_attrs;
use crate::model::scan_xmlns;
use crate::model::start_step;
use crate::model::step;
use crate::model::text_step;
use crate::model::wf_state;
use crate::model::xmlns_attr_step;
use crate::prefix::PrefixMapV;
use crate::prefix::PrefixMapping;
use crate::strutil::dec_string;
use crate::strutil::str_eq;
use crate::strutil::str_starts_with;
use crate::term::Iri;
use crate::term::LiteralKind;
use crate::term::Term;
use crate::term::TermV;
use crate::term::Triple;
use crate::term::TripleV;
use crate::validate::check_iri_ref;
use crate::vocab::rdf;
use crate::vocab::xml;
use crate::vocab::xsd;

verus! {

broadcast use {
    vstd::seq::group_seq_axioms,
    vstd::seq_lib::group_seq_lib_default,
    crate::seqmaps::lemma_map_values_index,
    crate::seqmaps::lemma_map_values_push,
    crate::seqmaps::lemma_map_values_concat,
    crate::seqmaps::lemma_map_values_drop_last,
    crate::seqmaps::lemma_map_values_take,
};

/// The view of one queue entry.
pub open spec fn result_v(r: Result<Triple, RdfError>) -> Result<TripleV, ErrV> {
    match r {
        Ok(t) => Ok(t@),
        Err(e) => Err(e@),
    }
}

/// The view of the queue.
pub open spec fn results_v(v: Seq<Result<Triple, RdfError>>) -> Seq<Result<TripleV, ErrV>> {
    v.map_values(|r: Result<Triple, RdfError>| result_v(r))
}

/// The views of the namespace-frame stack.
pub open spec fn pm_views(v: Seq<PrefixMapping>) -> Seq<PrefixMapV> {
    v.map_values(|pm: PrefixMapping| pm@)
}

/// The views of the language-frame stack.
pub open spec fn lang_views(v: Seq<Option<String>>) -> Seq<Option<Seq<char>>> {
    v.map_values(
        |l: Option<String>| match l {
            Some(s) => Some(s@),
            None => None,
        },
    )
}

/// The views of the parents stack.
pub open spec fn term_views(v: Seq<Term>) -> Seq<TermV> {
    v.map_values(|t: Term| t@)
}

/// The view of the optional datatype.
pub open spec fn opt_iri_v(o: Option<Iri>) -> Option<Seq<char>> {
    match o {
        Some(i) => Some(i@),
        None => None,
    }
}

/// The view of the optional subject.
pub open spec fn opt_term_v(o: Option<Term>) -> Option<TermV> {
    match o {
        Some(t) => Some(t@),
        None => None,
    }
}

/// The views of collected property attributes.
pub open spec fn props_v(v: Seq<(Term, String)>) -> Seq<(TermV, Seq<char>)> {
    v.map_values(|p: (Term, String)| (p.0@, p.1@))
}

/// An RDF/XML parser core: the per-document state, driven by plain XML
/// events, producing triples and errors into a queue.
pub struct ParserCore {
    namespaces: Vec<PrefixMapping>,
    lang: Vec<Option<String>>,
    parents: Vec<Term>,
    triples: Vec<Result<Triple, RdfError>>,
    in_node: bool,
    bnodes: u64,
    text_active: bool,
    text_dt: Option<Iri>,
    text_buf: String,
}

impl View for ParserCore {
    type V = StateV;

    closed spec fn view(&self) -> StateV {
        StateV {
            namespaces: pm_views(self.namespaces@),
            lang: lang_views(self.lang@),
            parents: term_views(self.parents@),
            queue: results_v(self.triples@),
            in_node: self.in_node,
            bnodes: self.bnodes as nat,
            text: if self.text_active {
                Some(TextV { datatype: opt_iri_v(self.text_dt), text: self.text_buf@ })
            } else {
                None
            },
        }
    }
}

impl ParserCore {
    /// Structural well-formedness: the scope stacks are aligned and nonempty
    /// and every namespace frame keeps its prefix keys unique.
    pub closed spec fn wf(&self) -> bool {
        &&& self.namespaces@.len() == self.lang@.len()
        &&& self.namespaces@.len() >= 1
        &&& forall|i: int|
            0 <= i < self.namespaces@.len() ==> (#[trigger] self.namespaces@[i]).wf()
    }

    /// A well-formed core presents a well-formed state.
    pub proof fn lemma_wf_state(&self)
        requires
            self.wf(),
        ensures
            wf_state(self@),
    {
    }

    /// A fresh core, in the initial state.
    pub fn new() -> (r: ParserCore)
        ensures
            r.wf(),
            r@ == init_state(),
    {
        let mut namespaces: Vec<PrefixMapping> = Vec::new();
        namespaces.push(PrefixMapping::default());
        let mut lang: Vec<Option<String>> = Vec::new();
        lang.push(None);
        let r = ParserCore {
            namespaces,
            lang,
            parents: Vec::new(),
            triples: Vec::new(),
            in_node: false,
            bnodes: 0,
            text_active: false,
            text_dt: None,
            text_buf: String::new(),
        };
        proof {
            assert(r.namespaces@[0]@ == root_frame());
            assert(pm_views(r.namespaces@) =~= seq![root_frame()]);
            assert(lang_views(r.lang@) =~= seq![Option::<Seq<char>>::None]);
            assert(term_views(r.parents@) =~= Seq::<TermV>::empty());
            assert(results_v(r.triples@) =~= Seq::<Result<TripleV, ErrV>>::empty());
        }
        r
    }

    /// The number of entries waiting in the queue.
    pub fn queued(&self) -> (r: usize)
        ensures
            r == self@.queue.len(),
    {
        self.triples.len()
    }

    /// Whether the machine is back at document level: no open element frame
    /// and no pending parent.
    pub fn at_root(&self) -> (r: bool)
        ensures
            r == (self@.namespaces.len() == 1 && self@.parents.len() == 0),
    {
        self.namespaces.len() == 1 && self.parents.len() == 0
    }

    /// Dequeues the oldest entry, if any.
    pub fn pop_entry(&mut self) -> (r: Option<Result<Triple, RdfError>>)
        ensures
            old(self)@.queue.len() == 0 ==> r is None && *final(self) == *old(self),
            old(self)@.queue.len() > 0 ==> (r matches Some(e) && result_v(e) == old(
                self,
            )@.queue.first() && final(self)@ == StateV {
                queue: old(self)@.queue.drop_first(),
                ..old(self)@
            }),
            final(self).wf() == old(self).wf(),
    {
        if self.triples.len() == 0 {
            None
        } else {
            let e = self.triples.remove(0);
            proof {
                assert(results_v(self.triples@) =~= results_v(old(self).triples@).drop_first());
            }
            Some(e)
        }
    }

    /// Enters an element's scope: pushes the new namespace and language
    /// frames derived from the attributes and resets the text accumulator.
    #[verifier::loop_isolation(false)]
    fn enter_scope(&mut self, attrs: &Vec<(String, String)>)
        requires
            old(self).wf(),
        ensures
            final(self).wf(),
            final(self)@ == enter_scope_v(old(self)@, attrs_v(attrs@)),
    {
        let ghost s0 = old(self)@;
        let ghost av = attrs_v(attrs@);
        let ghost pm0 = s0.namespaces.last();
        let top = self.namespaces.len() - 1;
        proof {
            assert(self.namespaces@[top as int]@ == pm0);
        }
        let mut pm = self.namespaces[top].clone();
        let mut out: Vec<Result<Triple, RdfError>> = Vec::new();
        let n = attrs.len();
        let mut i: usize = 0;
        proof {
            reveal_strlit("xmlns:");
        }
        while i < n
            invariant
                *self == *old(self),
                0 <= i <= n,
                n == attrs@.len(),
                pm.wf(),
                pm@ == scan_xmlns(pm0, av, i as int).pm,
                results_v(out@) == err_entries(scan_xmlns(pm0, av, i as int).errs),
            decreases n - i,
        {
            let ghost prev = scan_xmlns(pm0, av, i as int);
            proof {
                assert(av[i as int] == (attrs@[i as int].0@, attrs@[i as int].1@));
                assert(scan_xmlns(pm0, av, i + 1) == xmlns_attr_step(
                    prev,
                    av[i as int].0,
                    av[i as int].1,
                ));
            }
            let pair = &attrs[i];
            let k = pair.0.as_str();
            let v = pair.1.as_str();
            if str_starts_with(k, "xmlns:") {
                let klen = k.unicode_len();
                let p = k.substring_char(6, klen);
                proof {
                    assert(p@ =~= k@.skip(6));
                }
                match pm.add_prefix(p, v) {
                    Ok(()) => {},
                    Err(e) => {
                        out.push(Err(e));
                    },
                }
            } else if str_eq(k, "xmlns") {
                match pm.set_default(v) {
                    Ok(()) => {},
                    Err(e) => {
                        out.push(Err(e));
                    },
                }
            }
            proof {
                let acc1 = scan_xmlns(pm0, av, i + 1);
                assert(acc1 == xmlns_attr_step(prev, av[i as int].0, av[i as int].1));
                assert(results_v(out@).len() == out@.len());
                assert(err_entries(acc1.errs).len() == acc1.errs.len());
                assert(out@.len() == acc1.errs.len());
                assert forall|j: int| 0 <= j < out@.len() implies results_v(out@)[j]
                    == err_entries(acc1.errs)[j] by {
                    assert(results_v(out@)[j] == result_v(out@[j]));
                    assert(err_entries(acc1.errs)[j] == Err::<TripleV, ErrV>(acc1.errs[j]));
                }
                assert(results_v(out@) =~= err_entries(acc1.errs));
            }
            i = i + 1;
        }
        let lt = self.lang.len() - 1;
        let mut lng: Option<String> = match &self.lang[lt] {
            Some(s) => Some(s.clone()),
            None => None,
        };
        proof {
            assert(lang_views(self.lang@)[lt as int] == s0.lang.last());
        }
        let mut i2: usize = 0;
        while i2 < n
            invariant
                *self == *old(self),
                0 <= i2 <= n,
                n == attrs@.len(),
                (match lng {
                    Some(ref s) => Some(s@),
                    None => None,
                }) == scan_lang(s0.lang.last(), av, i2 as int),
            decreases n - i2,
        {
            proof {
                assert(av[i2 as int] == (attrs@[i2 as int].0@, attrs@[i2 as int].1@));
            }
            let pair = &attrs[i2];
            if str_eq(pair.0.as_str(), "xml:lang") {
                if pair.1.as_str().unicode_len() == 0 {
                    lng = None;
                } else {
                    lng = Some(pair.1.clone());
                }
            }
            i2 = i2 + 1;
        }
        self.namespaces.push(pm);
        self.lang.push(lng);
        self.text_active = false;
        self.text_dt = None;
        self.triples.append(&mut out);
        proof {
            let target = enter_scope_v(s0, av);
            assert(pm_views(self.namespaces@) =~= target.namespaces);
            assert(lang_views(self.lang@) =~= target.lang);
            assert(results_v(self.triples@) =~= target.queue);
            assert(self@ == target);
        }
    }

    /// Leaves an element's scope: pops one frame from each stack (the root
    /// frames always stay) and resets the text accumulator.
    fn leave_scope(&mut self)
        requires
            old(self).wf(),
        ensures
            final(self).wf(),
            final(self)@ == leave_scope_v(old(self)@),
    {
        if self.namespaces.len() >= 2 {
            self.namespaces.pop();
        }
        if self.lang.len() >= 2 {
            self.lang.pop();
        }
        self.text_active = false;
        self.text_dt = None;
        proof {
            let target = leave_scope_v(old(self)@);
            assert(pm_views(self.namespaces@) =~= target.namespaces);
            assert(lang_views(self.lang@) =~= target.lang);
            assert(self@ == target);
        }
    }

    /// Reads a node element: determines the subject, emits the `rdf:type`
    /// triple unless the element is `rdf:Description`, one triple per
    /// property attribute, and the link from the enclosing subject and
    /// predicate.  With `push_parent` the subject stays on the stack.
    #[verifier::loop_isolation(false)]
    #[verifier::rlimit(30)]
    fn node_apply(&mut self, name: &String, attrs: &Vec<(String, String)>, push_parent: bool)
        requires
            old(self).wf(),
        ensures
            final(self).wf(),
            push_parent ==> final(self)@ == node_start_v(old(self)@, name@, attrs_v(attrs@)),
            !push_parent ==> final(self)@ == node_empty_v(old(self)@, name@, attrs_v(attrs@)),
    {
        let ghost s0 = old(self)@;
        let ghost av = attrs_v(attrs@);
        let ghost pm0 = s0.namespaces.last();
        let top = self.namespaces.len() - 1;
        proof {
            assert(self.namespaces@[top as int]@ == pm0);
            assert(self.namespaces@[top as int].wf());
        }
        let mut subject: Option<Term> = None;
        let mut marker = false;
        let mut ambiguous = false;
        let mut props: Vec<(Term, String)> = Vec::new();
        let mut out: Vec<Result<Triple, RdfError>> = Vec::new();
        let n = attrs.len();
        let mut i: usize = 0;
        while i < n
            invariant
                *self == *old(self),
                0 <= i <= n,
                n == attrs@.len(),
                opt_term_v(subject) == scan_node_attrs(pm0, av, i as int).subject,
                marker == scan_node_attrs(pm0, av, i as int).marker,
                ambiguous == scan_node_attrs(pm0, av, i as int).ambiguous,
                props_v(props@) == scan_node_attrs(pm0, av, i as int).props,
                results_v(out@) == err_entries(scan_node_attrs(pm0, av, i as int).errs),
            decreases n - i,
        {
            let ghost prev = scan_node_attrs(pm0, av, i as int);
            proof {
                assert(av[i as int] == (attrs@[i as int].0@, attrs@[i as int].1@));
                assert(scan_node_attrs(pm0, av, i + 1) == node_attr_step(
                    pm0,
                    prev,
                    av[i as int].0,
                    av[i as int].1,
                ));
            }
            let pair = &attrs[i];
            let k = pair.0.as_str();
            if str_eq(k, "xmlns") || str_starts_with(k, "xmlns:") {
                // namespace declarations were handled when entering the scope
            } else {
                match self.namespaces[top].expand_curie_string(k) {
                    Err(e) => out.push(Err(e)),
                    Ok(kt) => {
                        if kt == rdf::about() {
                            if marker {
                                ambiguous = true;
                                out.push(Err(RdfError::AmbiguousSubject));
                            } else {
                                marker = true;
                                if check_iri_ref(pair.1.as_str()) {
                                    subject = Some(
                                        Term::Iri(
                                            Iri {
                                                ns: pair.1.clone(),
                                                suffix: None,
                                                absolute: crate::validate::check_abs_iri(
                                                    pair.1.as_str(),
                                                ),
                                            },
                                        ),
                                    );
                                } else {
                                    out.push(Err(RdfError::InvalidIri(pair.1.clone())));
                                }
                            }
                        } else if kt == rdf::id() {
                            if marker {
                                ambiguous = true;
                                out.push(Err(RdfError::AmbiguousSubject));
                            } else {
                                marker = true;
                                out.push(
                                    Err(RdfError::NotImplemented(String::from_str("rdf:ID"))),
                                );
                            }
                        } else if kt == rdf::node_id() {
                            if marker {
                                ambiguous = true;
                                out.push(Err(RdfError::AmbiguousSubject));
                            } else {
                                marker = true;
                                subject = Some(
                                    Term::BlankNode(
                                        String::from_str("o").concat(pair.1.as_str()),
                                    ),
                                );
                            }
                        } else if kt == xml::lang() {
                            // xml:lang was handled when entering the scope
                        } else {
                            props.push((kt, pair.1.clone()));
                        }
                    },
                }
            }
            proof {
                let acc1 = scan_node_attrs(pm0, av, i + 1);
                assert(results_v(out@) =~= err_entries(acc1.errs));
                assert(props_v(props@) =~= acc1.props);
            }
            i = i + 1;
        }
        let ghost acc = scan_node_attrs(pm0, av, av.len() as int);
        let ghost entries = node_entries(s0, name@, av).0;
        let ghost subject_v = node_entries(s0, name@, av).1;
        let ghost bn_v = node_entries(s0, name@, av).2;
        let mut new_bnodes = self.bnodes;
        let subj: Term = match subject {
            Some(t) => t,
            None => {
                let label = String::from_str("n").concat(dec_string(self.bnodes).as_str());
                if new_bnodes < u64::MAX {
                    new_bnodes = new_bnodes + 1;
                }
                proof {
                    assert(label@ == gen_label(s0.bnodes));
                }
                Term::BlankNode(label)
            },
        };
        proof {
            assert(subj@ == subject_v);
            assert(new_bnodes as nat == bn_v);
        }
        if !ambiguous {
            match self.namespaces[top].expand_curie_string(name.as_str()) {
                Err(e) => out.push(Err(e)),
                Ok(ty) => {
                    if !(ty == rdf::description()) {
                        out.push(Ok(Triple { s: subj.clone(), p: rdf::type_(), o: ty }));
                    }
                },
            }
            let ghost pentries = prop_entries(subject_v, acc.props);
            let ghost base = results_v(out@);
            let m = props.len();
            let mut j: usize = 0;
            while j < m
                invariant
                    *self == *old(self),
                    0 <= j <= m,
                    m == props@.len(),
                    props_v(props@) == acc.props,
                    results_v(out@) == base + pentries.take(j as int),
                decreases m - j,
            {
                let pr = &props[j];
                out.push(
                    Ok(
                        Triple {
                            s: subj.clone(),
                            p: pr.0.clone(),
                            o: Term::Literal(
                                pr.1.clone(),
                                LiteralKind::Typed(xsd::string_iri()),
                            ),
                        },
                    ),
                );
                proof {
                    assert(pentries[j as int] == prop_entry(subject_v, acc.props[j as int]));
                    assert(pentries.take(j + 1) =~= pentries.take(j as int).push(
                        pentries[j as int],
                    ));
                    assert(results_v(out@) =~= base + pentries.take(j + 1));
                }
                j = j + 1;
            }
            proof {
                assert(pentries.take(m as int) =~= pentries);
            }
            if self.parents.len() >= 2 {
                let l = self.parents.len();
                out.push(
                    Ok(
                        Triple {
                            s: self.parents[l - 2].clone(),
                            p: self.parents[l - 1].clone(),
                            o: subj.clone(),
                        },
                    ),
                );
                proof {
                    assert(term_views(self.parents@)[l - 2] == s0.parents[s0.parents.len()
                        - 2]);
                    assert(term_views(self.parents@)[l - 1] == s0.parents[s0.parents.len()
                        - 1]);
                }
            }
        }
        proof {
            assert(results_v(out@) =~= entries);
        }
        self.bnodes = new_bnodes;
        if push_parent {
            self.parents.push(subj);
        }
        self.triples.append(&mut out);
        proof {
            assert(results_v(self.triples@) =~= s0.queue + entries);
            if push_parent {
                assert(term_views(self.parents@) =~= s0.parents.push(subject_v));
                assert(self@ == node_start_v(s0, name@, av));
            } else {
                assert(self@ == node_empty_v(s0, name@, av));
            }
        }
    }

    /// Reads a predicate element: resolves and pushes the predicate and
    /// initializes the text accumulator with the optional `rdf:datatype`.
    #[verifier::loop_isolation(false)]
    fn predicate_start(&mut self, name: &String, attrs: &Vec<(String, String)>)
        requires
            old(self).wf(),
        ensures
            final(self).wf(),
            final(self)@ == predicate_start_v(old(self)@, name@, attrs_v(attrs@)),
    {
        let ghost s0 = old(self)@;
        let ghost av = attrs_v(attrs@);
        let ghost pm0 = s0.namespaces.last();
        let top = self.namespaces.len() - 1;
        proof {
            assert(self.namespaces@[top as int]@ == pm0);
            assert(self.namespaces@[top as int].wf());
        }
        let mut out: Vec<Result<Triple, RdfError>> = Vec::new();
        let p_term: Term = match self.namespaces[top].expand_curie_string(name.as_str()) {
            Ok(t) => t,
            Err(e) => {
                out.push(Err(e));
                Term::Iri(Iri { ns: name.clone(), suffix: None, absolute: false })
            },
        };
        let ghost base0 = results_v(out@);
        let mut datatype: Option<Iri> = None;
        let n = attrs.len();
        let mut i: usize = 0;
        while i < n
            invariant
                *self == *old(self),
                0 <= i <= n,
                n == attrs@.len(),
                opt_iri_v(datatype) == scan_pred_attrs(pm0, av, i as int).datatype,
                results_v(out@) == base0 + err_entries(scan_pred_attrs(pm0, av, i as int).errs),
            decreases n - i,
        {
            let ghost prev = scan_pred_attrs(pm0, av, i as int);
            proof {
                assert(av[i as int] == (attrs@[i as int].0@, attrs@[i as int].1@));
                assert(scan_pred_attrs(pm0, av, i + 1) == pred_attr_step(
                    pm0,
                    prev,
                    av[i as int].0,
                    av[i as int].1,
                ));
            }
            let pair = &attrs[i];
            let k = pair.0.as_str();
            if str_eq(k, "xmlns") || str_starts_with(k, "xmlns:") {
                // namespace declarations were handled when entering the scope
            } else {
                match self.namespaces[top].expand_curie_string(k) {
                    Err(e) => out.push(Err(e)),
                    Ok(kt) => {
                        if kt == rdf::datatype() {
                            if check_iri_ref(pair.1.as_str()) {
                                datatype = Some(
                                    Iri {
                                        ns: pair.1.clone(),
                                        suffix: None,
                                        absolute: crate::validate::check_abs_iri(pair.1.as_str()),
                                    },
                                );
                            } else {
                                out.push(Err(RdfError::InvalidIri(pair.1.clone())));
                            }
                        } else if kt == rdf::parse_type() {
                            out.push(
                                Err(
                                    RdfError::NotImplemented(
                                        String::from_str("rdf:parseType"),
                                    ),
                                ),
                            );
                        }
                    },
                }
            }
            proof {
                let acc1 = scan_pred_attrs(pm0, av, i + 1);
                assert(results_v(out@) =~= base0 + err_entries(acc1.errs));
            }
            i = i + 1;
        }
        self.parents.push(p_term);
        self.triples.append(&mut out);
        self.text_active = true;
        self.text_dt = datatype;
        self.text_buf = String::new();
        proof {
            let target = predicate_start_v(s0, name@, av);
            assert(term_views(self.parents@) =~= target.parents);
            assert(results_v(self.triples@) =~= target.queue);
            assert(self@ == target);
        }
    }

    /// A predicate element closes: emit its object literal if character data
    /// was accumulated.  `rdf:datatype` overrides the scoped `xml:lang`;
    /// with neither, the literal is typed `xsd:string`.
    fn predicate_end(&mut self, name: &String)
        requires
            old(self).wf(),
        ensures
            final(self).wf(),
            final(self)@ == predicate_end_v(old(self)@, name@),
    {
        let ghost s0 = old(self)@;
        let top = self.namespaces.len() - 1;
        proof {
            assert(self.namespaces@[top as int]@ == s0.namespaces.last());
            assert(self.namespaces@[top as int].wf());
        }
        let p: Term = match self.namespaces[top].expand_curie_string(name.as_str()) {
            Err(e) => {
                self.triples.push(Err(e));
                proof {
                    assert(results_v(self.triples@) =~= predicate_end_v(s0, name@).queue);
                }
                return ;
            },
            Ok(t) => t,
        };
        if !self.text_active {
            return ;
        }
        let tlen = self.text_buf.as_str().unicode_len();
        if tlen == 0 || self.parents.len() < 2 {
            return ;
        }
        let subj = self.parents[self.parents.len() - 2].clone();
        proof {
            assert(term_views(self.parents@)[self.parents@.len() - 2] == s0.parents[s0.parents.len()
                - 2]);
        }
        let lex = self.text_buf.clone();
        let o: Term = match &self.text_dt {
            Some(dv) => Term::Literal(lex, LiteralKind::Typed(dv.clone())),
            None => {
                let li = self.lang.len() - 1;
                proof {
                    assert(lang_views(self.lang@)[li as int] == s0.lang.last());
                }
                let tagged: Option<Term> = match &self.lang[li] {
                    Some(tag) => match crate::factory::literal_lang(lex.clone(), tag.as_str()) {
                        Ok(t) => Some(t),
                        Err(e) => {
                            self.triples.push(Err(e));
                            None
                        },
                    },
                    None => Some(Term::Literal(lex, LiteralKind::Typed(xsd::string_iri()))),
                };
                match tagged {
                    Some(t) => t,
                    None => {
                        proof {
                            assert(results_v(self.triples@) =~= predicate_end_v(
                                s0,
                                name@,
                            ).queue);
                        }
                        return ;
                    },
                }
            },
        };
        self.triples.push(Ok(Triple { s: subj, p, o }));
        proof {
            assert(results_v(self.triples@) =~= predicate_end_v(s0, name@).queue);
        }
    }

    /// Reads an empty predicate element: the object comes from
    /// `rdf:resource` or `rdf:nodeID`; at most one may be present, and an
    /// empty predicate without either is unsupported.
    #[verifier::loop_isolation(false)]
    fn predicate_empty(&mut self, name: &String, attrs: &Vec<(String, String)>)
        requires
            old(self).wf(),
        ensures
            final(self).wf(),
            final(self)@ == predicate_empty_v(old(self)@, name@, attrs_v(attrs@)),
    {
        let ghost s0 = old(self)@;
        let ghost av = attrs_v(attrs@);
        let ghost pm0 = s0.namespaces.last();
        let top = self.namespaces.len() - 1;
        proof {
            assert(self.namespaces@[top as int]@ == pm0);
            assert(self.namespaces@[top as int].wf());
        }
        let p: Term = match self.namespaces[top].expand_curie_string(name.as_str()) {
            Err(e) => {
                self.triples.push(Err(e));
                proof {
                    assert(results_v(self.triples@) =~= predicate_empty_v(s0, name@, av).queue);
                }
                return ;
            },
            Ok(t) => t,
        };
        let mut object: Option<Term> = None;
        let mut ambiguous = false;
        let mut out: Vec<Result<Triple, RdfError>> = Vec::new();
        let n = attrs.len();
        let mut i: usize = 0;
        while i < n
            invariant
                *self == *old(self),
                0 <= i <= n,
                n == attrs@.len(),
                opt_term_v(object) == scan_obj_attrs(pm0, av, i as int).object,
                ambiguous == scan_obj_attrs(pm0, av, i as int).ambiguous,
                results_v(out@) == err_entries(scan_obj_attrs(pm0, av, i as int).errs),
            decreases n - i,
        {
            let ghost prev = scan_obj_attrs(pm0, av, i as int);
            proof {
                assert(av[i as int] == (attrs@[i as int].0@, attrs@[i as int].1@));
                assert(scan_obj_attrs(pm0, av, i + 1) == obj_attr_step(
                    pm0,
                    prev,
                    av[i as int].0,
                    av[i as int].1,
                ));
            }
            let pair = &attrs[i];
            let k = pair.0.as_str();
            if str_eq(k, "xmlns") || str_starts_with(k, "xmlns:") {
                // namespace declarations were handled when entering the scope
            } else {
                match self.namespaces[top].expand_curie_string(k) {
                    Err(e) => out.push(Err(e)),
                    Ok(kt) => {
                        if kt == rdf::resource() {
                            if object.is_some() {
                                ambiguous = true;
                                out.push(Err(RdfError::AmbiguousObject));
                            } else if check_iri_ref(pair.1.as_str()) {
                                object = Some(
                                    Term::Iri(
                                        Iri {
                                            ns: pair.1.clone(),
                                            suffix: None,
                                            absolute: crate::validate::check_abs_iri(
                                                pair.1.as_str(),
                                            ),
                                        },
                                    ),
                                );
                            } else {
                                out.push(Err(RdfError::InvalidIri(pair.1.clone())));
                            }
                        } else if kt == rdf::node_id() {
                            if object.is_some() {
                                ambiguous = true;
                                out.push(Err(RdfError::AmbiguousObject));
                            } else {
                                object = Some(
                                    Term::BlankNode(
                                        String::from_str("o").concat(pair.1.as_str()),
                                    ),
                                );
                            }
                        }
                    },
                }
            }
            proof {
                let acc1 = scan_obj_attrs(pm0, av, i + 1);
                assert(results_v(out@) =~= err_entries(acc1.errs));
            }
            i = i + 1;
        }
        if !ambiguous {
            match object {
                Some(o) => {
                    if self.parents.len() >= 1 {
                        let subj = self.parents[self.parents.len() - 1].clone();
                        proof {
                            assert(term_views(self.parents@)[self.parents@.len() - 1]
                                == s0.parents.last());
                        }
                        out.push(Ok(Triple { s: subj, p, o }));
                    }
                },
                None => {
                    out.push(
                        Err(
                            RdfError::NotImplemented(
                                String::from_str(
                                    "empty property element without rdf:resource or rdf:nodeID",
                                ),
                            ),
                        ),
                    );
                },
            }
        }
        self.triples.append(&mut out);
        proof {
            assert(results_v(self.triples@) =~= predicate_empty_v(s0, name@, av).queue);
        }
    }

    /// Handles a start tag.
    fn element_start(&mut self, name: &String, attrs: &Vec<(String, String)>)
        requires
            old(self).wf(),
        ensures
            final(self).wf(),
            final(self)@ == start_step(old(self)@, name@, attrs_v(attrs@)),
    {
        self.enter_scope(attrs);
        if !str_eq(name.as_str(), "rdf:RDF") {
            if !self.in_node {
                self.in_node = true;
                self.node_apply(name, attrs, true);
            } else {
                self.in_node = false;
                self.predicate_start(name, attrs);
            }
        }
    }

    /// Handles an end tag.
    fn element_end(&mut self, name: &String)
        requires
            old(self).wf(),
        ensures
            final(self).wf(),
            final(self)@ == end_step(old(self)@, name@),
    {
        if !str_eq(name.as_str(), "rdf:RDF") {
            if !self.in_node {
                self.predicate_end(name);
            }
            self.in_node = !self.in_node;
        }
        self.leave_scope();
        if self.parents.len() >= 1 {
            self.parents.pop();
            proof {
                assert(term_views(self.parents@) =~= term_views(old(self).parents@).drop_last());
            }
        }
    }

    /// Handles character data.
    fn element_text(&mut self, content: &String)
        requires
            old(self).wf(),
        ensures
            final(self).wf(),
            final(self)@ == text_step(old(self)@, content@),
    {
        if !self.in_node && self.text_active {
            self.text_buf.append(content.as_str());
        }
    }

    /// Handles an empty element tag.
    fn element_empty(&mut self, name: &String, attrs: &Vec<(String, String)>)
        requires
            old(self).wf(),
        ensures
            final(self).wf(),
            final(self)@ == empty_step(old(self)@, name@, attrs_v(attrs@)),
    {
        self.enter_scope(attrs);
        if !str_eq(name.as_str(), "rdf:RDF") {
            if !self.in_node {
                self.node_apply(name, attrs, false);
            } else {
                self.predicate_empty(name, attrs);
            }
        }
        self.leave_scope();
    }

    /// Dispatches one XML event to the machine: the new state is exactly
    /// [`step`] of the old state and the event.
    pub fn handle_event(&mut self, ev: &XmlEvent)
        requires
            old(self).wf(),
        ensures
            final(self).wf(),
            final(self)@ == step(old(self)@, ev@),
    {
        match ev {
            XmlEvent::Start { name, attrs } => self.element_start(name, attrs),
            XmlEvent::Empty { name, attrs } => self.element_empty(name, attrs),
            XmlEvent::End { name } => self.element_end(name),
            XmlEvent::Text { content } => self.element_text(content),
        }
    }

    /// Hands out the queue, consuming the core.
    fn take_queue(self) -> (r: Vec<Result<Triple, RdfError>>)
        ensures
            results_v(r@) == self@.queue,
    {
        self.triples
    }
}

/// Runs a whole event sequence from the initial state and returns every
/// produced entry; a stream that ends with open elements gets a trailing
/// `UnexpectedEof` error.
#[verifier::loop_isolation(false)]
pub fn parse_events(events: &Vec<XmlEvent>) -> (r: Vec<Result<Triple, RdfError>>)
    ensures
        results_v(r@) == doc_results(events_v(events@)),
{
    let ghost evs = events_v(events@);
    let mut core = ParserCore::new();
    let n = events.len();
    let mut i: usize = 0;
    proof {
        assert(evs.take(0) =~= Seq::<EventV>::empty());
    }
    while i < n
        invariant
            0 <= i <= n,
            n == events@.len(),
            core.wf(),
            core@ == run(init_state(), evs.take(i as int)),
        decreases n - i,
    {
        proof {
            assert(evs.take(i + 1).drop_last() =~= evs.take(i as int));
            assert(evs.take(i + 1).last() == evs[i as int]);
            assert(evs[i as int] == events@[i as int]@);
        }
        core.handle_event(&events[i]);
        i = i + 1;
    }
    proof {
        assert(evs.take(n as int) =~= evs);
    }
    let open_doc = !core.at_root();
    let mut out = core.take_queue();
    if open_doc {
        out.push(Err(RdfError::UnexpectedEof));
        proof {
            assert(results_v(out@) =~= doc_results(evs));
        }
    } else {
        proof {
            assert(results_v(out@) =~= doc_results(evs));
        }
    }
    out
}

} // verus!
