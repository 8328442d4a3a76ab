//! The prefix mapping: a table from short prefix strings to namespaces, plus
//! an optional default namespace, against which CURIEs (`prefix:local`) are
//! expanded to IRI terms.
//!
//! The reserved prefix `_` can never be registered.  A freshly constructed
//! mapping is seeded with `xml`.

use vstd::prelude::*;
use vstd::pervasive::VecAdditionalExecFns;
use crate::errors::ErrV;
use crate::errors::RdfError;
use crate::ns::Namespace;
use crate::strutil::find_char;
use crate::strutil::first_at;
use crate::strutil::str_eq;
use crate::term::Term;
use crate::term::TermV;
use crate::validate::iri_ref_ok;

verus! {

/// Mathematical model of a prefix mapping.
pub ghost struct PrefixMapV {
    /// Bindings from prefix to namespace text.
    pub map: Map<Seq<char>, Seq<char>>,
    /// The default namespace, used for names without a colon.
    pub default_ns: Option<Seq<char>>,
}

/// The map denoted by an association list; later entries would win, but
/// well-formed mappings keep their keys unique.
pub open spec fn alist_map(s: Seq<(String, Namespace)>) -> Map<Seq<char>, Seq<char>>
    decreases s.len(),
{
    if s.len() == 0 {
        Map::empty()
    } else {
        alist_map(s.drop_last()).insert(s.last().0@, s.last().1@)
    }
}

/// The view of an exec `Result` over terms.
pub open spec fn term_result_v(r: Result<Term, RdfError>) -> Result<TermV, ErrV> {
    match r {
        Ok(t) => Ok(t@),
        Err(e) => Err(e@),
    }
}

/// Expansion of an already-split CURIE against a mapping.
pub open spec fn expand_curie_v(pm: PrefixMapV, prefix: Seq<char>, local: Seq<char>) -> Result<
    TermV,
    ErrV,
> {
    if pm.map.contains_key(prefix) {
        let full = pm.map[prefix] + local;
        if iri_ref_ok(full) {
            Ok(TermV::Iri(full))
        } else {
            Err(ErrV::InvalidIri(full))
        }
    } else {
        Err(ErrV::UnknownPrefix(prefix))
    }
}

/// Expansion of a full CURIE string: split at the first colon; a name
/// without a colon resolves against the default namespace, or fails with
/// `MissingPrefix` when none is set.
pub open spec fn expand_curie_string_v(pm: PrefixMapV, s: Seq<char>) -> Result<TermV, ErrV> {
    match first_at(s, ':') {
        Some(i) => expand_curie_v(pm, s.subrange(0, i), s.subrange(i + 1, s.len() as int)),
        None => match pm.default_ns {
            Some(d) => if iri_ref_ok(d + s) {
                Ok(TermV::Iri(d + s))
            } else {
                Err(ErrV::InvalidIri(d + s))
            },
            None => Err(ErrV::MissingPrefix(s)),
        },
    }
}

/// A mapping from prefix strings to namespaces, with an optional default
/// namespace.
pub struct PrefixMapping {
    entries: Vec<(String, Namespace)>,
    default_ns: Option<Namespace>,
}

impl View for PrefixMapping {
    type V = PrefixMapV;

    closed spec fn view(&self) -> PrefixMapV {
        PrefixMapV {
            map: alist_map(self.entries@),
            default_ns: match self.default_ns {
                Some(ref ns) => Some(ns@),
                None => None,
            },
        }
    }
}

/// Keys of the association list are pairwise distinct.
pub open spec fn unique_keys(s: Seq<(String, Namespace)>) -> bool {
    forall|i: int, j: int| 0 <= i < j < s.len() ==> s[i].0@ != s[j].0@
}

/// A well-formed association list contains a key exactly when its map does,
/// and the map agrees with each entry.
pub proof fn lemma_alist_entry(s: Seq<(String, Namespace)>, i: int)
    requires
        unique_keys(s),
        0 <= i < s.len(),
    ensures
        alist_map(s).contains_key(s[i].0@),
        alist_map(s)[s[i].0@] == s[i].1@,
    decreases s.len(),
{
    if i == s.len() - 1 {
    } else {
        assert(s.drop_last()[i] == s[i]);
        lemma_alist_entry(s.drop_last(), i);
    }
}

/// A key missing from every entry is missing from the map.
pub proof fn lemma_alist_missing(s: Seq<(String, Namespace)>, k: Seq<char>)
    requires
        forall|i: int| 0 <= i < s.len() ==> s[i].0@ != k,
    ensures
        !alist_map(s).contains_key(k),
    decreases s.len(),
{
    if s.len() > 0 {
        assert(forall|i: int| 0 <= i < s.drop_last().len() ==> s.drop_last()[i].0@ != k);
        lemma_alist_missing(s.drop_last(), k);
    }
}

/// Updating the entry that holds key `k` updates the map at `k`.
pub proof fn lemma_alist_update(
    s: Seq<(String, Namespace)>,
    i: int,
    p: (String, Namespace),
)
    requires
        unique_keys(s),
        0 <= i < s.len(),
        p.0@ == s[i].0@,
    ensures
        alist_map(s.update(i, p)) == alist_map(s).insert(p.0@, p.1@),
        unique_keys(s.update(i, p)),
    decreases s.len(),
{
    let t = s.update(i, p);
    if i == s.len() - 1 {
        assert(t.drop_last() =~= s.drop_last());
        assert(alist_map(t) =~= alist_map(s).insert(p.0@, p.1@));
    } else {
        assert(t.drop_last() =~= s.drop_last().update(i, p));
        assert(s.drop_last()[i] == s[i]);
        lemma_alist_update(s.drop_last(), i, p);
        assert(t.last() == s.last());
        assert(s.last().0@ != p.0@);
        assert(alist_map(t) == alist_map(s.drop_last()).insert(p.0@, p.1@).insert(
            s.last().0@,
            s.last().1@,
        ));
        assert(alist_map(s.drop_last()).insert(p.0@, p.1@).insert(s.last().0@, s.last().1@)
            =~= alist_map(s).insert(p.0@, p.1@));
    }
}

/// Appending a fresh key inserts it into the map.
pub proof fn lemma_alist_push(s: Seq<(String, Namespace)>, p: (String, Namespace))
    requires
        unique_keys(s),
        forall|i: int| 0 <= i < s.len() ==> s[i].0@ != p.0@,
    ensures
        alist_map(s.push(p)) == alist_map(s).insert(p.0@, p.1@),
        unique_keys(s.push(p)),
{
    assert(s.push(p).drop_last() =~= s);
    assert(alist_map(s.push(p)) =~= alist_map(s).insert(p.0@, p.1@));
}

impl PrefixMapping {
    /// Well-formedness: prefix keys are unique, so the association list and
    /// its map agree entry by entry.
    pub closed spec fn wf(&self) -> bool {
        unique_keys(self.entries@)
    }

    /// The empty mapping, with no default namespace and no bindings.
    fn empty() -> (r: PrefixMapping)
        ensures
            r.wf(),
            r@.map == Map::<Seq<char>, Seq<char>>::empty(),
            r@.default_ns is None,
    {
        PrefixMapping { entries: Vec::new(), default_ns: None }
    }

    /// Looks up a prefix.
    fn lookup(&self, prefix: &str) -> (r: Option<&Namespace>)
        requires
            self.wf(),
        ensures
            r matches Some(ns) ==> self@.map.contains_key(prefix@) && ns@ == self@.map[prefix@],
            r is None ==> !self@.map.contains_key(prefix@),
    {
        let n = self.entries.len();
        let mut i: usize = 0;
        while i < n
            invariant
                self.wf(),
                0 <= i <= n,
                n == self.entries@.len(),
                forall|j: int| 0 <= j < i ==> self.entries@[j].0@ != prefix@,
            decreases n - i,
        {
            if str_eq(self.entries[i].0.as_str(), prefix) {
                proof {
                    lemma_alist_entry(self.entries@, i as int);
                }
                return Some(&self.entries[i].1);
            }
            i = i + 1;
        }
        proof {
            lemma_alist_missing(self.entries@, prefix@);
        }
        None
    }

    /// Inserts or overwrites a binding.  Binding the reserved prefix `_`
    /// fails, as does an invalid namespace IRI; the mapping is unchanged on
    /// failure.
    #[verifier::loop_isolation(false)]
    pub fn add_prefix(&mut self, prefix: &str, value: &str) -> (r: Result<(), RdfError>)
        requires
            old(self).wf(),
        ensures
            final(self).wf(),
            prefix@ == "_"@ ==> (r matches Err(e) && e@ == ErrV::ReservedPrefix && *final(self)
                == *old(self)),
            prefix@ != "_"@ && !iri_ref_ok(value@) ==> (r matches Err(e) && e@
                == ErrV::InvalidIri(value@) && *final(self) == *old(self)),
            prefix@ != "_"@ && iri_ref_ok(value@) ==> r is Ok
                && final(self)@.map == old(self)@.map.insert(prefix@, value@)
                && final(self)@.default_ns == old(self)@.default_ns,
    {
        if str_eq(prefix, "_") {
            return Err(RdfError::ReservedPrefix);
        }
        let ns = match Namespace::new(value) {
            Ok(ns) => ns,
            Err(e) => {
                return Err(e);
            },
        };
        let n = self.entries.len();
        let mut i: usize = 0;
        while i < n
            invariant
                *self == *old(self),
                self.wf(),
                0 <= i <= n,
                n == self.entries@.len(),
                forall|j: int| 0 <= j < i ==> self.entries@[j].0@ != prefix@,
            decreases n - i,
        {
            if str_eq(self.entries[i].0.as_str(), prefix) {
                let p = (String::from_str(prefix), ns);
                proof {
                    lemma_alist_update(self.entries@, i as int, p);
                }
                self.entries.set(i, p);
                return Ok(());
            }
            i = i + 1;
        }
        let p = (String::from_str(prefix), ns);
        proof {
            lemma_alist_push(self.entries@, p);
        }
        self.entries.push(p);
        Ok(())
    }

    /// Sets the default namespace, used for names without a colon.
    pub fn set_default(&mut self, value: &str) -> (r: Result<(), RdfError>)
        requires
            old(self).wf(),
        ensures
            final(self).wf(),
            !iri_ref_ok(value@) ==> (r matches Err(e) && e@ == ErrV::InvalidIri(value@)
                && *final(self) == *old(self)),
            iri_ref_ok(value@) ==> r is Ok && final(self)@.default_ns == Some(value@)
                && final(self)@.map == old(self)@.map,
    {
        match Namespace::new(value) {
            Ok(ns) => {
                self.default_ns = Some(ns);
                Ok(())
            },
            Err(e) => Err(e),
        }
    }

    /// Expands an already-split CURIE.
    pub fn expand_curie(&self, prefix: &str, local: &str) -> (r: Result<Term, RdfError>)
        requires
            self.wf(),
        ensures
            term_result_v(r) == expand_curie_v(self@, prefix@, local@),
    {
        match self.lookup(prefix) {
            Some(ns) => ns.get(local),
            None => Err(RdfError::UnknownPrefix(String::from_str(prefix))),
        }
    }

    /// Expands a CURIE string, splitting it at its first colon.  A name
    /// without a colon resolves against the default namespace, or fails with
    /// `MissingPrefix` when none is set.
    pub fn expand_curie_string(&self, curie_str: &str) -> (r: Result<Term, RdfError>)
        requires
            self.wf(),
        ensures
            term_result_v(r) == expand_curie_string_v(self@, curie_str@),
    {
        match find_char(curie_str, ':') {
            Some(i) => {
                let len = curie_str.unicode_len();
                let prefix = curie_str.substring_char(0, i);
                let local = curie_str.substring_char(i + 1, len);
                self.expand_curie(prefix, local)
            },
            None => match &self.default_ns {
                Some(d) => d.get(curie_str),
                None => Err(RdfError::MissingPrefix(String::from_str(curie_str))),
            },
        }
    }
}

impl Clone for PrefixMapping {
    fn clone(&self) -> (r: Self)
        ensures
            r@ == self@,
            self.wf() ==> r.wf(),
    {
        let mut entries: Vec<(String, Namespace)> = Vec::new();
        let n = self.entries.len();
        let mut i: usize = 0;
        while i < n
            invariant
                0 <= i <= n,
                n == self.entries@.len(),
                entries@ == self.entries@.take(i as int),
            decreases n - i,
        {
            let pair = &self.entries[i];
            entries.push((pair.0.clone(), pair.1.clone()));
            proof {
                assert(entries@ =~= self.entries@.take(i + 1));
            }
            i = i + 1;
        }
        proof {
            assert(entries@ =~= self.entries@);
        }
        let default_ns = match &self.default_ns {
            Some(ns) => Some(ns.clone()),
            None => None,
        };
        PrefixMapping { entries, default_ns }
    }
}

impl Default for PrefixMapping {
    /// A freshly constructed mapping: no default namespace, and the single
    /// binding `xml` to its documented namespace.
    fn default() -> (r: PrefixMapping)
        ensures
            r.wf(),
            r@.map == Map::<Seq<char>, Seq<char>>::empty().insert(
                "xml"@,
                "http://www.w3.org/XML/1998/namespace#"@,
            ),
            r@.default_ns is None,
    {
        let mut entries: Vec<(String, Namespace)> = Vec::new();
        entries.push(
            (
                String::from_str("xml"),
                Namespace(String::from_str("http://www.w3.org/XML/1998/namespace#")),
            ),
        );
        proof {
            assert(entries@.drop_last() =~= Seq::<(String, Namespace)>::empty());
            assert(alist_map(entries@.drop_last()) =~= Map::<Seq<char>, Seq<char>>::empty());
            assert(alist_map(entries@) =~= Map::<Seq<char>, Seq<char>>::empty().insert(
                "xml"@,
                "http://www.w3.org/XML/1998/namespace#"@,
            ));
        }
        PrefixMapping { entries, default_ns: None }
    }
}

} // verus!
