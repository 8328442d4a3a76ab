//! The mutable-graph collaborator: the abstract mutation interface that the
//! sinks drain into, and a simple in-memory graph implementing it.

use vstd::prelude::*;
use crate::errors::RdfError;
use crate::term::Term;
use crate::term::Triple;
use crate::term::TripleV;

verus! {

broadcast use {
    vstd::seq::group_seq_axioms,
    vstd::seq_lib::group_seq_lib_default,
    crate::seqmaps::lemma_map_values_index,
    crate::seqmaps::lemma_map_values_push,
};

/// The views of a list of triples.
pub open spec fn triple_views(v: Seq<Triple>) -> Seq<TripleV> {
    v.map_values(|t: Triple| t@)
}

/// A mutable graph: a deduplicated collection of triples with insert and
/// remove operations that report whether they changed the graph.
pub trait MutableGraph {
    /// The triples held, in insertion order, without duplicates.
    spec fn gview(&self) -> Seq<TripleV>;

    /// Inserts a triple.  Returns `true` when the triple was absent and has
    /// been added, `false` when it was already present.
    fn insert(&mut self, s: &Term, p: &Term, o: &Term) -> (r: Result<bool, RdfError>)
        ensures
            r matches Ok(b) ==> b == !old(self).gview().contains(TripleV { s: s@, p: p@, o: o@ })
                && (b ==> final(self).gview() == old(self).gview().push(
                TripleV { s: s@, p: p@, o: o@ },
            )) && (!b ==> final(self).gview() == old(self).gview()),
            r is Err ==> final(self).gview() == old(self).gview();

    /// Removes a triple.  Returns `true` when the triple was present and has
    /// been removed, `false` otherwise.
    fn remove(&mut self, s: &Term, p: &Term, o: &Term) -> (r: Result<bool, RdfError>)
        ensures
            r matches Ok(b) ==> b == old(self).gview().contains(TripleV { s: s@, p: p@, o: o@ })
                && final(self).gview() == old(self).gview().remove_value(
                TripleV { s: s@, p: p@, o: o@ },
            ),
            r is Err ==> final(self).gview() == old(self).gview();
}

/// A simple in-memory graph: a vector of triples kept free of duplicates.
pub struct VecGraph {
    triples: Vec<Triple>,
}

impl View for VecGraph {
    type V = Seq<TripleV>;

    closed spec fn view(&self) -> Seq<TripleV> {
        triple_views(self.triples@)
    }
}

impl VecGraph {
    /// An empty graph.
    pub fn new() -> (r: VecGraph)
        ensures
            r@ == Seq::<TripleV>::empty(),
    {
        let g = VecGraph { triples: Vec::new() };
        proof {
            assert(g@ =~= Seq::<TripleV>::empty());
        }
        g
    }

    /// The number of triples held.
    pub fn len(&self) -> (r: usize)
        ensures
            r == self@.len(),
    {
        self.triples.len()
    }

    /// The index of the first triple equal to `(s, p, o)`, if any.
    fn find(&self, s: &Term, p: &Term, o: &Term) -> (r: Option<usize>)
        ensures
            r matches Some(i) ==> i < self@.len() && self@[i as int] == (TripleV {
                s: s@,
                p: p@,
                o: o@,
            }) && (forall|j: int| 0 <= j < i ==> self@[j] != (TripleV { s: s@, p: p@, o: o@ })),
            r is None ==> !self@.contains(TripleV { s: s@, p: p@, o: o@ }),
    {
        let n = self.triples.len();
        let mut i: usize = 0;
        while i < n
            invariant
                0 <= i <= n,
                n == self.triples@.len(),
                forall|j: int|
                    0 <= j < i ==> self@[j] != (TripleV { s: s@, p: p@, o: o@ }),
            decreases n - i,
        {
            let t = &self.triples[i];
            if t.s == *s && t.p == *p && t.o == *o {
                return Some(i);
            }
            i = i + 1;
        }
        proof {
            if self@.contains(TripleV { s: s@, p: p@, o: o@ }) {
                let w = choose|j: int|
                    0 <= j < self@.len() && self@[j] == (TripleV { s: s@, p: p@, o: o@ });
                assert(self@[w] != (TripleV { s: s@, p: p@, o: o@ }));
            }
        }
        None
    }

    /// Whether the graph holds the triple `(s, p, o)`.
    pub fn contains(&self, s: &Term, p: &Term, o: &Term) -> (r: bool)
        ensures
            r == self@.contains(TripleV { s: s@, p: p@, o: o@ }),
    {
        match self.find(s, p, o) {
            Some(i) => {
                proof {
                    assert(self@.contains(TripleV { s: s@, p: p@, o: o@ }));
                }
                true
            },
            None => false,
        }
    }

    /// The triple at an index, in insertion order.
    pub fn get(&self, i: usize) -> (r: &Triple)
        requires
            i < self@.len(),
        ensures
            r@ == self@[i as int],
    {
        &self.triples[i]
    }
}

impl MutableGraph for VecGraph {
    closed spec fn gview(&self) -> Seq<TripleV> {
        self@
    }

    fn insert(&mut self, s: &Term, p: &Term, o: &Term) -> (r: Result<bool, RdfError>) {
        match self.find(s, p, o) {
            Some(_) => {
                proof {
                    assert(self@.contains(TripleV { s: s@, p: p@, o: o@ }));
                }
                Ok(false)
            },
            None => {
                self.triples.push(Triple { s: s.clone(), p: p.clone(), o: o.clone() });
                proof {
                    assert(self@ =~= old(self)@.push(TripleV { s: s@, p: p@, o: o@ }));
                }
                Ok(true)
            },
        }
    }

    fn remove(&mut self, s: &Term, p: &Term, o: &Term) -> (r: Result<bool, RdfError>) {
        let ghost tv = TripleV { s: s@, p: p@, o: o@ };
        match self.find(s, p, o) {
            Some(i) => {
                proof {
                    assert(self@.contains(tv));
                    self@.index_of_first_ensures(tv);
                    let fi = self@.index_of_first(tv).unwrap();
                    if fi < i as int {
                        assert(self@[fi] != tv);
                    }
                    if (i as int) < fi {
                        assert(self@[i as int] != tv);
                    }
                    assert(fi == i as int);
                    lemma_map_values_remove_commutes(self.triples@, i as int);
                }
                self.triples.remove(i);
                proof {
                    assert(self@ == old(self)@.remove_value(tv));
                }
                Ok(true)
            },
            None => {
                proof {
                    old(self)@.index_of_first_ensures(tv);
                }
                Ok(false)
            },
        }
    }
}

/// Mapping the triples and removing at `i` commute.
proof fn lemma_map_values_remove_commutes(s: Seq<Triple>, i: int)
    requires
        0 <= i < s.len(),
    ensures
        triple_views(s.remove(i)) == triple_views(s).remove(i),
{
    assert forall|j: int| 0 <= j < s.len() - 1 implies triple_views(s.remove(i))[j]
        == triple_views(s).remove(i)[j] by {
        s.remove_ensures(i);
        triple_views(s).remove_ensures(i);
        if j < i {
            assert(s.remove(i)[j] == s[j]);
            assert(triple_views(s)[j] == s[j]@);
        } else {
            assert(s.remove(i)[j] == s[j + 1]);
            assert(triple_views(s)[j + 1] == s[j + 1]@);
        }
    }
    assert(triple_views(s.remove(i)) =~= triple_views(s).remove(i));
}

} // verus!
