//! Sinks that drain a streamed triple sequence into a mutable graph,
//! counting the triples that actually changed it.

use vstd::prelude::*;
use crate::errors::RdfError;
use crate::graph::MutableGraph;
use crate::term::Triple;
use crate::term::TripleV;

verus! {

/// Feeds triples into a graph, counting how many were newly added.
pub struct Inserter {
    /// The number of triples that were absent and have been added.
    pub count: usize,
}

impl Inserter {
    /// A fresh inserter with a zero count.
    pub fn new() -> (r: Inserter)
        ensures
            r.count == 0,
    {
        Inserter { count: 0 }
    }

    /// Applies one triple to the graph; the count grows exactly when the
    /// triple was absent and has been added.
    pub fn feed<G: MutableGraph>(&mut self, graph: &mut G, t: &Triple) -> (r: Result<
        (),
        RdfError,
    >)
        requires
            old(self).count < usize::MAX,
        ensures
            r is Ok ==> {
                let was_new = !old(graph).gview().contains(t@);
                &&& final(graph).gview() == if was_new {
                    old(graph).gview().push(t@)
                } else {
                    old(graph).gview()
                }
                &&& final(self).count == old(self).count + (if was_new {
                    1int
                } else {
                    0int
                })
            },
            r is Err ==> final(graph).gview() == old(graph).gview() && final(self).count == old(
                self,
            ).count,
    {
        match graph.insert(&t.s, &t.p, &t.o) {
            Ok(inserted) => {
                if inserted {
                    self.count = self.count + 1;
                }
                Ok(())
            },
            Err(e) => Err(e),
        }
    }

    /// The total number of newly added triples.
    pub fn finish(&self) -> (r: usize)
        ensures
            r == self.count,
    {
        self.count
    }
}

/// Removes triples from a graph, counting how many were actually present.
pub struct Remover {
    /// The number of triples that were present and have been removed.
    pub count: usize,
}

impl Remover {
    /// A fresh remover with a zero count.
    pub fn new() -> (r: Remover)
        ensures
            r.count == 0,
    {
        Remover { count: 0 }
    }

    /// Removes one triple from the graph; the count grows exactly when the
    /// triple was present and has been removed.
    pub fn feed<G: MutableGraph>(&mut self, graph: &mut G, t: &Triple) -> (r: Result<
        (),
        RdfError,
    >)
        requires
            old(self).count < usize::MAX,
        ensures
            r is Ok ==> {
                let was_there = old(graph).gview().contains(t@);
                &&& final(graph).gview() == old(graph).gview().remove_value(t@)
                &&& final(self).count == old(self).count + (if was_there {
                    1int
                } else {
                    0int
                })
            },
            r is Err ==> final(graph).gview() == old(graph).gview() && final(self).count == old(
                self,
            ).count,
    {
        match graph.remove(&t.s, &t.p, &t.o) {
            Ok(removed) => {
                if removed {
                    self.count = self.count + 1;
                }
                Ok(())
            },
            Err(e) => Err(e),
        }
    }

    /// The total number of removed triples.
    pub fn finish(&self) -> (r: usize)
        ensures
            r == self.count,
    {
        self.count
    }
}

} // verus!
