//! Distribution lemmas for mapping a function over a sequence: how
//! `map_values` interacts with push, concatenation, prefixes and dropping
//! the last element.

use vstd::prelude::*;

verus! {

broadcast use vstd::seq::group_seq_axioms;

/// Mapping a sequence applies the function at every index.
pub broadcast proof fn lemma_map_values_index<A, B>(s: Seq<A>, f: spec_fn(A) -> B, i: int)
    requires
        0 <= i < s.len(),
    ensures
        #[trigger] s.map_values(f)[i] == f(s[i]),
{
}

/// Mapping distributes over push.
pub broadcast proof fn lemma_map_values_push<A, B>(s: Seq<A>, f: spec_fn(A) -> B, x: A)
    ensures
        #[trigger] s.push(x).map_values(f) == s.map_values(f).push(f(x)),
{
    assert forall|j: int| 0 <= j < s.len() + 1 implies s.push(x).map_values(f)[j] == s.map_values(
        f,
    ).push(f(x))[j] by {
        if j < s.len() {
            assert(s.push(x)[j] == s[j]);
            assert(s.map_values(f)[j] == f(s[j]));
        } else {
            assert(s.push(x)[j] == x);
        }
    }
    assert(s.push(x).map_values(f) =~= s.map_values(f).push(f(x)));
}

/// Mapping distributes over concatenation.
pub broadcast proof fn lemma_map_values_concat<A, B>(a: Seq<A>, b: Seq<A>, f: spec_fn(A) -> B)
    ensures
        #[trigger] (a + b).map_values(f) == a.map_values(f) + b.map_values(f),
{
    assert forall|j: int| 0 <= j < a.len() + b.len() implies (a + b).map_values(f)[j] == (
    a.map_values(f) + b.map_values(f))[j] by {
        if j < a.len() {
            assert((a + b)[j] == a[j]);
            assert(a.map_values(f)[j] == f(a[j]));
        } else {
            assert((a + b)[j] == b[j - a.len()]);
            assert(b.map_values(f)[j - a.len()] == f(b[j - a.len()]));
        }
    }
    assert((a + b).map_values(f) =~= a.map_values(f) + b.map_values(f));
}

/// Mapping commutes with dropping the last element.
pub broadcast proof fn lemma_map_values_drop_last<A, B>(s: Seq<A>, f: spec_fn(A) -> B)
    requires
        s.len() >= 1,
    ensures
        #[trigger] s.drop_last().map_values(f) == s.map_values(f).drop_last(),
{
    assert forall|j: int| 0 <= j < s.len() - 1 implies s.drop_last().map_values(f)[j]
        == s.map_values(f).drop_last()[j] by {
        assert(s.drop_last()[j] == s[j]);
        assert(s.map_values(f)[j] == f(s[j]));
    }
    assert(s.drop_last().map_values(f) =~= s.map_values(f).drop_last());
}

/// Mapping commutes with taking a prefix.
pub broadcast proof fn lemma_map_values_take<A, B>(s: Seq<A>, f: spec_fn(A) -> B, i: int)
    requires
        0 <= i <= s.len(),
    ensures
        #[trigger] s.take(i).map_values(f) == s.map_values(f).take(i),
        #[trigger] s.map_values(f).take(i) == s.take(i).map_values(f),
{
    assert forall|j: int| 0 <= j < i implies s.take(i).map_values(f)[j] == s.map_values(f).take(
        i,
    )[j] by {
        assert(s.take(i)[j] == s[j]);
        assert(s.map_values(f)[j] == f(s[j]));
    }
    assert(s.take(i).map_values(f) =~= s.map_values(f).take(i));
}


/// Mapping commutes with removing the element at `i`.
pub broadcast proof fn lemma_map_values_remove<A, B>(s: Seq<A>, f: spec_fn(A) -> B, i: int)
    requires
        0 <= i < s.len(),
    ensures
        #[trigger] s.remove(i).map_values(f) == s.map_values(f).remove(i),
{
    assert forall|j: int| 0 <= j < s.len() - 1 implies s.remove(i).map_values(f)[j]
        == s.map_values(f).remove(i)[j] by {
        s.remove_ensures(i);
        s.map_values(f).remove_ensures(i);
        if j < i {
            assert(s.remove(i)[j] == s[j]);
            assert(s.map_values(f)[j] == f(s[j]));
        } else {
            assert(s.remove(i)[j] == s[j + 1]);
            assert(s.map_values(f)[j + 1] == f(s[j + 1]));
        }
    }
    assert(s.remove(i).map_values(f) =~= s.map_values(f).remove(i));
}

} // verus!
