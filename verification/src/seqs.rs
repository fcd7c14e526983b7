//! Searching a sequence for its first occurrence of a value.

use vstd::prelude::*;

verus! {

/// Position of the first `c` in `s`, or `s.len()` when `s` holds none.
pub open spec fn first_index<T>(s: Seq<T>, c: T) -> int
    decreases s.len(),
{
    if s.len() == 0 {
        0
    } else if s[0] == c {
        0
    } else {
        1 + first_index(s.drop_first(), c)
    }
}

/// `first_index` is the one position before which no `c` stands and at which
/// `c` stands or the sequence ends.
pub proof fn lemma_first_index<T>(s: Seq<T>, c: T, i: int)
    requires
        0 <= i <= s.len(),
        forall|k: int| 0 <= k < i ==> s[k] != c,
        i < s.len() ==> s[i] == c,
    ensures
        first_index(s, c) == i,
    decreases s.len(),
{
    if s.len() == 0 || i == 0 {
    } else {
        let t = s.drop_first();
        assert forall|k: int| 0 <= k < i - 1 implies t[k] != c by {
            assert(t[k] == s[k + 1]);
        }
        lemma_first_index(t, c, i - 1);
    }
}

/// `first_index` stays within the sequence, points at `c` where it points at
/// anything, and has no `c` before it.
pub proof fn lemma_first_index_bounds<T>(s: Seq<T>, c: T)
    ensures
        0 <= first_index(s, c) <= s.len(),
        first_index(s, c) < s.len() ==> s[first_index(s, c)] == c,
        forall|k: int| 0 <= k < first_index(s, c) ==> s[k] != c,
    decreases s.len(),
{
    if s.len() == 0 || s[0] == c {
    } else {
        let t = s.drop_first();
        lemma_first_index_bounds(t, c);
        assert forall|k: int| 0 <= k < first_index(s, c) implies s[k] != c by {
            if k > 0 {
                assert(t[k - 1] == s[k]);
            }
        }
    }
}

/// Taking an element out and putting another in at the same place is
/// replacing it.
pub proof fn lemma_remove_insert<T>(s: Seq<T>, i: int, x: T)
    requires
        0 <= i < s.len(),
    ensures
        s.remove(i).insert(i, x) == s.update(i, x),
{
    assert(s.remove(i).insert(i, x) =~= s.update(i, x));
}

/// Whether `s` holds `c`, told by `first_index`.
pub proof fn lemma_first_index_contains<T>(s: Seq<T>, c: T)
    ensures
        s.contains(c) <==> first_index(s, c) < s.len(),
{
    lemma_first_index_bounds(s, c);
    if first_index(s, c) < s.len() {
        assert(s[first_index(s, c)] == c);
    }
}

/// Where the first `c` stands after `x` was appended.
pub proof fn lemma_first_index_push<T>(s: Seq<T>, x: T, c: T)
    ensures
        first_index(s.push(x), c) == if first_index(s, c) < s.len() {
            first_index(s, c)
        } else if x == c {
            s.len() as int
        } else {
            s.len() as int + 1
        },
{
    lemma_first_index_bounds(s, c);
    let q = first_index(s, c);
    let t = s.push(x);
    if q < s.len() {
        assert forall|k: int| 0 <= k < q implies t[k] != c by {
            assert(t[k] == s[k]);
        }
        assert(t[q] == s[q]);
        lemma_first_index(t, c, q);
    } else {
        assert forall|k: int| 0 <= k < s.len() implies t[k] != c by {
            assert(t[k] == s[k]);
        }
        if x == c {
            lemma_first_index(t, c, s.len() as int);
        } else {
            lemma_first_index(t, c, s.len() as int + 1);
        }
    }
}

/// Where the first `c` stands after the element at `p` was taken out, for a
/// `c` whose first occurrence is not at `p`.
pub proof fn lemma_first_index_remove<T>(s: Seq<T>, p: int, c: T)
    requires
        0 <= p < s.len(),
        first_index(s, c) != p,
    ensures
        first_index(s.remove(p), c) == if first_index(s, c) < p {
            first_index(s, c)
        } else {
            first_index(s, c) - 1
        },
{
    lemma_first_index_bounds(s, c);
    let q = first_index(s, c);
    let t = s.remove(p);
    if q < p {
        assert forall|k: int| 0 <= k < q implies t[k] != c by {
            assert(t[k] == s[k]);
        }
        assert(t[q] == s[q]);
        lemma_first_index(t, c, q);
    } else {
        assert forall|k: int| 0 <= k < q - 1 implies t[k] != c by {
            if k < p {
                assert(t[k] == s[k]);
            } else {
                assert(t[k] == s[k + 1]);
            }
        }
        if q < s.len() {
            assert(t[q - 1] == s[q]);
        }
        lemma_first_index(t, c, q - 1);
    }
}

/// In a sequence without repetition an element that was taken out is gone.
pub proof fn lemma_remove_unique<T>(s: Seq<T>, p: int)
    requires
        0 <= p < s.len(),
        s.no_duplicates(),
    ensures
        first_index(s.remove(p), s[p]) == s.len() - 1,
        !s.remove(p).contains(s[p]),
{
    let t = s.remove(p);
    assert forall|k: int| 0 <= k < t.len() implies t[k] != s[p] by {
        if k < p {
            assert(t[k] == s[k]);
        } else {
            assert(t[k] == s[k + 1]);
        }
    }
    lemma_first_index(t, s[p], t.len() as int);
}

} // verus!
