//! Facts about sequences without repeats, used by the collections that stand for sets.

use vstd::prelude::*;

verus! {

/// Removing the element at `i` from a sequence without repeats removes exactly that value.
pub proof fn lemma_remove_unique<A>(s: Seq<A>, i: int)
    requires
        s.no_duplicates(),
        0 <= i < s.len(),
    ensures
        s.remove(i).no_duplicates(),
        s.remove(i).len() == s.len() - 1,
        forall|q: A| #[trigger] s.remove(i).contains(q) <==> (s.contains(q) && q != s[i]),
{
    let r = s.remove(i);
    assert forall|a: int, b: int| 0 <= a < r.len() && 0 <= b < r.len() && a != b implies r[a] != r[b] by {
        let a2 = if a < i { a } else { a + 1 };
        let b2 = if b < i { b } else { b + 1 };
        assert(r[a] == s[a2]);
        assert(r[b] == s[b2]);
    }
    assert forall|q: A| #[trigger] r.contains(q) <==> (s.contains(q) && q != s[i]) by {
        if r.contains(q) {
            let j = choose|j: int| 0 <= j < r.len() && r[j] == q;
            let j2 = if j < i { j } else { j + 1 };
            assert(s[j2] == q);
            assert(j2 != i);
        }
        if s.contains(q) && q != s[i] {
            let k = choose|k: int| 0 <= k < s.len() && s[k] == q;
            assert(k != i);
            let k2 = if k < i { k } else { k - 1 };
            assert(r[k2] == q);
        }
    }
}

/// Appending a value that is absent keeps a sequence free of repeats.
pub proof fn lemma_push_unique<A>(s: Seq<A>, x: A)
    requires
        s.no_duplicates(),
        !s.contains(x),
    ensures
        s.push(x).no_duplicates(),
        forall|q: A| #[trigger] s.push(x).contains(q) <==> (s.contains(q) || q == x),
{
    let r = s.push(x);
    assert forall|a: int, b: int| 0 <= a < r.len() && 0 <= b < r.len() && a != b implies r[a] != r[b] by {
        if a == s.len() as int {
            assert(r[b] == s[b]);
        } else if b == s.len() as int {
            assert(r[a] == s[a]);
        }
    }
    assert forall|q: A| #[trigger] r.contains(q) <==> (s.contains(q) || q == x) by {
        if r.contains(q) {
            let j = choose|j: int| 0 <= j < r.len() && r[j] == q;
            if j < s.len() {
                assert(s[j] == q);
            }
        }
        if s.contains(q) {
            let k = choose|k: int| 0 <= k < s.len() && s[k] == q;
            assert(r[k] == q);
        }
        if q == x {
            assert(r[s.len() as int] == q);
        }
    }
}

/// In a sequence without repeats, the position of a present value is the one holding it.
pub proof fn lemma_index_of_unique<A>(s: Seq<A>, i: int)
    requires
        s.no_duplicates(),
        0 <= i < s.len(),
    ensures
        s.index_of(s[i]) == i,
{
    assert(s.contains(s[i]));
    let j = s.index_of(s[i]);
    assert(0 <= j < s.len() && s[j] == s[i]);
}

} // verus!
