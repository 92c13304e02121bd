//! Stable ordering of listed items by an integer key: the result is sorted by
//! key, and the items that share a key keep the order they came in.

use vstd::prelude::*;

verus! {

/// Items that are listed by an integer key.
pub trait SortKey {
    /// The key the item is listed by.
    spec fn sort_key(&self) -> int;

    /// Computes the key.
    fn key(&self) -> (k: i64)
        ensures
            k == self.sort_key(),
    ;
}

/// Keys never decrease along `s`.
pub open spec fn sorted_by_key<T: SortKey>(s: Seq<T>) -> bool {
    forall|i: int, j: int| 0 <= i <= j < s.len() ==> s[i].sort_key() <= s[j].sort_key()
}

/// The items of `s` whose key is `k`, in their order in `s`.
pub open spec fn key_class<T: SortKey>(s: Seq<T>, k: int) -> Seq<T> {
    s.filter(has_key::<T>(k))
}

/// The predicate "the key is `k`".
pub open spec fn has_key<T: SortKey>(k: int) -> spec_fn(T) -> bool {
    |x: T| x.sort_key() == k
}

/// `r` is `s` sorted stably by key: sorted, and for every key the same items
/// in the same order.
pub open spec fn stable_sort_of<T: SortKey>(r: Seq<T>, s: Seq<T>) -> bool {
    &&& sorted_by_key(r)
    &&& forall|k: int| #[trigger] key_class(r, k) == key_class(s, k)
}

proof fn lemma_insert_class<T: SortKey>(out: Seq<T>, p: int, x: T, k: int)
    requires
        0 <= p <= out.len(),
        forall|j: int| p <= j < out.len() ==> out[j].sort_key() > x.sort_key(),
    ensures
        key_class(out.insert(p, x), k) == if x.sort_key() == k {
            key_class(out, k).push(x)
        } else {
            key_class(out, k)
        },
{
    broadcast use vstd::seq_lib::group_seq_lib_default;
    let pred = has_key::<T>(k);
    let a = out.subrange(0, p);
    let b = out.subrange(p, out.len() as int);
    assert(out =~= a + b);
    assert(out.insert(p, x) =~= a.push(x) + b);
    a.lemma_filter_push(x, pred);
    if x.sort_key() == k {
        assert(b.all(|y: T| !pred(y)));
        b.lemma_all_neg_filter_empty(pred);
        assert(b.filter(pred) =~= Seq::<T>::empty());
        assert(a.filter(pred) + b.filter(pred) =~= a.filter(pred));
        assert(a.filter(pred).push(x) + b.filter(pred) =~= a.filter(pred).push(x));
    }
    assert((a + b).filter(pred) == a.filter(pred) + b.filter(pred));
    assert((a.push(x) + b).filter(pred) == a.push(x).filter(pred) + b.filter(pred));
}

/// Sorts `items` stably by key (ascending): the order `sort_by_key` gives.
pub fn stable_sort_by_key<T: SortKey>(items: Vec<T>) -> (r: Vec<T>)
    ensures
        stable_sort_of(r@, items@),
        r@.to_multiset() == items@.to_multiset(),
{
    broadcast use vstd::seq_lib::group_seq_lib_default;
    broadcast use vstd::seq_lib::group_to_multiset_ensures;
    let ghost orig = items@;
    let mut rest = items;
    let mut out: Vec<T> = Vec::new();
    let ghost mut done: Seq<T> = Seq::empty();
    assert(orig =~= done + rest@);
    proof {
        assert forall|k: int| #[trigger] key_class(out@, k) == key_class(done, k) by {
            reveal(Seq::filter);
        }
    }
    while rest.len() > 0
        invariant
            orig == done + rest@,
            sorted_by_key(out@),
            forall|k: int| #[trigger] key_class(out@, k) == key_class(done, k),
            out@.to_multiset() == done.to_multiset(),
        decreases rest.len(),
    {
        let ghost rest_before = rest@;
        let x = rest.remove(0);
        let kx = x.key();
        let mut p: usize = 0;
        while p < out.len() && out[p].key() <= kx
            invariant
                p <= out.len(),
                sorted_by_key(out@),
                kx == x.sort_key(),
                forall|j: int| 0 <= j < p ==> out@[j].sort_key() <= kx,
            decreases out.len() - p,
        {
            p = p + 1;
        }
        let ghost before = out@;
        proof {
            assert forall|j: int| p <= j < before.len() implies before[j].sort_key() > x.sort_key() by {
                assert(before[p as int].sort_key() > kx);
                assert(before[p as int].sort_key() <= before[j].sort_key());
            }
            assert forall|k: int| #[trigger] key_class(before.insert(p as int, x), k) == key_class(done.push(x), k) by {
                lemma_insert_class(before, p as int, x, k);
                done.lemma_filter_push(x, has_key::<T>(k));
            }
        }
        out.insert(p, x);
        proof {
            assert(out@ == before.insert(p as int, x));
            vstd::seq_lib::to_multiset_insert(before, p as int, x);
            vstd::seq_lib::to_multiset_build(done, x);
            before.insert_ensures(p as int, x);
            assert forall|i: int, j: int| 0 <= i <= j < out@.len() implies out@[i].sort_key() <= out@[j].sort_key() by {
                if i < p && j > p {
                    assert(out@[j] == before[j - 1]);
                } else if i < p && j == p {
                } else if i == p && j > p {
                    assert(out@[j] == before[j - 1]);
                } else if i > p {
                    assert(out@[i] == before[i - 1]);
                    assert(out@[j] == before[j - 1]);
                }
            }
            assert(rest_before =~= seq![x] + rest@);
            assert(orig =~= done.push(x) + rest@);
            done = done.push(x);
        }
    }
    assert(done =~= orig);
    out
}


proof fn lemma_key_present<T: SortKey>(r: Seq<T>, i: int)
    requires
        0 <= i < r.len(),
    ensures
        key_class(r, r[i].sort_key()).len() > 0,
{
    r.lemma_filter_contains(has_key::<T>(r[i].sort_key()), i);
}

proof fn lemma_class_members<T: SortKey>(r: Seq<T>, k: int)
    requires
        key_class(r, k).len() > 0,
    ensures
        exists|i: int| 0 <= i < r.len() && r[i].sort_key() == k,
{
    let c = key_class(r, k);
    assert(c.contains(c[0]));
    r.lemma_filter_contains_rev(has_key::<T>(k), c[0]);
    r.lemma_filter_pred(has_key::<T>(k), 0);
    let i = choose|i: int| 0 <= i < r.len() && r[i] == c[0];
    assert(r[i].sort_key() == k);
}

proof fn lemma_same_classes_same_sorted<T: SortKey>(r1: Seq<T>, r2: Seq<T>)
    requires
        sorted_by_key(r1),
        sorted_by_key(r2),
        forall|k: int| #[trigger] key_class(r1, k) == key_class(r2, k),
    ensures
        r1 == r2,
    decreases r1.len() + r2.len(),
{
    reveal(Seq::filter);
    if r1.len() == 0 || r2.len() == 0 {
        if r1.len() > 0 {
            lemma_key_present(r1, 0);
            assert(key_class(r2, r1[0].sort_key()).len() == 0);
        }
        if r2.len() > 0 {
            lemma_key_present(r2, 0);
            assert(key_class(r1, r2[0].sort_key()).len() == 0);
        }
        assert(r1 =~= r2);
    } else {
        let a = r1.last();
        let b = r2.last();
        let ka = a.sort_key();
        let kb = b.sort_key();
        lemma_key_present(r1, r1.len() - 1);
        lemma_key_present(r2, r2.len() - 1);
        if ka < kb {
            assert(key_class(r1, kb).len() > 0);
            lemma_class_members(r1, kb);
            let i = choose|i: int| 0 <= i < r1.len() && r1[i].sort_key() == kb;
            assert(r1[i].sort_key() <= r1[r1.len() - 1].sort_key());
        }
        if kb < ka {
            assert(key_class(r2, ka).len() > 0);
            lemma_class_members(r2, ka);
            let i = choose|i: int| 0 <= i < r2.len() && r2[i].sort_key() == ka;
            assert(r2[i].sort_key() <= r2[r2.len() - 1].sort_key());
        }
        let d1 = r1.drop_last();
        let d2 = r2.drop_last();
        assert(key_class(r1, ka) == key_class(d1, ka).push(a));
        assert(key_class(r2, ka) == key_class(d2, ka).push(b));
        assert(a == key_class(r1, ka).last());
        assert(b == key_class(r2, ka).last());
        assert(key_class(d1, ka) =~= key_class(r1, ka).drop_last());
        assert(key_class(d2, ka) =~= key_class(r2, ka).drop_last());
        assert forall|k: int| #[trigger] key_class(d1, k) == key_class(d2, k) by {
            if k != ka {
                assert(key_class(r1, k) == key_class(d1, k));
                assert(key_class(r2, k) == key_class(d2, k));
            }
        }
        lemma_same_classes_same_sorted(d1, d2);
        assert(r1 =~= d1.push(a));
        assert(r2 =~= d2.push(b));
    }
}

/// A stable sort is fully determined: two stable sorts of the same items are
/// the same sequence (so the result is the one `sort_by_key` gives).
pub proof fn lemma_stable_sort_unique<T: SortKey>(r1: Seq<T>, r2: Seq<T>, s: Seq<T>)
    requires
        stable_sort_of(r1, s),
        stable_sort_of(r2, s),
    ensures
        r1 == r2,
{
    assert forall|k: int| #[trigger] key_class(r1, k) == key_class(r2, k) by {
        assert(key_class(r1, k) == key_class(s, k));
        assert(key_class(r2, k) == key_class(s, k));
    }
    lemma_same_classes_same_sorted(r1, r2);
}

/// Sorting an already sorted list leaves it as it is.
pub proof fn lemma_sorted_is_own_stable_sort<T: SortKey>(r: Seq<T>, s: Seq<T>)
    requires
        stable_sort_of(r, s),
    ensures
        stable_sort_of(r, r),
        forall|q: Seq<T>| stable_sort_of(q, r) ==> q == r,
{
    assert forall|q: Seq<T>| stable_sort_of(q, r) implies q == r by {
        lemma_stable_sort_unique(q, r, r);
    }
}

} // verus!
