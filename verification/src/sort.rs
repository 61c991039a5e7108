//! A stable insertion sort over anything with a total preorder on a key.
use vstd::prelude::*;
use vstd::multiset::Multiset;

verus! {

broadcast use {
    vstd::seq_lib::to_multiset_insert,
    vstd::seq_lib::to_multiset_remove,
    vstd::seq_lib::group_to_multiset_ensures,
    vstd::multiset::group_multiset_axioms,
};

/// A key by which values are sorted: a total, transitive "no later than".
pub trait SortKey: Sized {
    /// Whether `self` sorts no later than `other`.
    spec fn key_le(&self, other: &Self) -> bool;

    /// Any two values are ordered one way or the other.
    proof fn lemma_key_total(a: &Self, b: &Self)
        ensures
            a.key_le(b) || b.key_le(a),
    ;

    /// The order is transitive.
    proof fn lemma_key_transitive(a: &Self, b: &Self, c: &Self)
        requires
            a.key_le(b),
            b.key_le(c),
        ensures
            a.key_le(c),
    ;

    /// Decides `key_le`.
    fn key_le_exec(&self, other: &Self) -> (r: bool)
        ensures
            r == self.key_le(other),
    ;
}

/// Whether `s` is in order by key.
pub open spec fn sorted_by_key<T: SortKey>(s: Seq<T>) -> bool {
    forall|i: int, j: int| #![trigger s[i], s[j]] 0 <= i < j < s.len() ==> s[i].key_le(&s[j])
}

/// The values of `s` whose key equals that of `c`, in order.
pub open spec fn same_key_as<T: SortKey>(s: Seq<T>, c: T) -> Seq<T> {
    s.filter(|y: T| c.key_le(&y) && y.key_le(&c))
}

/// Filtering a one-value sequence keeps the value exactly when it qualifies.
proof fn lemma_filter_single<T>(x: T, pred: spec_fn(T) -> bool)
    ensures
        seq![x].filter(pred) == (if pred(x) { seq![x] } else { Seq::<T>::empty() }),
{
    reveal_with_fuel(Seq::filter, 2);
    assert(seq![x].drop_last() =~= Seq::<T>::empty());
}

/// Inserting `x` after every value no later than it, and before the first later one,
/// appends `x` to its key class and leaves every other class as it was.
proof fn lemma_insert_keeps_classes<T: SortKey>(out: Seq<T>, p: int, x: T, c: T)
    requires
        sorted_by_key(out),
        0 <= p <= out.len(),
        forall|i: int| 0 <= i < p ==> (#[trigger] out[i]).key_le(&x),
        p < out.len() ==> !out[p].key_le(&x),
    ensures
        same_key_as(out.insert(p, x), c) == same_key_as(out, c) + same_key_as(seq![x], c),
{
    let pred = |y: T| c.key_le(&y) && y.key_le(&c);
    let front = out.subrange(0, p);
    let back = out.subrange(p, out.len() as int);
    assert(out.insert(p, x) =~= front + seq![x] + back);
    assert(out =~= front + back);
    Seq::filter_distributes_over_add(front + seq![x], back, pred);
    Seq::filter_distributes_over_add(front, seq![x], pred);
    Seq::filter_distributes_over_add(front, back, pred);
    lemma_filter_single(x, pred);
    if pred(x) {
        assert forall|q: int| 0 <= q < back.len() implies !pred(back[q]) by {
            let y = back[q];
            assert(y == out[p + q]);
            if pred(y) {
                T::lemma_key_transitive(&y, &c, &x);
                if q > 0 {
                    assert(out[p].key_le(&out[p + q]));
                    T::lemma_key_transitive(&out[p], &y, &x);
                }
            }
        }
        back.lemma_all_neg_filter_empty(pred);
        assert(back.filter(pred) =~= Seq::<T>::empty());
    }
}

/// `v` put in order by key; values of equal key keep their order.
pub fn insertion_sort<T: SortKey>(v: Vec<T>) -> (r: Vec<T>)
    ensures
        sorted_by_key(r@),
        r@.to_multiset() == v@.to_multiset(),
        r@.len() == v@.len(),
        forall|c: T| #[trigger] same_key_as(r@, c) == same_key_as(v@, c),
{
    let mut rest = v;
    let mut out: Vec<T> = Vec::new();
    let ghost original = rest@;
    assert(out@.to_multiset().add(rest@.to_multiset()) =~= original.to_multiset());
    assert forall|c: T| #[trigger] same_key_as(original, c) == same_key_as(out@, c) + same_key_as(rest@, c) by {
        reveal_with_fuel(Seq::filter, 1);
        assert(same_key_as(out@, c) =~= Seq::<T>::empty());
        assert(same_key_as(out@, c) + same_key_as(rest@, c) =~= same_key_as(rest@, c));
    }
    while rest.len() > 0
        invariant
            sorted_by_key(out@),
            out@.to_multiset().add(rest@.to_multiset()) == original.to_multiset(),
            out@.len() + rest@.len() == original.len(),
            forall|c: T| #[trigger] same_key_as(original, c) == same_key_as(out@, c) + same_key_as(rest@, c),
        decreases rest@.len(),
    {
        let ghost before_rest = rest@;
        let x = rest.remove(0);
        assert(before_rest.remove(0).to_multiset() == before_rest.to_multiset().remove(x));
        let mut p: usize = 0;
        while p < out.len() && out[p].key_le_exec(&x)
            invariant
                p <= out@.len(),
                forall|i: int| 0 <= i < p ==> (#[trigger] out@[i]).key_le(&x),
            decreases out@.len() - p,
        {
            p = p + 1;
        }
        let ghost before = out@;
        if p < out.len() {
            proof {
                T::lemma_key_total(&before[p as int], &x);
            }
        }
        out.insert(p, x);
        proof {
            assert forall|i: int, j: int| #![trigger out@[i], out@[j]] 0 <= i < j < out@.len() implies
                out@[i].key_le(&out@[j]) by {
                if j < p {
                    assert(out@[i] == before[i] && out@[j] == before[j]);
                } else if j == p {
                    assert(out@[i] == before[i]);
                } else if i == p {
                    assert(out@[j] == before[j - 1]);
                    if j - 1 > p {
                        T::lemma_key_transitive(&x, &before[p as int], &before[j - 1]);
                    }
                } else if i < p {
                    assert(out@[i] == before[i] && out@[j] == before[j - 1]);
                } else {
                    assert(out@[i] == before[i - 1] && out@[j] == before[j - 1]);
                }
            }
            assert(out@.to_multiset() == before.to_multiset().insert(x));
            assert(out@.to_multiset().add(rest@.to_multiset()) =~= original.to_multiset());
            assert(before_rest =~= seq![x] + rest@);
            assert forall|c: T| #[trigger] same_key_as(original, c) == same_key_as(out@, c) + same_key_as(rest@, c) by {
                let pred = |y: T| c.key_le(&y) && y.key_le(&c);
                lemma_insert_keeps_classes(before, p as int, x, c);
                Seq::filter_distributes_over_add(seq![x], rest@, pred);
                assert(same_key_as(original, c) == same_key_as(before, c) + same_key_as(before_rest, c));
                assert(same_key_as(out@, c) + same_key_as(rest@, c)
                    =~= same_key_as(before, c) + (same_key_as(seq![x], c) + same_key_as(rest@, c)));
            }
        }
    }
    assert(rest@.to_multiset() =~= Multiset::empty());
    assert(out@.to_multiset() =~= original.to_multiset());
    assert forall|c: T| #[trigger] same_key_as(out@, c) == same_key_as(original, c) by {
        assert(rest@ =~= Seq::<T>::empty());
        reveal_with_fuel(Seq::filter, 1);
        assert(same_key_as(rest@, c) =~= Seq::<T>::empty());
        assert(same_key_as(out@, c) + same_key_as(rest@, c) =~= same_key_as(out@, c));
    }
    out
}

/// Rearranging a sequence rearranges its image: equal multisets map to equal multisets.
pub proof fn lemma_map_keeps_multiset<A, B>(a: Seq<A>, b: Seq<A>, f: spec_fn(A) -> B)
    requires
        a.to_multiset() == b.to_multiset(),
    ensures
        a.map_values(f).to_multiset() == b.map_values(f).to_multiset(),
    decreases a.len(),
{
    if a.len() == 0 {
        assert(a.to_multiset().len() == a.len());
        assert(b.to_multiset().len() == b.len());
        assert(b.len() == 0);
        assert(a.map_values(f) =~= Seq::<B>::empty());
        assert(b.map_values(f) =~= Seq::<B>::empty());
    } else {
        let x = a.last();
        let rest = a.drop_last();
        assert(a =~= rest.push(x));
        assert(a.to_multiset() == rest.to_multiset().insert(x));
        assert(b.to_multiset().count(x) > 0);
        assert(b.contains(x));
        let k = choose|k: int| 0 <= k < b.len() && b[k] == x;
        let b2 = b.remove(k);
        assert(b2.to_multiset() =~= b.to_multiset().remove(x));
        assert(b2.to_multiset() =~= rest.to_multiset());
        lemma_map_keeps_multiset(rest, b2, f);
        assert(a.map_values(f) =~= rest.map_values(f).push(f(x)));
        let bm = b.map_values(f);
        assert(b2.map_values(f) =~= bm.remove(k));
        assert(bm.remove(k).to_multiset() =~= bm.to_multiset().remove(f(x)));
        assert(bm.to_multiset().count(f(x)) > 0) by {
            assert(bm[k] == f(x));
            assert(bm.contains(f(x)));
        }
        assert(bm.to_multiset() =~= bm.remove(k).to_multiset().insert(f(x)));
    }
}

} // verus!
