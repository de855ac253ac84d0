//! Ordering of records by a rank, and a stable insertion sort over it.
use vstd::prelude::*;
use crate::text::{lex_le, lemma_lex_le_total, lemma_lex_le_transitive, text_le};

verus! {

broadcast use vstd::seq_lib::group_to_multiset_ensures;

/// Records that are compared by a total preorder.
pub trait Ranked: Sized {
    /// Whether `self` may come before `other`.
    spec fn rank_le(&self, other: &Self) -> bool;

    fn ranks_no_later(&self, other: &Self) -> (r: bool)
        ensures
            r == self.rank_le(other),
    ;

    proof fn lemma_rank_total(a: &Self, b: &Self)
        ensures
            a.rank_le(b) || b.rank_le(a),
    ;

    proof fn lemma_rank_transitive(a: &Self, b: &Self, c: &Self)
        requires
            a.rank_le(b),
            b.rank_le(c),
        ensures
            a.rank_le(c),
    ;
}

/// Every record ranks no later than each one after it.
pub open spec fn rank_sorted<T: Ranked>(s: Seq<T>) -> bool {
    forall|i: int, j: int| #![trigger s[i], s[j]] 0 <= i < j < s.len() ==> s[i].rank_le(&s[j])
}

/// `a` and `b` rank the same.
pub open spec fn same_rank<T: Ranked>(a: T, b: T) -> bool {
    a.rank_le(&b) && b.rank_le(&a)
}

/// Whether a record ranks the same as `x`.
pub open spec fn same_rank_as<T: Ranked>(x: T) -> spec_fn(T) -> bool {
    |y: T| same_rank(x, y)
}

/// The records that rank the same as `x`, in order.
pub open spec fn rank_class<T: Ranked>(s: Seq<T>, x: T) -> Seq<T> {
    s.filter(same_rank_as(x))
}

proof fn lemma_insert_filter<T>(s: Seq<T>, p: int, y: T, c: spec_fn(T) -> bool)
    requires
        0 <= p <= s.len(),
    ensures
        s.insert(p, y).filter(c) == (if c(y) {
            s.subrange(0, p).filter(c).push(y)
        } else {
            s.subrange(0, p).filter(c)
        }) + s.subrange(p, s.len() as int).filter(c),
        s.filter(c) == s.subrange(0, p).filter(c) + s.subrange(p, s.len() as int).filter(c),
{
    broadcast use Seq::filter_distributes_over_add, Seq::lemma_filter_push;

    assert(s.insert(p, y) =~= s.subrange(0, p).push(y) + s.subrange(p, s.len() as int));
    assert(s =~= s.subrange(0, p) + s.subrange(p, s.len() as int));
}

proof fn lemma_insert_multiset<T>(s: Seq<T>, p: int, x: T)
    requires
        0 <= p <= s.len(),
    ensures
        s.insert(p, x).to_multiset() =~= s.to_multiset().insert(x),
{
    let t = s.insert(p, x);
    assert(t.remove(p) =~= s);
    assert(t[p] == x);
    assert(t.to_multiset().count(x) > 0) by {
        assert(t.contains(x));
    }
}

/// Sorts the records by rank; records of equal rank keep their order.
pub fn sort_by_rank<T: Ranked>(v: Vec<T>) -> (r: Vec<T>)
    ensures
        r@.to_multiset() == v@.to_multiset(),
        rank_sorted(r@),
        forall|x: T| #[trigger] rank_class(r@, x) == rank_class(v@, x),
{
    broadcast use Seq::lemma_filter_push;

    let ghost orig = v@;
    let mut rest = v;
    let mut r: Vec<T> = Vec::new();
    let ghost mut taken: int = 0;
    while rest.len() > 0
        invariant
            0 <= taken <= orig.len(),
            rest@ == orig.subrange(taken, orig.len() as int),
            rank_sorted(r@),
            r@.to_multiset().add(rest@.to_multiset()) =~= orig.to_multiset(),
            forall|x: T| #[trigger] rank_class(r@, x) == rank_class(orig.take(taken), x),
        decreases rest@.len(),
    {
        let ghost rest_before = rest@;
        let x = rest.remove(0);
        assert(rest@ =~= rest_before.remove(0));
        assert(x == orig[taken]);
        let mut p: usize = 0;
        while p < r.len() && r[p].ranks_no_later(&x)
            invariant
                p <= r@.len(),
                forall|j: int| 0 <= j < p ==> (#[trigger] r@[j]).rank_le(&x),
            decreases r@.len() - p,
        {
            p = p + 1;
        }
        let ghost before = r@;
        proof {
            if p < before.len() {
                T::lemma_rank_total(&before[p as int], &x);
            }
            lemma_insert_multiset(before, p as int, x);
        }
        r.insert(p, x);
        proof {
            assert(r@ =~= before.insert(p as int, x));
            assert(orig.take(taken + 1) =~= orig.take(taken).push(x));
            assert forall|z: T| #[trigger] rank_class(r@, z) == rank_class(orig.take(taken + 1), z) by {
                let c = same_rank_as(z);
                assert(rank_class(before, z) == rank_class(orig.take(taken), z));
                lemma_insert_filter(before, p as int, x, c);
                let after_p = before.subrange(p as int, before.len() as int);
                if c(x) {
                    assert forall|q: int| 0 <= q < after_p.len() implies !c(after_p[q]) by {
                        let w = after_p[q];
                        assert(w == before[p + q]);
                        if c(w) {
                            T::lemma_rank_transitive(&w, &z, &x);
                            if q > 0 {
                                assert(before[p as int].rank_le(&before[p + q]));
                                T::lemma_rank_transitive(&before[p as int], &w, &x);
                            }
                        }
                    }
                    after_p.lemma_all_neg_filter_empty(c);
                    assert(after_p.filter(c) =~= Seq::<T>::empty());
                }
                orig.take(taken).lemma_filter_push(x, c);
                let head = before.subrange(0, p as int).filter(c);
                let tail = after_p.filter(c);
                if c(x) {
                    assert(r@.filter(c) =~= before.filter(c).push(x));
                } else {
                    assert(r@.filter(c) == head + tail);
                }
            }
            taken = taken + 1;
            assert(rest@ =~= orig.subrange(taken, orig.len() as int));
            assert forall|i: int, j: int| #![trigger r@[i], r@[j]] 0 <= i < j < r@.len() implies r@[
                i].rank_le(&r@[j]) by {
                if j < p {
                    assert(r@[i] == before[i] && r@[j] == before[j]);
                } else if j == p {
                    assert(r@[i] == before[i]);
                } else if i == p {
                    assert(r@[j] == before[j - 1]);
                    if j - 1 > p {
                        assert(before[p as int].rank_le(&before[j - 1]));
                        T::lemma_rank_transitive(&x, &before[p as int], &before[j - 1]);
                    }
                } else if i < p {
                    assert(r@[i] == before[i] && r@[j] == before[j - 1]);
                    assert(before[i].rank_le(&x));
                    if p < before.len() {
                        if j - 1 > p {
                            assert(before[p as int].rank_le(&before[j - 1]));
                            T::lemma_rank_transitive(&x, &before[p as int], &before[j - 1]);
                        }
                        T::lemma_rank_transitive(&before[i], &x, &before[j - 1]);
                    }
                } else {
                    assert(r@[i] == before[i - 1] && r@[j] == before[j - 1]);
                }
            }
        }
    }
    assert(orig.take(taken) =~= orig);
    r
}

/// Texts rank in lexicographic order.
impl Ranked for String {
    open spec fn rank_le(&self, other: &Self) -> bool {
        lex_le(self@, other@)
    }

    fn ranks_no_later(&self, other: &Self) -> (r: bool) {
        text_le(self.as_str(), other.as_str())
    }

    proof fn lemma_rank_total(a: &Self, b: &Self) {
        lemma_lex_le_total(a@, b@);
    }

    proof fn lemma_rank_transitive(a: &Self, b: &Self, c: &Self) {
        lemma_lex_le_transitive(a@, b@, c@);
    }
}

} // verus!
