//! Canonical listing order. Every resource lists its rows sorted by a
//! resource-specific total preorder ("nulls last" on the optional order
//! key); the sort below works for any of them.

use vstd::prelude::*;
use vstd::relations::sorted_by;

verus! {

broadcast use vstd::seq_lib::group_to_multiset_ensures, vstd::multiset::group_multiset_axioms;

/// A row type with a canonical listing order.
pub trait ListOrdered: Sized {
    /// The listing order: a total preorder.
    spec fn leq(self, other: Self) -> bool;

    /// The order is total (hence also reflexive).
    proof fn lemma_total(a: Self, b: Self)
        ensures
            a.leq(b) || b.leq(a),
    ;

    /// The order is transitive.
    proof fn lemma_trans(a: Self, b: Self, c: Self)
        requires
            a.leq(b),
            b.leq(c),
        ensures
            a.leq(c),
    ;

    /// Decides the order.
    fn le(&self, other: &Self) -> (r: bool)
        ensures
            r == self.leq(*other),
    ;
}

/// The listing order as a binary spec function, for `sorted_by`.
pub open spec fn leq_fn<T: ListOrdered>() -> spec_fn(T, T) -> bool {
    |a: T, b: T| a.leq(b)
}

/// Ascending order on optional keys, with absent keys after all present ones.
pub open spec fn asc_nulls_last(a: Option<int>, b: Option<int>) -> bool {
    match (a, b) {
        (Some(x), Some(y)) => x <= y,
        (Some(_), None) => true,
        (None, Some(_)) => false,
        (None, None) => true,
    }
}

/// Descending order on optional keys, with absent keys after all present ones.
pub open spec fn desc_nulls_last(a: Option<int>, b: Option<int>) -> bool {
    match (a, b) {
        (Some(x), Some(y)) => y <= x,
        (Some(_), None) => true,
        (None, Some(_)) => false,
        (None, None) => true,
    }
}

/// An optional 32-bit order key, as a mathematical one.
pub open spec fn opt_key32(o: Option<i32>) -> Option<int> {
    match o {
        Some(x) => Some(x as int),
        None => None,
    }
}

/// An optional 64-bit order key, as a mathematical one.
pub open spec fn opt_key64(o: Option<i64>) -> Option<int> {
    match o {
        Some(x) => Some(x as int),
        None => None,
    }
}

/// Filtering a sequence extended by one element.
pub proof fn lemma_filter_push<T>(s: Seq<T>, x: T, p: spec_fn(T) -> bool)
    ensures
        s.push(x).filter(p) == (if p(x) {
            s.filter(p).push(x)
        } else {
            s.filter(p)
        }),
{
    reveal(Seq::filter);
    assert(s.push(x).drop_last() =~= s);
    assert(s.push(x).last() == x);
}

/// Filtering the empty sequence.
pub proof fn lemma_filter_empty<T>(p: spec_fn(T) -> bool)
    ensures
        Seq::<T>::empty().filter(p) == Seq::<T>::empty(),
{
    reveal(Seq::filter);
}

/// Sorts rows into the canonical listing order, keeping exactly the given
/// rows (as a multiset).
pub fn sort_for_listing<T: ListOrdered>(input: Vec<T>) -> (r: Vec<T>)
    ensures
        sorted_by(r@, leq_fn::<T>()),
        r@.to_multiset() == input@.to_multiset(),
{
    let mut src = input;
    let mut out: Vec<T> = Vec::new();
    proof {
        assert(out@.to_multiset().add(src@.to_multiset()) =~= src@.to_multiset());
    }
    let ghost all = src@.to_multiset();
    while src.len() > 0
        invariant
            out@.to_multiset().add(src@.to_multiset()) == all,
            sorted_by(out@, leq_fn::<T>()),
            forall|i: int, j: int|
                0 <= i < out@.len() && 0 <= j < src@.len() ==> #[trigger] out@[i].leq(
                    #[trigger] src@[j],
                ),
        decreases src.len(),
    {
        let mut m: usize = 0;
        let mut k: usize = 1;
        proof {
            T::lemma_total(src@[0], src@[0]);
        }
        while k < src.len()
            invariant
                src@.len() > 0,
                m < k,
                k <= src@.len(),
                forall|j: int| 0 <= j < k ==> src@[m as int].leq(#[trigger] src@[j]),
            decreases src.len() - k,
        {
            let better = !src[m].le(&src[k]);
            proof {
                T::lemma_total(src@[m as int], src@[k as int]);
                if better {
                    assert forall|j: int| 0 <= j < k + 1 implies src@[k as int].leq(
                        #[trigger] src@[j],
                    ) by {
                        if j < k {
                            T::lemma_trans(src@[k as int], src@[m as int], src@[j]);
                        } else {
                            T::lemma_total(src@[k as int], src@[k as int]);
                        }
                    }
                }
            }
            if better {
                m = k;
            }
            k += 1;
        }
        let ghost old_src = src@;
        let ghost old_out = out@;
        let x = src.remove(m);
        out.push(x);
        proof {
            assert(old_src.contains(x));
            assert(src@.to_multiset() =~= old_src.to_multiset().remove(x));
            assert(out@.to_multiset() =~= old_out.to_multiset().insert(x));
            assert(out@.to_multiset().add(src@.to_multiset()) =~= all);
            // every remaining row is one of the old rows past the minimum scan
            assert forall|j: int| 0 <= j < src@.len() implies old_src.contains(
                #[trigger] src@[j],
            ) && x.leq(src@[j]) by {
                if j < m {
                    assert(src@[j] == old_src[j]);
                } else {
                    assert(src@[j] == old_src[j + 1]);
                }
            }
            assert forall|i: int, j: int|
                0 <= i < out@.len() && 0 <= j < src@.len() implies #[trigger] out@[i].leq(
                #[trigger] src@[j],
            ) by {
                if i < old_out.len() {
                    assert(out@[i] == old_out[i]);
                } else {
                    assert(out@[i] == x);
                }
            }
            assert forall|i: int, j: int| 0 <= i < j < out@.len() implies leq_fn::<T>()(
                out@[i],
                out@[j],
            ) by {
                if j < old_out.len() {
                    assert(leq_fn::<T>()(old_out[i], old_out[j]));
                } else {
                    assert(out@[j] == x);
                    assert(old_out[i].leq(old_src[m as int]));
                }
            }
        }
    }
    out
}

} // verus!
