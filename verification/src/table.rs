//! A generic identity-keyed table: the persistence model shared by every
//! resource store. Rows carry their own integer identity; the table keeps
//! the keys distinct and hands out strictly growing fresh keys, so an
//! identity is never reused once assigned.

use vstd::prelude::*;

verus! {

/// A row type keyed by its integer identity.
pub trait Keyed: Sized {
    /// The row's identity.
    spec fn key(self) -> i32;

    /// Reads the identity of the row.
    fn key_of(&self) -> (k: i32)
        ensures
            k == self.key(),
    ;
}

/// Whether some row of `s` has identity `id`.
pub open spec fn has_key<T: Keyed>(s: Seq<T>, id: i32) -> bool {
    exists|i: int| 0 <= i < s.len() && s[i].key() == id
}

/// The index of the row of `s` with identity `id` (unique when keys are).
pub open spec fn key_index<T: Keyed>(s: Seq<T>, id: i32) -> int {
    choose|i: int| 0 <= i < s.len() && s[i].key() == id
}

/// All rows of `s` have pairwise distinct identities.
pub open spec fn unique_keys<T: Keyed>(s: Seq<T>) -> bool {
    forall|i: int, j: int|
        0 <= i < j < s.len() ==> #[trigger] s[i].key() != #[trigger] s[j].key()
}

/// Two rows of a duplicate-free sequence with the same key are the same row.
pub proof fn lemma_unique_row<T: Keyed>(s: Seq<T>, a: T, b: T)
    requires
        unique_keys(s),
        s.contains(a),
        s.contains(b),
        a.key() == b.key(),
    ensures
        a == b,
{
    let i = choose|i: int| 0 <= i < s.len() && s[i] == a;
    let j = choose|j: int| 0 <= j < s.len() && s[j] == b;
    if i != j {
        assert(s[i].key() != s[j].key());
    }
}

/// A key at or above a bound on all keys occurs nowhere. Every operation
/// keeps a table's `next` from decreasing and keeps every key below it,
/// so a key once assigned — even to a row deleted since — is never
/// assigned again.
pub proof fn lemma_bounded_keys_unused<T: Keyed>(s: Seq<T>, bound: int, k: i32)
    requires
        forall|i: int| 0 <= i < s.len() ==> #[trigger] s[i].key() < bound,
        k >= bound,
    ensures
        !has_key(s, k),
{
}

/// Rows with pairwise distinct identities, plus the next identity to assign.
pub struct Table<T> {
    entries: Vec<T>,
    next_key: i32,
}

impl<T: Keyed> Table<T> {
    /// The rows, in insertion order.
    pub closed spec fn rows(self) -> Seq<T> {
        self.entries@
    }

    /// The identity the next insertion will receive.
    pub closed spec fn next(self) -> int {
        self.next_key as int
    }

    /// Every key lies in `[1, next)` and the keys are distinct.
    pub open spec fn wf(self) -> bool {
        &&& 1 <= self.next() <= i32::MAX
        &&& forall|i: int|
            0 <= i < self.rows().len() ==> 1 <= #[trigger] self.rows()[i].key() < self.next()
        &&& unique_keys(self.rows())
    }

    /// An empty table that will assign identities from 1 upward.
    pub fn new() -> (t: Self)
        ensures
            t.wf(),
            t.rows() == Seq::<T>::empty(),
            t.next() == 1,
    {
        Table { entries: Vec::new(), next_key: 1 }
    }

    /// The number of rows.
    pub fn len(&self) -> (n: usize)
        ensures
            n == self.rows().len(),
    {
        self.entries.len()
    }

    /// The row at position `i`.
    pub fn row_at(&self, i: usize) -> (r: &T)
        requires
            i < self.rows().len(),
        ensures
            *r == self.rows()[i as int],
    {
        &self.entries[i]
    }

    /// The position of the row with identity `id`, if one exists.
    pub fn find_index(&self, id: i32) -> (r: Option<usize>)
        requires
            self.wf(),
        ensures
            r matches Some(i) ==> i < self.rows().len() && self.rows()[i as int].key() == id
                && has_key(self.rows(), id) && key_index(self.rows(), id) == i,
            r is None ==> !has_key(self.rows(), id),
    {
        let n = self.entries.len();
        let mut i: usize = 0;
        while i < n
            invariant
                self.wf(),
                i <= n,
                n == self.rows().len(),
                forall|j: int| 0 <= j < i ==> #[trigger] self.rows()[j].key() != id,
            decreases n - i,
        {
            if self.entries[i].key_of() == id {
                proof {
                    let k = key_index(self.rows(), id);
                    assert(has_key(self.rows(), id));
                    if k != i {
                        assert(self.rows()[k].key() != self.rows()[i as int].key());
                    }
                }
                return Some(i);
            }
            i += 1;
        }
        None
    }

    /// The identity a new row would receive, or `None` when the key space
    /// is exhausted.
    pub fn fresh_key(&self) -> (r: Option<i32>)
        requires
            self.wf(),
        ensures
            r matches Some(k) ==> k == self.next() && self.next() < i32::MAX,
            r is None ==> self.next() == i32::MAX,
    {
        if self.next_key < i32::MAX {
            Some(self.next_key)
        } else {
            None
        }
    }

    /// Appends a row carrying the fresh key; the key was never present.
    pub fn insert(&mut self, x: T)
        requires
            old(self).wf(),
            old(self).next() < i32::MAX,
            x.key() == old(self).next(),
        ensures
            final(self).wf(),
            final(self).rows() == old(self).rows().push(x),
            final(self).next() == old(self).next() + 1,
            !has_key(old(self).rows(), x.key()),
    {
        self.entries.push(x);
        self.next_key = self.next_key + 1;
    }

    /// Replaces the row at `i` by one with the same identity.
    pub fn replace_at(&mut self, i: usize, x: T)
        requires
            old(self).wf(),
            i < old(self).rows().len(),
            x.key() == old(self).rows()[i as int].key(),
        ensures
            final(self).wf(),
            final(self).rows() == old(self).rows().update(i as int, x),
            final(self).next() == old(self).next(),
    {
        self.entries.remove(i);
        self.entries.insert(i, x);
        proof {
            assert(self.rows() =~= old(self).rows().update(i as int, x));
        }
    }

    /// Removes and returns the row at `i`.
    pub fn remove_at(&mut self, i: usize) -> (x: T)
        requires
            old(self).wf(),
            i < old(self).rows().len(),
        ensures
            final(self).wf(),
            final(self).rows() == old(self).rows().remove(i as int),
            final(self).next() == old(self).next(),
            x == old(self).rows()[i as int],
    {
        let x = self.entries.remove(i);
        proof {
            assert forall|k: int| 0 <= k < self.rows().len() implies 1 <= #[trigger] self.rows()[k].key()
                < self.next() by {
            }
        }
        x
    }
}

} // verus!
