//! Pairing two records of the same shape field by field, and taking such a
//! record of pairs apart again.

use vstd::prelude::*;
use crate::record::Record;
use crate::storage::{lemma_storage_len, SlotStorage};

verus! {

/// The sequence that pairs `left` and `right` position by position.
pub open spec fn zipped<T, U>(left: Seq<T>, right: Seq<U>) -> Seq<(T, U)>
    recommends
        left.len() == right.len(),
{
    Seq::new(left.len(), |i: int| (left[i], right[i]))
}

/// The two sequences that the pairs of `pairs` are made of.
pub open spec fn unzipped<T, U>(pairs: Seq<(T, U)>) -> (Seq<T>, Seq<U>) {
    (Seq::new(pairs.len(), |i: int| pairs[i].0), Seq::new(pairs.len(), |i: int| pairs[i].1))
}

/// Taking apart what was paired gives back the two sequences that were
/// paired, whatever they hold.
pub proof fn lemma_unzip_zip<T, U>(left: Seq<T>, right: Seq<U>)
    requires
        left.len() == right.len(),
    ensures
        unzipped(zipped(left, right)) == (left, right),
{
    assert(unzipped(zipped(left, right)).0 =~= left);
    assert(unzipped(zipped(left, right)).1 =~= right);
}

/// Pairing what was taken apart gives back the pairs.
pub proof fn lemma_zip_unzip<T, U>(pairs: Seq<(T, U)>)
    ensures
        zipped(unzipped(pairs).0, unzipped(pairs).1) == pairs,
{
    assert(zipped(unzipped(pairs).0, unzipped(pairs).1) =~= pairs);
}

impl<T, const N: usize> Record<T, N> {
    /// The record whose field at every index is the pair of this record's
    /// field and `other`'s field at that index. Both records have `N`
    /// fields by their type.
    pub fn zip<U>(self, other: Record<U, N>) -> (pairs: Record<(T, U), N>)
        ensures
            pairs@ == zipped(self@, other@),
    {
        broadcast use lemma_storage_len;
        let mut left = SlotStorage::from_values(self.0);
        let mut right = SlotStorage::from_values(other.0);
        let mut out: SlotStorage<(T, U), N> = SlotStorage::create_empty();
        let mut index: usize = 0;
        while index < N
            invariant
                index <= N,
                left@.len() == N,
                right@.len() == N,
                out@.len() == N,
                forall|i: int| index <= i < N ==> left@[i] == Some(self@[i]),
                forall|i: int| index <= i < N ==> right@[i] == Some(other@[i]),
                forall|i: int| index <= i < N ==> out@[i] is None,
                forall|i: int| 0 <= i < index ==> out@[i] == Some((self@[i], other@[i])),
            decreases N - index,
        {
            let first = left.take(index);
            let second = right.take(index);
            out.write(index, (first, second));
            index += 1;
        }
        let pairs = Record(out.finalize_all());
        assert(pairs@ =~= zipped(self@, other@));
        pairs
    }
}

impl<T, U, const N: usize> Record<(T, U), N> {
    /// The record of the first components and the record of the second
    /// components of this record of pairs.
    pub fn unzip(self) -> (parts: (Record<T, N>, Record<U, N>))
        ensures
            (parts.0@, parts.1@) == unzipped(self@),
    {
        broadcast use lemma_storage_len;
        let mut pairs = SlotStorage::from_values(self.0);
        let mut left: SlotStorage<T, N> = SlotStorage::create_empty();
        let mut right: SlotStorage<U, N> = SlotStorage::create_empty();
        let mut index: usize = 0;
        while index < N
            invariant
                index <= N,
                pairs@.len() == N,
                left@.len() == N,
                right@.len() == N,
                forall|i: int| index <= i < N ==> pairs@[i] == Some(self@[i]),
                forall|i: int| index <= i < N ==> left@[i] is None,
                forall|i: int| index <= i < N ==> right@[i] is None,
                forall|i: int| 0 <= i < index ==> left@[i] == Some(self@[i].0),
                forall|i: int| 0 <= i < index ==> right@[i] == Some(self@[i].1),
            decreases N - index,
        {
            let (first, second) = pairs.take(index);
            left.write(index, first);
            right.write(index, second);
            index += 1;
        }
        let parts = (Record(left.finalize_all()), Record(right.finalize_all()));
        assert(parts.0@ =~= unzipped(self@).0);
        assert(parts.1@ =~= unzipped(self@).1);
        parts
    }
}

} // verus!
