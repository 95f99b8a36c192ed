//! The staged builder: slot storage together with one occupancy flag per
//! index, advanced one field at a time until every field is set.

use vstd::prelude::*;
use vstd::pervasive::runtime_assert;
use crate::record::Record;
use crate::storage::{all_occupied, contents, lemma_storage_len, SlotStorage};

verus! {

/// The number of occupied cells among `cells`.
pub open spec fn occupied_count<T>(cells: Seq<Option<T>>) -> nat
    decreases cells.len(),
{
    if cells.len() == 0 {
        0
    } else {
        occupied_count(cells.drop_last()) + if cells.last() is Some { 1nat } else { 0nat }
    }
}

/// `n` empty cells: the state a builder starts in.
pub open spec fn empty_cells<T>(n: nat) -> Seq<Option<T>> {
    Seq::new(n, |i: int| None::<T>)
}

/// The cells after `writes` have been applied to `cells` in order, each
/// write being the index of a field and the value it is set to.
pub open spec fn apply_writes<T>(cells: Seq<Option<T>>, writes: Seq<(int, T)>) -> Seq<Option<T>>
    decreases writes.len(),
{
    if writes.len() == 0 {
        cells
    } else {
        apply_writes(cells, writes.drop_last()).update(writes.last().0, Some(writes.last().1))
    }
}

/// Whether every write addresses one of `n` fields and no two writes
/// address the same field.
pub open spec fn each_index_at_most_once<T>(writes: Seq<(int, T)>, n: nat) -> bool {
    &&& forall|j: int| 0 <= j < writes.len() ==> 0 <= (#[trigger] writes[j]).0 < n
    &&& forall|j: int, k: int|
        0 <= j < k < writes.len() ==> (#[trigger] writes[j]).0 != (#[trigger] writes[k]).0
}

/// Whether some write among `writes` addresses the field at `index`.
pub open spec fn touched<T>(writes: Seq<(int, T)>, index: int) -> bool {
    exists|j: int| 0 <= j < writes.len() && (#[trigger] writes[j]).0 == index
}

/// A record under construction. The flag at an index is raised exactly when
/// the cell at that index holds a value.
pub struct Builder<T, const N: usize> {
    storage: SlotStorage<T, N>,
    occupied: [bool; N],
}

impl<T, const N: usize> View for Builder<T, N> {
    type V = Seq<Option<T>>;

    closed spec fn view(&self) -> Seq<Option<T>> {
        self.storage@
    }
}

/// A builder always has exactly `N` cells.
pub broadcast proof fn lemma_builder_len<T, const N: usize>(builder: Builder<T, N>)
    ensures
        #[trigger] builder@.len() == N,
{
    broadcast use lemma_storage_len;
}

impl<T, const N: usize> Builder<T, N> {
    #[verifier::type_invariant]
    spec fn flags_match_cells(self) -> bool {
        forall|i: int| 0 <= i < N ==> self.occupied@[i] == (#[trigger] self.storage@[i] is Some)
    }

    /// The occupancy state: one flag per index, raised where a field is set.
    pub open spec fn occupancy(&self) -> Seq<bool> {
        Seq::new(self@.len(), |i: int| self@[i] is Some)
    }

    /// The builder in its initial state: no field set.
    pub fn start() -> (builder: Self)
        ensures
            builder@ == empty_cells::<T>(N as nat),
    {
        let builder = Builder { storage: SlotStorage::create_empty(), occupied: [false; N] };
        assert(builder@ =~= empty_cells::<T>(N as nat));
        builder
    }

    /// Whether the field at `index` has been set.
    pub fn is_set(&self, index: usize) -> (set: bool)
        requires
            index < N,
        ensures
            set == self.occupancy()[index as int],
    {
        broadcast use lemma_builder_len;
        proof {
            use_type_invariant(self);
        }
        self.occupied[index]
    }

    /// Whether every field has been set, so that the builder can be
    /// finalized.
    pub fn is_complete(&self) -> (complete: bool)
        ensures
            complete == all_occupied(self@),
    {
        proof {
            use_type_invariant(self);
        }
        broadcast use lemma_builder_len;
        let mut index: usize = 0;
        while index < N
            invariant
                index <= N,
                self@.len() == N,
                forall|i: int| 0 <= i < N ==> self.occupied@[i] == (#[trigger] self@[i] is Some),
                forall|i: int| 0 <= i < index ==> self@[i] is Some,
            decreases N - index,
        {
            if !self.occupied[index] {
                assert(self@[index as int] is None);
                return false;
            }
            index += 1;
        }
        true
    }

    /// Sets the still-empty field at `index` to `value`. The builder that
    /// comes back is the one passed in, advanced by that one field. The
    /// occupancy flag is looked at once more when the program runs, so that
    /// a caller that was not verified cannot overwrite a field either.
    pub fn set_field(self, index: usize, value: T) -> (advanced: Self)
        requires
            index < N,
            self@[index as int] is None,
        ensures
            advanced@ == self@.update(index as int, Some(value)),
    {
        proof {
            use_type_invariant(&self);
        }
        broadcast use lemma_storage_len;
        let Builder { mut storage, mut occupied } = self;
        runtime_assert(!occupied[index]);
        storage.write(index, value);
        occupied[index] = true;
        assert forall|i: int| 0 <= i < N implies occupied@[i] == (#[trigger] storage@[i] is Some) by {
            assert(self.occupied@[i] == (self.storage@[i] is Some));
        }
        Builder { storage, occupied }
    }

    /// Turns the builder, every field of which is set, into the record of
    /// the values written, each at the index it was written to.
    pub fn finalize(self) -> (record: Record<T, N>)
        requires
            all_occupied(self@),
        ensures
            record@ == contents(self@),
    {
        let Builder { storage, occupied: _ } = self;
        Record(storage.finalize_all())
    }

    /// Gives the builder up before it is complete: walks the occupancy flags
    /// once and releases the cell of every raised flag, leaving the other
    /// cells untouched. Returns how many values were released.
    pub fn abandon(self) -> (released: usize)
        ensures
            released == occupied_count(self@),
    {
        proof {
            use_type_invariant(&self);
        }
        broadcast use lemma_storage_len;
        let Builder { mut storage, occupied } = self;
        let mut released: usize = 0;
        let mut index: usize = 0;
        while index < N
            invariant
                index <= N,
                released <= index,
                released == occupied_count(self@.take(index as int)),
                storage@.len() == N,
                self@.len() == N,
                forall|i: int| 0 <= i < N ==> occupied@[i] == (#[trigger] self@[i] is Some),
                forall|i: int| index <= i < N ==> storage@[i] == self@[i],
                forall|i: int| 0 <= i < index ==> storage@[i] is None,
            decreases N - index,
        {
            assert(self@.take(index + 1).drop_last() == self@.take(index as int));
            if occupied[index] {
                assert(self@[index as int] is Some);
                storage.release(index);
                released += 1;
            }
            index += 1;
        }
        assert(self@.take(N as int) == self@);
        released
    }
}

impl<T: Clone, const N: usize> Clone for Builder<T, N> {
    /// An independent builder in the same state: the value of every occupied
    /// cell is cloned, and no empty cell is looked at.
    fn clone(&self) -> (copy: Self)
        ensures
            copy@.len() == self@.len(),
            forall|i: int| 0 <= i < self@.len() ==> (copy@[i] is Some <==> self@[i] is Some),
            forall|i: int|
                0 <= i < self@.len() && self@[i] is Some ==> cloned::<T>(self@[i]->0, copy@[i]->0),
    {
        proof {
            use_type_invariant(self);
        }
        broadcast use lemma_storage_len;
        let mut storage: SlotStorage<T, N> = SlotStorage::create_empty();
        let mut index: usize = 0;
        while index < N
            invariant
                index <= N,
                storage@.len() == N,
                self@.len() == N,
                forall|i: int| 0 <= i < N ==> self.occupied@[i] == (#[trigger] self@[i] is Some),
                forall|i: int| index <= i < N ==> storage@[i] is None,
                forall|i: int| 0 <= i < index ==> (storage@[i] is Some <==> self@[i] is Some),
                forall|i: int|
                    0 <= i < index && self@[i] is Some ==> cloned::<T>(
                        self@[i]->0,
                        storage@[i]->0,
                    ),
            decreases N - index,
        {
            if self.occupied[index] {
                assert(self@[index as int] is Some);
                let value = self.storage.get(index).clone();
                storage.write(index, value);
            }
            index += 1;
        }
        assert forall|i: int| 0 <= i < N implies self.occupied@[i] == (
        #[trigger] storage@[i] is Some) by {
            assert(self.occupied@[i] == (self@[i] is Some));
        }
        Builder { storage, occupied: self.occupied }
    }
}

/// Applying writes never changes the number of cells, and a cell that no
/// write addresses keeps what it held.
pub proof fn lemma_apply_writes_frame<T>(cells: Seq<Option<T>>, writes: Seq<(int, T)>)
    requires
        forall|j: int| 0 <= j < writes.len() ==> 0 <= (#[trigger] writes[j]).0 < cells.len(),
    ensures
        apply_writes(cells, writes).len() == cells.len(),
        forall|i: int|
            0 <= i < cells.len() && !touched(writes, i) ==> apply_writes(cells, writes)[i]
                == cells[i],
    decreases writes.len(),
{
    if writes.len() > 0 {
        let before = writes.drop_last();
        lemma_apply_writes_frame(cells, before);
        assert forall|i: int| 0 <= i < cells.len() && !touched(writes, i) implies apply_writes(
            cells,
            writes,
        )[i] == cells[i] by {
            assert(writes[writes.len() - 1].0 != i);
            if touched(before, i) {
                let j = choose|j: int| 0 <= j < before.len() && (#[trigger] before[j]).0 == i;
                assert(writes[j].0 == i);
            }
        }
    }
}

/// Occupancy soundness: starting from `n` empty cells, after any sequence
/// of writes that touches each index at most once, every write found its
/// cell empty, the occupied cells are exactly the indices touched, and the
/// cells are all occupied, so that the builder can be finalized, exactly
/// when every index has been touched.
pub proof fn lemma_occupancy_soundness<T>(n: nat, writes: Seq<(int, T)>)
    requires
        each_index_at_most_once(writes, n),
    ensures
        apply_writes(empty_cells::<T>(n), writes).len() == n,
        forall|j: int|
            0 <= j < writes.len() ==> apply_writes(empty_cells::<T>(n), writes.take(j))[(
            #[trigger] writes[j]).0] is None,
        forall|i: int|
            0 <= i < n ==> (apply_writes(empty_cells::<T>(n), writes)[i] is Some <==> touched(
                writes,
                i,
            )),
        all_occupied(apply_writes(empty_cells::<T>(n), writes)) <==> (forall|i: int|
            0 <= i < n ==> touched(writes, i)),
{
    let start = empty_cells::<T>(n);
    let cells = apply_writes(start, writes);
    lemma_apply_writes_frame(start, writes);
    assert forall|j: int| 0 <= j < writes.len() implies apply_writes(start, writes.take(j))[(
    #[trigger] writes[j]).0] is None by {
        let earlier = writes.take(j);
        lemma_apply_writes_frame(start, earlier);
        if touched(earlier, writes[j].0) {
            let k = choose|k: int| 0 <= k < earlier.len() && (#[trigger] earlier[k]).0 == writes[j].0;
            assert(writes[k].0 == writes[j].0);
        }
    }
    assert forall|i: int| 0 <= i < n implies (cells[i] is Some <==> touched(writes, i)) by {
        if touched(writes, i) {
            let j = choose|j: int| 0 <= j < writes.len() && (#[trigger] writes[j]).0 == i;
            lemma_written_value_stays(start, writes, j);
        }
    }
    if all_occupied(cells) {
        assert forall|i: int| 0 <= i < n implies touched(writes, i) by {
            assert(cells[i] is Some);
        }
    }
    if forall|i: int| 0 <= i < n ==> touched(writes, i) {
        assert forall|i: int| 0 <= i < cells.len() implies cells[i] is Some by {
            assert(touched(writes, i));
        }
    }
}

/// Finalizing reinterprets and nothing more: once writes that touch each
/// index at most once have filled every cell, the values handed over by
/// `finalize` are, field by field, the values that were written.
pub proof fn lemma_finalize_returns_writes<T>(n: nat, writes: Seq<(int, T)>)
    requires
        each_index_at_most_once(writes, n),
        all_occupied(apply_writes(empty_cells::<T>(n), writes)),
    ensures
        contents(apply_writes(empty_cells::<T>(n), writes)).len() == n,
        forall|j: int|
            0 <= j < writes.len() ==> contents(apply_writes(empty_cells::<T>(n), writes))[(
            #[trigger] writes[j]).0] == writes[j].1,
{
    let start = empty_cells::<T>(n);
    lemma_apply_writes_frame(start, writes);
    assert forall|j: int| 0 <= j < writes.len() implies contents(apply_writes(start, writes))[(
    #[trigger] writes[j]).0] == writes[j].1 by {
        lemma_written_value_stays(start, writes, j);
    }
}

/// A value written to a field is what the field holds after all later
/// writes, none of which addresses that field.
proof fn lemma_written_value_stays<T>(cells: Seq<Option<T>>, writes: Seq<(int, T)>, j: int)
    requires
        each_index_at_most_once(writes, cells.len()),
        0 <= j < writes.len(),
    ensures
        apply_writes(cells, writes)[writes[j].0] == Some(writes[j].1),
    decreases writes.len(),
{
    let before = writes.drop_last();
    lemma_apply_writes_frame(cells, before);
    if j < writes.len() - 1 {
        lemma_written_value_stays(cells, before, j);
        assert(before[j] == writes[j]);
        assert(writes[writes.len() - 1].0 != writes[j].0);
    }
}

/// Writing to an empty cell raises the number of occupied cells by one.
proof fn lemma_occupied_count_after_write<T>(cells: Seq<Option<T>>, index: int, value: T)
    requires
        0 <= index < cells.len(),
        cells[index] is None,
    ensures
        occupied_count(cells.update(index, Some(value))) == occupied_count(cells) + 1,
    decreases cells.len(),
{
    let written = cells.update(index, Some(value));
    if index == cells.len() - 1 {
        assert(written.drop_last() =~= cells.drop_last());
    } else {
        lemma_occupied_count_after_write(cells.drop_last(), index, value);
        assert(written.drop_last() =~= cells.drop_last().update(index, Some(value)));
    }
}

/// Among empty cells none is occupied.
proof fn lemma_occupied_count_empty<T>(n: nat)
    ensures
        occupied_count(empty_cells::<T>(n)) == 0,
    decreases n,
{
    if n > 0 {
        lemma_occupied_count_empty::<T>((n - 1) as nat);
        assert(empty_cells::<T>(n).drop_last() =~= empty_cells::<T>((n - 1) as nat));
    }
}

/// No value is released twice and none that was never written: a builder
/// that is abandoned after writes that touch each index at most once
/// releases as many values as were written.
pub proof fn lemma_abandon_releases_what_was_written<T>(n: nat, writes: Seq<(int, T)>)
    requires
        each_index_at_most_once(writes, n),
    ensures
        occupied_count(apply_writes(empty_cells::<T>(n), writes)) == writes.len(),
    decreases writes.len(),
{
    if writes.len() == 0 {
        lemma_occupied_count_empty::<T>(n);
    } else {
        let before = writes.drop_last();
        lemma_abandon_releases_what_was_written(n, before);
        lemma_occupancy_soundness(n, writes);
        lemma_occupancy_soundness(n, before);
        assert(writes.take(writes.len() - 1) == before);
        assert(0 <= writes[writes.len() - 1].0 < n);
        lemma_occupied_count_after_write(
            apply_writes(empty_cells::<T>(n), before),
            writes.last().0,
            writes.last().1,
        );
    }
}

} // verus!
