//! Slot storage: a fixed-size, ordered container of `N` cells, each of which
//! is empty or holds exactly one value.
//!
//! The storage keeps no record of its own that callers can query: whoever
//! drives it (a builder with its occupancy flags, a transform with its
//! watermark) must know which cells are occupied, and every operation that
//! touches a cell's value demands that knowledge as a precondition.

use vstd::prelude::*;

verus! {

pub struct SlotStorage<T, const N: usize> {
    cells: [Option<T>; N],
}

impl<T, const N: usize> View for SlotStorage<T, N> {
    type V = Seq<Option<T>>;

    closed spec fn view(&self) -> Seq<Option<T>> {
        self.cells@
    }
}

/// Whether every cell of `cells` is empty.
pub open spec fn all_empty<T>(cells: Seq<Option<T>>) -> bool {
    forall|i: int| 0 <= i < cells.len() ==> cells[i] is None
}

/// Whether every cell of `cells` holds a value.
pub open spec fn all_occupied<T>(cells: Seq<Option<T>>) -> bool {
    forall|i: int| 0 <= i < cells.len() ==> cells[i] is Some
}

/// The values held by fully occupied `cells`, in index order.
pub open spec fn contents<T>(cells: Seq<Option<T>>) -> Seq<T>
    recommends
        all_occupied(cells),
{
    Seq::new(cells.len(), |i: int| cells[i]->0)
}

/// The cells that hold `values`, every one occupied.
pub open spec fn occupied_by<T>(values: Seq<T>) -> Seq<Option<T>> {
    Seq::new(values.len(), |i: int| Some(values[i]))
}

/// A storage always has exactly `N` cells.
pub broadcast proof fn lemma_storage_len<T, const N: usize>(storage: SlotStorage<T, N>)
    ensures
        #[trigger] storage@.len() == N,
{
}

impl<T, const N: usize> SlotStorage<T, N> {
    /// A storage whose `N` cells are all empty.
    pub fn create_empty() -> (storage: Self)
        ensures
            storage@.len() == N,
            all_empty(storage@),
    {
        let cells = core::array::from_fn(
            |_index: usize| -> (cell: Option<T>)
                ensures
                    cell is None,
                { None });
        SlotStorage { cells }
    }

    /// A storage whose cells hold `values`, every one occupied.
    pub fn from_values(values: [T; N]) -> (storage: Self)
        ensures
            storage@ == occupied_by(values@),
    {
        let cells = values.map(
            |value: T| -> (cell: Option<T>)
                ensures
                    cell == Some(value),
                { Some(value) });
        assert(cells@ =~= occupied_by(values@));
        SlotStorage { cells }
    }

    /// Puts `value` into the empty cell at `index`.
    pub fn write(&mut self, index: usize, value: T)
        requires
            index < N,
            old(self)@[index as int] is None,
        ensures
            final(self)@ == old(self)@.update(index as int, Some(value)),
    {
        self.cells[index] = Some(value);
    }

    /// The value in the occupied cell at `index`.
    pub fn get(&self, index: usize) -> (value: &T)
        requires
            index < N,
            self@[index as int] is Some,
        ensures
            self@[index as int] == Some(*value),
    {
        self.cells[index].as_ref().unwrap()
    }

    /// Moves the value out of the occupied cell at `index`, leaving it empty.
    pub fn take(&mut self, index: usize) -> (value: T)
        requires
            index < N,
            old(self)@[index as int] is Some,
        ensures
            old(self)@[index as int] == Some(value),
            final(self)@ == old(self)@.update(index as int, None),
    {
        self.cells[index].take().unwrap()
    }

    /// Disposes of the value in the occupied cell at `index`, leaving it
    /// empty.
    pub fn release(&mut self, index: usize)
        requires
            index < N,
            old(self)@[index as int] is Some,
        ensures
            final(self)@ == old(self)@.update(index as int, None),
    {
        self.cells[index] = None;
    }

    /// Hands over the values of a fully occupied storage as an array, each
    /// value moved unchanged to the index of its cell.
    pub fn finalize_all(self) -> (values: [T; N])
        requires
            all_occupied(self@),
        ensures
            values@ == contents(self@),
    {
        assert(self@ == self.cells@);
        let values = self.cells.map(
            |cell: Option<T>| -> (value: T)
                requires
                    cell is Some,
                ensures
                    cell == Some(value),
                { cell.unwrap() });
        assert(values@ =~= contents(self@));
        values
    }
}

} // verus!
