//! The record: `N` values of one type, all present, addressed by index.

use vstd::prelude::*;

verus! {

/// A fully occupied record. A record with a missing field cannot be made:
/// the array it wraps always holds `N` values.
#[derive(Debug, Clone, Copy, PartialEq, Eq, Hash)]
pub struct Record<T, const N: usize>(pub [T; N]);

impl<T, const N: usize> View for Record<T, N> {
    type V = Seq<T>;

    open spec fn view(&self) -> Seq<T> {
        self.0@
    }
}

impl<T, const N: usize> Record<T, N> {
    /// The number of fields.
    pub fn len(&self) -> (n: usize)
        ensures
            n == N,
            n == self@.len(),
    {
        N
    }

    /// The field at `index`.
    pub fn get(&self, index: usize) -> (value: &T)
        requires
            index < N,
        ensures
            *value == self@[index as int],
    {
        &self.0[index]
    }

    /// The field at `index`, for writing: what is written through the
    /// reference becomes the field's value, and no other field changes.
    pub fn get_mut(&mut self, index: usize) -> (value: &mut T)
        requires
            index < N,
        ensures
            *value == old(self)@[index as int],
            final(self)@ == old(self)@.update(index as int, *final(value)),
    {
        &mut self.0[index]
    }

    /// Replaces the field at `index` by `value` and returns the value it
    /// held before.
    pub fn set(&mut self, index: usize, value: T) -> (previous: T)
        requires
            index < N,
        ensures
            previous == old(self)@[index as int],
            final(self)@ == old(self)@.update(index as int, value),
    {
        let mut value = value;
        core::mem::swap(&mut self.0[index], &mut value);
        value
    }

    /// The record with the field at `index` replaced by `value`.
    pub fn with(self, index: usize, value: T) -> (updated: Self)
        requires
            index < N,
        ensures
            updated@ == self@.update(index as int, value),
    {
        let mut updated = self;
        updated.0[index] = value;
        updated
    }
}

impl<T: Default, const N: usize> Default for Record<T, N> {
    /// The record whose every field is a default value of the element type.
    fn default() -> (record: Self)
        ensures
            forall|i: int| 0 <= i < N ==> call_ensures(T::default, (), #[trigger] record@[i]),
    {
        Record(
            core::array::from_fn(
                |_index: usize| -> (value: T)
                    ensures
                        call_ensures(T::default, (), value),
                    { T::default() }),
        )
    }
}

} // verus!
