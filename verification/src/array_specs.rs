//! Specifications of the array constructors of `core` that the slot storage
//! is built on. Nothing here is proved: each states what the documentation
//! of the function promises.

use vstd::prelude::*;

verus! {

/// `core::array::from_fn` calls `f` once for every index of the array,
/// walking forward, and places each result at the index it was produced for.
/// The array therefore holds, at every index, a value that `f` may return
/// for that index.
pub assume_specification<Item, const LEN: usize, Make: FnMut(usize) -> Item>[ core::array::from_fn::<Item, LEN, Make> ](
    f: Make,
) -> (array: [Item; LEN])
    requires
        forall|i: usize| i < LEN ==> call_requires(f, (i,)),
    ensures
        forall|i: int| 0 <= i < LEN ==> call_ensures(f, (i as usize,), #[trigger] array@[i]),
;

/// `<[Item; LEN]>::map` applies `f` to each element in order and returns the
/// array of the results, of the same size: the result at every index is a
/// value that `f` may return for the element that stood at that index.
pub assume_specification<Item, const LEN: usize, Func: FnMut(Item) -> Out, Out>[ <[Item; LEN]>::map::<Func, Out> ](
    array: [Item; LEN],
    f: Func,
) -> (mapped: [Out; LEN])
    requires
        forall|i: int| 0 <= i < LEN ==> call_requires(f, (#[trigger] array@[i],)),
    ensures
        forall|i: int| 0 <= i < LEN ==> call_ensures(f, (array@[i],), #[trigger] mapped@[i]),
;

} // verus!
