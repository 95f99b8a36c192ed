//! The fallible elementwise transform: every field of a record is passed, in
//! index order, through a function that may fail. The outputs accumulate in
//! slot storage behind a single watermark; on the first failure exactly the
//! outputs produced so far are released and the failure is handed on.

use vstd::prelude::*;
use crate::record::Record;
use crate::storage::{lemma_storage_len, SlotStorage};

verus! {

/// The output side of a transform in progress: slot storage of which the
/// cells before the watermark are occupied and all others are empty.
pub struct MapEngine<B, const N: usize> {
    output: SlotStorage<B, N>,
    written: usize,
}

impl<B, const N: usize> View for MapEngine<B, N> {
    type V = Seq<B>;

    /// The outputs produced so far, in index order.
    closed spec fn view(&self) -> Seq<B> {
        Seq::new(self.written as nat, |i: int| self.output@[i]->0)
    }
}

impl<B, const N: usize> MapEngine<B, N> {
    #[verifier::type_invariant]
    spec fn prefix_occupied(self) -> bool {
        &&& self.written <= N
        &&& forall|i: int| 0 <= i < self.written ==> (#[trigger] self.output@[i]) is Some
        &&& forall|i: int| self.written <= i < N ==> (#[trigger] self.output@[i]) is None
    }

    /// An engine that has produced nothing yet.
    pub fn new() -> (engine: Self)
        ensures
            engine@ == Seq::<B>::empty(),
    {
        let engine = MapEngine { output: SlotStorage::create_empty(), written: 0 };
        assert(engine@ =~= Seq::<B>::empty());
        engine
    }

    /// The watermark: how many outputs have been produced.
    pub fn written(&self) -> (written: usize)
        ensures
            written == self@.len(),
            written <= N,
    {
        proof {
            use_type_invariant(self);
        }
        self.written
    }

    /// Stores `value` as the output for the next index and advances the
    /// watermark by one.
    pub fn accept(self, value: B) -> (advanced: Self)
        requires
            self@.len() < N,
        ensures
            advanced@ == self@.push(value),
    {
        proof {
            use_type_invariant(&self);
        }
        broadcast use lemma_storage_len;
        let MapEngine { mut output, written } = self;
        output.write(written, value);
        let advanced = MapEngine { output, written: written + 1 };
        assert(advanced@ =~= self@.push(value));
        advanced
    }

    /// Abandons the transform: releases the outputs at the indices before
    /// the watermark, one by one, and touches no cell at or after it.
    /// Returns how many outputs were released.
    pub fn rollback(self) -> (released: usize)
        ensures
            released == self@.len(),
    {
        proof {
            use_type_invariant(&self);
        }
        broadcast use lemma_storage_len;
        let MapEngine { mut output, written } = self;
        let mut index: usize = 0;
        while index < written
            invariant
                index <= written <= N,
                output@.len() == N,
                forall|i: int| index <= i < written ==> (#[trigger] output@[i]) is Some,
            decreases written - index,
        {
            output.release(index);
            index += 1;
        }
        index
    }

    /// Hands over the outputs as a record once one has been produced for
    /// every index.
    pub fn finish(self) -> (record: Record<B, N>)
        requires
            self@.len() == N,
        ensures
            record@ == self@,
    {
        proof {
            use_type_invariant(&self);
        }
        broadcast use lemma_storage_len;
        let MapEngine { output, written: _ } = self;
        let record = Record(output.finalize_all());
        assert(record@ =~= self@);
        record
    }
}

/// Whether `f` may succeed on every element of `input` with the element of
/// `output` at the same index as its result.
pub open spec fn maps_all<A, B, E, F: FnMut(A) -> Result<B, E>>(
    f: F,
    input: Seq<A>,
    output: Seq<B>,
) -> bool {
    &&& output.len() == input.len()
    &&& forall|i: int| 0 <= i < input.len() ==> call_ensures(f, (input[i],), Ok(#[trigger] output[i]))
}

/// Whether `f` may fail on `element`.
pub open spec fn may_fail<A, B, E, F: FnMut(A) -> Result<B, E>>(f: F, element: A) -> bool {
    exists|error: E| call_ensures(f, (element,), Err::<B, E>(error))
}

/// Whether `f` cannot fail on any element of `input`.
pub open spec fn never_fails<A, B, E, F: FnMut(A) -> Result<B, E>>(f: F, input: Seq<A>) -> bool {
    forall|i: int| 0 <= i < input.len() ==> !may_fail(f, #[trigger] input[i])
}

/// Whether `f` cannot succeed on some element of `input`.
pub open spec fn fails_somewhere<A, B, E, F: FnMut(A) -> Result<B, E>>(f: F, input: Seq<A>) -> bool {
    exists|i: int| 0 <= i < input.len() && !may_succeed(f, #[trigger] input[i])
}

/// Whether `f` may succeed on `element`.
pub open spec fn may_succeed<A, B, E, F: FnMut(A) -> Result<B, E>>(f: F, element: A) -> bool {
    exists|output: B| call_ensures(f, (element,), Ok::<B, E>(output))
}

/// Whether `f` may succeed on every element of `input` before index `k` and
/// fail on the element at `k` with `error`.
pub open spec fn fails_first_at<A, B, E, F: FnMut(A) -> Result<B, E>>(
    f: F,
    input: Seq<A>,
    k: int,
    error: E,
) -> bool {
    &&& 0 <= k < input.len()
    &&& call_ensures(f, (input[k],), Err::<B, E>(error))
    &&& forall|i: int| 0 <= i < k ==> may_succeed(f, #[trigger] input[i])
}

/// Whether `f` may return a value on every element of `input` with the
/// element of `output` at the same index as that value.
pub open spec fn maps_all_opt<A, B, F: FnMut(A) -> Option<B>>(
    f: F,
    input: Seq<A>,
    output: Seq<B>,
) -> bool {
    &&& output.len() == input.len()
    &&& forall|i: int|
        0 <= i < input.len() ==> call_ensures(f, (input[i],), Some(#[trigger] output[i]))
}

/// Whether `f` returns a value on every element of `input`.
pub open spec fn never_gives_none<A, B, F: FnMut(A) -> Option<B>>(f: F, input: Seq<A>) -> bool {
    forall|i: int| 0 <= i < input.len() ==> !call_ensures(f, (#[trigger] input[i],), None::<B>)
}

/// Whether `f` cannot return a value on some element of `input`.
pub open spec fn gives_none_somewhere<A, B, F: FnMut(A) -> Option<B>>(f: F, input: Seq<A>) -> bool {
    exists|i: int| 0 <= i < input.len() && !may_give_some(f, #[trigger] input[i])
}

/// Whether `f` may return a value on `element`.
pub open spec fn may_give_some<A, B, F: FnMut(A) -> Option<B>>(f: F, element: A) -> bool {
    exists|output: B| call_ensures(f, (element,), Some(output))
}

/// Whether `f` may return a value on every element of `input` before index
/// `k` and nothing on the element at `k`.
pub open spec fn gives_none_first_at<A, B, F: FnMut(A) -> Option<B>>(
    f: F,
    input: Seq<A>,
    k: int,
) -> bool {
    &&& 0 <= k < input.len()
    &&& call_ensures(f, (input[k],), None::<B>)
    &&& forall|i: int| 0 <= i < k ==> may_give_some(f, #[trigger] input[i])
}

impl<T, const N: usize> Record<T, N> {
    /// Passes the fields through `f` in index order, each moved out of the
    /// record. If `f` succeeds on all of them the result is the record of
    /// its outputs. Otherwise `f` is not called again after its first
    /// failure, the outputs produced before it are released, and the error
    /// of that failure is returned as it came.
    pub fn try_map<B, E, F: FnMut(T) -> Result<B, E>>(self, f: F) -> (result: Result<
        Record<B, N>,
        E,
    >)
        requires
            forall|i: int| 0 <= i < N ==> call_requires(f, (#[trigger] self@[i],)),
        ensures
            result is Ok ==> maps_all(f, self@, result->Ok_0@),
            result is Err ==> exists|k: int| fails_first_at(f, self@, k, result->Err_0),
            never_fails(f, self@) ==> result is Ok,
            fails_somewhere(f, self@) ==> result is Err,
    {
        broadcast use lemma_storage_len;
        let mut apply = f;
        let mut input = SlotStorage::from_values(self.0);
        let mut engine: MapEngine<B, N> = MapEngine::new();
        let mut index: usize = 0;
        while index < N
            invariant
                index <= N,
                input@.len() == N,
                engine@.len() == index,
                apply == f,
                forall|i: int| 0 <= i < N ==> call_requires(f, (#[trigger] self@[i],)),
                forall|i: int| index <= i < N ==> input@[i] == Some(self@[i]),
                forall|i: int|
                    0 <= i < index ==> call_ensures(f, (self@[i],), Ok(#[trigger] engine@[i])),
            decreases N - index,
        {
            let value = input.take(index);
            assert(value == self@[index as int]);
            match apply(value) {
                Ok(output) => {
                    engine = engine.accept(output);
                },
                Err(error) => {
                    engine.rollback();
                    assert forall|i: int| 0 <= i < index implies may_succeed(
                        f,
                        #[trigger] self@[i],
                    ) by {
                        assert(call_ensures(f, (self@[i],), Ok::<B, E>(engine@[i])));
                    }
                    let failure: Result<Record<B, N>, E> = Err(error);
                    assert(fails_first_at(f, self@, index as int, failure->Err_0));
                    return failure;
                },
            }
            index += 1;
        }
        assert forall|i: int| 0 <= i < N implies may_succeed(f, #[trigger] self@[i]) by {
            assert(call_ensures(f, (self@[i],), Ok::<B, E>(engine@[i])));
        }
        Ok(engine.finish())
    }

    /// As `try_map`, for a function whose failure carries no detail.
    pub fn try_map_opt<B, F: FnMut(T) -> Option<B>>(self, f: F) -> (result: Option<Record<B, N>>)
        requires
            forall|i: int| 0 <= i < N ==> call_requires(f, (#[trigger] self@[i],)),
        ensures
            result is Some ==> maps_all_opt(f, self@, result->0@),
            result is None ==> exists|k: int| gives_none_first_at(f, self@, k),
            never_gives_none(f, self@) ==> result is Some,
            gives_none_somewhere(f, self@) ==> result is None,
    {
        broadcast use lemma_storage_len;
        let mut apply = f;
        let mut input = SlotStorage::from_values(self.0);
        let mut engine: MapEngine<B, N> = MapEngine::new();
        let mut index: usize = 0;
        while index < N
            invariant
                index <= N,
                input@.len() == N,
                engine@.len() == index,
                apply == f,
                forall|i: int| 0 <= i < N ==> call_requires(f, (#[trigger] self@[i],)),
                forall|i: int| index <= i < N ==> input@[i] == Some(self@[i]),
                forall|i: int|
                    0 <= i < index ==> call_ensures(f, (self@[i],), Some(#[trigger] engine@[i])),
            decreases N - index,
        {
            let value = input.take(index);
            assert(value == self@[index as int]);
            match apply(value) {
                Some(output) => {
                    engine = engine.accept(output);
                },
                None => {
                    engine.rollback();
                    assert forall|i: int| 0 <= i < index implies may_give_some(
                        f,
                        #[trigger] self@[i],
                    ) by {
                        assert(call_ensures(f, (self@[i],), Some(engine@[i])));
                    }
                    assert(gives_none_first_at(f, self@, index as int));
                    return None;
                },
            }
            index += 1;
        }
        assert forall|i: int| 0 <= i < N implies may_give_some(f, #[trigger] self@[i]) by {
            assert(call_ensures(f, (self@[i],), Some(engine@[i])));
        }
        Some(engine.finish())
    }
}

} // verus!
