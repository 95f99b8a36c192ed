//! The destructured view of a record: the same values, each under the name
//! that the schema gives its index.

use vstd::prelude::*;
use crate::record::Record;
use crate::schema::{is_first_index_of, Schema};

verus! {

/// What a named view holds: the names of the fields and their values, both
/// in index order.
pub ghost struct Named<T> {
    pub names: Seq<Seq<char>>,
    pub values: Seq<T>,
}

/// The named view of `values` under `names`.
pub open spec fn named<T>(values: Seq<T>, names: Seq<Seq<char>>) -> Named<T> {
    Named { names, values }
}

/// The values of a named view, without their names.
pub open spec fn unnamed<T>(view: Named<T>) -> Seq<T> {
    view.values
}

/// Converting values to their named view and back gives the values again,
/// whatever they are and however many.
pub proof fn lemma_named_round_trip<T>(values: Seq<T>, names: Seq<Seq<char>>)
    ensures
        unnamed(named(values, names)) == values,
{
}

/// Converting a named view to its values and back, under the same names,
/// gives the view again.
pub proof fn lemma_unnamed_round_trip<T>(view: Named<T>)
    ensures
        named(unnamed(view), view.names) == view,
{
}

/// A record taken apart into named fields.
pub struct NamedView<'a, T, const N: usize> {
    schema: &'a Schema,
    values: [T; N],
}

impl<'a, T, const N: usize> View for NamedView<'a, T, N> {
    type V = Named<T>;

    closed spec fn view(&self) -> Named<T> {
        Named { names: self.schema@, values: self.values@ }
    }
}

impl<'a, T, const N: usize> NamedView<'a, T, N> {
    #[verifier::type_invariant]
    spec fn one_name_per_value(self) -> bool {
        self.schema@.len() == N
    }

    /// The value of the field named `name`, if the schema has such a field.
    pub fn field(&self, name: &str) -> (value: Option<&T>)
        ensures
            match value {
                Some(v) => exists|i: int|
                    is_first_index_of(self@.names, name@, i) && *v == self@.values[i],
                None => forall|j: int| 0 <= j < self@.names.len() ==> self@.names[j] != name@,
            },
    {
        proof {
            use_type_invariant(self);
        }
        match self.schema.field_idx(name) {
            Some(index) => {
                let value = &self.values[index];
                assert(is_first_index_of(self@.names, name@, index as int) && *value
                    == self@.values[index as int]);
                Some(value)
            },
            None => None,
        }
    }
}

impl<T, const N: usize> Record<T, N> {
    /// Takes the record apart into its named view under `schema`, which
    /// names its `N` fields. No value is copied or changed.
    pub fn into_named_view<'a>(self, schema: &'a Schema) -> (view: NamedView<'a, T, N>)
        requires
            schema@.len() == N,
        ensures
            view@ == named(self@, schema@),
    {
        NamedView { schema, values: self.0 }
    }

    /// Puts the record together again from its named view. No value is
    /// copied or changed.
    pub fn from_named_view(view: NamedView<'_, T, N>) -> (record: Self)
        ensures
            record@ == unnamed(view@),
    {
        Record(view.values)
    }
}

} // verus!
