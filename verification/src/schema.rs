//! The schema of a record shape: the names of its fields in index order.
//! It alone says which index a field's name stands for.

use vstd::prelude::*;
use crate::expand::Expansion;
use crate::utils::same_text;

verus! {

/// The names of the fields of a record, each at the index of its field.
#[derive(Debug, PartialEq, Eq)]
pub struct Schema {
    fields: Vec<String>,
}

impl View for Schema {
    type V = Seq<Seq<char>>;

    closed spec fn view(&self) -> Seq<Seq<char>> {
        Seq::new(self.fields@.len(), |i: int| self.fields@[i]@)
    }
}

/// Whether `index` is the first index at which `names` holds `name`.
pub open spec fn is_first_index_of(names: Seq<Seq<char>>, name: Seq<char>, index: int) -> bool {
    &&& 0 <= index < names.len()
    &&& names[index] == name
    &&& forall|j: int| 0 <= j < index ==> names[j] != name
}

impl Schema {
    /// The schema of the fields named `fields`, in this order.
    pub fn new(fields: Vec<String>) -> (schema: Self)
        ensures
            schema@.len() == fields@.len(),
            forall|i: int| 0 <= i < fields@.len() ==> schema@[i] == fields@[i]@,
    {
        Schema { fields }
    }

    /// The number of fields: the length of every record of this shape.
    pub fn len(&self) -> (n: usize)
        ensures
            n == self@.len(),
    {
        self.fields.len()
    }

    /// The name of the field at `index`.
    pub fn field_ident(&self, index: usize) -> (ident: &str)
        requires
            index < self@.len(),
        ensures
            ident@ == self@[index as int],
    {
        self.fields[index].as_str()
    }

    /// The index that the field named `field` is assigned: the first index
    /// at which the schema holds that name, and `None` if it holds it
    /// nowhere.
    pub fn field_idx(&self, field: &str) -> (index: Option<usize>)
        ensures
            match index {
                Some(i) => is_first_index_of(self@, field@, i as int),
                None => forall|j: int| 0 <= j < self@.len() ==> self@[j] != field@,
            },
    {
        let mut i: usize = 0;
        while i < self.fields.len()
            invariant
                i <= self.fields@.len(),
                self@.len() == self.fields@.len(),
                forall|j: int| 0 <= j < i ==> self@[j] != field@,
            decreases self.fields@.len() - i,
        {
            if same_text(self.fields[i].as_str(), field) {
                assert(self@[i as int] == self.fields@[i as int]@);
                return Some(i);
            }
            assert(self@[i as int] == self.fields@[i as int]@);
            i += 1;
        }
        None
    }
}

impl Expansion {
    /// The schema of the record that this expansion generates: the names of
    /// its fields in index order.
    pub fn schema(&self) -> (schema: Schema)
        ensures
            schema@.len() == self.fields@.len(),
            forall|i: int| 0 <= i < self.fields@.len() ==> schema@[i] == self.fields@[i].ident@,
    {
        let mut names: Vec<String> = Vec::new();
        let mut i: usize = 0;
        while i < self.fields.len()
            invariant
                i <= self.fields@.len(),
                names@.len() == i,
                forall|j: int| 0 <= j < i ==> (#[trigger] names@[j])@ == self.fields@[j].ident@,
            decreases self.fields@.len() - i,
        {
            names.push(self.fields[i].ident.clone());
            i += 1;
        }
        Schema::new(names)
    }
}

} // verus!
