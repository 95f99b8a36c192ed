//! The declaration that is being expanded, with the accessors that turn
//! down what cannot be expanded.

use vstd::prelude::*;
use crate::errs::ExpandError;
use crate::syntax::{
    Attribute, Data, DataStruct, DeriveInput, Fields, FieldsNamed, GenericParam, NamedField,
    Visibility,
};

verus! {

/// A declaration to expand into a record.
#[derive(Debug, Clone, PartialEq, Eq)]
pub struct GenericArrayStructParams(pub DeriveInput);

impl GenericArrayStructParams {
    /// Whether the declaration has exactly one generic parameter and that
    /// parameter is a type.
    pub open spec fn has_single_generic(&self) -> bool {
        &&& self.0.generics@.len() == 1
        &&& self.0.generics@[0] is Type
    }

    /// Whether the declaration is a struct.
    pub open spec fn is_struct(&self) -> bool {
        self.0.data is Struct
    }

    /// Whether the declaration is a struct with named fields.
    pub open spec fn has_named_fields(&self) -> bool {
        self.0.data matches Data::Struct(data) && data.fields is Named
    }

    /// The struct's named fields.
    pub open spec fn named(&self) -> Seq<NamedField>
        recommends
            self.has_named_fields(),
    {
        self.0.data->Struct_0.fields->Named_0.named@
    }

    /// The attributes on the declaration.
    pub fn attrs(&self) -> (attrs: &Vec<Attribute>)
        ensures
            *attrs == self.0.attrs,
    {
        &self.0.attrs
    }

    /// The visibility of the declaration.
    pub fn struct_vis(&self) -> (vis: &Visibility)
        ensures
            *vis == self.0.vis,
    {
        &self.0.vis
    }

    /// The name of the declaration.
    pub fn struct_ident(&self) -> (ident: &String)
        ensures
            *ident == self.0.ident,
    {
        &self.0.ident
    }

    /// The name of the single generic type parameter.
    pub fn generic_ident(&self) -> (ident: Result<&String, ExpandError>)
        ensures
            ident is Ok <==> self.has_single_generic(),
            ident is Ok ==> *ident->Ok_0 == self.0.generics@[0]->Type_0.ident,
            ident is Err ==> ident->Err_0 == ExpandError::ReqSingleGeneric,
    {
        if self.0.generics.len() != 1 {
            return Err(ExpandError::ReqSingleGeneric);
        }
        match &self.0.generics[0] {
            GenericParam::Type(param) => Ok(&param.ident),
            _ => Err(ExpandError::ReqSingleGeneric),
        }
    }

    /// The body of the struct.
    pub fn data_struct(&self) -> (data: Result<&DataStruct, ExpandError>)
        ensures
            data is Ok <==> self.is_struct(),
            data is Ok ==> *data->Ok_0 == self.0.data->Struct_0,
            data is Err ==> data->Err_0 == ExpandError::OnlyWorksWithStructs,
    {
        match &self.0.data {
            Data::Struct(data) => Ok(data),
            _ => Err(ExpandError::OnlyWorksWithStructs),
        }
    }

    /// The body of the struct, for rewriting: what is written through the
    /// reference becomes the body, and nothing else of the declaration
    /// changes. A declaration that is not a struct stays as it is.
    pub fn data_struct_mut(&mut self) -> (data: Result<&mut DataStruct, ExpandError>)
        ensures
            data is Ok <==> old(self).is_struct(),
            data is Ok ==> *data->Ok_0 == old(self).0.data->Struct_0,
            data is Ok ==> final(self).0 == (DeriveInput {
                data: Data::Struct(*final(data->Ok_0)),
                ..old(self).0
            }),
            data is Err ==> data->Err_0 == ExpandError::OnlyWorksWithStructs,
            data is Err ==> *final(self) == *old(self),
    {
        match &mut self.0.data {
            Data::Struct(data) => Ok(data),
            _ => Err(ExpandError::OnlyWorksWithStructs),
        }
    }

    /// The named fields of the struct.
    pub fn fields_named(&self) -> (fields: Result<&FieldsNamed, ExpandError>)
        ensures
            fields is Ok <==> self.has_named_fields(),
            fields is Ok ==> *fields->Ok_0 == self.0.data->Struct_0.fields->Named_0,
            fields is Err ==> fields->Err_0 == if self.is_struct() {
                ExpandError::OnlyWorksWithStructsWithNamedFields
            } else {
                ExpandError::OnlyWorksWithStructs
            },
    {
        match self.data_struct() {
            Ok(data) => match &data.fields {
                Fields::Named(fields) => Ok(fields),
                _ => Err(ExpandError::OnlyWorksWithStructsWithNamedFields),
            },
            Err(error) => Err(error),
        }
    }
}

/// Why the declaration cannot be expanded at all, if it cannot: it is not
/// a struct, or its fields are not named, or it does not have a single
/// generic type parameter, in this order.
pub open spec fn shape_error(params: GenericArrayStructParams) -> Option<ExpandError> {
    if !params.is_struct() {
        Some(ExpandError::OnlyWorksWithStructs)
    } else if !params.has_named_fields() {
        Some(ExpandError::OnlyWorksWithStructsWithNamedFields)
    } else if !params.has_single_generic() {
        Some(ExpandError::ReqSingleGeneric)
    } else {
        None
    }
}

} // verus!
