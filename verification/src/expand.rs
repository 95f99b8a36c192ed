//! What a record declaration expands to: a length constant, for every field
//! an index constant and the names of its accessors, and the declaration
//! itself rewritten as a tuple struct over one array.

use vstd::prelude::*;
use crate::attr_args::AttrArgs;
use crate::errs::ExpandError;
use crate::expand_builder::{
    declared_field_vis, impl_builder, is_builder_expansion, BuilderExpansion,
};
use crate::idents::{
    array_len_ident, const_with_ident, field_idx_ident, ident_mut, set_ident, shouty_snake_case,
    with_ident,
};
use crate::params::GenericArrayStructParams;
use crate::syntax::{Data, Fields, FieldsUnnamed, Type, UnnamedField, Visibility};
use crate::utils::{path_from_ident, same_text};

verus! {

/// What the index constant and the accessors of one field are generated
/// from.
#[derive(Debug, Clone, PartialEq, Eq)]
pub struct FieldExpansion {
    /// The visibility of the field, which its constant and accessors share.
    pub vis: Visibility,
    /// The name of the field, which is the name of its getter.
    pub ident: String,
    /// The index of the field: its position among the declared fields.
    pub index: usize,
    /// The name of the field's index constant.
    pub idx_ident: String,
    /// The name of the mutable accessor.
    pub mut_ident: String,
    /// The name of the setter.
    pub set_ident: String,
    /// The name of the functional update.
    pub with_ident: String,
    /// The name of the functional update for compile-time evaluation.
    pub const_with_ident: String,
}

/// What a record is generated from.
#[derive(Debug, Clone, PartialEq, Eq)]
pub struct Expansion {
    /// The name of the length constant.
    pub len_ident: String,
    /// The value of the length constant: the number of fields.
    pub n_fields: usize,
    /// The fields, in index order.
    pub fields: Vec<FieldExpansion>,
    /// The builder, if one was asked for.
    pub builder: Option<BuilderExpansion>,
    /// The declaration, rewritten as a tuple struct whose only field is an
    /// array of the element type with the length constant as its length.
    pub rewritten: GenericArrayStructParams,
}

/// Why the field at `index` is turned down, if it is: its type is not a
/// single identifier, or the declaration does not have a single generic
/// type parameter to hold that identifier against, or the identifier is not
/// that parameter.
pub open spec fn field_error(params: GenericArrayStructParams, index: int) -> Option<ExpandError> {
    let ty = params.named()[index].ty;
    if !(ty is Path) || !ty->Path_0.is_single_ident() {
        Some(ExpandError::ReqAllFieldsSameGeneric)
    } else if !params.has_single_generic() {
        Some(ExpandError::ReqSingleGeneric)
    } else if ty->Path_0.segments@[0].ident@ != params.0.generics@[0]->Type_0.ident@ {
        Some(ExpandError::ReqAllFieldsSameGeneric)
    } else {
        None
    }
}

/// Why the first field at or after `from` that is turned down is turned
/// down, if any is.
pub open spec fn first_field_error(params: GenericArrayStructParams, from: int) -> Option<
    ExpandError,
>
    decreases params.named().len() - from,
{
    if from < 0 || from >= params.named().len() {
        None
    } else if field_error(params, from) is Some {
        field_error(params, from)
    } else {
        first_field_error(params, from + 1)
    }
}

/// Why the declaration cannot be expanded, if it cannot. What is not a
/// struct with named fields is turned down first, then the first field
/// whose type is not the generic parameter, then a declaration without a
/// single generic type parameter.
pub open spec fn expand_error(params: GenericArrayStructParams) -> Option<ExpandError> {
    if !params.is_struct() {
        Some(ExpandError::OnlyWorksWithStructs)
    } else if !params.has_named_fields() {
        Some(ExpandError::OnlyWorksWithStructsWithNamedFields)
    } else if first_field_error(params, 0) is Some {
        first_field_error(params, 0)
    } else if !params.has_single_generic() {
        Some(ExpandError::ReqSingleGeneric)
    } else {
        None
    }
}

/// Whether `field` is what the field at `index` of `params` expands to.
pub open spec fn is_field_expansion(
    field: FieldExpansion,
    params: GenericArrayStructParams,
    index: int,
) -> bool {
    let declared = params.named()[index];
    &&& field.vis == declared.vis
    &&& field.ident@ == declared.ident@
    &&& field.index == index
    &&& field.idx_ident@ == shouty_snake_case(params.0.ident@) + "_IDX_"@ + shouty_snake_case(
        declared.ident@,
    )
    &&& field.mut_ident@ == declared.ident@ + "_mut"@
    &&& field.set_ident@ == "set_"@ + declared.ident@
    &&& field.with_ident@ == "with_"@ + declared.ident@
    &&& field.const_with_ident@ == "const_with_"@ + declared.ident@
}

/// Whether `rewritten` is `params` with its fields replaced by one unnamed
/// field of visibility `vis`, an array of the generic parameter whose length
/// is the constant `len_ident`.
pub open spec fn is_array_struct(
    rewritten: GenericArrayStructParams,
    params: GenericArrayStructParams,
    vis: Visibility,
    len_ident: Seq<char>,
) -> bool {
    &&& rewritten.0.attrs == params.0.attrs
    &&& rewritten.0.vis == params.0.vis
    &&& rewritten.0.ident == params.0.ident
    &&& rewritten.0.generics == params.0.generics
    &&& rewritten.0.data matches Data::Struct(data)
    &&& data.fields matches Fields::Unnamed(fields)
    &&& fields.unnamed@.len() == 1
    &&& fields.unnamed@[0].vis == vis
    &&& fields.unnamed@[0].ty.is_array_of(params.0.generics@[0]->Type_0.ident@, len_ident)
}

/// Whether `expansion` is what `params` expands to under `attr_args`.
pub open spec fn is_expansion(
    expansion: Expansion,
    attr_args: AttrArgs,
    params: GenericArrayStructParams,
) -> bool {
    &&& expansion.len_ident@ == shouty_snake_case(params.0.ident@) + "_LEN"@
    &&& expansion.n_fields == params.named().len()
    &&& expansion.fields@.len() == params.named().len()
    &&& forall|i: int|
        0 <= i < params.named().len() ==> is_field_expansion(
            #[trigger] expansion.fields@[i],
            params,
            i,
        )
    &&& expansion.builder is Some <==> attr_args.should_gen_builder
    &&& expansion.builder is Some ==> is_builder_expansion(
        expansion.builder->0,
        params,
        params.0.vis,
        declared_field_vis(params),
    )
    &&& is_array_struct(
        expansion.rewritten,
        params,
        attr_args.array_field_vis,
        expansion.len_ident@,
    )
}

/// If every field before `index` is accepted, the first field that is
/// turned down from the start on is the first from `index` on.
proof fn lemma_first_field_error_skip(params: GenericArrayStructParams, from: int, index: int)
    requires
        0 <= from <= index <= params.named().len(),
        forall|j: int| from <= j < index ==> field_error(params, j) is None,
    ensures
        first_field_error(params, from) == first_field_error(params, index),
    decreases index - from,
{
    if from < index {
        lemma_first_field_error_skip(params, from + 1, index);
    }
}

/// Expands a record declaration under the attribute's arguments. A
/// declaration that cannot be expanded is turned down with the reason.
pub fn generic_array_struct(attr_args: AttrArgs, params: GenericArrayStructParams) -> (expansion:
    Result<Expansion, ExpandError>)
    ensures
        expansion is Err <==> expand_error(params) is Some,
        expansion is Err ==> expand_error(params) == Some(expansion->Err_0),
        expansion is Ok ==> is_expansion(expansion->Ok_0, attr_args, params),
{
    let mut rewritten = params;
    let named = match rewritten.fields_named() {
        Ok(fields) => &fields.named,
        Err(error) => {
            return Err(error);
        },
    };
    let struct_id = rewritten.struct_ident().as_str();
    let mut fields: Vec<FieldExpansion> = Vec::new();
    let mut i: usize = 0;
    while i < named.len()
        invariant
            i <= named@.len(),
            rewritten == params,
            params.has_named_fields(),
            named@ == params.named(),
            struct_id@ == params.0.ident@,
            fields@.len() == i,
            forall|j: int| 0 <= j < i ==> field_error(params, j) is None,
            forall|j: int| 0 <= j < i ==> is_field_expansion(#[trigger] fields@[j], params, j),
        decreases named@.len() - i,
    {
        let field = &named[i];
        proof {
            lemma_first_field_error_skip(params, 0, i as int);
            assert(*field == params.named()[i as int]);
            assert(first_field_error(params, i as int) == if field_error(params, i as int)
                is Some {
                field_error(params, i as int)
            } else {
                first_field_error(params, i + 1)
            });
        }
        let expect_same_generic = match &field.ty {
            Type::Path(path) => path,
            _ => {
                return Err(ExpandError::ReqAllFieldsSameGeneric);
            },
        };
        let same = match expect_same_generic.get_ident() {
            Some(id) => match rewritten.generic_ident() {
                Ok(generic) => same_text(id.as_str(), generic.as_str()),
                Err(error) => {
                    return Err(error);
                },
            },
            None => false,
        };
        if !same {
            return Err(ExpandError::ReqAllFieldsSameGeneric);
        }
        let field_ident = field.ident.as_str();
        fields.push(
            FieldExpansion {
                vis: field.vis.clone(),
                ident: field.ident.clone(),
                index: i,
                idx_ident: field_idx_ident(struct_id, field_ident),
                mut_ident: ident_mut(field_ident),
                set_ident: set_ident(field_ident),
                with_ident: with_ident(field_ident),
                const_with_ident: const_with_ident(field_ident),
            },
        );
        i += 1;
    }
    proof {
        lemma_first_field_error_skip(params, 0, named@.len() as int);
    }
    let n_fields = named.len();
    let generic = match rewritten.generic_ident() {
        Ok(ident) => ident.clone(),
        Err(error) => {
            return Err(error);
        },
    };
    let len_ident = array_len_ident(struct_id);
    let builder = if attr_args.should_gen_builder {
        match impl_builder(&rewritten, rewritten.struct_vis()) {
            Ok(builder) => Some(builder),
            Err(error) => {
                return Err(error);
            },
        }
    } else {
        None
    };

    let mut unnamed: Vec<UnnamedField> = Vec::new();
    unnamed.push(
        UnnamedField {
            vis: attr_args.array_field_vis.clone(),
            ty: Type::Array { elem: path_from_ident(generic), len: path_from_ident(len_ident.clone()) },
        },
    );
    match rewritten.data_struct_mut() {
        Ok(data) => {
            data.fields = Fields::Unnamed(FieldsUnnamed { unnamed });
        },
        Err(error) => {
            return Err(error);
        },
    }
    Ok(Expansion { len_ident, n_fields, fields, builder, rewritten })
}

} // verus!
