//! What the builder of a record expands to: for every field the generics of
//! the step that sets it, and the generics of the builder as a whole, of its
//! initial state and of its final state.

use vstd::prelude::*;
use vstd::string::StringExecFns;
use crate::errs::ExpandError;
use crate::generics::{
    cgid, cgid_name, generic_args, generic_args_fill, generic_params, ident_to_gen_param,
    is_generic_args, is_generic_args_fill, is_generic_params,
};
use crate::idents::{array_len_ident, field_idx_ident, shouty_snake_case, with_ident};
use crate::params::{shape_error, GenericArrayStructParams};
use crate::syntax::{GenericArgument, GenericParam, Visibility};

verus! {

/// What the step that sets one field is generated from.
#[derive(Debug, Clone, PartialEq, Eq)]
pub struct FieldBuilderExpansion {
    /// The generic parameters of the step: every occupancy but the field's.
    pub impl_params: Vec<GenericParam>,
    /// The builder before the step: the field's occupancy is `false`.
    pub empty_args: Vec<GenericArgument>,
    /// The builder after the step: the field's occupancy is `true`.
    pub set_args: Vec<GenericArgument>,
    /// The visibility of the step.
    pub vis: Visibility,
    /// The name of the field's index constant.
    pub idx_ident: String,
    /// The name of the const parameter that holds the field's occupancy.
    pub flag_ident: String,
    /// The name of the step.
    pub with_ident: String,
}

/// What the builder of a record is generated from.
#[derive(Debug, Clone, PartialEq, Eq)]
pub struct BuilderExpansion {
    /// The visibility of the builder.
    pub struct_vis: Visibility,
    /// The name of the builder: the record's name followed by `Builder`.
    pub builder_ident: String,
    /// The name of the builder in its initial state: `New` followed by the
    /// builder's name.
    pub new_builder_ident: String,
    /// The steps, one per field, in index order.
    pub fields: Vec<FieldBuilderExpansion>,
    /// The builder in its initial state: every occupancy is `false`.
    pub all_false_args: Vec<GenericArgument>,
    /// The builder in its final state: every occupancy is `true`.
    pub all_true_args: Vec<GenericArgument>,
    /// The element type as the only generic parameter.
    pub just_param: GenericParam,
    /// The name of the record's length constant.
    pub len_ident: String,
    /// The generic parameters of the builder in any state.
    pub all_params: Vec<GenericParam>,
    /// The builder in any state: every occupancy is a parameter.
    pub all_args: Vec<GenericArgument>,
}

/// Whether `step` is the step that sets the field at `index` of
/// `params`, with visibility `vis`.
pub open spec fn is_field_builder_expansion(
    step: FieldBuilderExpansion,
    params: GenericArrayStructParams,
    index: int,
    vis: Visibility,
) -> bool {
    let generic = params.0.generics@[0]->Type_0.ident@;
    let n_fields = params.named().len();
    let field = params.named()[index].ident@;
    &&& is_generic_params(step.impl_params@, generic, n_fields, Some(index as usize))
    &&& is_generic_args(step.empty_args@, generic, n_fields, Some((index as usize, false)))
    &&& is_generic_args(step.set_args@, generic, n_fields, Some((index as usize, true)))
    &&& step.vis == vis
    &&& step.idx_ident@ == shouty_snake_case(params.0.ident@) + "_IDX_"@ + shouty_snake_case(field)
    &&& step.flag_ident@ == cgid_name(index as nat)
    &&& step.with_ident@ == "with_"@ + field
}

/// Whether `builder` is what the builder of `params` is generated from,
/// with visibility `struct_vis` and, for the steps, `field_vis`.
pub open spec fn is_builder_expansion(
    builder: BuilderExpansion,
    params: GenericArrayStructParams,
    struct_vis: Visibility,
    field_vis: Seq<Visibility>,
) -> bool {
    let generic = params.0.generics@[0]->Type_0.ident@;
    let n_fields = params.named().len();
    &&& builder.struct_vis == struct_vis
    &&& builder.builder_ident@ == params.0.ident@ + "Builder"@
    &&& builder.new_builder_ident@ == "New"@ + builder.builder_ident@
    &&& builder.fields@.len() == n_fields
    &&& forall|i: int|
        0 <= i < n_fields ==> is_field_builder_expansion(
            #[trigger] builder.fields@[i],
            params,
            i,
            field_vis[i],
        )
    &&& is_generic_args_fill(builder.all_false_args@, generic, n_fields, false)
    &&& is_generic_args_fill(builder.all_true_args@, generic, n_fields, true)
    &&& builder.just_param.is_type(generic)
    &&& builder.len_ident@ == shouty_snake_case(params.0.ident@) + "_LEN"@
    &&& is_generic_params(builder.all_params@, generic, n_fields, None)
    &&& is_generic_args(builder.all_args@, generic, n_fields, None)
}

/// The visibilities of the named fields of `params`, in index order.
pub open spec fn declared_field_vis(params: GenericArrayStructParams) -> Seq<Visibility> {
    Seq::new(params.named().len(), |i: int| params.named()[i].vis)
}

/// `n` times `pub`.
pub open spec fn all_public(n: nat) -> Seq<Visibility> {
    Seq::new(n, |i: int| Visibility::Public)
}

/// The expansion of the builder of `params`, every step with the visibility
/// `field_vis` if one is given and with that of its field otherwise.
fn builder_expansion(
    params: &GenericArrayStructParams,
    struct_vis: &Visibility,
    field_vis: Option<&Visibility>,
) -> (expansion: Result<BuilderExpansion, ExpandError>)
    ensures
        expansion is Err <==> shape_error(*params) is Some,
        expansion is Err ==> shape_error(*params) == Some(expansion->Err_0),
        expansion is Ok ==> is_builder_expansion(
            expansion->Ok_0,
            *params,
            *struct_vis,
            match field_vis {
                Some(vis) => Seq::new(params.named().len(), |i: int| *vis),
                None => declared_field_vis(*params),
            },
        ),
{
    let named = match params.fields_named() {
        Ok(fields) => &fields.named,
        Err(error) => {
            return Err(error);
        },
    };
    let n_fields = named.len();
    let generic_id = match params.generic_ident() {
        Ok(ident) => ident.as_str(),
        Err(error) => {
            return Err(error);
        },
    };
    let struct_id = params.struct_ident().as_str();
    let builder_ident = String::from_str(struct_id).concat("Builder");

    let mut fields: Vec<FieldBuilderExpansion> = Vec::new();
    let mut i: usize = 0;
    while i < n_fields
        invariant
            i <= n_fields,
            n_fields == named@.len(),
            named@ == params.named(),
            shape_error(*params) is None,
            generic_id@ == params.0.generics@[0]->Type_0.ident@,
            struct_id@ == params.0.ident@,
            fields@.len() == i,
            forall|j: int|
                0 <= j < i ==> is_field_builder_expansion(
                    #[trigger] fields@[j],
                    *params,
                    j,
                    match field_vis {
                        Some(vis) => *vis,
                        None => named@[j].vis,
                    },
                ),
        decreases n_fields - i,
    {
        let field = &named[i];
        let vis = match field_vis {
            Some(vis) => vis.clone(),
            None => field.vis.clone(),
        };
        let step = FieldBuilderExpansion {
            impl_params: generic_params(generic_id, n_fields, Some(i)),
            empty_args: generic_args(generic_id, n_fields, Some((i, false))),
            set_args: generic_args(generic_id, n_fields, Some((i, true))),
            vis,
            idx_ident: field_idx_ident(struct_id, field.ident.as_str()),
            flag_ident: cgid(i),
            with_ident: with_ident(field.ident.as_str()),
        };
        fields.push(step);
        i += 1;
    }

    let new_builder_ident = String::from_str("New").concat(builder_ident.as_str());
    let expansion = BuilderExpansion {
        struct_vis: struct_vis.clone(),
        builder_ident,
        new_builder_ident,
        fields,
        all_false_args: generic_args_fill(generic_id, n_fields, false),
        all_true_args: generic_args_fill(generic_id, n_fields, true),
        just_param: ident_to_gen_param(String::from_str(generic_id)),
        len_ident: array_len_ident(struct_id),
        all_params: generic_params(generic_id, n_fields, None),
        all_args: generic_args(generic_id, n_fields, None),
    };
    Ok(expansion)
}

/// What the builder of the declaration is generated from, when the builder
/// is asked for beside the record: every step has the visibility of its
/// field. A declaration that cannot be expanded is turned down with the
/// reason.
pub fn impl_builder(params: &GenericArrayStructParams, struct_vis: &Visibility) -> (expansion:
    Result<BuilderExpansion, ExpandError>)
    ensures
        expansion is Err <==> shape_error(*params) is Some,
        expansion is Err ==> shape_error(*params) == Some(expansion->Err_0),
        expansion is Ok ==> is_builder_expansion(
            expansion->Ok_0,
            *params,
            *struct_vis,
            declared_field_vis(*params),
        ),
{
    builder_expansion(params, struct_vis, None)
}

/// What the builder of the declaration is generated from, when the builder
/// is derived on its own: the builder and every step are public. A
/// declaration that cannot be expanded is turned down with the reason.
pub fn generic_array_struct_builder(params: &GenericArrayStructParams) -> (expansion: Result<
    BuilderExpansion,
    ExpandError,
>)
    ensures
        expansion is Err <==> shape_error(*params) is Some,
        expansion is Err ==> shape_error(*params) == Some(expansion->Err_0),
        expansion is Ok ==> is_builder_expansion(
            expansion->Ok_0,
            *params,
            Visibility::Public,
            all_public(params.named().len()),
        ),
{
    let public = Visibility::Public;
    let expansion = builder_expansion(params, &public, Some(&public));
    proof {
        assert(Seq::new(params.named().len(), |i: int| public) =~= all_public(
            params.named().len(),
        ));
    }
    expansion
}

} // verus!
