//! What the destructured view of a record expands to: a struct with the
//! record's named fields, to convert to and from.

use vstd::prelude::*;
use vstd::string::StringExecFns;
use crate::errs::ExpandError;
use crate::params::{shape_error, GenericArrayStructParams};
use crate::syntax::Attribute;
use crate::utils::same_text;

verus! {

/// Whether the attribute is a `repr`.
pub open spec fn is_repr(attr: Attribute) -> bool {
    attr.path.segments@.len() > 0 && attr.path.segments@[0].ident@ == "repr"@
}

/// Whether the attribute is a `repr` whose arguments are not one
/// identifier.
pub open spec fn is_malformed_repr(attr: Attribute) -> bool {
    is_repr(attr) && attr.args_ident is None
}

/// Whether the attribute may be carried over to the destructured view:
/// every attribute but `#[repr(transparent)]`, which a struct of several
/// fields cannot have.
pub open spec fn attr_compat(attr: Attribute) -> bool {
    !(is_repr(attr) && attr.args_ident is Some && attr.args_ident->0@ == "transparent"@)
}

/// Whether `attr` may be carried over to the destructured view; `None` for
/// a `repr` whose arguments are not one identifier.
pub fn is_attr_compat(attr: &Attribute) -> (compat: Option<bool>)
    ensures
        compat is None <==> is_malformed_repr(*attr),
        compat is Some ==> compat->0 == attr_compat(*attr),
{
    if attr.path.segments.len() > 0 && same_text(attr.path.segments[0].ident.as_str(), "repr") {
        match &attr.args_ident {
            Some(chosen_repr) => {
                if same_text(chosen_repr.as_str(), "transparent") {
                    return Some(false);
                }
            },
            None => {
                return None;
            },
        }
    }
    Some(true)
}

/// Why a destructured view cannot be generated.
#[derive(Debug, Clone, Copy, PartialEq, Eq, Structural)]
pub enum DestrError {
    /// The declaration cannot be expanded.
    Expand(ExpandError),
    /// The attribute at this index is a `repr` whose arguments are not one
    /// identifier.
    MalformedRepr(usize),
}

/// What the destructured view of a record is generated from.
#[derive(Debug, Clone, PartialEq, Eq)]
pub struct DestrExpansion {
    /// The name of the view: the record's name followed by `Destr`.
    pub destr_ident: String,
    /// The names of the fields, in index order.
    pub field_idents: Vec<String>,
    /// The indices of the declaration's attributes that the view keeps, in
    /// ascending order.
    pub attrs: Vec<usize>,
}

/// The indices below `end` of the attributes among `attrs` that the view
/// keeps, in ascending order.
pub open spec fn compat_attrs(attrs: Seq<Attribute>, end: int) -> Seq<usize>
    decreases end,
{
    if end <= 0 {
        Seq::empty()
    } else if attr_compat(attrs[end - 1]) {
        compat_attrs(attrs, end - 1).push((end - 1) as usize)
    } else {
        compat_attrs(attrs, end - 1)
    }
}

/// Whether the attribute at `k` is the first malformed `repr` among
/// `attrs`.
pub open spec fn is_first_malformed_repr(attrs: Seq<Attribute>, k: int) -> bool {
    &&& 0 <= k < attrs.len()
    &&& is_malformed_repr(attrs[k])
    &&& forall|j: int| 0 <= j < k ==> !is_malformed_repr(#[trigger] attrs[j])
}

/// Whether no attribute among `attrs` is a malformed `repr`.
pub open spec fn no_malformed_repr(attrs: Seq<Attribute>) -> bool {
    forall|j: int| 0 <= j < attrs.len() ==> !is_malformed_repr(#[trigger] attrs[j])
}

/// What the destructured view of the declaration is generated from. A
/// declaration that cannot be expanded is turned down with the reason;
/// after that the first malformed `repr` among its attributes is.
pub fn impl_destr(params: &GenericArrayStructParams) -> (expansion: Result<DestrExpansion, DestrError>)
    ensures
        match expansion {
            Ok(destr) => {
                &&& shape_error(*params) is None
                &&& no_malformed_repr(params.0.attrs@)
                &&& destr.destr_ident@ == params.0.ident@ + "Destr"@
                &&& destr.field_idents@.len() == params.named().len()
                &&& forall|i: int|
                    0 <= i < params.named().len() ==> (#[trigger] destr.field_idents@[i])@
                        == params.named()[i].ident@
                &&& destr.attrs@ == compat_attrs(params.0.attrs@, params.0.attrs@.len() as int)
            },
            Err(DestrError::Expand(error)) => shape_error(*params) == Some(error),
            Err(DestrError::MalformedRepr(k)) => {
                &&& shape_error(*params) is None
                &&& is_first_malformed_repr(params.0.attrs@, k as int)
            },
        },
{
    let fields = match params.fields_named() {
        Ok(fields) => fields,
        Err(error) => {
            return Err(DestrError::Expand(error));
        },
    };
    if let Err(error) = params.generic_ident() {
        return Err(DestrError::Expand(error));
    }
    let mut field_idents: Vec<String> = Vec::new();
    let mut i: usize = 0;
    while i < fields.named.len()
        invariant
            i <= fields.named@.len(),
            field_idents@.len() == i,
            forall|j: int| 0 <= j < i ==> (#[trigger] field_idents@[j])@ == fields.named@[j].ident@,
        decreases fields.named@.len() - i,
    {
        field_idents.push(fields.named[i].ident.clone());
        i += 1;
    }
    let all = params.attrs();
    let mut attrs: Vec<usize> = Vec::new();
    let mut k: usize = 0;
    while k < all.len()
        invariant
            k <= all@.len(),
            all@ == params.0.attrs@,
            shape_error(*params) is None,
            attrs@ == compat_attrs(all@, k as int),
            forall|j: int| 0 <= j < k ==> !is_malformed_repr(#[trigger] all@[j]),
        decreases all@.len() - k,
    {
        match is_attr_compat(&all[k]) {
            Some(compat) => {
                if compat {
                    attrs.push(k);
                }
            },
            None => {
                return Err(DestrError::MalformedRepr(k));
            },
        }
        k += 1;
    }
    let destr_ident = params.struct_ident().clone().concat("Destr");
    Ok(DestrExpansion { destr_ident, field_idents, attrs })
}

} // verus!
