//! The generic parameters and arguments that encode a builder's occupancy
//! in its type: after the element type, one `bool` per field, which is
//! either a const parameter `S0`, `S1`, ... or a literal.

use vstd::prelude::*;
use vstd::string::{StrSliceExecFns, StringExecFns};
use crate::syntax::{ConstParam, GenericArgument, GenericParam, Type, TypeParam};
use crate::utils::path_from_ident;

verus! {

/// The ten decimal digits, in order.
pub open spec fn digits() -> Seq<char> {
    "0123456789"@
}

/// `n` written in decimal, without leading zeros.
pub open spec fn decimal(n: nat) -> Seq<char>
    decreases n,
{
    if n < 10 {
        digits().subrange(n as int, n as int + 1)
    } else {
        decimal(n / 10) + digits().subrange((n % 10) as int, (n % 10) as int + 1)
    }
}

/// The name of the const parameter that stands for the occupancy of the
/// field at `idx`: `S` followed by the index in decimal.
pub open spec fn cgid_name(idx: nat) -> Seq<char> {
    "S"@ + decimal(idx)
}

/// Appends `n` in decimal to `text`.
fn append_decimal(text: &mut String, n: usize)
    ensures
        final(text)@ == old(text)@ + decimal(n as nat),
    decreases n,
{
    proof {
        reveal_strlit("0123456789");
    }
    if n >= 10 {
        append_decimal(text, n / 10);
    }
    let digit = n % 10;
    text.append("0123456789".substring_char(digit, digit + 1));
}

/// The name of the const parameter for the field at `idx`, e.g. `S0` as in
/// `const S0: bool`.
pub fn cgid(idx: usize) -> (ident: String)
    ensures
        ident@ == cgid_name(idx as nat),
{
    let mut ident = String::from_str("S");
    append_decimal(&mut ident, idx);
    ident
}

/// The type parameter `generic_ident`, without bounds or default.
pub fn ident_to_gen_param(generic_ident: String) -> (param: GenericParam)
    ensures
        param == GenericParam::Type(TypeParam { ident: generic_ident }),
        param.is_type(generic_ident@),
{
    GenericParam::Type(TypeParam { ident: generic_ident })
}

/// The type argument that is the single identifier `generic_ident`.
pub fn ident_to_gen_arg(generic_ident: String) -> (arg: GenericArgument)
    ensures
        arg.is_type(generic_ident@),
{
    GenericArgument::Type(Type::Path(path_from_ident(generic_ident)))
}

/// The literal that `hole` fixes the occupancy of the field at `i` to, if it
/// fixes that field's.
pub open spec fn fixed_at(hole: Option<(usize, bool)>, i: int) -> Option<bool> {
    match hole {
        Some((idx, value)) => if idx == i {
            Some(value)
        } else {
            None
        },
        None => None,
    }
}

/// Whether `args` are the generic arguments of a builder of `n_fields`
/// fields over `generic_ident`: the element type first, then for every
/// field its occupancy, which is the literal of the hole at the hole's index
/// and the const parameter of the field everywhere else.
pub open spec fn is_generic_args(
    args: Seq<GenericArgument>,
    generic_ident: Seq<char>,
    n_fields: nat,
    hole: Option<(usize, bool)>,
) -> bool {
    &&& args.len() == n_fields + 1
    &&& args[0].is_type(generic_ident)
    &&& forall|i: int|
        0 <= i < n_fields ==> match fixed_at(hole, i) {
            Some(value) => (#[trigger] args[i + 1]).is_const(value),
            None => args[i + 1].is_type(cgid_name(i as nat)),
        }
}

/// The generic arguments of a builder, with at most one field's occupancy
/// fixed: `generic_args("T", 3, Some((1, true)))` is `<T, S0, true, S2>`,
/// and `generic_args("T", 3, None)` is `<T, S0, S1, S2>`.
pub fn generic_args(generic_ident: &str, n_fields: usize, hole: Option<(usize, bool)>) -> (args:
    Vec<GenericArgument>)
    ensures
        is_generic_args(args@, generic_ident@, n_fields as nat, hole),
{
    let mut args: Vec<GenericArgument> = Vec::new();
    args.push(ident_to_gen_arg(String::from_str(generic_ident)));
    let mut i: usize = 0;
    while i < n_fields
        invariant
            i <= n_fields,
            args@.len() == i + 1,
            args@[0].is_type(generic_ident@),
            forall|j: int|
                0 <= j < i ==> match fixed_at(hole, j) {
                    Some(value) => (#[trigger] args@[j + 1]).is_const(value),
                    None => args@[j + 1].is_type(cgid_name(j as nat)),
                },
        decreases n_fields - i,
    {
        let arg = match hole {
            Some((idx, b)) if idx == i => GenericArgument::Const(b),
            _ => ident_to_gen_arg(cgid(i)),
        };
        args.push(arg);
        i += 1;
    }
    args
}

/// The position among `n_fields` fields of the `k`-th field that is not the
/// omitted one.
pub open spec fn kept_field(omit: Option<usize>, k: int) -> int {
    if omit is Some && omit->0 <= k {
        k + 1
    } else {
        k
    }
}

/// How many of `n_fields` fields are left when `omit` is left out.
pub open spec fn kept_count(n_fields: nat, omit: Option<usize>) -> nat {
    if omit is Some && omit->0 < n_fields {
        (n_fields - 1) as nat
    } else {
        n_fields
    }
}

/// Whether `params` are the generic parameters of a builder of `n_fields`
/// fields over `generic_ident`: the element type first, then `const Si:
/// bool` for every field `i` but the omitted one, in the order of the
/// fields.
pub open spec fn is_generic_params(
    params: Seq<GenericParam>,
    generic_ident: Seq<char>,
    n_fields: nat,
    omit: Option<usize>,
) -> bool {
    &&& params.len() == kept_count(n_fields, omit) + 1
    &&& params[0].is_type(generic_ident)
    &&& forall|k: int|
        0 <= k < kept_count(n_fields, omit) ==> (#[trigger] params[k + 1]).is_const_bool(
            cgid_name(kept_field(omit, k) as nat),
        )
}

/// The generic parameters of a builder, with at most one field's occupancy
/// left out: `generic_params("T", 3, Some(1))` is
/// `<T, const S0: bool, const S2: bool>`.
pub fn generic_params(generic_ident: &str, n_fields: usize, omit: Option<usize>) -> (params: Vec<
    GenericParam,
>)
    ensures
        is_generic_params(params@, generic_ident@, n_fields as nat, omit),
{
    let mut params: Vec<GenericParam> = Vec::new();
    params.push(ident_to_gen_param(String::from_str(generic_ident)));
    let mut i: usize = 0;
    while i < n_fields
        invariant
            i <= n_fields,
            params@.len() == kept_count(i as nat, omit) + 1,
            params@[0].is_type(generic_ident@),
            forall|k: int|
                0 <= k < kept_count(i as nat, omit) ==> (#[trigger] params@[k + 1]).is_const_bool(
                    cgid_name(kept_field(omit, k) as nat),
                ),
        decreases n_fields - i,
    {
        let omitted = match omit {
            Some(idx) => idx == i,
            None => false,
        };
        if !omitted {
            let param = GenericParam::Const(
                ConstParam { ident: cgid(i), ty: Type::Path(path_from_ident(String::from_str("bool"))) },
            );
            params.push(param);
        }
        i += 1;
    }
    params
}

/// Whether `args` are the generic arguments of a builder of `n_fields`
/// fields over `generic_ident` with every field's occupancy the literal
/// `fill`.
pub open spec fn is_generic_args_fill(
    args: Seq<GenericArgument>,
    generic_ident: Seq<char>,
    n_fields: nat,
    fill: bool,
) -> bool {
    &&& args.len() == n_fields + 1
    &&& args[0].is_type(generic_ident)
    &&& forall|i: int| 0 <= i < n_fields ==> (#[trigger] args[i + 1]).is_const(fill)
}

/// The generic arguments of a builder with every field's occupancy fixed to
/// `fill`: `generic_args_fill("T", 3, true)` is `<T, true, true, true>`.
pub fn generic_args_fill(generic_ident: &str, n_fields: usize, fill: bool) -> (args: Vec<
    GenericArgument,
>)
    ensures
        is_generic_args_fill(args@, generic_ident@, n_fields as nat, fill),
{
    let mut args: Vec<GenericArgument> = Vec::new();
    args.push(ident_to_gen_arg(String::from_str(generic_ident)));
    let mut i: usize = 0;
    while i < n_fields
        invariant
            i <= n_fields,
            args@.len() == i + 1,
            args@[0].is_type(generic_ident@),
            forall|j: int| 0 <= j < i ==> (#[trigger] args@[j + 1]).is_const(fill),
        decreases n_fields - i,
    {
        args.push(GenericArgument::Const(fill));
        i += 1;
    }
    args
}

} // verus!
