//! The names of what a record declaration expands to: the accessors of a
//! field and the constants for the record's length and a field's index.

use vstd::prelude::*;
use vstd::string::StringExecFns;
use heck::ToShoutySnakeCase;

verus! {

/// What `heck` makes of a name when it converts it to shouty snake case.
pub uninterp spec fn shouty_snake_case(name: Seq<char>) -> Seq<char>;

/// `heck::ToShoutySnakeCase::to_shouty_snake_case` on a string slice: the
/// conversion is a function of the characters of `name` alone, and the
/// result is what that function gives for them.
#[verifier::external_body]
fn to_shouty_snake_case(name: &str) -> (shouty: String)
    ensures
        shouty@ == shouty_snake_case(name@),
{
    name.to_shouty_snake_case()
}

/// The name of the functional update of a field, e.g. `with_x`.
pub fn with_ident(field_ident: &str) -> (ident: String)
    ensures
        ident@ == "with_"@ + field_ident@,
{
    String::from_str("with_").concat(field_ident)
}

/// The name of the setter of a field, e.g. `set_x`.
pub fn set_ident(field_ident: &str) -> (ident: String)
    ensures
        ident@ == "set_"@ + field_ident@,
{
    String::from_str("set_").concat(field_ident)
}

/// The name of the mutable accessor of a field, e.g. `x_mut`.
pub fn ident_mut(field_ident: &str) -> (ident: String)
    ensures
        ident@ == field_ident@ + "_mut"@,
{
    String::from_str(field_ident).concat("_mut")
}

/// The name of the functional update of a field that can be evaluated at
/// compile time, e.g. `const_with_x`.
pub fn const_with_ident(field_ident: &str) -> (ident: String)
    ensures
        ident@ == "const_with_"@ + field_ident@,
{
    String::from_str("const_with_").concat(field_ident)
}

/// The name of the length constant of the record whose name in shouty
/// snake case is `shouty_struct`, e.g. `RGB_LEN` for `RGB`.
pub fn shouty_array_len_ident(shouty_struct: &str) -> (ident: String)
    ensures
        ident@ == shouty_struct@ + "_LEN"@,
{
    String::from_str(shouty_struct).concat("_LEN")
}

/// The name of the index constant of a field, from the names of the record
/// and of the field in shouty snake case, e.g. `RGB_IDX_R` for `RGB` and
/// `R`.
pub fn shouty_field_idx_ident(shouty_struct: &str, shouty_field: &str) -> (ident: String)
    ensures
        ident@ == shouty_struct@ + "_IDX_"@ + shouty_field@,
{
    String::from_str(shouty_struct).concat("_IDX_").concat(shouty_field)
}

/// The name of the associated index constant of a field, from the field's
/// name in shouty snake case, e.g. `IDX_R` for `R`.
pub fn shouty_assoc_field_idx_ident(shouty_field: &str) -> (ident: String)
    ensures
        ident@ == "IDX_"@ + shouty_field@,
{
    String::from_str("IDX_").concat(shouty_field)
}

/// The name of the length constant of the record `struct_ident`, e.g.
/// `RGB_LEN` for `Rgb`.
pub fn array_len_ident(struct_ident: &str) -> (ident: String)
    ensures
        ident@ == shouty_snake_case(struct_ident@) + "_LEN"@,
{
    let shouty = to_shouty_snake_case(struct_ident);
    shouty_array_len_ident(shouty.as_str())
}

/// The name of the index constant of the field `field_ident` of the record
/// `struct_ident`, e.g. `RGB_IDX_R` for `Rgb` and `r`.
pub fn field_idx_ident(struct_ident: &str, field_ident: &str) -> (ident: String)
    ensures
        ident@ == shouty_snake_case(struct_ident@) + "_IDX_"@ + shouty_snake_case(field_ident@),
{
    let shouty_struct = to_shouty_snake_case(struct_ident);
    let shouty_field = to_shouty_snake_case(field_ident);
    shouty_field_idx_ident(shouty_struct.as_str(), shouty_field.as_str())
}

/// The name of the associated index constant of the field `field_ident`,
/// e.g. `IDX_R` for `r`.
pub fn assoc_field_idx_ident(field_ident: &str) -> (ident: String)
    ensures
        ident@ == "IDX_"@ + shouty_snake_case(field_ident@),
{
    let shouty_field = to_shouty_snake_case(field_ident);
    shouty_assoc_field_idx_ident(shouty_field.as_str())
}

} // verus!
