//! The messages with which a declaration that cannot be expanded is turned
//! down. Every message starts with the name of the macro.

use vstd::prelude::*;
use vstd::string::StringExecFns;

verus! {

/// The name of the macro, with which every message starts.
pub const MACRO_NAME: &'static str = "generic_array_struct";

pub const REQ_SINGLE_GENERIC_TYPE_PARAM_ERRMSG: &'static str =
    "only works with structs with a single generic type param";

pub const REQ_ALL_FIELDS_SAME_GENERIC_TYPE_ERRMSG: &'static str =
    "requires all fields to have the same generic type";

pub const ONLY_WORKS_WITH_STRUCTS_ERRMSG: &'static str = "only works with structs";

pub const ONLY_WORKS_WITH_STRUCTS_WITH_NAMED_FIELDS_ERRMSG: &'static str =
    "only works with structs with named fields";

/// The text of the message for `err`: the macro's name, a space, and `err`.
pub open spec fn error_message(err: Seq<char>) -> Seq<char> {
    MACRO_NAME@ + " "@ + err
}

/// The message for `err`.
pub fn proc_macro_error(err: &str) -> (message: String)
    ensures
        message@ == error_message(err@),
{
    let mut message = String::from_str(MACRO_NAME);
    message.append(" ");
    message.append(err);
    message
}

/// The message for a declaration that does not have exactly one generic
/// parameter, a type.
pub fn panic_req_single_generic() -> (message: String)
    ensures
        message@ == error_message(REQ_SINGLE_GENERIC_TYPE_PARAM_ERRMSG@),
{
    proc_macro_error(REQ_SINGLE_GENERIC_TYPE_PARAM_ERRMSG)
}

/// The message for a field whose type is not the generic parameter.
pub fn panic_req_all_fields_same_generic() -> (message: String)
    ensures
        message@ == error_message(REQ_ALL_FIELDS_SAME_GENERIC_TYPE_ERRMSG@),
{
    proc_macro_error(REQ_ALL_FIELDS_SAME_GENERIC_TYPE_ERRMSG)
}

/// The message for a declaration that is not a struct.
pub fn panic_only_works_with_structs() -> (message: String)
    ensures
        message@ == error_message(ONLY_WORKS_WITH_STRUCTS_ERRMSG@),
{
    proc_macro_error(ONLY_WORKS_WITH_STRUCTS_ERRMSG)
}

/// The message for a struct whose fields are not named.
pub fn panic_only_works_with_structs_with_named_fields() -> (message: String)
    ensures
        message@ == error_message(ONLY_WORKS_WITH_STRUCTS_WITH_NAMED_FIELDS_ERRMSG@),
{
    proc_macro_error(ONLY_WORKS_WITH_STRUCTS_WITH_NAMED_FIELDS_ERRMSG)
}

/// Why a declaration cannot be expanded.
#[derive(Debug, Clone, Copy, PartialEq, Eq, Structural)]
pub enum ExpandError {
    /// The declaration does not have exactly one generic parameter, a type.
    ReqSingleGeneric,
    /// A field's type is not the generic parameter.
    ReqAllFieldsSameGeneric,
    /// The declaration is not a struct.
    OnlyWorksWithStructs,
    /// The struct's fields are not named.
    OnlyWorksWithStructsWithNamedFields,
}

impl ExpandError {
    /// What the message for this error says after the macro's name.
    pub open spec fn detail(&self) -> Seq<char> {
        match self {
            ExpandError::ReqSingleGeneric => REQ_SINGLE_GENERIC_TYPE_PARAM_ERRMSG@,
            ExpandError::ReqAllFieldsSameGeneric => REQ_ALL_FIELDS_SAME_GENERIC_TYPE_ERRMSG@,
            ExpandError::OnlyWorksWithStructs => ONLY_WORKS_WITH_STRUCTS_ERRMSG@,
            ExpandError::OnlyWorksWithStructsWithNamedFields =>
                ONLY_WORKS_WITH_STRUCTS_WITH_NAMED_FIELDS_ERRMSG@,
        }
    }

    /// The message with which the declaration is turned down.
    pub fn message(&self) -> (message: String)
        ensures
            message@ == error_message(self.detail()),
    {
        match self {
            ExpandError::ReqSingleGeneric => panic_req_single_generic(),
            ExpandError::ReqAllFieldsSameGeneric => panic_req_all_fields_same_generic(),
            ExpandError::OnlyWorksWithStructs => panic_only_works_with_structs(),
            ExpandError::OnlyWorksWithStructsWithNamedFields =>
                panic_only_works_with_structs_with_named_fields(),
        }
    }
}

} // verus!
