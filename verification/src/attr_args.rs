//! The arguments of the attribute: an optional `builder`, then an optional
//! visibility for the array field.

use vstd::prelude::*;
use vstd::string::StringExecFns;
use crate::syntax::Visibility;
use crate::utils::same_text;

verus! {

/// The word that asks for a builder.
pub const BUILDER_TOKEN: &'static str = "builder";

pub const EXPECTED_BUILDER_ERRMSG: &'static str = "Expected token `builder`";

/// What the attribute was asked to do.
#[derive(Debug, Clone, PartialEq, Eq)]
pub struct AttrArgs {
    /// The visibility of the array that takes the place of the fields.
    pub array_field_vis: Visibility,
    /// Whether a builder is generated beside the record.
    pub should_gen_builder: bool,
}

/// Why the arguments of the attribute are turned down.
#[derive(Debug, Clone, Copy, PartialEq, Eq, Structural)]
pub enum AttrArgsError {
    /// The arguments start with an identifier other than `builder`.
    ExpectedBuilder,
}

impl AttrArgsError {
    /// The message with which the arguments are turned down.
    pub fn message(&self) -> (message: String)
        ensures
            message@ == EXPECTED_BUILDER_ERRMSG@,
    {
        String::from_str(EXPECTED_BUILDER_ERRMSG)
    }
}

impl AttrArgs {
    /// Reads the arguments from their two parts: the identifier that they
    /// start with, if they start with one, and the visibility that follows,
    /// if anything follows. A leading identifier must be `builder` and asks
    /// for a builder; without a visibility the array field's is inherited.
    pub fn parse(leading_ident: Option<&str>, visibility: Option<Visibility>) -> (args: Result<
        AttrArgs,
        AttrArgsError,
    >)
        ensures
            args is Err <==> leading_ident is Some && leading_ident->0@ != BUILDER_TOKEN@,
            args is Err ==> args->Err_0 == AttrArgsError::ExpectedBuilder,
            args is Ok ==> args->Ok_0.should_gen_builder == (leading_ident is Some),
            args is Ok ==> args->Ok_0.array_field_vis == match visibility {
                Some(vis) => vis,
                None => Visibility::Inherited,
            },
    {
        let should_gen_builder = match leading_ident {
            Some(id) => {
                if !same_text(id, BUILDER_TOKEN) {
                    return Err(AttrArgsError::ExpectedBuilder);
                }
                true
            },
            None => false,
        };
        let array_field_vis = match visibility {
            Some(vis) => vis,
            None => Visibility::Inherited,
        };
        Ok(AttrArgs { array_field_vis, should_gen_builder })
    }
}

} // verus!
