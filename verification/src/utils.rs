//! Helpers for building syntax.

use vstd::prelude::*;
use vstd::string::StringExecFns;
use crate::syntax::{Path, PathSegment};

verus! {

/// The plain path with the single segment `ident`, as is needed where the
/// syntax asks for a path and an identifier is at hand: the element type of
/// an array, or its length.
pub fn path_from_ident(ident: String) -> (path: Path)
    ensures
        path.is_ident(ident@),
        path.segments@ == seq![(PathSegment { ident, has_arguments: false })],
{
    let mut segments: Vec<PathSegment> = Vec::new();
    segments.push(PathSegment { ident, has_arguments: false });
    Path { leading_colon: false, segments }
}

/// Whether two string slices hold the same characters.
pub fn same_text(left: &str, right: &str) -> (same: bool)
    ensures
        same == (left@ == right@),
{
    String::from_str(left).eq(&String::from_str(right))
}

} // verus!
