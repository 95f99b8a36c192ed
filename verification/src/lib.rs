//! Fixed-arity records: a value type of `N` fields of one element type,
//! backed by an array and addressed by index, with the names of the fields
//! kept in a schema.
//!
//! The first half of the crate is what runs:
//!
//! - [`storage`]: slot storage, `N` cells that are each empty or occupied;
//! - [`builder`]: the staged builder, which sets every field exactly once
//!   before it hands the record over, and releases what was set when it is
//!   given up early;
//! - [`record`]: the record and its accessors;
//! - [`trymap`]: the fallible elementwise transform and its rollback;
//! - [`zip`]: pairing two records and taking a record of pairs apart;
//! - [`schema`] and [`destr`]: the names of the fields and the view of a
//!   record under those names.
//!
//! The second half decides what a declaration of a record shape expands to:
//!
//! - [`syntax`] and [`params`]: the declaration and its accessors;
//! - [`attr_args`]: the arguments of the attribute;
//! - [`expand`], [`expand_builder`], [`expand_destr`]: the expansion of the
//!   record, of its builder and of its destructured view;
//! - [`generics`]: the generic parameters and arguments that encode a
//!   builder's occupancy in its type;
//! - [`idents`], [`utils`], [`errs`]: names, helpers and messages.
//!
//! [`array_specs`] holds what is assumed of the standard library's array
//! constructors.

pub mod array_specs;
pub mod attr_args;
pub mod builder;
pub mod destr;
pub mod errs;
pub mod expand;
pub mod expand_builder;
pub mod expand_destr;
pub mod generics;
pub mod idents;
pub mod params;
pub mod record;
pub mod schema;
pub mod storage;
pub mod syntax;
pub mod trymap;
pub mod utils;
pub mod zip;
