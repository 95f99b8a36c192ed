//! A plain model of the parts of a declaration that the expansion reads or
//! writes: visibility, paths, types, generic parameters and arguments,
//! fields, attributes, and the declaration as a whole.

use vstd::prelude::*;

verus! {

/// The visibility of an item or a field.
#[derive(Debug, PartialEq, Eq)]
pub enum Visibility {
    /// `pub`
    Public,
    /// `pub(..)`, holding what stands between the parentheses.
    Restricted(String),
    /// No visibility written.
    Inherited,
}

/// One segment of a path.
#[derive(Debug, Clone, PartialEq, Eq)]
pub struct PathSegment {
    pub ident: String,
    /// Whether generic or parenthesized arguments follow the identifier.
    pub has_arguments: bool,
}

/// A path such as `T`, `core::mem::MaybeUninit` or `::std::vec::Vec<u8>`.
#[derive(Debug, Clone, PartialEq, Eq)]
pub struct Path {
    pub leading_colon: bool,
    pub segments: Vec<PathSegment>,
}

/// The type of a field or of a const parameter.
#[derive(Debug, Clone, PartialEq, Eq)]
pub enum Type {
    /// A type written as a path.
    Path(Path),
    /// An array `[elem; len]` whose element type and length are paths.
    Array { elem: Path, len: Path },
    /// Any other type.
    Other,
}

/// A generic type parameter without bounds or default.
#[derive(Debug, Clone, PartialEq, Eq)]
pub struct TypeParam {
    pub ident: String,
}

/// A const generic parameter `const ident: ty`.
#[derive(Debug, Clone, PartialEq, Eq)]
pub struct ConstParam {
    pub ident: String,
    pub ty: Type,
}

/// One parameter of a list of generic parameters.
#[derive(Debug, Clone, PartialEq, Eq)]
pub enum GenericParam {
    Lifetime(String),
    Type(TypeParam),
    Const(ConstParam),
}

/// One argument of a list of generic arguments.
#[derive(Debug, Clone, PartialEq, Eq)]
pub enum GenericArgument {
    /// A type argument.
    Type(Type),
    /// A const argument that is a boolean literal.
    Const(bool),
}

/// A named field of a struct.
#[derive(Debug, Clone, PartialEq, Eq)]
pub struct NamedField {
    pub vis: Visibility,
    pub ident: String,
    pub ty: Type,
}

/// A field of a tuple struct.
#[derive(Debug, Clone, PartialEq, Eq)]
pub struct UnnamedField {
    pub vis: Visibility,
    pub ty: Type,
}

/// Named fields, in the order they are declared.
#[derive(Debug, Clone, PartialEq, Eq)]
pub struct FieldsNamed {
    pub named: Vec<NamedField>,
}

/// The fields of a tuple struct, in the order they are declared.
#[derive(Debug, Clone, PartialEq, Eq)]
pub struct FieldsUnnamed {
    pub unnamed: Vec<UnnamedField>,
}

/// The fields of a struct.
#[derive(Debug, Clone, PartialEq, Eq)]
pub enum Fields {
    Named(FieldsNamed),
    Unnamed(FieldsUnnamed),
    Unit,
}

/// The body of a struct.
#[derive(Debug, Clone, PartialEq, Eq)]
pub struct DataStruct {
    pub fields: Fields,
}

/// What kind of item a declaration is.
#[derive(Debug, Clone, PartialEq, Eq)]
pub enum Data {
    Struct(DataStruct),
    Enum,
    Union,
}

/// An attribute `#[path(..)]`.
#[derive(Debug, Clone, PartialEq, Eq)]
pub struct Attribute {
    pub path: Path,
    /// The identifier between the parentheses, where the attribute's
    /// arguments are exactly one identifier.
    pub args_ident: Option<String>,
}

/// A declaration that an attribute or derive is applied to.
#[derive(Debug, Clone, PartialEq, Eq)]
pub struct DeriveInput {
    pub attrs: Vec<Attribute>,
    pub vis: Visibility,
    pub ident: String,
    pub generics: Vec<GenericParam>,
    pub data: Data,
}

impl Clone for Visibility {
    fn clone(&self) -> (copy: Self)
        ensures
            copy == *self,
    {
        match self {
            Visibility::Public => Visibility::Public,
            Visibility::Restricted(scope) => Visibility::Restricted(scope.clone()),
            Visibility::Inherited => Visibility::Inherited,
        }
    }
}

impl Path {
    /// Whether the path is the single identifier `ident`: no leading colon,
    /// one segment, no arguments.
    pub open spec fn is_ident(&self, ident: Seq<char>) -> bool {
        &&& !self.leading_colon
        &&& self.segments@.len() == 1
        &&& !self.segments@[0].has_arguments
        &&& self.segments@[0].ident@ == ident
    }

    /// Whether the path is a single identifier.
    pub open spec fn is_single_ident(&self) -> bool {
        &&& !self.leading_colon
        &&& self.segments@.len() == 1
        &&& !self.segments@[0].has_arguments
    }

    /// The identifier that the path consists of, if it is a single
    /// identifier.
    pub fn get_ident(&self) -> (ident: Option<&String>)
        ensures
            ident is Some <==> self.is_single_ident(),
            ident is Some ==> *ident->0 == self.segments@[0].ident,
    {
        if !self.leading_colon && self.segments.len() == 1 && !self.segments[0].has_arguments {
            Some(&self.segments[0].ident)
        } else {
            None
        }
    }
}

impl Type {
    /// Whether the type is the path that is the single identifier `ident`.
    pub open spec fn is_ident(&self, ident: Seq<char>) -> bool {
        self matches Type::Path(path) && path.is_ident(ident)
    }

    /// Whether the type is the array `[elem; len]` of two single
    /// identifiers.
    pub open spec fn is_array_of(&self, elem: Seq<char>, len: Seq<char>) -> bool {
        self matches Type::Array { elem: e, len: l } && e.is_ident(elem) && l.is_ident(len)
    }
}

impl GenericParam {
    /// Whether the parameter is the type parameter `ident`.
    pub open spec fn is_type(&self, ident: Seq<char>) -> bool {
        self matches GenericParam::Type(param) && param.ident@ == ident
    }

    /// Whether the parameter is `const ident: bool`.
    pub open spec fn is_const_bool(&self, ident: Seq<char>) -> bool {
        self matches GenericParam::Const(param) && param.ident@ == ident && param.ty.is_ident(
            "bool"@,
        )
    }
}

impl GenericArgument {
    /// Whether the argument is the type that is the single identifier
    /// `ident`.
    pub open spec fn is_type(&self, ident: Seq<char>) -> bool {
        self matches GenericArgument::Type(ty) && ty.is_ident(ident)
    }

    /// Whether the argument is the boolean literal `value`.
    pub open spec fn is_const(&self, value: bool) -> bool {
        self matches GenericArgument::Const(b) && b == value
    }
}

} // verus!
