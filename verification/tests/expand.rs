use generic_array_struct::attr_args::{AttrArgs, AttrArgsError};
use generic_array_struct::errs::ExpandError;
use generic_array_struct::expand::generic_array_struct;
use generic_array_struct::expand_builder::{generic_array_struct_builder, impl_builder};
use generic_array_struct::expand_destr::{impl_destr, is_attr_compat, DestrError};
use generic_array_struct::params::GenericArrayStructParams;
use generic_array_struct::syntax::{
    Attribute, ConstParam, Data, DataStruct, DeriveInput, Fields, FieldsNamed, FieldsUnnamed,
    GenericArgument, GenericParam, NamedField, Path, PathSegment, Type, TypeParam, UnnamedField,
    Visibility,
};

fn path(ident: &str) -> Path {
    Path {
        leading_colon: false,
        segments: vec![PathSegment { ident: ident.to_string(), has_arguments: false }],
    }
}

fn named(vis: Visibility, ident: &str, ty: &str) -> NamedField {
    NamedField { vis, ident: ident.to_string(), ty: Type::Path(path(ty)) }
}

fn type_param(ident: &str) -> GenericParam {
    GenericParam::Type(TypeParam { ident: ident.to_string() })
}

fn flag_param(ident: &str) -> GenericParam {
    GenericParam::Const(ConstParam { ident: ident.to_string(), ty: Type::Path(path("bool")) })
}

fn type_arg(ident: &str) -> GenericArgument {
    GenericArgument::Type(Type::Path(path(ident)))
}

fn repr(arg: Option<&str>) -> Attribute {
    Attribute { path: path("repr"), args_ident: arg.map(|a| a.to_string()) }
}

fn input(generics: Vec<GenericParam>, data: Data) -> GenericArrayStructParams {
    GenericArrayStructParams(DeriveInput {
        attrs: vec![],
        vis: Visibility::Restricted("crate".to_string()),
        ident: "Rgb".to_string(),
        generics,
        data,
    })
}

fn struct_of(fields: Vec<NamedField>) -> Data {
    Data::Struct(DataStruct { fields: Fields::Named(FieldsNamed { named: fields }) })
}

fn rgb() -> GenericArrayStructParams {
    input(
        vec![type_param("T")],
        struct_of(vec![
            named(Visibility::Public, "r", "T"),
            named(Visibility::Inherited, "g", "T"),
            named(Visibility::Restricted("super".to_string()), "b", "T"),
        ]),
    )
}

fn plain() -> AttrArgs {
    AttrArgs { array_field_vis: Visibility::Inherited, should_gen_builder: false }
}

#[test]
fn attr_args_empty() {
    assert_eq!(
        AttrArgs::parse(None, None),
        Ok(AttrArgs { array_field_vis: Visibility::Inherited, should_gen_builder: false })
    );
}

#[test]
fn attr_args_builder_only() {
    assert_eq!(
        AttrArgs::parse(Some("builder"), None),
        Ok(AttrArgs { array_field_vis: Visibility::Inherited, should_gen_builder: true })
    );
}

#[test]
fn attr_args_visibility_only() {
    assert_eq!(
        AttrArgs::parse(None, Some(Visibility::Public)),
        Ok(AttrArgs { array_field_vis: Visibility::Public, should_gen_builder: false })
    );
}

#[test]
fn attr_args_builder_and_visibility() {
    let vis = Visibility::Restricted("crate".to_string());
    assert_eq!(
        AttrArgs::parse(Some("builder"), Some(vis.clone())),
        Ok(AttrArgs { array_field_vis: vis, should_gen_builder: true })
    );
}

#[test]
fn attr_args_other_identifier() {
    assert_eq!(AttrArgs::parse(Some("destr"), None), Err(AttrArgsError::ExpectedBuilder));
    assert_eq!(
        AttrArgs::parse(Some("Builder"), Some(Visibility::Public)),
        Err(AttrArgsError::ExpectedBuilder)
    );
    assert_eq!(AttrArgsError::ExpectedBuilder.message(), "Expected token `builder`");
}

#[test]
fn accessors_of_a_struct() {
    let params = rgb();
    assert_eq!(params.struct_vis(), &Visibility::Restricted("crate".to_string()));
    assert_eq!(params.struct_ident(), "Rgb");
    assert_eq!(params.generic_ident(), Ok(&"T".to_string()));
    assert_eq!(params.fields_named().unwrap().named.len(), 3);
    assert!(matches!(params.data_struct().unwrap().fields, Fields::Named(_)));
    assert!(params.attrs().is_empty());
}

#[test]
fn generic_ident_needs_one_type_parameter() {
    let none = input(vec![], struct_of(vec![]));
    assert_eq!(none.generic_ident(), Err(ExpandError::ReqSingleGeneric));
    let two = input(vec![type_param("T"), type_param("U")], struct_of(vec![]));
    assert_eq!(two.generic_ident(), Err(ExpandError::ReqSingleGeneric));
    let lifetime = input(vec![GenericParam::Lifetime("a".to_string())], struct_of(vec![]));
    assert_eq!(lifetime.generic_ident(), Err(ExpandError::ReqSingleGeneric));
    let constant = input(vec![flag_param("N")], struct_of(vec![]));
    assert_eq!(constant.generic_ident(), Err(ExpandError::ReqSingleGeneric));
}

#[test]
fn only_structs_have_a_body() {
    let mut an_enum = input(vec![type_param("T")], Data::Enum);
    assert_eq!(an_enum.data_struct(), Err(ExpandError::OnlyWorksWithStructs));
    assert_eq!(an_enum.fields_named(), Err(ExpandError::OnlyWorksWithStructs));
    let before = an_enum.clone();
    assert!(matches!(an_enum.data_struct_mut(), Err(ExpandError::OnlyWorksWithStructs)));
    assert_eq!(an_enum, before);
    let a_union = input(vec![type_param("T")], Data::Union);
    assert_eq!(a_union.data_struct(), Err(ExpandError::OnlyWorksWithStructs));
}

#[test]
fn only_named_fields_are_named() {
    let tuple = input(
        vec![type_param("T")],
        Data::Struct(DataStruct { fields: Fields::Unnamed(FieldsUnnamed { unnamed: vec![] }) }),
    );
    assert_eq!(tuple.fields_named(), Err(ExpandError::OnlyWorksWithStructsWithNamedFields));
    let unit = input(vec![type_param("T")], Data::Struct(DataStruct { fields: Fields::Unit }));
    assert_eq!(unit.fields_named(), Err(ExpandError::OnlyWorksWithStructsWithNamedFields));
    assert!(unit.data_struct().is_ok());
}

#[test]
fn data_struct_mut_rewrites_the_body() {
    let mut params = rgb();
    params.data_struct_mut().unwrap().fields = Fields::Unit;
    let mut expected = rgb();
    expected.0.data = Data::Struct(DataStruct { fields: Fields::Unit });
    assert_eq!(params, expected);
}

#[test]
fn expansion_of_rgb() {
    let expansion = generic_array_struct(plain(), rgb()).unwrap();
    assert_eq!(expansion.len_ident, "RGB_LEN");
    assert_eq!(expansion.n_fields, 3);
    assert!(expansion.builder.is_none());

    let g = &expansion.fields[1];
    assert_eq!(g.vis, Visibility::Inherited);
    assert_eq!(g.ident, "g");
    assert_eq!(g.index, 1);
    assert_eq!(g.idx_ident, "RGB_IDX_G");
    assert_eq!(g.mut_ident, "g_mut");
    assert_eq!(g.set_ident, "set_g");
    assert_eq!(g.with_ident, "with_g");
    assert_eq!(g.const_with_ident, "const_with_g");
    assert_eq!(expansion.fields[0].vis, Visibility::Public);
    assert_eq!(expansion.fields[0].index, 0);
    assert_eq!(expansion.fields[2].vis, Visibility::Restricted("super".to_string()));
    assert_eq!(expansion.fields[2].index, 2);
    assert_eq!(expansion.fields[2].idx_ident, "RGB_IDX_B");

    let schema = expansion.schema();
    assert_eq!(schema.len(), 3);
    assert_eq!(schema.field_idx("b"), Some(2));
}

#[test]
fn expansion_rewrites_the_struct_over_one_array() {
    let args = AttrArgs { array_field_vis: Visibility::Public, should_gen_builder: false };
    let expansion = generic_array_struct(args, rgb()).unwrap();
    let mut expected = rgb();
    expected.0.data = Data::Struct(DataStruct {
        fields: Fields::Unnamed(FieldsUnnamed {
            unnamed: vec![UnnamedField {
                vis: Visibility::Public,
                ty: Type::Array { elem: path("T"), len: path("RGB_LEN") },
            }],
        }),
    });
    assert_eq!(expansion.rewritten, expected);
}

#[test]
fn expansion_with_builder() {
    let args = AttrArgs { array_field_vis: Visibility::Inherited, should_gen_builder: true };
    let expansion = generic_array_struct(args, rgb()).unwrap();
    let builder = expansion.builder.unwrap();
    assert_eq!(builder, impl_builder(&rgb(), &Visibility::Restricted("crate".to_string())).unwrap());
}

#[test]
fn expansion_of_a_struct_without_fields() {
    let expansion = generic_array_struct(plain(), input(vec![type_param("T")], struct_of(vec![])))
        .unwrap();
    assert_eq!(expansion.n_fields, 0);
    assert!(expansion.fields.is_empty());
    assert_eq!(expansion.schema().len(), 0);
}

#[test]
fn expansion_turns_down_what_is_no_struct() {
    assert_eq!(
        generic_array_struct(plain(), input(vec![type_param("T")], Data::Enum)),
        Err(ExpandError::OnlyWorksWithStructs)
    );
    // what is wrong with the generics comes second
    assert_eq!(
        generic_array_struct(plain(), input(vec![], Data::Union)),
        Err(ExpandError::OnlyWorksWithStructs)
    );
}

#[test]
fn expansion_turns_down_unnamed_fields() {
    let unit = input(vec![], Data::Struct(DataStruct { fields: Fields::Unit }));
    assert_eq!(
        generic_array_struct(plain(), unit),
        Err(ExpandError::OnlyWorksWithStructsWithNamedFields)
    );
}

#[test]
fn expansion_turns_down_a_field_of_another_type() {
    let other = input(
        vec![type_param("T")],
        struct_of(vec![named(Visibility::Public, "r", "T"), named(Visibility::Public, "g", "u8")]),
    );
    assert_eq!(generic_array_struct(plain(), other), Err(ExpandError::ReqAllFieldsSameGeneric));

    let mut not_a_path = rgb();
    if let Data::Struct(data) = &mut not_a_path.0.data {
        if let Fields::Named(fields) = &mut data.fields {
            fields.named[2].ty = Type::Other;
        }
    }
    assert_eq!(
        generic_array_struct(plain(), not_a_path),
        Err(ExpandError::ReqAllFieldsSameGeneric)
    );

    let mut with_arguments = path("T");
    with_arguments.segments[0].has_arguments = true;
    let not_bare = input(
        vec![type_param("T")],
        struct_of(vec![NamedField {
            vis: Visibility::Public,
            ident: "r".to_string(),
            ty: Type::Path(with_arguments),
        }]),
    );
    assert_eq!(generic_array_struct(plain(), not_bare), Err(ExpandError::ReqAllFieldsSameGeneric));
}

#[test]
fn expansion_turns_down_generics_that_are_not_one_type() {
    let two = input(
        vec![type_param("T"), type_param("U")],
        struct_of(vec![named(Visibility::Public, "r", "T")]),
    );
    assert_eq!(generic_array_struct(plain(), two), Err(ExpandError::ReqSingleGeneric));
    // without fields the generics are looked at all the same
    let none = input(vec![], struct_of(vec![]));
    assert_eq!(generic_array_struct(plain(), none), Err(ExpandError::ReqSingleGeneric));
}

#[test]
fn expansion_reports_the_first_field_that_fails() {
    // the first field's type is no identifier: the generics are not looked at
    let mut params = input(
        vec![],
        struct_of(vec![named(Visibility::Public, "r", "T"), named(Visibility::Public, "g", "T")]),
    );
    if let Data::Struct(data) = &mut params.0.data {
        if let Fields::Named(fields) = &mut data.fields {
            fields.named[0].ty = Type::Other;
        }
    }
    assert_eq!(generic_array_struct(plain(), params), Err(ExpandError::ReqAllFieldsSameGeneric));
    // the first field's type is an identifier: the generics are looked at
    let params = input(
        vec![],
        struct_of(vec![named(Visibility::Public, "r", "T"), named(Visibility::Public, "g", "u8")]),
    );
    assert_eq!(generic_array_struct(plain(), params), Err(ExpandError::ReqSingleGeneric));
}

#[test]
fn builder_expansion_of_rgb() {
    let vis = Visibility::Public;
    let builder = impl_builder(&rgb(), &vis).unwrap();
    assert_eq!(builder.struct_vis, Visibility::Public);
    assert_eq!(builder.builder_ident, "RgbBuilder");
    assert_eq!(builder.new_builder_ident, "NewRgbBuilder");
    assert_eq!(builder.len_ident, "RGB_LEN");
    assert_eq!(builder.just_param, type_param("T"));
    assert_eq!(
        builder.all_params,
        vec![type_param("T"), flag_param("S0"), flag_param("S1"), flag_param("S2")]
    );
    assert_eq!(
        builder.all_args,
        vec![type_arg("T"), type_arg("S0"), type_arg("S1"), type_arg("S2")]
    );
    assert_eq!(
        builder.all_false_args,
        vec![
            type_arg("T"),
            GenericArgument::Const(false),
            GenericArgument::Const(false),
            GenericArgument::Const(false)
        ]
    );
    assert_eq!(
        builder.all_true_args,
        vec![
            type_arg("T"),
            GenericArgument::Const(true),
            GenericArgument::Const(true),
            GenericArgument::Const(true)
        ]
    );
    assert_eq!(builder.fields.len(), 3);
    let g = &builder.fields[1];
    assert_eq!(g.impl_params, vec![type_param("T"), flag_param("S0"), flag_param("S2")]);
    assert_eq!(
        g.empty_args,
        vec![type_arg("T"), type_arg("S0"), GenericArgument::Const(false), type_arg("S2")]
    );
    assert_eq!(
        g.set_args,
        vec![type_arg("T"), type_arg("S0"), GenericArgument::Const(true), type_arg("S2")]
    );
    assert_eq!(g.vis, Visibility::Inherited);
    assert_eq!(g.idx_ident, "RGB_IDX_G");
    assert_eq!(g.flag_ident, "S1");
    assert_eq!(g.with_ident, "with_g");
    assert_eq!(builder.fields[2].vis, Visibility::Restricted("super".to_string()));
}

#[test]
fn derived_builder_is_public() {
    let builder = generic_array_struct_builder(&rgb()).unwrap();
    assert_eq!(builder.struct_vis, Visibility::Public);
    for step in &builder.fields {
        assert_eq!(step.vis, Visibility::Public);
    }
    let mut expected = impl_builder(&rgb(), &Visibility::Public).unwrap();
    for step in &mut expected.fields {
        step.vis = Visibility::Public;
    }
    assert_eq!(builder, expected);
}

#[test]
fn builder_expansion_turns_down_what_cannot_be_expanded() {
    let vis = Visibility::Public;
    assert_eq!(
        impl_builder(&input(vec![], Data::Enum), &vis),
        Err(ExpandError::OnlyWorksWithStructs)
    );
    assert_eq!(
        impl_builder(&input(vec![], Data::Struct(DataStruct { fields: Fields::Unit })), &vis),
        Err(ExpandError::OnlyWorksWithStructsWithNamedFields)
    );
    assert_eq!(
        impl_builder(&input(vec![], struct_of(vec![])), &vis),
        Err(ExpandError::ReqSingleGeneric)
    );
    assert_eq!(
        generic_array_struct_builder(&input(vec![], struct_of(vec![]))),
        Err(ExpandError::ReqSingleGeneric)
    );
    // the builder does not look at the fields' types
    let other = input(vec![type_param("T")], struct_of(vec![named(Visibility::Public, "r", "u8")]));
    assert!(impl_builder(&other, &vis).is_ok());
}

#[test]
fn repr_transparent_is_not_carried_over() {
    assert_eq!(is_attr_compat(&repr(Some("transparent"))), Some(false));
    assert_eq!(is_attr_compat(&repr(Some("C"))), Some(true));
    assert_eq!(is_attr_compat(&repr(None)), None);
    let derive = Attribute { path: path("derive"), args_ident: None };
    assert_eq!(is_attr_compat(&derive), Some(true));
    let transparent = Attribute { path: path("doc"), args_ident: Some("transparent".to_string()) };
    assert_eq!(is_attr_compat(&transparent), Some(true));
    let no_path = Attribute {
        path: Path { leading_colon: false, segments: vec![] },
        args_ident: Some("transparent".to_string()),
    };
    assert_eq!(is_attr_compat(&no_path), Some(true));
}

#[test]
fn destr_expansion_of_rgb() {
    let mut params = rgb();
    params.0.attrs = vec![
        Attribute { path: path("doc"), args_ident: None },
        repr(Some("transparent")),
        Attribute { path: path("derive"), args_ident: None },
        repr(Some("C")),
    ];
    let destr = impl_destr(&params).unwrap();
    assert_eq!(destr.destr_ident, "RgbDestr");
    assert_eq!(destr.field_idents, vec!["r".to_string(), "g".to_string(), "b".to_string()]);
    assert_eq!(destr.attrs, vec![0, 2, 3]);
}

#[test]
fn destr_expansion_turns_down_what_cannot_be_expanded() {
    assert_eq!(
        impl_destr(&input(vec![type_param("T")], Data::Enum)),
        Err(DestrError::Expand(ExpandError::OnlyWorksWithStructs))
    );
    assert_eq!(
        impl_destr(&input(vec![], struct_of(vec![]))),
        Err(DestrError::Expand(ExpandError::ReqSingleGeneric))
    );
    let mut params = rgb();
    params.0.attrs = vec![repr(Some("C")), repr(None), repr(None)];
    assert_eq!(impl_destr(&params), Err(DestrError::MalformedRepr(1)));
    // what cannot be expanded comes before a malformed attribute
    let mut params = input(vec![], struct_of(vec![]));
    params.0.attrs = vec![repr(None)];
    assert_eq!(impl_destr(&params), Err(DestrError::Expand(ExpandError::ReqSingleGeneric)));
}
