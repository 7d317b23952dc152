use dsn::sexpr_config::{
    derive_enum, derive_struct, extract_option_inner_type, has_pyclass, is_derivable, item_form, sexpr, snake_case,
    strip_sexpr_attrs, strip_sexpr_field_attrs, FieldDecl, FieldForm, GenericArgument, ItemDecl, ItemForm, ItemPlan, Lit, Meta, Path, PathArguments,
    PathSegment, SexprAttrs, SexprError, StructStyle, TypeModel, VariantDecl,
};

fn path(s: &str) -> Path {
    Path { segments: s.split("::").map(|p| p.to_string()).collect() }
}

/// `#[sexpr(inner)]`
fn sexpr_list(inner: Meta) -> Meta {
    Meta::List { path: path("sexpr"), inner: Some(Box::new(inner)) }
}

fn anonymous() -> Meta {
    sexpr_list(Meta::Path(path("anonymous")))
}

fn named(n: &str) -> Meta {
    sexpr_list(Meta::NameValue { path: path("name"), value: Lit::Str(n.to_string()) })
}

fn ty(name: &str) -> TypeModel {
    TypeModel::Path(vec![PathSegment { ident: name.to_string(), arguments: PathArguments::Bare }])
}

fn option_of(inner: TypeModel) -> TypeModel {
    TypeModel::Path(vec![PathSegment {
        ident: "Option".to_string(),
        arguments: PathArguments::AngleBracketed(vec![GenericArgument::Type(inner)]),
    }])
}

fn field(ident: &str, attrs: Vec<Meta>, t: TypeModel) -> FieldDecl {
    FieldDecl { ident: Some(ident.to_string()), attrs, ty: t }
}

#[test]
fn test_sexpr_attrs_anonymous() {
    let attrs = vec![anonymous()];
    let result = SexprAttrs::from_attributes(&attrs).unwrap();
    assert!(result.anonymous.unwrap());
    assert!(result.name.is_none());
}

#[test]
fn test_sexpr_attrs_named() {
    let attrs = vec![named("test_name")];
    let result = SexprAttrs::from_attributes(&attrs).unwrap();
    assert!(result.anonymous.is_none());
    assert_eq!(result.name.unwrap(), "test_name");
}

#[test]
fn test_sexpr_attrs_no_attributes() {
    let attrs: Vec<Meta> = vec![];
    let result = SexprAttrs::from_attributes(&attrs).unwrap();
    assert!(result.anonymous.is_none());
    assert!(result.name.is_none());
}

#[test]
fn test_sexpr_attrs_invalid_combination() {
    let attrs = vec![anonymous(), named("test")];
    assert!(SexprAttrs::from_attributes(&attrs).is_err());
}

#[test]
fn test_sexpr_attrs_invalid_format() {
    // Test invalid name value
    let attrs = vec![sexpr_list(Meta::NameValue { path: path("name"), value: Lit::Other("123".to_string()) })];
    assert!(SexprAttrs::from_attributes(&attrs).is_err());

    // Test invalid attribute format
    let attrs = vec![Meta::NameValue { path: path("sexpr"), value: Lit::Str("invalid".to_string()) }];
    assert!(SexprAttrs::from_attributes(&attrs).is_err());

    // Test unknown attribute
    let attrs = vec![sexpr_list(Meta::Path(path("unknown")))];
    assert!(SexprAttrs::from_attributes(&attrs).is_err());
}

#[test]
fn errors_are_told_apart() {
    let e = |attrs: Vec<Meta>| SexprAttrs::from_attributes(&attrs).unwrap_err();
    assert_eq!(e(vec![anonymous(), named("x")]), SexprError::AnonymousWithName);
    assert_eq!(
        e(vec![sexpr_list(Meta::NameValue { path: path("label"), value: Lit::Str("x".to_string()) })]),
        SexprError::ExpectedName
    );
    assert_eq!(
        e(vec![sexpr_list(Meta::NameValue { path: path("name"), value: Lit::Other("1".to_string()) })]),
        SexprError::ExpectedStringLiteral
    );
    assert_eq!(e(vec![Meta::Path(path("sexpr"))]), SexprError::ExpectedList);
    assert_eq!(e(vec![Meta::List { path: path("sexpr"), inner: None }]), SexprError::MalformedArguments);
    assert_eq!(e(vec![sexpr_list(Meta::Path(path("unknown")))]), SexprError::ExpectedAnonymousOrName);
    assert_eq!(SexprError::AnonymousWithName.message(), "anonymous and name attributes cannot be used together");
}

#[test]
fn first_option_wins_and_other_attributes_are_ignored() {
    let attrs = vec![Meta::Path(path("allow")), named("first"), named("second")];
    let result = SexprAttrs::from_attributes(&attrs).unwrap();
    assert_eq!(result.name.unwrap(), "first");
    // The first refused attribute is the error, even when a later one is fine.
    let attrs = vec![sexpr_list(Meta::Path(path("bad"))), named("fine")];
    assert_eq!(SexprAttrs::from_attributes(&attrs), Err(SexprError::ExpectedAnonymousOrName));
}

#[test]
fn validate_rejects_both() {
    assert_eq!(
        SexprAttrs::validate(Some("a".to_string()), Some(true)),
        Err(SexprError::AnonymousWithName)
    );
    assert!(SexprAttrs::validate(Some("a".to_string()), None).is_ok());
}

#[test]
fn option_inner_type() {
    let t = option_of(ty("Id"));
    match extract_option_inner_type(&t) {
        Some(TypeModel::Path(segs)) => assert_eq!(segs[0].ident, "Id"),
        other => panic!("unexpected {:?}", other),
    }
    assert!(extract_option_inner_type(&ty("Vec")).is_none());
    assert!(extract_option_inner_type(&TypeModel::Other).is_none());
    let bare_option = ty("Option");
    assert!(extract_option_inner_type(&bare_option).is_none());
}

#[test]
fn snake_case_uses_convert_case() {
    assert_eq!(snake_case("TestStructFields"), "test_struct_fields");
    assert_eq!(snake_case("PositiveDiagonal"), "positive_diagonal");
    assert_eq!(snake_case("Pcb"), "pcb");
}

#[test]
fn item_forms() {
    assert_eq!(item_form(Some("x".to_string()), StructStyle::Unit, 0), ItemForm::Keyword("x".to_string()));
    assert_eq!(item_form(Some("x".to_string()), StructStyle::Tuple, 0), ItemForm::Keyword("x".to_string()));
    // `struct TestStructCustomName {}` with `name = "custom_name"` is written `(custom_name)`.
    assert_eq!(
        item_form(Some("custom_name".to_string()), StructStyle::Named, 0),
        ItemForm::List("custom_name".to_string())
    );
    assert_eq!(item_form(Some("x".to_string()), StructStyle::Tuple, 2), ItemForm::List("x".to_string()));
    assert_eq!(item_form(None, StructStyle::Tuple, 2), ItemForm::Sequence);
}

#[test]
fn struct_plan_from_declaration() {
    // struct TestOption { #[sexpr(name = "a")] a: Option<String>, #[sexpr(name = "b")] b: String }
    let fields = vec![
        field("a", vec![named("a")], option_of(ty("String"))),
        field("b", vec![named("b")], ty("String")),
    ];
    let plan = derive_struct("TestOption", &SexprAttrs::new(), StructStyle::Named, &fields).unwrap();
    assert_eq!(plan.form, ItemForm::List("test_option".to_string()));
    assert_eq!(plan.fields[0], FieldForm { name: Some("a".to_string()), optional: true });
    assert_eq!(plan.fields[1], FieldForm { name: Some("b".to_string()), optional: false });

    // Fields are anonymous unless named.
    let fields = vec![field("a", vec![], ty("String"))];
    let anon = SexprAttrs::validate(None, Some(true)).unwrap();
    let plan = derive_struct("TestNestedInner", &anon, StructStyle::Named, &fields).unwrap();
    assert_eq!(plan.form, ItemForm::Sequence);
    assert_eq!(plan.fields[0], FieldForm { name: None, optional: false });
}

#[test]
fn enum_plan_from_declaration() {
    // enum TestEnum { A(String), B { #[sexpr(name = "data")] data: String }, C }
    let variants = vec![
        VariantDecl {
            ident: "A".to_string(),
            attrs: vec![],
            style: StructStyle::Tuple,
            fields: vec![FieldDecl { ident: None, attrs: vec![], ty: ty("String") }],
        },
        VariantDecl {
            ident: "B".to_string(),
            attrs: vec![],
            style: StructStyle::Named,
            fields: vec![field("data", vec![named("data")], ty("String"))],
        },
        VariantDecl { ident: "C".to_string(), attrs: vec![], style: StructStyle::Unit, fields: vec![] },
    ];
    let plans = derive_enum(&variants).unwrap();
    assert_eq!(plans[0].form, ItemForm::List("a".to_string()));
    assert_eq!(plans[1].form, ItemForm::List("b".to_string()));
    assert_eq!(plans[2].form, ItemForm::Keyword("c".to_string()));
    let item = ItemDecl::Enum { ident: "TestEnum".to_string(), variants };
    match sexpr(None, item).map(|x| x.plan) {
        Ok(ItemPlan::Enum(p)) => {
            assert_eq!(p.len(), 3);
            assert_eq!(p[0].form, ItemForm::List("a".to_string()));
            assert_eq!(p[2].form, ItemForm::Keyword("c".to_string()));
        },
        other => panic!("unexpected {:?}", other),
    }
}

#[test]
fn sexpr_entry_point() {
    let item = ItemDecl::Struct { ident: "TestUnitStruct".to_string(), style: StructStyle::Unit, fields: vec![] };
    let attr = Meta::NameValue { path: path("name"), value: Lit::Str("test_struct".to_string()) };
    match sexpr(Some(attr), item).map(|x| x.plan) {
        Ok(ItemPlan::Struct(p)) => assert_eq!(p.form, ItemForm::Keyword("test_struct".to_string())),
        other => panic!("unexpected {:?}", other),
    }
    let item = ItemDecl::Struct { ident: "X".to_string(), style: StructStyle::Unit, fields: vec![] };
    assert_eq!(
        sexpr(Some(Meta::Path(path("bogus"))), item).map(|x| x.plan),
        Err(SexprError::ExpectedAnonymousOrName)
    );
}

#[test]
fn only_structs_and_enums_with_accepted_attributes_are_derivable() {
    assert!(!is_derivable(&ItemDecl::Other));
    let ok = ItemDecl::Struct { ident: "X".to_string(), style: StructStyle::Unit, fields: vec![] };
    assert!(is_derivable(&ok));
    let bad_field = ItemDecl::Struct {
        ident: "X".to_string(),
        style: StructStyle::Named,
        fields: vec![field("a", vec![anonymous(), named("a")], ty("String"))],
    };
    assert!(!is_derivable(&bad_field));
    let bad_variant = ItemDecl::Enum {
        ident: "E".to_string(),
        variants: vec![VariantDecl {
            ident: "A".to_string(),
            attrs: vec![sexpr_list(Meta::Path(path("bogus")))],
            style: StructStyle::Unit,
            fields: vec![],
        }],
    };
    assert!(!is_derivable(&bad_variant));
}

#[test]
fn expansion_strips_field_and_variant_attributes() {
    let item = ItemDecl::Enum {
        ident: "E".to_string(),
        variants: vec![VariantDecl {
            ident: "B".to_string(),
            attrs: vec![named("bee"), Meta::Path(path("doc"))],
            style: StructStyle::Named,
            fields: vec![field("data", vec![named("data"), Meta::Path(path("allow"))], ty("String"))],
        }],
    };
    let x = sexpr(None, item).unwrap();
    match &x.item {
        ItemDecl::Enum { ident, variants } => {
            assert_eq!(ident, "E");
            assert_eq!(variants[0].attrs.len(), 1);
            assert_eq!(variants[0].fields[0].attrs.len(), 1);
            assert_eq!(variants[0].fields[0].ident, Some("data".to_string()));
        },
        other => panic!("unexpected {:?}", other),
    }
    let s = strip_sexpr_field_attrs(ItemDecl::Struct {
        ident: "S".to_string(),
        style: StructStyle::Named,
        fields: vec![field("a", vec![named("a")], ty("String"))],
    });
    match s {
        ItemDecl::Struct { fields, .. } => assert!(fields[0].attrs.is_empty()),
        other => panic!("unexpected {:?}", other),
    }
}

#[test]
fn strip_keeps_other_attributes() {
    let attrs = vec![named("x"), Meta::Path(path("doc")), anonymous()];
    let kept = strip_sexpr_attrs(attrs);
    assert_eq!(kept.len(), 1);
    match &kept[0] {
        Meta::Path(p) => assert_eq!(p.segments, vec!["doc".to_string()]),
        other => panic!("unexpected {:?}", other),
    }
}

#[test]
fn pyclass_attribute_is_found() {
    assert!(has_pyclass(&vec![Meta::Path(path("derive")), Meta::Path(path("pyclass"))]));
    assert!(!has_pyclass(&vec![Meta::Path(path("pyo3::pyclass")), named("x")]));
    assert!(!has_pyclass(&vec![]));
}
