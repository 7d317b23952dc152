//! Declarations with the `sexpr` attribute, and what their parsers read.
use dsn::derived::{read_str, Reader, Value};
use dsn::outcome::Outcome;
use dsn::sexpr_config::{
    sexpr, FieldDecl, GenericArgument, ItemDecl, ItemPlan, Lit, Meta, Path, PathArguments, PathSegment,
    StructStyle, TypeModel, VariantDecl,
};

fn path(s: &str) -> Path {
    Path { segments: s.split("::").map(|p| p.to_string()).collect() }
}

/// `name = "n"`, as it stands inside `#[sexpr(...)]`.
fn name_item(n: &str) -> Meta {
    Meta::NameValue { path: path("name"), value: Lit::Str(n.to_string()) }
}

/// `#[sexpr(name = "n")]`
fn named(n: &str) -> Meta {
    Meta::List { path: path("sexpr"), inner: Some(Box::new(name_item(n))) }
}

/// `#[sexpr(anonymous)]`
fn anonymous() -> Meta {
    Meta::List { path: path("sexpr"), inner: Some(Box::new(Meta::Path(path("anonymous")))) }
}

fn ty(name: &str) -> TypeModel {
    TypeModel::Path(vec![PathSegment { ident: name.to_string(), arguments: PathArguments::Bare }])
}

fn generic(outer: &str, inner: TypeModel) -> TypeModel {
    TypeModel::Path(vec![PathSegment {
        ident: outer.to_string(),
        arguments: PathArguments::AngleBracketed(vec![GenericArgument::Type(inner)]),
    }])
}

fn field(ident: &str, attrs: Vec<Meta>, t: TypeModel) -> FieldDecl {
    FieldDecl { ident: Some(ident.to_string()), attrs, ty: t }
}

fn unnamed_field(t: TypeModel) -> FieldDecl {
    FieldDecl { ident: None, attrs: vec![], ty: t }
}

fn variant(ident: &str, attrs: Vec<Meta>, style: StructStyle, fields: Vec<FieldDecl>) -> VariantDecl {
    VariantDecl { ident: ident.to_string(), attrs, style, fields }
}

/// The parser of a struct with the attribute, given the rules of its fields' types.
fn struct_reader(attr: Option<Meta>, ident: &str, style: StructStyle, fields: Vec<FieldDecl>, readers: Vec<Reader>) -> Reader {
    let item = ItemDecl::Struct { ident: ident.to_string(), style, fields };
    match sexpr(attr, item).unwrap().plan {
        ItemPlan::Struct(plan) => Reader::Struct(plan, readers),
        other => panic!("unexpected {:?}", other),
    }
}

/// The parser of an enum with the attribute, given the rules of each
/// variant's fields' types.
fn enum_reader(ident: &str, variants: Vec<VariantDecl>, readers: Vec<Vec<Reader>>) -> Reader {
    let item = ItemDecl::Enum { ident: ident.to_string(), variants };
    match sexpr(None, item).unwrap().plan {
        ItemPlan::Enum(plans) => {
            Reader::Enum(plans.into_iter().zip(readers).map(|(p, r)| Reader::Struct(p, r)).collect())
        },
        other => panic!("unexpected {:?}", other),
    }
}

fn shown(o: &Outcome<Value>) -> String {
    match o {
        Outcome::Parsed(v, _) => format!("{:?}", v),
        other => panic!("unexpected {:?}", other),
    }
}

fn test_enum() -> Reader {
    enum_reader(
        "TestEnum",
        vec![
            variant("A", vec![], StructStyle::Tuple, vec![unnamed_field(ty("String"))]),
            variant("B", vec![], StructStyle::Named, vec![field("data", vec![named("data")], ty("String"))]),
            variant("C", vec![], StructStyle::Unit, vec![]),
        ],
        vec![vec![Reader::Text], vec![Reader::Text], vec![]],
    )
}

#[test]
fn test_parse_unit_struct() {
    let parser = struct_reader(Some(name_item("test_struct")), "TestUnitStruct", StructStyle::Unit, vec![], vec![]);
    let result = read_str(&parser, "test_struct");
    assert!(result.is_parsed());
}

#[test]
fn test_parse_custom_name() {
    let parser =
        struct_reader(Some(name_item("custom_name")), "TestStructCustomName", StructStyle::Named, vec![], vec![]);
    let result = read_str(&parser, "(custom_name)");
    assert!(result.is_parsed());
}

#[test]
fn test_parse_fields() {
    let parser = struct_reader(
        None,
        "TestStructFields",
        StructStyle::Named,
        vec![field("a", vec![], ty("String")), field("b", vec![], ty("String"))],
        vec![Reader::Text, Reader::Text],
    );
    let result = read_str(&parser, "(test_struct_fields hello world)");
    assert!(result.is_parsed());
    assert_eq!(shown(&result), r#"Record([Text("hello"), Text("world")])"#);
}

#[test]
fn test_parse_named() {
    let parser = struct_reader(
        None,
        "TestStructNamed",
        StructStyle::Named,
        vec![field("a", vec![named("a")], ty("String")), field("b", vec![named("b")], ty("String"))],
        vec![Reader::Text, Reader::Text],
    );
    let result = read_str(&parser, "(test_struct_named (a hello) (b world))");
    assert!(result.is_parsed());
    assert_eq!(shown(&result), r#"Record([Text("hello"), Text("world")])"#);
}

#[test]
fn test_parse_unnamed() {
    let parser =
        struct_reader(None, "TestUnnamed", StructStyle::Tuple, vec![unnamed_field(ty("String"))], vec![Reader::Text]);
    let result = read_str(&parser, "(test_unnamed hello)");
    assert!(result.is_parsed());
}

#[test]
fn test_parse_enum_unnamed() {
    let result = read_str(&test_enum(), "(a hello)");
    assert!(result.is_parsed());
    assert_eq!(shown(&result), r#"Variant(0, Record([Text("hello")]))"#);
}

#[test]
fn test_parse_enum_named() {
    let result = read_str(&test_enum(), "(b (data world))");
    assert!(result.is_parsed());
    assert_eq!(shown(&result), r#"Variant(1, Record([Text("world")]))"#);
}

#[test]
fn test_parse_enum_unit() {
    let result = read_str(&test_enum(), "c");
    assert!(result.is_parsed());
    assert_eq!(shown(&result), "Variant(2, Record([]))");
}

#[test]
fn test_parse_option() {
    let parser = || {
        struct_reader(
            None,
            "TestOption",
            StructStyle::Named,
            vec![
                field("a", vec![named("a")], generic("Option", ty("String"))),
                field("b", vec![named("b")], ty("String")),
            ],
            vec![Reader::Text, Reader::Text],
        )
    };
    let result = read_str(&parser(), "(test_option (a hello) (b world))");
    assert!(result.is_parsed());
    assert_eq!(shown(&result), r#"Record([Opt(Some(Text("hello"))), Text("world")])"#);

    let result = read_str(&parser(), "(test_option (b world))");
    assert!(result.is_parsed());
    assert_eq!(shown(&result), r#"Record([Opt(None), Text("world")])"#);
}

#[test]
fn test_parse_nested() {
    let inner = struct_reader(
        Some(Meta::Path(path("anonymous"))),
        "TestNestedInner",
        StructStyle::Named,
        vec![field("c", vec![named("c")], ty("String"))],
        vec![Reader::Text],
    );
    let parser = struct_reader(
        None,
        "TestNestedOuter",
        StructStyle::Named,
        vec![field("a", vec![named("a")], ty("String")), field("b", vec![named("b")], ty("TestNestedInner"))],
        vec![Reader::Text, inner],
    );
    let result = read_str(&parser, "(test_nested_outer (a hello) (b (c world)))");
    assert!(result.is_parsed());
    assert_eq!(shown(&result), r#"Record([Text("hello"), Record([Text("world")])])"#);
}

#[test]
fn test_parse_vec() {
    let parser = || {
        struct_reader(
            None,
            "TestVec",
            StructStyle::Named,
            vec![field("items", vec![named("items")], generic("Vec", ty("String")))],
            vec![Reader::Many(Box::new(Reader::Text))],
        )
    };
    let result = read_str(&parser(), "(test_vec (items hello world))");
    assert!(result.is_parsed());
    assert_eq!(shown(&result), r#"Record([List([Text("hello"), Text("world")])])"#);

    let result = read_str(&parser(), "(test_vec (items))");
    assert!(result.is_parsed());
    assert_eq!(shown(&result), "Record([List([])])");
}

#[test]
fn test_parse_enum_anonymous() {
    let parser = enum_reader(
        "TestEnumAnonymous",
        vec![
            variant("A", vec![], StructStyle::Unit, vec![]),
            variant("B", vec![], StructStyle::Unit, vec![]),
            variant("C", vec![], StructStyle::Unit, vec![]),
        ],
        vec![vec![], vec![], vec![]],
    );
    let result = read_str(&parser, "a");
    assert!(result.is_parsed());
    assert_eq!(shown(&result), "Variant(0, Record([]))");
}

#[test]
fn test_parse_enum_single() {
    let parser = enum_reader("TestEnumSingle", vec![variant("A", vec![], StructStyle::Unit, vec![])], vec![vec![]]);
    let result = read_str(&parser, "a");
    assert!(result.is_parsed());
}

#[test]
fn test_parse_enum_empty() {
    let parser = enum_reader("TestEnumEmpty", vec![], vec![]);
    let result = read_str(&parser, "");
    assert!(!result.is_parsed());
    assert!(matches!(result, Outcome::Failed));
}

#[test]
fn unit_variants_are_their_snake_case_keywords() {
    let parser = enum_reader(
        "Dir",
        vec![
            variant("Horizontal", vec![], StructStyle::Unit, vec![]),
            variant("PositiveDiagonal", vec![], StructStyle::Unit, vec![]),
        ],
        vec![vec![], vec![]],
    );
    assert_eq!(shown(&read_str(&parser, "horizontal")), "Variant(0, Record([]))");
    assert_eq!(shown(&read_str(&parser, "positive_diagonal")), "Variant(1, Record([]))");
    assert!(matches!(read_str(&parser, "PositiveDiagonal"), Outcome::Failed));
    assert!(matches!(read_str(&parser, "positivediagonal"), Outcome::Failed));
}

#[test]
fn variants_are_tried_in_order_and_an_anonymous_empty_one_matches_anything() {
    let parser = enum_reader(
        "E",
        vec![
            variant("A", vec![anonymous()], StructStyle::Unit, vec![]),
            variant("B", vec![], StructStyle::Unit, vec![]),
        ],
        vec![vec![], vec![]],
    );
    assert_eq!(shown(&read_str(&parser, "b")), "Variant(0, Record([]))");
}

#[test]
fn a_required_field_that_is_missing_fails() {
    let parser = struct_reader(
        None,
        "TestStructNamed",
        StructStyle::Named,
        vec![field("a", vec![named("a")], ty("String")), field("b", vec![named("b")], ty("String"))],
        vec![Reader::Text, Reader::Text],
    );
    assert!(matches!(read_str(&parser, "(test_struct_named (a hello))"), Outcome::Failed));
    assert!(matches!(read_str(&parser, "(other (a hello) (b world))"), Outcome::Failed));
}

#[test]
fn a_plain_attribute_writes_the_type_in_snake_case() {
    let parser =
        struct_reader(None, "FooBar", StructStyle::Named, vec![field("x", vec![], ty("String"))], vec![Reader::Text]);
    assert_eq!(shown(&read_str(&parser, "(foo_bar x)")), r#"Record([Text("x")])"#);
    assert!(matches!(read_str(&parser, "(FooBar x)"), Outcome::Failed));
}

#[test]
fn an_enums_own_options_do_not_change_its_parser() {
    let variants = || vec![variant("Off", vec![], StructStyle::Tuple, vec![]), variant("On", vec![], StructStyle::Unit, vec![])];
    let with_name = ItemDecl::Enum { ident: "AttachDescriptor".to_string(), variants: variants() };
    let plain = ItemDecl::Enum { ident: "AttachDescriptor".to_string(), variants: variants() };
    let a = sexpr(Some(name_item("attach")), with_name).unwrap().plan;
    let b = sexpr(None, plain).unwrap().plan;
    assert_eq!(a, b);
    let reader = match a {
        ItemPlan::Enum(plans) => Reader::Enum(plans.into_iter().map(|p| Reader::Struct(p, vec![])).collect()),
        other => panic!("unexpected {:?}", other),
    };
    assert_eq!(shown(&read_str(&reader, "off")), "Variant(0, Record([]))");
    assert!(matches!(read_str(&reader, "(attach off)"), Outcome::Failed));
}
