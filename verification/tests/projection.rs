use api_codegen::generators::golang::type_info_to_golang;
use api_codegen::generators::python::type_info_to_python;
use api_codegen::generators::typescript::type_info_to_typescript_zod;
use api_codegen::generators::typescript_adi_http::{param_type_to_zod, type_info_to_zod};
use api_codegen::parsers::schema_ir::TypeInfo;

fn plain(kind: &str, format: Option<&str>) -> TypeInfo {
    TypeInfo {
        openapi_type: kind.to_string(),
        format: format.map(|f| f.to_string()),
        is_array: false,
        array_item_type: None,
        reference: None,
        enum_values: None,
    }
}

fn array_of(item: TypeInfo) -> TypeInfo {
    TypeInfo {
        openapi_type: "array".to_string(),
        format: None,
        is_array: true,
        array_item_type: Some(Box::new(item)),
        reference: None,
        enum_values: None,
    }
}

fn reference(name: &str) -> TypeInfo {
    TypeInfo {
        openapi_type: "object".to_string(),
        format: None,
        is_array: false,
        array_item_type: None,
        reference: Some(name.to_string()),
        enum_values: None,
    }
}

fn enumeration(values: &[&str]) -> TypeInfo {
    TypeInfo {
        openapi_type: "string".to_string(),
        format: None,
        is_array: false,
        array_item_type: None,
        reference: None,
        enum_values: Some(values.iter().map(|v| v.to_string()).collect()),
    }
}

fn all_four(t: &TypeInfo) -> (String, String, String, String) {
    (t.to_typescript(), t.to_python(), t.to_golang(), type_info_to_zod(t))
}

#[test]
fn array_wraps_the_projection_of_its_element() {
    let t = array_of(plain("string", None));
    assert_eq!(t.to_typescript(), "z.array(z.string())");
    assert_eq!(t.to_python(), "List[str]");
    assert_eq!(t.to_golang(), "[]string");
    assert_eq!(type_info_to_zod(&t), "z.array(z.string())");
}

#[test]
fn nested_arrays_wrap_at_every_level() {
    let t = array_of(array_of(array_of(plain("integer", Some("int64")))));
    assert_eq!(t.to_typescript(), "z.array(z.array(z.array(z.number())))");
    assert_eq!(t.to_python(), "List[List[List[int]]]");
    assert_eq!(t.to_golang(), "[][][]int64");
    assert_eq!(type_info_to_zod(&t), "z.array(z.array(z.array(z.number().int())))");
}

#[test]
fn array_of_references_keeps_each_target_reference_rule() {
    let t = array_of(reference("Pet"));
    assert_eq!(t.to_typescript(), "z.array(Pet)");
    assert_eq!(t.to_python(), "List[Pet]");
    assert_eq!(t.to_golang(), "[]Pet");
    assert_eq!(type_info_to_zod(&t), "z.array(PetSchema)");
}

#[test]
fn array_without_element_type_is_a_collection_of_any() {
    let mut t = plain("array", None);
    t.is_array = true;
    assert_eq!(t.to_typescript(), "z.array(z.any())");
    assert_eq!(t.to_python(), "List[Any]");
    assert_eq!(t.to_golang(), "[]interface{}");
    assert_eq!(type_info_to_zod(&t), "z.array(z.any())");
}

#[test]
fn element_type_without_array_flag_is_ignored() {
    let mut t = plain("boolean", None);
    t.array_item_type = Some(Box::new(plain("string", None)));
    assert_eq!(t.to_typescript(), "z.boolean()");
    assert_eq!(t.to_python(), "bool");
    assert_eq!(t.to_golang(), "bool");
    assert_eq!(type_info_to_zod(&t), "z.boolean()");
}

#[test]
fn reference_gets_suffix_only_in_wire_target() {
    let t = reference("User");
    assert_eq!(type_info_to_zod(&t), "UserSchema");
    assert_eq!(t.to_typescript(), "User");
    assert_eq!(t.to_python(), "User");
    assert_eq!(t.to_golang(), "User");
    assert_eq!(t.to_typescript_zod(), "User");
    assert_eq!(t.to_python_type(), "User");
    assert_eq!(t.to_golang_type(), "User");
}

#[test]
fn enum_is_plain_string_or_closed_union() {
    let t = enumeration(&["active", "inactive", "banned"]);
    assert_eq!(t.to_python(), "str");
    assert_eq!(t.to_golang(), "string");
    assert_eq!(t.to_typescript(), "z.enum([\"active\", \"inactive\", \"banned\"])");
    assert_eq!(type_info_to_zod(&t), "z.enum([\"active\", \"inactive\", \"banned\"])");
}

#[test]
fn enum_members_keep_their_order() {
    let t = enumeration(&["b", "a"]);
    assert_eq!(t.to_typescript(), "z.enum([\"b\", \"a\"])");
    let u = enumeration(&["a", "b"]);
    assert_eq!(u.to_typescript(), "z.enum([\"a\", \"b\"])");
}

#[test]
fn enum_with_one_or_no_member() {
    assert_eq!(enumeration(&["only"]).to_typescript(), "z.enum([\"only\"])");
    assert_eq!(type_info_to_zod(&enumeration(&[])), "z.enum([])");
    assert_eq!(enumeration(&[]).to_python(), "str");
    assert_eq!(enumeration(&[]).to_golang(), "string");
}

#[test]
fn enum_of_other_kind_is_still_an_enum() {
    let mut t = enumeration(&["1", "2"]);
    t.openapi_type = "integer".to_string();
    assert_eq!(t.to_python(), "str");
    assert_eq!(t.to_golang(), "string");
    assert_eq!(t.to_typescript(), "z.enum([\"1\", \"2\"])");
}

#[test]
fn precedence_is_array_reference_enum_primitive() {
    let mut t = enumeration(&["x"]);
    t.reference = Some("Thing".to_string());
    assert_eq!(all_four(&t), ("Thing".into(), "Thing".into(), "Thing".into(), "ThingSchema".into()));
    t.is_array = true;
    t.array_item_type = Some(Box::new(plain("boolean", None)));
    assert_eq!(
        all_four(&t),
        ("z.array(z.boolean())".into(), "List[bool]".into(), "[]bool".into(), "z.array(z.boolean())".into())
    );
}

#[test]
fn single_value_projections_do_not_look_at_the_array_flag() {
    let t = array_of(plain("string", None));
    assert_eq!(t.to_typescript_zod(), "z.any()");
    assert_eq!(t.to_python_type(), "Any");
    assert_eq!(t.to_golang_type(), "interface{}");
}

#[test]
fn date_time_diverges_by_target() {
    let t = plain("string", Some("date-time"));
    assert_eq!(t.to_typescript(), "z.date().or(z.string())");
    assert_eq!(type_info_to_zod(&t), "z.string().datetime()");
    assert_eq!(t.to_golang(), "string");
    assert_eq!(t.to_python(), "datetime");
}

#[test]
fn date_is_treated_like_date_time() {
    let t = plain("string", Some("date"));
    assert_eq!(t.to_typescript(), "z.date().or(z.string())");
    assert_eq!(type_info_to_zod(&t), "z.string().datetime()");
    assert_eq!(t.to_golang(), "string");
    assert_eq!(t.to_python(), "datetime");
}

#[test]
fn validated_string_formats() {
    let email = plain("string", Some("email"));
    let uuid = plain("string", Some("uuid"));
    let uri = plain("string", Some("uri"));
    let url = plain("string", Some("url"));
    assert_eq!(email.to_typescript(), "z.string().email()");
    assert_eq!(type_info_to_zod(&email), "z.string().email()");
    assert_eq!(uuid.to_typescript(), "z.string().uuid()");
    assert_eq!(type_info_to_zod(&uuid), "z.string().uuid()");
    assert_eq!(uri.to_typescript(), "z.string().url()");
    assert_eq!(type_info_to_zod(&uri), "z.string().url()");
    assert_eq!(url.to_typescript(), "z.string()");
    assert_eq!(type_info_to_zod(&url), "z.string().url()");
    for t in [&email, &uuid, &uri, &url] {
        assert_eq!(t.to_python(), "str");
        assert_eq!(t.to_golang(), "string");
    }
}

#[test]
fn string_without_or_with_unknown_format_is_plain() {
    for t in [plain("string", None), plain("string", Some("hostname")), plain("string", Some(""))] {
        assert_eq!(t.to_typescript(), "z.string()");
        assert_eq!(t.to_python(), "str");
        assert_eq!(t.to_golang(), "string");
        assert_eq!(type_info_to_zod(&t), "z.string()");
    }
}

#[test]
fn integer_width_follows_format_in_compiled_target() {
    let wide = plain("integer", Some("int64"));
    let narrow = plain("integer", Some("int32"));
    let bare = plain("integer", None);
    let odd = plain("integer", Some("int16"));
    assert_eq!(wide.to_golang(), "int64");
    assert_eq!(narrow.to_golang(), "int32");
    assert_eq!(bare.to_golang(), "int");
    assert_eq!(odd.to_golang(), "int");
    assert_eq!(wide.to_typescript(), "z.number()");
    assert_eq!(bare.to_typescript(), "z.number()");
    assert_eq!(wide.to_python(), "int");
    assert_eq!(type_info_to_zod(&wide), "z.number().int()");
    assert_eq!(type_info_to_zod(&bare), "z.number().int()");
}

#[test]
fn number_width_follows_format_in_compiled_target() {
    assert_eq!(plain("number", Some("float")).to_golang(), "float32");
    assert_eq!(plain("number", Some("double")).to_golang(), "float64");
    assert_eq!(plain("number", None).to_golang(), "float64");
    assert_eq!(plain("number", Some("decimal")).to_golang(), "float64");
    assert_eq!(plain("number", Some("float")).to_typescript(), "z.number()");
    assert_eq!(plain("number", None).to_python(), "float");
    assert_eq!(type_info_to_zod(&plain("number", Some("double"))), "z.number()");
}

#[test]
fn boolean_and_object_and_unknown_kinds() {
    assert_eq!(
        all_four(&plain("boolean", None)),
        ("z.boolean()".into(), "bool".into(), "bool".into(), "z.boolean()".into())
    );
    assert_eq!(
        all_four(&plain("object", None)),
        (
            "z.any()".into(),
            "Dict[str, Any]".into(),
            "map[string]interface{}".into(),
            "z.record(z.any())".into()
        )
    );
    for kind in ["any", "null", "", "String"] {
        assert_eq!(
            all_four(&plain(kind, None)),
            ("z.any()".into(), "Any".into(), "interface{}".into(), "z.any()".into())
        );
    }
}

#[test]
fn generator_functions_agree_with_the_methods() {
    let samples = vec![
        plain("string", Some("date")),
        array_of(array_of(reference("Pet"))),
        enumeration(&["a"]),
        plain("integer", Some("int32")),
        plain("object", None),
    ];
    for t in &samples {
        assert_eq!(type_info_to_typescript_zod(t), t.to_typescript());
        assert_eq!(type_info_to_python(t), t.to_python());
        assert_eq!(type_info_to_golang(t), t.to_golang());
    }
}

#[test]
fn parameter_types_are_coerced() {
    assert_eq!(param_type_to_zod("integer"), "z.coerce.number().int()");
    assert_eq!(param_type_to_zod("number"), "z.coerce.number()");
    assert_eq!(param_type_to_zod("boolean"), "z.coerce.boolean()");
    assert_eq!(param_type_to_zod("string"), "z.string()");
    assert_eq!(param_type_to_zod("array"), "z.string()");
    assert_eq!(param_type_to_zod(""), "z.string()");
}

#[test]
fn clone_copies_the_whole_tree() {
    let t = array_of(array_of(enumeration(&["x", "y"])));
    let copy = t.clone();
    assert_eq!(copy.to_typescript(), t.to_typescript());
    assert!(copy.is_array);
    let inner = copy.array_item_type.unwrap().array_item_type.unwrap();
    assert_eq!(inner.enum_values, Some(vec!["x".to_string(), "y".to_string()]));
    assert_eq!(inner.openapi_type, "string");
}
