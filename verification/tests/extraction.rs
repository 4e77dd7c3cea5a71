use api_codegen::error::Error;
use api_codegen::generators::typescript_adi_http::{generate_text, read_options, type_info_to_zod};
use api_codegen::parsers::openapi_parser::{
    build_ir, extract_fields, extract_global_extensions, extract_operation, extract_operations,
    extract_operations_from_path, extract_ref_type_info, extract_request_body_reference,
    extract_response_reference, extract_schemas, extract_type_info, reference_type_info,
    synthesize_operation_id, OpenApiParser,
};
use api_codegen::parsers::schema_ir::{HttpMethod, JsonEntry, ParameterLocation};
use api_codegen::parsers::source::{
    last_segment_of, schema_name_of, NamedSchema, RefOr, SchemaTable, SourceDocument, SourceInput,
    SourceMediaType, SourceOperation, SourceParameter, SourceParameterFormat, SourcePath,
    SourcePathItem, SourceRequestBody, SourceResponse, SourceSchema, SourceSchemaKind,
    SourceStatusResponse, SourceSyntax,
};
use api_codegen::parsers::InputParser;
use serde_json::Value;

fn schema(kind: SourceSchemaKind) -> SourceSchema {
    SourceSchema { kind, description: None }
}

fn string_schema(format: Option<&str>) -> SourceSchema {
    schema(SourceSchemaKind::String { format: format.map(|f| f.to_string()), enumeration: vec![] })
}

fn integer_schema(format: Option<&str>) -> SourceSchema {
    schema(SourceSchemaKind::Integer { format: format.map(|f| f.to_string()) })
}

fn reference(text: &str) -> RefOr<SourceSchema> {
    RefOr::Reference { reference: text.to_string() }
}

fn named(name: &str, schema: RefOr<SourceSchema>) -> NamedSchema {
    NamedSchema { name: name.to_string(), schema, original: Value::String(format!("raw {}", name)) }
}

fn object_schema(properties: Vec<NamedSchema>, required: &[&str]) -> SourceSchema {
    schema(SourceSchemaKind::Object {
        properties,
        required: required.iter().map(|r| r.to_string()).collect(),
    })
}

fn operation(id: Option<&str>) -> SourceOperation {
    SourceOperation {
        operation_id: id.map(|i| i.to_string()),
        summary: None,
        description: None,
        tags: vec![],
        parameters: vec![],
        request_body: None,
        responses: vec![],
        original: Value::Null,
    }
}

fn empty_item() -> SourcePathItem {
    SourcePathItem { get: None, post: None, put: None, delete: None, patch: None, head: None, options: None }
}

fn document() -> SourceDocument {
    SourceDocument {
        title: "Pets".to_string(),
        version: "1.2.3".to_string(),
        description: None,
        info_extensions: vec![],
        server_urls: vec![],
        schemas: SchemaTable::new(),
        paths: vec![],
        extensions: vec![],
        original: Value::Null,
    }
}

#[test]
fn synthesized_operation_id_exact_literal() {
    assert_eq!(synthesize_operation_id("get", "/users/{id}/posts"), "get_users_id_posts");
}

#[test]
fn synthesized_operation_id_edge_cases() {
    assert_eq!(synthesize_operation_id("post", "/pets"), "post_pets");
    assert_eq!(synthesize_operation_id("delete", "/"), "delete_");
    assert_eq!(synthesize_operation_id("get", ""), "get_");
    assert_eq!(synthesize_operation_id("get", "pets/{petId}"), "get_pets_petId");
    assert_eq!(synthesize_operation_id("put", "/a//b/"), "put_a__b_");
    assert_eq!(synthesize_operation_id("patch", "/{a}{b}"), "patch_ab");
    assert_eq!(synthesize_operation_id("get", "/caf\u{e9}/{x}"), "get_caf\u{e9}_x");
}

#[test]
fn operation_without_id_gets_one_from_method_and_path() {
    let made = extract_operation("/users/{id}/posts", HttpMethod::Get, &operation(None));
    assert_eq!(made.id, "get_users_id_posts");
    assert_eq!(made.path, "/users/{id}/posts");
    assert_eq!(made.method, HttpMethod::Get);
    let made = extract_operation("/users", HttpMethod::Options, &operation(None));
    assert_eq!(made.id, "options_users");
}

#[test]
fn operation_with_id_keeps_it() {
    let made = extract_operation("/users/{id}", HttpMethod::Delete, &operation(Some("removeUser")));
    assert_eq!(made.id, "removeUser");
}

#[test]
fn operation_carries_description_tags_and_original() {
    let mut op = operation(Some("x"));
    op.description = Some("Lists things".to_string());
    op.tags = vec!["a".to_string(), "b".to_string()];
    op.original = Value::Bool(true);
    let made = extract_operation("/x", HttpMethod::Get, &op);
    assert_eq!(made.description.as_deref(), Some("Lists things"));
    assert_eq!(made.tags, vec!["a".to_string(), "b".to_string()]);
    assert_eq!(made.original, Value::Bool(true));
}

#[test]
fn only_inline_parameters_are_extracted() {
    let mut op = operation(Some("x"));
    op.parameters = vec![
        RefOr::Item(SourceParameter {
            name: "limit".to_string(),
            location: ParameterLocation::Query,
            required: false,
            description: Some("How many".to_string()),
            format: SourceParameterFormat::Schema(RefOr::Item(integer_schema(None))),
        }),
        RefOr::Reference { reference: "#/components/parameters/Page".to_string() },
        RefOr::Item(SourceParameter {
            name: "id".to_string(),
            location: ParameterLocation::Path,
            required: true,
            description: None,
            format: SourceParameterFormat::Content,
        }),
    ];
    let made = extract_operation("/x/{id}", HttpMethod::Get, &op);
    assert_eq!(made.parameters.len(), 2);
    assert_eq!(made.parameters[0].name, "limit");
    assert_eq!(made.parameters[0].location, ParameterLocation::Query);
    assert!(!made.parameters[0].required);
    assert_eq!(made.parameters[0].schema_type, "string");
    assert_eq!(made.parameters[0].description.as_deref(), Some("How many"));
    assert_eq!(made.parameters[1].name, "id");
    assert_eq!(made.parameters[1].location, ParameterLocation::Path);
    assert!(made.parameters[1].required);
    assert_eq!(made.parameters[1].schema_type, "string");
}

#[test]
fn method_slots_come_out_in_fixed_order() {
    let item = SourcePathItem {
        get: Some(operation(None)),
        post: Some(operation(None)),
        put: Some(operation(None)),
        delete: Some(operation(None)),
        patch: Some(operation(None)),
        head: Some(operation(None)),
        options: Some(operation(None)),
    };
    let mut out = vec![extract_operation("/before", HttpMethod::Get, &operation(Some("first")))];
    extract_operations_from_path("/p", &item, &mut out);
    let ids: Vec<&str> = out.iter().map(|o| o.id.as_str()).collect();
    assert_eq!(
        ids,
        vec!["first", "get_p", "post_p", "put_p", "delete_p", "patch_p", "head_p", "options_p"]
    );
    assert_eq!(out[7].method, HttpMethod::Options);
}

#[test]
fn empty_slots_give_no_operation() {
    let mut item = empty_item();
    item.put = Some(operation(None));
    item.head = Some(operation(None));
    let mut out = Vec::new();
    extract_operations_from_path("/p", &item, &mut out);
    let ids: Vec<&str> = out.iter().map(|o| o.id.as_str()).collect();
    assert_eq!(ids, vec!["put_p", "head_p"]);
}

#[test]
fn operations_follow_path_order_and_skip_referenced_paths() {
    let mut doc = document();
    let mut first = empty_item();
    first.post = Some(operation(None));
    let mut third = empty_item();
    third.get = Some(operation(None));
    third.delete = Some(operation(Some("drop")));
    doc.paths = vec![
        SourcePath { path: "/b".to_string(), item: RefOr::Item(first) },
        SourcePath {
            path: "/skipped".to_string(),
            item: RefOr::Reference { reference: "#/components/pathItems/X".to_string() },
        },
        SourcePath { path: "/a".to_string(), item: RefOr::Item(third) },
    ];
    let ops = extract_operations(&doc);
    let ids: Vec<&str> = ops.iter().map(|o| o.id.as_str()).collect();
    assert_eq!(ids, vec!["post_b", "get_a", "drop"]);
    assert_eq!(ops[2].path, "/a");
}

#[test]
fn reference_names_are_last_path_segments() {
    assert_eq!(schema_name_of("#/components/schemas/User"), "User");
    assert_eq!(schema_name_of("User"), "User");
    assert_eq!(schema_name_of("other.yaml#/definitions/Pet"), "Pet");
    assert_eq!(schema_name_of("/x"), "x");
    assert_eq!(last_segment_of("#/components/schemas/User"), "User");
    assert_eq!(last_segment_of("a/b/"), "");
    assert_eq!(last_segment_of(""), "");
    assert_eq!(last_segment_of("plain"), "plain");
}

#[test]
fn unresolvable_reference_degrades_to_unknown() {
    assert_eq!(schema_name_of(""), "Unknown");
    assert_eq!(schema_name_of("#/components/schemas/"), "Unknown");
    assert_eq!(schema_name_of("/"), "Unknown");
    let info = reference_type_info("#/components/schemas/");
    assert_eq!(info.reference.as_deref(), Some("Unknown"));
    assert_eq!(info.openapi_type, "object");
    assert!(!info.is_array);
    assert!(info.array_item_type.is_none());
    assert!(info.enum_values.is_none());
    assert!(info.format.is_none());
}

#[test]
fn field_with_broken_reference_does_not_fail_the_run() {
    let mut doc = document();
    doc.schemas.insert(named(
        "Order",
        RefOr::Item(object_schema(
            vec![named("owner", reference("")), named("pet", reference("#/components/schemas/Pet"))],
            &["owner"],
        )),
    ));
    let outcome = OpenApiParser.parse("api.yaml", &SourceInput::Document(doc), &vec![]);
    let ir = outcome.expect("a document that was read always parses");
    assert_eq!(ir.schemas.len(), 1);
    let fields = &ir.schemas[0].fields;
    assert_eq!(fields[0].type_info.reference.as_deref(), Some("Unknown"));
    assert!(fields[0].required);
    assert_eq!(fields[1].type_info.reference.as_deref(), Some("Pet"));
    assert!(!fields[1].required);
    assert_eq!(type_info_to_zod(&fields[0].type_info), "UnknownSchema");
}

#[test]
fn required_is_decided_by_name_not_position() {
    let properties = vec![
        named("a", RefOr::Item(string_schema(None))),
        named("b", RefOr::Item(integer_schema(None))),
        named("c", reference("#/components/schemas/C")),
        named("d", RefOr::Item(schema(SourceSchemaKind::Boolean))),
    ];
    let source = object_schema(properties, &["d", "missing", "a"]);
    let fields = extract_fields(&source);
    assert_eq!(fields.len(), 4);
    let names: Vec<&str> = fields.iter().map(|f| f.name.as_str()).collect();
    assert_eq!(names, vec!["a", "b", "c", "d"]);
    let flags: Vec<bool> = fields.iter().map(|f| f.required).collect();
    assert_eq!(flags, vec![true, false, false, true]);
    assert_eq!(fields.iter().filter(|f| f.required).count(), 2);
    assert_eq!(fields.iter().filter(|f| !f.required).count(), 2);
}

#[test]
fn required_counts_for_none_and_all() {
    let make = || {
        vec![named("x", RefOr::Item(string_schema(None))), named("y", RefOr::Item(string_schema(None)))]
    };
    let none = extract_fields(&object_schema(make(), &[]));
    assert_eq!(none.iter().filter(|f| f.required).count(), 0);
    let all = extract_fields(&object_schema(make(), &["y", "x"]));
    assert_eq!(all.iter().filter(|f| f.required).count(), 2);
}

#[test]
fn fields_carry_description_type_and_original() {
    let mut described = string_schema(Some("email"));
    described.description = Some("Where to write".to_string());
    let source = object_schema(vec![named("mail", RefOr::Item(described)), named("ref", reference("#/x/Y"))], &[]);
    let fields = extract_fields(&source);
    assert_eq!(fields[0].description.as_deref(), Some("Where to write"));
    assert_eq!(fields[0].type_info.openapi_type, "string");
    assert_eq!(fields[0].type_info.format.as_deref(), Some("email"));
    assert_eq!(fields[0].original, Value::String("raw mail".to_string()));
    assert!(fields[1].description.is_none());
    assert_eq!(fields[1].type_info.reference.as_deref(), Some("Y"));
    assert_eq!(fields[1].original, Value::String("raw ref".to_string()));
}

#[test]
fn schemas_that_are_not_objects_have_no_fields() {
    assert!(extract_fields(&string_schema(None)).is_empty());
    assert!(extract_fields(&schema(SourceSchemaKind::Other)).is_empty());
    assert!(extract_fields(&schema(SourceSchemaKind::Array { items: None })).is_empty());
    assert!(extract_fields(&object_schema(vec![], &["ghost"])).is_empty());
}

#[test]
fn format_is_copied_verbatim() {
    for format in ["date-time", "int64", "email", "made-up", ""] {
        let info = extract_type_info(&string_schema(Some(format)));
        assert_eq!(info.format.as_deref(), Some(format));
        let info = extract_type_info(&integer_schema(Some(format)));
        assert_eq!(info.format.as_deref(), Some(format));
        assert_eq!(info.openapi_type, "integer");
        let info = extract_type_info(&schema(SourceSchemaKind::Number { format: Some(format.to_string()) }));
        assert_eq!(info.format.as_deref(), Some(format));
        assert_eq!(info.openapi_type, "number");
    }
    assert!(extract_type_info(&string_schema(None)).format.is_none());
}

#[test]
fn date_time_string_schema_projects_three_ways() {
    let info = extract_type_info(&string_schema(Some("date-time")));
    assert_eq!(info.to_typescript(), "z.date().or(z.string())");
    assert_eq!(type_info_to_zod(&info), "z.string().datetime()");
    assert_eq!(info.to_golang(), "string");
}

#[test]
fn integer_schema_projects_by_width() {
    let wide = extract_type_info(&integer_schema(Some("int64")));
    let bare = extract_type_info(&integer_schema(None));
    assert_eq!(wide.to_golang(), "int64");
    assert_eq!(bare.to_golang(), "int");
    assert_eq!(wide.to_typescript(), "z.number()");
    assert_eq!(bare.to_typescript(), "z.number()");
}

#[test]
fn enumeration_drops_null_members() {
    let source = schema(SourceSchemaKind::String {
        format: None,
        enumeration: vec![Some("a".to_string()), None, Some("b".to_string()), None],
    });
    let info = extract_type_info(&source);
    assert_eq!(info.enum_values, Some(vec!["a".to_string(), "b".to_string()]));
    assert_eq!(info.openapi_type, "string");
}

#[test]
fn empty_enumeration_is_no_enumeration() {
    assert!(extract_type_info(&string_schema(None)).enum_values.is_none());
    let only_null = schema(SourceSchemaKind::String { format: None, enumeration: vec![None] });
    assert_eq!(extract_type_info(&only_null).enum_values, Some(vec![]));
}

#[test]
fn boolean_object_and_other_schemas() {
    let b = extract_type_info(&schema(SourceSchemaKind::Boolean));
    assert_eq!(b.openapi_type, "boolean");
    assert!(b.format.is_none());
    let o = extract_type_info(&object_schema(vec![named("x", RefOr::Item(string_schema(None)))], &[]));
    assert_eq!(o.openapi_type, "object");
    assert!(o.reference.is_none());
    let other = extract_type_info(&schema(SourceSchemaKind::Other));
    assert_eq!(other.openapi_type, "any");
    for info in [b, o, other] {
        assert!(!info.is_array);
        assert!(info.array_item_type.is_none());
        assert!(info.enum_values.is_none());
    }
}

#[test]
fn array_schema_recurses_into_items() {
    let inner = schema(SourceSchemaKind::Array { items: Some(Box::new(RefOr::Item(integer_schema(Some("int32"))))) });
    let outer = schema(SourceSchemaKind::Array { items: Some(Box::new(RefOr::Item(inner))) });
    let info = extract_type_info(&outer);
    assert!(info.is_array);
    assert_eq!(info.openapi_type, "array");
    let level1 = info.array_item_type.as_ref().unwrap();
    assert!(level1.is_array);
    let level2 = level1.array_item_type.as_ref().unwrap();
    assert_eq!(level2.openapi_type, "integer");
    assert_eq!(level2.format.as_deref(), Some("int32"));
    assert_eq!(info.to_golang(), "[][]int32");
}

#[test]
fn array_of_reference_resolves_by_name_only() {
    let source = schema(SourceSchemaKind::Array {
        items: Some(Box::new(reference("#/components/schemas/Pet"))),
    });
    let info = extract_type_info(&source);
    assert!(info.is_array);
    let item = info.array_item_type.as_ref().unwrap();
    assert_eq!(item.reference.as_deref(), Some("Pet"));
    assert_eq!(item.openapi_type, "object");
    assert!(!item.is_array);
    assert_eq!(info.to_python(), "List[Pet]");
}

#[test]
fn array_without_items_holds_any() {
    let info = extract_type_info(&schema(SourceSchemaKind::Array { items: None }));
    assert!(info.is_array);
    let item = info.array_item_type.as_ref().unwrap();
    assert_eq!(item.openapi_type, "any");
    assert_eq!(info.to_typescript(), "z.array(z.any())");
}

#[test]
fn bare_reference_is_not_walked() {
    let info = extract_ref_type_info(&reference("#/components/schemas/Deep"));
    assert_eq!(info.reference.as_deref(), Some("Deep"));
    assert_eq!(info.openapi_type, "object");
    let inline = extract_ref_type_info(&RefOr::Item(string_schema(Some("uuid"))));
    assert!(inline.reference.is_none());
    assert_eq!(inline.format.as_deref(), Some("uuid"));
}

#[test]
fn schema_definitions_keep_order_and_skip_references() {
    let mut doc = document();
    let mut pet = object_schema(vec![named("name", RefOr::Item(string_schema(None)))], &["name"]);
    pet.description = Some("A pet".to_string());
    doc.schemas.insert(named("Zebra", RefOr::Item(string_schema(None))));
    doc.schemas.insert(named("Alias", reference("#/components/schemas/Pet")));
    doc.schemas.insert(named("Pet", RefOr::Item(pet)));
    let schemas = extract_schemas(&doc);
    let names: Vec<&str> = schemas.iter().map(|s| s.name.as_str()).collect();
    assert_eq!(names, vec!["Zebra", "Pet"]);
    assert!(schemas[0].fields.is_empty());
    assert_eq!(schemas[1].fields.len(), 1);
    assert_eq!(schemas[1].description.as_deref(), Some("A pet"));
    assert_eq!(schemas[1].original, Value::String("raw Pet".to_string()));
}

#[test]
fn global_extensions_are_namespaced() {
    let mut doc = document();
    doc.extensions = vec![
        JsonEntry { key: "x-internal".to_string(), value: Value::Bool(true) },
        JsonEntry { key: "x-team".to_string(), value: Value::String("core".to_string()) },
    ];
    let made = extract_global_extensions(&doc);
    assert_eq!(made.len(), 2);
    assert_eq!(made[0].key, "openapi.x-internal");
    assert_eq!(made[0].value, Value::Bool(true));
    assert_eq!(made[1].key, "openapi.x-team");
    assert_eq!(made[1].value, Value::String("core".to_string()));
}

#[test]
fn representation_carries_metadata_and_original() {
    let mut doc = document();
    doc.description = Some("All about pets".to_string());
    doc.server_urls = vec!["https://one.example".to_string(), "https://two.example".to_string()];
    doc.info_extensions = vec![JsonEntry { key: "x-logo".to_string(), value: Value::from(7) }];
    doc.extensions = vec![JsonEntry { key: "x-top".to_string(), value: Value::Null }];
    doc.original = serde_json::from_str("{\"openapi\":\"3.0.0\"}").unwrap();
    let ir = build_ir(&doc);
    assert_eq!(ir.metadata.title, "Pets");
    assert_eq!(ir.metadata.version, "1.2.3");
    assert_eq!(ir.metadata.description.as_deref(), Some("All about pets"));
    assert_eq!(ir.metadata.base_url.as_deref(), Some("https://one.example"));
    assert_eq!(ir.metadata.custom.len(), 1);
    assert_eq!(ir.metadata.custom[0].key, "x-logo");
    assert_eq!(ir.metadata.custom[0].value, Value::from(7));
    assert_eq!(ir.original.format, "openapi");
    assert_eq!(ir.original.data, doc.original);
    assert_eq!(ir.original.extensions.len(), 1);
    assert_eq!(ir.original.extensions[0].key, "openapi.x-top");
    assert!(ir.schemas.is_empty());
    assert!(ir.operations.is_empty());
}

#[test]
fn representation_without_servers_has_no_base_url() {
    let ir = build_ir(&document());
    assert!(ir.metadata.base_url.is_none());
    assert!(ir.metadata.description.is_none());
    assert!(ir.metadata.custom.is_empty());
    assert!(ir.original.extensions.is_empty());
}

#[test]
fn missing_source_is_not_found() {
    let outcome = OpenApiParser.parse("specs/api.yaml", &SourceInput::Missing, &vec![]);
    match outcome {
        Err(Error::NotFound { path }) => assert_eq!(path, "specs/api.yaml"),
        other => panic!("expected NotFound, got {:?}", other.map(|_| ())),
    }
    assert!(OpenApiParser.validate("specs/api.yaml", &SourceInput::Missing).is_err());
    assert!(OpenApiParser.validate("x", &SourceInput::Document(document())).is_ok());
    assert!(OpenApiParser.validate("x", &SourceInput::Undecodable { cause: "c".to_string() }).is_ok());
}

#[test]
fn undecodable_source_is_malformed_input() {
    let input = SourceInput::Undecodable { cause: "expected value at line 1".to_string() };
    match OpenApiParser.parse("api.json", &input, &vec![]) {
        Err(Error::MalformedInput { path, cause }) => {
            assert_eq!(path, "api.json");
            assert_eq!(cause, "expected value at line 1");
        }
        other => panic!("expected MalformedInput, got {:?}", other.map(|_| ())),
    }
}

#[test]
fn syntax_is_json_only_for_json_extension() {
    assert_eq!(OpenApiParser::source_syntax(Some("json")), SourceSyntax::Json);
    assert_eq!(OpenApiParser::source_syntax(Some("yaml")), SourceSyntax::Yaml);
    assert_eq!(OpenApiParser::source_syntax(Some("yml")), SourceSyntax::Yaml);
    assert_eq!(OpenApiParser::source_syntax(Some("JSON")), SourceSyntax::Yaml);
    assert_eq!(OpenApiParser::source_syntax(Some("")), SourceSyntax::Yaml);
    assert_eq!(OpenApiParser::source_syntax(None), SourceSyntax::Yaml);
}

#[test]
fn parser_names_its_format_and_extensions() {
    assert_eq!(OpenApiParser.format_name(), "openapi");
    assert_eq!(OpenApiParser.supported_extensions(), vec!["yaml", "yml", "json"]);
}

#[test]
fn error_messages_name_their_subject() {
    assert_eq!(Error::NotFound { path: "a.yaml".into() }.message(), "Input file not found: a.yaml");
    assert_eq!(
        Error::MalformedInput { path: "a.yaml".into(), cause: "bad indent".into() }.message(),
        "Failed to parse input a.yaml: bad indent"
    );
    assert_eq!(Error::UnknownFormat { format: "graphql".into() }.message(), "Unknown input format: graphql");
    assert_eq!(Error::UnknownGenerator { name: "cobol".into() }.message(), "Unknown generator: cobol");
}

fn json_content(schema: Option<RefOr<SourceSchema>>) -> Vec<SourceMediaType> {
    vec![SourceMediaType { content_type: "application/json".to_string(), schema }]
}

fn array_of(items: RefOr<SourceSchema>) -> RefOr<SourceSchema> {
    RefOr::Item(schema(SourceSchemaKind::Array { items: Some(Box::new(items)) }))
}

fn body(content: Vec<SourceMediaType>) -> Option<RefOr<SourceRequestBody>> {
    Some(RefOr::Item(SourceRequestBody { required: true, content }))
}

fn answer(status: &str, content: Vec<SourceMediaType>) -> SourceStatusResponse {
    SourceStatusResponse {
        status: status.to_string(),
        response: RefOr::Item(SourceResponse { description: "d".to_string(), content }),
    }
}

fn link(found: &Option<api_codegen::parsers::schema_ir::SchemaReference>) -> Option<(&str, &str)> {
    found.as_ref().map(|r| (r.name.as_str(), r.schema_type.as_str()))
}

#[test]
fn operation_links_body_and_response_to_schemas() {
    let mut op = operation(Some("createUser"));
    op.request_body = body(json_content(Some(reference("#/components/schemas/User"))));
    op.responses = vec![answer("200", json_content(Some(array_of(reference("#/components/schemas/User")))))];
    let made = extract_operation("/users", HttpMethod::Post, &op);
    assert_eq!(link(&made.request_body), Some(("User", "object")));
    assert_eq!(link(&made.response), Some(("User", "array")));
}

#[test]
fn operation_without_body_or_response_links_nothing() {
    let made = extract_operation("/users", HttpMethod::Get, &operation(None));
    assert!(made.request_body.is_none());
    assert!(made.response.is_none());
}

#[test]
fn request_body_link_follows_the_first_content_entry() {
    assert_eq!(link(&extract_request_body_reference(&None)), None);
    assert_eq!(link(&extract_request_body_reference(&body(vec![]))), None);
    assert_eq!(link(&extract_request_body_reference(&body(json_content(None)))), None);
    assert_eq!(
        link(&extract_request_body_reference(&body(json_content(Some(RefOr::Item(string_schema(None))))))),
        None
    );
    assert_eq!(
        link(&extract_request_body_reference(&body(json_content(Some(array_of(reference("#/x/Pet"))))))),
        None
    );
    assert_eq!(
        link(&extract_request_body_reference(&Some(RefOr::Reference {
            reference: "#/components/requestBodies/NewPet".to_string()
        }))),
        None
    );
    assert_eq!(
        link(&extract_request_body_reference(&body(json_content(Some(reference("#/components/schemas/Pet")))))),
        Some(("Pet", "object"))
    );
    assert_eq!(
        link(&extract_request_body_reference(&body(json_content(Some(reference("")))))),
        Some(("Unknown", "object"))
    );
    let two = vec![
        SourceMediaType { content_type: "application/xml".to_string(), schema: Some(reference("#/s/First")) },
        SourceMediaType { content_type: "application/json".to_string(), schema: Some(reference("#/s/Second")) },
    ];
    assert_eq!(link(&extract_request_body_reference(&body(two))), Some(("First", "object")));
}

#[test]
fn response_link_tells_one_from_many() {
    let one = vec![answer("200", json_content(Some(reference("#/components/schemas/Pet"))))];
    assert_eq!(link(&extract_response_reference(&one)), Some(("Pet", "object")));
    let many = vec![answer("200", json_content(Some(array_of(reference("#/components/schemas/Pet")))))];
    assert_eq!(link(&extract_response_reference(&many)), Some(("Pet", "array")));
}

#[test]
fn response_link_comes_from_the_first_success() {
    let responses = vec![
        answer("404", json_content(Some(reference("#/s/Problem")))),
        answer("201", json_content(Some(reference("#/s/Created")))),
        answer("200", json_content(Some(reference("#/s/Listed")))),
    ];
    assert_eq!(link(&extract_response_reference(&responses)), Some(("Created", "object")));
    let ranged = vec![
        answer("5XX", json_content(Some(reference("#/s/Problem")))),
        answer("2XX", json_content(Some(reference("#/s/Fine")))),
    ];
    assert_eq!(link(&extract_response_reference(&ranged)), Some(("Fine", "object")));
}

#[test]
fn response_link_is_absent_where_nothing_is_named() {
    assert_eq!(link(&extract_response_reference(&vec![])), None);
    let failures = vec![
        answer("400", json_content(Some(reference("#/s/Problem")))),
        answer("", json_content(Some(reference("#/s/Problem")))),
        answer("default", json_content(Some(reference("#/s/Problem")))),
    ];
    assert_eq!(link(&extract_response_reference(&failures)), None);
    assert_eq!(link(&extract_response_reference(&vec![answer("204", vec![])])), None);
    assert_eq!(link(&extract_response_reference(&vec![answer("200", json_content(None))])), None);
    let inline = vec![answer("200", json_content(Some(RefOr::Item(string_schema(None)))))];
    assert_eq!(link(&extract_response_reference(&inline)), None);
    let inline_elements = vec![answer("200", json_content(Some(array_of(RefOr::Item(string_schema(None))))))];
    assert_eq!(link(&extract_response_reference(&inline_elements)), None);
    let no_items = vec![answer(
        "200",
        json_content(Some(RefOr::Item(schema(SourceSchemaKind::Array { items: None })))),
    )];
    assert_eq!(link(&extract_response_reference(&no_items)), None);
    let by_reference = vec![
        SourceStatusResponse {
            status: "200".to_string(),
            response: RefOr::Reference { reference: "#/components/responses/Ok".to_string() },
        },
        answer("201", json_content(Some(reference("#/s/Later")))),
    ];
    assert_eq!(link(&extract_response_reference(&by_reference)), None);
}

#[test]
fn extracted_links_reach_the_generated_routes() {
    let mut op = operation(Some("createUser"));
    op.request_body = body(json_content(Some(reference("#/components/schemas/NewUser"))));
    op.responses = vec![answer("201", json_content(Some(reference("#/components/schemas/User"))))];
    let mut item = empty_item();
    item.post = Some(op);
    let mut doc = document();
    doc.paths = vec![SourcePath { path: "/users".to_string(), item: RefOr::Item(item) }];
    let ir = build_ir(&doc);
    assert_eq!(link(&ir.operations[0].request_body), Some(("NewUser", "object")));
    assert_eq!(link(&ir.operations[0].response), Some(("User", "object")));
    let config = api_codegen::config::schema::GenerationConfig {
        generator: "typescript_adi_http".to_string(),
        output_file: "routes.ts".to_string(),
        enabled: true,
        template: None,
        plugin: None,
        options: vec![],
    };
    let text = generate_text(&ir, &read_options(&config));
    assert!(text.contains("    body: NewUserSchema,\n    response: UserSchema,\n"));
    assert!(text.contains("    // Must return: User\n"));
}
