use api_codegen::operation_processor::{
    extract_operations, extract_parameter_type, extract_schema_info,
    extract_schema_info_with_array, process_operation, process_parameter, process_request_body,
    process_response,
};
use api_codegen::parsers::schema_ir::ParameterLocation;
use api_codegen::parsers::source::{
    NamedSchema, RefOr, SchemaTable, SourceDocument, SourceMediaType, SourceOperation,
    SourceParameter, SourceParameterFormat, SourcePath, SourcePathItem, SourceRequestBody,
    SourceResponse, SourceSchema, SourceSchemaKind, SourceStatusResponse,
};
use api_codegen::schema_processor::{
    extract_schema_data, extract_schemas, extract_type_info_from_box,
    extract_type_info_from_schema, process_schema_ref,
};
use serde_json::Value;

fn schema(kind: SourceSchemaKind) -> SourceSchema {
    SourceSchema { kind, description: None }
}

fn string_schema() -> SourceSchema {
    schema(SourceSchemaKind::String { format: None, enumeration: vec![] })
}

fn object_schema(properties: Vec<NamedSchema>, required: &[&str]) -> SourceSchema {
    schema(SourceSchemaKind::Object {
        properties,
        required: required.iter().map(|r| r.to_string()).collect(),
    })
}

fn array_schema(items: Option<RefOr<SourceSchema>>) -> SourceSchema {
    schema(SourceSchemaKind::Array { items: items.map(Box::new) })
}

fn reference(text: &str) -> RefOr<SourceSchema> {
    RefOr::Reference { reference: text.to_string() }
}

fn named(name: &str, schema: RefOr<SourceSchema>) -> NamedSchema {
    NamedSchema { name: name.to_string(), schema, original: Value::Null }
}

fn media(content_type: &str, schema: Option<RefOr<SourceSchema>>) -> SourceMediaType {
    SourceMediaType { content_type: content_type.to_string(), schema }
}

fn operation() -> SourceOperation {
    SourceOperation {
        operation_id: None,
        summary: None,
        description: None,
        tags: vec![],
        parameters: vec![],
        request_body: None,
        responses: vec![],
        original: Value::Null,
    }
}

fn document(schemas: SchemaTable, paths: Vec<SourcePath>) -> SourceDocument {
    SourceDocument {
        title: "T".to_string(),
        version: "1".to_string(),
        description: None,
        info_extensions: vec![],
        server_urls: vec![],
        schemas,
        paths,
        extensions: vec![],
        original: Value::Null,
    }
}

fn all_kinds() -> Vec<(SourceSchema, &'static str)> {
    vec![
        (string_schema(), "string"),
        (schema(SourceSchemaKind::Number { format: None }), "number"),
        (schema(SourceSchemaKind::Integer { format: None }), "integer"),
        (schema(SourceSchemaKind::Boolean), "boolean"),
        (array_schema(None), "array"),
        (object_schema(vec![], &[]), "object"),
        (schema(SourceSchemaKind::Other), "any"),
    ]
}

#[test]
fn processed_schema_has_properties_with_all_projections() {
    let mut source = object_schema(
        vec![
            named("id", RefOr::Item(schema(SourceSchemaKind::Integer { format: Some("int64".to_string()) }))),
            named("owner", reference("#/components/schemas/User")),
            named("tags", RefOr::Item(array_schema(Some(RefOr::Item(string_schema()))))),
        ],
        &["tags", "id"],
    );
    source.description = Some("A pet".to_string());
    let data = extract_schema_data(&source);
    assert_eq!(data.name, "");
    assert_eq!(data.description.as_deref(), Some("A pet"));
    assert_eq!(data.required, vec!["tags".to_string(), "id".to_string()]);
    assert_eq!(data.properties.len(), 3);
    let id = &data.properties[0];
    assert_eq!(id.name, "id");
    assert!(id.required);
    assert!(!id.nullable);
    assert!(id.description.is_none());
    assert_eq!(id.type_info.format.as_deref(), Some("int64"));
    assert_eq!(id.typescript_type, "z.number()");
    assert_eq!(id.python_type, "int");
    assert_eq!(id.golang_type, "int64");
    let owner = &data.properties[1];
    assert!(!owner.required);
    assert_eq!(owner.typescript_type, "User");
    assert_eq!(owner.python_type, "User");
    assert_eq!(owner.golang_type, "User");
    let tags = &data.properties[2];
    assert!(tags.required);
    assert_eq!(tags.typescript_type, "z.array(z.string())");
    assert_eq!(tags.python_type, "List[str]");
    assert_eq!(tags.golang_type, "[]string");
}

#[test]
fn processed_schema_of_a_non_object_is_empty() {
    let mut source = string_schema();
    source.description = Some("Just text".to_string());
    let data = extract_schema_data(&source);
    assert!(data.properties.is_empty());
    assert!(data.required.is_empty());
    assert_eq!(data.description.as_deref(), Some("Just text"));
}

#[test]
fn type_extraction_has_two_entry_points() {
    let info = extract_type_info_from_schema(&array_schema(Some(reference("#/components/schemas/Pet"))));
    assert_eq!(info.to_golang(), "[]Pet");
    let info = extract_type_info_from_box(&reference("#/components/schemas/Pet"));
    assert_eq!(info.reference.as_deref(), Some("Pet"));
    let info = extract_type_info_from_box(&RefOr::Item(schema(SourceSchemaKind::Boolean)));
    assert_eq!(info.openapi_type, "boolean");
}

#[test]
fn referenced_entries_stand_for_their_target() {
    let mut table = SchemaTable::new();
    let mut pet = object_schema(vec![named("name", RefOr::Item(string_schema()))], &["name"]);
    pet.description = Some("A pet".to_string());
    table.insert(named("Pet", RefOr::Item(pet)));
    table.insert(named("Animal", reference("#/components/schemas/Pet")));
    table.insert(named("Creature", reference("#/components/schemas/Animal")));
    table.insert(named("Lost", reference("#/components/schemas/Nowhere")));
    table.insert(named("Text", RefOr::Item(string_schema())));
    let schemas = extract_schemas(&document(table, vec![]));
    let names: Vec<&str> = schemas.iter().map(|s| s.name.as_str()).collect();
    assert_eq!(names, vec!["Pet", "Animal", "Creature", "Text"]);
    for processed in &schemas[0..3] {
        assert_eq!(processed.properties.len(), 1);
        assert_eq!(processed.properties[0].name, "name");
        assert_eq!(processed.required, vec!["name".to_string()]);
        assert_eq!(processed.description.as_deref(), Some("A pet"));
    }
    assert!(schemas[3].properties.is_empty());
}

#[test]
fn circular_references_lead_nowhere() {
    let mut table = SchemaTable::new();
    table.insert(named("A", reference("#/components/schemas/B")));
    table.insert(named("B", reference("#/components/schemas/A")));
    table.insert(named("Self", reference("Self")));
    table.insert(named("Ok", RefOr::Item(string_schema())));
    let schemas = extract_schemas(&document(table, vec![]));
    let names: Vec<&str> = schemas.iter().map(|s| s.name.as_str()).collect();
    assert_eq!(names, vec!["Ok"]);
}

#[test]
fn references_are_followed_only_as_far_as_allowed() {
    let mut table = SchemaTable::new();
    table.insert(named("Pet", RefOr::Item(string_schema())));
    table.insert(named("Animal", reference("#/components/schemas/Pet")));
    let start = reference("#/components/schemas/Animal");
    assert!(process_schema_ref(&start, &table, 0).is_none());
    assert!(process_schema_ref(&start, &table, 1).is_none());
    assert!(process_schema_ref(&start, &table, 2).is_some());
    assert!(process_schema_ref(&RefOr::Item(string_schema()), &table, 0).is_some());
    assert!(process_schema_ref(&reference("#/components/schemas/"), &table, 5).is_none());
}

#[test]
fn parameter_type_is_coarse() {
    for (kind, tag) in all_kinds() {
        let expected = if tag == "object" { "any" } else { tag };
        assert_eq!(extract_parameter_type(&SourceParameterFormat::Schema(RefOr::Item(kind))), expected);
    }
    assert_eq!(extract_parameter_type(&SourceParameterFormat::Schema(reference("#/x/Y"))), "any");
    assert_eq!(extract_parameter_type(&SourceParameterFormat::Content), "any");
}

#[test]
fn processed_parameter_keeps_location_as_text() {
    for (location, text) in [
        (ParameterLocation::Query, "query"),
        (ParameterLocation::Path, "path"),
        (ParameterLocation::Header, "header"),
        (ParameterLocation::Cookie, "cookie"),
    ] {
        let made = process_parameter(&RefOr::Item(SourceParameter {
            name: "p".to_string(),
            location,
            required: true,
            description: Some("d".to_string()),
            format: SourceParameterFormat::Schema(RefOr::Item(schema(SourceSchemaKind::Boolean))),
        }))
        .unwrap();
        assert_eq!(made.name, "p");
        assert_eq!(made.location, text);
        assert!(made.required);
        assert_eq!(made.schema_type, "boolean");
        assert_eq!(made.description.as_deref(), Some("d"));
    }
    assert!(process_parameter(&RefOr::Reference { reference: "#/components/parameters/P".to_string() }).is_none());
}

#[test]
fn schema_info_of_a_media_type() {
    assert_eq!(extract_schema_info(&media("application/json", None)), None);
    assert_eq!(
        extract_schema_info(&media("application/json", Some(reference("#/components/schemas/Pet")))),
        Some((Some("Pet".to_string()), Some("object".to_string())))
    );
    assert_eq!(
        extract_schema_info(&media("application/json", Some(reference("")))),
        Some((Some("Unknown".to_string()), Some("object".to_string())))
    );
    for (kind, tag) in all_kinds() {
        assert_eq!(
            extract_schema_info(&media("text/plain", Some(RefOr::Item(kind)))),
            Some((None, Some(tag.to_string())))
        );
    }
}

#[test]
fn schema_info_tells_arrays_apart() {
    assert_eq!(extract_schema_info_with_array(&media("a/b", None)), None);
    assert_eq!(
        extract_schema_info_with_array(&media("a/b", Some(reference("#/components/schemas/Pet")))),
        Some((Some("Pet".to_string()), Some("object".to_string()), false))
    );
    assert_eq!(
        extract_schema_info_with_array(&media(
            "a/b",
            Some(RefOr::Item(array_schema(Some(reference("#/components/schemas/Pet")))))
        )),
        Some((Some("Pet".to_string()), Some("object".to_string()), true))
    );
    assert_eq!(
        extract_schema_info_with_array(&media("a/b", Some(RefOr::Item(array_schema(Some(RefOr::Item(string_schema()))))))),
        Some((None, Some("any".to_string()), true))
    );
    assert_eq!(
        extract_schema_info_with_array(&media("a/b", Some(RefOr::Item(array_schema(None))))),
        Some((None, Some("any".to_string()), true))
    );
    for (kind, tag) in all_kinds() {
        if tag != "array" {
            assert_eq!(
                extract_schema_info_with_array(&media("a/b", Some(RefOr::Item(kind)))),
                Some((None, Some(tag.to_string()), false))
            );
        }
    }
}

#[test]
fn request_body_reads_its_first_content_entry() {
    let body = RefOr::Item(SourceRequestBody {
        required: true,
        content: vec![
            media("application/xml", Some(reference("#/components/schemas/Pet"))),
            media("application/json", Some(RefOr::Item(string_schema()))),
        ],
    });
    let made = process_request_body(&body).unwrap();
    assert!(made.required);
    assert_eq!(made.content_type, "application/xml");
    assert_eq!(made.schema_ref.as_deref(), Some("Pet"));
    assert_eq!(made.schema_type.as_deref(), Some("object"));
}

#[test]
fn request_body_without_content_defaults_to_json() {
    let made = process_request_body(&RefOr::Item(SourceRequestBody { required: false, content: vec![] })).unwrap();
    assert!(!made.required);
    assert_eq!(made.content_type, "application/json");
    assert!(made.schema_ref.is_none());
    assert!(made.schema_type.is_none());
    let no_schema = process_request_body(&RefOr::Item(SourceRequestBody {
        required: false,
        content: vec![media("text/plain", None)],
    }))
    .unwrap();
    assert_eq!(no_schema.content_type, "text/plain");
    assert!(no_schema.schema_type.is_none());
    assert!(process_request_body(&RefOr::Reference { reference: "#/components/requestBodies/B".to_string() }).is_none());
}

#[test]
fn response_reads_its_first_content_entry() {
    let entry = SourceStatusResponse {
        status: "200".to_string(),
        response: RefOr::Item(SourceResponse {
            description: "The pets".to_string(),
            content: vec![media(
                "application/json",
                Some(RefOr::Item(array_schema(Some(reference("#/components/schemas/Pet"))))),
            )],
        }),
    };
    let made = process_response(&entry).unwrap();
    assert_eq!(made.status_code, "200");
    assert_eq!(made.description, "The pets");
    assert_eq!(made.content_type.as_deref(), Some("application/json"));
    assert_eq!(made.schema_ref.as_deref(), Some("Pet"));
    assert_eq!(made.schema_type.as_deref(), Some("object"));
    assert!(made.is_array);
}

#[test]
fn response_without_content_or_by_reference() {
    let bare = SourceStatusResponse {
        status: "204".to_string(),
        response: RefOr::Item(SourceResponse { description: "Gone".to_string(), content: vec![] }),
    };
    let made = process_response(&bare).unwrap();
    assert_eq!(made.status_code, "204");
    assert!(made.content_type.is_none());
    assert!(made.schema_ref.is_none());
    assert!(made.schema_type.is_none());
    assert!(!made.is_array);
    let by_reference = SourceStatusResponse {
        status: "404".to_string(),
        response: RefOr::Reference { reference: "#/components/responses/NotFound".to_string() },
    };
    assert!(process_response(&by_reference).is_none());
}

#[test]
fn processed_operation_gathers_everything() {
    let mut op = operation();
    op.summary = Some("Short".to_string());
    op.description = Some("Long".to_string());
    op.parameters = vec![
        RefOr::Reference { reference: "#/components/parameters/P".to_string() },
        RefOr::Item(SourceParameter {
            name: "id".to_string(),
            location: ParameterLocation::Path,
            required: true,
            description: None,
            format: SourceParameterFormat::Schema(RefOr::Item(schema(SourceSchemaKind::Integer { format: None }))),
        }),
    ];
    op.request_body = Some(RefOr::Item(SourceRequestBody { required: true, content: vec![] }));
    op.responses = vec![
        SourceStatusResponse {
            status: "200".to_string(),
            response: RefOr::Item(SourceResponse { description: "ok".to_string(), content: vec![] }),
        },
        SourceStatusResponse {
            status: "4XX".to_string(),
            response: RefOr::Reference { reference: "#/r".to_string() },
        },
        SourceStatusResponse {
            status: "500".to_string(),
            response: RefOr::Item(SourceResponse { description: "boom".to_string(), content: vec![] }),
        },
    ];
    let made = process_operation(&op, "get".to_string(), "/users/{id}/posts".to_string());
    assert_eq!(made.id, "get_users_id_posts");
    assert_eq!(made.method, "get");
    assert_eq!(made.path, "/users/{id}/posts");
    assert_eq!(made.summary.as_deref(), Some("Short"));
    assert_eq!(made.description.as_deref(), Some("Long"));
    assert_eq!(made.parameters.len(), 1);
    assert_eq!(made.parameters[0].schema_type, "integer");
    assert!(made.request_body.is_some());
    let codes: Vec<&str> = made.responses.iter().map(|r| r.status_code.as_str()).collect();
    assert_eq!(codes, vec!["200", "500"]);
    op.operation_id = Some("named".to_string());
    op.request_body = Some(RefOr::Reference { reference: "#/b".to_string() });
    let made = process_operation(&op, "post".to_string(), "/x".to_string());
    assert_eq!(made.id, "named");
    assert!(made.request_body.is_none());
}

#[test]
fn processed_operations_cover_five_methods() {
    let item = SourcePathItem {
        get: Some(operation()),
        post: Some(operation()),
        put: Some(operation()),
        delete: Some(operation()),
        patch: Some(operation()),
        head: Some(operation()),
        options: Some(operation()),
    };
    let mut only_patch = SourcePathItem { get: None, post: None, put: None, delete: None, patch: Some(operation()), head: None, options: None };
    only_patch.patch.as_mut().unwrap().operation_id = Some("touch".to_string());
    let paths = vec![
        SourcePath { path: "/a".to_string(), item: RefOr::Item(item) },
        SourcePath { path: "/r".to_string(), item: RefOr::Reference { reference: "#/p".to_string() } },
        SourcePath { path: "/b".to_string(), item: RefOr::Item(only_patch) },
    ];
    let made = extract_operations(&document(SchemaTable::new(), paths));
    let ids: Vec<&str> = made.iter().map(|o| o.id.as_str()).collect();
    assert_eq!(ids, vec!["get_a", "post_a", "put_a", "delete_a", "patch_a", "touch"]);
    let methods: Vec<&str> = made.iter().map(|o| o.method.as_str()).collect();
    assert_eq!(methods, vec!["get", "post", "put", "delete", "patch", "patch"]);
    assert_eq!(made[5].path, "/b");
}
