//! The extractor for OpenAPI documents: from the generic document model to
//! the intermediate representation.

use vstd::prelude::*;
use vstd::string::*;
use crate::error::{Error, ErrorView};
use crate::operation_processor::{
    extract_schema_info, extract_schema_info_with_array, schema_info, schema_info_with_array,
};
use crate::parsers::InputParser;
use crate::parsers::schema_ir::{
    FieldDefinition, FieldDefinitionView, HttpMethod, JsonEntry, JsonEntryView, Metadata,
    MetadataView, OperationDefinition, OperationDefinitionView, OriginalData, OriginalDataView,
    Parameter, ParameterView, SchemaDefinition, SchemaDefinitionView, SchemaIR, SchemaIRView,
    SchemaReference, SchemaReferenceView, TypeInfo, TypeInfoView,
};
use crate::parsers::source::{
    entry_names, last_segment, reference_name, schema_name_of, NamedSchema, RefOr,
    SourceDocument, SourceInput, SourceMediaType, SourceOperation, SourceParameter, SourcePath,
    SourcePathItem, SourceRequestBody, SourceSchema, SourceSchemaKind, SourceStatusResponse,
    SourceSyntax,
};
use crate::search::{first_match, lemma_first_match_is};
use crate::text::{
    clone_opt_text, clone_texts, contains_text, lemma_deep_view_push, push_char, same_text,
};

verus! {

/// A node of primitive kind `kind` with the format `format`.
pub open spec fn plain_type(kind: Seq<char>, format: Option<Seq<char>>) -> TypeInfoView {
    TypeInfoView {
        openapi_type: kind,
        format,
        is_array: false,
        array_item_type: None,
        reference: None,
        enum_values: None,
    }
}

/// The node for a bare reference: it points to the schema that the reference
/// string names, and nothing of the target is walked.
pub open spec fn reference_type(reference: Seq<char>) -> TypeInfoView {
    TypeInfoView {
        openapi_type: "object"@,
        format: None,
        is_array: false,
        array_item_type: None,
        reference: Some(reference_name(reference)),
        enum_values: None,
    }
}

/// The node for an array of `item`.
pub open spec fn array_type(item: TypeInfoView) -> TypeInfoView {
    TypeInfoView {
        openapi_type: "array"@,
        format: None,
        is_array: true,
        array_item_type: Some(Box::new(item)),
        reference: None,
        enum_values: None,
    }
}

/// The members of an enumeration that are present, in their order; null
/// members are dropped.
pub open spec fn present_values(enumeration: Seq<Option<String>>) -> Seq<Seq<char>>
    decreases enumeration.len(),
{
    if enumeration.len() == 0 {
        Seq::empty()
    } else {
        let rest = present_values(enumeration.drop_last());
        match enumeration.last() {
            Some(value) => rest.push(value@),
            None => rest,
        }
    }
}

/// The type node of an inline schema.
pub open spec fn schema_type_info(schema: SourceSchema) -> TypeInfoView
    decreases schema,
{
    match schema.kind {
        SourceSchemaKind::String { format, enumeration } => TypeInfoView {
            openapi_type: "string"@,
            format: format.deep_view(),
            is_array: false,
            array_item_type: None,
            reference: None,
            enum_values: if enumeration@.len() > 0 {
                Some(present_values(enumeration@))
            } else {
                None
            },
        },
        SourceSchemaKind::Number { format } => plain_type("number"@, format.deep_view()),
        SourceSchemaKind::Integer { format } => plain_type("integer"@, format.deep_view()),
        SourceSchemaKind::Boolean => plain_type("boolean"@, None),
        SourceSchemaKind::Array { items } => array_type(
            match items {
                Some(item) => match *item {
                    RefOr::Reference { reference } => reference_type(reference@),
                    RefOr::Item(inner) => schema_type_info(inner),
                },
                None => plain_type("any"@, None),
            },
        ),
        SourceSchemaKind::Object { .. } => plain_type("object"@, None),
        SourceSchemaKind::Other => plain_type("any"@, None),
    }
}

/// The type node of a schema or of a reference to one.
pub open spec fn schema_ref_type_info(schema: RefOr<SourceSchema>) -> TypeInfoView {
    match schema {
        RefOr::Reference { reference } => reference_type(reference@),
        RefOr::Item(inner) => schema_type_info(inner),
    }
}

/// The field that a property becomes. It is required exactly when its name
/// is among `required`.
pub open spec fn field_of(property: NamedSchema, required: Seq<Seq<char>>) -> FieldDefinitionView {
    FieldDefinitionView {
        name: property.name@,
        type_info: schema_ref_type_info(property.schema),
        required: required.contains(property.name@),
        description: match property.schema {
            RefOr::Reference { .. } => None,
            RefOr::Item(inner) => inner.description.deep_view(),
        },
        original: property.original,
    }
}

/// The fields that `properties` become, one for each and in their order.
pub open spec fn fields_of(properties: Seq<NamedSchema>, required: Seq<Seq<char>>) -> Seq<
    FieldDefinitionView,
> {
    Seq::new(properties.len(), |i: int| field_of(properties[i], required))
}

/// The fields of a schema: one for each property of an object schema, in
/// order, and none for any other schema.
pub open spec fn schema_fields(schema: SourceSchema) -> Seq<FieldDefinitionView> {
    match schema.kind {
        SourceSchemaKind::Object { properties, required } => fields_of(
            properties@,
            required.deep_view(),
        ),
        _ => Seq::empty(),
    }
}

/// How many of `fields` are required.
pub open spec fn required_count(fields: Seq<FieldDefinitionView>) -> nat
    decreases fields.len(),
{
    if fields.len() == 0 {
        0
    } else {
        required_count(fields.drop_last()) + if fields.last().required {
            1nat
        } else {
            0nat
        }
    }
}

/// How many of `fields` are not required.
pub open spec fn optional_count(fields: Seq<FieldDefinitionView>) -> nat
    decreases fields.len(),
{
    if fields.len() == 0 {
        0
    } else {
        optional_count(fields.drop_last()) + if fields.last().required {
            0nat
        } else {
            1nat
        }
    }
}

/// How many of `properties` have their name among `required`.
pub open spec fn listed_count(properties: Seq<NamedSchema>, required: Seq<Seq<char>>) -> nat
    decreases properties.len(),
{
    if properties.len() == 0 {
        0
    } else {
        listed_count(properties.drop_last(), required) + if required.contains(
            properties.last().name@,
        ) {
            1nat
        } else {
            0nat
        }
    }
}

/// Extraction keeps the count and the order of the properties, and marks as
/// required exactly those whose name is listed, wherever in the list the
/// name stands: of N properties with K of them listed, K fields are required
/// and N − K are not.
pub proof fn lemma_required_fields(properties: Seq<NamedSchema>, required: Seq<Seq<char>>)
    ensures
        fields_of(properties, required).len() == properties.len(),
        forall|i: int|
            0 <= i < properties.len() ==> {
                &&& (#[trigger] fields_of(properties, required)[i]).name == properties[i].name@
                &&& fields_of(properties, required)[i].required == required.contains(
                    properties[i].name@,
                )
            },
        required_count(fields_of(properties, required)) == listed_count(properties, required),
        optional_count(fields_of(properties, required)) == properties.len() - listed_count(
            properties,
            required,
        ),
    decreases properties.len(),
{
    if properties.len() > 0 {
        lemma_required_fields(properties.drop_last(), required);
        assert(fields_of(properties, required).drop_last() =~= fields_of(
            properties.drop_last(),
            required,
        ));
    }
}

/// A property that refers to a schema degrades where the reference names
/// none: the field points to the placeholder `Unknown`. Whatever the
/// reference, the field is of reference kind, and nothing of the target is
/// looked at.
pub proof fn lemma_reference_field(
    property: NamedSchema,
    reference: String,
    required: Seq<Seq<char>>,
)
    requires
        property.schema == (RefOr::<SourceSchema>::Reference { reference }),
    ensures
        field_of(property, required).type_info.reference is Some,
        !field_of(property, required).type_info.is_array,
        field_of(property, required).type_info.enum_values is None,
        last_segment(reference@).len() == 0 ==> field_of(property, required).type_info.reference
            == Some("Unknown"@),
        last_segment(reference@).len() > 0 ==> field_of(property, required).type_info.reference
            == Some(last_segment(reference@)),
{
}

/// The definition that the inline schema `schema`, declared as `entry`,
/// becomes.
pub open spec fn definition_of(entry: NamedSchema, schema: SourceSchema) -> SchemaDefinitionView {
    SchemaDefinitionView {
        name: entry.name@,
        fields: schema_fields(schema),
        description: schema.description.deep_view(),
        original: entry.original,
    }
}

/// The definitions of the reusable schemas: one for each entry that is an
/// inline schema, in order; bare references are passed over.
pub open spec fn schema_definitions(entries: Seq<NamedSchema>) -> Seq<SchemaDefinitionView>
    decreases entries.len(),
{
    if entries.len() == 0 {
        Seq::empty()
    } else {
        let rest = schema_definitions(entries.drop_last());
        match entries.last().schema {
            RefOr::Reference { .. } => rest,
            RefOr::Item(schema) => rest.push(definition_of(entries.last(), schema)),
        }
    }
}

/// The names of `definitions`, in order.
pub open spec fn definition_names(definitions: Seq<SchemaDefinitionView>) -> Seq<Seq<char>> {
    Seq::new(definitions.len(), |i: int| definitions[i].name)
}

/// Every definition comes from an entry that is an inline schema, and
/// carries that entry's name.
pub proof fn lemma_definitions_come_from_entries(entries: Seq<NamedSchema>)
    ensures
        schema_definitions(entries).len() <= entries.len(),
        forall|i: int|
            0 <= i < schema_definitions(entries).len() ==> exists|j: int|
                0 <= j < entries.len() && entries[j].schema is Item && (
                #[trigger] entries[j]).name@ == (#[trigger] schema_definitions(entries)[i]).name,
    decreases entries.len(),
{
    if entries.len() > 0 {
        let front = entries.drop_last();
        lemma_definitions_come_from_entries(front);
        assert forall|i: int| 0 <= i < schema_definitions(entries).len() implies exists|j: int|
            0 <= j < entries.len() && entries[j].schema is Item && (#[trigger] entries[j]).name@
                == (#[trigger] schema_definitions(entries)[i]).name by {
            if i < schema_definitions(front).len() {
                let j = choose|j: int|
                    0 <= j < front.len() && front[j].schema is Item && (#[trigger] front[j]).name@
                        == schema_definitions(front)[i].name;
                assert(entries[j] == front[j]);
            } else {
                assert(entries[entries.len() - 1].name@ == schema_definitions(entries)[i].name);
            }
        }
    }
}

/// Where no two entries share a name, no two definitions do: names are
/// unique within one parse.
pub proof fn lemma_definition_names_distinct(entries: Seq<NamedSchema>)
    requires
        entry_names(entries).no_duplicates(),
    ensures
        definition_names(schema_definitions(entries)).no_duplicates(),
    decreases entries.len(),
{
    if entries.len() > 0 {
        let front = entries.drop_last();
        assert forall|i: int, j: int|
            0 <= i < entry_names(front).len() && 0 <= j < entry_names(front).len() && i
                != j implies entry_names(front)[i] != entry_names(front)[j] by {
            assert(entry_names(front)[i] == entry_names(entries)[i]);
            assert(entry_names(front)[j] == entry_names(entries)[j]);
        }
        lemma_definition_names_distinct(front);
        lemma_definitions_come_from_entries(front);
        let made = schema_definitions(entries);
        let names = definition_names(made);
        assert forall|i: int, j: int|
            0 <= i < names.len() && 0 <= j < names.len() && i != j implies names[i]
            != names[j] by {
            let old_count = schema_definitions(front).len();
            if i < old_count && j < old_count {
                assert(names[i] == definition_names(schema_definitions(front))[i]);
                assert(names[j] == definition_names(schema_definitions(front))[j]);
            } else {
                let low = if i < j {
                    i
                } else {
                    j
                };
                let k = choose|k: int|
                    0 <= k < front.len() && front[k].schema is Item && (#[trigger] front[k]).name@
                        == schema_definitions(front)[low].name;
                assert(entry_names(entries)[k] == front[k].name@);
                assert(entry_names(entries)[entries.len() - 1] == entries.last().name@);
            }
        }
    }
}

/// What one character of a path leaves in a synthesized identifier: a path
/// separator leaves an underscore, a brace nothing, any other character
/// itself.
pub open spec fn id_piece(c: char) -> Seq<char> {
    if c == '/' {
        "_"@
    } else if c == '{' || c == '}' {
        Seq::empty()
    } else {
        seq![c]
    }
}

/// The pieces of all characters of `path`, in order.
pub open spec fn sanitized(path: Seq<char>) -> Seq<char>
    decreases path.len(),
{
    if path.len() == 0 {
        Seq::empty()
    } else {
        sanitized(path.drop_last()) + id_piece(path.last())
    }
}

/// The path without the separator that it begins with, if it begins with
/// one.
pub open spec fn without_leading_separator(path: Seq<char>) -> Seq<char> {
    if path.len() > 0 && path[0] == '/' {
        path.drop_first()
    } else {
        path
    }
}

/// The identifier of an operation that declares none: the method's name in
/// small letters, an underscore, and the path with its first separator
/// dropped, every other separator turned into an underscore and the braces
/// removed.
pub open spec fn synthesized_id(method: Seq<char>, path: Seq<char>) -> Seq<char> {
    method + "_"@ + sanitized(without_leading_separator(path))
}

/// The parameter that an inline parameter becomes. The type tag is coarse:
/// it is `string` whatever the parameter's schema says.
pub open spec fn parameter_of(parameter: SourceParameter) -> ParameterView {
    ParameterView {
        name: parameter.name@,
        location: parameter.location,
        required: parameter.required,
        schema_type: "string"@,
        description: parameter.description.deep_view(),
    }
}

/// The parameters of an operation: one for each inline parameter, in order;
/// references are passed over.
pub open spec fn inline_parameters(parameters: Seq<RefOr<SourceParameter>>) -> Seq<ParameterView>
    decreases parameters.len(),
{
    if parameters.len() == 0 {
        Seq::empty()
    } else {
        let rest = inline_parameters(parameters.drop_last());
        match parameters.last() {
            RefOr::Reference { .. } => rest,
            RefOr::Item(parameter) => rest.push(parameter_of(parameter)),
        }
    }
}

/// The schema that a request body is linked to: the one that the schema of
/// its first content entry refers to, with the type `object`. There is none
/// where the operation has no body, where the body stands by reference or
/// has no content, and where the schema of the content is written inline
/// and so names nothing.
pub open spec fn request_body_reference(body: Option<RefOr<SourceRequestBody>>) -> Option<
    SchemaReferenceView,
> {
    match body {
        Some(RefOr::Item(inline)) => {
            if inline.content@.len() > 0 {
                match schema_info(inline.content@[0]) {
                    Some(info) => match info.0 {
                        Some(name) => Some(SchemaReferenceView { name, schema_type: "object"@ }),
                        None => None,
                    },
                    None => None,
                }
            } else {
                None
            }
        },
        _ => None,
    }
}

/// Whether a status code tells of success: it begins with `2`, as `200`,
/// `204` and `2XX` do.
pub open spec fn is_success(status: Seq<char>) -> bool {
    status.len() > 0 && status[0] == '2'
}

/// The condition of being a response under a status code of success.
pub open spec fn answers_success() -> spec_fn(SourceStatusResponse) -> bool {
    |entry: SourceStatusResponse| is_success(entry.status@)
}

/// The schema that the content of a response is linked to: the one that the
/// schema of its first content entry refers to, with the type `object`, or
/// the one that the elements of that schema refer to where it is an array,
/// with the type `array`. There is none where the response has no content
/// and where the schema, or the elements of the array, name nothing.
pub open spec fn content_reference(content: Seq<SourceMediaType>) -> Option<SchemaReferenceView> {
    if content.len() > 0 {
        match schema_info_with_array(content[0]) {
            Some(info) => match info.0 {
                Some(name) => Some(
                    SchemaReferenceView {
                        name,
                        schema_type: if info.2 {
                            "array"@
                        } else {
                            "object"@
                        },
                    },
                ),
                None => None,
            },
            None => None,
        }
    } else {
        None
    }
}

/// The schema that the response of an operation is linked to. The response
/// of an operation is the first that the source declares under a status
/// code of success. There is no link where no response tells of success,
/// where that response stands by reference, and where its content names no
/// schema.
pub open spec fn response_reference(responses: Seq<SourceStatusResponse>) -> Option<
    SchemaReferenceView,
> {
    let at = first_match(responses, answers_success());
    if at < responses.len() {
        match responses[at].response {
            RefOr::Item(inline) => content_reference(inline.content@),
            RefOr::Reference { .. } => None,
        }
    } else {
        None
    }
}

/// A request body whose first content entry refers to a schema is linked to
/// the schema of that name, as an object.
pub proof fn lemma_request_body_by_reference(
    body: SourceRequestBody,
    reference: String,
)
    requires
        body.content@.len() > 0,
        body.content@[0].schema == Some(RefOr::<SourceSchema>::Reference { reference }),
    ensures
        request_body_reference(Some(RefOr::Item(body))) == Some(
            SchemaReferenceView { name: reference_name(reference@), schema_type: "object"@ },
        ),
{
}

/// A response whose first content entry is an array of references is linked
/// to the schema of the elements, as an array; one whose first content
/// entry is itself a reference is linked to that schema, as an object.
pub proof fn lemma_content_by_reference(content: Seq<SourceMediaType>, reference: String)
    requires
        content.len() > 0,
    ensures
        content[0].schema == Some(RefOr::<SourceSchema>::Reference { reference })
            ==> content_reference(content) == Some(
            SchemaReferenceView { name: reference_name(reference@), schema_type: "object"@ },
        ),
        (content[0].schema matches Some(RefOr::Item(schema)) && schema.kind
            matches SourceSchemaKind::Array { items: Some(item) } && *item == (RefOr::<
            SourceSchema,
        >::Reference { reference })) ==> content_reference(content) == Some(
            SchemaReferenceView { name: reference_name(reference@), schema_type: "array"@ },
        ),
{
}

/// The operation definition for `operation`, declared under `path` in the
/// slot of `method`.
pub open spec fn operation_of(
    path: Seq<char>,
    method: HttpMethod,
    operation: SourceOperation,
) -> OperationDefinitionView {
    OperationDefinitionView {
        id: match operation.operation_id {
            Some(id) => id@,
            None => synthesized_id(method.lower_name(), path),
        },
        method,
        path,
        parameters: inline_parameters(operation.parameters@),
        request_body: request_body_reference(operation.request_body),
        response: response_reference(operation.responses@),
        description: operation.description.deep_view(),
        tags: operation.tags.deep_view(),
        original: operation.original,
    }
}

/// The operations of one method slot: one if the slot is filled.
pub open spec fn slot_operations(
    path: Seq<char>,
    method: HttpMethod,
    slot: Option<SourceOperation>,
) -> Seq<OperationDefinitionView> {
    match slot {
        Some(operation) => seq![operation_of(path, method, operation)],
        None => Seq::empty(),
    }
}

/// The operations of one path, in the order get, post, put, delete, patch,
/// head, options.
pub open spec fn path_item_operations(path: Seq<char>, item: SourcePathItem) -> Seq<
    OperationDefinitionView,
> {
    slot_operations(path, HttpMethod::Get, item.get) + slot_operations(
        path,
        HttpMethod::Post,
        item.post,
    ) + slot_operations(path, HttpMethod::Put, item.put) + slot_operations(
        path,
        HttpMethod::Delete,
        item.delete,
    ) + slot_operations(path, HttpMethod::Patch, item.patch) + slot_operations(
        path,
        HttpMethod::Head,
        item.head,
    ) + slot_operations(path, HttpMethod::Options, item.options)
}

/// The operations of a path entry; a path that is a bare reference has none.
pub open spec fn path_operations(path: SourcePath) -> Seq<OperationDefinitionView> {
    match path.item {
        RefOr::Reference { .. } => Seq::empty(),
        RefOr::Item(item) => path_item_operations(path.path@, item),
    }
}

/// The operations of all paths, in path order.
pub open spec fn document_operations(paths: Seq<SourcePath>) -> Seq<OperationDefinitionView>
    decreases paths.len(),
{
    if paths.len() == 0 {
        Seq::empty()
    } else {
        document_operations(paths.drop_last()) + path_operations(paths.last())
    }
}

fn plain_type_info(kind: &str, format: Option<String>) -> (info: TypeInfo)
    ensures
        info@ == plain_type(kind@, format.deep_view()),
{
    TypeInfo {
        openapi_type: String::from_str(kind),
        format,
        is_array: false,
        array_item_type: None,
        reference: None,
        enum_values: None,
    }
}

/// The type node for a bare reference.
pub fn reference_type_info(reference: &str) -> (info: TypeInfo)
    ensures
        info@ == reference_type(reference@),
{
    TypeInfo {
        openapi_type: String::from_str("object"),
        format: None,
        is_array: false,
        array_item_type: None,
        reference: Some(schema_name_of(reference)),
        enum_values: None,
    }
}

fn present_texts(enumeration: &Vec<Option<String>>) -> (values: Vec<String>)
    ensures
        values.deep_view() == present_values(enumeration@),
{
    let mut values: Vec<String> = Vec::new();
    let mut i: usize = 0;
    assert(enumeration@.take(0) =~= Seq::empty());
    assert(values.deep_view() =~= Seq::empty());
    while i < enumeration.len()
        invariant
            i <= enumeration.len(),
            values.deep_view() == present_values(enumeration@.take(i as int)),
        decreases enumeration.len() - i,
    {
        proof {
            assert(enumeration@.take(i + 1).drop_last() =~= enumeration@.take(i as int));
        }
        if let Some(value) = &enumeration[i] {
            let ghost before = values;
            let copy = value.clone();
            values.push(copy);
            proof {
                lemma_deep_view_push(before, values, copy);
            }
        }
        i += 1;
    }
    assert(enumeration@.take(i as int) =~= enumeration@);
    values
}

/// Extracts the type node of an inline schema.
pub fn extract_type_info(schema: &SourceSchema) -> (info: TypeInfo)
    ensures
        info@ == schema_type_info(*schema),
    decreases schema,
{
    match &schema.kind {
        SourceSchemaKind::String { format, enumeration } => TypeInfo {
            openapi_type: String::from_str("string"),
            format: clone_opt_text(format),
            is_array: false,
            array_item_type: None,
            reference: None,
            enum_values: if enumeration.len() > 0 {
                Some(present_texts(enumeration))
            } else {
                None
            },
        },
        SourceSchemaKind::Number { format } => plain_type_info("number", clone_opt_text(format)),
        SourceSchemaKind::Integer { format } => plain_type_info("integer", clone_opt_text(format)),
        SourceSchemaKind::Boolean => plain_type_info("boolean", None),
        SourceSchemaKind::Array { items } => {
            let item = match items {
                Some(item) => match &**item {
                    RefOr::Reference { reference } => reference_type_info(reference.as_str()),
                    RefOr::Item(inner) => extract_type_info(inner),
                },
                None => plain_type_info("any", None),
            };
            TypeInfo {
                openapi_type: String::from_str("array"),
                format: None,
                is_array: true,
                array_item_type: Some(Box::new(item)),
                reference: None,
                enum_values: None,
            }
        },
        SourceSchemaKind::Object { .. } => plain_type_info("object", None),
        SourceSchemaKind::Other => plain_type_info("any", None),
    }
}

/// Extracts the type node of a schema or of a reference to one.
pub fn extract_ref_type_info(schema: &RefOr<SourceSchema>) -> (info: TypeInfo)
    ensures
        info@ == schema_ref_type_info(*schema),
{
    match schema {
        RefOr::Reference { reference } => reference_type_info(reference.as_str()),
        RefOr::Item(inner) => extract_type_info(inner),
    }
}

/// Extracts the fields of a schema.
pub fn extract_fields(schema: &SourceSchema) -> (fields: Vec<FieldDefinition>)
    ensures
        fields.deep_view() == schema_fields(*schema),
{
    let mut fields: Vec<FieldDefinition> = Vec::new();
    if let SourceSchemaKind::Object { properties, required } = &schema.kind {
        let mut i: usize = 0;
        assert(fields.deep_view() =~= fields_of(properties@, required.deep_view()).take(0));
        while i < properties.len()
            invariant
                i <= properties.len(),
                fields.deep_view() == fields_of(properties@, required.deep_view()).take(i as int),
            decreases properties.len() - i,
        {
            let property = &properties[i];
            let field = FieldDefinition {
                name: property.name.clone(),
                type_info: extract_ref_type_info(&property.schema),
                required: contains_text(required, property.name.as_str()),
                description: match &property.schema {
                    RefOr::Reference { .. } => None,
                    RefOr::Item(inner) => clone_opt_text(&inner.description),
                },
                original: property.original.clone(),
            };
            let ghost before = fields;
            fields.push(field);
            proof {
                lemma_deep_view_push(before, fields, field);
                let all = fields_of(properties@, required.deep_view());
                assert(all.take(i + 1) =~= all.take(i as int).push(all[i as int]));
            }
            i += 1;
        }
        assert(fields_of(properties@, required.deep_view()).take(i as int) =~= fields_of(
            properties@,
            required.deep_view(),
        ));
    } else {
        assert(fields.deep_view() =~= Seq::empty());
    }
    fields
}

/// Extracts the definitions of the reusable schemas.
pub fn extract_schemas(document: &SourceDocument) -> (schemas: Vec<SchemaDefinition>)
    ensures
        schemas.deep_view() == schema_definitions(document.schemas@),
{
    let entries = &document.schemas;
    let mut schemas: Vec<SchemaDefinition> = Vec::new();
    let mut i: usize = 0;
    assert(entries@.take(0) =~= Seq::empty());
    assert(schemas.deep_view() =~= Seq::empty());
    while i < entries.len()
        invariant
            i <= entries@.len(),
            schemas.deep_view() == schema_definitions(entries@.take(i as int)),
        decreases entries@.len() - i,
    {
        proof {
            assert(entries@.take(i + 1).drop_last() =~= entries@.take(i as int));
        }
        let entry = entries.entry(i);
        if let RefOr::Item(schema) = &entry.schema {
            let definition = SchemaDefinition {
                name: entry.name.clone(),
                fields: extract_fields(schema),
                description: clone_opt_text(&schema.description),
                original: entry.original.clone(),
            };
            let ghost before = schemas;
            schemas.push(definition);
            proof {
                lemma_deep_view_push(before, schemas, definition);
            }
        }
        i += 1;
    }
    assert(entries@.take(i as int) =~= entries@);
    schemas
}

/// The identifier for an operation that declares none; `method` is the
/// method's name in small letters.
pub fn synthesize_operation_id(method: &str, path: &str) -> (id: String)
    ensures
        id@ == synthesized_id(method@, path@),
{
    let mut id = String::from_str(method);
    id.append("_");
    let ghost head = id@;
    let ghost rest = without_leading_separator(path@);
    let ghost skipped: int = path@.len() - rest.len();
    let mut seen: usize = 0;
    let total = path.unicode_len();
    assert(rest.take(0) =~= Seq::empty());
    assert(head + Seq::<char>::empty() =~= head);
    for c in it: path.chars()
        invariant
            it.seq() == path@,
            seen == it.index(),
            seen <= total,
            total == path@.len(),
            rest == without_leading_separator(path@),
            skipped == path@.len() - rest.len(),
            head == method@ + "_"@,
            id@ == head + sanitized(rest.take(if seen < skipped { 0 } else { seen - skipped })),
    {
        if seen > 0 || c != '/' {
            let ghost done: int = seen - skipped;
            let ghost before = id@;
            proof {
                assert(rest[done] == c);
                assert(rest.take(done + 1).drop_last() =~= rest.take(done));
            }
            if c == '/' {
                id.append("_");
            } else if c == '{' || c == '}' {
                assert(before + Seq::<char>::empty() =~= before);
            } else {
                push_char(&mut id, c);
                assert(before.push(c) =~= before + seq![c]);
            }
            assert(id@ =~= head + (sanitized(rest.take(done)) + id_piece(c)));
        }
        seen += 1;
    }
    assert(rest.take(seen - skipped) =~= rest);
    id
}

fn extract_parameters(parameters: &Vec<RefOr<SourceParameter>>) -> (extracted: Vec<Parameter>)
    ensures
        extracted.deep_view() == inline_parameters(parameters@),
{
    let mut extracted: Vec<Parameter> = Vec::new();
    let mut i: usize = 0;
    assert(parameters@.take(0) =~= Seq::empty());
    assert(extracted.deep_view() =~= Seq::empty());
    while i < parameters.len()
        invariant
            i <= parameters.len(),
            extracted.deep_view() == inline_parameters(parameters@.take(i as int)),
        decreases parameters.len() - i,
    {
        proof {
            assert(parameters@.take(i + 1).drop_last() =~= parameters@.take(i as int));
        }
        if let RefOr::Item(parameter) = &parameters[i] {
            let made = Parameter {
                name: parameter.name.clone(),
                location: parameter.location,
                required: parameter.required,
                schema_type: String::from_str("string"),
                description: clone_opt_text(&parameter.description),
            };
            let ghost before = extracted;
            extracted.push(made);
            proof {
                lemma_deep_view_push(before, extracted, made);
            }
        }
        i += 1;
    }
    assert(parameters@.take(i as int) =~= parameters@);
    extracted
}

/// The schema that a request body is linked to.
pub fn extract_request_body_reference(body: &Option<RefOr<SourceRequestBody>>) -> (link: Option<
    SchemaReference,
>)
    ensures
        link.deep_view() == request_body_reference(*body),
{
    match body {
        Some(RefOr::Item(inline)) => {
            if inline.content.len() > 0 {
                match extract_schema_info(&inline.content[0]) {
                    Some((Some(name), _)) => Some(
                        SchemaReference { name, schema_type: String::from_str("object") },
                    ),
                    _ => None,
                }
            } else {
                None
            }
        },
        _ => None,
    }
}

fn content_reference_of(content: &Vec<SourceMediaType>) -> (link: Option<SchemaReference>)
    ensures
        link.deep_view() == content_reference(content@),
{
    if content.len() > 0 {
        match extract_schema_info_with_array(&content[0]) {
            Some((Some(name), _, is_array)) => Some(
                SchemaReference {
                    name,
                    schema_type: if is_array {
                        String::from_str("array")
                    } else {
                        String::from_str("object")
                    },
                },
            ),
            _ => None,
        }
    } else {
        None
    }
}

fn tells_success(status: &str) -> (success: bool)
    ensures
        success == is_success(status@),
{
    status.unicode_len() > 0 && status.get_char(0) == '2'
}

/// The schema that the response of an operation is linked to.
pub fn extract_response_reference(responses: &Vec<SourceStatusResponse>) -> (link: Option<
    SchemaReference,
>)
    ensures
        link.deep_view() == response_reference(responses@),
{
    let mut i: usize = 0;
    while i < responses.len()
        invariant
            i <= responses.len(),
            forall|k: int| 0 <= k < i ==> !is_success((#[trigger] responses@[k]).status@),
        decreases responses.len() - i,
    {
        if tells_success(responses[i].status.as_str()) {
            proof {
                lemma_first_match_is(responses@, answers_success(), i as int);
            }
            return match &responses[i].response {
                RefOr::Item(inline) => content_reference_of(&inline.content),
                RefOr::Reference { .. } => None,
            };
        }
        i += 1;
    }
    proof {
        lemma_first_match_is(responses@, answers_success(), i as int);
    }
    None
}

/// Extracts one operation.
pub fn extract_operation(path: &str, method: HttpMethod, operation: &SourceOperation) -> (made:
    OperationDefinition)
    ensures
        made@ == operation_of(path@, method, *operation),
{
    OperationDefinition {
        id: match &operation.operation_id {
            Some(id) => id.clone(),
            None => synthesize_operation_id(method.as_lower(), path),
        },
        method,
        path: String::from_str(path),
        parameters: extract_parameters(&operation.parameters),
        request_body: extract_request_body_reference(&operation.request_body),
        response: extract_response_reference(&operation.responses),
        description: clone_opt_text(&operation.description),
        tags: clone_texts(&operation.tags),
        original: operation.original.clone(),
    }
}

fn extract_slot(
    path: &str,
    method: HttpMethod,
    slot: &Option<SourceOperation>,
    operations: &mut Vec<OperationDefinition>,
)
    ensures
        final(operations).deep_view() == old(operations).deep_view() + slot_operations(
            path@,
            method,
            *slot,
        ),
{
    let ghost before = *operations;
    match slot {
        Some(operation) => {
            let made = extract_operation(path, method, operation);
            operations.push(made);
            proof {
                lemma_deep_view_push(before, *operations, made);
                assert(before.deep_view().push(made@) =~= before.deep_view() + seq![made@]);
            }
        },
        None => {
            assert(before.deep_view() + Seq::empty() =~= before.deep_view());
        },
    }
}

/// Extracts the operations of one path and appends them to `operations`.
pub fn extract_operations_from_path(
    path: &str,
    path_item: &SourcePathItem,
    operations: &mut Vec<OperationDefinition>,
)
    ensures
        final(operations).deep_view() == old(operations).deep_view() + path_item_operations(
            path@,
            *path_item,
        ),
{
    let ghost s0 = operations.deep_view();
    extract_slot(path, HttpMethod::Get, &path_item.get, operations);
    let ghost s1 = operations.deep_view();
    extract_slot(path, HttpMethod::Post, &path_item.post, operations);
    let ghost s2 = operations.deep_view();
    extract_slot(path, HttpMethod::Put, &path_item.put, operations);
    let ghost s3 = operations.deep_view();
    extract_slot(path, HttpMethod::Delete, &path_item.delete, operations);
    let ghost s4 = operations.deep_view();
    extract_slot(path, HttpMethod::Patch, &path_item.patch, operations);
    let ghost s5 = operations.deep_view();
    extract_slot(path, HttpMethod::Head, &path_item.head, operations);
    let ghost s6 = operations.deep_view();
    extract_slot(path, HttpMethod::Options, &path_item.options, operations);
    proof {
        let a = slot_operations(path@, HttpMethod::Get, path_item.get);
        let b = slot_operations(path@, HttpMethod::Post, path_item.post);
        let c = slot_operations(path@, HttpMethod::Put, path_item.put);
        let d = slot_operations(path@, HttpMethod::Delete, path_item.delete);
        let e = slot_operations(path@, HttpMethod::Patch, path_item.patch);
        let f = slot_operations(path@, HttpMethod::Head, path_item.head);
        let g = slot_operations(path@, HttpMethod::Options, path_item.options);
        assert(s2 =~= s0 + (a + b));
        assert(s3 =~= s0 + (a + b + c));
        assert(s4 =~= s0 + (a + b + c + d));
        assert(s5 =~= s0 + (a + b + c + d + e));
        assert(s6 =~= s0 + (a + b + c + d + e + f));
        assert(operations.deep_view() =~= s0 + (a + b + c + d + e + f + g));
    }
}

/// Extracts the operations of all paths.
pub fn extract_operations(document: &SourceDocument) -> (operations: Vec<OperationDefinition>)
    ensures
        operations.deep_view() == document_operations(document.paths@),
{
    let paths = &document.paths;
    let mut operations: Vec<OperationDefinition> = Vec::new();
    let mut i: usize = 0;
    assert(paths@.take(0) =~= Seq::empty());
    assert(operations.deep_view() =~= Seq::empty());
    while i < paths.len()
        invariant
            i <= paths.len(),
            operations.deep_view() == document_operations(paths@.take(i as int)),
        decreases paths.len() - i,
    {
        proof {
            assert(paths@.take(i + 1).drop_last() =~= paths@.take(i as int));
        }
        let ghost before = operations.deep_view();
        if let RefOr::Item(item) = &paths[i].item {
            extract_operations_from_path(paths[i].path.as_str(), item, &mut operations);
        } else {
            assert(before + Seq::empty() =~= before);
        }
        i += 1;
    }
    assert(paths@.take(i as int) =~= paths@);
    operations
}

/// The key under which a document-level extension is kept: its own key
/// behind the name of its scope, so that extensions of different scopes never
/// collide.
pub open spec fn namespaced_key(key: Seq<char>) -> Seq<char> {
    "openapi."@ + key
}

/// The document-level extensions, each under its namespaced key.
pub open spec fn global_extensions(entries: Seq<JsonEntry>) -> Seq<JsonEntryView> {
    Seq::new(
        entries.len(),
        |i: int| JsonEntryView { key: namespaced_key(entries[i].key@), value: entries[i].value },
    )
}

/// The metadata of a document. The base URL is that of the first declared
/// server.
pub open spec fn document_metadata(document: SourceDocument) -> MetadataView {
    MetadataView {
        title: document.title@,
        version: document.version@,
        description: document.description.deep_view(),
        base_url: if document.server_urls@.len() > 0 {
            Some(document.server_urls@[0]@)
        } else {
            None
        },
        custom: document.info_extensions.deep_view(),
    }
}

/// The intermediate representation of a document.
pub open spec fn document_ir(document: SourceDocument) -> SchemaIRView {
    SchemaIRView {
        metadata: document_metadata(document),
        schemas: schema_definitions(document.schemas@),
        operations: document_operations(document.paths@),
        original: OriginalDataView {
            format: "openapi"@,
            data: document.original,
            extensions: global_extensions(document.extensions@),
        },
    }
}

/// What parsing gives for each outcome of reading the source at `source`:
/// the representation of the document that was read, `NotFound` where
/// nothing was there, `MalformedInput` where it could not be decoded.
pub open spec fn openapi_outcome(source: Seq<char>, input: SourceInput) -> Result<
    SchemaIRView,
    ErrorView,
> {
    match input {
        SourceInput::Missing => Err(ErrorView::NotFound { path: source }),
        SourceInput::Undecodable { cause } => Err(
            ErrorView::MalformedInput { path: source, cause: cause@ },
        ),
        SourceInput::Document(document) => Ok(document_ir(document)),
    }
}

/// Parsing fails only where there is nothing to read or what is there
/// cannot be decoded: a document that was read always has a representation,
/// whatever its references point to.
pub proof fn lemma_document_parses(source: Seq<char>, input: SourceInput)
    ensures
        openapi_outcome(source, input) is Ok <==> input is Document,
        openapi_outcome(source, input) matches Err(ErrorView::NotFound { path }) ==> input
            is Missing && path == source,
        openapi_outcome(source, input) matches Err(ErrorView::MalformedInput { path, cause })
            ==> input is Undecodable && path == source,
        input is Missing ==> openapi_outcome(source, input) == Err::<SchemaIRView, ErrorView>(
            ErrorView::NotFound { path: source },
        ),
{
}

fn copy_entries(entries: &Vec<JsonEntry>) -> (copy: Vec<JsonEntry>)
    ensures
        copy.deep_view() == entries.deep_view(),
{
    let mut copy: Vec<JsonEntry> = Vec::new();
    let mut i: usize = 0;
    while i < entries.len()
        invariant
            i <= entries.len(),
            copy.len() == i,
            forall|k: int| 0 <= k < i ==> copy@[k]@ == entries@[k]@,
        decreases entries.len() - i,
    {
        copy.push(JsonEntry { key: entries[i].key.clone(), value: entries[i].value.clone() });
        i += 1;
    }
    assert(copy.deep_view() =~= entries.deep_view());
    copy
}

/// The document-level extensions under their namespaced keys.
pub fn extract_global_extensions(document: &SourceDocument) -> (extensions: Vec<JsonEntry>)
    ensures
        extensions.deep_view() == global_extensions(document.extensions@),
{
    let entries = &document.extensions;
    let mut extensions: Vec<JsonEntry> = Vec::new();
    let mut i: usize = 0;
    while i < entries.len()
        invariant
            i <= entries.len(),
            extensions.len() == i,
            forall|k: int|
                0 <= k < i ==> extensions@[k]@ == global_extensions(entries@)[k],
        decreases entries.len() - i,
    {
        let mut key = String::from_str("openapi.");
        key.append(entries[i].key.as_str());
        extensions.push(JsonEntry { key, value: entries[i].value.clone() });
        i += 1;
    }
    assert(extensions.deep_view() =~= global_extensions(entries@));
    extensions
}

/// Builds the intermediate representation of a document.
pub fn build_ir(document: &SourceDocument) -> (ir: SchemaIR)
    ensures
        ir@ == document_ir(*document),
{
    SchemaIR {
        metadata: Metadata {
            title: document.title.clone(),
            version: document.version.clone(),
            description: clone_opt_text(&document.description),
            base_url: if document.server_urls.len() > 0 {
                Some(document.server_urls[0].clone())
            } else {
                None
            },
            custom: copy_entries(&document.info_extensions),
        },
        schemas: extract_schemas(document),
        operations: extract_operations(document),
        original: OriginalData {
            format: String::from_str("openapi"),
            data: document.original.clone(),
            extensions: extract_global_extensions(document),
        },
    }
}

/// The parser for OpenAPI documents.
#[derive(Debug, Clone, Copy)]
pub struct OpenApiParser;

impl OpenApiParser {
    /// How a source with the file extension `extension` is written: strict
    /// JSON where the extension is `json`, YAML otherwise.
    pub open spec fn syntax_of(extension: Option<Seq<char>>) -> SourceSyntax {
        if extension == Some("json"@) {
            SourceSyntax::Json
        } else {
            SourceSyntax::Yaml
        }
    }

    /// The syntax by which to decode a source with the given file extension.
    pub fn source_syntax(extension: Option<&str>) -> (syntax: SourceSyntax)
        ensures
            syntax == Self::syntax_of(
                match extension {
                    Some(e) => Some(e@),
                    None => None,
                },
            ),
    {
        match extension {
            Some(e) => {
                if same_text(e, "json") {
                    SourceSyntax::Json
                } else {
                    SourceSyntax::Yaml
                }
            },
            None => SourceSyntax::Yaml,
        }
    }
}

impl InputParser for OpenApiParser {
    open spec fn name(&self) -> Seq<char> {
        "openapi"@
    }

    open spec fn extensions(&self) -> Seq<Seq<char>> {
        seq!["yaml"@, "yml"@, "json"@]
    }

    open spec fn outcome(&self, source: Seq<char>, input: SourceInput) -> Result<
        SchemaIRView,
        ErrorView,
    > {
        openapi_outcome(source, input)
    }

    fn format_name(&self) -> (name: String) {
        String::from_str("openapi")
    }

    fn supported_extensions(&self) -> (list: Vec<String>) {
        let mut list: Vec<String> = Vec::new();
        list.push(String::from_str("yaml"));
        list.push(String::from_str("yml"));
        list.push(String::from_str("json"));
        assert(list.deep_view() =~= seq!["yaml"@, "yml"@, "json"@]);
        list
    }

    fn parse(&self, source: &str, input: &SourceInput, options: &Vec<JsonEntry>) -> (result: Result<
        SchemaIR,
        Error,
    >) {
        match input {
            SourceInput::Missing => Err(Error::NotFound { path: String::from_str(source) }),
            SourceInput::Undecodable { cause } => Err(
                Error::MalformedInput { path: String::from_str(source), cause: cause.clone() },
            ),
            SourceInput::Document(document) => Ok(build_ir(document)),
        }
    }
}

} // verus!
