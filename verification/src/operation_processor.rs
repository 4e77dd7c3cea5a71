//! Operations processed for direct use: every operation with its
//! parameters, its request body and its responses, each with a coarse type.

use vstd::prelude::*;
use vstd::string::*;
use crate::parsers::openapi_parser::{synthesize_operation_id, synthesized_id};
use crate::parsers::schema_ir::HttpMethod;
use crate::parsers::source::{
    reference_name, schema_name_of, RefOr, SourceDocument, SourceMediaType, SourceOperation,
    SourceParameter, SourceParameterFormat, SourcePath, SourcePathItem, SourceRequestBody,
    SourceSchema, SourceSchemaKind, SourceStatusResponse,
};
use crate::text::{clone_opt_text, lemma_deep_view_push};

verus! {

/// An operation with what is declared for it.
#[derive(Debug, Clone)]
pub struct ProcessedOperation {
    pub id: String,
    /// The method in small letters.
    pub method: String,
    pub path: String,
    pub summary: Option<String>,
    pub description: Option<String>,
    pub parameters: Vec<ProcessedParameter>,
    pub request_body: Option<ProcessedRequestBody>,
    pub responses: Vec<ProcessedResponse>,
}

/// The mathematical view of `ProcessedOperation`: texts as sequences of characters, lists as sequences.
pub struct ProcessedOperationView {
    pub id: Seq<char>,
    pub method: Seq<char>,
    pub path: Seq<char>,
    pub summary: Option<Seq<char>>,
    pub description: Option<Seq<char>>,
    pub parameters: Seq<ProcessedParameterView>,
    pub request_body: Option<ProcessedRequestBodyView>,
    pub responses: Seq<ProcessedResponseView>,
}

impl View for ProcessedOperation {
    type V = ProcessedOperationView;

    open spec fn view(&self) -> ProcessedOperationView {
        ProcessedOperationView {
            id: self.id@,
            method: self.method@,
            path: self.path@,
            summary: self.summary.deep_view(),
            description: self.description.deep_view(),
            parameters: self.parameters.deep_view(),
            request_body: self.request_body.deep_view(),
            responses: self.responses.deep_view(),
        }
    }
}

impl DeepView for ProcessedOperation {
    type V = ProcessedOperationView;

    open spec fn deep_view(&self) -> ProcessedOperationView {
        self.view()
    }
}

/// A parameter with its coarse type.
#[derive(Debug, Clone)]
pub struct ProcessedParameter {
    pub name: String,
    /// One of `query`, `path`, `header`, `cookie`.
    pub location: String,
    pub required: bool,
    pub schema_type: String,
    pub description: Option<String>,
}

/// The mathematical view of `ProcessedParameter`: texts as sequences of characters, lists as sequences.
pub struct ProcessedParameterView {
    pub name: Seq<char>,
    pub location: Seq<char>,
    pub required: bool,
    pub schema_type: Seq<char>,
    pub description: Option<Seq<char>>,
}

impl View for ProcessedParameter {
    type V = ProcessedParameterView;

    open spec fn view(&self) -> ProcessedParameterView {
        ProcessedParameterView {
            name: self.name@,
            location: self.location@,
            required: self.required,
            schema_type: self.schema_type@,
            description: self.description.deep_view(),
        }
    }
}

impl DeepView for ProcessedParameter {
    type V = ProcessedParameterView;

    open spec fn deep_view(&self) -> ProcessedParameterView {
        self.view()
    }
}

/// A request body with the schema of its content.
#[derive(Debug, Clone)]
pub struct ProcessedRequestBody {
    pub required: bool,
    pub content_type: String,
    /// The name of the schema that the body refers to.
    pub schema_ref: Option<String>,
    pub schema_type: Option<String>,
}

/// The mathematical view of `ProcessedRequestBody`: texts as sequences of characters, lists as sequences.
pub struct ProcessedRequestBodyView {
    pub required: bool,
    pub content_type: Seq<char>,
    pub schema_ref: Option<Seq<char>>,
    pub schema_type: Option<Seq<char>>,
}

impl View for ProcessedRequestBody {
    type V = ProcessedRequestBodyView;

    open spec fn view(&self) -> ProcessedRequestBodyView {
        ProcessedRequestBodyView {
            required: self.required,
            content_type: self.content_type@,
            schema_ref: self.schema_ref.deep_view(),
            schema_type: self.schema_type.deep_view(),
        }
    }
}

impl DeepView for ProcessedRequestBody {
    type V = ProcessedRequestBodyView;

    open spec fn deep_view(&self) -> ProcessedRequestBodyView {
        self.view()
    }
}

/// A response with the schema of its content.
#[derive(Debug, Clone)]
pub struct ProcessedResponse {
    pub status_code: String,
    pub description: String,
    pub content_type: Option<String>,
    /// The name of the schema that the content, or each of its elements,
    /// refers to.
    pub schema_ref: Option<String>,
    pub schema_type: Option<String>,
    /// Whether the content is an array.
    pub is_array: bool,
}

/// The mathematical view of `ProcessedResponse`: texts as sequences of characters, lists as sequences.
pub struct ProcessedResponseView {
    pub status_code: Seq<char>,
    pub description: Seq<char>,
    pub content_type: Option<Seq<char>>,
    pub schema_ref: Option<Seq<char>>,
    pub schema_type: Option<Seq<char>>,
    pub is_array: bool,
}

impl View for ProcessedResponse {
    type V = ProcessedResponseView;

    open spec fn view(&self) -> ProcessedResponseView {
        ProcessedResponseView {
            status_code: self.status_code@,
            description: self.description@,
            content_type: self.content_type.deep_view(),
            schema_ref: self.schema_ref.deep_view(),
            schema_type: self.schema_type.deep_view(),
            is_array: self.is_array,
        }
    }
}

impl DeepView for ProcessedResponse {
    type V = ProcessedResponseView;

    open spec fn deep_view(&self) -> ProcessedResponseView {
        self.view()
    }
}

/// The coarse type of an inline schema.
pub open spec fn kind_tag(schema: SourceSchema) -> Seq<char> {
    match schema.kind {
        SourceSchemaKind::String { .. } => "string"@,
        SourceSchemaKind::Number { .. } => "number"@,
        SourceSchemaKind::Integer { .. } => "integer"@,
        SourceSchemaKind::Boolean => "boolean"@,
        SourceSchemaKind::Array { .. } => "array"@,
        SourceSchemaKind::Object { .. } => "object"@,
        SourceSchemaKind::Other => "any"@,
    }
}

/// The coarse type of a parameter: that of its inline schema where it is a
/// primitive or an array, and `any` for everything else.
pub open spec fn parameter_type(format: SourceParameterFormat) -> Seq<char> {
    match format {
        SourceParameterFormat::Schema(RefOr::Item(schema)) => match schema.kind {
            SourceSchemaKind::Object { .. } => "any"@,
            _ => kind_tag(schema),
        },
        _ => "any"@,
    }
}

/// The processed form of an inline parameter.
pub open spec fn processed_parameter(parameter: SourceParameter) -> ProcessedParameterView {
    ProcessedParameterView {
        name: parameter.name@,
        location: parameter.location.lower_name(),
        required: parameter.required,
        schema_type: parameter_type(parameter.format),
        description: parameter.description.deep_view(),
    }
}

/// The processed parameters of an operation: one for each inline
/// parameter, in order; references are passed over.
pub open spec fn processed_parameters(parameters: Seq<RefOr<SourceParameter>>) -> Seq<
    ProcessedParameterView,
>
    decreases parameters.len(),
{
    if parameters.len() == 0 {
        Seq::empty()
    } else {
        let rest = processed_parameters(parameters.drop_last());
        match parameters.last() {
            RefOr::Reference { .. } => rest,
            RefOr::Item(parameter) => rest.push(processed_parameter(parameter)),
        }
    }
}

/// The schema name and coarse type of a media type's schema, if it has one:
/// a reference gives the name it points to and the type `object`, an inline
/// schema gives no name and its own coarse type.
pub open spec fn schema_info(media_type: SourceMediaType) -> Option<
    (Option<Seq<char>>, Option<Seq<char>>),
> {
    match media_type.schema {
        Some(RefOr::Reference { reference }) => Some(
            (Some(reference_name(reference@)), Some("object"@)),
        ),
        Some(RefOr::Item(schema)) => Some((None, Some(kind_tag(schema)))),
        None => None,
    }
}

/// The same, and whether the schema is an array. Of an array it is the
/// elements that are looked at: elements by reference give the name they
/// point to and the type `object`, any other elements give no name and the
/// type `any`.
pub open spec fn schema_info_with_array(media_type: SourceMediaType) -> Option<
    (Option<Seq<char>>, Option<Seq<char>>, bool),
> {
    match media_type.schema {
        Some(RefOr::Reference { reference }) => Some(
            (Some(reference_name(reference@)), Some("object"@), false),
        ),
        Some(RefOr::Item(schema)) => match schema.kind {
            SourceSchemaKind::Array { items } => match items {
                Some(item) => match *item {
                    RefOr::Reference { reference } => Some(
                        (Some(reference_name(reference@)), Some("object"@), true),
                    ),
                    RefOr::Item(_) => Some((None, Some("any"@), true)),
                },
                None => Some((None, Some("any"@), true)),
            },
            _ => Some((None, Some(kind_tag(schema)), false)),
        },
        None => None,
    }
}

/// The processed form of a request body; a body by reference has none. The
/// content type is that of the first content entry, and `application/json`
/// where the body has no content.
pub open spec fn processed_request_body(body: RefOr<SourceRequestBody>) -> Option<
    ProcessedRequestBodyView,
> {
    match body {
        RefOr::Reference { .. } => None,
        RefOr::Item(inline) => {
            let info = if inline.content@.len() > 0 {
                schema_info(inline.content@[0])
            } else {
                None
            };
            Some(
                ProcessedRequestBodyView {
                    required: inline.required,
                    content_type: if inline.content@.len() > 0 {
                        inline.content@[0].content_type@
                    } else {
                        "application/json"@
                    },
                    schema_ref: match info {
                        Some(found) => found.0,
                        None => None,
                    },
                    schema_type: match info {
                        Some(found) => found.1,
                        None => None,
                    },
                },
            )
        },
    }
}

/// The processed form of a response under a status code; a response by
/// reference has none. The content type is that of the first content
/// entry.
pub open spec fn processed_response(entry: SourceStatusResponse) -> Option<ProcessedResponseView> {
    match entry.response {
        RefOr::Reference { .. } => None,
        RefOr::Item(inline) => {
            let info = if inline.content@.len() > 0 {
                schema_info_with_array(inline.content@[0])
            } else {
                None
            };
            Some(
                ProcessedResponseView {
                    status_code: entry.status@,
                    description: inline.description@,
                    content_type: if inline.content@.len() > 0 {
                        Some(inline.content@[0].content_type@)
                    } else {
                        None
                    },
                    schema_ref: match info {
                        Some(found) => found.0,
                        None => None,
                    },
                    schema_type: match info {
                        Some(found) => found.1,
                        None => None,
                    },
                    is_array: match info {
                        Some(found) => found.2,
                        None => false,
                    },
                },
            )
        },
    }
}

/// The processed responses of an operation, in order; responses by
/// reference are passed over.
pub open spec fn processed_responses(responses: Seq<SourceStatusResponse>) -> Seq<
    ProcessedResponseView,
>
    decreases responses.len(),
{
    if responses.len() == 0 {
        Seq::empty()
    } else {
        let rest = processed_responses(responses.drop_last());
        match processed_response(responses.last()) {
            Some(processed) => rest.push(processed),
            None => rest,
        }
    }
}

/// The processed form of an operation declared under `path` for `method`,
/// the method's name in small letters.
pub open spec fn processed_operation(
    operation: SourceOperation,
    method: Seq<char>,
    path: Seq<char>,
) -> ProcessedOperationView {
    ProcessedOperationView {
        id: match operation.operation_id {
            Some(id) => id@,
            None => synthesized_id(method, path),
        },
        method,
        path,
        summary: operation.summary.deep_view(),
        description: operation.description.deep_view(),
        parameters: processed_parameters(operation.parameters@),
        request_body: match operation.request_body {
            Some(body) => processed_request_body(body),
            None => None,
        },
        responses: processed_responses(operation.responses@),
    }
}

/// The processed operations of one method slot: one if the slot is filled.
pub open spec fn processed_slot(
    path: Seq<char>,
    method: HttpMethod,
    slot: Option<SourceOperation>,
) -> Seq<ProcessedOperationView> {
    match slot {
        Some(operation) => seq![processed_operation(operation, method.lower_name(), path)],
        None => Seq::empty(),
    }
}

/// The processed operations of one path, in the order get, post, put,
/// delete, patch. Other methods are not processed.
pub open spec fn processed_path_item(path: Seq<char>, item: SourcePathItem) -> Seq<
    ProcessedOperationView,
> {
    processed_slot(path, HttpMethod::Get, item.get) + processed_slot(
        path,
        HttpMethod::Post,
        item.post,
    ) + processed_slot(path, HttpMethod::Put, item.put) + processed_slot(
        path,
        HttpMethod::Delete,
        item.delete,
    ) + processed_slot(path, HttpMethod::Patch, item.patch)
}

/// The processed operations of a path entry; a path by reference has none.
pub open spec fn processed_path(path: SourcePath) -> Seq<ProcessedOperationView> {
    match path.item {
        RefOr::Reference { .. } => Seq::empty(),
        RefOr::Item(item) => processed_path_item(path.path@, item),
    }
}

/// The processed operations of all paths, in path order.
pub open spec fn processed_operations(paths: Seq<SourcePath>) -> Seq<ProcessedOperationView>
    decreases paths.len(),
{
    if paths.len() == 0 {
        Seq::empty()
    } else {
        processed_operations(paths.drop_last()) + processed_path(paths.last())
    }
}

fn kind_tag_of(schema: &SourceSchema) -> (tag: &'static str)
    ensures
        tag@ == kind_tag(*schema),
{
    match &schema.kind {
        SourceSchemaKind::String { .. } => "string",
        SourceSchemaKind::Number { .. } => "number",
        SourceSchemaKind::Integer { .. } => "integer",
        SourceSchemaKind::Boolean => "boolean",
        SourceSchemaKind::Array { .. } => "array",
        SourceSchemaKind::Object { .. } => "object",
        SourceSchemaKind::Other => "any",
    }
}

/// The coarse type of a parameter.
pub fn extract_parameter_type(format: &SourceParameterFormat) -> (tag: String)
    ensures
        tag@ == parameter_type(*format),
{
    match format {
        SourceParameterFormat::Schema(RefOr::Item(schema)) => match &schema.kind {
            SourceSchemaKind::Object { .. } => String::from_str("any"),
            _ => String::from_str(kind_tag_of(schema)),
        },
        _ => String::from_str("any"),
    }
}

/// Processes a parameter; a parameter by reference gives nothing.
pub fn process_parameter(param_ref: &RefOr<SourceParameter>) -> (processed: Option<
    ProcessedParameter,
>)
    ensures
        processed.deep_view() == match *param_ref {
            RefOr::Reference { .. } => None,
            RefOr::Item(parameter) => Some(processed_parameter(parameter)),
        },
{
    match param_ref {
        RefOr::Item(parameter) => Some(
            ProcessedParameter {
                name: parameter.name.clone(),
                location: String::from_str(parameter.location.as_lower()),
                required: parameter.required,
                schema_type: extract_parameter_type(&parameter.format),
                description: clone_opt_text(&parameter.description),
            },
        ),
        RefOr::Reference { .. } => None,
    }
}

/// The schema name and coarse type of a media type's schema.
pub fn extract_schema_info(media_type: &SourceMediaType) -> (info: Option<
    (Option<String>, Option<String>),
>)
    ensures
        info.deep_view() == schema_info(*media_type),
{
    match &media_type.schema {
        Some(RefOr::Reference { reference }) => Some(
            (Some(schema_name_of(reference.as_str())), Some(String::from_str("object"))),
        ),
        Some(RefOr::Item(schema)) => Some((None, Some(String::from_str(kind_tag_of(schema))))),
        None => None,
    }
}

/// The schema name and coarse type of a media type's schema, and whether
/// the schema is an array.
pub fn extract_schema_info_with_array(media_type: &SourceMediaType) -> (info: Option<
    (Option<String>, Option<String>, bool),
>)
    ensures
        info.deep_view() == schema_info_with_array(*media_type),
{
    match &media_type.schema {
        Some(RefOr::Reference { reference }) => Some(
            (Some(schema_name_of(reference.as_str())), Some(String::from_str("object")), false),
        ),
        Some(RefOr::Item(schema)) => match &schema.kind {
            SourceSchemaKind::Array { items } => match items {
                Some(item) => match &**item {
                    RefOr::Reference { reference } => Some(
                        (
                            Some(schema_name_of(reference.as_str())),
                            Some(String::from_str("object")),
                            true,
                        ),
                    ),
                    RefOr::Item(_) => Some((None, Some(String::from_str("any")), true)),
                },
                None => Some((None, Some(String::from_str("any")), true)),
            },
            _ => Some((None, Some(String::from_str(kind_tag_of(schema))), false)),
        },
        None => None,
    }
}

/// Processes a request body; a body by reference gives nothing.
pub fn process_request_body(body_ref: &RefOr<SourceRequestBody>) -> (processed: Option<
    ProcessedRequestBody,
>)
    ensures
        processed.deep_view() == processed_request_body(*body_ref),
{
    match body_ref {
        RefOr::Item(body) => {
            if body.content.len() > 0 {
                let first = &body.content[0];
                let (schema_ref, schema_type) = match extract_schema_info(first) {
                    Some(found) => found,
                    None => (None, None),
                };
                Some(
                    ProcessedRequestBody {
                        required: body.required,
                        content_type: first.content_type.clone(),
                        schema_ref,
                        schema_type,
                    },
                )
            } else {
                Some(
                    ProcessedRequestBody {
                        required: body.required,
                        content_type: String::from_str("application/json"),
                        schema_ref: None,
                        schema_type: None,
                    },
                )
            }
        },
        RefOr::Reference { .. } => None,
    }
}

/// Processes a response; a response by reference gives nothing.
pub fn process_response(entry: &SourceStatusResponse) -> (processed: Option<ProcessedResponse>)
    ensures
        processed.deep_view() == processed_response(*entry),
{
    match &entry.response {
        RefOr::Item(response) => {
            if response.content.len() > 0 {
                let first = &response.content[0];
                let (schema_ref, schema_type, is_array) = match extract_schema_info_with_array(
                    first,
                ) {
                    Some(found) => found,
                    None => (None, None, false),
                };
                Some(
                    ProcessedResponse {
                        status_code: entry.status.clone(),
                        description: response.description.clone(),
                        content_type: Some(first.content_type.clone()),
                        schema_ref,
                        schema_type,
                        is_array,
                    },
                )
            } else {
                Some(
                    ProcessedResponse {
                        status_code: entry.status.clone(),
                        description: response.description.clone(),
                        content_type: None,
                        schema_ref: None,
                        schema_type: None,
                        is_array: false,
                    },
                )
            }
        },
        RefOr::Reference { .. } => None,
    }
}

fn process_parameters(parameters: &Vec<RefOr<SourceParameter>>) -> (processed: Vec<
    ProcessedParameter,
>)
    ensures
        processed.deep_view() == processed_parameters(parameters@),
{
    let mut processed: Vec<ProcessedParameter> = Vec::new();
    let mut i: usize = 0;
    assert(parameters@.take(0) =~= Seq::empty());
    assert(processed.deep_view() =~= Seq::empty());
    while i < parameters.len()
        invariant
            i <= parameters.len(),
            processed.deep_view() == processed_parameters(parameters@.take(i as int)),
        decreases parameters.len() - i,
    {
        proof {
            assert(parameters@.take(i + 1).drop_last() =~= parameters@.take(i as int));
        }
        if let Some(made) = process_parameter(&parameters[i]) {
            let ghost before = processed;
            processed.push(made);
            proof {
                lemma_deep_view_push(before, processed, made);
            }
        }
        i += 1;
    }
    assert(parameters@.take(i as int) =~= parameters@);
    processed
}

fn process_responses(responses: &Vec<SourceStatusResponse>) -> (processed: Vec<ProcessedResponse>)
    ensures
        processed.deep_view() == processed_responses(responses@),
{
    let mut processed: Vec<ProcessedResponse> = Vec::new();
    let mut i: usize = 0;
    assert(responses@.take(0) =~= Seq::empty());
    assert(processed.deep_view() =~= Seq::empty());
    while i < responses.len()
        invariant
            i <= responses.len(),
            processed.deep_view() == processed_responses(responses@.take(i as int)),
        decreases responses.len() - i,
    {
        proof {
            assert(responses@.take(i + 1).drop_last() =~= responses@.take(i as int));
        }
        if let Some(made) = process_response(&responses[i]) {
            let ghost before = processed;
            processed.push(made);
            proof {
                lemma_deep_view_push(before, processed, made);
            }
        }
        i += 1;
    }
    assert(responses@.take(i as int) =~= responses@);
    processed
}

/// Processes one operation; `method` is the method's name in small letters.
pub fn process_operation(operation: &SourceOperation, method: String, path: String) -> (processed:
    ProcessedOperation)
    ensures
        processed@ == processed_operation(*operation, method@, path@),
{
    let id = match &operation.operation_id {
        Some(id) => id.clone(),
        None => synthesize_operation_id(method.as_str(), path.as_str()),
    };
    let request_body = match &operation.request_body {
        Some(body) => process_request_body(body),
        None => None,
    };
    ProcessedOperation {
        id,
        method,
        path,
        summary: clone_opt_text(&operation.summary),
        description: clone_opt_text(&operation.description),
        parameters: process_parameters(&operation.parameters),
        request_body,
        responses: process_responses(&operation.responses),
    }
}

fn process_slot(
    path: &str,
    method: HttpMethod,
    slot: &Option<SourceOperation>,
    operations: &mut Vec<ProcessedOperation>,
)
    ensures
        final(operations).deep_view() == old(operations).deep_view() + processed_slot(
            path@,
            method,
            *slot,
        ),
{
    let ghost before = *operations;
    match slot {
        Some(operation) => {
            let made = process_operation(
                operation,
                String::from_str(method.as_lower()),
                String::from_str(path),
            );
            operations.push(made);
            proof {
                lemma_deep_view_push(before, *operations, made);
                assert(before.deep_view().push(made@) =~= before.deep_view() + seq![made@]);
            }
        },
        None => {
            assert(before.deep_view() + Seq::empty() =~= before.deep_view());
        },
    }
}

fn process_path_item(path: &str, item: &SourcePathItem, operations: &mut Vec<ProcessedOperation>)
    ensures
        final(operations).deep_view() == old(operations).deep_view() + processed_path_item(
            path@,
            *item,
        ),
{
    let ghost s0 = operations.deep_view();
    process_slot(path, HttpMethod::Get, &item.get, operations);
    let ghost s1 = operations.deep_view();
    process_slot(path, HttpMethod::Post, &item.post, operations);
    let ghost s2 = operations.deep_view();
    process_slot(path, HttpMethod::Put, &item.put, operations);
    let ghost s3 = operations.deep_view();
    process_slot(path, HttpMethod::Delete, &item.delete, operations);
    let ghost s4 = operations.deep_view();
    process_slot(path, HttpMethod::Patch, &item.patch, operations);
    proof {
        let a = processed_slot(path@, HttpMethod::Get, item.get);
        let b = processed_slot(path@, HttpMethod::Post, item.post);
        let c = processed_slot(path@, HttpMethod::Put, item.put);
        let d = processed_slot(path@, HttpMethod::Delete, item.delete);
        let e = processed_slot(path@, HttpMethod::Patch, item.patch);
        assert(s2 =~= s0 + (a + b));
        assert(s3 =~= s0 + (a + b + c));
        assert(s4 =~= s0 + (a + b + c + d));
        assert(operations.deep_view() =~= s0 + (a + b + c + d + e));
    }
}

/// Processes the operations of a document.
pub fn extract_operations(document: &SourceDocument) -> (operations: Vec<ProcessedOperation>)
    ensures
        operations.deep_view() == processed_operations(document.paths@),
{
    let paths = &document.paths;
    let mut operations: Vec<ProcessedOperation> = Vec::new();
    let mut i: usize = 0;
    assert(paths@.take(0) =~= Seq::empty());
    assert(operations.deep_view() =~= Seq::empty());
    while i < paths.len()
        invariant
            i <= paths.len(),
            operations.deep_view() == processed_operations(paths@.take(i as int)),
        decreases paths.len() - i,
    {
        proof {
            assert(paths@.take(i + 1).drop_last() =~= paths@.take(i as int));
        }
        let ghost before = operations.deep_view();
        if let RefOr::Item(item) = &paths[i].item {
            process_path_item(paths[i].path.as_str(), item, &mut operations);
        } else {
            assert(before + Seq::empty() =~= before);
        }
        i += 1;
    }
    assert(paths@.take(i as int) =~= paths@);
    operations
}

} // verus!
