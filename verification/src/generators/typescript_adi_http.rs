//! The generator of routes for the ADI HTTP wire protocol, which writes its
//! text itself.

use std::collections::HashMap;
use vstd::prelude::*;
use vstd::string::*;
use crate::config::schema::{
    option_bool, option_text, read_bool_option, read_text_option, ConfigOptionView,
    GenerationConfig, GenerationConfigView,
};
use crate::error::{Error, ErrorView};
use crate::generators::{GeneratedOutput, GeneratedOutputView, Generation, GenerationView, Generator};
use crate::parsers::schema_ir::{
    FieldDefinition, FieldDefinitionView, OperationDefinition, OperationDefinitionView, Parameter,
    ParameterLocation, ParameterView, SchemaDefinition, SchemaDefinitionView, SchemaIR,
    SchemaIRView, TypeInfo,
};
use crate::projection::{wire_type, zod_array_text, zod_enum_text};
use crate::text::{concat_all, lemma_concat_all_take, same_text};

verus! {

/// The generator of ADI HTTP routes.
#[derive(Debug, Clone, Copy)]
pub struct TypeScriptAdiHttpGenerator;

/// The wire target's projection of a type node. It differs from the
/// validation target's on purpose: a reference gets the suffix `Schema`, a
/// date is a strict datetime string, an integer is checked to be one, and an
/// object is a record.
pub fn type_info_to_zod(type_info: &TypeInfo) -> (out: String)
    ensures
        out@ == wire_type(type_info@),
    decreases type_info,
{
    if type_info.is_array {
        return match &type_info.array_item_type {
            Some(item) => zod_array_text(type_info_to_zod(item)),
            None => zod_array_text(String::from_str("z.any()")),
        };
    }
    if let Some(name) = &type_info.reference {
        let mut out = name.clone();
        out.append("Schema");
        return out;
    }
    if let Some(values) = &type_info.enum_values {
        return zod_enum_text(values);
    }
    let kind = type_info.openapi_type.as_str();
    if same_text(kind, "string") {
        match &type_info.format {
            Some(format) => {
                let format = format.as_str();
                if same_text(format, "email") {
                    String::from_str("z.string().email()")
                } else if same_text(format, "uuid") {
                    String::from_str("z.string().uuid()")
                } else if same_text(format, "uri") || same_text(format, "url") {
                    String::from_str("z.string().url()")
                } else if same_text(format, "date") || same_text(format, "date-time") {
                    String::from_str("z.string().datetime()")
                } else {
                    String::from_str("z.string()")
                }
            },
            None => String::from_str("z.string()"),
        }
    } else if same_text(kind, "integer") {
        String::from_str("z.number().int()")
    } else if same_text(kind, "number") {
        String::from_str("z.number()")
    } else if same_text(kind, "boolean") {
        String::from_str("z.boolean()")
    } else if same_text(kind, "object") {
        String::from_str("z.record(z.any())")
    } else {
        String::from_str("z.any()")
    }
}

/// The validation expression of a query or path parameter of the coarse
/// type `schema_type`: numbers and truth values are coerced from text.
pub open spec fn param_zod(schema_type: Seq<char>) -> Seq<char> {
    if schema_type == "integer"@ {
        "z.coerce.number().int()"@
    } else if schema_type == "number"@ {
        "z.coerce.number()"@
    } else if schema_type == "boolean"@ {
        "z.coerce.boolean()"@
    } else {
        "z.string()"@
    }
}

/// The validation expression of a query or path parameter.
pub fn param_type_to_zod(schema_type: &str) -> (out: String)
    ensures
        out@ == param_zod(schema_type@),
{
    if same_text(schema_type, "integer") {
        String::from_str("z.coerce.number().int()")
    } else if same_text(schema_type, "number") {
        String::from_str("z.coerce.number()")
    } else if same_text(schema_type, "boolean") {
        String::from_str("z.coerce.boolean()")
    } else {
        String::from_str("z.string()")
    }
}

/// The line that sets off a section of the generated text.
pub const RULE: &'static str =
    "// ============================================================================\n";

/// What the generator reads from the free-form options.
#[derive(Debug, Clone)]
pub struct AdiOptions {
    /// Whether to write the server-side router.
    pub include_server: bool,
    pub router_name: String,
    /// Whether to write the client.
    pub include_client: bool,
    pub client_name: String,
    /// The environment variable that holds the base URL at run time.
    pub base_url_env: String,
}

/// The mathematical view of `AdiOptions`: texts as sequences of characters, lists as sequences.
pub struct AdiOptionsView {
    pub include_server: bool,
    pub router_name: Seq<char>,
    pub include_client: bool,
    pub client_name: Seq<char>,
    pub base_url_env: Seq<char>,
}

impl View for AdiOptions {
    type V = AdiOptionsView;

    open spec fn view(&self) -> AdiOptionsView {
        AdiOptionsView {
            include_server: self.include_server,
            router_name: self.router_name@,
            include_client: self.include_client,
            client_name: self.client_name@,
            base_url_env: self.base_url_env@,
        }
    }
}

/// The generator's reading of the free-form options: both sections are
/// written unless switched off, and each name has a default.
pub open spec fn adi_options_of(options: Seq<ConfigOptionView>) -> AdiOptionsView {
    AdiOptionsView {
        include_server: option_bool(options, "includeServer"@, true),
        router_name: option_text(options, "routerName"@, "apiRouter"@),
        include_client: option_bool(options, "includeClient"@, true),
        client_name: option_text(options, "clientName"@, "apiClient"@),
        base_url_env: option_text(options, "baseUrlEnvVar"@, "API_BASE_URL"@),
    }
}

/// Reads the generator's options from a configuration.
pub fn read_options(config: &GenerationConfig) -> (options: AdiOptions)
    ensures
        options@ == adi_options_of(config@.options),
{
    AdiOptions {
        include_server: read_bool_option(&config.options, "includeServer", true),
        router_name: read_text_option(&config.options, "routerName", "apiRouter"),
        include_client: read_bool_option(&config.options, "includeClient", true),
        client_name: read_text_option(&config.options, "clientName", "apiClient"),
        base_url_env: read_text_option(&config.options, "baseUrlEnvVar", "API_BASE_URL"),
    }
}

/// The top of the file: what it was generated for, and its imports.
pub open spec fn header_text(ir: SchemaIRView) -> Seq<char> {
    "// Generated ADI HTTP Routes for "@ + ir.metadata.title + "\n"@ + "// Version: "@
        + ir.metadata.version + "\n\n"@ + "import { z } from 'zod';\n"@
        + "import { createRoute, createRouter, createClient } from '@adi-family/http';\n\n"@
}

/// The heading of a section.
pub open spec fn heading_text(title: Seq<char>) -> Seq<char> {
    RULE@ + "// "@ + title + "\n"@ + RULE@ + "\n"@
}

/// The suffix that marks what may be left out.
pub open spec fn optional_suffix(required: bool) -> Seq<char> {
    if required {
        Seq::empty()
    } else {
        ".optional()"@
    }
}

/// The line of one field in a schema object, after its description if it
/// has one.
pub open spec fn field_text(field: FieldDefinitionView) -> Seq<char> {
    (match field.description {
        Some(description) => "  /** "@ + description + " */\n"@,
        None => Seq::empty(),
    }) + "  "@ + field.name + ": "@ + wire_type(field.type_info) + optional_suffix(field.required)
        + ",\n"@
}

/// The lines of all fields, in order.
pub open spec fn field_texts(fields: Seq<FieldDefinitionView>) -> Seq<Seq<char>> {
    Seq::new(fields.len(), |i: int| field_text(fields[i]))
}

/// The declaration of one schema: the validation object and the type
/// inferred from it.
pub open spec fn schema_text(schema: SchemaDefinitionView) -> Seq<char> {
    (match schema.description {
        Some(description) => "// "@ + description + "\n"@,
        None => Seq::empty(),
    }) + "export const "@ + schema.name + "Schema = z.object({\n"@ + concat_all(
        field_texts(schema.fields),
    ) + "});\n\n"@ + "export type "@ + schema.name + " = z.infer<typeof "@ + schema.name
        + "Schema>;\n\n"@
}

/// The declarations of all schemas, in order.
pub open spec fn schema_texts(schemas: Seq<SchemaDefinitionView>) -> Seq<Seq<char>> {
    Seq::new(schemas.len(), |i: int| schema_text(schemas[i]))
}

/// Whether one of `parameters` is at `location`.
pub open spec fn has_location(parameters: Seq<ParameterView>, location: ParameterLocation) -> bool {
    exists|i: int| 0 <= i < parameters.len() && (#[trigger] parameters[i]).location == location
}

/// The line of a parameter among the query parameters; nothing for a
/// parameter that is elsewhere.
pub open spec fn query_line(parameter: ParameterView) -> Seq<char> {
    if parameter.location == ParameterLocation::Query {
        "      "@ + parameter.name + ": "@ + param_zod(parameter.schema_type) + optional_suffix(
            parameter.required,
        ) + ",\n"@
    } else {
        Seq::empty()
    }
}

/// The query lines of all parameters, in order.
pub open spec fn query_lines(parameters: Seq<ParameterView>) -> Seq<Seq<char>> {
    Seq::new(parameters.len(), |i: int| query_line(parameters[i]))
}

/// The line of a parameter among the path parameters; nothing for a
/// parameter that is elsewhere.
pub open spec fn path_line(parameter: ParameterView) -> Seq<char> {
    if parameter.location == ParameterLocation::Path {
        "      "@ + parameter.name + ": "@ + param_zod(parameter.schema_type) + ",\n"@
    } else {
        Seq::empty()
    }
}

/// The path lines of all parameters, in order.
pub open spec fn path_lines(parameters: Seq<ParameterView>) -> Seq<Seq<char>> {
    Seq::new(parameters.len(), |i: int| path_line(parameters[i]))
}

/// The query object of a route; nothing where no parameter is in the query.
pub open spec fn query_block(parameters: Seq<ParameterView>) -> Seq<char> {
    if has_location(parameters, ParameterLocation::Query) {
        "    query: z.object({\n"@ + concat_all(query_lines(parameters)) + "    }).optional(),\n"@
    } else {
        Seq::empty()
    }
}

/// The params object of a route; nothing where no parameter is in the path.
pub open spec fn params_block(parameters: Seq<ParameterView>) -> Seq<char> {
    if has_location(parameters, ParameterLocation::Path) {
        "    params: z.object({\n"@ + concat_all(path_lines(parameters)) + "    }),\n"@
    } else {
        Seq::empty()
    }
}

/// The definition of one route.
pub open spec fn route_text(operation: OperationDefinitionView) -> Seq<char> {
    (match operation.description {
        Some(description) => "  // "@ + description + "\n"@,
        None => Seq::empty(),
    }) + "  "@ + operation.id + ": createRoute({\n"@ + "    method: '"@
        + operation.method.upper_name() + "',\n"@ + "    path: '"@ + operation.path + "',\n"@
        + query_block(operation.parameters) + params_block(operation.parameters)
        + (match operation.request_body {
        Some(body) => "    body: "@ + body.name + "Schema,\n"@,
        None => Seq::empty(),
    }) + (match operation.response {
        Some(response) => "    response: "@ + response.name + "Schema,\n"@,
        None => "    response: z.void(),\n"@,
    }) + "  }),\n\n"@
}

/// The definitions of all routes, in order.
pub open spec fn route_texts(operations: Seq<OperationDefinitionView>) -> Seq<Seq<char>> {
    Seq::new(operations.len(), |i: int| route_text(operations[i]))
}

/// The comment line that tells a handler where one parameter comes from.
pub open spec fn hint_line(parameter: ParameterView) -> Seq<char> {
    "    //   req."@ + parameter.location.lower_name() + ": "@ + parameter.schema_type + "\n"@
}

/// The hint lines of all parameters, in order.
pub open spec fn hint_lines(parameters: Seq<ParameterView>) -> Seq<Seq<char>> {
    Seq::new(parameters.len(), |i: int| hint_line(parameters[i]))
}

/// The handler stub of one route.
pub open spec fn handler_text(operation: OperationDefinitionView) -> Seq<char> {
    "  "@ + operation.id + ": async (req) => {\n"@ + "    // TODO: Implement handler\n"@ + (if operation.parameters.len()
        > 0 {
        "    // Request parameters:\n"@ + concat_all(hint_lines(operation.parameters))
    } else {
        Seq::empty()
    }) + (match operation.response {
        Some(response) => "    // Must return: "@ + response.name + "\n"@,
        None => Seq::empty(),
    }) + "    throw new Error('Not implemented');\n"@ + "  },\n\n"@
}

/// The handler stubs of all routes, in order.
pub open spec fn handler_texts(operations: Seq<OperationDefinitionView>) -> Seq<Seq<char>> {
    Seq::new(operations.len(), |i: int| handler_text(operations[i]))
}

/// The server-side router: a handler stub for every route.
pub open spec fn server_text(router_name: Seq<char>, operations: Seq<OperationDefinitionView>) -> Seq<
    char,
> {
    heading_text("Server-side Router"@) + "export const "@ + router_name
        + " = createRouter(routes, {\n"@ + concat_all(handler_texts(operations)) + "});\n\n"@
}

/// The comment that shows how to call one route through the client.
pub open spec fn usage_text(client_name: Seq<char>, operation: OperationDefinitionView) -> Seq<char> {
    "// const result = await "@ + client_name + "."@ + operation.id + "("@ + (if operation.parameters.len()
        > 0 || operation.request_body is Some {
        "{ "@ + (if operation.parameters.len() > 0 {
            operation.parameters[0].name + ": value"@
        } else {
            Seq::empty()
        }) + " }"@
    } else {
        Seq::empty()
    }) + ");\n"@
}

/// The usage comments of all routes, in order.
pub open spec fn usage_texts(
    client_name: Seq<char>,
    operations: Seq<OperationDefinitionView>,
) -> Seq<Seq<char>> {
    Seq::new(operations.len(), |i: int| usage_text(client_name, operations[i]))
}

/// The first two of `operations`, or all of them where there are fewer.
pub open spec fn first_two(operations: Seq<OperationDefinitionView>) -> Seq<OperationDefinitionView> {
    operations.take(
        if operations.len() < 2 {
            operations.len() as int
        } else {
            2
        },
    )
}

/// The client: its declaration, and usage examples for the first two routes.
pub open spec fn client_text(options: AdiOptionsView, ir: SchemaIRView) -> Seq<char> {
    heading_text("Client-side API"@) + "export const "@ + options.client_name
        + " = createClient(routes, {\n"@ + "  baseUrl: process.env."@ + options.base_url_env
        + " || '"@ + (match ir.metadata.base_url {
        Some(url) => url,
        None => "http://localhost:3000"@,
    }) + "',\n"@ + "});\n\n"@ + "// Usage examples:\n"@ + concat_all(
        usage_texts(options.client_name, first_two(ir.operations)),
    )
}

/// The whole generated text: header, schemas, routes, and the server and
/// client sections that the options ask for.
pub open spec fn adi_text(ir: SchemaIRView, options: AdiOptionsView) -> Seq<char> {
    header_text(ir) + heading_text("Schema Definitions"@) + concat_all(schema_texts(ir.schemas))
        + heading_text("Route Definitions"@) + "export const routes = {\n"@ + concat_all(
        route_texts(ir.operations),
    ) + "};\n\n"@ + (if options.include_server {
        server_text(options.router_name, ir.operations)
    } else {
        Seq::empty()
    }) + (if options.include_client {
        client_text(options, ir)
    } else {
        Seq::empty()
    })
}

fn heading(title: &str) -> (out: String)
    ensures
        out@ == heading_text(title@),
{
    let mut out = String::from_str(RULE);
    out.append("// ");
    out.append(title);
    out.append("\n");
    out.append(RULE);
    out.append("\n");
    out
}

fn optional_suffix_of(required: bool) -> (out: &'static str)
    ensures
        out@ == optional_suffix(required),
{
    if required {
        let out = "";
        proof {
            reveal_strlit("");
            assert(out@ =~= Seq::empty());
        }
        out
    } else {
        ".optional()"
    }
}

fn field_text_of(field: &FieldDefinition) -> (out: String)
    ensures
        out@ == field_text(field@),
{
    let mut out = match &field.description {
        Some(description) => {
            let mut start = String::from_str("  /** ");
            start.append(description.as_str());
            start.append(" */\n");
            start
        },
        None => String::new(),
    };
    out.append("  ");
    out.append(field.name.as_str());
    out.append(": ");
    out.append(type_info_to_zod(&field.type_info).as_str());
    out.append(optional_suffix_of(field.required));
    out.append(",\n");
    out
}

fn fields_text(fields: &Vec<FieldDefinition>) -> (out: String)
    ensures
        out@ == concat_all(field_texts(fields.deep_view())),
{
    let ghost texts = field_texts(fields.deep_view());
    let mut out = String::new();
    let mut i: usize = 0;
    assert(texts.take(0) =~= Seq::empty());
    while i < fields.len()
        invariant
            i <= fields.len(),
            texts == field_texts(fields.deep_view()),
            out@ == concat_all(texts.take(i as int)),
        decreases fields.len() - i,
    {
        let line = field_text_of(&fields[i]);
        out.append(line.as_str());
        proof {
            lemma_concat_all_take(texts, i as int);
        }
        i += 1;
    }
    assert(texts.take(i as int) =~= texts);
    out
}

fn schema_text_of(schema: &SchemaDefinition) -> (out: String)
    ensures
        out@ == schema_text(schema@),
{
    let mut out = match &schema.description {
        Some(description) => {
            let mut start = String::from_str("// ");
            start.append(description.as_str());
            start.append("\n");
            start
        },
        None => String::new(),
    };
    out.append("export const ");
    out.append(schema.name.as_str());
    out.append("Schema = z.object({\n");
    out.append(fields_text(&schema.fields).as_str());
    out.append("});\n\n");
    out.append("export type ");
    out.append(schema.name.as_str());
    out.append(" = z.infer<typeof ");
    out.append(schema.name.as_str());
    out.append("Schema>;\n\n");
    out
}

fn schemas_text(schemas: &Vec<SchemaDefinition>) -> (out: String)
    ensures
        out@ == concat_all(schema_texts(schemas.deep_view())),
{
    let ghost texts = schema_texts(schemas.deep_view());
    let mut out = String::new();
    let mut i: usize = 0;
    assert(texts.take(0) =~= Seq::empty());
    while i < schemas.len()
        invariant
            i <= schemas.len(),
            texts == schema_texts(schemas.deep_view()),
            out@ == concat_all(texts.take(i as int)),
        decreases schemas.len() - i,
    {
        let block = schema_text_of(&schemas[i]);
        out.append(block.as_str());
        proof {
            lemma_concat_all_take(texts, i as int);
        }
        i += 1;
    }
    assert(texts.take(i as int) =~= texts);
    out
}

fn has_location_in(parameters: &Vec<Parameter>, location: ParameterLocation) -> (found: bool)
    ensures
        found == has_location(parameters.deep_view(), location),
{
    let mut i: usize = 0;
    while i < parameters.len()
        invariant
            i <= parameters.len(),
            forall|k: int| 0 <= k < i ==> parameters.deep_view()[k].location != location,
        decreases parameters.len() - i,
    {
        if parameters[i].location == location {
            assert(parameters.deep_view()[i as int].location == location);
            return true;
        }
        i += 1;
    }
    false
}

fn query_lines_text(parameters: &Vec<Parameter>) -> (out: String)
    ensures
        out@ == concat_all(query_lines(parameters.deep_view())),
{
    let ghost texts = query_lines(parameters.deep_view());
    let mut out = String::new();
    let mut i: usize = 0;
    assert(texts.take(0) =~= Seq::empty());
    while i < parameters.len()
        invariant
            i <= parameters.len(),
            texts == query_lines(parameters.deep_view()),
            out@ == concat_all(texts.take(i as int)),
        decreases parameters.len() - i,
    {
        let parameter = &parameters[i];
        let ghost before = out@;
        if parameter.location == ParameterLocation::Query {
            let mut line = String::from_str("      ");
            line.append(parameter.name.as_str());
            line.append(": ");
            line.append(param_type_to_zod(parameter.schema_type.as_str()).as_str());
            line.append(optional_suffix_of(parameter.required));
            line.append(",\n");
            out.append(line.as_str());
        } else {
            assert(before + Seq::<char>::empty() =~= before);
        }
        proof {
            lemma_concat_all_take(texts, i as int);
        }
        i += 1;
    }
    assert(texts.take(i as int) =~= texts);
    out
}

fn path_lines_text(parameters: &Vec<Parameter>) -> (out: String)
    ensures
        out@ == concat_all(path_lines(parameters.deep_view())),
{
    let ghost texts = path_lines(parameters.deep_view());
    let mut out = String::new();
    let mut i: usize = 0;
    assert(texts.take(0) =~= Seq::empty());
    while i < parameters.len()
        invariant
            i <= parameters.len(),
            texts == path_lines(parameters.deep_view()),
            out@ == concat_all(texts.take(i as int)),
        decreases parameters.len() - i,
    {
        let parameter = &parameters[i];
        let ghost before = out@;
        if parameter.location == ParameterLocation::Path {
            let mut line = String::from_str("      ");
            line.append(parameter.name.as_str());
            line.append(": ");
            line.append(param_type_to_zod(parameter.schema_type.as_str()).as_str());
            line.append(",\n");
            out.append(line.as_str());
        } else {
            assert(before + Seq::<char>::empty() =~= before);
        }
        proof {
            lemma_concat_all_take(texts, i as int);
        }
        i += 1;
    }
    assert(texts.take(i as int) =~= texts);
    out
}

fn query_block_of(parameters: &Vec<Parameter>) -> (out: String)
    ensures
        out@ == query_block(parameters.deep_view()),
{
    if has_location_in(parameters, ParameterLocation::Query) {
        let mut out = String::from_str("    query: z.object({\n");
        out.append(query_lines_text(parameters).as_str());
        out.append("    }).optional(),\n");
        out
    } else {
        String::new()
    }
}

fn params_block_of(parameters: &Vec<Parameter>) -> (out: String)
    ensures
        out@ == params_block(parameters.deep_view()),
{
    if has_location_in(parameters, ParameterLocation::Path) {
        let mut out = String::from_str("    params: z.object({\n");
        out.append(path_lines_text(parameters).as_str());
        out.append("    }),\n");
        out
    } else {
        String::new()
    }
}

fn route_text_of(operation: &OperationDefinition) -> (out: String)
    ensures
        out@ == route_text(operation@),
{
    let mut out = match &operation.description {
        Some(description) => {
            let mut start = String::from_str("  // ");
            start.append(description.as_str());
            start.append("\n");
            start
        },
        None => String::new(),
    };
    out.append("  ");
    out.append(operation.id.as_str());
    out.append(": createRoute({\n");
    out.append("    method: '");
    out.append(operation.method.as_upper());
    out.append("',\n");
    out.append("    path: '");
    out.append(operation.path.as_str());
    out.append("',\n");
    out.append(query_block_of(&operation.parameters).as_str());
    out.append(params_block_of(&operation.parameters).as_str());
    let body = match &operation.request_body {
        Some(body) => {
            let mut line = String::from_str("    body: ");
            line.append(body.name.as_str());
            line.append("Schema,\n");
            line
        },
        None => String::new(),
    };
    out.append(body.as_str());
    let response = match &operation.response {
        Some(response) => {
            let mut line = String::from_str("    response: ");
            line.append(response.name.as_str());
            line.append("Schema,\n");
            line
        },
        None => String::from_str("    response: z.void(),\n"),
    };
    out.append(response.as_str());
    out.append("  }),\n\n");
    out
}

fn routes_text(operations: &Vec<OperationDefinition>) -> (out: String)
    ensures
        out@ == concat_all(route_texts(operations.deep_view())),
{
    let ghost texts = route_texts(operations.deep_view());
    let mut out = String::new();
    let mut i: usize = 0;
    assert(texts.take(0) =~= Seq::empty());
    while i < operations.len()
        invariant
            i <= operations.len(),
            texts == route_texts(operations.deep_view()),
            out@ == concat_all(texts.take(i as int)),
        decreases operations.len() - i,
    {
        let block = route_text_of(&operations[i]);
        out.append(block.as_str());
        proof {
            lemma_concat_all_take(texts, i as int);
        }
        i += 1;
    }
    assert(texts.take(i as int) =~= texts);
    out
}

fn hint_lines_text(parameters: &Vec<Parameter>) -> (out: String)
    ensures
        out@ == concat_all(hint_lines(parameters.deep_view())),
{
    let ghost texts = hint_lines(parameters.deep_view());
    let mut out = String::new();
    let mut i: usize = 0;
    assert(texts.take(0) =~= Seq::empty());
    while i < parameters.len()
        invariant
            i <= parameters.len(),
            texts == hint_lines(parameters.deep_view()),
            out@ == concat_all(texts.take(i as int)),
        decreases parameters.len() - i,
    {
        let parameter = &parameters[i];
        let mut line = String::from_str("    //   req.");
        line.append(parameter.location.as_lower());
        line.append(": ");
        line.append(parameter.schema_type.as_str());
        line.append("\n");
        out.append(line.as_str());
        proof {
            lemma_concat_all_take(texts, i as int);
        }
        i += 1;
    }
    assert(texts.take(i as int) =~= texts);
    out
}

fn handler_text_of(operation: &OperationDefinition) -> (out: String)
    ensures
        out@ == handler_text(operation@),
{
    let mut out = String::from_str("  ");
    out.append(operation.id.as_str());
    out.append(": async (req) => {\n");
    out.append("    // TODO: Implement handler\n");
    let hints = if operation.parameters.len() > 0 {
        let mut lines = String::from_str("    // Request parameters:\n");
        lines.append(hint_lines_text(&operation.parameters).as_str());
        lines
    } else {
        String::new()
    };
    out.append(hints.as_str());
    let promised = match &operation.response {
        Some(response) => {
            let mut line = String::from_str("    // Must return: ");
            line.append(response.name.as_str());
            line.append("\n");
            line
        },
        None => String::new(),
    };
    out.append(promised.as_str());
    out.append("    throw new Error('Not implemented');\n");
    out.append("  },\n\n");
    out
}

fn handlers_text(operations: &Vec<OperationDefinition>) -> (out: String)
    ensures
        out@ == concat_all(handler_texts(operations.deep_view())),
{
    let ghost texts = handler_texts(operations.deep_view());
    let mut out = String::new();
    let mut i: usize = 0;
    assert(texts.take(0) =~= Seq::empty());
    while i < operations.len()
        invariant
            i <= operations.len(),
            texts == handler_texts(operations.deep_view()),
            out@ == concat_all(texts.take(i as int)),
        decreases operations.len() - i,
    {
        let block = handler_text_of(&operations[i]);
        out.append(block.as_str());
        proof {
            lemma_concat_all_take(texts, i as int);
        }
        i += 1;
    }
    assert(texts.take(i as int) =~= texts);
    out
}

fn server_text_of(router_name: &str, operations: &Vec<OperationDefinition>) -> (out: String)
    ensures
        out@ == server_text(router_name@, operations.deep_view()),
{
    let mut out = heading("Server-side Router");
    out.append("export const ");
    out.append(router_name);
    out.append(" = createRouter(routes, {\n");
    out.append(handlers_text(operations).as_str());
    out.append("});\n\n");
    out
}

fn usage_text_of(client_name: &str, operation: &OperationDefinition) -> (out: String)
    ensures
        out@ == usage_text(client_name@, operation@),
{
    let mut out = String::from_str("// const result = await ");
    out.append(client_name);
    out.append(".");
    out.append(operation.id.as_str());
    out.append("(");
    let has_params = operation.parameters.len() > 0;
    let arguments = if has_params || operation.request_body.is_some() {
        let mut text = String::from_str("{ ");
        let first = if has_params {
            let mut named = operation.parameters[0].name.clone();
            named.append(": value");
            named
        } else {
            String::new()
        };
        text.append(first.as_str());
        text.append(" }");
        text
    } else {
        String::new()
    };
    out.append(arguments.as_str());
    out.append(");\n");
    out
}

fn usages_text(client_name: &str, operations: &Vec<OperationDefinition>) -> (out: String)
    ensures
        out@ == concat_all(usage_texts(client_name@, first_two(operations.deep_view()))),
{
    let shown: usize = if operations.len() < 2 {
        operations.len()
    } else {
        2
    };
    let ghost texts = usage_texts(client_name@, first_two(operations.deep_view()));
    let mut out = String::new();
    let mut i: usize = 0;
    assert(texts.take(0) =~= Seq::empty());
    while i < shown
        invariant
            i <= shown <= operations.len(),
            shown == first_two(operations.deep_view()).len(),
            texts == usage_texts(client_name@, first_two(operations.deep_view())),
            out@ == concat_all(texts.take(i as int)),
        decreases shown - i,
    {
        let line = usage_text_of(client_name, &operations[i]);
        out.append(line.as_str());
        proof {
            assert(first_two(operations.deep_view())[i as int] == operations@[i as int]@);
            lemma_concat_all_take(texts, i as int);
        }
        i += 1;
    }
    assert(texts.take(i as int) =~= texts);
    out
}

fn client_text_of(options: &AdiOptions, schema_ir: &SchemaIR) -> (out: String)
    ensures
        out@ == client_text(options@, schema_ir@),
{
    let mut out = heading("Client-side API");
    out.append("export const ");
    out.append(options.client_name.as_str());
    out.append(" = createClient(routes, {\n");
    out.append("  baseUrl: process.env.");
    out.append(options.base_url_env.as_str());
    out.append(" || '");
    match &schema_ir.metadata.base_url {
        Some(url) => out.append(url.as_str()),
        None => out.append("http://localhost:3000"),
    }
    out.append("',\n");
    out.append("});\n\n");
    out.append("// Usage examples:\n");
    out.append(usages_text(options.client_name.as_str(), &schema_ir.operations).as_str());
    out
}

/// Writes the routes file for a representation.
pub fn generate_text(schema_ir: &SchemaIR, options: &AdiOptions) -> (out: String)
    ensures
        out@ == adi_text(schema_ir@, options@),
{
    let mut out = String::from_str("// Generated ADI HTTP Routes for ");
    out.append(schema_ir.metadata.title.as_str());
    out.append("\n");
    out.append("// Version: ");
    out.append(schema_ir.metadata.version.as_str());
    out.append("\n\n");
    out.append("import { z } from 'zod';\n");
    out.append("import { createRoute, createRouter, createClient } from '@adi-family/http';\n\n");
    assert(out@ == header_text(schema_ir@));
    out.append(heading("Schema Definitions").as_str());
    out.append(schemas_text(&schema_ir.schemas).as_str());
    out.append(heading("Route Definitions").as_str());
    out.append("export const routes = {\n");
    out.append(routes_text(&schema_ir.operations).as_str());
    out.append("};\n\n");
    let server = if options.include_server {
        server_text_of(options.router_name.as_str(), &schema_ir.operations)
    } else {
        String::new()
    };
    out.append(server.as_str());
    let client = if options.include_client {
        client_text_of(options, schema_ir)
    } else {
        String::new()
    };
    out.append(client.as_str());
    out
}

/// What the generator makes: the routes file, under the configured name.
pub open spec fn adi_generation(ir: SchemaIRView, config: GenerationConfigView) -> GenerationView {
    GenerationView::Finished(
        GeneratedOutputView {
            filename: config.output_file,
            content: adi_text(ir, adi_options_of(config.options)),
            metadata: Map::empty(),
        },
    )
}

impl Generator for TypeScriptAdiHttpGenerator {
    open spec fn generator_name(&self) -> Seq<char> {
        "typescript_adi_http"@
    }

    open spec fn extension(&self) -> Seq<char> {
        "ts"@
    }

    open spec fn generation(&self, ir: SchemaIRView, config: GenerationConfigView) -> Result<
        GenerationView,
        ErrorView,
    > {
        Ok(adi_generation(ir, config))
    }

    open spec fn validation(&self, config: GenerationConfigView) -> Result<(), ErrorView> {
        Ok(())
    }

    fn validate_config(&self, config: &GenerationConfig) -> (result: Result<(), Error>) {
        Ok(())
    }

    fn name(&self) -> (name: String) {
        String::from_str("typescript_adi_http")
    }

    fn file_extension(&self) -> (extension: String) {
        String::from_str("ts")
    }

    fn generate_from_ir(&self, schema_ir: &SchemaIR, config: &GenerationConfig) -> (result: Result<
        Generation,
        Error,
    >) {
        let options = read_options(config);
        Ok(
            Generation::Finished(
                GeneratedOutput {
                    filename: config.output_file.clone(),
                    content: generate_text(schema_ir, &options),
                    metadata: HashMap::new(),
                },
            ),
        )
    }
}

} // verus!
