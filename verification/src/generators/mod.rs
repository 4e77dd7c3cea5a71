//! Generators: what turns the intermediate representation into the content
//! of a file, and the registry that finds the generator for a name.

pub mod golang;
pub mod python;
pub mod typescript;
pub mod typescript_adi_http;

use std::collections::HashMap;
use vstd::prelude::*;
use vstd::string::*;
use crate::config::schema::{GenerationConfig, GenerationConfigView};
use crate::error::{Error, ErrorView};

pub use crate::generators::golang::GolangGenerator;
pub use crate::generators::python::PythonGenerator;
pub use crate::generators::typescript::TypeScriptGenerator;
pub use crate::generators::typescript_adi_http::TypeScriptAdiHttpGenerator;

use crate::parsers::schema_ir::{
    FieldDefinition, FieldDefinitionView, OperationDefinition, OperationDefinitionView,
    ParameterView, SchemaDefinition, SchemaDefinitionView, SchemaIR, SchemaIRView,
    SchemaReference, SchemaReferenceView, TypeInfoView,
};
use crate::projection::{golang_type, python_type, zod_type};
use crate::search::{
    first_match, is_text, lemma_first_match, lemma_first_match_is, lemma_with_text, with_text,
};
use crate::text::{clone_opt_text, same_text};

verus! {

/// The content of one generated file.
#[derive(Debug)]
pub struct GeneratedOutput {
    pub filename: String,
    pub content: String,
    pub metadata: HashMap<String, String>,
}

/// The mathematical view of `GeneratedOutput`: texts as sequences of characters, lists as sequences.
pub struct GeneratedOutputView {
    pub filename: Seq<char>,
    pub content: Seq<char>,
    pub metadata: Map<String, String>,
}

impl View for GeneratedOutput {
    type V = GeneratedOutputView;

    open spec fn view(&self) -> GeneratedOutputView {
        GeneratedOutputView {
            filename: self.filename@,
            content: self.content@,
            metadata: self.metadata@,
        }
    }
}

/// The template-driven targets.
#[derive(Debug, Clone, Copy, PartialEq, Eq, Structural)]
pub enum TemplateTarget {
    TypeScript,
    Python,
    Golang,
}

impl TemplateTarget {
    /// The key under which a property's type expression is handed to the
    /// template.
    pub open spec fn type_key(self) -> Seq<char> {
        match self {
            TemplateTarget::TypeScript => "typescript_type"@,
            TemplateTarget::Python => "python_type"@,
            TemplateTarget::Golang => "golang_type"@,
        }
    }

    /// The directory of the templates where the configuration names none.
    pub open spec fn default_directory(self) -> Seq<char> {
        match self {
            TemplateTarget::TypeScript => "templates/typescript"@,
            TemplateTarget::Python => "templates/python"@,
            TemplateTarget::Golang => "templates/golang"@,
        }
    }

    /// The name of the template that makes the client.
    pub open spec fn template_name(self) -> Seq<char> {
        match self {
            TemplateTarget::TypeScript => "client.ts.tera"@,
            TemplateTarget::Python => "client.py.tera"@,
            TemplateTarget::Golang => "client.go.tera"@,
        }
    }

    /// The target's projection of a type node.
    pub open spec fn projection(self, t: TypeInfoView) -> Seq<char> {
        match self {
            TemplateTarget::TypeScript => zod_type(t),
            TemplateTarget::Python => python_type(t),
            TemplateTarget::Golang => golang_type(t),
        }
    }
}

/// A property as a template sees it.
#[derive(Debug, Clone)]
pub struct TemplateProperty {
    pub name: String,
    /// The key of the type expression, which differs by target.
    pub type_key: String,
    pub type_expr: String,
    pub required: bool,
    /// Whether the property may be null, for the targets that are told.
    pub nullable: Option<bool>,
    /// The property's name on the wire, for the targets that are told.
    pub json_tag: Option<String>,
}

/// The mathematical view of `TemplateProperty`: texts as sequences of characters, lists as sequences.
pub struct TemplatePropertyView {
    pub name: Seq<char>,
    pub type_key: Seq<char>,
    pub type_expr: Seq<char>,
    pub required: bool,
    pub nullable: Option<bool>,
    pub json_tag: Option<Seq<char>>,
}

impl View for TemplateProperty {
    type V = TemplatePropertyView;

    open spec fn view(&self) -> TemplatePropertyView {
        TemplatePropertyView {
            name: self.name@,
            type_key: self.type_key@,
            type_expr: self.type_expr@,
            required: self.required,
            nullable: self.nullable,
            json_tag: self.json_tag.deep_view(),
        }
    }
}

impl DeepView for TemplateProperty {
    type V = TemplatePropertyView;

    open spec fn deep_view(&self) -> TemplatePropertyView {
        self.view()
    }
}

/// A schema as a template sees it.
#[derive(Debug, Clone)]
pub struct TemplateSchema {
    pub name: String,
    pub properties: Vec<TemplateProperty>,
    pub description: Option<String>,
}

/// The mathematical view of `TemplateSchema`: texts as sequences of characters, lists as sequences.
pub struct TemplateSchemaView {
    pub name: Seq<char>,
    pub properties: Seq<TemplatePropertyView>,
    pub description: Option<Seq<char>>,
}

impl View for TemplateSchema {
    type V = TemplateSchemaView;

    open spec fn view(&self) -> TemplateSchemaView {
        TemplateSchemaView {
            name: self.name@,
            properties: self.properties.deep_view(),
            description: self.description.deep_view(),
        }
    }
}

impl DeepView for TemplateSchema {
    type V = TemplateSchemaView;

    open spec fn deep_view(&self) -> TemplateSchemaView {
        self.view()
    }
}

/// A parameter as a template sees it.
#[derive(Debug, Clone)]
pub struct TemplateParameter {
    pub name: String,
    /// The location in small letters.
    pub location: String,
    pub required: bool,
    pub schema_type: String,
}

/// The mathematical view of `TemplateParameter`: texts as sequences of characters, lists as sequences.
pub struct TemplateParameterView {
    pub name: Seq<char>,
    pub location: Seq<char>,
    pub required: bool,
    pub schema_type: Seq<char>,
}

impl View for TemplateParameter {
    type V = TemplateParameterView;

    open spec fn view(&self) -> TemplateParameterView {
        TemplateParameterView {
            name: self.name@,
            location: self.location@,
            required: self.required,
            schema_type: self.schema_type@,
        }
    }
}

impl DeepView for TemplateParameter {
    type V = TemplateParameterView;

    open spec fn deep_view(&self) -> TemplateParameterView {
        self.view()
    }
}

/// An operation as a template sees it.
#[derive(Debug, Clone)]
pub struct TemplateOperation {
    pub id: String,
    /// The method in capitals.
    pub method: String,
    pub path: String,
    pub parameters: Vec<TemplateParameter>,
    /// The responses that the template is told of: none.
    pub responses: Vec<SchemaReference>,
}

/// The mathematical view of `TemplateOperation`: texts as sequences of characters, lists as sequences.
pub struct TemplateOperationView {
    pub id: Seq<char>,
    pub method: Seq<char>,
    pub path: Seq<char>,
    pub parameters: Seq<TemplateParameterView>,
    pub responses: Seq<SchemaReferenceView>,
}

impl View for TemplateOperation {
    type V = TemplateOperationView;

    open spec fn view(&self) -> TemplateOperationView {
        TemplateOperationView {
            id: self.id@,
            method: self.method@,
            path: self.path@,
            parameters: self.parameters.deep_view(),
            responses: self.responses.deep_view(),
        }
    }
}

impl DeepView for TemplateOperation {
    type V = TemplateOperationView;

    open spec fn deep_view(&self) -> TemplateOperationView {
        self.view()
    }
}

/// What a template is rendered with.
#[derive(Debug, Clone)]
pub struct TemplateContext {
    pub api_title: String,
    pub api_version: String,
    pub base_url: String,
    pub schemas: Vec<TemplateSchema>,
    pub operations: Vec<TemplateOperation>,
}

/// The mathematical view of `TemplateContext`: texts as sequences of characters, lists as sequences.
pub struct TemplateContextView {
    pub api_title: Seq<char>,
    pub api_version: Seq<char>,
    pub base_url: Seq<char>,
    pub schemas: Seq<TemplateSchemaView>,
    pub operations: Seq<TemplateOperationView>,
}

impl View for TemplateContext {
    type V = TemplateContextView;

    open spec fn view(&self) -> TemplateContextView {
        TemplateContextView {
            api_title: self.api_title@,
            api_version: self.api_version@,
            base_url: self.base_url@,
            schemas: self.schemas.deep_view(),
            operations: self.operations.deep_view(),
        }
    }
}

/// A file whose content a template engine has yet to render.
#[derive(Debug, Clone)]
pub struct RenderRequest {
    /// The name of the file to write.
    pub filename: String,
    /// The pattern of the template files to load.
    pub templates: String,
    /// The name of the template to render.
    pub template: String,
    pub context: TemplateContext,
}

/// The mathematical view of `RenderRequest`: texts as sequences of characters, lists as sequences.
pub struct RenderRequestView {
    pub filename: Seq<char>,
    pub templates: Seq<char>,
    pub template: Seq<char>,
    pub context: TemplateContextView,
}

impl View for RenderRequest {
    type V = RenderRequestView;

    open spec fn view(&self) -> RenderRequestView {
        RenderRequestView {
            filename: self.filename@,
            templates: self.templates@,
            template: self.template@,
            context: self.context@,
        }
    }
}

impl RenderRequest {
    /// The generated file, once the template engine has rendered `content`.
    pub fn finish(self, content: String) -> (output: GeneratedOutput)
        ensures
            output@ == (GeneratedOutputView {
                filename: self.filename@,
                content: content@,
                metadata: Map::empty(),
            }),
    {
        GeneratedOutput { filename: self.filename, content, metadata: HashMap::new() }
    }
}

/// What a generator hands back: a finished file, or one that a template
/// engine has yet to render.
#[derive(Debug)]
pub enum Generation {
    Finished(GeneratedOutput),
    Render(RenderRequest),
}

/// The mathematical view of `Generation`: texts as sequences of characters, lists as sequences.
pub enum GenerationView {
    Finished(GeneratedOutputView),
    Render(RenderRequestView),
}

impl View for Generation {
    type V = GenerationView;

    open spec fn view(&self) -> GenerationView {
        match self {
            Generation::Finished(output) => GenerationView::Finished(output@),
            Generation::Render(request) => GenerationView::Render(request@),
        }
    }
}

/// The view of what a generator returns.
pub open spec fn generation_view(result: Result<Generation, Error>) -> Result<
    GenerationView,
    ErrorView,
> {
    match result {
        Ok(generation) => Ok(generation@),
        Err(e) => Err(e@),
    }
}

/// The view of what running a target returns.
pub open spec fn target_view(result: Result<Option<Generation>, Error>) -> Result<
    Option<GenerationView>,
    ErrorView,
> {
    match result {
        Ok(Some(generation)) => Ok(Some(generation@)),
        Ok(None) => Ok(None),
        Err(e) => Err(e@),
    }
}

/// The property that a template of `target` is handed for a field.
pub open spec fn template_property_of(
    target: TemplateTarget,
    field: FieldDefinitionView,
) -> TemplatePropertyView {
    TemplatePropertyView {
        name: field.name,
        type_key: target.type_key(),
        type_expr: target.projection(field.type_info),
        required: field.required,
        nullable: if target == TemplateTarget::TypeScript {
            Some(false)
        } else {
            None
        },
        json_tag: if target == TemplateTarget::Golang {
            Some(field.name)
        } else {
            None
        },
    }
}

/// The schema that a template of `target` is handed.
pub open spec fn template_schema_of(
    target: TemplateTarget,
    schema: SchemaDefinitionView,
) -> TemplateSchemaView {
    TemplateSchemaView {
        name: schema.name,
        properties: Seq::new(
            schema.fields.len(),
            |i: int| template_property_of(target, schema.fields[i]),
        ),
        description: schema.description,
    }
}

/// The parameter that a template is handed.
pub open spec fn template_parameter_of(parameter: ParameterView) -> TemplateParameterView {
    TemplateParameterView {
        name: parameter.name,
        location: parameter.location.lower_name(),
        required: parameter.required,
        schema_type: parameter.schema_type,
    }
}

/// The operation that a template is handed. No template is told of the
/// responses of an operation.
pub open spec fn template_operation_of(operation: OperationDefinitionView) -> TemplateOperationView {
    TemplateOperationView {
        id: operation.id,
        method: operation.method.upper_name(),
        path: operation.path,
        parameters: Seq::new(
            operation.parameters.len(),
            |i: int| template_parameter_of(operation.parameters[i]),
        ),
        responses: Seq::empty(),
    }
}

/// The context that a template of `target` is rendered with.
pub open spec fn template_context_of(target: TemplateTarget, ir: SchemaIRView) -> TemplateContextView {
    TemplateContextView {
        api_title: ir.metadata.title,
        api_version: ir.metadata.version,
        base_url: match ir.metadata.base_url {
            Some(url) => url,
            None => "http://localhost"@,
        },
        schemas: Seq::new(ir.schemas.len(), |i: int| template_schema_of(target, ir.schemas[i])),
        operations: Seq::new(
            ir.operations.len(),
            |i: int| template_operation_of(ir.operations[i]),
        ),
    }
}

/// The request to render the client of `target`: every template file below
/// the configured directory, or below the target's default one, is loaded.
pub open spec fn render_request_of(
    target: TemplateTarget,
    ir: SchemaIRView,
    config: GenerationConfigView,
) -> RenderRequestView {
    RenderRequestView {
        filename: config.output_file,
        templates: match config.template {
            Some(directory) => directory,
            None => target.default_directory(),
        } + "/**/*.tera"@,
        template: target.template_name(),
        context: template_context_of(target, ir),
    }
}

fn template_property(target: TemplateTarget, field: &FieldDefinition) -> (property: TemplateProperty)
    ensures
        property@ == template_property_of(target, field@),
{
    match target {
        TemplateTarget::TypeScript => TemplateProperty {
            name: field.name.clone(),
            type_key: String::from_str("typescript_type"),
            type_expr: field.type_info.to_typescript(),
            required: field.required,
            nullable: Some(false),
            json_tag: None,
        },
        TemplateTarget::Python => TemplateProperty {
            name: field.name.clone(),
            type_key: String::from_str("python_type"),
            type_expr: field.type_info.to_python(),
            required: field.required,
            nullable: None,
            json_tag: None,
        },
        TemplateTarget::Golang => TemplateProperty {
            name: field.name.clone(),
            type_key: String::from_str("golang_type"),
            type_expr: field.type_info.to_golang(),
            required: field.required,
            nullable: None,
            json_tag: Some(field.name.clone()),
        },
    }
}

fn template_schema(target: TemplateTarget, schema: &SchemaDefinition) -> (made: TemplateSchema)
    ensures
        made@ == template_schema_of(target, schema@),
{
    let mut properties: Vec<TemplateProperty> = Vec::new();
    let mut i: usize = 0;
    while i < schema.fields.len()
        invariant
            i <= schema.fields.len(),
            properties.len() == i,
            forall|k: int|
                0 <= k < i ==> properties@[k]@ == template_property_of(target, schema.fields@[k]@),
        decreases schema.fields.len() - i,
    {
        properties.push(template_property(target, &schema.fields[i]));
        i += 1;
    }
    assert(properties.deep_view() =~= template_schema_of(target, schema@).properties);
    TemplateSchema {
        name: schema.name.clone(),
        properties,
        description: clone_opt_text(&schema.description),
    }
}

fn template_operation(operation: &OperationDefinition) -> (made: TemplateOperation)
    ensures
        made@ == template_operation_of(operation@),
{
    let mut parameters: Vec<TemplateParameter> = Vec::new();
    let mut i: usize = 0;
    while i < operation.parameters.len()
        invariant
            i <= operation.parameters.len(),
            parameters.len() == i,
            forall|k: int|
                0 <= k < i ==> parameters@[k]@ == template_parameter_of(operation.parameters@[k]@),
        decreases operation.parameters.len() - i,
    {
        let parameter = &operation.parameters[i];
        parameters.push(
            TemplateParameter {
                name: parameter.name.clone(),
                location: String::from_str(parameter.location.as_lower()),
                required: parameter.required,
                schema_type: parameter.schema_type.clone(),
            },
        );
        i += 1;
    }
    assert(parameters.deep_view() =~= template_operation_of(operation@).parameters);
    let responses: Vec<SchemaReference> = Vec::new();
    assert(responses.deep_view() =~= Seq::empty());
    TemplateOperation {
        id: operation.id.clone(),
        method: String::from_str(operation.method.as_upper()),
        path: operation.path.clone(),
        parameters,
        responses,
    }
}

/// Builds the context that a template of `target` is rendered with.
pub fn template_context(target: TemplateTarget, schema_ir: &SchemaIR) -> (context: TemplateContext)
    ensures
        context@ == template_context_of(target, schema_ir@),
{
    let mut schemas: Vec<TemplateSchema> = Vec::new();
    let mut i: usize = 0;
    while i < schema_ir.schemas.len()
        invariant
            i <= schema_ir.schemas.len(),
            schemas.len() == i,
            forall|k: int|
                0 <= k < i ==> schemas@[k]@ == template_schema_of(target, schema_ir.schemas@[k]@),
        decreases schema_ir.schemas.len() - i,
    {
        schemas.push(template_schema(target, &schema_ir.schemas[i]));
        i += 1;
    }
    let mut operations: Vec<TemplateOperation> = Vec::new();
    let mut j: usize = 0;
    while j < schema_ir.operations.len()
        invariant
            j <= schema_ir.operations.len(),
            operations.len() == j,
            forall|k: int|
                0 <= k < j ==> operations@[k]@ == template_operation_of(
                    schema_ir.operations@[k]@,
                ),
        decreases schema_ir.operations.len() - j,
    {
        operations.push(template_operation(&schema_ir.operations[j]));
        j += 1;
    }
    assert(schemas.deep_view() =~= template_context_of(target, schema_ir@).schemas);
    assert(operations.deep_view() =~= template_context_of(target, schema_ir@).operations);
    TemplateContext {
        api_title: schema_ir.metadata.title.clone(),
        api_version: schema_ir.metadata.version.clone(),
        base_url: match &schema_ir.metadata.base_url {
            Some(url) => url.clone(),
            None => String::from_str("http://localhost"),
        },
        schemas,
        operations,
    }
}

/// Builds the request to render the client of `target`.
pub fn render_request(
    target: TemplateTarget,
    schema_ir: &SchemaIR,
    config: &GenerationConfig,
) -> (request: RenderRequest)
    ensures
        request@ == render_request_of(target, schema_ir@, config@),
{
    let mut templates = match &config.template {
        Some(directory) => directory.clone(),
        None => match target {
            TemplateTarget::TypeScript => String::from_str("templates/typescript"),
            TemplateTarget::Python => String::from_str("templates/python"),
            TemplateTarget::Golang => String::from_str("templates/golang"),
        },
    };
    templates.append("/**/*.tera");
    RenderRequest {
        filename: config.output_file.clone(),
        templates,
        template: match target {
            TemplateTarget::TypeScript => String::from_str("client.ts.tera"),
            TemplateTarget::Python => String::from_str("client.py.tera"),
            TemplateTarget::Golang => String::from_str("client.go.tera"),
        },
        context: template_context(target, schema_ir),
    }
}

/// A generator for one target.
pub trait Generator {
    /// The name that the generator is registered under.
    spec fn generator_name(&self) -> Seq<char>;

    /// The extension of the files it makes.
    spec fn extension(&self) -> Seq<char>;

    /// What it makes of a representation under a configuration.
    spec fn generation(&self, ir: SchemaIRView, config: GenerationConfigView) -> Result<
        GenerationView,
        ErrorView,
    >;

    fn name(&self) -> (name: String)
        ensures
            name@ == self.generator_name(),
    ;

    fn file_extension(&self) -> (extension: String)
        ensures
            extension@ == self.extension(),
    ;

    /// Generates from the intermediate representation.
    fn generate_from_ir(&self, schema_ir: &SchemaIR, config: &GenerationConfig) -> (result: Result<
        Generation,
        Error,
    >)
        ensures
            generation_view(result) == self.generation(schema_ir@, config@),
    ;

    /// Whether the generator accepts a configuration, and the failure where
    /// it does not.
    spec fn validation(&self, config: GenerationConfigView) -> Result<(), ErrorView>;

    /// Checks what the configuration asks of this generator.
    fn validate_config(&self, config: &GenerationConfig) -> (result: Result<(), Error>)
        ensures
            validation_view(result) == self.validation(config@),
    ;
}

/// The view of what checking a configuration returns.
pub open spec fn validation_view(result: Result<(), Error>) -> Result<(), ErrorView> {
    match result {
        Ok(()) => Ok(()),
        Err(e) => Err(e@),
    }
}

/// The generators that come with the library.
#[derive(Debug, Clone, Copy)]
pub enum BuiltinGenerator {
    TypeScript(TypeScriptGenerator),
    TypeScriptAdiHttp(TypeScriptAdiHttpGenerator),
    Python(PythonGenerator),
    Golang(GolangGenerator),
}

impl Generator for BuiltinGenerator {
    open spec fn generator_name(&self) -> Seq<char> {
        match self {
            BuiltinGenerator::TypeScript(g) => g.generator_name(),
            BuiltinGenerator::TypeScriptAdiHttp(g) => g.generator_name(),
            BuiltinGenerator::Python(g) => g.generator_name(),
            BuiltinGenerator::Golang(g) => g.generator_name(),
        }
    }

    open spec fn extension(&self) -> Seq<char> {
        match self {
            BuiltinGenerator::TypeScript(g) => g.extension(),
            BuiltinGenerator::TypeScriptAdiHttp(g) => g.extension(),
            BuiltinGenerator::Python(g) => g.extension(),
            BuiltinGenerator::Golang(g) => g.extension(),
        }
    }

    open spec fn generation(&self, ir: SchemaIRView, config: GenerationConfigView) -> Result<
        GenerationView,
        ErrorView,
    > {
        match self {
            BuiltinGenerator::TypeScript(g) => g.generation(ir, config),
            BuiltinGenerator::TypeScriptAdiHttp(g) => g.generation(ir, config),
            BuiltinGenerator::Python(g) => g.generation(ir, config),
            BuiltinGenerator::Golang(g) => g.generation(ir, config),
        }
    }

    open spec fn validation(&self, config: GenerationConfigView) -> Result<(), ErrorView> {
        match self {
            BuiltinGenerator::TypeScript(g) => g.validation(config),
            BuiltinGenerator::TypeScriptAdiHttp(g) => g.validation(config),
            BuiltinGenerator::Python(g) => g.validation(config),
            BuiltinGenerator::Golang(g) => g.validation(config),
        }
    }

    fn validate_config(&self, config: &GenerationConfig) -> (result: Result<(), Error>) {
        match self {
            BuiltinGenerator::TypeScript(g) => g.validate_config(config),
            BuiltinGenerator::TypeScriptAdiHttp(g) => g.validate_config(config),
            BuiltinGenerator::Python(g) => g.validate_config(config),
            BuiltinGenerator::Golang(g) => g.validate_config(config),
        }
    }

    fn name(&self) -> (name: String) {
        match self {
            BuiltinGenerator::TypeScript(g) => g.name(),
            BuiltinGenerator::TypeScriptAdiHttp(g) => g.name(),
            BuiltinGenerator::Python(g) => g.name(),
            BuiltinGenerator::Golang(g) => g.name(),
        }
    }

    fn file_extension(&self) -> (extension: String) {
        match self {
            BuiltinGenerator::TypeScript(g) => g.file_extension(),
            BuiltinGenerator::TypeScriptAdiHttp(g) => g.file_extension(),
            BuiltinGenerator::Python(g) => g.file_extension(),
            BuiltinGenerator::Golang(g) => g.file_extension(),
        }
    }

    fn generate_from_ir(&self, schema_ir: &SchemaIR, config: &GenerationConfig) -> (result: Result<
        Generation,
        Error,
    >) {
        match self {
            BuiltinGenerator::TypeScript(g) => g.generate_from_ir(schema_ir, config),
            BuiltinGenerator::TypeScriptAdiHttp(g) => g.generate_from_ir(schema_ir, config),
            BuiltinGenerator::Python(g) => g.generate_from_ir(schema_ir, config),
            BuiltinGenerator::Golang(g) => g.generate_from_ir(schema_ir, config),
        }
    }
}

/// The generators that a run can use, in the order in which their names
/// were first registered.
pub struct GeneratorRegistry<G: Generator> {
    pub generators: Vec<G>,
}

/// The names of the built-in generators, in the order of their
/// registration.
pub open spec fn builtin_names() -> Seq<Seq<char>> {
    seq!["typescript"@, "typescript_adi_http"@, "python"@, "golang"@]
}

impl GeneratorRegistry<BuiltinGenerator> {
    /// A registry with the built-in generators.
    pub fn new() -> (registry: Self)
        ensures
            registry.wf(),
            registry.names() == builtin_names(),
    {
        let first = BuiltinGenerator::TypeScript(TypeScriptGenerator);
        let second = BuiltinGenerator::TypeScriptAdiHttp(TypeScriptAdiHttpGenerator);
        let third = BuiltinGenerator::Python(PythonGenerator);
        let fourth = BuiltinGenerator::Golang(GolangGenerator);
        proof {
            reveal_strlit("typescript");
            reveal_strlit("typescript_adi_http");
            reveal_strlit("python");
            reveal_strlit("golang");
            assert("typescript"@.len() == 10);
            assert("typescript_adi_http"@.len() == 19);
            assert("python"@[0] == 'p');
            assert("golang"@[0] == 'g');
            assert("python"@.len() == 6);
        }
        let mut registry = GeneratorRegistry::empty();
        proof {
            lemma_first_match_is(registry.names(), is_text(first.generator_name()), 0);
        }
        registry.register(first);
        proof {
            assert(registry.names() =~= seq!["typescript"@]);
            lemma_first_match_is(registry.names(), is_text(second.generator_name()), 1);
        }
        registry.register(second);
        proof {
            assert(registry.names() =~= seq!["typescript"@, "typescript_adi_http"@]);
            lemma_first_match_is(registry.names(), is_text(third.generator_name()), 2);
        }
        registry.register(third);
        proof {
            assert(registry.names() =~= seq!["typescript"@, "typescript_adi_http"@, "python"@]);
            lemma_first_match_is(registry.names(), is_text(fourth.generator_name()), 3);
        }
        registry.register(fourth);
        assert(registry.names() =~= builtin_names());
        registry
    }
}

impl Default for GeneratorRegistry<BuiltinGenerator> {
    /// A registry with the built-in generators.
    fn default() -> (registry: Self)
        ensures
            registry.wf(),
            registry.names() == builtin_names(),
    {
        GeneratorRegistry::new()
    }
}

impl<G: Generator> GeneratorRegistry<G> {
    /// The names of the registered generators, in order.
    pub open spec fn names(&self) -> Seq<Seq<char>> {
        Seq::new(self.generators@.len(), |i: int| self.generators@[i].generator_name())
    }

    /// No name is registered twice.
    pub open spec fn wf(&self) -> bool {
        self.names().no_duplicates()
    }

    /// The position of the generator called `name`; the number of
    /// generators where there is none.
    pub open spec fn position_of(&self, name: Seq<char>) -> int {
        first_match(self.names(), is_text(name))
    }

    /// Where `position_of` points: at the generator called `name` if it is
    /// within bounds, and past every generator with another name.
    pub proof fn lemma_position_of(&self, name: Seq<char>)
        ensures
            0 <= self.position_of(name) <= self.generators@.len(),
            self.position_of(name) < self.generators@.len() ==> self.generators@[self.position_of(
                name,
            )].generator_name() == name,
            forall|k: int|
                0 <= k < self.position_of(name) ==> (
                #[trigger] self.generators@[k]).generator_name() != name,
    {
        lemma_first_match(self.names(), is_text(name));
        assert forall|k: int| 0 <= k < self.position_of(name) implies (
        #[trigger] self.generators@[k]).generator_name() != name by {
            assert(self.names()[k] == self.generators@[k].generator_name());
        }
    }

    /// The last registration under a name wins, and touches no other name:
    /// where `after` is `before` with `generator` registered, looking up the
    /// generator's name in `after` finds that generator, and looking up any
    /// other name finds what it found in `before`.
    pub proof fn lemma_last_registration_wins(before: Self, after: Self, generator: G, other: Seq<char>)
        requires
            after.generators@ == if before.position_of(generator.generator_name()) < before.generators@.len() {
                before.generators@.update(before.position_of(generator.generator_name()), generator)
            } else {
                before.generators@.push(generator)
            },
        ensures
            after.position_of(generator.generator_name()) < after.generators@.len(),
            after.generators@[after.position_of(generator.generator_name())] == generator,
            other != generator.generator_name() ==> (after.position_of(other) < after.generators@.len()
                <==> before.position_of(other) < before.generators@.len()),
            other != generator.generator_name() && before.position_of(other) < before.generators@.len()
                ==> after.generators@[after.position_of(other)] == before.generators@[before.position_of(
                other,
            )],
    {
        before.lemma_position_of(generator.generator_name());
        before.lemma_position_of(other);
        assert(after.names() =~= with_text(before.names(), generator.generator_name()));
        lemma_with_text(before.names(), generator.generator_name(), other);
    }

    /// A registry without generators.
    pub fn empty() -> (registry: Self)
        ensures
            registry.wf(),
            registry.generators@.len() == 0,
    {
        GeneratorRegistry { generators: Vec::new() }
    }

    fn find(&self, name: &str) -> (at: usize)
        ensures
            at == self.position_of(name@),
            at <= self.generators@.len(),
    {
        let mut i: usize = 0;
        while i < self.generators.len()
            invariant
                i <= self.generators.len(),
                forall|k: int| 0 <= k < i ==> self.names()[k] != name@,
            decreases self.generators.len() - i,
        {
            let found = self.generators[i].name();
            if same_text(found.as_str(), name) {
                proof {
                    lemma_first_match_is(self.names(), is_text(name@), i as int);
                }
                return i;
            }
            i += 1;
        }
        proof {
            lemma_first_match_is(self.names(), is_text(name@), i as int);
        }
        i
    }

    /// Adds a generator under its name. A generator registered earlier under
    /// the same name gives way to the new one, which takes its place in the
    /// order.
    pub fn register(&mut self, generator: G)
        requires
            old(self).wf(),
        ensures
            final(self).wf(),
            final(self).generators@ == if old(self).position_of(generator.generator_name()) < old(
                self,
            ).generators@.len() {
                old(self).generators@.update(
                    old(self).position_of(generator.generator_name()),
                    generator,
                )
            } else {
                old(self).generators@.push(generator)
            },
    {
        let name = generator.name();
        let at = self.find(name.as_str());
        let ghost before = *self;
        proof {
            before.lemma_position_of(generator.generator_name());
        }
        if at < self.generators.len() {
            self.generators.set(at, generator);
            assert(self.names() =~= before.names());
        } else {
            self.generators.push(generator);
            assert(self.names() =~= before.names().push(generator.generator_name()));
            assert forall|i: int, j: int|
                0 <= i < self.names().len() && 0 <= j < self.names().len() && i
                    != j implies self.names()[i] != self.names()[j] by {
                if i < before.names().len() && j < before.names().len() {
                } else if i < before.names().len() {
                    assert(before.generators@[i].generator_name() != generator.generator_name());
                } else {
                    assert(before.generators@[j].generator_name() != generator.generator_name());
                }
            }
        }
    }

    /// The generator registered as `name`, if there is one.
    pub fn get(&self, name: &str) -> (found: Option<&G>)
        ensures
            found is Some <==> self.position_of(name@) < self.generators@.len(),
            found matches Some(generator) ==> *generator == self.generators@[self.position_of(
                name@,
            )] && generator.generator_name() == name@,
    {
        let at = self.find(name);
        proof {
            self.lemma_position_of(name@);
        }
        if at < self.generators.len() {
            Some(&self.generators[at])
        } else {
            None
        }
    }

    /// The generator registered as `name`, or the failure that names it.
    pub fn require(&self, name: &str) -> (found: Result<&G, Error>)
        ensures
            found is Ok <==> self.position_of(name@) < self.generators@.len(),
            found matches Ok(generator) ==> *generator == self.generators@[self.position_of(
                name@,
            )] && generator.generator_name() == name@,
            found matches Err(e) ==> e@ == (ErrorView::UnknownGenerator { name: name@ }),
    {
        match self.get(name) {
            Some(generator) => Ok(generator),
            None => Err(Error::UnknownGenerator { name: String::from_str(name) }),
        }
    }

    /// What running one generation target gives. A target that is switched
    /// off gives nothing. Otherwise the generator that the target names must
    /// be registered and must accept the configuration; what it makes is
    /// handed back.
    pub open spec fn target_outcome(
        &self,
        ir: SchemaIRView,
        config: GenerationConfigView,
    ) -> Result<Option<GenerationView>, ErrorView> {
        let at = self.position_of(config.generator);
        if !config.enabled {
            Ok(None)
        } else if at >= self.generators@.len() {
            Err(ErrorView::UnknownGenerator { name: config.generator })
        } else {
            match self.generators@[at].validation(config) {
                Err(e) => Err(e),
                Ok(()) => match self.generators@[at].generation(ir, config) {
                    Ok(generation) => Ok(Some(generation)),
                    Err(e) => Err(e),
                },
            }
        }
    }

    /// Runs one generation target.
    pub fn run_target(&self, schema_ir: &SchemaIR, config: &GenerationConfig) -> (result: Result<
        Option<Generation>,
        Error,
    >)
        ensures
            target_view(result) == self.target_outcome(schema_ir@, config@),
    {
        if !config.enabled {
            return Ok(None);
        }
        let generator = match self.require(config.generator.as_str()) {
            Ok(generator) => generator,
            Err(e) => {
                return Err(e);
            },
        };
        match generator.validate_config(config) {
            Ok(()) => {},
            Err(e) => {
                return Err(e);
            },
        }
        match generator.generate_from_ir(schema_ir, config) {
            Ok(generation) => Ok(Some(generation)),
            Err(e) => Err(e),
        }
    }

    /// The names of the registered generators, in order.
    pub fn available_generators(&self) -> (names: Vec<String>)
        ensures
            names.deep_view() == self.names(),
    {
        let mut names: Vec<String> = Vec::new();
        let mut i: usize = 0;
        while i < self.generators.len()
            invariant
                i <= self.generators.len(),
                names.len() == i,
                forall|k: int| 0 <= k < i ==> names@[k]@ == self.generators@[k].generator_name(),
            decreases self.generators.len() - i,
        {
            names.push(self.generators[i].name());
            i += 1;
        }
        assert(names.deep_view() =~= self.names());
        names
    }
}

} // verus!
