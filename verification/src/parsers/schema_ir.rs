//! The intermediate representation: the normalized model of a parsed API
//! description, shared read-only by every generation target.

use vstd::prelude::*;
use vstd::string::*;
use serde_json::Value as JsonValue;
use crate::projection::{
    golang_scalar, golang_slice_text, golang_type, python_list_text, python_scalar, python_type,
    zod_array_text, zod_enum_text, zod_scalar, zod_type,
};
use crate::text::{clone_opt_text, clone_texts, same_text};

verus! {

/// A key with the raw JSON value it carried: a vendor extension, an option.
#[derive(Debug, Clone)]
pub struct JsonEntry {
    pub key: String,
    pub value: JsonValue,
}

/// The mathematical view of `JsonEntry`: texts as sequences of characters, lists as sequences.
pub struct JsonEntryView {
    pub key: Seq<char>,
    pub value: JsonValue,
}

impl View for JsonEntry {
    type V = JsonEntryView;

    open spec fn view(&self) -> JsonEntryView {
        JsonEntryView { key: self.key@, value: self.value }
    }
}

impl DeepView for JsonEntry {
    type V = JsonEntryView;

    open spec fn deep_view(&self) -> JsonEntryView {
        self.view()
    }
}

/// The whole normalized document.
#[derive(Debug, Clone)]
pub struct SchemaIR {
    /// Normalized metadata of the source.
    pub metadata: Metadata,
    /// Schema definitions, in the order in which the source declares them.
    pub schemas: Vec<SchemaDefinition>,
    /// Operation definitions, in path order and, within a path, in method
    /// order.
    pub operations: Vec<OperationDefinition>,
    /// What the source held, kept for generators that need more than the
    /// normalized model.
    pub original: OriginalData,
}

/// The mathematical view of `SchemaIR`: texts as sequences of characters, lists as sequences.
pub struct SchemaIRView {
    pub metadata: MetadataView,
    pub schemas: Seq<SchemaDefinitionView>,
    pub operations: Seq<OperationDefinitionView>,
    pub original: OriginalDataView,
}

impl View for SchemaIR {
    type V = SchemaIRView;

    open spec fn view(&self) -> SchemaIRView {
        SchemaIRView {
            metadata: self.metadata@,
            schemas: self.schemas.deep_view(),
            operations: self.operations.deep_view(),
            original: self.original@,
        }
    }
}

/// The source as it was, before normalization.
#[derive(Debug, Clone)]
pub struct OriginalData {
    /// Format tag, such as `openapi`.
    pub format: String,
    /// The full source document as one JSON value.
    pub data: JsonValue,
    /// Format-specific extensions, each under a key that names its scope.
    pub extensions: Vec<JsonEntry>,
}

/// The mathematical view of `OriginalData`: texts as sequences of characters, lists as sequences.
pub struct OriginalDataView {
    pub format: Seq<char>,
    pub data: JsonValue,
    pub extensions: Seq<JsonEntryView>,
}

impl View for OriginalData {
    type V = OriginalDataView;

    open spec fn view(&self) -> OriginalDataView {
        OriginalDataView {
            format: self.format@,
            data: self.data,
            extensions: self.extensions.deep_view(),
        }
    }
}

/// What a document says of itself.
#[derive(Debug, Clone)]
pub struct Metadata {
    pub title: String,
    pub version: String,
    pub description: Option<String>,
    /// The URL of the first declared server, if any.
    pub base_url: Option<String>,
    /// Vendor extensions of the document's info section.
    pub custom: Vec<JsonEntry>,
}

/// The mathematical view of `Metadata`: texts as sequences of characters, lists as sequences.
pub struct MetadataView {
    pub title: Seq<char>,
    pub version: Seq<char>,
    pub description: Option<Seq<char>>,
    pub base_url: Option<Seq<char>>,
    pub custom: Seq<JsonEntryView>,
}

impl View for Metadata {
    type V = MetadataView;

    open spec fn view(&self) -> MetadataView {
        MetadataView {
            title: self.title@,
            version: self.version@,
            description: self.description.deep_view(),
            base_url: self.base_url.deep_view(),
            custom: self.custom.deep_view(),
        }
    }
}

/// A named schema with its fields.
#[derive(Debug, Clone)]
pub struct SchemaDefinition {
    pub name: String,
    pub fields: Vec<FieldDefinition>,
    pub description: Option<String>,
    /// The schema as the source wrote it.
    pub original: JsonValue,
}

/// The mathematical view of `SchemaDefinition`: texts as sequences of characters, lists as sequences.
pub struct SchemaDefinitionView {
    pub name: Seq<char>,
    pub fields: Seq<FieldDefinitionView>,
    pub description: Option<Seq<char>>,
    pub original: JsonValue,
}

impl View for SchemaDefinition {
    type V = SchemaDefinitionView;

    open spec fn view(&self) -> SchemaDefinitionView {
        SchemaDefinitionView {
            name: self.name@,
            fields: self.fields.deep_view(),
            description: self.description.deep_view(),
            original: self.original,
        }
    }
}

impl DeepView for SchemaDefinition {
    type V = SchemaDefinitionView;

    open spec fn deep_view(&self) -> SchemaDefinitionView {
        self.view()
    }
}

/// One field of a schema.
#[derive(Debug, Clone)]
pub struct FieldDefinition {
    pub name: String,
    pub type_info: TypeInfo,
    pub required: bool,
    pub description: Option<String>,
    /// The property as the source wrote it.
    pub original: JsonValue,
}

/// The mathematical view of `FieldDefinition`: texts as sequences of characters, lists as sequences.
pub struct FieldDefinitionView {
    pub name: Seq<char>,
    pub type_info: TypeInfoView,
    pub required: bool,
    pub description: Option<Seq<char>>,
    pub original: JsonValue,
}

impl View for FieldDefinition {
    type V = FieldDefinitionView;

    open spec fn view(&self) -> FieldDefinitionView {
        FieldDefinitionView {
            name: self.name@,
            type_info: self.type_info@,
            required: self.required,
            description: self.description.deep_view(),
            original: self.original,
        }
    }
}

impl DeepView for FieldDefinition {
    type V = FieldDefinitionView;

    open spec fn deep_view(&self) -> FieldDefinitionView {
        self.view()
    }
}

/// One node of the recursive type model.
///
/// At most one reading of a node is active when it is rendered, chosen in a
/// fixed order: array, then reference, then enumeration, then primitive.
#[derive(Debug)]
pub struct TypeInfo {
    /// One of `string`, `number`, `integer`, `boolean`, `object`, `array`,
    /// `any`.
    pub openapi_type: String,
    pub format: Option<String>,
    pub is_array: bool,
    /// The element type of an array.
    pub array_item_type: Option<Box<TypeInfo>>,
    /// The name of the schema that this node points to.
    pub reference: Option<String>,
    pub enum_values: Option<Vec<String>>,
}

/// The mathematical view of `TypeInfo`: texts as sequences of characters, lists as sequences.
pub struct TypeInfoView {
    pub openapi_type: Seq<char>,
    pub format: Option<Seq<char>>,
    pub is_array: bool,
    pub array_item_type: Option<Box<TypeInfoView>>,
    pub reference: Option<Seq<char>>,
    pub enum_values: Option<Seq<Seq<char>>>,
}

impl View for TypeInfo {
    type V = TypeInfoView;

    open spec fn view(&self) -> TypeInfoView
        decreases self,
    {
        TypeInfoView {
            openapi_type: self.openapi_type@,
            format: self.format.deep_view(),
            is_array: self.is_array,
            array_item_type: match self.array_item_type {
                Some(item) => Some(Box::new((*item).view())),
                None => None,
            },
            reference: self.reference.deep_view(),
            enum_values: self.enum_values.deep_view(),
        }
    }
}

impl DeepView for TypeInfo {
    type V = TypeInfoView;

    open spec fn deep_view(&self) -> TypeInfoView {
        self.view()
    }
}

impl Clone for TypeInfo {
    fn clone(&self) -> (copy: TypeInfo)
        ensures
            copy@ == self@,
    {
        self.duplicate()
    }
}

impl TypeInfo {
    /// A copy of this node and of the nodes below it.
    pub fn duplicate(&self) -> (copy: TypeInfo)
        ensures
            copy@ == self@,
        decreases self,
    {
        TypeInfo {
            openapi_type: self.openapi_type.clone(),
            format: clone_opt_text(&self.format),
            is_array: self.is_array,
            array_item_type: match &self.array_item_type {
                Some(item) => Some(Box::new(item.duplicate())),
                None => None,
            },
            reference: clone_opt_text(&self.reference),
            enum_values: match &self.enum_values {
                Some(values) => Some(clone_texts(values)),
                None => None,
            },
        }
    }

    /// The validation-schema expression of this type.
    pub fn to_typescript(&self) -> (out: String)
        ensures
            out@ == zod_type(self@),
        decreases self,
    {
        if self.is_array {
            match &self.array_item_type {
                Some(item) => zod_array_text(item.to_typescript()),
                None => zod_array_text(String::from_str("z.any()")),
            }
        } else {
            self.to_typescript_zod()
        }
    }

    /// The validation-schema expression of this type read as a single value:
    /// the array flag is not looked at.
    pub fn to_typescript_zod(&self) -> (out: String)
        ensures
            out@ == zod_scalar(self@),
    {
        if let Some(name) = &self.reference {
            return name.clone();
        }
        if let Some(values) = &self.enum_values {
            return zod_enum_text(values);
        }
        let kind = self.openapi_type.as_str();
        if same_text(kind, "string") {
            match &self.format {
                Some(format) => {
                    let format = format.as_str();
                    if same_text(format, "date") || same_text(format, "date-time") {
                        String::from_str("z.date().or(z.string())")
                    } else if same_text(format, "email") {
                        String::from_str("z.string().email()")
                    } else if same_text(format, "uuid") {
                        String::from_str("z.string().uuid()")
                    } else if same_text(format, "uri") {
                        String::from_str("z.string().url()")
                    } else {
                        String::from_str("z.string()")
                    }
                },
                None => String::from_str("z.string()"),
            }
        } else if same_text(kind, "integer") || same_text(kind, "number") {
            String::from_str("z.number()")
        } else if same_text(kind, "boolean") {
            String::from_str("z.boolean()")
        } else {
            String::from_str("z.any()")
        }
    }

    /// The type annotation of this type in the dynamic target.
    pub fn to_python(&self) -> (out: String)
        ensures
            out@ == python_type(self@),
        decreases self,
    {
        if self.is_array {
            match &self.array_item_type {
                Some(item) => python_list_text(item.to_python()),
                None => python_list_text(String::from_str("Any")),
            }
        } else {
            self.to_python_type()
        }
    }

    /// The type annotation of this type read as a single value: the array
    /// flag is not looked at.
    pub fn to_python_type(&self) -> (out: String)
        ensures
            out@ == python_scalar(self@),
    {
        if let Some(name) = &self.reference {
            return name.clone();
        }
        if self.enum_values.is_some() {
            return String::from_str("str");
        }
        let kind = self.openapi_type.as_str();
        if same_text(kind, "string") {
            match &self.format {
                Some(format) => {
                    let format = format.as_str();
                    if same_text(format, "date") || same_text(format, "date-time") {
                        String::from_str("datetime")
                    } else {
                        String::from_str("str")
                    }
                },
                None => String::from_str("str"),
            }
        } else if same_text(kind, "integer") {
            String::from_str("int")
        } else if same_text(kind, "number") {
            String::from_str("float")
        } else if same_text(kind, "boolean") {
            String::from_str("bool")
        } else if same_text(kind, "object") {
            String::from_str("Dict[str, Any]")
        } else {
            String::from_str("Any")
        }
    }

    /// The type of this type in the compiled target.
    pub fn to_golang(&self) -> (out: String)
        ensures
            out@ == golang_type(self@),
        decreases self,
    {
        if self.is_array {
            match &self.array_item_type {
                Some(item) => golang_slice_text(item.to_golang()),
                None => golang_slice_text(String::from_str("interface{}")),
            }
        } else {
            self.to_golang_type()
        }
    }

    /// The type of this type in the compiled target, read as a single value:
    /// the array flag is not looked at.
    pub fn to_golang_type(&self) -> (out: String)
        ensures
            out@ == golang_scalar(self@),
    {
        if let Some(name) = &self.reference {
            return name.clone();
        }
        if self.enum_values.is_some() {
            return String::from_str("string");
        }
        let kind = self.openapi_type.as_str();
        if same_text(kind, "string") {
            String::from_str("string")
        } else if same_text(kind, "integer") {
            match &self.format {
                Some(format) => {
                    let format = format.as_str();
                    if same_text(format, "int32") {
                        String::from_str("int32")
                    } else if same_text(format, "int64") {
                        String::from_str("int64")
                    } else {
                        String::from_str("int")
                    }
                },
                None => String::from_str("int"),
            }
        } else if same_text(kind, "number") {
            match &self.format {
                Some(format) => {
                    if same_text(format.as_str(), "float") {
                        String::from_str("float32")
                    } else {
                        String::from_str("float64")
                    }
                },
                None => String::from_str("float64"),
            }
        } else if same_text(kind, "boolean") {
            String::from_str("bool")
        } else if same_text(kind, "object") {
            String::from_str("map[string]interface{}")
        } else {
            String::from_str("interface{}")
        }
    }
}

/// One operation: a method on a path.
#[derive(Debug, Clone)]
pub struct OperationDefinition {
    /// The operation's identifier: the one the source gives, or one made
    /// from method and path.
    pub id: String,
    pub method: HttpMethod,
    /// The path template, such as `/users/{id}`.
    pub path: String,
    pub parameters: Vec<Parameter>,
    pub request_body: Option<SchemaReference>,
    pub response: Option<SchemaReference>,
    pub description: Option<String>,
    pub tags: Vec<String>,
    /// The operation as the source wrote it.
    pub original: JsonValue,
}

/// The mathematical view of `OperationDefinition`: texts as sequences of characters, lists as sequences.
pub struct OperationDefinitionView {
    pub id: Seq<char>,
    pub method: HttpMethod,
    pub path: Seq<char>,
    pub parameters: Seq<ParameterView>,
    pub request_body: Option<SchemaReferenceView>,
    pub response: Option<SchemaReferenceView>,
    pub description: Option<Seq<char>>,
    pub tags: Seq<Seq<char>>,
    pub original: JsonValue,
}

impl View for OperationDefinition {
    type V = OperationDefinitionView;

    open spec fn view(&self) -> OperationDefinitionView {
        OperationDefinitionView {
            id: self.id@,
            method: self.method,
            path: self.path@,
            parameters: self.parameters.deep_view(),
            request_body: self.request_body.deep_view(),
            response: self.response.deep_view(),
            description: self.description.deep_view(),
            tags: self.tags.deep_view(),
            original: self.original,
        }
    }
}

impl DeepView for OperationDefinition {
    type V = OperationDefinitionView;

    open spec fn deep_view(&self) -> OperationDefinitionView {
        self.view()
    }
}

/// The HTTP methods that an operation can have.
#[derive(Debug, Clone, Copy, PartialEq, Eq, Structural)]
pub enum HttpMethod {
    Get,
    Post,
    Put,
    Delete,
    Patch,
    Head,
    Options,
}

impl HttpMethod {
    /// The method's name in capitals, as it stands on the wire.
    pub open spec fn upper_name(self) -> Seq<char> {
        match self {
            HttpMethod::Get => "GET"@,
            HttpMethod::Post => "POST"@,
            HttpMethod::Put => "PUT"@,
            HttpMethod::Delete => "DELETE"@,
            HttpMethod::Patch => "PATCH"@,
            HttpMethod::Head => "HEAD"@,
            HttpMethod::Options => "OPTIONS"@,
        }
    }

    /// The method's name in small letters, as identifiers use it.
    pub open spec fn lower_name(self) -> Seq<char> {
        match self {
            HttpMethod::Get => "get"@,
            HttpMethod::Post => "post"@,
            HttpMethod::Put => "put"@,
            HttpMethod::Delete => "delete"@,
            HttpMethod::Patch => "patch"@,
            HttpMethod::Head => "head"@,
            HttpMethod::Options => "options"@,
        }
    }

    /// The method's name in capitals.
    pub fn as_upper(&self) -> (name: &'static str)
        ensures
            name@ == self.upper_name(),
    {
        match self {
            HttpMethod::Get => "GET",
            HttpMethod::Post => "POST",
            HttpMethod::Put => "PUT",
            HttpMethod::Delete => "DELETE",
            HttpMethod::Patch => "PATCH",
            HttpMethod::Head => "HEAD",
            HttpMethod::Options => "OPTIONS",
        }
    }

    /// The method's name in small letters.
    pub fn as_lower(&self) -> (name: &'static str)
        ensures
            name@ == self.lower_name(),
    {
        match self {
            HttpMethod::Get => "get",
            HttpMethod::Post => "post",
            HttpMethod::Put => "put",
            HttpMethod::Delete => "delete",
            HttpMethod::Patch => "patch",
            HttpMethod::Head => "head",
            HttpMethod::Options => "options",
        }
    }
}

/// One parameter of an operation.
#[derive(Debug, Clone)]
pub struct Parameter {
    pub name: String,
    pub location: ParameterLocation,
    pub required: bool,
    /// A coarse primitive tag.
    pub schema_type: String,
    pub description: Option<String>,
}

/// The mathematical view of `Parameter`: texts as sequences of characters, lists as sequences.
pub struct ParameterView {
    pub name: Seq<char>,
    pub location: ParameterLocation,
    pub required: bool,
    pub schema_type: Seq<char>,
    pub description: Option<Seq<char>>,
}

impl View for Parameter {
    type V = ParameterView;

    open spec fn view(&self) -> ParameterView {
        ParameterView {
            name: self.name@,
            location: self.location,
            required: self.required,
            schema_type: self.schema_type@,
            description: self.description.deep_view(),
        }
    }
}

impl DeepView for Parameter {
    type V = ParameterView;

    open spec fn deep_view(&self) -> ParameterView {
        self.view()
    }
}

/// Where a parameter is sent.
#[derive(Debug, Clone, Copy, PartialEq, Eq, Structural)]
pub enum ParameterLocation {
    Query,
    Path,
    Header,
    Cookie,
}

impl ParameterLocation {
    /// The location's name in small letters.
    pub open spec fn lower_name(self) -> Seq<char> {
        match self {
            ParameterLocation::Query => "query"@,
            ParameterLocation::Path => "path"@,
            ParameterLocation::Header => "header"@,
            ParameterLocation::Cookie => "cookie"@,
        }
    }

    /// The location's name in small letters.
    pub fn as_lower(&self) -> (name: &'static str)
        ensures
            name@ == self.lower_name(),
    {
        match self {
            ParameterLocation::Query => "query",
            ParameterLocation::Path => "path",
            ParameterLocation::Header => "header",
            ParameterLocation::Cookie => "cookie",
        }
    }
}

/// A link to a schema by name, with a coarse type tag.
#[derive(Debug, Clone)]
pub struct SchemaReference {
    pub name: String,
    pub schema_type: String,
}

/// The mathematical view of `SchemaReference`: texts as sequences of characters, lists as sequences.
pub struct SchemaReferenceView {
    pub name: Seq<char>,
    pub schema_type: Seq<char>,
}

impl View for SchemaReference {
    type V = SchemaReferenceView;

    open spec fn view(&self) -> SchemaReferenceView {
        SchemaReferenceView { name: self.name@, schema_type: self.schema_type@ }
    }
}

impl DeepView for SchemaReference {
    type V = SchemaReferenceView;

    open spec fn deep_view(&self) -> SchemaReferenceView {
        self.view()
    }
}

} // verus!
