//! Schemas processed for direct use: every reusable schema with its
//! properties and, for each property, its type in every template target.
//! An entry that is a reference stands for the schema it leads to.

use vstd::prelude::*;
use vstd::string::*;
use crate::parsers::openapi_parser::{
    extract_ref_type_info, extract_type_info, schema_ref_type_info, schema_type_info,
};
use crate::parsers::schema_ir::TypeInfoView;
use crate::parsers::source::{
    entry_position, last_segment, last_segment_of, NamedSchema, RefOr, SchemaTable, SourceDocument,
    SourceSchema, SourceSchemaKind,
};
use crate::projection::{golang_type, python_type, zod_type};
use crate::text::{clone_opt_text, clone_texts, contains_text, lemma_deep_view_push};

pub use crate::parsers::schema_ir::TypeInfo;

verus! {

/// A reusable schema with its processed properties.
#[derive(Debug, Clone)]
pub struct ProcessedSchema {
    pub name: String,
    pub properties: Vec<SchemaProperty>,
    /// The names of the properties that must be present.
    pub required: Vec<String>,
    pub description: Option<String>,
}

/// The mathematical view of `ProcessedSchema`: texts as sequences of characters, lists as sequences.
pub struct ProcessedSchemaView {
    pub name: Seq<char>,
    pub properties: Seq<SchemaPropertyView>,
    pub required: Seq<Seq<char>>,
    pub description: Option<Seq<char>>,
}

impl View for ProcessedSchema {
    type V = ProcessedSchemaView;

    open spec fn view(&self) -> ProcessedSchemaView {
        ProcessedSchemaView {
            name: self.name@,
            properties: self.properties.deep_view(),
            required: self.required.deep_view(),
            description: self.description.deep_view(),
        }
    }
}

impl DeepView for ProcessedSchema {
    type V = ProcessedSchemaView;

    open spec fn deep_view(&self) -> ProcessedSchemaView {
        self.view()
    }
}

/// A property with its type in every template target.
#[derive(Debug, Clone)]
pub struct SchemaProperty {
    pub name: String,
    pub type_info: TypeInfo,
    pub required: bool,
    pub description: Option<String>,
    pub nullable: bool,
    pub typescript_type: String,
    pub python_type: String,
    pub golang_type: String,
}

/// The mathematical view of `SchemaProperty`: texts as sequences of characters, lists as sequences.
pub struct SchemaPropertyView {
    pub name: Seq<char>,
    pub type_info: TypeInfoView,
    pub required: bool,
    pub description: Option<Seq<char>>,
    pub nullable: bool,
    pub typescript_type: Seq<char>,
    pub python_type: Seq<char>,
    pub golang_type: Seq<char>,
}

impl View for SchemaProperty {
    type V = SchemaPropertyView;

    open spec fn view(&self) -> SchemaPropertyView {
        SchemaPropertyView {
            name: self.name@,
            type_info: self.type_info@,
            required: self.required,
            description: self.description.deep_view(),
            nullable: self.nullable,
            typescript_type: self.typescript_type@,
            python_type: self.python_type@,
            golang_type: self.golang_type@,
        }
    }
}

impl DeepView for SchemaProperty {
    type V = SchemaPropertyView;

    open spec fn deep_view(&self) -> SchemaPropertyView {
        self.view()
    }
}

/// The processed form of a property: its type node and the projection of
/// that node onto each template target. It is required exactly when its
/// name is among `required`; no description is carried and none is
/// nullable.
pub open spec fn processed_property(
    property: NamedSchema,
    required: Seq<Seq<char>>,
) -> SchemaPropertyView {
    let type_info = schema_ref_type_info(property.schema);
    SchemaPropertyView {
        name: property.name@,
        type_info,
        required: required.contains(property.name@),
        description: None,
        nullable: false,
        typescript_type: zod_type(type_info),
        python_type: python_type(type_info),
        golang_type: golang_type(type_info),
    }
}

/// The processed form of an inline schema, still without a name: its
/// properties and required names where it is an object schema, and nothing
/// but the description where it is not.
pub open spec fn schema_data(schema: SourceSchema) -> ProcessedSchemaView {
    match schema.kind {
        SourceSchemaKind::Object { properties, required } => ProcessedSchemaView {
            name: Seq::empty(),
            properties: Seq::new(
                properties@.len(),
                |i: int| processed_property(properties@[i], required.deep_view()),
            ),
            required: required.deep_view(),
            description: schema.description.deep_view(),
        },
        _ => ProcessedSchemaView {
            name: Seq::empty(),
            properties: Seq::empty(),
            required: Seq::empty(),
            description: schema.description.deep_view(),
        },
    }
}

/// The inline schema that `schema` leads to by at most `hops` references.
/// A reference leads to the entry of `entries` that is called by the
/// reference's last path segment. There is none where a reference names no
/// entry, or where `hops` references do not end at an inline schema.
pub open spec fn resolved(
    entries: Seq<NamedSchema>,
    schema: RefOr<SourceSchema>,
    hops: nat,
) -> Option<SourceSchema>
    decreases hops,
{
    match schema {
        RefOr::Item(inline) => Some(inline),
        RefOr::Reference { reference } => {
            let at = entry_position(entries, last_segment(reference@));
            if hops > 0 && at < entries.len() {
                resolved(entries, entries[at].schema, (hops - 1) as nat)
            } else {
                None
            }
        },
    }
}

/// Allowing more references never changes where a schema leads, once it
/// leads somewhere.
pub proof fn lemma_resolved_is_stable(
    entries: Seq<NamedSchema>,
    schema: RefOr<SourceSchema>,
    hops: nat,
    more: nat,
)
    requires
        resolved(entries, schema, hops) is Some,
        hops <= more,
    ensures
        resolved(entries, schema, more) == resolved(entries, schema, hops),
    decreases hops,
{
    match schema {
        RefOr::Item(_) => {},
        RefOr::Reference { reference } => {
            let at = entry_position(entries, last_segment(reference@));
            lemma_resolved_is_stable(
                entries,
                entries[at].schema,
                (hops - 1) as nat,
                (more - 1) as nat,
            );
        },
    }
}

/// The processed form of the entry at `position`, where it leads to an
/// inline schema. As many references are followed as the table has entries:
/// a chain that is longer goes in a circle.
pub open spec fn processed_entry(entries: Seq<NamedSchema>, position: int) -> Option<
    ProcessedSchemaView,
> {
    match resolved(entries, entries[position].schema, entries.len()) {
        Some(inline) => Some(
            ProcessedSchemaView { name: entries[position].name@, ..schema_data(inline) },
        ),
        None => None,
    }
}

/// The processed forms of the first `count` entries, in order; entries that
/// lead to no inline schema are passed over.
pub open spec fn processed_schemas(entries: Seq<NamedSchema>, count: nat) -> Seq<
    ProcessedSchemaView,
>
    decreases count,
{
    if count == 0 {
        Seq::empty()
    } else {
        let rest = processed_schemas(entries, (count - 1) as nat);
        match processed_entry(entries, count - 1) {
            Some(processed) => rest.push(processed),
            None => rest,
        }
    }
}

/// Extracts the type node of a schema or of a reference to one.
pub fn extract_type_info_from_box(schema_ref: &RefOr<SourceSchema>) -> (info: TypeInfo)
    ensures
        info@ == schema_ref_type_info(*schema_ref),
{
    extract_ref_type_info(schema_ref)
}

/// Extracts the type node of an inline schema.
pub fn extract_type_info_from_schema(schema: &SourceSchema) -> (info: TypeInfo)
    ensures
        info@ == schema_type_info(*schema),
{
    extract_type_info(schema)
}

/// Processes an inline schema.
pub fn extract_schema_data(schema: &SourceSchema) -> (data: ProcessedSchema)
    ensures
        data@ == schema_data(*schema),
{
    let mut made: Vec<SchemaProperty> = Vec::new();
    let mut listed: Vec<String> = Vec::new();
    if let SourceSchemaKind::Object { properties, required } = &schema.kind {
        listed = clone_texts(required);
        let mut i: usize = 0;
        while i < properties.len()
            invariant
                i <= properties.len(),
                made.len() == i,
                forall|k: int|
                    0 <= k < i ==> made@[k]@ == processed_property(
                        properties@[k],
                        required.deep_view(),
                    ),
            decreases properties.len() - i,
        {
            let property = &properties[i];
            let type_info = extract_type_info_from_box(&property.schema);
            let typescript_type = type_info.to_typescript();
            let python_type = type_info.to_python();
            let golang_type = type_info.to_golang();
            made.push(
                SchemaProperty {
                    name: property.name.clone(),
                    type_info,
                    required: contains_text(required, property.name.as_str()),
                    description: None,
                    nullable: false,
                    typescript_type,
                    python_type,
                    golang_type,
                },
            );
            i += 1;
        }
        assert(made.deep_view() =~= schema_data(*schema).properties);
    } else {
        assert(made.deep_view() =~= Seq::empty());
        assert(listed.deep_view() =~= Seq::empty());
    }
    ProcessedSchema {
        name: String::new(),
        properties: made,
        required: listed,
        description: clone_opt_text(&schema.description),
    }
}

/// Processes the schema that `schema_ref` leads to by at most `hops`
/// references through `schemas`.
pub fn process_schema_ref(schema_ref: &RefOr<SourceSchema>, schemas: &SchemaTable, hops: usize) -> (data:
    Option<ProcessedSchema>)
    requires
        schemas.wf(),
    ensures
        data.deep_view() == match resolved(schemas@, *schema_ref, hops as nat) {
            Some(inline) => Some(schema_data(inline)),
            None => None,
        },
    decreases hops,
{
    match schema_ref {
        RefOr::Reference { reference } => {
            if hops == 0 {
                return None;
            }
            match schemas.get(last_segment_of(reference.as_str())) {
                Some(entry) => process_schema_ref(&entry.schema, schemas, hops - 1),
                None => None,
            }
        },
        RefOr::Item(schema) => Some(extract_schema_data(schema)),
    }
}

/// Processes the reusable schemas of a document.
pub fn extract_schemas(document: &SourceDocument) -> (schemas: Vec<ProcessedSchema>)
    requires
        document.schemas.wf(),
    ensures
        schemas.deep_view() == processed_schemas(document.schemas@, document.schemas@.len()),
{
    let table = &document.schemas;
    let count = table.len();
    let mut schemas: Vec<ProcessedSchema> = Vec::new();
    let mut i: usize = 0;
    assert(schemas.deep_view() =~= Seq::empty());
    while i < count
        invariant
            i <= count,
            count == table@.len(),
            table.wf(),
            schemas.deep_view() == processed_schemas(table@, i as nat),
        decreases count - i,
    {
        let entry = table.entry(i);
        if let Some(data) = process_schema_ref(&entry.schema, table, count) {
            let processed = ProcessedSchema {
                name: entry.name.clone(),
                properties: data.properties,
                required: data.required,
                description: data.description,
            };
            let ghost before = schemas;
            schemas.push(processed);
            proof {
                lemma_deep_view_push(before, schemas, processed);
            }
        }
        i += 1;
    }
    schemas
}

} // verus!
