//! The generic document model: an API description as the extractor reads it,
//! after decoding and before normalization.
//!
//! The model holds what the extractor looks at and nothing else. Names and
//! texts are strings; raw fragments are JSON values that the extractor hands
//! on without reading them; the order of every list is the order of the
//! source.

use vstd::prelude::*;
use vstd::string::*;
use indexmap::IndexMap;
use serde_json::Value as JsonValue;
use crate::name_index::{index_entries, index_get, index_insert, index_new};
use crate::parsers::schema_ir::{JsonEntry, ParameterLocation};
use crate::search::{
    first_match, is_text, lemma_first_match, lemma_first_match_is, lemma_with_text, with_text,
};

verus! {

/// Either a pointer to a definition elsewhere in the document, or the
/// definition itself.
#[derive(Debug)]
pub enum RefOr<T> {
    /// A `$ref`, with the reference string as written.
    Reference { reference: String },
    Item(T),
}

/// What an inline schema is.
#[derive(Debug)]
pub enum SourceSchemaKind {
    String {
        /// The declared format, as written.
        format: Option<String>,
        /// The declared enumeration; a null member is `None`.
        enumeration: Vec<Option<String>>,
    },
    Number { format: Option<String> },
    Integer { format: Option<String> },
    Boolean,
    Array { items: Option<Box<RefOr<SourceSchema>>> },
    Object {
        properties: Vec<NamedSchema>,
        /// The names of the properties that must be present.
        required: Vec<String>,
    },
    /// Anything else: a composition, a negation, an untyped schema.
    Other,
}

/// An inline schema.
#[derive(Debug)]
pub struct SourceSchema {
    pub kind: SourceSchemaKind,
    pub description: Option<String>,
}

/// A schema under a name: an entry of the reusable schemas, or a property of
/// an object schema.
#[derive(Debug)]
pub struct NamedSchema {
    pub name: String,
    pub schema: RefOr<SourceSchema>,
    /// The entry's value as the source wrote it.
    pub original: JsonValue,
}

/// The names of `entries`, in order.
pub open spec fn entry_names(entries: Seq<NamedSchema>) -> Seq<Seq<char>> {
    Seq::new(entries.len(), |i: int| entries[i].name@)
}

/// The position of the first of `entries` called `name`; the number of
/// entries where there is none.
pub open spec fn entry_position(entries: Seq<NamedSchema>, name: Seq<char>) -> int {
    first_match(entry_names(entries), is_text(name))
}

/// The last entry put in under a name is the one found under it, and
/// putting it in touches no other name: where `after` is `before` with
/// `entry` put in, `entry` is found under its name in `after`, and any other
/// name leads in `after` to what it led to in `before`.
pub proof fn lemma_last_entry_wins(
    before: Seq<NamedSchema>,
    after: Seq<NamedSchema>,
    entry: NamedSchema,
    other: Seq<char>,
)
    requires
        after == if entry_position(before, entry.name@) < before.len() {
            before.update(entry_position(before, entry.name@), entry)
        } else {
            before.push(entry)
        },
    ensures
        entry_position(after, entry.name@) < after.len(),
        after[entry_position(after, entry.name@)] == entry,
        other != entry.name@ ==> (entry_position(after, other) < after.len() <==> entry_position(
            before,
            other,
        ) < before.len()),
        other != entry.name@ && entry_position(before, other) < before.len()
            ==> after[entry_position(after, other)] == before[entry_position(before, other)],
{
    lemma_first_match(entry_names(before), is_text(entry.name@));
    lemma_first_match(entry_names(before), is_text(other));
    assert(entry_names(after) =~= with_text(entry_names(before), entry.name@));
    lemma_with_text(entry_names(before), entry.name@, other);
}

/// The reusable schemas of a document: named entries in the order of the
/// source, no two under one name, with an index from each name to its entry.
#[derive(Debug)]
pub struct SchemaTable {
    entries: Vec<NamedSchema>,
    index: IndexMap<String, usize>,
}

impl View for SchemaTable {
    type V = Seq<NamedSchema>;

    closed spec fn view(&self) -> Seq<NamedSchema> {
        self.entries@
    }
}

impl SchemaTable {
    /// The index holds exactly the names of the entries, each with the
    /// position of its entry.
    pub closed spec fn wf(&self) -> bool {
        &&& forall|i: int|
            0 <= i < self.entries@.len() ==> index_entries(self.index).contains_key(
                #[trigger] self.entries@[i].name@,
            ) && index_entries(self.index)[self.entries@[i].name@] == i
        &&& forall|name: Seq<char>| #[trigger]
            index_entries(self.index).contains_key(name) ==> index_entries(self.index)[name]
                < self.entries@.len() && self.entries@[index_entries(
                self.index,
            )[name] as int].name@ == name
    }

    /// In a well-formed table no name stands twice.
    pub proof fn lemma_names_distinct(&self)
        requires
            self.wf(),
        ensures
            entry_names(self@).no_duplicates(),
    {
        assert forall|i: int, j: int|
            0 <= i < entry_names(self@).len() && 0 <= j < entry_names(self@).len() && i
                != j implies entry_names(self@)[i] != entry_names(self@)[j] by {
            assert(index_entries(self.index)[self.entries@[i].name@] == i);
            assert(index_entries(self.index)[self.entries@[j].name@] == j);
        }
    }

    /// A table without entries.
    pub fn new() -> (table: SchemaTable)
        ensures
            table.wf(),
            table@ == Seq::<NamedSchema>::empty(),
    {
        SchemaTable { entries: Vec::new(), index: index_new() }
    }

    /// The number of entries.
    pub fn len(&self) -> (count: usize)
        ensures
            count == self@.len(),
    {
        self.entries.len()
    }

    /// The entry at `position`.
    pub fn entry(&self, position: usize) -> (entry: &NamedSchema)
        requires
            position < self@.len(),
        ensures
            *entry == self@[position as int],
    {
        &self.entries[position]
    }

    fn find(&self, name: &str) -> (at: usize)
        requires
            self.wf(),
        ensures
            at == entry_position(self@, name@),
            at <= self@.len(),
            at < self@.len() ==> self@[at as int].name@ == name@,
    {
        let at = match index_get(&self.index, name) {
            Some(position) => position,
            None => self.entries.len(),
        };
        proof {
            self.lemma_names_distinct();
            assert forall|k: int| 0 <= k < at implies !is_text(name@)(
                #[trigger] entry_names(self@)[k],
            ) by {
                if entry_names(self@)[k] == name@ {
                    assert(index_entries(self.index)[self.entries@[k].name@] == k);
                }
            }
            if at < self.entries@.len() {
                assert(entry_names(self@)[at as int] == name@);
            }
            lemma_first_match_is(entry_names(self@), is_text(name@), at as int);
        }
        at
    }

    /// Puts an entry into the table. An entry that is already there under
    /// the same name gives way to the new one, which takes its place in the
    /// order; any other entry is added at the end.
    pub fn insert(&mut self, entry: NamedSchema)
        requires
            old(self).wf(),
        ensures
            final(self).wf(),
            final(self)@ == if entry_position(old(self)@, entry.name@) < old(self)@.len() {
                old(self)@.update(entry_position(old(self)@, entry.name@), entry)
            } else {
                old(self)@.push(entry)
            },
    {
        let at = self.find(entry.name.as_str());
        let ghost before = *self;
        if at < self.entries.len() {
            self.entries.set(at, entry);
            assert forall|i: int| 0 <= i < self.entries@.len() implies index_entries(
                self.index,
            ).contains_key(#[trigger] self.entries@[i].name@) && index_entries(
                self.index,
            )[self.entries@[i].name@] == i by {
                if i != at {
                    assert(self.entries@[i] == before.entries@[i]);
                }
            }
            assert forall|name: Seq<char>| #[trigger]
                index_entries(self.index).contains_key(name) implies index_entries(
                self.index,
            )[name] < self.entries@.len() && self.entries@[index_entries(
                self.index,
            )[name] as int].name@ == name by {
                let p = index_entries(self.index)[name];
                assert(before.entries@[p as int].name@ == name);
            }
        } else {
            let count = self.entries.len();
            let _ = index_insert(&mut self.index, entry.name.clone(), count);
            self.entries.push(entry);
            assert forall|i: int| 0 <= i < self.entries@.len() implies index_entries(
                self.index,
            ).contains_key(#[trigger] self.entries@[i].name@) && index_entries(
                self.index,
            )[self.entries@[i].name@] == i by {
                if i < count {
                    assert(self.entries@[i] == before.entries@[i]);
                    assert(index_entries(before.index).contains_key(before.entries@[i].name@));
                    assert(entry_names(before@)[i] != entry.name@) by {
                        lemma_first_match(entry_names(before@), is_text(entry.name@));
                    }
                }
            }
            assert forall|name: Seq<char>| #[trigger]
                index_entries(self.index).contains_key(name) implies index_entries(
                self.index,
            )[name] < self.entries@.len() && self.entries@[index_entries(
                self.index,
            )[name] as int].name@ == name by {
                if name != entry.name@ {
                    assert(index_entries(before.index).contains_key(name));
                    let p = index_entries(before.index)[name];
                    assert(before.entries@[p as int].name@ == name);
                    assert(self.entries@[p as int] == before.entries@[p as int]);
                }
            }
        }
    }

    /// The entry called `name`, if there is one.
    pub fn get(&self, name: &str) -> (found: Option<&NamedSchema>)
        requires
            self.wf(),
        ensures
            found is Some <==> entry_position(self@, name@) < self@.len(),
            found matches Some(entry) ==> *entry == self@[entry_position(self@, name@)]
                && entry.name@ == name@,
    {
        let at = self.find(name);
        if at < self.entries.len() {
            Some(&self.entries[at])
        } else {
            None
        }
    }
}

/// What a parameter says of its value.
#[derive(Debug)]
pub enum SourceParameterFormat {
    Schema(RefOr<SourceSchema>),
    /// A media-type map in place of a schema.
    Content,
}

/// An inline parameter.
#[derive(Debug)]
pub struct SourceParameter {
    pub name: String,
    pub location: ParameterLocation,
    pub required: bool,
    pub description: Option<String>,
    pub format: SourceParameterFormat,
}

/// One entry of a content map.
#[derive(Debug)]
pub struct SourceMediaType {
    pub content_type: String,
    pub schema: Option<RefOr<SourceSchema>>,
}

/// An inline request body.
#[derive(Debug)]
pub struct SourceRequestBody {
    pub required: bool,
    pub content: Vec<SourceMediaType>,
}

/// An inline response.
#[derive(Debug)]
pub struct SourceResponse {
    pub description: String,
    pub content: Vec<SourceMediaType>,
}

/// A response under its status code.
#[derive(Debug)]
pub struct SourceStatusResponse {
    /// The status code as text, such as `200` or `4XX`.
    pub status: String,
    pub response: RefOr<SourceResponse>,
}

/// An operation as the source declares it.
#[derive(Debug)]
pub struct SourceOperation {
    pub operation_id: Option<String>,
    pub summary: Option<String>,
    pub description: Option<String>,
    pub tags: Vec<String>,
    pub parameters: Vec<RefOr<SourceParameter>>,
    pub request_body: Option<RefOr<SourceRequestBody>>,
    /// The responses by status code; the default response is not among them.
    pub responses: Vec<SourceStatusResponse>,
    /// The operation as the source wrote it.
    pub original: JsonValue,
}

/// The method slots of one path.
#[derive(Debug)]
pub struct SourcePathItem {
    pub get: Option<SourceOperation>,
    pub post: Option<SourceOperation>,
    pub put: Option<SourceOperation>,
    pub delete: Option<SourceOperation>,
    pub patch: Option<SourceOperation>,
    pub head: Option<SourceOperation>,
    pub options: Option<SourceOperation>,
}

/// A path template with what the source declares under it.
#[derive(Debug)]
pub struct SourcePath {
    pub path: String,
    pub item: RefOr<SourcePathItem>,
}

/// A decoded API description.
#[derive(Debug)]
pub struct SourceDocument {
    pub title: String,
    pub version: String,
    pub description: Option<String>,
    /// Vendor extensions of the info section.
    pub info_extensions: Vec<JsonEntry>,
    /// The URLs of the declared servers.
    pub server_urls: Vec<String>,
    /// The reusable schemas; none where the document has no components.
    pub schemas: SchemaTable,
    pub paths: Vec<SourcePath>,
    /// Vendor extensions at the top of the document.
    pub extensions: Vec<JsonEntry>,
    /// The whole document as one JSON value.
    pub original: JsonValue,
}

/// What reading and decoding a source gave.
#[derive(Debug)]
pub enum SourceInput {
    /// Nothing exists at the source path.
    Missing,
    /// The content could not be decoded; `cause` says why.
    Undecodable { cause: String },
    Document(SourceDocument),
}

/// How the content of a source is written.
#[derive(Debug, Clone, Copy, PartialEq, Eq, Structural)]
pub enum SourceSyntax {
    /// Strict JSON.
    Json,
    /// YAML, of which JSON is a part.
    Yaml,
}

/// What follows the last `/` of a reference string; the whole string where
/// it has no `/`.
pub open spec fn last_segment(reference: Seq<char>) -> Seq<char>
    decreases reference.len(),
{
    if reference.len() == 0 {
        reference
    } else if reference.last() == '/' {
        Seq::empty()
    } else {
        last_segment(reference.drop_last()).push(reference.last())
    }
}

/// The schema name that a reference string points to: its last path segment,
/// and the placeholder `Unknown` where that segment is empty.
pub open spec fn reference_name(reference: Seq<char>) -> Seq<char> {
    if last_segment(reference).len() == 0 {
        "Unknown"@
    } else {
        last_segment(reference)
    }
}

/// The last segment is the end of the string, holds no `/`, and is either
/// the whole string or preceded by a `/`.
pub proof fn lemma_last_segment(reference: Seq<char>)
    ensures
        last_segment(reference).len() <= reference.len(),
        last_segment(reference) == reference.subrange(
            reference.len() - last_segment(reference).len(),
            reference.len() as int,
        ),
        !last_segment(reference).contains('/'),
        last_segment(reference).len() < reference.len() ==> reference[reference.len()
            - last_segment(reference).len() - 1] == '/',
    decreases reference.len(),
{
    if reference.len() == 0 {
        assert(reference.subrange(0, 0) =~= reference);
    } else if reference.last() == '/' {
        assert(reference.subrange(reference.len() as int, reference.len() as int) =~= Seq::<
            char,
        >::empty());
    } else {
        let front = reference.drop_last();
        lemma_last_segment(front);
        let seg = last_segment(front);
        let start = front.len() - seg.len();
        assert(seg.push(reference.last()) =~= reference.subrange(
            start,
            reference.len() as int,
        ));
        assert forall|k: int| 0 <= k < seg.len() + 1 implies seg.push(reference.last())[k]
            != '/' by {
            if k < seg.len() {
                assert(seg.contains(seg[k]));
            }
        }
        if seg.len() < front.len() {
            assert(front[start - 1] == reference[start - 1]);
        }
    }
}

/// What follows the last `/` of `reference`.
pub fn last_segment_of(reference: &str) -> (segment: &str)
    ensures
        segment@ == last_segment(reference@),
{
    let total = reference.unicode_len();
    let mut start: usize = 0;
    let mut seen: usize = 0;
    for c in it: reference.chars()
        invariant
            it.seq() == reference@,
            seen == it.index(),
            start <= seen <= total,
            total == reference@.len(),
            last_segment(reference@.take(seen as int)) == reference@.subrange(
                start as int,
                seen as int,
            ),
    {
        proof {
            let upto = reference@.take(seen + 1);
            assert(upto.drop_last() =~= reference@.take(seen as int));
            assert(upto.last() == c);
            if c != '/' {
                assert(reference@.subrange(start as int, seen as int).push(c)
                    =~= reference@.subrange(start as int, seen + 1));
            } else {
                assert(reference@.subrange(seen + 1, seen + 1) =~= Seq::<char>::empty());
            }
        }
        seen += 1;
        if c == '/' {
            start = seen;
        }
    }
    assert(reference@.take(seen as int) =~= reference@);
    reference.substring_char(start, total)
}

/// The name of the schema that `reference` points to.
pub fn schema_name_of(reference: &str) -> (name: String)
    ensures
        name@ == reference_name(reference@),
{
    let segment = last_segment_of(reference);
    if segment.unicode_len() == 0 {
        String::from_str("Unknown")
    } else {
        String::from_str(segment)
    }
}

} // verus!
