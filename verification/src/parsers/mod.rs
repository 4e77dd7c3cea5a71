//! Input parsers: what turns a source document into the intermediate
//! representation, and the registry that finds the parser for a format.

pub mod openapi_parser;
pub mod schema_ir;
pub mod source;

use vstd::prelude::*;
use vstd::string::*;
use crate::error::{Error, ErrorView};
use crate::parsers::schema_ir::SchemaIRView;

pub use crate::parsers::openapi_parser::OpenApiParser;
pub use crate::parsers::schema_ir::{
    FieldDefinition, HttpMethod, JsonEntry, Metadata, OperationDefinition, OriginalData,
    Parameter, ParameterLocation, SchemaDefinition, SchemaIR, SchemaReference, TypeInfo,
};
use crate::parsers::source::SourceInput;
use crate::search::{
    first_match, holds_text, is_text, lemma_first_match, lemma_first_match_is, lemma_with_text,
    with_text,
};
use crate::text::{contains_text, file_extension, is_extension_in, same_text};

verus! {

/// The view of what a parser returns.
pub open spec fn parse_view(result: Result<SchemaIR, Error>) -> Result<SchemaIRView, ErrorView> {
    match result {
        Ok(ir) => Ok(ir@),
        Err(e) => Err(e@),
    }
}

/// A parser for one input format.
pub trait InputParser {
    /// The name of the format, such as `openapi`.
    spec fn name(&self) -> Seq<char>;

    /// The file extensions that the format goes by.
    spec fn extensions(&self) -> Seq<Seq<char>>;

    /// What parsing gives for each outcome of reading the source.
    spec fn outcome(&self, source: Seq<char>, input: SourceInput) -> Result<
        SchemaIRView,
        ErrorView,
    >;

    fn format_name(&self) -> (name: String)
        ensures
            name@ == self.name(),
    ;

    fn supported_extensions(&self) -> (list: Vec<String>)
        ensures
            list.deep_view() == self.extensions(),
    ;

    /// Turns what was read from `source` into the intermediate
    /// representation.
    fn parse(&self, source: &str, input: &SourceInput, options: &Vec<JsonEntry>) -> (result: Result<
        SchemaIR,
        Error,
    >)
        ensures
            parse_view(result) == self.outcome(source@, *input),
    ;

    /// Checks the source before it is parsed: there must be something at
    /// `source`.
    fn validate(&self, source: &str, input: &SourceInput) -> (result: Result<(), Error>)
        ensures
            result is Err <==> input is Missing,
            result matches Err(e) ==> e@ == (ErrorView::NotFound { path: source@ }),
    {
        match input {
            SourceInput::Missing => Err(Error::NotFound { path: String::from_str(source) }),
            _ => Ok(()),
        }
    }
}

/// The parsers that a run can use, in the order in which their names were
/// first registered.
pub struct ParserRegistry<P: InputParser> {
    pub parsers: Vec<P>,
}

impl ParserRegistry<OpenApiParser> {
    /// A registry with the built-in parsers.
    pub fn new() -> (registry: Self)
        ensures
            registry.wf(),
            registry.parsers@ == seq![OpenApiParser],
    {
        let mut registry = ParserRegistry::empty();
        proof {
            registry.lemma_position_of(OpenApiParser.name());
        }
        registry.register(OpenApiParser);
        assert(registry.parsers@ =~= seq![OpenApiParser]);
        registry
    }
}

impl<P: InputParser> ParserRegistry<P> {
    /// The format names of the registered parsers, in order.
    pub open spec fn names(&self) -> Seq<Seq<char>> {
        Seq::new(self.parsers@.len(), |i: int| self.parsers@[i].name())
    }

    /// The extension lists of the registered parsers, in order.
    pub open spec fn extension_lists(&self) -> Seq<Seq<Seq<char>>> {
        Seq::new(self.parsers@.len(), |i: int| self.parsers@[i].extensions())
    }

    /// No format name is registered twice.
    pub open spec fn wf(&self) -> bool {
        self.names().no_duplicates()
    }

    /// The position of the parser for `format`; the number of parsers where
    /// there is none.
    pub open spec fn position_of(&self, format: Seq<char>) -> int {
        first_match(self.names(), is_text(format))
    }

    /// The position of the first parser whose extensions include
    /// `extension`; the number of parsers where there is none.
    pub open spec fn position_for_extension(&self, extension: Seq<char>) -> int {
        first_match(self.extension_lists(), holds_text(extension))
    }

    /// Where `position_of` points: at the parser named `format` if it is
    /// within bounds, and past every parser with another name.
    pub proof fn lemma_position_of(&self, format: Seq<char>)
        ensures
            0 <= self.position_of(format) <= self.parsers@.len(),
            self.position_of(format) < self.parsers@.len() ==> self.parsers@[self.position_of(
                format,
            )].name() == format,
            forall|k: int|
                0 <= k < self.position_of(format) ==> (#[trigger] self.parsers@[k]).name()
                    != format,
    {
        lemma_first_match(self.names(), is_text(format));
        assert forall|k: int| 0 <= k < self.position_of(format) implies (
        #[trigger] self.parsers@[k]).name() != format by {
            assert(self.names()[k] == self.parsers@[k].name());
        }
    }

    /// The last registration under a name wins, and touches no other name:
    /// where `after` is `before` with `parser` registered, looking up the
    /// parser's name in `after` finds that parser, and looking up any
    /// other name finds what it found in `before`.
    pub proof fn lemma_last_registration_wins(before: Self, after: Self, parser: P, other: Seq<char>)
        requires
            after.parsers@ == if before.position_of(parser.name()) < before.parsers@.len() {
                before.parsers@.update(before.position_of(parser.name()), parser)
            } else {
                before.parsers@.push(parser)
            },
        ensures
            after.position_of(parser.name()) < after.parsers@.len(),
            after.parsers@[after.position_of(parser.name())] == parser,
            other != parser.name() ==> (after.position_of(other) < after.parsers@.len()
                <==> before.position_of(other) < before.parsers@.len()),
            other != parser.name() && before.position_of(other) < before.parsers@.len()
                ==> after.parsers@[after.position_of(other)] == before.parsers@[before.position_of(
                other,
            )],
    {
        before.lemma_position_of(parser.name());
        before.lemma_position_of(other);
        assert(after.names() =~= with_text(before.names(), parser.name()));
        lemma_with_text(before.names(), parser.name(), other);
    }

    /// A registry without parsers.
    pub fn empty() -> (registry: Self)
        ensures
            registry.wf(),
            registry.parsers@.len() == 0,
    {
        ParserRegistry { parsers: Vec::new() }
    }

    fn find(&self, format: &str) -> (at: usize)
        ensures
            at == self.position_of(format@),
            at <= self.parsers@.len(),
    {
        let mut i: usize = 0;
        while i < self.parsers.len()
            invariant
                i <= self.parsers.len(),
                forall|k: int| 0 <= k < i ==> self.names()[k] != format@,
            decreases self.parsers.len() - i,
        {
            let name = self.parsers[i].format_name();
            if same_text(name.as_str(), format) {
                proof {
                    lemma_first_match_is(self.names(), is_text(format@), i as int);
                }
                return i;
            }
            i += 1;
        }
        proof {
            lemma_first_match_is(self.names(), is_text(format@), i as int);
        }
        i
    }

    /// Adds a parser under its format name. A parser registered earlier
    /// under the same name gives way to the new one, which takes its place
    /// in the order.
    pub fn register(&mut self, parser: P)
        requires
            old(self).wf(),
        ensures
            final(self).wf(),
            final(self).parsers@ == if old(self).position_of(parser.name()) < old(
                self,
            ).parsers@.len() {
                old(self).parsers@.update(old(self).position_of(parser.name()), parser)
            } else {
                old(self).parsers@.push(parser)
            },
    {
        let name = parser.format_name();
        let at = self.find(name.as_str());
        let ghost before = *self;
        proof {
            before.lemma_position_of(parser.name());
        }
        if at < self.parsers.len() {
            self.parsers.set(at, parser);
            assert(self.names() =~= before.names());
        } else {
            self.parsers.push(parser);
            assert(self.names() =~= before.names().push(parser.name()));
            assert forall|i: int, j: int|
                0 <= i < self.names().len() && 0 <= j < self.names().len() && i
                    != j implies self.names()[i] != self.names()[j] by {
                if i < before.names().len() && j < before.names().len() {
                } else if i < before.names().len() {
                    assert(before.parsers@[i].name() != parser.name());
                } else {
                    assert(before.parsers@[j].name() != parser.name());
                }
            }
        }
    }

    /// The parser registered for `format`, if there is one.
    pub fn get(&self, format: &str) -> (found: Option<&P>)
        ensures
            found is Some <==> self.position_of(format@) < self.parsers@.len(),
            found matches Some(parser) ==> *parser == self.parsers@[self.position_of(format@)]
                && parser.name() == format@,
    {
        let at = self.find(format);
        proof {
            self.lemma_position_of(format@);
        }
        if at < self.parsers.len() {
            Some(&self.parsers[at])
        } else {
            None
        }
    }

    /// The parser registered for `format`, or the failure that names the
    /// format.
    pub fn require(&self, format: &str) -> (found: Result<&P, Error>)
        ensures
            found is Ok <==> self.position_of(format@) < self.parsers@.len(),
            found matches Ok(parser) ==> *parser == self.parsers@[self.position_of(format@)]
                && parser.name() == format@,
            found matches Err(e) ==> e@ == (ErrorView::UnknownFormat { format: format@ }),
    {
        match self.get(format) {
            Some(parser) => Ok(parser),
            None => Err(Error::UnknownFormat { format: String::from_str(format) }),
        }
    }

    /// The format of the first registered parser whose extensions include
    /// `extension`, if there is one.
    pub fn format_for_extension(&self, extension: &str) -> (format: Option<String>)
        ensures
            format is Some <==> self.position_for_extension(extension@) < self.parsers@.len(),
            format matches Some(name) ==> name@ == self.parsers@[self.position_for_extension(
                extension@,
            )].name(),
    {
        let mut i: usize = 0;
        while i < self.parsers.len()
            invariant
                i <= self.parsers.len(),
                forall|k: int| 0 <= k < i ==> !self.extension_lists()[k].contains(extension@),
            decreases self.parsers.len() - i,
        {
            let list = self.parsers[i].supported_extensions();
            if contains_text(&list, extension) {
                proof {
                    lemma_first_match_is(
                        self.extension_lists(),
                        holds_text(extension@),
                        i as int,
                    );
                }
                return Some(self.parsers[i].format_name());
            }
            i += 1;
        }
        proof {
            lemma_first_match_is(self.extension_lists(), holds_text(extension@), i as int);
        }
        None
    }

    /// The format to parse the source at `path` by: the one that the
    /// configuration names, else the one detected from the path, else
    /// `openapi`.
    pub fn resolve_format(&self, explicit: Option<&str>, path: &str) -> (format: String)
        ensures
            explicit matches Some(named) ==> format@ == named@,
            explicit is None ==> format@ == "openapi"@ || exists|extension: Seq<char>|
                is_extension_in(path@, extension) && self.position_for_extension(extension)
                    < self.parsers@.len() && format@
                    == self.parsers@[#[trigger] self.position_for_extension(extension)].name(),
            explicit is None && !path@.contains('.') ==> format@ == "openapi"@,
    {
        match explicit {
            Some(named) => String::from_str(named),
            None => match self.detect_format(path) {
                Some(detected) => detected,
                None => String::from_str("openapi"),
            },
        }
    }

    /// The format to assume for the file at `path`, judged by its extension:
    /// that of the first registered parser that claims the extension. There
    /// is none where the path has no extension or no parser claims it; a
    /// path without a `.` has no extension.
    pub fn detect_format(&self, path: &str) -> (format: Option<String>)
        ensures
            format matches Some(name) ==> exists|extension: Seq<char>|
                is_extension_in(path@, extension) && self.position_for_extension(extension)
                    < self.parsers@.len() && name@
                    == self.parsers@[#[trigger] self.position_for_extension(extension)].name(),
            !path@.contains('.') ==> format is None,
    {
        match file_extension(path) {
            Some(extension) => {
                proof {
                    let dot = choose|dot: int|
                        0 <= dot < path@.len() && path@[dot] == '.' && dot + 1 + extension@.len()
                            <= path@.len() && #[trigger] path@.subrange(
                            dot + 1,
                            dot + 1 + extension@.len(),
                        ) == extension@;
                    assert(path@.contains(path@[dot]));
                }
                self.format_for_extension(extension.as_str())
            },
            None => None,
        }
    }
}

impl Default for ParserRegistry<OpenApiParser> {
    /// A registry with the built-in parsers.
    fn default() -> (registry: Self)
        ensures
            registry.wf(),
            registry.parsers@ == seq![OpenApiParser],
    {
        ParserRegistry::new()
    }
}

} // verus!
