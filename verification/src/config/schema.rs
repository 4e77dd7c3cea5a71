//! What a configuration holds.

use vstd::prelude::*;
use vstd::string::*;
use crate::search::{first_match, is_text, lemma_first_match_is};
use crate::text::same_text;

verus! {

/// The value of a free-form option, as far as generators read it.
#[derive(Debug, Clone)]
pub enum OptionValue {
    Bool(bool),
    Text(String),
    /// A value of any other kind.
    Other,
}

/// The mathematical view of `OptionValue`: texts as sequences of characters, lists as sequences.
pub enum OptionValueView {
    Bool(bool),
    Text(Seq<char>),
    Other,
}

impl View for OptionValue {
    type V = OptionValueView;

    open spec fn view(&self) -> OptionValueView {
        match self {
            OptionValue::Bool(b) => OptionValueView::Bool(*b),
            OptionValue::Text(t) => OptionValueView::Text(t@),
            OptionValue::Other => OptionValueView::Other,
        }
    }
}

/// A free-form option: what it means is up to the generator or parser that
/// reads it.
#[derive(Debug, Clone)]
pub struct ConfigOption {
    pub key: String,
    pub value: OptionValue,
}

/// The mathematical view of `ConfigOption`: texts as sequences of characters, lists as sequences.
pub struct ConfigOptionView {
    pub key: Seq<char>,
    pub value: OptionValueView,
}

impl View for ConfigOption {
    type V = ConfigOptionView;

    open spec fn view(&self) -> ConfigOptionView {
        ConfigOptionView { key: self.key@, value: self.value@ }
    }
}

impl DeepView for ConfigOption {
    type V = ConfigOptionView;

    open spec fn deep_view(&self) -> ConfigOptionView {
        self.view()
    }
}

/// The keys of `options`, in order.
pub open spec fn option_keys(options: Seq<ConfigOptionView>) -> Seq<Seq<char>> {
    Seq::new(options.len(), |i: int| options[i].key)
}

/// The value of the first option under `key`, if there is one.
pub open spec fn option_value(options: Seq<ConfigOptionView>, key: Seq<char>) -> Option<
    OptionValueView,
> {
    let at = first_match(option_keys(options), is_text(key));
    if at < options.len() {
        Some(options[at].value)
    } else {
        None
    }
}

/// The option `key` read as a truth value: `default` where it is absent or
/// not a truth value.
pub open spec fn option_bool(options: Seq<ConfigOptionView>, key: Seq<char>, default: bool) -> bool {
    match option_value(options, key) {
        Some(OptionValueView::Bool(b)) => b,
        _ => default,
    }
}

/// The option `key` read as text: `default` where it is absent or not text.
pub open spec fn option_text(
    options: Seq<ConfigOptionView>,
    key: Seq<char>,
    default: Seq<char>,
) -> Seq<char> {
    match option_value(options, key) {
        Some(OptionValueView::Text(t)) => t,
        _ => default,
    }
}

/// Looks up the first option under `key`.
pub fn find_option<'a>(options: &'a Vec<ConfigOption>, key: &str) -> (found: Option<
    &'a OptionValue,
>)
    ensures
        match found {
            Some(value) => option_value(options.deep_view(), key@) == Some(value@),
            None => option_value(options.deep_view(), key@) is None,
        },
{
    let mut i: usize = 0;
    while i < options.len()
        invariant
            i <= options.len(),
            forall|k: int| 0 <= k < i ==> option_keys(options.deep_view())[k] != key@,
        decreases options.len() - i,
    {
        if same_text(options[i].key.as_str(), key) {
            proof {
                assert(option_keys(options.deep_view())[i as int] == key@);
                lemma_first_match_is(option_keys(options.deep_view()), is_text(key@), i as int);
            }
            return Some(&options[i].value);
        }
        i += 1;
    }
    proof {
        lemma_first_match_is(option_keys(options.deep_view()), is_text(key@), i as int);
    }
    None
}

/// Reads the option `key` as a truth value.
pub fn read_bool_option(options: &Vec<ConfigOption>, key: &str, default: bool) -> (value: bool)
    ensures
        value == option_bool(options.deep_view(), key@, default),
{
    match find_option(options, key) {
        Some(OptionValue::Bool(b)) => *b,
        _ => default,
    }
}

/// Reads the option `key` as text.
pub fn read_text_option(options: &Vec<ConfigOption>, key: &str, default: &str) -> (value: String)
    ensures
        value@ == option_text(options.deep_view(), key@, default@),
{
    match find_option(options, key) {
        Some(OptionValue::Text(t)) => t.clone(),
        _ => String::from_str(default),
    }
}

/// Where the input comes from.
#[derive(Debug, Clone)]
pub struct InputConfig {
    /// The input format; detected from the source's extension where absent.
    pub format: Option<String>,
    /// The path of the source document.
    pub source: String,
    pub options: Vec<ConfigOption>,
}

/// The mathematical view of `InputConfig`: texts as sequences of characters, lists as sequences.
pub struct InputConfigView {
    pub format: Option<Seq<char>>,
    pub source: Seq<char>,
    pub options: Seq<ConfigOptionView>,
}

impl View for InputConfig {
    type V = InputConfigView;

    open spec fn view(&self) -> InputConfigView {
        InputConfigView {
            format: self.format.deep_view(),
            source: self.source@,
            options: self.options.deep_view(),
        }
    }
}

impl DeepView for InputConfig {
    type V = InputConfigView;

    open spec fn deep_view(&self) -> InputConfigView {
        self.view()
    }
}

/// One generation target: a generator, the file it writes, and its options.
#[derive(Debug, Clone)]
pub struct GenerationConfig {
    /// The name of the generator in the registry.
    pub generator: String,
    pub output_file: String,
    pub enabled: bool,
    /// Where the generator's templates are.
    pub template: Option<String>,
    pub plugin: Option<String>,
    pub options: Vec<ConfigOption>,
}

/// The mathematical view of `GenerationConfig`: texts as sequences of characters, lists as sequences.
pub struct GenerationConfigView {
    pub generator: Seq<char>,
    pub output_file: Seq<char>,
    pub enabled: bool,
    pub template: Option<Seq<char>>,
    pub plugin: Option<Seq<char>>,
    pub options: Seq<ConfigOptionView>,
}

impl View for GenerationConfig {
    type V = GenerationConfigView;

    open spec fn view(&self) -> GenerationConfigView {
        GenerationConfigView {
            generator: self.generator@,
            output_file: self.output_file@,
            enabled: self.enabled,
            template: self.template.deep_view(),
            plugin: self.plugin.deep_view(),
            options: self.options.deep_view(),
        }
    }
}

impl DeepView for GenerationConfig {
    type V = GenerationConfigView;

    open spec fn deep_view(&self) -> GenerationConfigView {
        self.view()
    }
}

/// Whether a generation target is enabled where the configuration does not
/// say.
pub fn default_true() -> (enabled: bool)
    ensures
        enabled,
{
    true
}

/// Commands to run around generation.
#[derive(Debug, Clone)]
pub struct HooksConfig {
    pub before_generate: Vec<String>,
    pub after_generate: Vec<String>,
}

/// The mathematical view of `HooksConfig`: texts as sequences of characters, lists as sequences.
pub struct HooksConfigView {
    pub before_generate: Seq<Seq<char>>,
    pub after_generate: Seq<Seq<char>>,
}

impl View for HooksConfig {
    type V = HooksConfigView;

    open spec fn view(&self) -> HooksConfigView {
        HooksConfigView {
            before_generate: self.before_generate.deep_view(),
            after_generate: self.after_generate.deep_view(),
        }
    }
}

impl Default for HooksConfig {
    fn default() -> (hooks: HooksConfig)
        ensures
            hooks@ == (HooksConfigView {
                before_generate: Seq::empty(),
                after_generate: Seq::empty(),
            }),
    {
        let hooks = HooksConfig { before_generate: Vec::new(), after_generate: Vec::new() };
        assert(hooks.before_generate.deep_view() =~= Seq::empty());
        assert(hooks.after_generate.deep_view() =~= Seq::empty());
        hooks
    }
}

/// How one type of the source is written in one target.
#[derive(Debug, Clone)]
pub struct MappedType {
    pub source_type: String,
    pub target_type: String,
}

/// The type overrides for one target.
#[derive(Debug, Clone)]
pub struct TypeMapping {
    pub target: String,
    pub types: Vec<MappedType>,
}

/// The configuration of a run.
#[derive(Debug, Clone)]
pub struct Config {
    pub version: String,
    pub input: Option<InputConfig>,
    /// The directory that the generated files go to.
    pub output: Option<String>,
    pub generations: Vec<GenerationConfig>,
    pub hooks: HooksConfig,
    pub type_mapping: Option<Vec<TypeMapping>>,
}

/// The mathematical view of `Config`: texts as sequences of characters, lists as sequences.
pub struct ConfigView {
    pub version: Seq<char>,
    pub input: Option<InputConfigView>,
    pub output: Option<Seq<char>>,
    pub generations: Seq<GenerationConfigView>,
    pub hooks: HooksConfigView,
    pub type_mapping: Option<Vec<TypeMapping>>,
}

impl View for Config {
    type V = ConfigView;

    open spec fn view(&self) -> ConfigView {
        ConfigView {
            version: self.version@,
            input: self.input.deep_view(),
            output: self.output.deep_view(),
            generations: self.generations.deep_view(),
            hooks: self.hooks@,
            type_mapping: self.type_mapping,
        }
    }
}

/// The configuration of a run that has no configuration file.
pub open spec fn default_config() -> ConfigView {
    ConfigView {
        version: "1.0"@,
        input: None,
        output: Some("generated"@),
        generations: Seq::empty(),
        hooks: HooksConfigView { before_generate: Seq::empty(), after_generate: Seq::empty() },
        type_mapping: None,
    }
}

impl Default for Config {
    fn default() -> (config: Config)
        ensures
            config@ == default_config(),
    {
        let config = Config {
            version: String::from_str("1.0"),
            input: None,
            output: Some(String::from_str("generated")),
            generations: Vec::new(),
            hooks: HooksConfig::default(),
            type_mapping: None,
        };
        assert(config.generations.deep_view() =~= Seq::empty());
        config
    }
}

} // verus!
