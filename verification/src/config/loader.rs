//! Loading a configuration and merging it with the command line.

use vstd::prelude::*;
use vstd::string::*;
use crate::config::schema::{default_config, Config, ConfigView, InputConfig, InputConfigView};

verus! {

/// Where the configuration is looked for when no path is given.
pub const DEFAULT_CONFIG_PATH: &'static str = "./.config/@adi-family/generator-config.yaml";

/// What reading the configuration file gave.
#[derive(Debug)]
pub enum ConfigRead {
    /// No file is at the path.
    Missing,
    /// The file is there and could not be read.
    Unreadable { cause: String },
    /// The file was read and could not be decoded.
    Undecodable { cause: String },
    Loaded(Config),
}

/// Why no configuration could be had.
#[derive(Debug)]
pub enum ConfigError {
    /// A path was given and no file is there.
    NotFound { path: String },
    Unreadable { path: String, cause: String },
    Malformed { path: String, cause: String },
}

/// The mathematical view of `ConfigError`: texts as sequences of characters, lists as sequences.
pub enum ConfigErrorView {
    NotFound { path: Seq<char> },
    Unreadable { path: Seq<char>, cause: Seq<char> },
    Malformed { path: Seq<char>, cause: Seq<char> },
}

impl View for ConfigError {
    type V = ConfigErrorView;

    open spec fn view(&self) -> ConfigErrorView {
        match self {
            ConfigError::NotFound { path } => ConfigErrorView::NotFound { path: path@ },
            ConfigError::Unreadable { path, cause } => ConfigErrorView::Unreadable {
                path: path@,
                cause: cause@,
            },
            ConfigError::Malformed { path, cause } => ConfigErrorView::Malformed {
                path: path@,
                cause: cause@,
            },
        }
    }
}

impl ConfigErrorView {
    /// The failure in words.
    pub open spec fn message(self) -> Seq<char> {
        match self {
            ConfigErrorView::NotFound { path } => "Config file not found: "@ + path,
            ConfigErrorView::Unreadable { path, cause } => "Failed to read config file: "@ + path
                + ": "@ + cause,
            ConfigErrorView::Malformed { path, cause } => "Failed to parse config file: "@ + path
                + ": "@ + cause,
        }
    }
}

impl ConfigError {
    /// The failure in words.
    pub fn message(&self) -> (text: String)
        ensures
            text@ == self@.message(),
    {
        match self {
            ConfigError::NotFound { path } => {
                let mut text = String::from_str("Config file not found: ");
                text.append(path.as_str());
                text
            },
            ConfigError::Unreadable { path, cause } => {
                let mut text = String::from_str("Failed to read config file: ");
                text.append(path.as_str());
                text.append(": ");
                text.append(cause.as_str());
                text
            },
            ConfigError::Malformed { path, cause } => {
                let mut text = String::from_str("Failed to parse config file: ");
                text.append(path.as_str());
                text.append(": ");
                text.append(cause.as_str());
                text
            },
        }
    }
}

/// The path of the configuration file: the one given, or the default one.
pub open spec fn config_path_of(custom_path: Option<Seq<char>>) -> Seq<char> {
    match custom_path {
        Some(path) => path,
        None => DEFAULT_CONFIG_PATH@,
    }
}

/// The configuration that a run works with, for each outcome of reading the
/// file. A file that is there must be readable and well-formed. A missing
/// file is a failure where its path was given, and stands for the built-in
/// defaults where it was not.
pub open spec fn loaded_config(custom_path: Option<Seq<char>>, read: ConfigRead) -> Result<
    ConfigView,
    ConfigErrorView,
> {
    let path = config_path_of(custom_path);
    match read {
        ConfigRead::Loaded(config) => Ok(config@),
        ConfigRead::Unreadable { cause } => Err(
            ConfigErrorView::Unreadable { path, cause: cause@ },
        ),
        ConfigRead::Undecodable { cause } => Err(
            ConfigErrorView::Malformed { path, cause: cause@ },
        ),
        ConfigRead::Missing => if custom_path is Some {
            Err(ConfigErrorView::NotFound { path })
        } else {
            Ok(default_config())
        },
    }
}

/// The view of what loading returns.
pub open spec fn load_view(result: Result<Config, ConfigError>) -> Result<
    ConfigView,
    ConfigErrorView,
> {
    match result {
        Ok(config) => Ok(config@),
        Err(e) => Err(e@),
    }
}

/// The path at which to look for the configuration file.
pub fn config_path(custom_path: Option<&str>) -> (path: String)
    ensures
        path@ == config_path_of(
            match custom_path {
                Some(p) => Some(p@),
                None => None,
            },
        ),
{
    match custom_path {
        Some(path) => String::from_str(path),
        None => String::from_str(DEFAULT_CONFIG_PATH),
    }
}

/// Decides on the configuration of the run, given what reading the file at
/// `config_path(custom_path)` gave.
pub fn load_config(custom_path: Option<&str>, read: ConfigRead) -> (result: Result<
    Config,
    ConfigError,
>)
    ensures
        load_view(result) == loaded_config(
            match custom_path {
                Some(p) => Some(p@),
                None => None,
            },
            read,
        ),
{
    match read {
        ConfigRead::Loaded(config) => Ok(config),
        ConfigRead::Unreadable { cause } => Err(
            ConfigError::Unreadable { path: config_path(custom_path), cause },
        ),
        ConfigRead::Undecodable { cause } => Err(
            ConfigError::Malformed { path: config_path(custom_path), cause },
        ),
        ConfigRead::Missing => match custom_path {
            Some(path) => Err(ConfigError::NotFound { path: String::from_str(path) }),
            None => Ok(Config::default()),
        },
    }
}

/// The configuration with the command line laid over it: a source path
/// given there replaces that of the input, or makes an input where the
/// configuration has none; an output directory given there replaces the
/// configured one.
pub open spec fn merged_config(
    config: ConfigView,
    spec: Option<Seq<char>>,
    output: Option<Seq<char>>,
) -> ConfigView {
    ConfigView {
        input: match spec {
            Some(source) => match config.input {
                Some(input) => Some(InputConfigView { source, ..input }),
                None => Some(InputConfigView { format: None, source, options: Seq::empty() }),
            },
            None => config.input,
        },
        output: match output {
            Some(directory) => Some(directory),
            None => config.output,
        },
        ..config
    }
}

/// Lays the command line over the configuration; the command line wins.
pub fn merge_with_cli_args(config: Config, spec: Option<String>, output: Option<String>) -> (merged:
    Config)
    ensures
        merged@ == merged_config(config@, spec.deep_view(), output.deep_view()),
{
    let Config { version, input, output: configured_output, generations, hooks, type_mapping } =
        config;
    let input = match spec {
        Some(source) => match input {
            Some(found) => Some(
                InputConfig { format: found.format, source, options: found.options },
            ),
            None => {
                let made = InputConfig { format: None, source, options: Vec::new() };
                assert(made.options.deep_view() =~= Seq::empty());
                Some(made)
            },
        },
        None => input,
    };
    let output = match output {
        Some(directory) => Some(directory),
        None => configured_output,
    };
    Config { version, input, output, generations, hooks, type_mapping }
}

} // verus!
