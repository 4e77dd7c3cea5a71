use api_codegen::config::loader::{
    config_path, load_config, merge_with_cli_args, ConfigError, ConfigRead, DEFAULT_CONFIG_PATH,
};
use api_codegen::config::schema::{
    default_true, find_option, read_bool_option, read_text_option, Config, ConfigOption,
    GenerationConfig, HooksConfig, InputConfig, OptionValue,
};

fn option(key: &str, value: OptionValue) -> ConfigOption {
    ConfigOption { key: key.to_string(), value }
}

fn sample() -> Config {
    Config {
        version: "2.0".to_string(),
        input: Some(InputConfig {
            format: Some("openapi".to_string()),
            source: "old.yaml".to_string(),
            options: vec![option("strict", OptionValue::Bool(true))],
        }),
        output: Some("dist".to_string()),
        generations: vec![GenerationConfig {
            generator: "python".to_string(),
            output_file: "client.py".to_string(),
            enabled: default_true(),
            template: None,
            plugin: None,
            options: vec![],
        }],
        hooks: HooksConfig { before_generate: vec!["echo hi".to_string()], after_generate: vec![] },
        type_mapping: None,
    }
}

#[test]
fn generation_targets_are_enabled_by_default() {
    assert!(default_true());
}

#[test]
fn default_configuration() {
    let config = Config::default();
    assert_eq!(config.version, "1.0");
    assert!(config.input.is_none());
    assert_eq!(config.output.as_deref(), Some("generated"));
    assert!(config.generations.is_empty());
    assert!(config.hooks.before_generate.is_empty());
    assert!(config.hooks.after_generate.is_empty());
    assert!(config.type_mapping.is_none());
    let hooks = HooksConfig::default();
    assert!(hooks.before_generate.is_empty());
    assert!(hooks.after_generate.is_empty());
}

#[test]
fn configuration_path_is_the_given_one_or_the_default() {
    assert_eq!(DEFAULT_CONFIG_PATH, "./.config/@adi-family/generator-config.yaml");
    assert_eq!(config_path(None), DEFAULT_CONFIG_PATH);
    assert_eq!(config_path(Some("my.yaml")), "my.yaml");
    assert_eq!(config_path(Some("")), "");
}

#[test]
fn loaded_configuration_is_used_as_read() {
    let loaded = load_config(Some("my.yaml"), ConfigRead::Loaded(sample())).unwrap();
    assert_eq!(loaded.version, "2.0");
    assert_eq!(loaded.output.as_deref(), Some("dist"));
    let loaded = load_config(None, ConfigRead::Loaded(sample())).unwrap();
    assert_eq!(loaded.generations.len(), 1);
}

#[test]
fn missing_default_file_means_defaults() {
    let config = load_config(None, ConfigRead::Missing).unwrap();
    assert_eq!(config.version, "1.0");
    assert_eq!(config.output.as_deref(), Some("generated"));
    assert!(config.input.is_none());
}

#[test]
fn missing_custom_file_is_an_error() {
    match load_config(Some("my.yaml"), ConfigRead::Missing) {
        Err(ConfigError::NotFound { path }) => assert_eq!(path, "my.yaml"),
        _ => panic!("expected NotFound"),
    }
}

#[test]
fn unreadable_and_malformed_files_are_errors() {
    match load_config(None, ConfigRead::Unreadable { cause: "denied".to_string() }) {
        Err(ConfigError::Unreadable { path, cause }) => {
            assert_eq!(path, DEFAULT_CONFIG_PATH);
            assert_eq!(cause, "denied");
        }
        _ => panic!("expected Unreadable"),
    }
    match load_config(Some("c.yaml"), ConfigRead::Undecodable { cause: "line 3".to_string() }) {
        Err(ConfigError::Malformed { path, cause }) => {
            assert_eq!(path, "c.yaml");
            assert_eq!(cause, "line 3");
        }
        _ => panic!("expected Malformed"),
    }
}

#[test]
fn configuration_errors_in_words() {
    assert_eq!(ConfigError::NotFound { path: "a".into() }.message(), "Config file not found: a");
    assert_eq!(
        ConfigError::Unreadable { path: "a".into(), cause: "b".into() }.message(),
        "Failed to read config file: a: b"
    );
    assert_eq!(
        ConfigError::Malformed { path: "a".into(), cause: "b".into() }.message(),
        "Failed to parse config file: a: b"
    );
}

#[test]
fn command_line_source_replaces_the_configured_one() {
    let merged = merge_with_cli_args(sample(), Some("new.json".to_string()), None);
    let input = merged.input.unwrap();
    assert_eq!(input.source, "new.json");
    assert_eq!(input.format.as_deref(), Some("openapi"));
    assert_eq!(input.options.len(), 1);
    assert_eq!(merged.output.as_deref(), Some("dist"));
    assert_eq!(merged.version, "2.0");
    assert_eq!(merged.generations.len(), 1);
    assert_eq!(merged.hooks.before_generate, vec!["echo hi".to_string()]);
}

#[test]
fn command_line_source_makes_an_input_where_none_is_configured() {
    let merged = merge_with_cli_args(Config::default(), Some("api.yaml".to_string()), None);
    let input = merged.input.unwrap();
    assert_eq!(input.source, "api.yaml");
    assert!(input.format.is_none());
    assert!(input.options.is_empty());
    assert_eq!(merged.output.as_deref(), Some("generated"));
}

#[test]
fn command_line_output_replaces_the_configured_one() {
    let merged = merge_with_cli_args(sample(), None, Some("build".to_string()));
    assert_eq!(merged.output.as_deref(), Some("build"));
    assert_eq!(merged.input.unwrap().source, "old.yaml");
    let mut without = sample();
    without.output = None;
    let merged = merge_with_cli_args(without, None, Some("build".to_string()));
    assert_eq!(merged.output.as_deref(), Some("build"));
}

#[test]
fn nothing_on_the_command_line_changes_nothing() {
    let merged = merge_with_cli_args(sample(), None, None);
    assert_eq!(merged.input.as_ref().unwrap().source, "old.yaml");
    assert_eq!(merged.output.as_deref(), Some("dist"));
    let merged = merge_with_cli_args(Config::default(), None, None);
    assert!(merged.input.is_none());
}

#[test]
fn options_are_found_by_key() {
    let options = vec![
        option("a", OptionValue::Bool(false)),
        option("b", OptionValue::Text("x".to_string())),
        option("a", OptionValue::Bool(true)),
        option("c", OptionValue::Other),
    ];
    assert!(matches!(find_option(&options, "a"), Some(OptionValue::Bool(false))));
    assert!(matches!(find_option(&options, "c"), Some(OptionValue::Other)));
    assert!(find_option(&options, "d").is_none());
    assert!(!read_bool_option(&options, "a", true));
    assert!(read_bool_option(&options, "b", true));
    assert!(!read_bool_option(&options, "b", false));
    assert!(read_bool_option(&options, "missing", true));
    assert_eq!(read_text_option(&options, "b", "default"), "x");
    assert_eq!(read_text_option(&options, "a", "default"), "default");
    assert_eq!(read_text_option(&options, "c", "default"), "default");
    assert_eq!(read_text_option(&options, "missing", ""), "");
}
