//! Reading rules from configuration files.

use hackscanner_lib::rule::reader::{
    build_deserialize_error,
    build_file_type_error,
    build_open_error,
    Reader,
    RuleFileContent,
    RuleFileFormat,
};
use hackscanner_lib::rule::builtin::get_builtin_rules_with_cache;
use hackscanner_lib::rule::get_merged_rules_with_cache;
use hackscanner_lib::{
    get_builtin_rules,
    get_merged_rules,
    ErrorKind,
    RawPath,
    RawRule,
    RegexCache,
    ScanError,
    Severity,
};
use std::str::FromStr;

const PROJECT_DIR: &str = "/home/scanner/project";

const RULES_JSON: &str = r#"[
  {
    "name": "some rule",
    "path": "some/path",
    "content": "some bad content",
    "severity": "CRITICAL"
  },
  {
    "name": "some whitelist rule",
    "path": {
      "pattern": "\\.php",
      "is_regex": true
    },
    "content": "love",
    "severity": "WHITELIST"
  }
]"#;

const RULES_YAML: &str = r#"
- name: some rule
  path: some/path
  content: some bad content
  severity: CRITICAL
- name: some whitelist rule
  path:
    pattern: \.php
    is_regex: true
  content: love
  severity: WHITELIST
"#;

fn path(rule: &RawRule) -> String {
    rule.path().to_text()
}

fn content(rule: &RawRule) -> String {
    rule.content().unwrap()
}

fn test_loaded_rules(result: Result<Vec<RawRule>, ScanError>) {
    assert!(result.is_ok(), "{}", result.unwrap_err().message());
    let rules = result.unwrap();

    assert_eq!(2, rules.len());

    assert_eq!("some rule", rules[0].name());
    assert_eq!("some/path", path(&rules[0]));
    assert_eq!("some bad content", content(&rules[0]));
    assert_eq!(Severity::CRITICAL, rules[0].severity());

    assert_eq!("some whitelist rule", rules[1].name());
    assert_eq!("\\.php", path(&rules[1]));
    assert_eq!("love", content(&rules[1]));
    assert_eq!(Severity::WHITELIST, rules[1].severity());
}

/// What opening a file that is not there gives.
fn missing_file() -> RuleFileContent {
    RuleFileContent::Unreadable(String::from("No such file or directory (os error 2)"))
}

fn record(name: &str, path: RawPath, content: Option<&str>, severity: &str) -> RawRule {
    RawRule::with_raw_path(
        name,
        Severity::from_str(severity).unwrap(),
        path,
        content.map(|c| c.to_string()),
    )
}

/// The rule records of a JSON text.
fn load_json(text: &str) -> RuleFileContent {
    let value = match serde_json::from_str::<serde_json::Value>(text) {
        Ok(value) => value,
        Err(e) => return RuleFileContent::Malformed(e.to_string()),
    };
    let mut rules = vec![];
    for item in value.as_array().unwrap() {
        let path = match &item["path"] {
            serde_json::Value::String(s) => RawPath::from_str(s).unwrap(),
            object => RawPath::new(
                object["pattern"].as_str().unwrap(),
                object["is_regex"].as_bool().unwrap(),
            ),
        };
        rules.push(record(
            item["name"].as_str().unwrap(),
            path,
            item["content"].as_str(),
            item["severity"].as_str().unwrap(),
        ));
    }
    RuleFileContent::Rules(rules)
}

/// The rule records of a YAML text.
fn load_yaml(text: &str) -> RuleFileContent {
    let value = match serde_yaml::from_str::<serde_yaml::Value>(text) {
        Ok(value) => value,
        Err(e) => return RuleFileContent::Malformed(e.to_string()),
    };
    let mut rules = vec![];
    for item in value.as_sequence().unwrap() {
        let path = match &item["path"] {
            serde_yaml::Value::String(s) => RawPath::from_str(s).unwrap(),
            object => RawPath::new(
                object["pattern"].as_str().unwrap(),
                object["is_regex"].as_bool().unwrap(),
            ),
        };
        rules.push(record(
            item["name"].as_str().unwrap(),
            path,
            item["content"].as_str(),
            item["severity"].as_str().unwrap(),
        ));
    }
    RuleFileContent::Rules(rules)
}

#[test]
fn read_raw_rules_from_file_invalid() {
    let result =
        Reader::read_raw_rules_from_file(&format!("{}/tests", PROJECT_DIR), missing_file());
    assert!(result.is_err());
    assert_eq!(
        "Invalid configuration file",
        result.unwrap_err().description()
    );

    let result =
        Reader::read_raw_rules_from_file(&format!("{}/tests.txt", PROJECT_DIR), missing_file());
    assert!(result.is_err());
    assert_eq!(
        "No deserializer for the file type 'txt'",
        result.unwrap_err().description()
    );
}

#[test]
fn read_raw_rules_from_file_with_not_existing_json() {
    let result = Reader::read_raw_rules_from_file(
        &format!("{}/tests/resources/rules/not-a-file.json", PROJECT_DIR),
        missing_file(),
    );
    assert!(result.is_err());
    assert_eq!(
        "Invalid configuration file",
        result.unwrap_err().description()
    );
}

#[test]
fn read_raw_rules_from_file_with_json() {
    let result = Reader::read_raw_rules_from_file(
        &format!("{}/tests/resources/rules/rules.json", PROJECT_DIR),
        load_json(RULES_JSON),
    );
    test_loaded_rules(result);
}

#[test]
fn read_raw_rules_from_file_with_not_existing_yaml() {
    let result = Reader::read_raw_rules_from_file(
        &format!("{}/tests/resources/rules/not-a-file.yaml", PROJECT_DIR),
        missing_file(),
    );
    assert!(result.is_err());
    assert_eq!(
        "Invalid configuration file",
        result.unwrap_err().description()
    );
}

#[test]
fn read_raw_rules_from_file_with_yaml() {
    let result = Reader::read_raw_rules_from_file(
        &format!("{}/tests/resources/rules/rules.yaml", PROJECT_DIR),
        load_yaml(RULES_YAML),
    );
    test_loaded_rules(result);
}

#[test]
fn the_format_follows_from_the_extension() {
    assert_eq!(RuleFileFormat::Json, Reader::file_format("rules.json").unwrap());
    assert_eq!(RuleFileFormat::Yaml, Reader::file_format("/etc/scanner/rules.yaml").unwrap());
    assert_eq!(RuleFileFormat::Json, Reader::file_format("/etc/scanner.d/rules.yaml.json").unwrap());
    // A trailing slash does not hide the extension
    assert_eq!(RuleFileFormat::Json, Reader::file_format("/etc/rules.json/").unwrap());

    for path in ["", "rules", "/etc/scanner.d/rules", ".json", "/etc/.yaml", "/etc/.."] {
        let error = Reader::file_format(path).unwrap_err();
        match error.kind() {
            ErrorKind::ReaderError(text) => {
                assert_eq!(&format!("Could not detect the file type of '{}'", path), text)
            }
            _ => panic!("a name without an extension must be a reader error"),
        }
    }
    for (path, extension) in [("rules.yml", "yml"), ("rules.JSON", "JSON"), ("rules.", "")] {
        let error = Reader::file_format(path).unwrap_err();
        match error.kind() {
            ErrorKind::Msg(text) => {
                assert_eq!(&format!("No deserializer for the file type '{}'", extension), text)
            }
            _ => panic!("an unknown extension must be a message"),
        }
    }
    assert_eq!(
        RuleFileFormat::Yaml,
        Reader::format_for_extension("whatever", Some("yaml")).unwrap()
    );
    assert!(Reader::format_for_extension("whatever", None).is_err());
}

#[test]
fn reader_errors_in_words() {
    let error = build_file_type_error("/etc/rules");
    assert_eq!("Invalid configuration file", error.description());
    assert_eq!(
        "Configuration file can not be loaded: 'Could not detect the file type of '/etc/rules''",
        error.message()
    );
    let error = build_deserialize_error("/etc/rules.json", "expected value at line 1 column 1");
    assert_eq!(
        "Configuration file can not be loaded: 'Could not deserialize the file '/etc/rules.json': expected value at line 1 column 1'",
        error.message()
    );
    let error = build_open_error("/etc/rules.json", "Permission denied (os error 13)");
    assert_eq!(
        "Configuration file can not be loaded: 'Could not open file '/etc/rules.json' for reading: Permission denied (os error 13)'",
        error.message()
    );
    let error = ScanError::with_message(String::from("plain"));
    assert_eq!("plain", error.description());
    assert_eq!("plain", error.message());
    let error = ScanError::from_kind(ErrorKind::BindingError(String::from("fts")));
    assert_eq!("Error when calling external API", error.description());
    assert_eq!("Error when calling external API: 'fts'", error.message());
    let error = ScanError::from_kind(ErrorKind::Regex(String::from("unclosed group")));
    assert_eq!("unclosed group", error.description());
    assert_eq!("unclosed group", error.message());
}

#[test]
fn a_malformed_file_is_an_error() {
    let content = load_json("[{\"name\": ");
    assert!(matches!(content, RuleFileContent::Malformed(_)));
    let error = Reader::read_raw_rules_from_file("/etc/rules.json", content).unwrap_err();
    assert_eq!("Invalid configuration file", error.description());
    match error.kind() {
        ErrorKind::ReaderError(text) => {
            assert!(text.starts_with("Could not deserialize the file '/etc/rules.json': "))
        }
        _ => panic!("a malformed file must be a reader error"),
    }
    // The name of the file is looked at first
    let error = Reader::read_raw_rules_from_file("/etc/rules.ini", load_json("[]")).unwrap_err();
    assert_eq!("No deserializer for the file type 'ini'", error.description());
}

#[test]
fn rules_of_a_file_are_compiled() {
    let rules = Reader::read_rules_from_file("/etc/rules.json", load_json(RULES_JSON)).unwrap();
    assert_eq!(2, rules.len());
    assert_eq!("some rule", rules[0].name());
    assert!(!rules[0].is_regex_path());
    assert!(rules[0].has_content());
    assert_eq!("some whitelist rule", rules[1].name());
    assert!(rules[1].is_regex_path());
    assert!(rules[1].matches_path("/srv/INDEX.PHP"));
    assert!(rules[1].matches_content("with love"));

}

const RULES_WITH_A_BAD_ONE: &str = r#"[
  {"name": "first", "path": "some/path", "severity": "MINOR"},
  {"name": "bad path", "path": {"pattern": "(", "is_regex": true}, "severity": "MINOR"},
  {"name": "second", "path": {"pattern": "\\.php$", "is_regex": true}, "severity": "MAJOR"},
  {"name": "bad content", "path": "x", "content": "[z-a]", "severity": "CRITICAL"},
  {"name": "third", "path": "(", "content": "eval\\(", "severity": "NOTICE"}
]"#;

#[test]
fn a_rule_that_does_not_compile_is_dropped_from_the_file() {
    let rules =
        Reader::read_rules_from_file("/etc/rules.json", load_json(RULES_WITH_A_BAD_ONE)).unwrap();
    let names: Vec<&str> = rules.iter().map(|rule| rule.name()).collect();
    assert_eq!(vec!["first", "second", "third"], names);
    assert_eq!(Severity::MAJOR, rules[1].severity());
    assert!(rules[1].matches_path("/srv/index.php"));
    // A literal is never compiled
    assert!(rules[2].matches_path("/srv/(/index.php"));

    let only_bad = r#"[{"name": "bad", "path": {"pattern": "(", "is_regex": true}, "severity": "MINOR"}]"#;
    let rules = Reader::read_rules_from_file("/etc/rules.json", load_json(only_bad)).unwrap();
    assert!(rules.is_empty());

    // The raw records are all handed out
    let raw =
        Reader::read_raw_rules_from_file("/etc/rules.json", load_json(RULES_WITH_A_BAD_ONE)).unwrap();
    assert_eq!(5, raw.len());
}

#[test]
fn a_rule_that_does_not_compile_does_not_fail_the_merged_rules() {
    let builtin = get_builtin_rules();
    let merged = get_merged_rules("/etc/rules.json", load_json(RULES_WITH_A_BAD_ONE)).unwrap();
    assert_eq!(3 + builtin.len(), merged.len());
    let names: Vec<&str> = merged.iter().take(4).map(|rule| rule.name()).collect();
    assert_eq!(vec!["first", "second", "third", "php::content::error_reporting"], names);
    for (i, rule) in builtin.iter().enumerate() {
        assert!(merged[3 + i] == *rule);
    }
    // Only the name of the file and the reading of it fail
    assert!(get_merged_rules("/etc/rules.ini", load_json(RULES_WITH_A_BAD_ONE)).is_err());
    assert!(get_merged_rules("/etc/rules.json", load_json("[{")).is_err());
    assert!(get_merged_rules("/etc/rules.json", missing_file()).is_err());
}

#[test]
fn the_rules_of_a_file_and_the_builtin_rules_share_a_cache() {
    // The path of the first rule is the path of fifteen built-in rules
    let custom = r#"[
      {"name": "php", "path": {"pattern": "\\.php", "is_regex": true}, "content": "dezmond", "severity": "MINOR"},
      {"name": "other", "path": {"pattern": "\\.phtml", "is_regex": true}, "severity": "MINOR"}
    ]"#;
    let mut alone = RegexCache::new();
    let builtin = get_builtin_rules_with_cache(&mut alone);
    assert_eq!(23, builtin.len());
    let patterns_of_builtin = alone.len();

    let mut shared = RegexCache::new();
    let merged = get_merged_rules_with_cache(&mut shared, "/etc/rules.json", load_json(custom)).unwrap();
    assert_eq!(2 + builtin.len(), merged.len());
    // Of the three patterns of the file only one is new
    assert_eq!(patterns_of_builtin + 1, shared.len());

    let mut failed = RegexCache::new();
    assert!(get_merged_rules_with_cache(&mut failed, "/etc/rules", load_json(custom)).is_err());
    assert_eq!(0, failed.len());

    let mut cache = RegexCache::new();
    let rules =
        Reader::read_rules_from_file_with_cache(&mut cache, "/etc/rules.json", load_json(custom))
            .unwrap();
    assert_eq!(2, rules.len());
    assert_eq!(3, cache.len());
}

#[test]
fn rules_of_a_file_come_before_the_builtin_rules() {
    let merged = get_merged_rules("/etc/rules.yaml", load_yaml(RULES_YAML)).unwrap();
    let builtin = get_builtin_rules();
    assert_eq!(2 + builtin.len(), merged.len());
    assert_eq!("some rule", merged[0].name());
    assert_eq!("some whitelist rule", merged[1].name());
    for (i, rule) in builtin.iter().enumerate() {
        assert!(merged[2 + i] == *rule);
    }
    let error = get_merged_rules("/etc/rules", load_yaml(RULES_YAML)).unwrap_err();
    assert_eq!("Invalid configuration file", error.description());
    let error = get_merged_rules("/etc/rules.yaml", missing_file()).unwrap_err();
    assert_eq!("Invalid configuration file", error.description());
}
