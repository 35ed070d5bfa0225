use smcmanager::manifest::{ManifestContent, ManifestError};

#[test]
fn extract_vars_test() {
    let content_1 = r"{TEST_VAR}1122333";
    assert_eq!(
        ManifestContent::extract_vars(content_1)
            .unwrap()
            .get(0)
            .unwrap(),
        "TEST_VAR"
    );

    let content_2 = r"{TEST_VAR{";
    assert_eq!(ManifestContent::extract_vars(content_2).is_err(), true);
}

#[test]
fn extract_vars_in_order() {
    let vars = ManifestContent::extract_vars("{A}{B}{C}").unwrap();
    assert_eq!(vars, vec!["A".to_string(), "B".to_string(), "C".to_string()]);
}

#[test]
fn extract_vars_escaped_brace_is_literal() {
    let vars = ManifestContent::extract_vars(r"\{A}").unwrap();
    assert!(vars.is_empty());
}

#[test]
fn extract_vars_unbalanced_brace_position() {
    let err = ManifestContent::extract_vars("{A").unwrap_err();
    assert!(matches!(
        err,
        ManifestError::UnbalancedBraces { line: 1, column: 1 }
    ));
}

#[test]
fn extract_vars_unbalanced_brace_on_later_line() {
    let err = ManifestContent::extract_vars("text\nmore {X").unwrap_err();
    assert!(matches!(
        err,
        ManifestError::UnbalancedBraces { line: 2, column: 6 }
    ));
}

#[test]
fn extract_vars_ignores_text_between_spans() {
    let vars = ManifestContent::extract_vars("a {HOST} b {PORT} c").unwrap();
    assert_eq!(vars, vec!["HOST".to_string(), "PORT".to_string()]);
}

#[test]
fn extract_vars_second_open_brace_keeps_accumulating() {
    let vars = ManifestContent::extract_vars("{AB{CD}").unwrap();
    assert_eq!(vars, vec!["ABCD".to_string()]);
}

const FULL: &str = r#"
name = "redis"
enable = true

[scripts]
health_check = "redis-cli ping"
pre_start = "prepare {DATA_DIR}"
start = "redis-server"
stop = "redis-cli shutdown"
post_stop = "cleanup"
"#;

#[test]
fn parse_full_manifest() {
    let m = ManifestContent::new(FULL).unwrap();
    assert_eq!(m.name, "redis");
    assert_eq!(m.enable, Some(true));
    assert_eq!(m.scripts.health_check, "redis-cli ping");
    assert_eq!(m.scripts.pre_start.as_deref(), Some("prepare {DATA_DIR}"));
    assert_eq!(m.scripts.start, "redis-server");
    assert_eq!(m.scripts.stop.as_deref(), Some("redis-cli shutdown"));
    assert_eq!(m.scripts.post_stop.as_deref(), Some("cleanup"));
    assert_eq!(m.vars, vec!["DATA_DIR".to_string()]);
}

#[test]
fn parse_minimal_manifest() {
    let text = "name = \"a\"\n[scripts]\nhealth_check = \"h\"\nstart = \"s\"\n";
    let m = ManifestContent::new(text).unwrap();
    assert_eq!(m.name, "a");
    assert_eq!(m.enable, None);
    assert_eq!(m.scripts.pre_start, None);
    assert_eq!(m.scripts.stop, None);
    assert_eq!(m.scripts.post_stop, None);
    assert!(m.vars.is_empty());
}

#[test]
fn parse_missing_name_fails() {
    let text = "[scripts]\nhealth_check = \"h\"\nstart = \"s\"\n";
    let err = ManifestContent::new(text).unwrap_err();
    assert!(matches!(err, ManifestError::RequiredFieldMissing));
}

#[test]
fn parse_missing_health_check_fails() {
    let text = "name = \"a\"\n[scripts]\nstart = \"s\"\n";
    let err = ManifestContent::new(text).unwrap_err();
    assert!(matches!(err, ManifestError::RequiredFieldMissing));
}

#[test]
fn parse_missing_start_fails() {
    let text = "name = \"a\"\n[scripts]\nhealth_check = \"h\"\n";
    let err = ManifestContent::new(text).unwrap_err();
    assert!(matches!(err, ManifestError::RequiredFieldMissing));
}

#[test]
fn parse_empty_required_field_fails() {
    let text = "name = \"\"\n[scripts]\nhealth_check = \"h\"\nstart = \"s\"\n";
    let err = ManifestContent::new(text).unwrap_err();
    assert!(matches!(err, ManifestError::RequiredFieldMissing));
}

#[test]
fn parse_invalid_document_fails_with_format_error() {
    let err = ManifestContent::new("= not valid at all =").unwrap_err();
    assert!(matches!(err, ManifestError::Format(_)));
}

#[test]
fn parse_unbalanced_braces_reported_after_structure() {
    let text = "name = \"a\"\n[scripts]\nhealth_check = \"h\"\nstart = \"run {X\"\n";
    let err = ManifestContent::new(text).unwrap_err();
    assert!(matches!(
        err,
        ManifestError::UnbalancedBraces {
            line: 4,
            column: 14
        }
    ));
}

#[test]
fn serialized_manifest_has_fixed_shape() {
    let m = ManifestContent::new("name = \"a\"\n[scripts]\nhealth_check = \"h\"\nstart = \"s\"\n")
        .unwrap();
    let text = m.to_toml_string();
    assert_eq!(
        text,
        "name = \"a\"\n[scripts]\nhealth_check = \"h\"\nstart = \"s\"\n"
    );
}

#[test]
fn serializer_escapes_quotes_and_backslashes() {
    let text = "name = \"a\"\n[scripts]\nhealth_check = 'say \"hi\"'\nstart = 'c:\\run'\n";
    let m = ManifestContent::new(text).unwrap();
    let out = m.to_toml_string();
    assert!(out.contains("health_check = \"say \\\"hi\\\"\""));
    assert!(out.contains("start = \"c:\\\\run\""));
}

#[test]
fn serializer_escapes_control_characters() {
    let text = "name = \"c\"\n[scripts]\nhealth_check = \"h\"\nstart = \"a\\u0001b\"\n";
    let first = ManifestContent::new(text).unwrap();
    assert_eq!(first.scripts.start, "a\u{1}b");
    let written = first.to_toml_string();
    assert!(written.contains("start = \"a\\u0001b\""));
    let second = ManifestContent::new(&written).unwrap();
    assert!(second.scripts == first.scripts);
}

#[test]
fn serializer_escapes_delete_character() {
    let text = "name = \"c\"\n[scripts]\nhealth_check = \"h\"\nstart = \"x\\u007Fy\"\n";
    let first = ManifestContent::new(text).unwrap();
    let written = first.to_toml_string();
    assert!(written.contains("start = \"x\\u007fy\""));
    let second = ManifestContent::new(&written).unwrap();
    assert!(second.scripts == first.scripts);
}

#[test]
fn round_trip_keeps_every_field_but_the_variable_list() {
    let first = ManifestContent::new(FULL).unwrap();
    let written = first.to_toml_string();
    let second = ManifestContent::new(&written).unwrap();
    assert_eq!(second.name, first.name);
    assert_eq!(second.enable, first.enable);
    assert!(second.scripts == first.scripts);
    // The variable list is not persisted: it is re-extracted from the new
    // text, which still spells out the same placeholder.
    assert_eq!(second.vars, vec!["DATA_DIR".to_string()]);
}

#[test]
fn round_trip_of_escaped_scripts() {
    let text = "name = \"q\"\nenable = false\n[scripts]\nhealth_check = 'check \"deep\"'\nstart = 'start\\t'\n";
    let first = ManifestContent::new(text).unwrap();
    let second = ManifestContent::new(&first.to_toml_string()).unwrap();
    assert_eq!(second.name, first.name);
    assert_eq!(second.enable, first.enable);
    assert!(second.scripts == first.scripts);
}

#[test]
fn default_manifest_serializes_to_the_blank_template() {
    let text = ManifestContent::default().to_toml_string();
    assert_eq!(
        text,
        "name = \"\"\n[scripts]\nhealth_check = \"\"\nstart = \"\"\n"
    );
}
