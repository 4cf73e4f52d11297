//! Whole-file scenarios: well-formed files, files with a missing or
//! ill-typed field, and the loader's exactness about values.

use swish_config::{
    parse_config, Config, FieldId, LoggingLevels, ParseError, RotationMethod, SectionId,
};

fn sample_text() -> String {
    let mut t = String::new();
    t.push_str("[server]\n");
    t.push_str("host = \"127.0.0.1\"\n");
    t.push_str("port = 8080\n");
    t.push_str("password = \"secret\"\n");
    t.push_str("[rotation]\n");
    t.push_str("enabled = true\n");
    t.push_str("method = \"Nanosecond\"\n");
    t.push_str("blocks = [\"a.com\"]\n");
    t.push_str("[search]\n");
    t.push_str("max_results = 50\n");
    t.push_str("[logging]\n");
    t.push_str("path = \"log.txt\"\n");
    t.push_str("backup_count = 3\n");
    t.push_str("max_bytes = 1048576\n");
    t.push_str("[logging.levels]\n");
    t.push_str("swish = \"INFO\"\n");
    t.push_str("actix = \"WARNING\"\n");
    t
}

fn sample_config() -> Config {
    parse_config(&sample_text()).expect("the sample file is well-formed")
}

#[test]
fn well_formed_file_loads_exactly() {
    let c = sample_config();
    assert_eq!(c.server.host, "127.0.0.1");
    assert_eq!(c.server.port, 8080);
    assert_eq!(c.server.password, "secret");
    assert!(c.rotation.enabled);
    assert_eq!(c.rotation.method, RotationMethod::Nanosecond);
    assert_eq!(c.rotation.blocks, vec!["a.com".to_string()]);
    assert_eq!(c.search.max_results, 50);
    assert_eq!(c.logging.path, "log.txt");
    assert_eq!(c.logging.backup_count, 3);
    assert_eq!(c.logging.max_bytes, 1048576);
    assert_eq!(c.logging.levels.swish, LoggingLevels::INFO);
    assert_eq!(c.logging.levels.actix, LoggingLevels::WARNING);
}

#[test]
fn loading_twice_is_idempotent() {
    let t = sample_text();
    let a = parse_config(&t).expect("well-formed");
    let b = parse_config(&t).expect("well-formed");
    assert_eq!(a, b);
}

#[test]
fn missing_port_is_a_parse_error() {
    let t = sample_text().replace("port = 8080\n", "");
    let e = parse_config(&t).expect_err("port is required");
    assert_eq!(e, ParseError::MissingField { field: FieldId::Port });
}

#[test]
fn missing_whole_section_is_a_parse_error() {
    let t = sample_text().replace("[search]\nmax_results = 50\n", "");
    let e = parse_config(&t).expect_err("max_results is required");
    assert_eq!(e, ParseError::MissingField { field: FieldId::MaxResults });
}

#[test]
fn unknown_method_names_the_value() {
    let t = sample_text().replace("\"Nanosecond\"", "\"Foo\"");
    let e = parse_config(&t).expect_err("Foo names no method");
    match e {
        ParseError::BadEnumValue { line, field, value } => {
            assert_eq!(line, 7);
            assert_eq!(field, FieldId::Method);
            assert_eq!(value, "Foo");
        }
        other => panic!("expected BadEnumValue, got {:?}", other),
    }
}

#[test]
fn banned_method_loads() {
    let t = sample_text().replace("\"Nanosecond\"", "\"Banned\"");
    let c = parse_config(&t).expect("Banned names a method");
    assert_eq!(c.rotation.method, RotationMethod::Banned);
}

#[test]
fn unknown_level_names_the_value() {
    let t = sample_text().replace("\"INFO\"", "\"verbose\"");
    let e = parse_config(&t).expect_err("verbose names no level");
    match e {
        ParseError::BadEnumValue { field, value, .. } => {
            assert_eq!(field, FieldId::Swish);
            assert_eq!(value, "verbose");
        }
        other => panic!("expected BadEnumValue, got {:?}", other),
    }
}

#[test]
fn negative_port_is_out_of_range() {
    let t = sample_text().replace("port = 8080", "port = -1");
    let e = parse_config(&t).expect_err("a port is unsigned");
    assert_eq!(e, ParseError::OutOfRange { line: 3, field: FieldId::Port });
}

#[test]
fn oversized_port_is_out_of_range() {
    let t = sample_text().replace("port = 8080", "port = 65536");
    let e = parse_config(&t).expect_err("65536 exceeds a 16-bit port");
    assert_eq!(e, ParseError::OutOfRange { line: 3, field: FieldId::Port });
}

#[test]
fn largest_port_loads() {
    let t = sample_text().replace("port = 8080", "port = 65535");
    let c = parse_config(&t).expect("65535 is the largest port");
    assert_eq!(c.server.port, 65535);
}

#[test]
fn negative_zero_is_zero() {
    let t = sample_text().replace("port = 8080", "port = -0");
    let c = parse_config(&t).expect("negative zero denotes zero");
    assert_eq!(c.server.port, 0);
}

#[test]
fn oversized_backup_count_is_out_of_range() {
    let t = sample_text().replace("backup_count = 3", "backup_count = 256");
    let e = parse_config(&t).expect_err("256 exceeds an 8-bit count");
    assert_eq!(e, ParseError::OutOfRange { line: 13, field: FieldId::BackupCount });
}

#[test]
fn largest_max_bytes_loads() {
    let t = sample_text().replace("max_bytes = 1048576", "max_bytes = 4294967295");
    let c = parse_config(&t).expect("the largest 32-bit count fits");
    assert_eq!(c.logging.max_bytes, 4294967295);
}

#[test]
fn string_port_is_wrong_type() {
    let t = sample_text().replace("port = 8080", "port = \"8080\"");
    let e = parse_config(&t).expect_err("a quoted port is no integer");
    assert_eq!(e, ParseError::WrongType { line: 3, field: FieldId::Port });
}

#[test]
fn integer_enabled_is_wrong_type() {
    let t = sample_text().replace("enabled = true", "enabled = 1");
    let e = parse_config(&t).expect_err("a flag is a boolean");
    assert_eq!(e, ParseError::WrongType { line: 6, field: FieldId::Enabled });
}

#[test]
fn missing_equals_is_a_syntax_error() {
    let t = sample_text().replace("port = 8080", "port 8080");
    let e = parse_config(&t).expect_err("an assignment needs an equals sign");
    assert_eq!(e, ParseError::Syntax { line: 3 });
}

#[test]
fn duplicate_field_is_reported() {
    let t = sample_text().replace("port = 8080\n", "port = 8080\nport = 9090\n");
    let e = parse_config(&t).expect_err("port is assigned twice");
    assert_eq!(e, ParseError::DuplicateField { line: 4, field: FieldId::Port });
}

#[test]
fn duplicate_section_is_reported() {
    let mut t = sample_text();
    t.push_str("[server]\n");
    let e = parse_config(&t).expect_err("the server section repeats");
    assert_eq!(e, ParseError::DuplicateSection { line: 18, section: SectionId::Server });
}

#[test]
fn empty_text_misses_the_first_field() {
    let e = parse_config("").expect_err("an empty file holds nothing");
    assert_eq!(e, ParseError::MissingField { field: FieldId::Host });
}
