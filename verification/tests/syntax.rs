//! Syntax-level scenarios: comments, whitespace, escapes, arrays and
//! the treatment of unknown keys and sections.

use swish_config::{parse_config, FieldId, ParseError};

fn base() -> String {
    let mut t = String::new();
    t.push_str("[server]\n");
    t.push_str("host = \"h\"\n");
    t.push_str("port = 1\n");
    t.push_str("password = \"p\"\n");
    t.push_str("[rotation]\n");
    t.push_str("enabled = false\n");
    t.push_str("method = \"Banned\"\n");
    t.push_str("blocks = []\n");
    t.push_str("[search]\n");
    t.push_str("max_results = 0\n");
    t.push_str("[logging]\n");
    t.push_str("path = \"l\"\n");
    t.push_str("backup_count = 0\n");
    t.push_str("max_bytes = 0\n");
    t.push_str("[logging.levels]\n");
    t.push_str("swish = \"OFF\"\n");
    t.push_str("actix = \"ERROR\"\n");
    t
}

#[test]
fn comments_and_blank_lines_are_ignored() {
    let t = base()
        .replace("[server]\n", "# a comment\n\n[server] # trailing\n")
        .replace("port = 1\n", "  port   =   1   # eighty\n");
    let c = parse_config(&t).expect("comments and spacing change nothing");
    assert_eq!(c.server.port, 1);
}

#[test]
fn crlf_line_ends_are_accepted() {
    let t = base().replace("\n", "\r\n");
    let c = parse_config(&t).expect("carriage returns before newlines are tolerated");
    assert_eq!(c.server.host, "h");
}

#[test]
fn string_escapes_are_decoded() {
    let t = base().replace("password = \"p\"", "password = \"a\\\"b\\\\c\\nd\\te\\rf\"");
    let c = parse_config(&t).expect("the five escapes are supported");
    assert_eq!(c.server.password, "a\"b\\c\nd\te\rf");
}

#[test]
fn single_quoted_strings_are_read_verbatim() {
    let t = base().replace("password = \"p\"", "password = 'a\\\"b'");
    let c = parse_config(&t).expect("a literal string knows no escapes");
    assert_eq!(c.server.password, "a\\\"b");
}

#[test]
fn single_quoted_array_items_are_accepted() {
    let t = base().replace("blocks = []", "blocks = ['a.com', \"b.net\"]");
    let c = parse_config(&t).expect("both quote kinds may mix in an array");
    assert_eq!(c.rotation.blocks, vec!["a.com".to_string(), "b.net".to_string()]);
}

#[test]
fn unknown_escape_is_a_syntax_error() {
    let t = base().replace("password = \"p\"", "password = \"a\\qb\"");
    let e = parse_config(&t).expect_err("backslash q is no escape");
    assert_eq!(e, ParseError::Syntax { line: 4 });
}

#[test]
fn unterminated_string_is_a_syntax_error() {
    let t = base().replace("password = \"p\"", "password = \"p");
    let e = parse_config(&t).expect_err("the closing quote is owed");
    assert_eq!(e, ParseError::Syntax { line: 4 });
}

#[test]
fn array_of_several_blocks_keeps_order() {
    let t = base().replace("blocks = []", "blocks = [\"a.com\", \"b.net\", \"c.org\"]");
    let c = parse_config(&t).expect("a populated array parses");
    assert_eq!(
        c.rotation.blocks,
        vec!["a.com".to_string(), "b.net".to_string(), "c.org".to_string()]
    );
}

#[test]
fn trailing_comma_in_array_is_accepted() {
    let t = base().replace("blocks = []", "blocks = [ \"a.com\" , ]");
    let c = parse_config(&t).expect("a trailing comma is tolerated");
    assert_eq!(c.rotation.blocks, vec!["a.com".to_string()]);
}

#[test]
fn array_without_comma_is_a_syntax_error() {
    let t = base().replace("blocks = []", "blocks = [\"a\" \"b\"]");
    let e = parse_config(&t).expect_err("items must be separated");
    assert_eq!(e, ParseError::Syntax { line: 8 });
}

#[test]
fn unknown_keys_are_ignored() {
    let t = base().replace("port = 1\n", "port = 1\nnickname = \"x\"\n");
    let c = parse_config(&t).expect("an unknown key is skipped");
    assert_eq!(c.server.port, 1);
}

#[test]
fn unknown_sections_are_ignored() {
    let mut t = base();
    t.push_str("[metrics]\ninterval = 9\n");
    let c = parse_config(&t).expect("an unknown section is skipped");
    assert_eq!(c.logging.backup_count, 0);
}

#[test]
fn deeply_dotted_sections_are_ignored() {
    let mut t = base();
    t.push_str("[a.b.c]\nx = 1\n");
    let c = parse_config(&t).expect("a three-part header is an unknown section");
    assert_eq!(c.server.port, 1);
}

#[test]
fn known_key_in_foreign_section_is_ignored() {
    let t = base().replace("max_results = 0\n", "max_results = 0\nport = 9\n");
    let c = parse_config(&t).expect("port under search is not the server port");
    assert_eq!(c.server.port, 1);
}

#[test]
fn assignment_before_any_section_is_ignored() {
    let mut t = String::from("port = 9\n");
    t.push_str(&base());
    let c = parse_config(&t).expect("a top-level key belongs to no section");
    assert_eq!(c.server.port, 1);
}

#[test]
fn spaced_section_header_is_accepted() {
    let t = base().replace("[logging.levels]", "[ logging . levels ]");
    let c = parse_config(&t).expect("spaces inside a header are tolerated");
    assert_eq!(c.logging.levels.actix, swish_config::LoggingLevels::ERROR);
}

#[test]
fn plus_signed_integer_is_accepted() {
    let t = base().replace("port = 1", "port = +17");
    let c = parse_config(&t).expect("an explicit plus sign is tolerated");
    assert_eq!(c.server.port, 17);
}

#[test]
fn huge_integer_is_a_syntax_error() {
    let t = base().replace("port = 1", "port = 99999999999999999999999999");
    let e = parse_config(&t).expect_err("the literal exceeds any supported integer");
    assert_eq!(e, ParseError::Syntax { line: 3 });
}

#[test]
fn missing_levels_subsection_misses_swish() {
    let t = base().replace("[logging.levels]\nswish = \"OFF\"\nactix = \"ERROR\"\n", "");
    let e = parse_config(&t).expect_err("the levels are required");
    assert_eq!(e, ParseError::MissingField { field: FieldId::Swish });
}

#[test]
fn raw_control_character_in_string_is_a_syntax_error() {
    let t = base().replace("password = \"p\"", "password = \"a\u{0007}b\"");
    let e = parse_config(&t).expect_err("a raw control character is refused");
    assert_eq!(e, ParseError::Syntax { line: 4 });
}
