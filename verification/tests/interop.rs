//! Round trip through the reference serializer: a known structure is
//! written to text by the `toml` crate and loaded back by this
//! library; every field must come back exactly as it went in.

use toml::Value;

use swish_config::{parse_config, LoggingLevels, RotationMethod};

fn table(entries: Vec<(&str, Value)>) -> Value {
    let mut m = toml::map::Map::new();
    for (k, v) in entries {
        m.insert(k.to_string(), v);
    }
    Value::Table(m)
}

fn sample_value() -> Value {
    let server = table(vec![
        ("host", Value::String("127.0.0.1".to_string())),
        ("port", Value::Integer(8080)),
        ("password", Value::String("secret".to_string())),
    ]);
    let rotation = table(vec![
        ("enabled", Value::Boolean(true)),
        ("method", Value::String("Nanosecond".to_string())),
        ("blocks", Value::Array(vec![Value::String("a.com".to_string())])),
    ]);
    let search = table(vec![("max_results", Value::Integer(50))]);
    let levels = table(vec![
        ("swish", Value::String("INFO".to_string())),
        ("actix", Value::String("WARNING".to_string())),
    ]);
    let logging = table(vec![
        ("path", Value::String("log.txt".to_string())),
        ("backup_count", Value::Integer(3)),
        ("max_bytes", Value::Integer(1048576)),
        ("levels", levels),
    ]);
    table(vec![
        ("server", server),
        ("rotation", rotation),
        ("search", search),
        ("logging", logging),
    ])
}

#[test]
fn serialized_sample_loads_back_exactly() {
    let text = toml::to_string(&sample_value()).expect("the sample serializes");
    let c = parse_config(&text).expect("the serialized sample loads");
    assert_eq!(c.server.host, "127.0.0.1");
    assert_eq!(c.server.port, 8080);
    assert_eq!(c.server.password, "secret");
    assert!(c.rotation.enabled);
    assert_eq!(c.rotation.method, RotationMethod::Nanosecond);
    assert_eq!(c.rotation.blocks, vec!["a.com".to_string()]);
    assert_eq!(c.search.max_results, 50);
    assert_eq!(c.logging.path, "log.txt");
    assert_eq!(c.logging.backup_count, 3);
    assert_eq!(c.logging.max_bytes, 1048576);
    assert_eq!(c.logging.levels.swish, LoggingLevels::INFO);
    assert_eq!(c.logging.levels.actix, LoggingLevels::WARNING);
}

#[test]
fn serialized_awkward_strings_load_back_exactly() {
    let mut v = sample_value();
    if let Value::Table(root) = &mut v {
        if let Some(Value::Table(server)) = root.get_mut("server") {
            server.insert(
                "password".to_string(),
                Value::String("a\"b\\c\td".to_string()),
            );
        }
    }
    let text = toml::to_string(&v).expect("the awkward sample serializes");
    let c = parse_config(&text).expect("the awkward sample loads");
    assert_eq!(c.server.password, "a\"b\\c\td");
}

#[test]
fn io_errors_stay_distinct_from_parse_errors() {
    let parse_side = swish_config::load_str("port 8080").expect_err("not a well-formed file");
    assert!(!parse_side.is_io());
    let io_side = swish_config::ConfigError::Io { message: "no such file".to_string() };
    assert!(io_side.is_io());
    assert_ne!(io_side, parse_side);
}
