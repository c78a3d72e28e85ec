use axion_db::metadata::AxionDataType;
use axion_db::types::postgres::{PostgresTypeMapper, MAX_ARRAY_DEPTH};
use axion_db::types::TypeMapper;

fn map(sql_type: &str, udt_name: Option<&str>) -> AxionDataType {
    PostgresTypeMapper.sql_to_axion(sql_type, udt_name)
}

fn array_of(inner: AxionDataType) -> AxionDataType {
    AxionDataType::Array(Box::new(inner))
}

#[test]
fn integer_without_underlying_name_is_integer_32() {
    assert_eq!(map("integer", None), AxionDataType::Integer(32));
}

#[test]
fn array_marker_with_prefixed_name_is_array_of_element() {
    assert_eq!(map("ARRAY", Some("_int4")), array_of(AxionDataType::Integer(32)));
}

#[test]
fn user_defined_marker_with_name_is_enum() {
    assert_eq!(map("USER-DEFINED", Some("mood")), AxionDataType::Enum("mood".to_string()));
}

#[test]
fn key_value_type_is_json() {
    assert_eq!(map("USER-DEFINED", Some("hstore")), AxionDataType::Json);
}

#[test]
fn user_defined_marker_without_name_is_unsupported() {
    assert_eq!(map("USER-DEFINED", None), AxionDataType::Unsupported("USER-DEFINED".to_string()));
}

#[test]
fn doubly_nested_array_composes() {
    assert_eq!(
        map("ARRAY", Some("__int4")),
        array_of(array_of(AxionDataType::Integer(32)))
    );
}

#[test]
fn array_of_unknown_element_keeps_the_element_name() {
    assert_eq!(
        map("ARRAY", Some("_mood")),
        array_of(AxionDataType::Unsupported("mood".to_string()))
    );
}

#[test]
fn array_marker_without_name_is_unsupported() {
    assert_eq!(map("ARRAY", None), AxionDataType::Unsupported("ARRAY".to_string()));
}

#[test]
fn prefixed_name_alone_marks_an_array() {
    assert_eq!(map("whatever", Some("_uuid")), array_of(AxionDataType::Uuid));
}

#[test]
fn ordinary_column_uses_the_descriptor() {
    assert_eq!(map("character varying", Some("varchar")), AxionDataType::Text);
    assert_eq!(map("integer", Some("int4")), AxionDataType::Integer(32));
}

#[test]
fn builtin_names_ignore_letter_case() {
    assert_eq!(map("INTEGER", None), AxionDataType::Integer(32));
    assert_eq!(map("Timestamp With Time Zone", None), AxionDataType::TimestampTz);
    assert_eq!(map("BiGiNt", None), AxionDataType::Integer(64));
}

#[test]
fn every_builtin_family_maps_to_its_type() {
    let cases: Vec<(&str, AxionDataType)> = vec![
        ("integer", AxionDataType::Integer(32)),
        ("int", AxionDataType::Integer(32)),
        ("int4", AxionDataType::Integer(32)),
        ("bigint", AxionDataType::Integer(64)),
        ("int8", AxionDataType::Integer(64)),
        ("smallint", AxionDataType::Integer(16)),
        ("int2", AxionDataType::Integer(16)),
        ("character varying", AxionDataType::Text),
        ("varchar", AxionDataType::Text),
        ("text", AxionDataType::Text),
        ("name", AxionDataType::Text),
        ("citext", AxionDataType::Text),
        ("char", AxionDataType::Text),
        ("bpchar", AxionDataType::Text),
        ("boolean", AxionDataType::Boolean),
        ("bool", AxionDataType::Boolean),
        ("date", AxionDataType::Date),
        ("timestamp without time zone", AxionDataType::Timestamp),
        ("timestamp", AxionDataType::Timestamp),
        ("timestamp with time zone", AxionDataType::TimestampTz),
        ("timestamptz", AxionDataType::TimestampTz),
        ("time without time zone", AxionDataType::Time),
        ("time", AxionDataType::Time),
        ("numeric", AxionDataType::Numeric),
        ("decimal", AxionDataType::Numeric),
        ("real", AxionDataType::Float(32)),
        ("float4", AxionDataType::Float(32)),
        ("double precision", AxionDataType::Float(64)),
        ("float8", AxionDataType::Float(64)),
        ("bytea", AxionDataType::Bytes),
        ("uuid", AxionDataType::Uuid),
        ("json", AxionDataType::Json),
        ("jsonb", AxionDataType::JsonB),
        ("inet", AxionDataType::Inet),
        ("cidr", AxionDataType::Inet),
    ];
    for (name, expected) in cases {
        assert_eq!(map(name, None), expected, "descriptor {}", name);
    }
}

#[test]
fn mapper_has_a_value_for_odd_descriptors() {
    assert_eq!(map("", None), AxionDataType::Unsupported(String::new()));
    assert_eq!(map("", Some("")), AxionDataType::Unsupported(String::new()));
    assert_eq!(map("no such type", None), AxionDataType::Unsupported("no such type".to_string()));
    assert_eq!(map("XML", Some("xml")), AxionDataType::Unsupported("XML".to_string()));
    assert_eq!(map("integer[]", None), AxionDataType::Unsupported("integer[]".to_string()));
    assert_eq!(map("\u{212a}", None), AxionDataType::Unsupported("\u{212a}".to_string()));
    assert_eq!(map("_", Some("_")), array_of(AxionDataType::Unsupported(String::new())));
}

#[test]
fn unsupported_keeps_the_descriptor_as_given() {
    assert_eq!(map("Money", None), AxionDataType::Unsupported("Money".to_string()));
}

fn depth(t: &AxionDataType) -> usize {
    match t {
        AxionDataType::Array(inner) => 1 + depth(inner),
        _ => 0,
    }
}

fn innermost(t: &AxionDataType) -> &AxionDataType {
    match t {
        AxionDataType::Array(inner) => innermost(inner),
        other => other,
    }
}

#[test]
fn nesting_is_followed_up_to_the_limit() {
    let name = format!("{}int4", "_".repeat(MAX_ARRAY_DEPTH));
    let t = map("ARRAY", Some(&name));
    assert_eq!(depth(&t), MAX_ARRAY_DEPTH);
    assert_eq!(innermost(&t), &AxionDataType::Integer(32));
}

#[test]
fn nesting_beyond_the_limit_is_unsupported() {
    let name = format!("{}int4", "_".repeat(MAX_ARRAY_DEPTH + 1));
    let t = map("ARRAY", Some(&name));
    assert_eq!(depth(&t), MAX_ARRAY_DEPTH);
    assert_eq!(innermost(&t), &AxionDataType::Unsupported("_int4".to_string()));
}

#[test]
fn marker_that_names_itself_ends_at_the_limit() {
    let t = map("ARRAY", Some("ARRAY"));
    assert_eq!(depth(&t), MAX_ARRAY_DEPTH);
    assert_eq!(innermost(&t), &AxionDataType::Unsupported("ARRAY".to_string()));
}

#[test]
fn compact_names() {
    assert_eq!(AxionDataType::Text.to_string(), "TEXT");
    assert_eq!(AxionDataType::Integer(32).to_string(), "INT32");
    assert_eq!(AxionDataType::Integer(-7).to_string(), "INT-7");
    assert_eq!(AxionDataType::Integer(i32::MIN).to_string(), "INT-2147483648");
    assert_eq!(AxionDataType::Float(64).to_string(), "FLOAT64");
    assert_eq!(AxionDataType::Numeric.to_string(), "NUMERIC");
    assert_eq!(AxionDataType::Boolean.to_string(), "BOOL");
    assert_eq!(AxionDataType::Timestamp.to_string(), "TIMESTAMP");
    assert_eq!(AxionDataType::TimestampTz.to_string(), "TIMESTAMPTZ");
    assert_eq!(AxionDataType::Date.to_string(), "DATE");
    assert_eq!(AxionDataType::Time.to_string(), "TIME");
    assert_eq!(AxionDataType::Bytes.to_string(), "BYTES");
    assert_eq!(AxionDataType::Uuid.to_string(), "UUID");
    assert_eq!(AxionDataType::Json.to_string(), "JSON");
    assert_eq!(AxionDataType::JsonB.to_string(), "JSONB");
    assert_eq!(AxionDataType::Inet.to_string(), "INET");
    assert_eq!(AxionDataType::Enum("mood".to_string()).to_string(), "mood");
    assert_eq!(array_of(AxionDataType::Uuid).to_string(), "UUID[]");
    assert_eq!(array_of(array_of(AxionDataType::Integer(16))).to_string(), "INT16[][]");
    assert_eq!(AxionDataType::Unsupported("xml".to_string()).to_string(), "UNSUPPORTED(xml)");
}

#[test]
fn clone_keeps_the_type() {
    let t = array_of(AxionDataType::Enum("mood".to_string()));
    assert_eq!(t.clone(), t);
}
