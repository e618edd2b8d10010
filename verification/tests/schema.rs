use typesensei::schema::{CollectionSchema, Field, FieldType};

#[test]
fn test_field_serde() {
    let field0 = Field::string_array(String::from("field0"));
    assert_eq!(field0.to_json(), r#"{"type":"string[]","name":"field0"}"#);

    let field1 = Field::int32(String::from("field1")).facet(true);
    assert_eq!(field1.to_json(), r#"{"type":"int32","name":"field1","facet":true}"#);
}

#[test]
fn field_type_wire_strings() {
    assert_eq!(FieldType::String.as_str(), "string");
    assert_eq!(FieldType::StringArray.as_str(), "string[]");
    assert_eq!(FieldType::Int32.as_str(), "int32");
    assert_eq!(FieldType::Int64Array.as_str(), "int64[]");
    assert_eq!(FieldType::Float.as_str(), "float");
    assert_eq!(FieldType::BoolArray.as_str(), "bool[]");
    assert_eq!(FieldType::ObjectArray.as_str(), "object[]");
    assert_eq!(FieldType::GeopointArray.as_str(), "geopoint[]");
    assert_eq!(FieldType::StringAst.as_str(), "string*");
    assert_eq!(FieldType::Auto.as_str(), "auto");
}

#[test]
fn field_builders_set_each_flag() {
    let field = Field::float(String::from("f"))
        .facet(true)
        .index(false)
        .sort(true)
        .optional(true)
        .drop(false);
    assert_eq!(
        field.to_json(),
        r#"{"type":"float","name":"f","facet":true,"index":false,"sort":true,"optional":true,"drop":false}"#
    );
}

#[test]
fn schema_renders_every_setting() {
    let schema = CollectionSchema::new(String::from("books"))
        .field(Field::string(String::from("title")))
        .field(Field::int64(String::from("year")).sort(true))
        .default_sorting_field(String::from("year"))
        .enable_nested_fields()
        .symbols_to_index(vec![String::from("-")]);
    let expected = format!(
        "{}{}{}{}",
        r#"{"name":"books","fields":[{"type":"string","name":"title"},"#,
        r#"{"type":"int64","name":"year","sort":true}],"#,
        r#""default_sorting_field":"year","enable_nested_fields":true,"#,
        r#""symbols_to_index":["-"]}"#
    );
    assert_eq!(schema.to_json(), expected);
}

#[test]
fn minimal_schema_omits_absent_settings() {
    let schema = CollectionSchema::new(String::from("empty"));
    assert_eq!(
        schema.to_json(),
        r#"{"name":"empty","fields":[],"enable_nested_fields":false}"#
    );
}

#[test]
fn extend_splices_fields_and_keeps_first_default() {
    let base = CollectionSchema::new(String::from("a"))
        .field(Field::string(String::from("x")))
        .default_sorting_field(String::from("x"));
    let other = CollectionSchema::new(String::from("b"))
        .field(Field::bool(String::from("y")))
        .default_sorting_field(String::from("y"));
    let merged = base.extend(other);
    assert_eq!(merged.name, "a");
    assert_eq!(merged.fields.len(), 2);
    assert_eq!(merged.fields[1].name, "y");
    assert_eq!(merged.default_sorting_field.as_deref(), Some("x"));

    let empty = CollectionSchema::new(String::from("c"));
    let taken = empty.extend(
        CollectionSchema::new(String::from("d")).default_sorting_field(String::from("z")),
    );
    assert_eq!(taken.default_sorting_field.as_deref(), Some("z"));
}

#[test]
fn with_name_replaces_the_name() {
    let schema = CollectionSchema::new(String::from("old")).with_name(String::from("new"));
    assert_eq!(schema.name, "new");
}

#[test]
fn json_strings_are_escaped() {
    let field = Field::string(String::from("a\"b\\c\nd"));
    assert_eq!(
        field.to_json(),
        "{\"type\":\"string\",\"name\":\"a\\\"b\\\\c\\nd\"}"
    );

    let ctl = Field::string(String::from("x\u{1}y"));
    assert_eq!(ctl.to_json(), "{\"type\":\"string\",\"name\":\"x\\u0001y\"}");
}

#[test]
fn rendered_json_round_trips_through_a_parser() {
    let schema = CollectionSchema::new(String::from("esc\"name"))
        .field(Field::string(String::from("weird\tkey")));
    let text = schema.to_json();
    let value: serde_json::Value = serde_json::from_str(&text).unwrap();
    assert_eq!(value["name"], "esc\"name");
    assert_eq!(value["fields"][0]["name"], "weird\tkey");
    assert_eq!(value["fields"][0]["type"], "string");
}

#[test]
fn numbers_render_in_decimal() {
    assert_eq!(typesensei::json::fmt_u64(0), "0");
    assert_eq!(typesensei::json::fmt_u64(9), "9");
    assert_eq!(typesensei::json::fmt_u64(10), "10");
    assert_eq!(typesensei::json::fmt_u64(18446744073709551615), "18446744073709551615");
    assert_eq!(typesensei::json::fmt_i64(-1), "-1");
    assert_eq!(typesensei::json::fmt_i64(-9223372036854775808), "-9223372036854775808");
    assert_eq!(typesensei::json::fmt_i64(42), "42");
}
