use typesensei::derive::{
    derive_schema, fields_has_id, validate_defs, ExtraField, FieldDef, RenameRule,
};
use typesensei::json::JsonObject;
use typesensei::schema::{CollectionSchema, FieldType};
use typesensei::{FieldState, Typesense, TypesenseField};

fn plain_def(ident: &str, field_type: FieldType) -> FieldDef {
    FieldDef {
        ident: String::from(ident),
        rename: None,
        facet: None,
        index: None,
        sort: None,
        optional: None,
        custom_type: None,
        default_sorting_field: false,
        flatten: false,
        skip: false,
        is_option: false,
        is_vec: false,
        field_type,
        sub_schema: None,
    }
}

// The example document type: `field0: u32`, `field1: String` marked facet.
struct One {
    field0: u32,
    field1: String,
}

// Its presence-tracked model, with the implicit id injected.
#[derive(Default)]
struct OneModel {
    id: FieldState<String>,
    field0: FieldState<u64>,
    field1: FieldState<String>,
}

impl OneModel {
    fn to_json(&self) -> String {
        let mut obj = JsonObject::new();
        obj.field_str("id", &self.id);
        obj.field_u64("field0", &self.field0);
        obj.field_str("field1", &self.field1);
        obj.finish()
    }
}

impl Typesense for One {
    fn schema_name() -> String {
        String::from("one")
    }

    fn schema(collection_name: &str) -> CollectionSchema {
        let defs = vec![
            plain_def("field0", <u32 as TypesenseField>::field_type()),
            FieldDef { facet: Some(true), ..plain_def("field1", <String as TypesenseField>::field_type()) },
        ];
        derive_schema(
            String::from(collection_name),
            defs,
            RenameRule::Identity,
            false,
            Vec::new(),
            None,
        )
    }
}

#[test]
fn example_end_to_end() {
    // `{ field0: u32, field1: String (facet) }` derives
    // `[{name:"field0", type:"int32"}, {name:"field1", type:"string", facet:true}]`,
    // and a model with field0 set to 123 and field1 untouched serializes to
    // `{"field0":123}`.
    let schema = One::schema("one");
    assert_eq!(schema.fields.len(), 2);
    assert_eq!(schema.fields[0].to_json(), r#"{"type":"int32","name":"field0"}"#);
    assert_eq!(
        schema.fields[1].to_json(),
        r#"{"type":"string","name":"field1","facet":true}"#
    );

    let mut model = OneModel::default();
    model.field0.set(123);
    assert_eq!(model.to_json(), r#"{"field0":123}"#);

    let one = One { field0: 123, field1: String::from("hi") };
    let _ = (one.field0, one.field1);
}

#[test]
fn all_not_set_fields_serialize_to_an_empty_object() {
    let model = OneModel::default();
    assert_eq!(model.to_json(), "{}");

    // The decoder side of the same rule: an absent key stays untouched.
    let decoded: FieldState<u64> = FieldState::from(None);
    assert!(decoded.is_not_set());
}

#[test]
fn flattened_fields_inherit_overrides() {
    // A flatten field with facet = true faces every spliced field with
    // facet: Some(true).
    let sub = CollectionSchema::new(String::new())
        .field(typesensei::schema::Field::string(String::from("inner_a")))
        .field(typesensei::schema::Field::int64(String::from("inner_b")).facet(false));
    let defs = vec![
        FieldDef {
            flatten: true,
            facet: Some(true),
            sub_schema: Some(sub),
            ..plain_def("nested", FieldType::Object)
        },
    ];
    let schema = derive_schema(
        String::from("c"),
        defs,
        RenameRule::Identity,
        false,
        Vec::new(),
        None,
    );
    assert_eq!(schema.fields.len(), 2);
    for field in &schema.fields {
        assert_eq!(field.facet, Some(true));
    }
    assert_eq!(schema.fields[0].name, "inner_a");
    assert_eq!(schema.fields[1].name, "inner_b");
}

#[test]
fn flatten_takes_sub_default_sorting_field_when_none_set() {
    let sub = CollectionSchema::new(String::new())
        .field(typesensei::schema::Field::int32(String::from("rank")))
        .default_sorting_field(String::from("rank"));
    let defs = vec![FieldDef {
        flatten: true,
        sub_schema: Some(sub),
        ..plain_def("nested", FieldType::Object)
    }];
    let schema = derive_schema(
        String::from("c"),
        defs,
        RenameRule::Identity,
        false,
        Vec::new(),
        None,
    );
    assert_eq!(schema.default_sorting_field.as_deref(), Some("rank"));
}

#[test]
fn optionality_is_derived_from_attributes_type_and_index() {
    let explicit = FieldDef { optional: Some(true), ..plain_def("a", FieldType::String) };
    let from_type = FieldDef { is_option: true, ..plain_def("b", FieldType::String) };
    let unindexed = FieldDef { index: Some(false), ..plain_def("c", FieldType::String) };
    let plain = plain_def("d", FieldType::String);
    let schema = derive_schema(
        String::from("c"),
        vec![explicit, from_type, unindexed, plain],
        RenameRule::Identity,
        false,
        Vec::new(),
        None,
    );
    assert_eq!(schema.fields[0].optional, Some(true));
    assert_eq!(schema.fields[1].optional, Some(true));
    assert_eq!(schema.fields[2].optional, Some(true));
    assert_eq!(schema.fields[2].index, Some(false));
    assert_eq!(schema.fields[3].optional, None);
}

#[test]
fn id_fields_get_no_schema_entry() {
    let defs = vec![
        plain_def("id", FieldType::String),
        plain_def("title", FieldType::String),
        FieldDef { rename: Some(String::from("id")), ..plain_def("key", FieldType::String) },
    ];
    assert!(fields_has_id(&defs));
    let schema = derive_schema(
        String::from("c"),
        defs,
        RenameRule::Identity,
        false,
        Vec::new(),
        None,
    );
    assert_eq!(schema.fields.len(), 1);
    assert_eq!(schema.fields[0].name, "title");
}

#[test]
fn skipped_fields_and_renames() {
    let defs = vec![
        FieldDef { skip: true, ..plain_def("hidden", FieldType::String) },
        FieldDef { rename: Some(String::from("wire_name")), ..plain_def("local", FieldType::Bool) },
    ];
    let schema = derive_schema(
        String::from("c"),
        defs,
        RenameRule::Identity,
        false,
        Vec::new(),
        None,
    );
    assert_eq!(schema.fields.len(), 1);
    assert_eq!(schema.fields[0].name, "wire_name");
    assert_eq!(schema.fields[0].field_type, FieldType::Bool);
}

#[test]
fn nested_field_support_switches_itself_on() {
    let plain = derive_schema(
        String::from("c"),
        vec![plain_def("a", FieldType::String)],
        RenameRule::Identity,
        false,
        Vec::new(),
        None,
    );
    assert!(!plain.enable_nested_fields);

    let nested = derive_schema(
        String::from("c"),
        vec![FieldDef {
            custom_type: Some(FieldType::Object),
            ..plain_def("doc", FieldType::Object)
        }],
        RenameRule::Identity,
        false,
        Vec::new(),
        None,
    );
    assert!(nested.enable_nested_fields);
}

#[test]
fn extra_fields_follow_the_derived_ones() {
    let extras = vec![ExtraField {
        name: String::from("variants.color"),
        field_type: FieldType::StringArray,
        facet: Some(true),
        index: None,
        sort: None,
        optional: Some(true),
        default_sorting_field: Some(true),
    }];
    let schema = derive_schema(
        String::from("c"),
        vec![plain_def("a", FieldType::String)],
        RenameRule::Identity,
        false,
        extras,
        None,
    );
    assert_eq!(schema.fields.len(), 2);
    assert_eq!(schema.fields[1].name, "variants.color");
    assert_eq!(schema.fields[1].facet, Some(true));
    assert_eq!(schema.fields[1].optional, Some(true));
    assert_eq!(schema.default_sorting_field.as_deref(), Some("variants.color"));
}

#[test]
fn object_array_fields_must_be_sequences() {
    let bad = FieldDef {
        custom_type: Some(FieldType::ObjectArray),
        is_vec: false,
        ..plain_def("items", FieldType::ObjectArray)
    };
    let good = FieldDef {
        custom_type: Some(FieldType::ObjectArray),
        is_vec: true,
        ..plain_def("others", FieldType::ObjectArray)
    };
    assert!(validate_defs(&vec![good]).is_ok());
    let err = validate_defs(&vec![FieldDef { is_vec: true, ..plain_def("ok", FieldType::String) }, bad])
        .unwrap_err();
    assert_eq!(err.field, "items");
}

#[test]
fn rename_rules_convert_identifiers() {
    assert_eq!(RenameRule::Identity.apply_to_field("foo_bar"), "foo_bar");
    assert_eq!(RenameRule::Lower.apply_to_field("FooBar9"), "foobar9");
    assert_eq!(RenameRule::Upper.apply_to_field("foo_bar"), "FOO_BAR");
    assert_eq!(RenameRule::Camel.apply_to_field("foo_bar_baz"), "fooBarBaz");
    assert_eq!(RenameRule::Camel.apply_to_field("already"), "already");

    let schema = derive_schema(
        String::from("c"),
        vec![plain_def("created_at", FieldType::Int64)],
        RenameRule::Camel,
        false,
        Vec::new(),
        None,
    );
    assert_eq!(schema.fields[0].name, "createdAt");
}

#[test]
fn field_types_map_from_rust_types() {
    assert_eq!(<u8 as TypesenseField>::field_type(), FieldType::Int32);
    assert_eq!(<u32 as TypesenseField>::field_type(), FieldType::Int32);
    assert_eq!(<i64 as TypesenseField>::field_type(), FieldType::Int64);
    assert_eq!(<bool as TypesenseField>::field_type(), FieldType::Bool);
    assert_eq!(<String as TypesenseField>::field_type(), FieldType::String);
    assert_eq!(<Vec<String> as TypesenseField>::field_type(), FieldType::StringArray);
    assert_eq!(<Vec<i32> as TypesenseField>::field_type(), FieldType::Int32Array);
    assert_eq!(<Option<u64> as TypesenseField>::field_type(), FieldType::Int64);
}
