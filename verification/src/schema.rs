//! The engine-facing description of a collection: field names, types and
//! indexing flags, with its exact JSON wire form.

use vstd::prelude::*;

use crate::json::{
    spec_json_array, spec_json_bool, spec_json_object, spec_json_string, json_array, JsonObject,
};

verus! {

/// The wire type of a schema field.
#[derive(Debug, Clone, Copy, PartialEq, Eq, Hash, Structural)]
pub enum FieldType {
    String,
    StringArray,
    Int32,
    Int32Array,
    Int64,
    Int64Array,
    Float,
    FloatArray,
    Bool,
    BoolArray,
    Object,
    ObjectArray,
    Geopoint,
    GeopointArray,
    StringAst,
    Auto,
}

impl FieldType {
    /// The string the engine uses for this type.
    pub open spec fn spec_str(self) -> Seq<char> {
        match self {
            FieldType::String => "string"@,
            FieldType::StringArray => "string[]"@,
            FieldType::Int32 => "int32"@,
            FieldType::Int32Array => "int32[]"@,
            FieldType::Int64 => "int64"@,
            FieldType::Int64Array => "int64[]"@,
            FieldType::Float => "float"@,
            FieldType::FloatArray => "float[]"@,
            FieldType::Bool => "bool"@,
            FieldType::BoolArray => "bool[]"@,
            FieldType::Object => "object"@,
            FieldType::ObjectArray => "object[]"@,
            FieldType::Geopoint => "geopoint"@,
            FieldType::GeopointArray => "geopoint[]"@,
            FieldType::StringAst => "string*"@,
            FieldType::Auto => "auto"@,
        }
    }

    pub fn as_str(&self) -> (r: &'static str)
        ensures
            r@ == self.spec_str(),
    {
        match self {
            FieldType::String => "string",
            FieldType::StringArray => "string[]",
            FieldType::Int32 => "int32",
            FieldType::Int32Array => "int32[]",
            FieldType::Int64 => "int64",
            FieldType::Int64Array => "int64[]",
            FieldType::Float => "float",
            FieldType::FloatArray => "float[]",
            FieldType::Bool => "bool",
            FieldType::BoolArray => "bool[]",
            FieldType::Object => "object",
            FieldType::ObjectArray => "object[]",
            FieldType::Geopoint => "geopoint",
            FieldType::GeopointArray => "geopoint[]",
            FieldType::StringAst => "string*",
            FieldType::Auto => "auto",
        }
    }
}

/// One schema field: wire type, wire name, and optional indexing flags.
/// A flag that is `None` is left out of the wire form entirely.
#[derive(Debug, Clone)]
pub struct Field {
    pub field_type: FieldType,
    pub name: String,
    pub facet: Option<bool>,
    pub index: Option<bool>,
    pub sort: Option<bool>,
    pub optional: Option<bool>,
    pub drop: Option<bool>,
}

/// The members of a field's JSON object: `type` and `name` always, then
/// each flag that is present, in declaration order.
pub open spec fn spec_field_pairs(f: Field) -> Seq<(Seq<char>, Seq<char>)> {
    let p = seq![
        ("type"@, spec_json_string(f.field_type.spec_str())),
        ("name"@, spec_json_string(f.name@)),
    ];
    let p = match f.facet {
        Some(b) => p.push(("facet"@, spec_json_bool(b))),
        None => p,
    };
    let p = match f.index {
        Some(b) => p.push(("index"@, spec_json_bool(b))),
        None => p,
    };
    let p = match f.sort {
        Some(b) => p.push(("sort"@, spec_json_bool(b))),
        None => p,
    };
    let p = match f.optional {
        Some(b) => p.push(("optional"@, spec_json_bool(b))),
        None => p,
    };
    match f.drop {
        Some(b) => p.push(("drop"@, spec_json_bool(b))),
        None => p,
    }
}

/// A field's JSON wire form.
pub open spec fn spec_field_json(f: Field) -> Seq<char> {
    spec_json_object(spec_field_pairs(f))
}

impl Field {
    /// A field of the given type and name with no flags set.
    pub fn new(field_type: FieldType, name: String) -> (r: Self)
        ensures
            r == (Field {
                field_type,
                name,
                facet: None,
                index: None,
                sort: None,
                optional: None,
                drop: None,
            }),
    {
        Self { field_type, name, facet: None, index: None, sort: None, optional: None, drop: None }
    }

    pub fn string(name: String) -> (r: Self)
        ensures
            r == Field::new_spec(FieldType::String, name),
    {
        Self::new(FieldType::String, name)
    }

    pub fn string_array(name: String) -> (r: Self)
        ensures
            r == Field::new_spec(FieldType::StringArray, name),
    {
        Self::new(FieldType::StringArray, name)
    }

    pub fn int32(name: String) -> (r: Self)
        ensures
            r == Field::new_spec(FieldType::Int32, name),
    {
        Self::new(FieldType::Int32, name)
    }

    pub fn int32_array(name: String) -> (r: Self)
        ensures
            r == Field::new_spec(FieldType::Int32Array, name),
    {
        Self::new(FieldType::Int32Array, name)
    }

    pub fn int64(name: String) -> (r: Self)
        ensures
            r == Field::new_spec(FieldType::Int64, name),
    {
        Self::new(FieldType::Int64, name)
    }

    pub fn int64_array(name: String) -> (r: Self)
        ensures
            r == Field::new_spec(FieldType::Int64Array, name),
    {
        Self::new(FieldType::Int64Array, name)
    }

    pub fn float(name: String) -> (r: Self)
        ensures
            r == Field::new_spec(FieldType::Float, name),
    {
        Self::new(FieldType::Float, name)
    }

    pub fn float_array(name: String) -> (r: Self)
        ensures
            r == Field::new_spec(FieldType::FloatArray, name),
    {
        Self::new(FieldType::FloatArray, name)
    }

    pub fn bool(name: String) -> (r: Self)
        ensures
            r == Field::new_spec(FieldType::Bool, name),
    {
        Self::new(FieldType::Bool, name)
    }

    pub fn bool_array(name: String) -> (r: Self)
        ensures
            r == Field::new_spec(FieldType::BoolArray, name),
    {
        Self::new(FieldType::BoolArray, name)
    }

    pub fn object(name: String) -> (r: Self)
        ensures
            r == Field::new_spec(FieldType::Object, name),
    {
        Self::new(FieldType::Object, name)
    }

    pub fn object_array(name: String) -> (r: Self)
        ensures
            r == Field::new_spec(FieldType::ObjectArray, name),
    {
        Self::new(FieldType::ObjectArray, name)
    }

    pub fn geopoint(name: String) -> (r: Self)
        ensures
            r == Field::new_spec(FieldType::Geopoint, name),
    {
        Self::new(FieldType::Geopoint, name)
    }

    pub fn geopoint_array(name: String) -> (r: Self)
        ensures
            r == Field::new_spec(FieldType::GeopointArray, name),
    {
        Self::new(FieldType::GeopointArray, name)
    }

    pub fn stringast(name: String) -> (r: Self)
        ensures
            r == Field::new_spec(FieldType::StringAst, name),
    {
        Self::new(FieldType::StringAst, name)
    }

    pub fn auto(name: String) -> (r: Self)
        ensures
            r == Field::new_spec(FieldType::Auto, name),
    {
        Self::new(FieldType::Auto, name)
    }

    /// The field `new` builds, for use in contracts.
    pub open spec fn new_spec(field_type: FieldType, name: String) -> Field {
        Field { field_type, name, facet: None, index: None, sort: None, optional: None, drop: None }
    }

    pub fn facet(self, facet: bool) -> (r: Self)
        ensures
            r == (Field { facet: Some(facet), ..self }),
    {
        Self { facet: Some(facet), ..self }
    }

    pub fn index(self, index: bool) -> (r: Self)
        ensures
            r == (Field { index: Some(index), ..self }),
    {
        Self { index: Some(index), ..self }
    }

    pub fn sort(self, sort: bool) -> (r: Self)
        ensures
            r == (Field { sort: Some(sort), ..self }),
    {
        Self { sort: Some(sort), ..self }
    }

    pub fn optional(self, optional: bool) -> (r: Self)
        ensures
            r == (Field { optional: Some(optional), ..self }),
    {
        Self { optional: Some(optional), ..self }
    }

    pub fn drop(self, should_drop: bool) -> (r: Self)
        ensures
            r == (Field { drop: Some(should_drop), ..self }),
    {
        Self { drop: Some(should_drop), ..self }
    }

    /// Renders the field exactly as the engine expects it, flags that are
    /// `None` omitted.
    #[verifier::rlimit(30)]
    pub fn to_json(&self) -> (r: String)
        ensures
            r@ == spec_field_json(*self),
    {
        let mut obj = JsonObject::new();
        obj.member_str("type", self.field_type.as_str());
        obj.member_str("name", self.name.as_str());
        if let Some(b) = self.facet {
            obj.member_bool("facet", b);
        }
        if let Some(b) = self.index {
            obj.member_bool("index", b);
        }
        if let Some(b) = self.sort {
            obj.member_bool("sort", b);
        }
        if let Some(b) = self.optional {
            obj.member_bool("optional", b);
        }
        if let Some(b) = self.drop {
            obj.member_bool("drop", b);
        }
        proof {
            assert(obj.pairs() =~= spec_field_pairs(*self));
        }
        obj.finish()
    }
}

/// A collection's schema: its name and ordered field list, plus
/// collection-wide settings.
#[derive(Debug, Clone)]
pub struct CollectionSchema {
    pub name: String,
    pub fields: Vec<Field>,
    pub default_sorting_field: Option<String>,
    pub enable_nested_fields: bool,
    pub symbols_to_index: Option<Vec<String>>,
}

/// The members of a schema's JSON object, in declaration order; optional
/// settings that are absent are left out.
pub open spec fn spec_schema_pairs(s: CollectionSchema) -> Seq<(Seq<char>, Seq<char>)> {
    let p = seq![
        ("name"@, spec_json_string(s.name@)),
        ("fields"@, spec_json_array(s.fields@.map(|i: int, f: Field| spec_field_json(f)))),
    ];
    let p = match s.default_sorting_field {
        Some(d) => p.push(("default_sorting_field"@, spec_json_string(d@))),
        None => p,
    };
    let p = p.push(("enable_nested_fields"@, spec_json_bool(s.enable_nested_fields)));
    match s.symbols_to_index {
        Some(sym) => p.push((
            "symbols_to_index"@,
            spec_json_array(sym@.map(|i: int, x: String| spec_json_string(x@))),
        )),
        None => p,
    }
}

/// A schema's JSON wire form.
pub open spec fn spec_schema_json(s: CollectionSchema) -> Seq<char> {
    spec_json_object(spec_schema_pairs(s))
}

impl CollectionSchema {
    /// An empty schema under the given collection name.
    pub fn new(name: String) -> (r: Self)
        ensures
            r.name == name,
            r.fields@ == Seq::<Field>::empty(),
            r.default_sorting_field is None,
            !r.enable_nested_fields,
            r.symbols_to_index is None,
    {
        Self {
            name,
            fields: Vec::new(),
            default_sorting_field: None,
            enable_nested_fields: false,
            symbols_to_index: None,
        }
    }

    pub fn with_name(self, name: String) -> (r: Self)
        ensures
            r == (CollectionSchema { name, ..self }),
    {
        Self { name, ..self }
    }

    /// Appends one field.
    pub fn field(self, field: Field) -> (r: Self)
        ensures
            r.fields@ == self.fields@.push(field),
            r.name == self.name,
            r.default_sorting_field == self.default_sorting_field,
            r.enable_nested_fields == self.enable_nested_fields,
            r.symbols_to_index == self.symbols_to_index,
    {
        let mut fields = self.fields;
        fields.push(field);
        Self { fields, ..self }
    }

    /// Splices another schema's fields onto the end of this one's; the other
    /// schema's default sorting field is taken only when none is set here.
    pub fn extend(self, other: Self) -> (r: Self)
        ensures
            r.fields@ == self.fields@ + other.fields@,
            r.name == self.name,
            r.default_sorting_field == (if self.default_sorting_field is Some {
                self.default_sorting_field
            } else {
                other.default_sorting_field
            }),
            r.enable_nested_fields == self.enable_nested_fields,
            r.symbols_to_index == self.symbols_to_index,
    {
        let CollectionSchema { fields, default_sorting_field, .. } = other;

        let mut ret = self;
        if ret.default_sorting_field.is_none() {
            ret.default_sorting_field = default_sorting_field;
        }

        let mut other_fields = fields;
        ret.fields.append(&mut other_fields);

        ret
    }

    pub fn default_sorting_field(self, default_sorting_field: String) -> (r: Self)
        ensures
            r == (CollectionSchema {
                default_sorting_field: Some(default_sorting_field),
                ..self
            }),
    {
        Self { default_sorting_field: Some(default_sorting_field), ..self }
    }

    pub fn enable_nested_fields(self) -> (r: Self)
        ensures
            r == (CollectionSchema { enable_nested_fields: true, ..self }),
    {
        Self { enable_nested_fields: true, ..self }
    }

    pub fn symbols_to_index(self, symbols_to_index: Vec<String>) -> (r: Self)
        ensures
            r == (CollectionSchema { symbols_to_index: Some(symbols_to_index), ..self }),
    {
        Self { symbols_to_index: Some(symbols_to_index), ..self }
    }

    /// Renders the schema exactly as the engine's collection-create endpoint
    /// expects it.
    pub fn to_json(&self) -> (r: String)
        ensures
            r@ == spec_schema_json(*self),
    {
        let ghost field_jsons = self.fields@.map(|i: int, f: Field| spec_field_json(f));
        let mut rendered: Vec<String> = Vec::new();
        let mut i: usize = 0;
        while i < self.fields.len()
            invariant
                i <= self.fields@.len(),
                field_jsons == self.fields@.map(|k: int, f: Field| spec_field_json(f)),
                rendered@.len() == i,
                forall|j: int| 0 <= j < i as int ==> #[trigger] rendered@[j]@ == field_jsons[j],
            decreases self.fields@.len() - i,
        {
            let f_json = self.fields[i].to_json();
            rendered.push(f_json);
            i = i + 1;
        }
        proof {
            assert(rendered.deep_view() =~~= field_jsons);
        }
        let fields_json = json_array(&rendered);

        let mut obj = JsonObject::new();
        obj.member_str("name", self.name.as_str());
        obj.member_raw("fields", fields_json.as_str());
        if let Some(d) = &self.default_sorting_field {
            obj.member_str("default_sorting_field", d.as_str());
        }
        obj.member_bool("enable_nested_fields", self.enable_nested_fields);
        if let Some(sym) = &self.symbols_to_index {
            let ghost sym_jsons = sym@.map(|k: int, x: String| spec_json_string(x@));
            let mut sym_rendered: Vec<String> = Vec::new();
            let mut j: usize = 0;
            while j < sym.len()
                invariant
                    j <= sym@.len(),
                    sym_jsons == sym@.map(|k: int, x: String| spec_json_string(x@)),
                    sym_rendered@.len() == j,
                    forall|k: int| 0 <= k < j as int ==> #[trigger] sym_rendered@[k]@ == sym_jsons[k],
                decreases sym@.len() - j,
            {
                let quoted = crate::json::json_quote(sym[j].as_str());
                sym_rendered.push(quoted);
                j = j + 1;
            }
            proof {
                assert(sym_rendered.deep_view() =~~= sym_jsons);
            }
            let sym_json = json_array(&sym_rendered);
            obj.member_raw("symbols_to_index", sym_json.as_str());
        }
        proof {
            assert(obj.pairs() =~= spec_schema_pairs(*self));
        }
        obj.finish()
    }
}

} // verus!
