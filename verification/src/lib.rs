//! Typed client-side building blocks for a document-search engine's REST API:
//! presence-tracked partial documents, deterministic query building, and
//! schema derivation for annotated document types.

pub mod derive;
pub mod field_state;
pub mod json;
pub mod keys;
pub mod ordered;
pub mod partial;
pub mod query;
pub mod response;
pub mod schema;

pub use field_state::FieldState;
pub use ordered::OrderedState;
pub use partial::Partial;
pub use query::SearchQuery;
pub use response::Error;

use vstd::prelude::*;

verus! {

/// A document type with a derivable collection schema. Each document type
/// implements it — by hand or through generated code — so that nested and
/// flattened document types compose structurally to any depth.
pub trait Typesense {
    /// The collection name the type is stored under by default.
    fn schema_name() -> String;

    /// The collection schema, under the given collection name.
    fn schema(collection_name: &str) -> schema::CollectionSchema;
}

/// A Rust type that maps to one of the engine's wire field types.
pub trait TypesenseField {
    /// The wire type, for use in contracts.
    spec fn spec_field_type() -> schema::FieldType;

    /// The wire type of this Rust type.
    fn field_type() -> (r: schema::FieldType)
        ensures
            r == Self::spec_field_type(),
    ;
}

impl TypesenseField for u8 {
    open spec fn spec_field_type() -> schema::FieldType {
        schema::FieldType::Int32
    }

    fn field_type() -> schema::FieldType {
        schema::FieldType::Int32
    }
}

impl TypesenseField for u16 {
    open spec fn spec_field_type() -> schema::FieldType {
        schema::FieldType::Int32
    }

    fn field_type() -> schema::FieldType {
        schema::FieldType::Int32
    }
}

impl TypesenseField for u32 {
    open spec fn spec_field_type() -> schema::FieldType {
        schema::FieldType::Int32
    }

    fn field_type() -> schema::FieldType {
        schema::FieldType::Int32
    }
}

impl TypesenseField for i8 {
    open spec fn spec_field_type() -> schema::FieldType {
        schema::FieldType::Int32
    }

    fn field_type() -> schema::FieldType {
        schema::FieldType::Int32
    }
}

impl TypesenseField for i16 {
    open spec fn spec_field_type() -> schema::FieldType {
        schema::FieldType::Int32
    }

    fn field_type() -> schema::FieldType {
        schema::FieldType::Int32
    }
}

impl TypesenseField for i32 {
    open spec fn spec_field_type() -> schema::FieldType {
        schema::FieldType::Int32
    }

    fn field_type() -> schema::FieldType {
        schema::FieldType::Int32
    }
}

impl TypesenseField for u64 {
    open spec fn spec_field_type() -> schema::FieldType {
        schema::FieldType::Int64
    }

    fn field_type() -> schema::FieldType {
        schema::FieldType::Int64
    }
}

impl TypesenseField for i64 {
    open spec fn spec_field_type() -> schema::FieldType {
        schema::FieldType::Int64
    }

    fn field_type() -> schema::FieldType {
        schema::FieldType::Int64
    }
}

impl TypesenseField for usize {
    open spec fn spec_field_type() -> schema::FieldType {
        schema::FieldType::Int64
    }

    fn field_type() -> schema::FieldType {
        schema::FieldType::Int64
    }
}

impl TypesenseField for isize {
    open spec fn spec_field_type() -> schema::FieldType {
        schema::FieldType::Int64
    }

    fn field_type() -> schema::FieldType {
        schema::FieldType::Int64
    }
}

impl TypesenseField for bool {
    open spec fn spec_field_type() -> schema::FieldType {
        schema::FieldType::Bool
    }

    fn field_type() -> schema::FieldType {
        schema::FieldType::Bool
    }
}

impl TypesenseField for String {
    open spec fn spec_field_type() -> schema::FieldType {
        schema::FieldType::String
    }

    fn field_type() -> schema::FieldType {
        schema::FieldType::String
    }
}

impl TypesenseField for Vec<u8> {
    open spec fn spec_field_type() -> schema::FieldType {
        schema::FieldType::Int32Array
    }

    fn field_type() -> schema::FieldType {
        schema::FieldType::Int32Array
    }
}

impl TypesenseField for Vec<u16> {
    open spec fn spec_field_type() -> schema::FieldType {
        schema::FieldType::Int32Array
    }

    fn field_type() -> schema::FieldType {
        schema::FieldType::Int32Array
    }
}

impl TypesenseField for Vec<u32> {
    open spec fn spec_field_type() -> schema::FieldType {
        schema::FieldType::Int32Array
    }

    fn field_type() -> schema::FieldType {
        schema::FieldType::Int32Array
    }
}

impl TypesenseField for Vec<i8> {
    open spec fn spec_field_type() -> schema::FieldType {
        schema::FieldType::Int32Array
    }

    fn field_type() -> schema::FieldType {
        schema::FieldType::Int32Array
    }
}

impl TypesenseField for Vec<i16> {
    open spec fn spec_field_type() -> schema::FieldType {
        schema::FieldType::Int32Array
    }

    fn field_type() -> schema::FieldType {
        schema::FieldType::Int32Array
    }
}

impl TypesenseField for Vec<i32> {
    open spec fn spec_field_type() -> schema::FieldType {
        schema::FieldType::Int32Array
    }

    fn field_type() -> schema::FieldType {
        schema::FieldType::Int32Array
    }
}

impl TypesenseField for Vec<u64> {
    open spec fn spec_field_type() -> schema::FieldType {
        schema::FieldType::Int64Array
    }

    fn field_type() -> schema::FieldType {
        schema::FieldType::Int64Array
    }
}

impl TypesenseField for Vec<i64> {
    open spec fn spec_field_type() -> schema::FieldType {
        schema::FieldType::Int64Array
    }

    fn field_type() -> schema::FieldType {
        schema::FieldType::Int64Array
    }
}

impl TypesenseField for Vec<usize> {
    open spec fn spec_field_type() -> schema::FieldType {
        schema::FieldType::Int64Array
    }

    fn field_type() -> schema::FieldType {
        schema::FieldType::Int64Array
    }
}

impl TypesenseField for Vec<isize> {
    open spec fn spec_field_type() -> schema::FieldType {
        schema::FieldType::Int64Array
    }

    fn field_type() -> schema::FieldType {
        schema::FieldType::Int64Array
    }
}

impl TypesenseField for Vec<bool> {
    open spec fn spec_field_type() -> schema::FieldType {
        schema::FieldType::BoolArray
    }

    fn field_type() -> schema::FieldType {
        schema::FieldType::BoolArray
    }
}

impl TypesenseField for Vec<String> {
    open spec fn spec_field_type() -> schema::FieldType {
        schema::FieldType::StringArray
    }

    fn field_type() -> schema::FieldType {
        schema::FieldType::StringArray
    }
}

/// An optional field has the wire type of its inner value; only its
/// schema entry is marked optional.
impl<T: TypesenseField> TypesenseField for Option<T> {
    open spec fn spec_field_type() -> schema::FieldType {
        T::spec_field_type()
    }

    fn field_type() -> schema::FieldType {
        T::field_type()
    }
}

} // verus!
