//! Schema derivation for annotated document types.
//!
//! A document type is described field by field — identifier, wire-type,
//! attribute flags, and for flattened fields the sub-type's own schema — and
//! the collection schema is derived from that description: wire names are
//! renamed or case-converted, optionality is decided, flattened sub-schemas
//! are spliced in with their parent's overrides applied to every field.

use vstd::prelude::*;

use crate::schema::{CollectionSchema, Field, FieldType};

verus! {

/// Compares two strings character by character.
pub fn str_eq(a: &str, b: &str) -> (r: bool)
    ensures
        r == (a@ == b@),
{
    let a_len = a.unicode_len();
    let b_len = b.unicode_len();
    if a_len != b_len {
        proof {
            assert(a@.len() != b@.len());
        }
        return false;
    }
    let mut i: usize = 0;
    while i < a_len
        invariant
            i <= a_len,
            a_len == a@.len(),
            a_len == b@.len(),
            forall|k: int| 0 <= k < i as int ==> a@[k] == b@[k],
        decreases a_len - i,
    {
        if a.get_char(i) != b.get_char(i) {
            return false;
        }
        i = i + 1;
    }
    proof {
        assert(a@ =~= b@);
    }
    true
}

/// The lower-case form of an ASCII letter; any other character is unchanged.
pub open spec fn spec_lower_char(c: char) -> char {
    if c == 'A' {
        'a'
    } else if c == 'B' {
        'b'
    } else if c == 'C' {
        'c'
    } else if c == 'D' {
        'd'
    } else if c == 'E' {
        'e'
    } else if c == 'F' {
        'f'
    } else if c == 'G' {
        'g'
    } else if c == 'H' {
        'h'
    } else if c == 'I' {
        'i'
    } else if c == 'J' {
        'j'
    } else if c == 'K' {
        'k'
    } else if c == 'L' {
        'l'
    } else if c == 'M' {
        'm'
    } else if c == 'N' {
        'n'
    } else if c == 'O' {
        'o'
    } else if c == 'P' {
        'p'
    } else if c == 'Q' {
        'q'
    } else if c == 'R' {
        'r'
    } else if c == 'S' {
        's'
    } else if c == 'T' {
        't'
    } else if c == 'U' {
        'u'
    } else if c == 'V' {
        'v'
    } else if c == 'W' {
        'w'
    } else if c == 'X' {
        'x'
    } else if c == 'Y' {
        'y'
    } else if c == 'Z' {
        'z'
    } else {
        c
    }
}

/// The upper-case form of an ASCII letter; any other character is unchanged.
pub open spec fn spec_upper_char(c: char) -> char {
    if c == 'a' {
        'A'
    } else if c == 'b' {
        'B'
    } else if c == 'c' {
        'C'
    } else if c == 'd' {
        'D'
    } else if c == 'e' {
        'E'
    } else if c == 'f' {
        'F'
    } else if c == 'g' {
        'G'
    } else if c == 'h' {
        'H'
    } else if c == 'i' {
        'I'
    } else if c == 'j' {
        'J'
    } else if c == 'k' {
        'K'
    } else if c == 'l' {
        'L'
    } else if c == 'm' {
        'M'
    } else if c == 'n' {
        'N'
    } else if c == 'o' {
        'O'
    } else if c == 'p' {
        'P'
    } else if c == 'q' {
        'Q'
    } else if c == 'r' {
        'R'
    } else if c == 's' {
        'S'
    } else if c == 't' {
        'T'
    } else if c == 'u' {
        'U'
    } else if c == 'v' {
        'V'
    } else if c == 'w' {
        'W'
    } else if c == 'x' {
        'X'
    } else if c == 'y' {
        'Y'
    } else if c == 'z' {
        'Z'
    } else {
        c
    }
}

fn lower_char(c: char) -> (r: char)
    ensures
        r == spec_lower_char(c),
{
    let code = c as u32;
    if 65 <= code && code <= 90 {
        proof {
            assert('A' <= c && c <= 'Z');
        }
        match c {
            'A' => 'a',
            'B' => 'b',
            'C' => 'c',
            'D' => 'd',
            'E' => 'e',
            'F' => 'f',
            'G' => 'g',
            'H' => 'h',
            'I' => 'i',
            'J' => 'j',
            'K' => 'k',
            'L' => 'l',
            'M' => 'm',
            'N' => 'n',
            'O' => 'o',
            'P' => 'p',
            'Q' => 'q',
            'R' => 'r',
            'S' => 's',
            'T' => 't',
            'U' => 'u',
            'V' => 'v',
            'W' => 'w',
            'X' => 'x',
            'Y' => 'y',
            _ => 'z',
        }
    } else {
        c
    }
}

fn upper_char(c: char) -> (r: char)
    ensures
        r == spec_upper_char(c),
{
    let code = c as u32;
    if 97 <= code && code <= 122 {
        proof {
            assert('a' <= c && c <= 'z');
        }
        match c {
            'a' => 'A',
            'b' => 'B',
            'c' => 'C',
            'd' => 'D',
            'e' => 'E',
            'f' => 'F',
            'g' => 'G',
            'h' => 'H',
            'i' => 'I',
            'j' => 'J',
            'k' => 'K',
            'l' => 'L',
            'm' => 'M',
            'n' => 'N',
            'o' => 'O',
            'p' => 'P',
            'q' => 'Q',
            'r' => 'R',
            's' => 'S',
            't' => 'T',
            'u' => 'U',
            'v' => 'V',
            'w' => 'W',
            'x' => 'X',
            'y' => 'Y',
            _ => 'Z',
        }
    } else {
        c
    }
}

/// A whole string lower-cased, character by character.
pub open spec fn spec_lower(s: Seq<char>) -> Seq<char> {
    s.map(|i: int, c: char| spec_lower_char(c))
}

/// A whole string upper-cased, character by character.
pub open spec fn spec_upper(s: Seq<char>) -> Seq<char> {
    s.map(|i: int, c: char| spec_upper_char(c))
}

/// The camel-case conversion of a snake-case identifier: underscores are
/// dropped and the letter after each one is capitalized. `up` records
/// whether the next character follows an underscore.
pub open spec fn spec_camel_rest(s: Seq<char>, up: bool) -> Seq<char>
    decreases s.len(),
{
    if s.len() == 0 {
        Seq::<char>::empty()
    } else if s[0] == '_' {
        spec_camel_rest(s.drop_first(), true)
    } else {
        seq![
            if up {
                spec_upper_char(s[0])
            } else {
                s[0]
            },
        ] + spec_camel_rest(s.drop_first(), false)
    }
}

/// Camel case over a whole identifier: the first segment keeps its case.
pub open spec fn spec_camel(s: Seq<char>) -> Seq<char> {
    spec_camel_rest(s, false)
}

/// How field identifiers are turned into wire names when no explicit rename
/// is given.
#[derive(Debug, Clone, Copy, PartialEq, Eq, Structural)]
pub enum RenameRule {
    /// The identifier is the wire name.
    Identity,
    /// `lowercase`.
    Lower,
    /// `UPPERCASE`.
    Upper,
    /// `camelCase` over a snake-case identifier.
    Camel,
}

impl RenameRule {
    /// The wire name this rule derives from an identifier.
    pub open spec fn spec_apply(self, s: Seq<char>) -> Seq<char> {
        match self {
            RenameRule::Identity => s,
            RenameRule::Lower => spec_lower(s),
            RenameRule::Upper => spec_upper(s),
            RenameRule::Camel => spec_camel(s),
        }
    }

    /// Applies the rule to a field identifier.
    pub fn apply_to_field(&self, name: &str) -> (r: String)
        ensures
            r@ == self.spec_apply(name@),
    {
        match self {
            RenameRule::Identity => name.to_owned(),
            RenameRule::Lower => {
                let len = name.unicode_len();
                let mut buf = String::new();
                let mut i: usize = 0;
                while i < len
                    invariant
                        i <= len,
                        len == name@.len(),
                        buf@ == spec_lower(name@.subrange(0, i as int)),
                    decreases len - i,
                {
                    crate::json::push_char(&mut buf, lower_char(name.get_char(i)));
                    proof {
                        assert(buf@ =~= spec_lower(name@.subrange(0, i as int + 1)));
                    }
                    i = i + 1;
                }
                proof {
                    assert(name@.subrange(0, len as int) =~= name@);
                }
                buf
            },
            RenameRule::Upper => {
                let len = name.unicode_len();
                let mut buf = String::new();
                let mut i: usize = 0;
                while i < len
                    invariant
                        i <= len,
                        len == name@.len(),
                        buf@ == spec_upper(name@.subrange(0, i as int)),
                    decreases len - i,
                {
                    crate::json::push_char(&mut buf, upper_char(name.get_char(i)));
                    proof {
                        assert(buf@ =~= spec_upper(name@.subrange(0, i as int + 1)));
                    }
                    i = i + 1;
                }
                proof {
                    assert(name@.subrange(0, len as int) =~= name@);
                }
                buf
            },
            RenameRule::Camel => {
                let len = name.unicode_len();
                let mut buf = String::new();
                let mut up = false;
                let mut i: usize = 0;
                proof {
                    assert(name@.subrange(0, len as int) =~= name@);
                    assert(buf@ + spec_camel_rest(name@, false) =~= spec_camel_rest(name@, false));
                }
                while i < len
                    invariant
                        i <= len,
                        len == name@.len(),
                        spec_camel(name@) == buf@ + spec_camel_rest(
                            name@.subrange(i as int, len as int),
                            up,
                        ),
                    decreases len - i,
                {
                    proof {
                        assert(name@.subrange(i as int, len as int)[0] == name@[i as int]);
                        assert(name@.subrange(i as int, len as int).drop_first() =~= name@.subrange(
                            i as int + 1,
                            len as int,
                        ));
                    }
                    let c = name.get_char(i);
                    if c == '_' {
                        up = true;
                    } else {
                        if up {
                            crate::json::push_char(&mut buf, upper_char(c));
                        } else {
                            crate::json::push_char(&mut buf, c);
                        }
                        up = false;
                    }
                    i = i + 1;
                }
                proof {
                    assert(name@.subrange(len as int, len as int) =~= Seq::<char>::empty());
                    assert(buf@ + Seq::<char>::empty() =~= buf@);
                }
                buf
            },
        }
    }
}

/// The ghost image of a schema field: its wire name as a character sequence.
#[verifier::ext_equal]
pub struct FieldView {
    pub field_type: FieldType,
    pub name: Seq<char>,
    pub facet: Option<bool>,
    pub index: Option<bool>,
    pub sort: Option<bool>,
    pub optional: Option<bool>,
    pub drop: Option<bool>,
}

impl View for Field {
    type V = FieldView;

    open spec fn view(&self) -> FieldView {
        FieldView {
            field_type: self.field_type,
            name: self.name@,
            facet: self.facet,
            index: self.index,
            sort: self.sort,
            optional: self.optional,
            drop: self.drop,
        }
    }
}

/// The view of an optional string.
pub open spec fn opt_view(o: Option<String>) -> Option<Seq<char>> {
    match o {
        Some(s) => Some(s@),
        None => None,
    }
}

/// One field of a document type, as the derivation sees it: the Rust
/// identifier, the attribute flags, the shape of the Rust type, and — for a
/// flattened field — the field type's own schema.
#[derive(Debug)]
pub struct FieldDef {
    /// The struct field's identifier.
    pub ident: String,
    /// An explicit wire name, taking precedence over case conversion.
    pub rename: Option<String>,
    pub facet: Option<bool>,
    pub index: Option<bool>,
    pub sort: Option<bool>,
    pub optional: Option<bool>,
    /// A wire type given explicitly in the field's attributes.
    pub custom_type: Option<FieldType>,
    /// Marks this field's wire name as the collection's default sort field.
    pub default_sorting_field: bool,
    /// The field's type contributes its whole sub-schema in place.
    pub flatten: bool,
    /// The field takes no part in the derivation.
    pub skip: bool,
    /// The Rust type is `Option<_>`.
    pub is_option: bool,
    /// The Rust type is `Vec<_>`.
    pub is_vec: bool,
    /// The wire type of the Rust type.
    pub field_type: FieldType,
    /// The sub-schema of a flattened field's type.
    pub sub_schema: Option<CollectionSchema>,
}

/// The ghost image of a `FieldDef`.
#[verifier::ext_equal]
pub struct FieldDefView {
    pub ident: Seq<char>,
    pub rename: Option<Seq<char>>,
    pub facet: Option<bool>,
    pub index: Option<bool>,
    pub sort: Option<bool>,
    pub optional: Option<bool>,
    pub custom_type: Option<FieldType>,
    pub default_sorting_field: bool,
    pub flatten: bool,
    pub skip: bool,
    pub is_option: bool,
    pub is_vec: bool,
    pub field_type: FieldType,
    pub sub_fields: Seq<FieldView>,
    pub sub_default_sorting_field: Option<Seq<char>>,
}

impl View for FieldDef {
    type V = FieldDefView;

    open spec fn view(&self) -> FieldDefView {
        FieldDefView {
            ident: self.ident@,
            rename: opt_view(self.rename),
            facet: self.facet,
            index: self.index,
            sort: self.sort,
            optional: self.optional,
            custom_type: self.custom_type,
            default_sorting_field: self.default_sorting_field,
            flatten: self.flatten,
            skip: self.skip,
            is_option: self.is_option,
            is_vec: self.is_vec,
            field_type: self.field_type,
            sub_fields: match self.sub_schema {
                Some(s) => s.fields@.map(|i: int, f: Field| f@),
                None => Seq::<FieldView>::empty(),
            },
            sub_default_sorting_field: match self.sub_schema {
                Some(s) => opt_view(s.default_sorting_field),
                None => None,
            },
        }
    }
}

/// An extra schema field given directly in the type's attributes rather
/// than derived from a struct field.
#[derive(Debug)]
pub struct ExtraField {
    pub name: String,
    pub field_type: FieldType,
    pub facet: Option<bool>,
    pub index: Option<bool>,
    pub sort: Option<bool>,
    pub optional: Option<bool>,
    pub default_sorting_field: Option<bool>,
}

/// The ghost image of an `ExtraField`.
#[verifier::ext_equal]
pub struct ExtraFieldView {
    pub name: Seq<char>,
    pub field_type: FieldType,
    pub facet: Option<bool>,
    pub index: Option<bool>,
    pub sort: Option<bool>,
    pub optional: Option<bool>,
    pub default_sorting_field: Option<bool>,
}

impl View for ExtraField {
    type V = ExtraFieldView;

    open spec fn view(&self) -> ExtraFieldView {
        ExtraFieldView {
            name: self.name@,
            field_type: self.field_type,
            facet: self.facet,
            index: self.index,
            sort: self.sort,
            optional: self.optional,
            default_sorting_field: self.default_sorting_field,
        }
    }
}

/// The field's attributes name the nested-document wire type.
pub open spec fn spec_is_object(d: FieldDefView) -> bool {
    d.custom_type == Some(FieldType::Object)
}

/// The field's attributes name the nested-document-array wire type.
pub open spec fn spec_is_object_array(d: FieldDefView) -> bool {
    d.custom_type == Some(FieldType::ObjectArray)
}

/// The field maps to the engine's implicit `id` and gets no schema entry.
pub open spec fn spec_is_id(d: FieldDefView) -> bool {
    d.ident == "id"@ || d.rename == Some("id"@)
}

/// A field description is well formed when a nested-document-array type
/// stands on a sequence-shaped Rust type.
pub open spec fn spec_def_wf(d: FieldDefView) -> bool {
    spec_is_object_array(d) ==> d.is_vec
}

/// The wire name: the explicit rename, or the case-converted identifier.
pub open spec fn spec_wire_name(d: FieldDefView, rule: RenameRule) -> Seq<char> {
    match d.rename {
        Some(n) => n,
        None => rule.spec_apply(d.ident),
    }
}

/// The schema entry of a plain (neither flattened nor skipped) field.
/// It is optional when its attributes say so, when its Rust type is an
/// `Option`, or when indexing was switched off for it.
pub open spec fn spec_plain_entry(d: FieldDefView, rule: RenameRule) -> FieldView {
    FieldView {
        field_type: match d.custom_type {
            Some(t) => t,
            None => d.field_type,
        },
        name: spec_wire_name(d, rule),
        facet: d.facet,
        index: d.index,
        sort: d.sort,
        optional: if (match d.optional {
            Some(b) => b,
            None => false,
        }) || d.is_option || d.index == Some(false) {
            Some(true)
        } else {
            None
        },
        drop: None,
    }
}

/// A sub-schema field with a flatten field's overrides applied: facet,
/// index and sort replace the sub-field's flags when given, and a rename
/// replaces its name.
pub open spec fn spec_override_values(
    f: FieldView,
    facet: Option<bool>,
    index: Option<bool>,
    sort: Option<bool>,
    rename: Option<Seq<char>>,
) -> FieldView {
    FieldView {
        facet: if facet is Some {
            facet
        } else {
            f.facet
        },
        index: if index is Some {
            index
        } else {
            f.index
        },
        sort: if sort is Some {
            sort
        } else {
            f.sort
        },
        name: match rename {
            Some(n) => n,
            None => f.name,
        },
        ..f
    }
}

/// The overrides a flatten field applies to each sub-schema field.
pub open spec fn spec_override_field(f: FieldView, d: FieldDefView) -> FieldView {
    spec_override_values(f, d.facet, d.index, d.sort, d.rename)
}

/// What one field description contributes to the schema's field list.
pub open spec fn spec_def_fields(d: FieldDefView, rule: RenameRule) -> Seq<FieldView> {
    if d.skip {
        Seq::<FieldView>::empty()
    } else if d.flatten {
        d.sub_fields.map(|i: int, f: FieldView| spec_override_field(f, d))
    } else if spec_is_id(d) {
        Seq::<FieldView>::empty()
    } else {
        seq![spec_plain_entry(d, rule)]
    }
}

/// The derived field list: each description's contribution, in order.
pub open spec fn spec_derived_fields(defs: Seq<FieldDefView>, rule: RenameRule) -> Seq<FieldView>
    decreases defs.len(),
{
    if defs.len() == 0 {
        Seq::<FieldView>::empty()
    } else {
        spec_derived_fields(defs.drop_last(), rule) + spec_def_fields(defs.last(), rule)
    }
}

/// The schema entry of an extra field.
pub open spec fn spec_extra_entry(e: ExtraFieldView) -> FieldView {
    FieldView {
        field_type: e.field_type,
        name: e.name,
        facet: e.facet,
        index: e.index,
        sort: e.sort,
        optional: if (match e.optional {
            Some(b) => b,
            None => false,
        }) {
            Some(true)
        } else {
            None
        },
        drop: None,
    }
}

/// The entries of all extra fields, in order.
pub open spec fn spec_extra_fields(extras: Seq<ExtraFieldView>) -> Seq<FieldView> {
    extras.map(|i: int, e: ExtraFieldView| spec_extra_entry(e))
}

/// How one field description changes the collection's default sorting
/// field: a flattened sub-schema's choice is taken only when none is set
/// yet, while an explicit flag on a plain field always takes over.
pub open spec fn spec_default_after_def(
    acc: Option<Seq<char>>,
    d: FieldDefView,
    rule: RenameRule,
) -> Option<Seq<char>> {
    if d.skip {
        acc
    } else if d.flatten {
        if acc is Some {
            acc
        } else {
            d.sub_default_sorting_field
        }
    } else if spec_is_id(d) {
        acc
    } else if d.default_sorting_field {
        Some(spec_wire_name(d, rule))
    } else {
        acc
    }
}

/// The default sorting field after all field descriptions, processed in
/// order.
pub open spec fn spec_defs_default(defs: Seq<FieldDefView>, rule: RenameRule) -> Option<Seq<char>>
    decreases defs.len(),
{
    if defs.len() == 0 {
        None
    } else {
        spec_default_after_def(spec_defs_default(defs.drop_last(), rule), defs.last(), rule)
    }
}

/// The default sorting field after the extra fields have been processed.
pub open spec fn spec_extras_default(
    extras: Seq<ExtraFieldView>,
    acc: Option<Seq<char>>,
) -> Option<Seq<char>>
    decreases extras.len(),
{
    if extras.len() == 0 {
        acc
    } else {
        let prev = spec_extras_default(extras.drop_last(), acc);
        if extras.last().default_sorting_field == Some(true) {
            Some(extras.last().name)
        } else {
            prev
        }
    }
}

/// Nested-field support is switched on when any kept field holds a nested
/// document or an array of them.
pub open spec fn spec_any_nested(defs: Seq<FieldDefView>) -> bool {
    exists|i: int|
        0 <= i < defs.len() && !defs[i].skip && (spec_is_object(defs[i]) || spec_is_object_array(
            defs[i],
        ))
}

/// The symbols a collection indexes, as given in the type's attributes.
#[derive(Debug, Clone)]
pub struct SymbolsToIndex(pub Vec<String>);

/// The extra schema fields given in the type's attributes.
#[derive(Debug)]
pub struct TypesenseFields(pub Vec<ExtraField>);

/// An ill-formed field description, reported by field identifier.
#[derive(Debug, Clone)]
pub struct DeriveError {
    pub field: String,
}

pub fn is_object(d: &FieldDef) -> (r: bool)
    ensures
        r == spec_is_object(d@),
{
    matches!(d.custom_type, Some(FieldType::Object))
}

pub fn is_object_array(d: &FieldDef) -> (r: bool)
    ensures
        r == spec_is_object_array(d@),
{
    matches!(d.custom_type, Some(FieldType::ObjectArray))
}

pub fn field_is_id(d: &FieldDef) -> (r: bool)
    ensures
        r == spec_is_id(d@),
{
    if str_eq(d.ident.as_str(), "id") {
        true
    } else if let Some(n) = &d.rename {
        str_eq(n.as_str(), "id")
    } else {
        false
    }
}

pub fn fields_has_id(defs: &Vec<FieldDef>) -> (r: bool)
    ensures
        r == exists|i: int| 0 <= i < defs@.len() && spec_is_id(#[trigger] defs@[i]@),
{
    let mut i: usize = 0;
    while i < defs.len()
        invariant
            i <= defs@.len(),
            forall|k: int| 0 <= k < i as int ==> !spec_is_id(#[trigger] defs@[k]@),
        decreases defs@.len() - i,
    {
        if field_is_id(&defs[i]) {
            return true;
        }
        i = i + 1;
    }
    false
}

/// Checks every field description, reporting the first ill-formed one: a
/// nested-document-array type must stand on a sequence-shaped Rust type,
/// or the derivation refuses the whole description.
pub fn validate_defs(defs: &Vec<FieldDef>) -> (r: Result<(), DeriveError>)
    ensures
        r is Ok <==> (forall|i: int| 0 <= i < defs@.len() ==> spec_def_wf(#[trigger] defs@[i]@)),
        r matches Err(e) ==> exists|i: int|
            0 <= i < defs@.len() && !spec_def_wf(#[trigger] defs@[i]@) && e.field@ == defs@[i]@.ident
                && (forall|j: int| 0 <= j < i ==> spec_def_wf(#[trigger] defs@[j]@)),
{
    let mut i: usize = 0;
    while i < defs.len()
        invariant
            i <= defs@.len(),
            forall|k: int| 0 <= k < i as int ==> spec_def_wf(#[trigger] defs@[k]@),
        decreases defs@.len() - i,
    {
        if is_object_array(&defs[i]) && !defs[i].is_vec {
            let field = defs[i].ident.clone();
            return Err(DeriveError { field });
        }
        i = i + 1;
    }
    Ok(())
}

/// Applies a flatten field's overrides to every field of its sub-schema.
fn apply_overrides(
    fields: Vec<Field>,
    facet: Option<bool>,
    index: Option<bool>,
    sort: Option<bool>,
    rename: &Option<String>,
) -> (r: Vec<Field>)
    ensures
        r@.len() == fields@.len(),
        forall|k: int|
            0 <= k < fields@.len() ==> #[trigger] r@[k]@ == spec_override_values(
                fields@[k]@,
                facet,
                index,
                sort,
                opt_view(*rename),
            ),
{
    let ghost src = fields@;
    let mut fields = fields;
    let mut out: Vec<Field> = Vec::new();
    let ghost done: int = 0;
    while fields.len() > 0
        invariant
            0 <= done <= src.len(),
            fields@ == src.subrange(done, src.len() as int),
            out@.len() == done,
            forall|k: int|
                0 <= k < done ==> #[trigger] out@[k]@ == spec_override_values(
                    src[k]@,
                    facet,
                    index,
                    sort,
                    opt_view(*rename),
                ),
        decreases fields@.len(),
    {
        proof {
            assert(fields@[0] == src[done]);
            assert(fields@.remove(0) =~= src.subrange(done + 1, src.len() as int));
        }
        let mut f = fields.remove(0);
        if let Some(b) = facet {
            f.facet = Some(b);
        }
        if let Some(b) = index {
            f.index = Some(b);
        }
        if let Some(b) = sort {
            f.sort = Some(b);
        }
        if let Some(n) = rename {
            f.name = n.clone();
        }
        out.push(f);
        proof {
            done = done + 1;
        }
    }
    out
}

/// Derives the collection schema of a document type from its field
/// descriptions.
///
/// Every description contributes in declaration order: a flattened field
/// splices its sub-schema in with the overrides applied to each field, a
/// field mapping to the engine's implicit `id` contributes nothing, and any
/// other kept field contributes one entry. Extra fields given in the type's
/// attributes follow. Nested-field support switches itself on when any kept
/// field holds a nested document.
pub fn derive_schema(
    name: String,
    defs: Vec<FieldDef>,
    rule: RenameRule,
    enable_nested_fields: bool,
    extra_fields: Vec<ExtraField>,
    symbols_to_index: Option<Vec<String>>,
) -> (r: CollectionSchema)
    requires
        forall|i: int| 0 <= i < defs@.len() ==> spec_def_wf(#[trigger] defs@[i]@),
    ensures
        r.name == name,
        r.fields@.map(|i: int, f: Field| f@) == spec_derived_fields(
            defs@.map(|i: int, d: FieldDef| d@),
            rule,
        ) + spec_extra_fields(extra_fields@.map(|i: int, e: ExtraField| e@)),
        opt_view(r.default_sorting_field) == spec_extras_default(
            extra_fields@.map(|i: int, e: ExtraField| e@),
            spec_defs_default(defs@.map(|i: int, d: FieldDef| d@), rule),
        ),
        r.enable_nested_fields == (enable_nested_fields || spec_any_nested(
            defs@.map(|i: int, d: FieldDef| d@),
        )),
        r.symbols_to_index == symbols_to_index,
{
    let ghost dviews = defs@.map(|i: int, d: FieldDef| d@);
    let ghost eviews = extra_fields@.map(|i: int, e: ExtraField| e@);

    let mut defs = defs;
    let mut fields: Vec<Field> = Vec::new();
    let mut default_sorting_field: Option<String> = None;
    let mut nested = enable_nested_fields;

    let ghost done: int = 0;
    while defs.len() > 0
        invariant
            0 <= done <= dviews.len(),
            dviews.len() == defs@.len() + done,
            forall|k: int| 0 <= k < defs@.len() ==> #[trigger] defs@[k]@ == dviews[done + k],
            forall|k: int| 0 <= k < defs@.len() ==> spec_def_wf(#[trigger] defs@[k]@),
            fields@.len() == spec_derived_fields(dviews.subrange(0, done), rule).len(),
            forall|k: int|
                0 <= k < fields@.len() ==> #[trigger] fields@[k]@ == spec_derived_fields(
                    dviews.subrange(0, done),
                    rule,
                )[k],
            opt_view(default_sorting_field) == spec_defs_default(
                dviews.subrange(0, done),
                rule,
            ),
            nested == (enable_nested_fields || spec_any_nested(dviews.subrange(0, done))),
        decreases defs@.len(),
    {
        proof {
            assert(defs@[0]@ == dviews[done]);
            assert(defs@.remove(0) =~= defs@.subrange(1, defs@.len() as int));
            assert(dviews.subrange(0, done + 1).drop_last() =~= dviews.subrange(0, done));
            assert(dviews.subrange(0, done + 1).last() == dviews[done]);
        }
        let ghost prev_fields = spec_derived_fields(dviews.subrange(0, done), rule);
        let ghost cur = dviews[done];
        let d = defs.remove(0);

        if !d.skip && (is_object(&d) || is_object_array(&d)) {
            nested = true;
        }
        proof {
            assert(spec_any_nested(dviews.subrange(0, done + 1)) == (spec_any_nested(
                dviews.subrange(0, done),
            ) || (!cur.skip && (spec_is_object(cur) || spec_is_object_array(cur))))) by {
                let sub = dviews.subrange(0, done + 1);
                if spec_any_nested(sub) {
                    let i = choose|i: int|
                        0 <= i < sub.len() && !sub[i].skip && (spec_is_object(sub[i])
                            || spec_is_object_array(sub[i]));
                    if i < done {
                        assert(dviews.subrange(0, done)[i] == sub[i]);
                        assert(spec_any_nested(dviews.subrange(0, done)));
                    }
                }
                if spec_any_nested(dviews.subrange(0, done)) {
                    let i = choose|i: int|
                        0 <= i < done && !dviews.subrange(0, done)[i].skip && (spec_is_object(
                            dviews.subrange(0, done)[i],
                        ) || spec_is_object_array(dviews.subrange(0, done)[i]));
                    assert(sub[i] == dviews.subrange(0, done)[i]);
                }
                if !cur.skip && (spec_is_object(cur) || spec_is_object_array(cur)) {
                    assert(sub[done] == cur);
                }
            }
        }

        if d.skip {
            proof {
                assert(prev_fields + spec_def_fields(cur, rule) =~= prev_fields);
            }
        } else if d.flatten {
            let FieldDef { sub_schema, facet, index, sort, rename, .. } = d;
            if let Some(sub) = sub_schema {
                let CollectionSchema {
                    fields: sub_fields,
                    default_sorting_field: sub_default,
                    ..
                } = sub;
                if default_sorting_field.is_none() {
                    default_sorting_field = sub_default;
                }
                let mut overridden = apply_overrides(sub_fields, facet, index, sort, &rename);
                fields.append(&mut overridden);
                proof {
                    assert forall|k: int| 0 <= k < cur.sub_fields.len() implies #[trigger] spec_def_fields(
                        cur,
                        rule,
                    )[k] == spec_override_field(cur.sub_fields[k], cur) by {}
                }
            } else {
                proof {
                    assert(cur.sub_fields =~= Seq::<FieldView>::empty());
                    assert(spec_def_fields(cur, rule) =~= Seq::<FieldView>::empty());
                    assert(prev_fields + spec_def_fields(cur, rule) =~= prev_fields);
                }
            }
        } else if field_is_id(&d) {
            proof {
                assert(prev_fields + spec_def_fields(cur, rule) =~= prev_fields);
            }
        } else {
            let wire = match &d.rename {
                Some(n) => n.clone(),
                None => rule.apply_to_field(d.ident.as_str()),
            };
            let optional = (match d.optional {
                Some(b) => b,
                None => false,
            }) || d.is_option || matches!(d.index, Some(false));
            let entry = Field {
                field_type: match d.custom_type {
                    Some(t) => t,
                    None => d.field_type,
                },
                name: wire.clone(),
                facet: d.facet,
                index: d.index,
                sort: d.sort,
                optional: if optional {
                    Some(true)
                } else {
                    None
                },
                drop: None,
            };
            fields.push(entry);
            if d.default_sorting_field {
                default_sorting_field = Some(wire);
            }
        }
        proof {
            done = done + 1;
        }
    }
    proof {
        assert(dviews.subrange(0, dviews.len() as int) =~= dviews);
    }

    let mut extra_fields = extra_fields;
    let ghost base_default = spec_defs_default(dviews, rule);
    let ghost base_len = fields@.len() as int;
    let ghost edone: int = 0;
    while extra_fields.len() > 0
        invariant
            0 <= edone <= eviews.len(),
            eviews.len() == extra_fields@.len() + edone,
            forall|k: int|
                0 <= k < extra_fields@.len() ==> #[trigger] extra_fields@[k]@ == eviews[edone + k],
            fields@.len() == base_len + edone,
            forall|k: int|
                0 <= k < base_len ==> #[trigger] fields@[k]@ == (spec_derived_fields(dviews, rule))[k],
            base_len == spec_derived_fields(dviews, rule).len(),
            forall|k: int|
                0 <= k < edone ==> #[trigger] fields@[base_len + k]@ == spec_extra_entry(eviews[k]),
            opt_view(default_sorting_field) == spec_extras_default(
                eviews.subrange(0, edone),
                base_default,
            ),
        decreases extra_fields@.len(),
    {
        proof {
            assert(extra_fields@[0]@ == eviews[edone]);
            assert(extra_fields@.remove(0) =~= extra_fields@.subrange(
                1,
                extra_fields@.len() as int,
            ));
            assert(eviews.subrange(0, edone + 1).drop_last() =~= eviews.subrange(0, edone));
            assert(eviews.subrange(0, edone + 1).last() == eviews[edone]);
        }
        let e = extra_fields.remove(0);
        let optional = match e.optional {
            Some(b) => b,
            None => false,
        };
        let is_default = matches!(e.default_sorting_field, Some(true));
        let entry = Field {
            field_type: e.field_type,
            name: e.name.clone(),
            facet: e.facet,
            index: e.index,
            sort: e.sort,
            optional: if optional {
                Some(true)
            } else {
                None
            },
            drop: None,
        };
        fields.push(entry);
        if is_default {
            default_sorting_field = Some(e.name);
        }
        proof {
            edone = edone + 1;
        }
    }
    proof {
        assert(eviews.subrange(0, eviews.len() as int) =~= eviews);
    }

    let r = CollectionSchema {
        name,
        fields,
        default_sorting_field,
        enable_nested_fields: nested,
        symbols_to_index,
    };
    proof {
        let lhs = r.fields@.map(|i: int, f: Field| f@);
        let rhs = spec_derived_fields(dviews, rule) + spec_extra_fields(eviews);
        assert(lhs.len() == rhs.len());
        assert forall|k: int| 0 <= k < lhs.len() implies lhs[k] == rhs[k] by {
            assert(lhs[k] == r.fields@[k]@);
            if k < base_len {
                assert(r.fields@[k]@ == spec_derived_fields(dviews, rule)[k]);
            } else {
                let j = k - base_len;
                assert(r.fields@[base_len + j]@ == spec_extra_entry(eviews[j]));
                assert(rhs[k] == spec_extra_fields(eviews)[j]);
            }
        }
        assert(lhs =~~= rhs);
    }
    r
}

/// Flattened sub-schema fields inherit their parent's overrides: whenever
/// the flatten field carries a facet, index or sort setting, every field it
/// contributes to the combined schema carries exactly that setting, and its
/// other properties come from the sub-schema unchanged.
pub proof fn lemma_flatten_fields_inherit_overrides(d: FieldDefView, rule: RenameRule)
    requires
        d.flatten,
        !d.skip,
    ensures
        spec_def_fields(d, rule).len() == d.sub_fields.len(),
        forall|i: int|
            0 <= i < d.sub_fields.len() ==> {
                let f = #[trigger] spec_def_fields(d, rule)[i];
                &&& (d.facet is Some ==> f.facet == d.facet)
                &&& (d.index is Some ==> f.index == d.index)
                &&& (d.sort is Some ==> f.sort == d.sort)
                &&& (d.facet is None ==> f.facet == d.sub_fields[i].facet)
                &&& f.field_type == d.sub_fields[i].field_type
                &&& f.optional == d.sub_fields[i].optional
            },
{
    assert forall|i: int| 0 <= i < d.sub_fields.len() implies #[trigger] spec_def_fields(d, rule)[i]
        == spec_override_field(d.sub_fields[i], d) by {}
}

} // verus!
