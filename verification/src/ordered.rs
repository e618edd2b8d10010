//! One recorded query contribution: a rendered clause together with the
//! global insertion order it was issued at.
//!
//! Comparison and equality go by `order` alone, never by the clause text:
//! clauses from different fields must combine in the sequence the caller
//! issued them, because the engine's filter syntax is positionally sensitive.

use vstd::prelude::*;

verus! {

/// A renderable query clause with its global insertion order.
#[derive(Debug, Clone)]
pub struct OrderedState {
    pub order: u16,
    pub field: Option<String>,
    pub inner: Option<String>,
}

impl OrderedState {
    /// The text this clause contributes to the combined query string:
    /// the field name, if any, followed by the rendered payload, if any.
    pub open spec fn spec_render(self) -> Seq<char> {
        let field_part = match self.field {
            Some(f) => f@,
            None => Seq::<char>::empty(),
        };
        let inner_part = match self.inner {
            Some(i) => i@,
            None => Seq::<char>::empty(),
        };
        field_part + inner_part
    }

    pub fn new(order: u16) -> (r: Self)
        ensures
            r.order == order,
            r.field is None,
            r.inner is None,
    {
        Self { order, field: None, inner: None }
    }

    /// Attaches the rendered payload.
    pub fn with(self, inner: String) -> (r: Self)
        ensures
            r.order == self.order,
            r.field == self.field,
            r.inner == Some(inner),
    {
        Self { inner: Some(inner), ..self }
    }

    /// Attaches the field name the clause belongs to.
    pub fn with_field(self, field: &str) -> (r: Self)
        ensures
            r.order == self.order,
            r.field matches Some(f) && f@ == field@,
            r.inner == self.inner,
    {
        Self { field: Some(field.to_owned()), ..self }
    }

    /// Renders the clause: field name, then payload.
    pub fn render(&self) -> (r: String)
        ensures
            r@ == self.spec_render(),
    {
        let mut ret = String::new();

        if let Some(field) = &self.field {
            ret.append(field.as_str());
        }

        if let Some(inner) = &self.inner {
            ret.append(inner.as_str());
        }

        ret
    }
}

impl PartialEq for OrderedState {
    /// Equality is defined solely on `order`.
    fn eq(&self, other: &Self) -> (r: bool) {
        self.order == other.order
    }
}

impl Eq for OrderedState {}

impl vstd::std_specs::cmp::PartialEqSpecImpl for OrderedState {
    open spec fn obeys_eq_spec() -> bool {
        true
    }

    open spec fn eq_spec(&self, other: &Self) -> bool {
        self.order == other.order
    }
}

impl PartialOrd for OrderedState {
    /// Comparison is defined solely on `order`.
    fn partial_cmp(&self, other: &Self) -> (r: Option<core::cmp::Ordering>) {
        if self.order < other.order {
            Some(core::cmp::Ordering::Less)
        } else if self.order == other.order {
            Some(core::cmp::Ordering::Equal)
        } else {
            Some(core::cmp::Ordering::Greater)
        }
    }
}

impl vstd::std_specs::cmp::PartialOrdSpecImpl for OrderedState {
    open spec fn obeys_partial_cmp_spec() -> bool {
        true
    }

    open spec fn partial_cmp_spec(&self, other: &Self) -> Option<core::cmp::Ordering> {
        if self.order < other.order {
            Some(core::cmp::Ordering::Less)
        } else if self.order == other.order {
            Some(core::cmp::Ordering::Equal)
        } else {
            Some(core::cmp::Ordering::Greater)
        }
    }
}

} // verus!
