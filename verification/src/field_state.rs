//! A presence-tracked optional value: either `Set(T)` or `NotSet`.
//!
//! Unlike `Option`, absence means "never touched", so a document update can
//! distinguish a field that was left alone from one that carries a value.

use vstd::prelude::*;

verus! {

/// Wraps a value that is either present (`Set`) or untouched (`NotSet`).
#[derive(Debug, Clone, Copy, PartialEq, Eq, Hash)]
pub enum FieldState<T> {
    Assigned(T),
    NotSet,
}

/// Builds a `Set` state around `t`.
pub fn set<T>(t: T) -> (r: FieldState<T>)
    ensures
        r == FieldState::Assigned(t),
{
    FieldState::Assigned(t)
}

/// Builds a `NotSet` state.
pub fn unset<T>() -> (r: FieldState<T>)
    ensures
        r == FieldState::<T>::NotSet,
{
    FieldState::NotSet
}

impl<T> Default for FieldState<T> {
    /// A field starts out untouched.
    fn default() -> (r: Self)
        ensures
            r == FieldState::<T>::NotSet,
    {
        FieldState::NotSet
    }
}

impl<T> FieldState<T> {
    pub fn new(value: T) -> (r: Self)
        ensures
            r == FieldState::Assigned(value),
    {
        FieldState::Assigned(value)
    }

    /// Alias of `unset()` matching the constructor pair `new`/`not_set`.
    pub fn not_set() -> (r: Self)
        ensures
            r == FieldState::<T>::NotSet,
    {
        FieldState::NotSet
    }

    pub fn set(&mut self, value: T) -> (r: &mut Self)
        ensures
            *r == FieldState::Assigned(value),
            *final(self) == *final(r),
    {
        *self = FieldState::Assigned(value);

        self
    }

    pub fn unset(&mut self) -> (r: &mut Self)
        ensures
            *r == FieldState::<T>::NotSet,
            *final(self) == *final(r),
    {
        *self = FieldState::NotSet;

        self
    }

    pub fn is_set(&self) -> (r: bool)
        ensures
            r == (self is Assigned),
    {
        matches!(self, FieldState::Assigned(_))
    }

    pub fn is_unset(&self) -> (r: bool)
        ensures
            r == (self is NotSet),
    {
        matches!(self, FieldState::NotSet)
    }

    /// Alias of `is_unset`.
    pub fn is_not_set(&self) -> (r: bool)
        ensures
            r == (self is NotSet),
    {
        matches!(self, FieldState::NotSet)
    }

    /// Moves the value out, leaving the state `NotSet`.
    pub fn take(&mut self) -> (r: Option<T>)
        ensures
            *final(self) == FieldState::<T>::NotSet,
            *old(self) matches FieldState::Assigned(t) ==> r == Some(t),
            *old(self) is NotSet ==> r is None,
    {
        let mut ret = FieldState::NotSet;
        core::mem::swap(self, &mut ret);

        match ret {
            FieldState::Assigned(t) => Some(t),
            FieldState::NotSet => None,
        }
    }

    pub fn inner(&self) -> (r: Option<&T>)
        ensures
            *self matches FieldState::Assigned(t) ==> (r matches Some(v) && *v == t),
            *self is NotSet ==> r is None,
    {
        match self {
            FieldState::Assigned(t) => Some(t),
            FieldState::NotSet => None,
        }
    }

    /// Alias of `inner`.
    pub fn value(&self) -> (r: Option<&T>)
        ensures
            *self matches FieldState::Assigned(t) ==> (r matches Some(v) && *v == t),
            *self is NotSet ==> r is None,
    {
        match self {
            FieldState::Assigned(t) => Some(t),
            FieldState::NotSet => None,
        }
    }

    pub fn into_inner(self) -> (r: Option<T>)
        ensures
            self matches FieldState::Assigned(t) ==> r == Some(t),
            self is NotSet ==> r is None,
    {
        match self {
            FieldState::Assigned(t) => Some(t),
            FieldState::NotSet => None,
        }
    }

    /// Alias of `into_inner`.
    pub fn into_value(self) -> (r: Option<T>)
        ensures
            self matches FieldState::Assigned(t) ==> r == Some(t),
            self is NotSet ==> r is None,
    {
        match self {
            FieldState::Assigned(t) => Some(t),
            FieldState::NotSet => None,
        }
    }

    /// The value of a state known to be `Set`.
    pub fn unwrap(self) -> (r: T)
        requires
            self is Assigned,
        ensures
            self == FieldState::Assigned(r),
    {
        match self {
            FieldState::Assigned(t) => t,
            FieldState::NotSet => unreached(),
        }
    }

    /// The value of a state known to be `Set`; the message documents the
    /// caller's expectation.
    pub fn expect(self, msg: &str) -> (r: T)
        requires
            self is Assigned,
        ensures
            self == FieldState::Assigned(r),
    {
        let _ = msg;
        match self {
            FieldState::Assigned(t) => t,
            FieldState::NotSet => unreached(),
        }
    }

    /// A mutable borrow of the value, if one is set.
    pub fn inner_mut(&mut self) -> (r: Option<&mut T>)
        ensures
            *old(self) matches FieldState::Assigned(t) ==> (r matches Some(v) && *v == t
                && *final(self) == FieldState::Assigned(*final(v))),
            *old(self) is NotSet ==> r is None && *final(self) == *old(self),
    {
        match self {
            FieldState::Assigned(t) => Some(t),
            FieldState::NotSet => None,
        }
    }
}

impl<T> FieldState<Option<T>> {
    /// Both `NotSet` and an explicit `Set(None)` carry no inner value.
    pub fn is_inner_option_none(&self) -> (r: bool)
        ensures
            r == !(*self matches FieldState::Assigned(t) && t is Some),
    {
        match self {
            FieldState::Assigned(t) => t.is_none(),
            FieldState::NotSet => true,
        }
    }
}

impl<T> From<Option<T>> for FieldState<T> {
    /// A present value maps to `Set`, an absent one to `NotSet` — the rule a
    /// wire decoder follows for a key that may be missing.
    fn from(t: Option<T>) -> (r: Self) {
        if let Some(val) = t {
            FieldState::Assigned(val)
        } else {
            FieldState::NotSet
        }
    }
}

impl<T> vstd::std_specs::convert::FromSpecImpl<Option<T>> for FieldState<T> {
    open spec fn obeys_from_spec() -> bool {
        true
    }

    open spec fn from_spec(t: Option<T>) -> Self {
        match t {
            Some(val) => FieldState::Assigned(val),
            None => FieldState::NotSet,
        }
    }
}

} // verus!
