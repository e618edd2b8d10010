//! Presence-tracked companions of document types and the conversion back.
//!
//! A partial mirrors a document type with every field independently
//! presence-tracked. Reconstructing the document is the one validated step
//! of that path: a required field that was never set fails the conversion,
//! reporting the type and field it was missing from.

use vstd::prelude::*;

use crate::field_state::FieldState;

verus! {

/// A required field was missing when a partial was converted back into its
/// source type.
#[derive(Debug, Clone)]
pub struct TryFromPartialError {
    pub target_type: String,
    pub field: String,
}

impl TryFromPartialError {
    /// A plain rendering of the error.
    pub fn message(&self) -> (r: String)
        ensures
            r@ == "field "@ + self.field@ + " is missing in partial object for "@
                + self.target_type@,
    {
        let mut buf = String::from_str("field ");
        buf.append(self.field.as_str());
        buf.append(" is missing in partial object for ");
        buf.append(self.target_type.as_str());
        proof {
            assert(buf@ =~= "field "@ + self.field@ + " is missing in partial object for "@
                + self.target_type@);
        }
        buf
    }
}

/// Takes a required field's value out of its presence state: present values
/// convert, an untouched state fails naming exactly the type and field.
pub fn require_field<T>(state: FieldState<T>, target_type: &str, field: &str) -> (r: Result<
    T,
    TryFromPartialError,
>)
    ensures
        state matches FieldState::Assigned(v) ==> r matches Ok(rv) && rv == v,
        state is NotSet ==> (r matches Err(e) && e.target_type@ == target_type@ && e.field@
            == field@),
{
    match state {
        FieldState::Assigned(v) => Ok(v),
        FieldState::NotSet => Err(
            TryFromPartialError { target_type: target_type.to_owned(), field: field.to_owned() },
        ),
    }
}

/// A type with a presence-tracked companion: conversion into the companion
/// always succeeds, conversion back may find required fields missing.
pub trait Partial: Sized {
    type Partial;

    fn into_partial(self) -> Self::Partial;

    fn from_partial(partial: Self::Partial) -> Result<Self, TryFromPartialError>;
}

impl Partial for bool {
    type Partial = bool;

    fn into_partial(self) -> (r: bool)
        ensures
            r == self,
    {
        self
    }

    fn from_partial(partial: bool) -> (r: Result<bool, TryFromPartialError>)
        ensures
            r matches Ok(v) && v == partial,
    {
        Ok(partial)
    }
}

impl Partial for u8 {
    type Partial = u8;

    fn into_partial(self) -> (r: u8)
        ensures
            r == self,
    {
        self
    }

    fn from_partial(partial: u8) -> (r: Result<u8, TryFromPartialError>)
        ensures
            r matches Ok(v) && v == partial,
    {
        Ok(partial)
    }
}

impl Partial for u16 {
    type Partial = u16;

    fn into_partial(self) -> (r: u16)
        ensures
            r == self,
    {
        self
    }

    fn from_partial(partial: u16) -> (r: Result<u16, TryFromPartialError>)
        ensures
            r matches Ok(v) && v == partial,
    {
        Ok(partial)
    }
}

impl Partial for u32 {
    type Partial = u32;

    fn into_partial(self) -> (r: u32)
        ensures
            r == self,
    {
        self
    }

    fn from_partial(partial: u32) -> (r: Result<u32, TryFromPartialError>)
        ensures
            r matches Ok(v) && v == partial,
    {
        Ok(partial)
    }
}

impl Partial for u64 {
    type Partial = u64;

    fn into_partial(self) -> (r: u64)
        ensures
            r == self,
    {
        self
    }

    fn from_partial(partial: u64) -> (r: Result<u64, TryFromPartialError>)
        ensures
            r matches Ok(v) && v == partial,
    {
        Ok(partial)
    }
}

impl Partial for usize {
    type Partial = usize;

    fn into_partial(self) -> (r: usize)
        ensures
            r == self,
    {
        self
    }

    fn from_partial(partial: usize) -> (r: Result<usize, TryFromPartialError>)
        ensures
            r matches Ok(v) && v == partial,
    {
        Ok(partial)
    }
}

impl Partial for i8 {
    type Partial = i8;

    fn into_partial(self) -> (r: i8)
        ensures
            r == self,
    {
        self
    }

    fn from_partial(partial: i8) -> (r: Result<i8, TryFromPartialError>)
        ensures
            r matches Ok(v) && v == partial,
    {
        Ok(partial)
    }
}

impl Partial for i16 {
    type Partial = i16;

    fn into_partial(self) -> (r: i16)
        ensures
            r == self,
    {
        self
    }

    fn from_partial(partial: i16) -> (r: Result<i16, TryFromPartialError>)
        ensures
            r matches Ok(v) && v == partial,
    {
        Ok(partial)
    }
}

impl Partial for i32 {
    type Partial = i32;

    fn into_partial(self) -> (r: i32)
        ensures
            r == self,
    {
        self
    }

    fn from_partial(partial: i32) -> (r: Result<i32, TryFromPartialError>)
        ensures
            r matches Ok(v) && v == partial,
    {
        Ok(partial)
    }
}

impl Partial for i64 {
    type Partial = i64;

    fn into_partial(self) -> (r: i64)
        ensures
            r == self,
    {
        self
    }

    fn from_partial(partial: i64) -> (r: Result<i64, TryFromPartialError>)
        ensures
            r matches Ok(v) && v == partial,
    {
        Ok(partial)
    }
}

impl Partial for String {
    type Partial = String;

    fn into_partial(self) -> (r: String)
        ensures
            r == self,
    {
        self
    }

    fn from_partial(partial: String) -> (r: Result<String, TryFromPartialError>)
        ensures
            r matches Ok(v) && v == partial,
    {
        Ok(partial)
    }
}

impl<T> Partial for Vec<T> {
    type Partial = Vec<T>;

    fn into_partial(self) -> (r: Vec<T>)
        ensures
            r == self,
    {
        self
    }

    fn from_partial(partial: Vec<T>) -> (r: Result<Vec<T>, TryFromPartialError>)
        ensures
            r matches Ok(v) && v == partial,
    {
        Ok(partial)
    }
}

impl<T> Partial for Box<T> {
    type Partial = Box<T>;

    fn into_partial(self) -> (r: Box<T>)
        ensures
            r == self,
    {
        self
    }

    fn from_partial(partial: Box<T>) -> (r: Result<Box<T>, TryFromPartialError>)
        ensures
            r matches Ok(v) && v == partial,
    {
        Ok(partial)
    }
}

impl<T: Partial> Partial for Option<T> {
    type Partial = Option<T::Partial>;

    /// A present value converts; absence stays absence.
    fn into_partial(self) -> Option<T::Partial> {
        match self {
            Some(t) => Some(t.into_partial()),
            None => None,
        }
    }

    /// A present partial converts and may fail; absence converts to absence.
    fn from_partial(partial: Option<T::Partial>) -> Result<Option<T>, TryFromPartialError> {
        match partial {
            Some(p) => match T::from_partial(p) {
                Ok(t) => Ok(Some(t)),
                Err(e) => Err(e),
            },
            None => Ok(None),
        }
    }
}

} // verus!
