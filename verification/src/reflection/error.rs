//! Errors of the reflection layer and of attribute extraction.
//!
//! Extraction errors are structured values: each variant carries the
//! context — expected and actual name, field index, counts — that a caller
//! needs to build a precise diagnostic.  They are reported, never thrown;
//! extraction cannot abort the process.

use crate::reflection::user_attribute::ScalarKind;
use vstd::prelude::*;

verus! {

/// Why extracting a typed value from a user attribute failed.
#[derive(Clone, Debug, PartialEq)]
pub enum AttributeError {
    /// The attribute carries no name.
    MissingName,
    /// The attribute's name is not the one the shape expects.
    NameMismatch { expected: String, actual: String },
    /// The attribute carries fewer arguments than the shape has fields.
    /// Extra trailing arguments are tolerated; missing ones are not.
    NotEnoughArguments { expected: usize, actual: usize },
    /// The argument at `index` is missing or does not carry a `kind` value.
    ValueMismatch { index: usize, kind: ScalarKind },
    /// No case of the choice shape is tagged with the attribute's name.
    UnknownAttributeName { actual: String },
    /// There is no attribute at the requested index.
    IndexOutOfBounds { index: usize, size: usize },
}

/// Errors of the wider reflection layer.
#[derive(Clone, Debug, PartialEq)]
pub enum ReflectionError {
    /// An index was out of bounds for a reflection collection.
    IndexOutOfBounds { index: u32, size: u32 },
    /// A different type was found than expected.
    TypeMismatch { expected: String, actual: String },
    /// The native reflection side handed back nothing where an object was
    /// owed.
    UnexpectedNull,
    /// A value could not be converted to the requested representation.
    DeserializationError(String),
    /// Extracting a typed attribute failed.
    AttributeError(AttributeError),
    /// A query string cannot cross the boundary: it holds a null byte at
    /// `position`.
    InvalidString { position: usize },
    /// Nothing of the given name exists; the payload names what was looked
    /// for.
    NotFound(String),
}

impl From<AttributeError> for ReflectionError {
    /// Carries an extraction error into the reflection error taxonomy.
    fn from(err: AttributeError) -> (r: Self) {
        ReflectionError::AttributeError(err)
    }
}

impl vstd::std_specs::convert::FromSpecImpl<AttributeError> for ReflectionError {
    open spec fn obeys_from_spec() -> bool {
        true
    }

    open spec fn from_spec(err: AttributeError) -> Self {
        ReflectionError::AttributeError(err)
    }
}

} // verus!
