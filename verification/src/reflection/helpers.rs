//! The extraction interface implemented by typed attribute targets.

use crate::reflection::error::AttributeError;
use crate::reflection::user_attribute::UserAttribute;
use vstd::prelude::*;

verus! {

/// A type that can be read out of a user attribute.
///
/// Implementors decide how the attribute's name and positional arguments
/// map onto their own fields; shape-driven implementations delegate to
/// [`crate::reflection::shape::Shape::from_user_attribute`].  Only scalar
/// arguments (text, 32-bit float, 32-bit integer) can be extracted, since
/// the native reflection layer offers no other value accessors.
pub trait SlangAttribute: Sized {
    /// Reads one value of `Self` out of the attribute, or reports a
    /// structured [`AttributeError`].
    fn from_user_attribute(attr: &UserAttribute) -> Result<Self, AttributeError>
        requires
            attr.wf(),
    ;
}

} // verus!
