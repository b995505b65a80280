//! The user attribute: a native metadata record attached to a declaration,
//! exposing a name and positional scalar arguments.
//!
//! The native object offers exactly four operations — name, argument count,
//! and one value accessor per scalar type — so the model holds what those
//! operations can reveal: an optional name and a sequence of scalar values.

use vstd::prelude::*;

verus! {

/// The scalar types an attribute argument can carry.  Anything else is
/// rejected when a shape is validated, before any extraction code exists.
#[derive(Clone, Copy, Debug, PartialEq, Eq, Structural)]
pub enum ScalarKind {
    /// A text literal.
    Text,
    /// A 32-bit floating-point literal.
    Float,
    /// A 32-bit integer literal.
    Int,
}

/// One positional argument of a user attribute.
///
/// A floating-point literal is carried as its raw 32-bit pattern, which
/// keeps every comparison exact; callers that want the number reassemble it
/// from the bits.
#[derive(Debug, PartialEq)]
pub enum ScalarValue {
    /// A text literal.
    Text(String),
    /// A 32-bit floating-point literal, as its raw bit pattern.
    Float(u32),
    /// A 32-bit integer literal.
    Int(i32),
}

impl ScalarValue {
    /// The scalar type this value carries.
    pub open spec fn kind(self) -> ScalarKind {
        match self {
            ScalarValue::Text(_) => ScalarKind::Text,
            ScalarValue::Float(_) => ScalarKind::Float,
            ScalarValue::Int(_) => ScalarKind::Int,
        }
    }
}

impl Clone for ScalarValue {
    /// An owned copy carrying the same value.
    fn clone(&self) -> (r: Self)
        ensures
            r == *self,
    {
        match self {
            ScalarValue::Text(s) => ScalarValue::Text(s.clone()),
            ScalarValue::Float(b) => ScalarValue::Float(*b),
            ScalarValue::Int(v) => ScalarValue::Int(*v),
        }
    }
}

/// A user attribute as the reflection layer hands it over: an optional name
/// and the positional arguments, in slot order.
#[derive(Debug)]
pub struct UserAttribute {
    /// The attribute's name, absent when the native side reports none.
    pub name: Option<String>,
    /// The positional arguments; slot `i` holds argument `i`.
    pub args: Vec<ScalarValue>,
}

impl UserAttribute {
    /// The native argument count is a 32-bit value, so the model never holds
    /// more argument slots than that.
    pub open spec fn wf(self) -> bool {
        self.args@.len() <= u32::MAX
    }

    /// Builds an attribute from its name and arguments.
    pub fn new(name: Option<String>, args: Vec<ScalarValue>) -> (r: UserAttribute)
        requires
            args@.len() <= u32::MAX,
        ensures
            r.name == name,
            r.args == args,
            r.wf(),
    {
        UserAttribute { name, args }
    }

    /// The text argument at `index`, if that slot exists and carries text.
    pub open spec fn spec_arg_text(self, index: int) -> Option<String> {
        if 0 <= index < self.args@.len() {
            match self.args@[index] {
                ScalarValue::Text(s) => Some(s),
                _ => None,
            }
        } else {
            None
        }
    }

    /// The float argument at `index` (as raw bits), if that slot exists and
    /// carries a float.
    pub open spec fn spec_arg_float_bits(self, index: int) -> Option<u32> {
        if 0 <= index < self.args@.len() {
            match self.args@[index] {
                ScalarValue::Float(b) => Some(b),
                _ => None,
            }
        } else {
            None
        }
    }

    /// The integer argument at `index`, if that slot exists and carries an
    /// integer.
    pub open spec fn spec_arg_int(self, index: int) -> Option<i32> {
        if 0 <= index < self.args@.len() {
            match self.args@[index] {
                ScalarValue::Int(v) => Some(v),
                _ => None,
            }
        } else {
            None
        }
    }

    /// The attribute's name, if the native side reported one.
    pub fn name(&self) -> (r: Option<&str>)
        ensures
            r is Some <==> self.name is Some,
            r matches Some(s) ==> self.name matches Some(n) && s@ == n@,
    {
        match &self.name {
            Some(n) => Some(n.as_str()),
            None => None,
        }
    }

    /// How many positional arguments the attribute carries.
    pub fn argument_count(&self) -> (r: u32)
        requires
            self.wf(),
        ensures
            r == self.args@.len(),
    {
        self.args.len() as u32
    }

    /// The text value of argument `index`: present exactly when the slot
    /// exists and carries text.
    pub fn argument_value_string(&self, index: u32) -> (r: Option<String>)
        ensures
            r == self.spec_arg_text(index as int),
    {
        if (index as usize) < self.args.len() {
            match &self.args[index as usize] {
                ScalarValue::Text(s) => Some(s.clone()),
                _ => None,
            }
        } else {
            None
        }
    }

    /// The raw bit pattern of the float argument `index`: present exactly
    /// when the slot exists and carries a float.
    pub fn argument_value_float_bits(&self, index: u32) -> (r: Option<u32>)
        ensures
            r == self.spec_arg_float_bits(index as int),
    {
        if (index as usize) < self.args.len() {
            match &self.args[index as usize] {
                ScalarValue::Float(b) => Some(*b),
                _ => None,
            }
        } else {
            None
        }
    }

    /// The integer value of argument `index`: present exactly when the slot
    /// exists and carries an integer.
    pub fn argument_value_int(&self, index: u32) -> (r: Option<i32>)
        ensures
            r == self.spec_arg_int(index as int),
    {
        if (index as usize) < self.args.len() {
            match &self.args[index as usize] {
                ScalarValue::Int(v) => Some(*v),
                _ => None,
            }
        } else {
            None
        }
    }
}

} // verus!
