//! Reflection-side types: the user-attribute model, shape descriptions of
//! target records and choice types, and the extraction logic that reads
//! typed scalar values out of an attribute's positional arguments.

pub mod error;
pub mod helpers;
pub mod shape;
pub mod user_attribute;
pub mod variable;

pub use error::AttributeError;
pub use error::ReflectionError;
pub use helpers::SlangAttribute;
pub use shape::AttributeValue;
pub use shape::Case;
pub use shape::ChoiceShape;
pub use shape::RecordShape;
pub use shape::Shape;
pub use user_attribute::ScalarKind;
pub use user_attribute::ScalarValue;
pub use user_attribute::UserAttribute;
pub use variable::Modifier;
pub use variable::Variable;
