//! A verified model of a COM-style interface-object runtime together with the
//! attribute-extraction logic that reads typed records out of user attributes.
//!
//! The crate has two halves:
//!
//! * [`com_impls`] — the interface-object runtime: 128-bit capability
//!   identifiers, a reference-counted buffer object ([`com_impls::VecBlob`])
//!   living in an explicit [`com_impls::ObjectStore`] that stands for the
//!   boundary heap, and the scope-bound [`ComPtr`] handle that releases its
//!   object exactly once.
//! * [`reflection`] — the attribute side: shape descriptions of target
//!   records and choice types, validation of those shapes, and extraction of
//!   typed scalar values out of a user attribute's positional arguments.

pub mod com_impls;
pub mod reflection;

pub use com_impls::ComPtr;
pub use com_impls::SlangUuid;
pub use com_impls::eq_guid;
