//! The analysis-time error taxonomy.
//!
//! Every error is fatal to the synthesis of the dispatcher it concerns and
//! carries the source location of the offending item, as an opaque span token
//! supplied with the structural view of the type definition.

use vstd::prelude::*;

verus! {

/// An error found while validating the annotated union definition.
#[derive(Debug)]
pub enum DeriveError {
    /// The input is a product type or an untagged byte-union; only tagged
    /// unions can drive a dispatcher. A union with no variants is rejected
    /// the same way: it has no tags to dispatch on.
    NotAUnion { span: u64 },
    /// A variant does not carry exactly one unnamed payload field.
    InvalidVariantShape { span: u64 },
    /// A recognized key was used on the wrong item kind: `matcher_name` on a
    /// variant, or `builder_name` on the union itself.
    MisplacedAttribute { span: u64 },
    /// A key inside the recognized namespace that is not part of the
    /// recognized set, reported with the offending key.
    UnknownAttribute { key: String, span: u64 },
    /// Two variants resolve to the same accessor name; the span is the later
    /// variant's.
    DuplicateAccessorName { name: String, span: u64 },
}

} // verus!
