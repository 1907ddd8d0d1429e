//! Errors surfaced by the library: definition-time errors when a schema's
//! configuration is invalid, and the single decode-time error for a value
//! whose outer shape does not fit.

use vstd::prelude::*;

verus! {

/// A definition-time configuration error. Building a partial schema fails
/// with one of these; nothing of the kind is ever raised while decoding.
#[derive(Clone, Copy, PartialEq, Eq, Debug, Structural)]
pub enum DefinitionError {
    /// Neither a name for the partial type nor pass-through mode was
    /// configured.
    ModeNotSet,
    /// The partial type's mode (name or pass-through) was configured twice.
    ModeSetTwice,
    /// A configuration item is none of the recognized ones.
    UnrecognizedConfig,
    /// Pass-through mode was requested for a sum type.
    NewtypeOnSum,
    /// Pass-through mode was requested for a record without exactly one
    /// field.
    NewtypeArity,
    /// Pass-through mode was requested for a record whose field carries an
    /// explicit default, which the pass-through would make unreachable.
    NewtypeDropsDefault,
    /// A tagging-convention marker list is empty.
    ExpectedTagParams,
    /// A tagging-convention marker is not a key/value pair.
    ExpectedKeyValueParam,
    /// A single tagging-convention pair does not have the key `tag`.
    ExpectedTagKey,
    /// Two tagging-convention pairs are not the keys `tag` and `content`.
    ExpectedContentKey,
    /// More than two tagging-convention pairs were given.
    TooManyTagParams,
    /// A default marker is not the bare word `default` nor `default = "f"`.
    ExpectedDefaultMarker,
    /// A rename marker is not a single `rename = "name"` pair.
    ExpectedRenameKey,
    /// A rename-all marker is not a single `rename_all = "style"` pair.
    ExpectedRenameAllKey,
    /// A rename-all style is not one of the recognized style names.
    InvalidRenameStyle,
    /// An implicit default rule on a field whose declared type cannot be
    /// default-constructed.
    UnsupportedDefault,
}

/// The decode-time error: the incoming value is not an object-like node where
/// a record decode requires one.
#[derive(Clone, Copy, PartialEq, Eq, Debug, Structural)]
pub enum DecodeError {
    OuterShapeMismatch,
}

} // verus!
