//! The error taxonomy of the decoding core.
use vstd::prelude::*;

verus! {

/// Why a decode, or a common-field read, could not be served.
#[derive(Debug, PartialEq)]
pub enum DecodeError {
    /// A declared field is missing where required, bound twice, or has the
    /// wrong shape. Fatal to the whole decode; never answered by a fallback.
    StructuralDecodeError { field: String },
    /// A common field was requested of a value that does not carry it: the
    /// closed union's fallback variant. Carries the field that was asked for
    /// and the name of the variant actually present.
    InvalidObjectType { field: String, variant: String },
    /// The input text is not a single JSON document this library can hold.
    Syntax,
}

/// The structural error for the named declared field.
pub(crate) fn structural_key(field: String) -> (r: DecodeError)
    ensures
        r == (DecodeError::StructuralDecodeError { field }),
{
    DecodeError::StructuralDecodeError { field }
}

/// The structural error for a field named by a literal.
pub(crate) fn structural(field: &str) -> (r: DecodeError)
    ensures
        r matches DecodeError::StructuralDecodeError { field: f } && f@ == field@,
{
    DecodeError::StructuralDecodeError { field: field.to_owned() }
}

} // verus!
