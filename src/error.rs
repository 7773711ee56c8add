use vstd::prelude::*;

verus! {

/// Why an operation, a validation or a classification failed.
#[derive(Clone, Copy, Debug, PartialEq, Eq, Structural)]
pub enum RelayError {
    /// A referenced room or record is absent.
    NotFound,
    /// Empty signal data, an empty participant list, or a link address of
    /// the wrong kind.
    InvalidPayload,
    /// A relay envelope whose fields do not match its tag, or a record
    /// without the entry it must carry.
    MissingField,
    /// A deleted link whose creating action cannot be found.
    MustExist,
    /// A payload that does not have the shape its declared type asks for.
    SerializationError,
}

} // verus!
