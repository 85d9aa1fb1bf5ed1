//! Error types.

use vstd::prelude::*;

use crate::status::Response;

verus! {

/// Everything that can go wrong while assembling or dispatching a print
/// job.  No error is retried internally; retry policy belongs to the
/// caller and its transport.
#[derive(Clone, Debug)]
pub enum EPOSError {
    /// The command kind is not permitted in the document's mode; a
    /// caller bug, raised at append time.
    IllegalForMode,
    /// The command's payload violates the symbology or numeric range
    /// rules the device dictates; a caller bug, raised at append time.
    InvalidPayload { reason: String },
    /// A reply could not be rendered or parsed as the wire format
    /// requires.
    SerializeError { reason: String },
    /// The transport failed; surfaced as-is, retryable at the caller's
    /// discretion.
    TransportError { reason: String },
    /// A reply token outside a closed catalog enumeration.
    UnknownCatalogValue { token: String },
    /// The device itself reported failure; carries the decoded reply so
    /// the caller can branch on hardware conditions.
    ResponseError { status: Response },
}

} // verus!
