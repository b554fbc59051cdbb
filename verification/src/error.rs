//! The four error kinds every operation can surface, and how each arises.

use vstd::prelude::*;
use crate::protocol::{AdminOp, AdminResponse, ResponseTag, tag_of};

verus! {

/// What went wrong with one administrative call.
#[derive(Clone, Debug, PartialEq, Eq)]
pub enum ConductorApiError {
    /// The connection could not be opened, or an in-flight exchange failed
    /// at the transport layer. Carries the underlying transport message.
    TransportError(String),
    /// The host explicitly answered with its error variant. Carries the
    /// host's diagnostic message verbatim.
    HostReportedError(String),
    /// The host answered with a well-formed variant that the issued
    /// request cannot legitimately produce. Carries the operation and the
    /// offending variant's identity.
    ProtocolViolation { op: AdminOp, received: ResponseTag },
    /// An input was rejected before any network work. Carries the
    /// offending input.
    ValidationError(String),
}

/// Result of one administrative call.
pub type ConductorApiResult<T> = Result<T, ConductorApiError>;

/// The error a decoder returns for a response variant that the issued
/// request cannot legitimately produce.
pub open spec fn violation(op: AdminOp, resp: AdminResponse) -> ConductorApiError {
    ConductorApiError::ProtocolViolation { op, received: tag_of(resp) }
}

/// Builds the protocol-violation error for a mismatched response.
pub fn protocol_violation(op: AdminOp, resp: &AdminResponse) -> (r: ConductorApiError)
    ensures
        r == violation(op, *resp),
{
    ConductorApiError::ProtocolViolation { op, received: crate::protocol::response_tag(resp) }
}

} // verus!
