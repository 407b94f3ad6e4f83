//! Failure kinds of the replication filter and how far each one may travel.
//!
//! Only a missing primary peer may change what the client sees. Every other
//! failure is local: the step that met it is skipped and the request goes on.

use vstd::prelude::*;

verus! {

/// No primary upstream is configured. Fatal for the request: the host answers
/// with a server error and does not retry.
#[derive(Clone, Copy, Debug, PartialEq, Eq, Structural)]
pub enum PeerConfigurationError {
    MissingPrimary,
}

/// A header could not be written because its name or its value is not legal.
/// The header set is left as it was.
#[derive(Clone, Copy, Debug, PartialEq, Eq, Structural)]
pub enum HeaderMutationError {
    InvalidName,
    InvalidValue,
}

/// The inbound body could not be read. The snapshot is taken with an empty body.
#[derive(Clone, Copy, Debug, PartialEq, Eq, Structural)]
pub enum BodyReadError {
    Unreadable,
}

/// Why a shadow call produced no response.
#[derive(Clone, Copy, Debug, PartialEq, Eq, Structural)]
pub enum ShadowTransportError {
    Connect,
    Timeout,
    Tls,
    Parse,
}

} // verus!
