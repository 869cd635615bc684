//! The discovery error taxonomy, and the total mapping from transport-level
//! numeric status codes onto it.

use vstd::prelude::*;

verus! {

/// Attribute-protocol status, as reported by the transport with a response.
///
/// `Success` is the sentinel for a successful response; every numeric code
/// outside the known catalogue maps to `Unknown`.
#[derive(Debug, Clone, Copy, PartialEq, Eq, Structural)]
pub enum GattError {
    Success,
    Unknown,
    AtterrInvalid,
    AtterrInvalidHandle,
    AtterrReadNotPermitted,
    AtterrWriteNotPermitted,
    AtterrInvalidPdu,
    AtterrInsufAuthentication,
    AtterrRequestNotSupported,
    AtterrInvalidOffset,
    AtterrInsufAuthorization,
    AtterrPrepareQueueFull,
    AtterrAttributeNotFound,
    AtterrAttributeNotLong,
    AtterrInsufEncKeySize,
    AtterrInvalidAttValLength,
    AtterrUnlikelyError,
    AtterrInsufEncryption,
    AtterrUnsupportedGroupType,
    AtterrInsufResources,
    AtterrCpsWriteReqRejected,
    AtterrCpsCccdConfigError,
    AtterrCpsProcAlrInProg,
    AtterrCpsOutOfRange,
}

/// The numeric status code of success.
pub const GATT_STATUS_SUCCESS: u32 = 0x0000;

/// The numeric status code of the attribute-protocol "attribute not found"
/// failure, which ends characteristic pagination and marks a missing service.
pub const GATT_STATUS_ATTERR_ATTRIBUTE_NOT_FOUND: u32 = 0x010A;

/// Total mapping from a transport status code to the error catalogue.
pub open spec fn status_to_error_spec(status: u32) -> GattError {
    if status == 0x0000 {
        GattError::Success
    } else if status == 0x0100 {
        GattError::AtterrInvalid
    } else if status == 0x0101 {
        GattError::AtterrInvalidHandle
    } else if status == 0x0102 {
        GattError::AtterrReadNotPermitted
    } else if status == 0x0103 {
        GattError::AtterrWriteNotPermitted
    } else if status == 0x0104 {
        GattError::AtterrInvalidPdu
    } else if status == 0x0105 {
        GattError::AtterrInsufAuthentication
    } else if status == 0x0106 {
        GattError::AtterrRequestNotSupported
    } else if status == 0x0107 {
        GattError::AtterrInvalidOffset
    } else if status == 0x0108 {
        GattError::AtterrInsufAuthorization
    } else if status == 0x0109 {
        GattError::AtterrPrepareQueueFull
    } else if status == 0x010A {
        GattError::AtterrAttributeNotFound
    } else if status == 0x010B {
        GattError::AtterrAttributeNotLong
    } else if status == 0x010C {
        GattError::AtterrInsufEncKeySize
    } else if status == 0x010D {
        GattError::AtterrInvalidAttValLength
    } else if status == 0x010E {
        GattError::AtterrUnlikelyError
    } else if status == 0x010F {
        GattError::AtterrInsufEncryption
    } else if status == 0x0110 {
        GattError::AtterrUnsupportedGroupType
    } else if status == 0x0111 {
        GattError::AtterrInsufResources
    } else if status == 0x01FC {
        GattError::AtterrCpsWriteReqRejected
    } else if status == 0x01FD {
        GattError::AtterrCpsCccdConfigError
    } else if status == 0x01FE {
        GattError::AtterrCpsProcAlrInProg
    } else if status == 0x01FF {
        GattError::AtterrCpsOutOfRange
    } else {
        GattError::Unknown
    }
}

/// Classify a transport status code. Total: unknown codes become
/// `GattError::Unknown` rather than failing.
pub fn status_to_error(status: u32) -> (r: GattError)
    ensures
        r == status_to_error_spec(status),
{
    match status {
        0x0000 => GattError::Success,
        0x0100 => GattError::AtterrInvalid,
        0x0101 => GattError::AtterrInvalidHandle,
        0x0102 => GattError::AtterrReadNotPermitted,
        0x0103 => GattError::AtterrWriteNotPermitted,
        0x0104 => GattError::AtterrInvalidPdu,
        0x0105 => GattError::AtterrInsufAuthentication,
        0x0106 => GattError::AtterrRequestNotSupported,
        0x0107 => GattError::AtterrInvalidOffset,
        0x0108 => GattError::AtterrInsufAuthorization,
        0x0109 => GattError::AtterrPrepareQueueFull,
        0x010A => GattError::AtterrAttributeNotFound,
        0x010B => GattError::AtterrAttributeNotLong,
        0x010C => GattError::AtterrInsufEncKeySize,
        0x010D => GattError::AtterrInvalidAttValLength,
        0x010E => GattError::AtterrUnlikelyError,
        0x010F => GattError::AtterrInsufEncryption,
        0x0110 => GattError::AtterrUnsupportedGroupType,
        0x0111 => GattError::AtterrInsufResources,
        0x01FC => GattError::AtterrCpsWriteReqRejected,
        0x01FD => GattError::AtterrCpsCccdConfigError,
        0x01FE => GattError::AtterrCpsProcAlrInProg,
        0x01FF => GattError::AtterrCpsOutOfRange,
        _ => GattError::Unknown,
    }
}

/// Why a discovery walk failed.
#[derive(Debug, Clone, Copy, PartialEq, Eq, Structural)]
pub enum DiscoverError {
    /// The connection was lost during the walk.
    Disconnected,
    /// No service with the given identifier was found on the server.
    ServiceNotFound,
    /// The service was found, but misses characteristics the client requires.
    ServiceIncomplete,
    /// A non-success attribute-protocol status not otherwise reinterpreted.
    Gatt(GattError),
    /// The transport rejected the request itself, before any response.
    Transport(u32),
    /// The transport broke a protocol invariant: an empty successful page,
    /// a response that does not match the outstanding request, or a page
    /// past the fixed per-response record capacity.
    ProtocolViolation,
}

impl From<GattError> for DiscoverError {
    fn from(err: GattError) -> (r: Self) {
        DiscoverError::Gatt(err)
    }
}

impl vstd::std_specs::convert::FromSpecImpl<GattError> for DiscoverError {
    open spec fn obeys_from_spec() -> bool {
        true
    }

    open spec fn from_spec(err: GattError) -> Self {
        DiscoverError::Gatt(err)
    }
}

} // verus!
