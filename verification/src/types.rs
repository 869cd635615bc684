//! Plain data carried through GATT discovery: attribute handles, handle
//! ranges, and the records a discovery walk produces.

use vstd::prelude::*;

verus! {

/// A locally resolvable service, characteristic or descriptor identifier.
///
/// A remote 128-bit identifier that the local stack cannot resolve is carried
/// as `None` wherever an `Option<Uuid>` appears.
#[derive(Debug, Clone, Copy, PartialEq, Eq, Structural)]
pub struct Uuid(pub u16);

/// An open connection, named by the opaque identifier the transport assigned
/// to it.
#[derive(Debug, Clone, Copy, PartialEq, Eq, Structural)]
pub struct Connection {
    pub handle: u16,
}

/// An inclusive range of 16-bit attribute handles.
#[derive(Debug, Clone, Copy, PartialEq, Eq, Structural)]
pub struct HandleRange {
    pub start: u16,
    pub end: u16,
}

impl HandleRange {
    /// A well-formed range is never empty; an empty range is never sent to
    /// the transport.
    pub open spec fn wf(self) -> bool {
        self.start <= self.end
    }
}

/// A primary service found on the remote server.
#[derive(Debug, Clone, Copy, PartialEq, Eq, Structural)]
pub struct DiscoveredService {
    pub uuid: Option<Uuid>,
    pub range: HandleRange,
}

/// Discovered characteristic.
#[derive(Debug, Clone, Copy, PartialEq, Eq, Structural)]
pub struct Characteristic {
    pub uuid: Option<Uuid>,
    pub handle_decl: u16,
    pub handle_value: u16,
    pub props: u8,
    pub has_ext_props: bool,
}

/// Discovered descriptor.
#[derive(Debug, Clone, Copy, PartialEq, Eq, Structural)]
pub struct Descriptor {
    pub uuid: Option<Uuid>,
    pub handle: u16,
}

} // verus!
