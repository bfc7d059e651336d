//! Verified core of a kernel modesetting library.
//!
//! The library models the privileged resource-ownership registry, the
//! two-phase variable-length query protocol, the dumb-buffer lifecycle and
//! the typed property subsystem of a display-control device. Every kernel
//! call is performed by the surrounding (unverified) program; this crate
//! holds the data model, the decisions and the decoding, all verified.

use vstd::prelude::*;

pub mod buffer;
pub mod commit;
pub mod compose;
pub mod error;
pub mod handles;
pub mod mode;
pub mod names;
pub mod property;
pub mod query;
pub mod registry;
pub mod resource;

verus! {

/// An identifier the kernel assigns to one resource of a device session.
pub type ResourceId = u32;

pub type ConnectorId = ResourceId;

pub type EncoderId = ResourceId;

pub type ControllerId = ResourceId;

pub type FramebufferId = ResourceId;

pub type PlaneId = ResourceId;

pub type PropertyId = ResourceId;

pub type BlobId = ResourceId;

/// The driver the device session reports: its name, build date,
/// description and version number. All four are informational; the
/// session reads them once at start.
#[derive(Debug, PartialEq, Eq)]
pub struct DriverVersion {
    pub driver_name: Vec<u8>,
    pub driver_date: Vec<u8>,
    pub driver_desc: Vec<u8>,
    pub driver_vers: (i32, i32, i32),
}

} // verus!
