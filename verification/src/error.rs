//! The error taxonomy of the library.
//!
//! Every kernel-call failure is reported with the operating-system error
//! code the call left behind; the remaining kinds describe conditions the
//! library itself detects.

use vstd::prelude::*;

verus! {

/// Why an operation of the library failed.
#[derive(Debug, Clone, Copy, PartialEq, Eq, Structural)]
pub enum Error {
    /// An ioctl, mmap or munmap failed; carries the OS error code.
    KernelCallFailed(i32),
    /// A registry checkout lost: the id is not in the available set.
    NotAvailable,
    /// The kernel does not consider the paired resources, or a submitted
    /// property value, compatible with the current resource state.
    Incompatible,
    /// A property descriptor matched none of the known type flags;
    /// carries the flags as reported.
    UnknownPropertyType(u32),
    /// The caller lacks the master capability the call requires.
    PermissionDenied,
    /// The device lacks a capability required at session start.
    Unsupported,
}

impl Error {
    /// A short description of the error, for display by the caller.
    pub fn message(&self) -> (r: &'static str)
        ensures
            r@.len() > 0,
    {
        proof {
            reveal_strlit("kernel call failed");
            reveal_strlit("resource not available");
            reveal_strlit("resources are incompatible");
            reveal_strlit("unknown property type");
            reveal_strlit("permission denied: not the master");
            reveal_strlit("unsupported operation");
        }
        match self {
            Error::KernelCallFailed(_) => "kernel call failed",
            Error::NotAvailable => "resource not available",
            Error::Incompatible => "resources are incompatible",
            Error::UnknownPropertyType(_) => "unknown property type",
            Error::PermissionDenied => "permission denied: not the master",
            Error::Unsupported => "unsupported operation",
        }
    }
}

} // verus!
