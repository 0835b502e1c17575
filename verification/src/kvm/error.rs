//! Why a request to grow a virtual machine fails.

use vstd::prelude::*;

verus! {

/// Why a request for memory or for a thread fails.
#[derive(Clone, Copy, Debug, PartialEq, Eq, Structural)]
pub enum Error {
    /// Memory was asked for with a page count of zero.
    NoPages,
    /// The memory asked for does not fit: its size in bytes, the end of its
    /// guest-physical range or its slot number is more than the machine can
    /// express.
    OutOfRange,
    /// The host did not provide the mapping.
    MapFailed { errno: i32 },
    /// The host reported a mapping that ends beyond the address space or that
    /// shares addresses with the mapping of a region in use.
    InvalidMapping,
    /// The hypervisor rejected the request.
    Hypervisor { errno: i32 },
    /// A virtual CPU other than the first was asked for.
    Unsupported,
    /// The reply does not answer the step that it was given for.
    Protocol,
}

} // verus!
