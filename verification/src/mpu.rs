//! What a process asks of the memory-protection unit: which regions of
//! memory the application may touch while it runs, and how.

use vstd::prelude::*;

verus! {

/// Whether code in a region may be executed.
#[derive(Copy, Clone, Debug, Eq, PartialEq, Structural)]
pub enum ExecutePermission {
    ExecutionPermitted,
    ExecutionNotPermitted,
}

/// Who may read and write a region.
#[derive(Copy, Clone, Debug, Eq, PartialEq, Structural)]
pub enum AccessPermission {
    /// The application may read; nobody may write.
    ReadOnly,
    /// The application may read and write.
    ReadWrite,
    /// Only the kernel may read and write.
    PrivilegedOnly,
}

/// What to put in one of the unit's regions.
#[derive(Copy, Clone, Debug, Eq, PartialEq, Structural)]
pub enum RegionRequest {
    /// Protect `len` bytes from `base` on as said.
    Region {
        index: usize,
        base: usize,
        len: usize,
        execute: ExecutePermission,
        access: AccessPermission,
    },
    /// Leave the region with this number empty.
    Empty { index: usize },
}

/// The number of the region for the application's image in flash.
pub const FLASH_REGION: usize = 0;

/// The number of the region for the application's RAM.
pub const RAM_REGION: usize = 1;

/// The number of the region that keeps the application out of the kernel's
/// part of its RAM.
pub const GRANT_REGION: usize = 2;

/// The number of the first of the regions for shared buffers.
pub const FIRST_IPC_REGION: usize = 3;

} // verus!
