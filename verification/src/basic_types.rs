//! Address aliases and the region types shared by the discovery pipeline.
//!
//! The kernel targets x86-64 only, so physical and virtual addresses are
//! carried as 64-bit integers throughout.
use vstd::prelude::*;

verus! {

/// A user-virtual address.
pub type VirtPtr = u64;

/// A physical address.
pub type Paddr = u64;

/// A kernel-virtual address.
pub type Pptr = u64;

/// A CPU (local APIC) identifier.
pub type CpuId = u64;

/// A region `[start..end)` of kernel-virtual memory.  Empty when
/// `start == end`.
#[derive(Clone, Copy, PartialEq, Eq, Structural, Debug)]
pub struct Region {
    pub start: Pptr,
    pub end: Pptr,
}

/// A region `[start..end)` of physical memory addresses.  Empty when
/// `start == end`.
#[derive(Clone, Copy, PartialEq, Eq, Structural, Debug)]
pub struct PhysRegion {
    pub start: Paddr,
    pub end: Paddr,
}

/// A region `[start..end)` of user-virtual addresses.  Empty when
/// `start == end`.
#[derive(Clone, Copy, PartialEq, Eq, Structural, Debug)]
pub struct VirtRegion {
    pub start: VirtPtr,
    pub end: VirtPtr,
}

impl Default for Region {
    /// The empty region at address zero.
    fn default() -> (r: Self)
        ensures
            r.start == 0 && r.end == 0,
    {
        Region { start: 0, end: 0 }
    }
}

impl Default for PhysRegion {
    /// The empty region at address zero.
    fn default() -> (r: Self)
        ensures
            r.start == 0 && r.end == 0,
    {
        PhysRegion { start: 0, end: 0 }
    }
}

impl Default for VirtRegion {
    /// The empty region at address zero.
    fn default() -> (r: Self)
        ensures
            r.start == 0 && r.end == 0,
    {
        VirtRegion { start: 0, end: 0 }
    }
}

} // verus!
