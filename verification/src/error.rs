//! The fatal conditions the discovery pipeline can surface.
//!
//! There is no retry path anywhere in boot: every error here makes the
//! orchestrator halt with a diagnostic.  Capacity overflows in the
//! fixed-size lists are *not* errors of this kind; they are warnings and
//! discovery proceeds with what was captured, except where noted.
use vstd::prelude::*;

verus! {

/// A fatal discovery failure.
#[derive(Clone, Copy, PartialEq, Eq, Structural, Debug)]
pub enum BootError {
    /// The boot magic word was not the multiboot v1 bootloader magic.
    BadMagic,
    /// The info block's flags lack the basic lower/upper memory information.
    NoMemoryInfo,
    /// The info block's flags lack the boot-module information.
    NoModulesInfo,
    /// The module list is empty, so there is no root-task image.
    NoBootModule,
    /// A boot module's end address lies below its start address.
    InvalidModuleSize,
    /// A structure walk would read past the end of accessible memory.
    TruncatedInfo,
    /// The memory-map walk found more usable regions than the region list
    /// can hold.
    TooManyRegions,
    /// No root pointer signature was found in the BIOS window.
    AcpiNotFound,
    /// A root pointer structure failed its checksum.
    AcpiCorrupt,
    /// The table-of-tables pointer is null.
    AcpiRsdtNull,
    /// A description table contradicts its own declared layout (a header
    /// that does not fit its length, an entry outside memory, or a
    /// zero-length sub-record that would stall the walk).
    AcpiMalformed,
}

impl BootError {
    /// A fixed diagnostic line for the boot console.
    pub fn as_str(&self) -> &'static str {
        match self {
            BootError::BadMagic => "Unsupported bootloader magic (multiboot v2 not supported)",
            BootError::NoMemoryInfo => "Boot loader did not provide information about physical memory size",
            BootError::NoModulesInfo => "Boot loader did not provide information about boot modules",
            BootError::NoBootModule => "Expected at least 1 boot module (passed as initrd) for root process",
            BootError::InvalidModuleSize => "Invalid boot module size!",
            BootError::TruncatedInfo => "Boot information lies outside accessible memory",
            BootError::TooManyRegions => "Multiboot reported more memory map entries than fit in the bootinfo",
            BootError::AcpiNotFound => "BIOS: No ACPI support detected!",
            BootError::AcpiCorrupt => "BIOS: ACPI information corrupt!",
            BootError::AcpiRsdtNull => "RSDT pointer is null",
            BootError::AcpiMalformed => "ACPI: malformed description table",
        }
    }
}

} // verus!
