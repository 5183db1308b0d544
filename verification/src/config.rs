//! Compile-time configuration knobs.
use vstd::prelude::*;

verus! {

/// Max number of CPU cores the boot-time enumeration will record.
pub const CONFIG_MAX_NUM_NODES: usize = 32;

/// The maximum number of I/O-APIC controllers recorded at boot.  They are
/// detected whether or not the I/O-APIC ends up as the final IRQ controller.
pub const CONFIG_MAX_NUM_IOAPIC: usize = 1;

/// The log2 size of the kernel stack.  There is no guard page below the
/// stack, so setting this too small causes memory corruption.
pub const CONFIG_KERNEL_STACK_BITS: u32 = 12;

/// Whether the kernel is built with the Meltdown mitigation (a separate
/// kernel address space with only a skim of the kernel mapped while user
/// code runs).
pub const CONFIG_KERNEL_SKIM_WINDOW: bool = true;

/// The graphics mode to request from the boot loader in the multiboot
/// header.  It is merely a hint; the loader is free to ignore it.
#[derive(Clone, Copy, PartialEq, Eq, Structural, Debug)]
pub enum ConfigGraphicsMode {
    Disabled,
    Text,
    Linear,
}

} // verus!
