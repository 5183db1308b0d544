//! The fixed x86-64 virtual-memory layout and the physical windows the
//! discovery pipeline depends on.
use vstd::prelude::*;
use crate::basic_types::{Paddr, PhysRegion, Pptr};

verus! {

/// One past the highest user-virtual address, placed one page short of the
/// canonical-address split so user addresses never need sign extension.
pub const USER_TOP: u64 = 0x7FFF_FFFFFFFF;

/// The first physical address mapped into the kernel's physical memory
/// window.
pub const PADDR_BASE: Paddr = 0x00000000;

/// The base of the 1:1 physical memory mapping: the kernel window is
/// 2^39 bytes at the top of the 48-bit virtual range, so `2^48 - 2^39`.
pub const PPTR_BASE: Pptr = 0xffffff80_00000000;

/// The kernel binary sits in the bottom 1 GiB of the top 2 GiB of virtual
/// address space: `2^48 - 2^31`.
pub const PPTR_TOP: Pptr = 0xffffffff_80000000;

/// The highest physical address that fits in the kernel window.  Regions
/// beyond it are left to be handed out as device memory.
pub const PADDR_TOP: Paddr = PPTR_TOP - PPTR_BASE;

/// The physical load address of the kernel ELF image.
pub const KERNEL_ELF_PADDR_BASE: Paddr = 0x00100000;

/// The kernel ELF mapping starts directly after the physical memory window.
pub const KERNEL_ELF_BASE: Pptr = PPTR_TOP + KERNEL_ELF_PADDR_BASE;

/// The offset between the kernel ELF's virtual and physical addresses.
pub const KERNEL_ELF_BASE_OFFSET: u64 = KERNEL_ELF_BASE - KERNEL_ELF_PADDR_BASE;

/// Kernel devices are mapped at the start of the top 1 GiB: `2^48 - 2^30`.
pub const KDEV_BASE: Pptr = 0xffffffff_c0000000;

/// The log2 size of a page.
pub const PAGE_BITS: u32 = 12;

/// The log2 size of a large (2 MiB) page.
pub const LARGE_PAGE_BITS: u32 = 21;

/// The start of the BIOS memory window scanned for the ACPI root pointer.
pub const BIOS_PADDR_START: usize = 0xe0000;

/// One past the end of the BIOS memory window scanned for the ACPI root
/// pointer.
pub const BIOS_PADDR_END: usize = 0x100000;

/// The physical region covered by the kernel image, given the (link-time)
/// kernel-virtual address one past the image's end.
pub fn get_p_reg_kernel_img(kernel_elf_top: Pptr) -> (r: PhysRegion)
    requires
        kernel_elf_top >= KERNEL_ELF_BASE,
    ensures
        r.start == KERNEL_ELF_PADDR_BASE,
        r.end == kernel_elf_top - KERNEL_ELF_BASE_OFFSET,
{
    PhysRegion { start: KERNEL_ELF_PADDR_BASE, end: kernel_elf_top - KERNEL_ELF_BASE_OFFSET }
}

} // verus!
