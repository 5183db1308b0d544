//! The multiboot v1 boot convention: the header embedded in the kernel
//! image for the bootloader, and the layout of the information block the
//! bootloader hands back at boot time.
use vstd::prelude::*;
use crate::bytes::le32;
use crate::config::ConfigGraphicsMode;
use crate::error::BootError;

verus! {

/// The magic word of the header embedded in the kernel image.
pub const MULTIBOOT_HEADER_MAGIC: u32 = 0x1BADB002;

/// The magic word a multiboot v1 bootloader passes to the kernel entry.
pub const MULTIBOOT_BOOTLOADER_MAGIC: u32 = 0x2BADB002;

/// Header flag: align all boot modules on 4 KiB page boundaries.
pub const MULTIBOOT_HEADER_ALIGN_MODULES: u32 = 0x1;

/// Header flag: the loader must pass memory information.
pub const MULTIBOOT_HEADER_MEMORY_INFO: u32 = 0x2;

/// Header flag: the loader must pass video information.
pub const MULTIBOOT_HEADER_VIDEO_MODE: u32 = 0x4;

/// The header's video-mode request derived from the configured graphics
/// mode: the flag bit to set, and the mode word (0 for linear graphics,
/// 1 for EGA text).
pub fn gfx_flags(mode: ConfigGraphicsMode) -> (r: (u32, u32))
    ensures
        mode is Disabled ==> r == (0u32, 0u32),
        mode is Text ==> r == (MULTIBOOT_HEADER_VIDEO_MODE, 0u32),
        mode is Linear ==> r == (MULTIBOOT_HEADER_VIDEO_MODE, 1u32),
{
    match mode {
        ConfigGraphicsMode::Disabled => (0, 0),
        ConfigGraphicsMode::Text => (MULTIBOOT_HEADER_VIDEO_MODE, 0),
        ConfigGraphicsMode::Linear => (MULTIBOOT_HEADER_VIDEO_MODE, 1),
    }
}

/// The header placed in its own section of the kernel image so a multiboot
/// loader can locate and validate the kernel.
///
/// The address fields are only read for non-ELF kernels and stay zero; the
/// video fields are only read when the video-mode flag is set.
pub struct MultibootHeader {
    /// Must be [`MULTIBOOT_HEADER_MAGIC`].
    pub magic: u32,
    /// Requested feature flags.
    pub flags: u32,
    /// Chosen so that `magic + flags + checksum` is 0 mod 2^32.
    pub checksum: u32,
    pub binary_header_addr: u32,
    pub binary_load_addr: u32,
    pub binary_load_end_addr: u32,
    pub binary_bss_end_addr: u32,
    pub binary_entry_addr: u32,
    /// 0 for linear graphics mode, 1 for EGA-standard text mode.
    pub graphics_mode_type: u32,
    pub graphics_width: u32,
    pub graphics_height: u32,
    pub graphics_depth: u32,
}

impl MultibootHeader {
    /// Build the header for the configured graphics mode, always asking for
    /// page-aligned modules and memory information.  The checksum field is
    /// chosen so the three words sum to zero mod 2^32, which is what the
    /// loader verifies.
    pub fn new(mode: ConfigGraphicsMode) -> (r: MultibootHeader)
        ensures
            r.magic == MULTIBOOT_HEADER_MAGIC,
            r.flags == MULTIBOOT_HEADER_ALIGN_MODULES | MULTIBOOT_HEADER_MEMORY_INFO | gfx_flag_bit(
                mode,
            ),
            (r.magic + r.flags + r.checksum) % 0x1_0000_0000 == 0,
            r.graphics_mode_type == gfx_mode_word(mode),
    {
        let (flag_bit, mode_word) = gfx_flags(mode);
        let flags = MULTIBOOT_HEADER_ALIGN_MODULES | MULTIBOOT_HEADER_MEMORY_INFO | flag_bit;
        proof {
            assert((MULTIBOOT_HEADER_ALIGN_MODULES | MULTIBOOT_HEADER_MEMORY_INFO | 0u32) == 3u32)
                by (bit_vector);
            assert((MULTIBOOT_HEADER_ALIGN_MODULES | MULTIBOOT_HEADER_MEMORY_INFO
                | MULTIBOOT_HEADER_VIDEO_MODE) == 7u32) by (bit_vector);
        }
        let checksum = u32::MAX - flags - MULTIBOOT_HEADER_MAGIC + 1;
        MultibootHeader {
            magic: MULTIBOOT_HEADER_MAGIC,
            flags,
            checksum,
            binary_header_addr: 0,
            binary_load_addr: 0,
            binary_load_end_addr: 0,
            binary_bss_end_addr: 0,
            binary_entry_addr: 0,
            graphics_mode_type: mode_word,
            graphics_width: 0,
            graphics_height: 0,
            graphics_depth: 0,
        }
    }
}

/// The flag bit the configured graphics mode contributes to the header.
pub open spec fn gfx_flag_bit(mode: ConfigGraphicsMode) -> u32 {
    if mode is Disabled {
        0u32
    } else {
        MULTIBOOT_HEADER_VIDEO_MODE
    }
}

/// The header's graphics-mode word for the configured graphics mode.
pub open spec fn gfx_mode_word(mode: ConfigGraphicsMode) -> u32 {
    if mode is Linear {
        1u32
    } else {
        0u32
    }
}

/// Info flag: basic lower/upper memory information is present.
pub const MULTIBOOT_INFO_MEMORY: u32 = 0x1;

/// Info flag: the kernel command line is present.
pub const MULTIBOOT_INFO_CMDLINE: u32 = 0x4;

/// Info flag: the boot-module list is present.
pub const MULTIBOOT_INFO_MODS: u32 = 0x8;

/// Info flag: a full memory map is present.
pub const MULTIBOOT_INFO_MEMMAP: u32 = 0x40;

/// Info flag: VBE video information is present.
pub const MULTIBOOT_INFO_VBE: u32 = 0x800;

/// Info flag: framebuffer information is present.
pub const MULTIBOOT_INFO_FRAMEBUFFER: u32 = 0x1000;

/// A memory-map record's type tag.
#[derive(Clone, Copy, PartialEq, Eq, Structural, Debug)]
pub enum MMapType {
    /// Memory free for use.
    Usable,
    /// Reserved memory.
    Reserved,
    /// ACPI-reclaimable memory.
    Acpi,
    /// Reserved memory that must be preserved on hibernation.
    AcpiNvs,
    /// Memory occupied by defective RAM modules.
    Bad,
}

impl MMapType {
    /// The tag value the bootloader writes for this type.
    pub fn code(self) -> (r: u32)
        ensures
            self is Usable ==> r == 1,
            self is Reserved ==> r == 2,
            self is Acpi ==> r == 3,
            self is AcpiNvs ==> r == 4,
            self is Bad ==> r == 5,
    {
        match self {
            MMapType::Usable => 1,
            MMapType::Reserved => 2,
            MMapType::Acpi => 3,
            MMapType::AcpiNvs => 4,
            MMapType::Bad => 5,
        }
    }
}

/// The byte size of the fixed part of the info block.
pub const MBI_SIZE: usize = 88;

/// The byte size of one entry of the boot-module list.
pub const MBI_MOD_ENTRY_SIZE: usize = 16;

/// The info block the bootloader hands the kernel, decoded from its
/// byte-exact layout.  Only the fields the boot pipeline consumes are kept;
/// pointers stay plain 32-bit physical addresses into the memory view.
pub struct MultibootBootInfo {
    /// Which of the remaining fields the loader populated.
    pub flags: u32,
    /// Available lower memory reported by the BIOS, in KiB.
    pub mem_lower: u32,
    /// Available upper memory reported by the BIOS, in KiB.
    pub mem_upper: u32,
    /// The number of boot modules.
    pub mods_count: u32,
    /// The physical address of the boot-module list.
    pub mods_addr: u32,
    /// The byte length of the memory-map buffer.
    pub mmap_bytelength: u32,
    /// The physical address of the memory-map buffer.
    pub mmap_addr: u32,
}

/// Whether the info block's fixed part lies inside the memory view.
pub open spec fn mbi_wf(s: Seq<u8>, mbi: int) -> bool {
    mbi >= 0 && mbi + MBI_SIZE <= s.len()
}

/// Decode the fixed part of the info block at `mbi`.
pub fn parse_multiboot_info(mem: &[u8], mbi: usize) -> (r: Result<MultibootBootInfo, BootError>)
    ensures
        match r {
            Ok(info) => {
                &&& mbi_wf(mem@, mbi as int)
                &&& info.flags == le32(mem@, mbi as int)
                &&& info.mem_lower == le32(mem@, mbi + 4)
                &&& info.mem_upper == le32(mem@, mbi + 8)
                &&& info.mods_count == le32(mem@, mbi + 20)
                &&& info.mods_addr == le32(mem@, mbi + 24)
                &&& info.mmap_bytelength == le32(mem@, mbi + 44)
                &&& info.mmap_addr == le32(mem@, mbi + 48)
            },
            Err(e) => !mbi_wf(mem@, mbi as int) && e == BootError::TruncatedInfo,
        },
{
    let mlen: usize = mem.len();
    if !(mbi <= mlen && MBI_SIZE <= mlen - mbi) {
        return Err(BootError::TruncatedInfo);
    }
    Ok(
        MultibootBootInfo {
            flags: crate::bytes::read_le_u32(mem, mbi),
            mem_lower: crate::bytes::read_le_u32(mem, mbi + 4),
            mem_upper: crate::bytes::read_le_u32(mem, mbi + 8),
            mods_count: crate::bytes::read_le_u32(mem, mbi + 20),
            mods_addr: crate::bytes::read_le_u32(mem, mbi + 24),
            mmap_bytelength: crate::bytes::read_le_u32(mem, mbi + 44),
            mmap_addr: crate::bytes::read_le_u32(mem, mbi + 48),
        },
    )
}

/// One entry of the boot-module list: the memory the module occupies goes
/// from `mod_start` to `mod_end - 1` inclusive, and `name` is the physical
/// address of its NUL-terminated command line.
#[derive(Clone, Copy, PartialEq, Eq, Structural, Debug)]
pub struct MultibootModule {
    pub mod_start: u32,
    pub mod_end: u32,
    pub name: u32,
}

/// The start address of the `i`-th module entry.
pub open spec fn module_start(s: Seq<u8>, base: int, i: int) -> int {
    le32(s, base + MBI_MOD_ENTRY_SIZE * i)
}

/// The end address of the `i`-th module entry.
pub open spec fn module_end(s: Seq<u8>, base: int, i: int) -> int {
    le32(s, base + MBI_MOD_ENTRY_SIZE * i + 4)
}

/// Decode the `i`-th entry of the boot-module list at `base`.
pub fn read_module(mem: &[u8], base: usize, i: usize) -> (r: MultibootModule)
    requires
        base + MBI_MOD_ENTRY_SIZE * i + MBI_MOD_ENTRY_SIZE <= mem@.len(),
    ensures
        r.mod_start == module_start(mem@, base as int, i as int),
        r.mod_end == module_end(mem@, base as int, i as int),
        r.name == le32(mem@, base + MBI_MOD_ENTRY_SIZE * i + 8),
{
    let mlen: usize = mem.len();
    let off = base + MBI_MOD_ENTRY_SIZE * i;
    MultibootModule {
        mod_start: crate::bytes::read_le_u32(mem, off),
        mod_end: crate::bytes::read_le_u32(mem, off + 4),
        name: crate::bytes::read_le_u32(mem, off + 8),
    }
}

} // verus!
