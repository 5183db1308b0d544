//! The boot pipeline: read the multiboot state the loader left behind,
//! build the list of usable physical memory regions, run ACPI discovery,
//! and assemble the boot-state record handed to kernel initialization.
use vstd::prelude::*;
use vstd::arithmetic::power2::pow2;
use crate::acpi::{
    acpi_find_madt, acpi_init, acpi_madt_scan, spec_acpi_init, spec_locate_madt, spec_madt_scan,
    spec_table_root, AcpiRsdp,
};
use crate::basic_types::{CpuId, Paddr, PhysRegion};
use crate::bytes::{le32, le64, read_le_u32, read_le_u64};
use crate::config::{CONFIG_MAX_NUM_IOAPIC, CONFIG_MAX_NUM_NODES};
use crate::error::BootError;
use crate::fixedarr::FixedArr;
use crate::hardware::{BIOS_PADDR_END, BIOS_PADDR_START, PADDR_TOP, PAGE_BITS};
use crate::multiboot::{
    mbi_wf, module_end, module_start, parse_multiboot_info, read_module, MBI_MOD_ENTRY_SIZE,
    MULTIBOOT_BOOTLOADER_MAGIC, MULTIBOOT_INFO_MEMMAP, MULTIBOOT_INFO_MEMORY, MULTIBOOT_INFO_MODS,
};
use crate::utils::{
    lemma_round_down_bounds, lemma_round_up_bounds, spec_round_down, spec_round_up, NumUtils,
};

verus! {

/// The maximum number of free physical memory regions tracked at boot.
/// The value is a tuning knob: entries past it are dropped with a warning.
pub const MAX_NUM_FREEMEM_REG: usize = 16;

/// The fixed-capacity list of free physical memory regions.
pub type MemPRegs = FixedArr<PhysRegion, MAX_NUM_FREEMEM_REG>;

/// The lowest physical address handed out as regular memory; everything
/// below the first MiB is left to legacy BIOS and video uses.
pub const HIGHMEM_PADDR: Paddr = 0x100000;

/// What adding `reg` does to a region list: an empty region is elided, a
/// region entirely above the kernel window is ignored, a region reaching
/// past the window is clipped to it, and a push onto a full list is
/// rejected (`false`) leaving the list untouched.
pub open spec fn spec_add_region(regs: Seq<PhysRegion>, reg: PhysRegion) -> (Seq<PhysRegion>, bool) {
    if reg.start == reg.end {
        (regs, true)
    } else if reg.end > PADDR_TOP && reg.start > PADDR_TOP {
        (regs, true)
    } else {
        let clipped = PhysRegion {
            start: reg.start,
            end: if reg.end > PADDR_TOP {
                PADDR_TOP
            } else {
                reg.end
            },
        };
        if regs.len() < MAX_NUM_FREEMEM_REG {
            (regs.push(clipped), true)
        } else {
            (regs, false)
        }
    }
}

/// Add the physical memory region `reg` to `mem_p_regs`.
///
/// An empty region is silently ignored and costs no capacity.  Memory
/// entirely outside the kernel window is not an error either; it is left
/// to be handed out as device memory.  A region reaching beyond the window
/// is clipped to [`PADDR_TOP`].  The call fails only when a region would
/// not fit the fixed-size list, and the stored entries are never disturbed.
pub fn add_mem_phys_regs(mem_p_regs: &mut MemPRegs, reg: PhysRegion) -> (r: Result<(), ()>)
    requires
        old(mem_p_regs).wf(),
    ensures
        final(mem_p_regs).wf(),
        final(mem_p_regs)@ == spec_add_region(old(mem_p_regs)@, reg).0,
        (r is Ok) == spec_add_region(old(mem_p_regs)@, reg).1,
        reg.start == reg.end ==> final(mem_p_regs)@ == old(mem_p_regs)@ && r is Ok,
        reg.start > PADDR_TOP && reg.end > PADDR_TOP ==> final(mem_p_regs)@ == old(mem_p_regs)@
            && r is Ok,
        (reg.start != reg.end && !(reg.start > PADDR_TOP && reg.end > PADDR_TOP) && reg.end
            > PADDR_TOP && old(mem_p_regs)@.len() < MAX_NUM_FREEMEM_REG) ==> final(mem_p_regs)@
            == old(mem_p_regs)@.push(PhysRegion { start: reg.start, end: PADDR_TOP }),
        r is Err ==> final(mem_p_regs)@ == old(mem_p_regs)@,
{
    if reg.start == reg.end {
        return Ok(());
    }
    if reg.end > PADDR_TOP && reg.start > PADDR_TOP {
        return Ok(());
    }
    let clipped = PhysRegion {
        start: reg.start,
        end: if reg.end > PADDR_TOP {
            PADDR_TOP
        } else {
            reg.end
        },
    };
    match mem_p_regs.try_push(clipped) {
        Ok(()) => Ok(()),
        Err(_) => Err(()),
    }
}

/// The walk over the bootloader's memory-map buffer `[addr, end_addr)`,
/// threading the region list through each record.
///
/// Each record is read at the cursor (size word, base, length, type tag)
/// and the cursor advances by the record's own `size` field plus the 4
/// bytes of the size word itself — never a fixed stride.  A record of
/// usable type whose base lies between the first MiB and the kernel window
/// and whose length is at least a page becomes a region, with the base
/// rounded up and the end rounded down to page boundaries (the sum
/// saturating at the top of the address space).  The walk stops early when
/// a record would not fit the memory view (fatal) or a region would not
/// fit the list (reported; the caller proceeds with what was captured).
pub open spec fn spec_mem_map_walk(
    s: Seq<u8>,
    addr: int,
    end_addr: int,
    regs: Seq<PhysRegion>,
) -> (Seq<PhysRegion>, Option<BootError>)
    decreases end_addr - addr,
{
    if addr >= end_addr {
        (regs, None)
    } else if addr + 24 > s.len() {
        (regs, Some(BootError::TruncatedInfo))
    } else {
        let size = le32(s, addr);
        let mem_start = le64(s, addr + 4);
        let mem_len = le64(s, addr + 12);
        let m_type = le32(s, addr + 20);
        let usable = m_type == 1 && mem_start >= HIGHMEM_PADDR && mem_start <= PADDR_TOP
            && mem_len >= pow2(PAGE_BITS as nat);
        let end_sat = if mem_start + mem_len <= u64::MAX {
            mem_start + mem_len
        } else {
            u64::MAX as int
        };
        let step = size + 4;
        if usable {
            let reg = PhysRegion {
                start: spec_round_up(mem_start, PAGE_BITS as nat) as u64,
                end: spec_round_down(end_sat, PAGE_BITS as nat) as u64,
            };
            let (regs2, ok) = spec_add_region(regs, reg);
            if !ok {
                (regs2, Some(BootError::TooManyRegions))
            } else if addr + step >= end_addr {
                (regs2, None)
            } else {
                spec_mem_map_walk(s, addr + step, end_addr, regs2)
            }
        } else {
            if addr + step >= end_addr {
                (regs, None)
            } else {
                spec_mem_map_walk(s, addr + step, end_addr, regs)
            }
        }
    }
}

/// The memory-map walk can only end clean, truncated, or out of room.
pub proof fn lemma_mem_map_walk_status(s: Seq<u8>, addr: int, end_addr: int, regs: Seq<PhysRegion>)
    ensures
        ({
            let st = spec_mem_map_walk(s, addr, end_addr, regs).1;
            st is None || st == Some(BootError::TruncatedInfo) || st == Some(
                BootError::TooManyRegions,
            )
        }),
    decreases end_addr - addr,
{
    if addr >= end_addr {
    } else if addr + 24 > s.len() {
    } else {
        let size = le32(s, addr);
        let step = size + 4;
        if addr + step < end_addr {
            let mem_start = le64(s, addr + 4);
            let mem_len = le64(s, addr + 12);
            let m_type = le32(s, addr + 20);
            let usable = m_type == 1 && mem_start >= HIGHMEM_PADDR && mem_start <= PADDR_TOP
                && mem_len >= pow2(PAGE_BITS as nat);
            let end_sat = if mem_start + mem_len <= u64::MAX {
                mem_start + mem_len
            } else {
                u64::MAX as int
            };
            if usable {
                let reg = PhysRegion {
                    start: spec_round_up(mem_start, PAGE_BITS as nat) as u64,
                    end: spec_round_down(end_sat, PAGE_BITS as nat) as u64,
                };
                let (regs2, ok) = spec_add_region(regs, reg);
                if ok {
                    lemma_mem_map_walk_status(s, addr + step, end_addr, regs2);
                }
            } else {
                lemma_mem_map_walk_status(s, addr + step, end_addr, regs);
            }
        }
    }
}

/// Walk the memory-map buffer the bootloader reported at `base_addr` with
/// byte length `bytelen`, adding every usable record's page-aligned region
/// to `mem_p_regs`.
///
/// `Err(TooManyRegions)` means the fixed-size list filled up: the regions
/// collected so far are kept and the remaining records are lost, which the
/// caller reports as a warning.  `Err(TruncatedInfo)` means the buffer
/// lies outside accessible memory and is fatal.
pub fn parse_mem_map(mem: &[u8], mem_p_regs: &mut MemPRegs, bytelen: u32, base_addr: u32) -> (r:
    Result<(), BootError>)
    requires
        old(mem_p_regs).wf(),
    ensures
        final(mem_p_regs).wf(),
        final(mem_p_regs)@ == spec_mem_map_walk(
            mem@,
            base_addr as int,
            base_addr + bytelen,
            old(mem_p_regs)@,
        ).0,
        match r {
            Ok(()) => spec_mem_map_walk(
                mem@,
                base_addr as int,
                base_addr + bytelen,
                old(mem_p_regs)@,
            ).1 is None,
            Err(e) => spec_mem_map_walk(
                mem@,
                base_addr as int,
                base_addr + bytelen,
                old(mem_p_regs)@,
            ).1 == Some(e),
        },
{
    let ghost orig: Seq<PhysRegion> = mem_p_regs@;
    let ghost endg: int = base_addr + bytelen;
    let mlen: usize = mem.len();
    let end64: u64 = base_addr as u64 + bytelen as u64;
    let mut a64: u64 = base_addr as u64;
    let page_size: u64 = u64::bit(PAGE_BITS);
    while a64 < end64
        invariant
            mlen == mem@.len(),
            mem_p_regs.wf(),
            orig == old(mem_p_regs)@,
            endg == base_addr + bytelen,
            endg == end64 as int,
            page_size == pow2(PAGE_BITS as nat),
            spec_mem_map_walk(mem@, base_addr as int, endg, orig) == spec_mem_map_walk(
                mem@,
                a64 as int,
                endg,
                mem_p_regs@,
            ),
        decreases end64 - a64,
    {
        if mlen < 24 || a64 > (mlen - 24) as u64 {
            return Err(BootError::TruncatedInfo);
        }
        let addr = a64 as usize;
        let size = read_le_u32(mem, addr);
        let mem_start = read_le_u64(mem, addr + 4);
        let mem_len = read_le_u64(mem, addr + 12);
        let m_type = read_le_u32(mem, addr + 20);
        let usable = m_type == 1 && mem_start >= HIGHMEM_PADDR && mem_start <= PADDR_TOP
            && mem_len >= page_size;
        if usable {
            proof {
                vstd::arithmetic::power2::lemma2_to64();
                lemma_round_up_bounds(mem_start as int, PAGE_BITS as nat);
            }
            let rstart = mem_start.round_up(PAGE_BITS);
            let end_sat: u64 = if mem_len <= u64::MAX - mem_start {
                mem_start + mem_len
            } else {
                u64::MAX
            };
            proof {
                lemma_round_down_bounds(end_sat as int, PAGE_BITS as nat);
            }
            let rend = end_sat.round_down(PAGE_BITS);
            let reg = PhysRegion { start: rstart, end: rend };
            match add_mem_phys_regs(mem_p_regs, reg) {
                Ok(()) => (),
                Err(()) => {
                    return Err(BootError::TooManyRegions);
                },
            }
        }
        let step: u64 = size as u64 + 4;
        if end64 - a64 <= step {
            a64 = end64;
        } else {
            a64 = a64 + step;
        }
    }
    Ok(())
}

/// The walk over the boot-module list at `base` with `count` entries,
/// starting at entry `i` with `acc_end` the highest module end seen so
/// far.  Yields the highest end address of all modules, or the fatal
/// error: a list that runs outside the memory view, or a module whose end
/// lies below its start.
pub open spec fn spec_module_walk(s: Seq<u8>, base: int, count: int, i: int, acc_end: int) -> Result<
    int,
    BootError,
>
    decreases count - i,
{
    if i >= count {
        Ok(acc_end)
    } else if base + MBI_MOD_ENTRY_SIZE * i + MBI_MOD_ENTRY_SIZE > s.len() {
        Err(BootError::TruncatedInfo)
    } else {
        let mstart = module_start(s, base, i);
        let mend = module_end(s, base, i);
        if mend < mstart {
            Err(BootError::InvalidModuleSize)
        } else {
            spec_module_walk(
                s,
                base,
                count,
                i + 1,
                if mend > acc_end {
                    mend
                } else {
                    acc_end
                },
            )
        }
    }
}

/// The kernel's boot state: everything discovery learned, assembled once
/// and passed by value to kernel initialization, never mutated after
/// handoff.
pub struct BootState {
    /// Region of available physical memory on the platform.  Left empty by
    /// discovery; kernel initialization derives it from `mem_p_regs`.
    pub avail_p_reg: PhysRegion,
    /// Region containing the kernel image.  Left empty by discovery.
    pub kern_p_reg: PhysRegion,
    /// Number of I/O-APICs detected.
    pub num_ioapic: u32,
    /// Physical base addresses of the detected I/O-APICs.
    pub ioapic_paddr: FixedArr<Paddr, CONFIG_MAX_NUM_IOAPIC>,
    /// A byte-exact copy of the RSDP.
    pub acpi_rsdp: AcpiRsdp,
    /// Physical address where the boot modules end.
    pub mods_end_paddr: Paddr,
    /// Physical address of the first boot module, the root-task image.
    pub boot_module_start: Paddr,
    /// Number of detected CPUs.
    pub num_cpus: u32,
    /// Lower memory size in KiB, for the boot code of secondary cores.
    pub mem_lower: u32,
    /// The ids of the detected (enabled) CPUs.
    pub cpus: FixedArr<CpuId, CONFIG_MAX_NUM_NODES>,
    /// The usable physical memory regions.
    pub mem_p_regs: MemPRegs,
}

/// The mathematical content of a [`BootState`]: what each field must hold
/// as a function of the boot-time memory bytes.
pub struct BootStateView {
    pub mem_p_regs: Seq<PhysRegion>,
    pub mods_end_paddr: int,
    pub boot_module_start: int,
    pub mem_lower: int,
    pub rsdp_addr: int,
    pub cpus: Seq<CpuId>,
    pub ioapics: Seq<Paddr>,
}

/// The whole discovery pipeline over the info block at `mbi`, as a
/// function of the memory bytes: required flags, the module walk, the
/// region list (from the memory map, or synthesized from the legacy
/// lower/upper fields when the map is absent), then ACPI discovery and the
/// MADT topology.  Any fatal condition yields the error of the stage that
/// found it; a partial result is never produced.
pub open spec fn spec_try_boot_sys_mbi1(s: Seq<u8>, mbi: int) -> Result<BootStateView, BootError> {
    if !mbi_wf(s, mbi) {
        Err(BootError::TruncatedInfo)
    } else {
        let flags = le32(s, mbi) as u32;
        if flags & MULTIBOOT_INFO_MEMORY == 0 {
            Err(BootError::NoMemoryInfo)
        } else if flags & MULTIBOOT_INFO_MODS == 0 {
            Err(BootError::NoModulesInfo)
        } else {
            let mods_count = le32(s, mbi + 20);
            let mods_addr = le32(s, mbi + 24);
            if mods_count == 0 {
                Err(BootError::NoBootModule)
            } else {
                match spec_module_walk(s, mods_addr, mods_count, 0, 0) {
                    Err(e) => Err(e),
                    Ok(mods_end) => {
                        let regs_status = if flags & MULTIBOOT_INFO_MEMMAP != 0 {
                            spec_mem_map_walk(
                                s,
                                le32(s, mbi + 48),
                                le32(s, mbi + 48) + le32(s, mbi + 44),
                                Seq::empty(),
                            )
                        } else {
                            (
                                spec_add_region(
                                    Seq::empty(),
                                    PhysRegion {
                                        start: HIGHMEM_PADDR,
                                        end: spec_round_down(
                                            HIGHMEM_PADDR + le32(s, mbi + 8) * 1024,
                                            PAGE_BITS as nat,
                                        ) as u64,
                                    },
                                ).0,
                                None::<BootError>,
                            )
                        };
                        if regs_status.1 == Some(BootError::TruncatedInfo) {
                            Err(BootError::TruncatedInfo)
                        } else {
                            match spec_acpi_init(s, BIOS_PADDR_START as int, BIOS_PADDR_END as int) {
                                Err(e) => Err(e),
                                Ok(a) => {
                                    let root_esz = if s[a + 15] >= 2 {
                                        (le64(s, a + 24), 8int)
                                    } else {
                                        (le32(s, a + 16), 4int)
                                    };
                                    match spec_locate_madt(s, root_esz.0, root_esz.1) {
                                        Err(e) => Err(e),
                                        Ok(None) => Ok(
                                            BootStateView {
                                                mem_p_regs: regs_status.0,
                                                mods_end_paddr: mods_end,
                                                boot_module_start: module_start(s, mods_addr, 0),
                                                mem_lower: le32(s, mbi + 4),
                                                rsdp_addr: a,
                                                cpus: Seq::empty(),
                                                ioapics: Seq::empty(),
                                            },
                                        ),
                                        Ok(Some(m)) => match spec_madt_scan(s, m) {
                                            Err(e) => Err(e),
                                            Ok(topo) => Ok(
                                                BootStateView {
                                                    mem_p_regs: regs_status.0,
                                                    mods_end_paddr: mods_end,
                                                    boot_module_start: module_start(
                                                        s,
                                                        mods_addr,
                                                        0,
                                                    ),
                                                    mem_lower: le32(s, mbi + 4),
                                                    rsdp_addr: a,
                                                    cpus: topo.0,
                                                    ioapics: topo.1,
                                                },
                                            ),
                                        },
                                    }
                                },
                            }
                        }
                    },
                }
            }
        }
    }
}

/// Whether an exec [`BootState`] carries exactly the content of a
/// [`BootStateView`] over the memory bytes `s`, with the RSDP copy tied
/// byte-for-byte to the structure found at `rsdp_addr`.
pub open spec fn boot_state_matches(bs: BootState, v: BootStateView, s: Seq<u8>) -> bool {
    &&& bs.mem_p_regs@ == v.mem_p_regs
    &&& bs.mods_end_paddr == v.mods_end_paddr
    &&& bs.boot_module_start == v.boot_module_start
    &&& bs.mem_lower == v.mem_lower
    &&& bs.cpus@ == v.cpus
    &&& bs.num_cpus == v.cpus.len()
    &&& bs.ioapic_paddr@ == v.ioapics
    &&& bs.num_ioapic == v.ioapics.len()
    &&& bs.avail_p_reg.start == 0 && bs.avail_p_reg.end == 0
    &&& bs.kern_p_reg.start == 0 && bs.kern_p_reg.end == 0
    &&& bs.acpi_rsdp.signature@ == s.subrange(v.rsdp_addr, v.rsdp_addr + 8)
    &&& bs.acpi_rsdp.checksum == s[v.rsdp_addr + 8]
    &&& bs.acpi_rsdp.oem_id@ == s.subrange(v.rsdp_addr + 9, v.rsdp_addr + 15)
    &&& bs.acpi_rsdp.revision == s[v.rsdp_addr + 15]
    &&& bs.acpi_rsdp.rsdt_address == le32(s, v.rsdp_addr + 16)
    &&& bs.acpi_rsdp.revision > 0 ==> bs.acpi_rsdp.length == le32(s, v.rsdp_addr + 20)
        && bs.acpi_rsdp.xsdt_address == le64(s, v.rsdp_addr + 24) && bs.acpi_rsdp.extended_checksum
        == s[v.rsdp_addr + 32]
    &&& bs.acpi_rsdp.revision == 0 ==> bs.acpi_rsdp.length == 0 && bs.acpi_rsdp.xsdt_address == 0
        && bs.acpi_rsdp.extended_checksum == 0
}

/// Walk the boot-module list: check each module's bounds and return the
/// highest module end address together with the first module's start (the
/// root-task entry image).
#[verifier::rlimit(100)]
fn walk_modules(mem: &[u8], mods_addr: u32, mods_count: u32) -> (r: Result<(u64, u64), BootError>)
    requires
        mods_count > 0,
    ensures
        match r {
            Ok(pair) => spec_module_walk(mem@, mods_addr as int, mods_count as int, 0, 0) == Ok::<
                int,
                BootError,
            >(pair.0 as int) && pair.1 == module_start(mem@, mods_addr as int, 0),
            Err(e) => spec_module_walk(mem@, mods_addr as int, mods_count as int, 0, 0) == Err::<
                int,
                BootError,
            >(e),
        },
{
    let ghost s = mem@;
    let mlen: usize = mem.len();
    let mut mods_end_paddr: u64 = 0;
    let mut boot_module_start: u64 = 0;
    let mut i: u32 = 0;
    while i < mods_count
        invariant
            mlen == mem@.len(),
            s == mem@,
            i <= mods_count,
            spec_module_walk(s, mods_addr as int, mods_count as int, 0, 0) == spec_module_walk(
                s,
                mods_addr as int,
                mods_count as int,
                i as int,
                mods_end_paddr as int,
            ),
            i > 0 ==> boot_module_start == module_start(s, mods_addr as int, 0),
        decreases mods_count - i,
    {
        proof {
            assert(MBI_MOD_ENTRY_SIZE == 16);
        }
        let need: u64 = mods_addr as u64 + (MBI_MOD_ENTRY_SIZE as u64) * (i as u64)
            + MBI_MOD_ENTRY_SIZE as u64;
        if need > mlen as u64 {
            return Err(BootError::TruncatedInfo);
        }
        let m = read_module(mem, mods_addr as usize, i as usize);
        if m.mod_end < m.mod_start {
            return Err(BootError::InvalidModuleSize);
        }
        if i == 0 {
            boot_module_start = m.mod_start as u64;
        }
        if m.mod_end as u64 > mods_end_paddr {
            mods_end_paddr = m.mod_end as u64;
        }
        i = i + 1;
    }
    Ok((mods_end_paddr, boot_module_start))
}

/// Read the multiboot info block at `mbi` and run discovery: required
/// flags, the boot-module walk, the physical memory regions, ACPI and the
/// MADT topology, all combined into one boot-state record.  All-or-
/// nothing: any fatal condition yields an error and no partial state.
#[verifier::rlimit(100)]
pub fn try_boot_sys_mbi1(mem: &[u8], mbi: usize) -> (r: Result<BootState, BootError>)
    ensures
        match r {
            Ok(bs) => spec_try_boot_sys_mbi1(mem@, mbi as int) matches Ok(v)
                && boot_state_matches(bs, v, mem@),
            Err(e) => spec_try_boot_sys_mbi1(mem@, mbi as int) == Err::<BootStateView, _>(e),
        },
{
    let mlen: usize = mem.len();
    let info = match parse_multiboot_info(mem, mbi) {
        Ok(info) => info,
        Err(e) => {
            return Err(e);
        },
    };
    if info.flags & MULTIBOOT_INFO_MEMORY == 0 {
        return Err(BootError::NoMemoryInfo);
    }
    if info.flags & MULTIBOOT_INFO_MODS == 0 {
        return Err(BootError::NoModulesInfo);
    }
    if info.mods_count == 0 {
        return Err(BootError::NoBootModule);
    }

    // Walk the boot modules: remember where the first one (the root-task
    // image) starts and where the last byte of any of them ends.
    let ghost s = mem@;
    let mods_addr = info.mods_addr;
    let mods_count = info.mods_count;
    let (mods_end_paddr, boot_module_start) = match walk_modules(mem, mods_addr, mods_count) {
        Ok(pair) => pair,
        Err(e) => {
            return Err(e);
        },
    };

    // Initialize the usable physical memory regions: from the memory map
    // when the loader provided one, else synthesized from the legacy
    // lower/upper memory fields.
    let mut mem_p_regs: MemPRegs = FixedArr::new();
    if info.flags & MULTIBOOT_INFO_MEMMAP != 0 {
        proof {
            lemma_mem_map_walk_status(
                s,
                info.mmap_addr as int,
                info.mmap_addr + info.mmap_bytelength,
                Seq::empty(),
            );
        }
        match parse_mem_map(mem, &mut mem_p_regs, info.mmap_bytelength, info.mmap_addr) {
            Ok(()) => (),
            Err(BootError::TooManyRegions) => {
                // The loader reported more usable entries than the list
                // holds; the extra entries are dropped, not fatal.
            },
            Err(e) => {
                return Err(e);
            },
        }
    } else {
        // Synthesize one region from the legacy lower/upper memory fields.
        proof {
            vstd::arithmetic::power2::lemma2_to64();
            lemma_round_down_bounds(HIGHMEM_PADDR + info.mem_upper as int * 1024, PAGE_BITS as nat);
        }
        let upper_bytes: u64 = (info.mem_upper as u64) * 1024;
        let avail = PhysRegion {
            start: HIGHMEM_PADDR,
            end: (HIGHMEM_PADDR + upper_bytes).round_down(PAGE_BITS),
        };
        match add_mem_phys_regs(&mut mem_p_regs, avail) {
            Ok(()) => (),
            Err(()) => {
                return Err(BootError::TooManyRegions);
            },
        }
    }

    let ghost regs_status = if (le32(s, mbi as int) as u32) & MULTIBOOT_INFO_MEMMAP != 0 {
        spec_mem_map_walk(
            s,
            le32(s, mbi + 48),
            le32(s, mbi + 48) + le32(s, mbi + 44),
            Seq::empty(),
        )
    } else {
        (
            spec_add_region(
                Seq::empty(),
                PhysRegion {
                    start: HIGHMEM_PADDR,
                    end: spec_round_down(
                        HIGHMEM_PADDR + le32(s, mbi + 8) * 1024,
                        PAGE_BITS as nat,
                    ) as u64,
                },
            ).0,
            None::<BootError>,
        )
    };
    proof {
        assert(mem_p_regs@ == regs_status.0);
        assert(regs_status.1 != Some(BootError::TruncatedInfo));
    }

    // ACPI discovery: locate and validate the root pointer, then pull the
    // CPU and I/O-APIC topology out of the MADT if one is present.
    let acpi_rsdp = match acpi_init(mem, BIOS_PADDR_START, BIOS_PADDR_END) {
        Ok(rsdp) => rsdp,
        Err(e) => {
            return Err(e);
        },
    };
    let ghost a: int = spec_acpi_init(s, BIOS_PADDR_START as int, BIOS_PADDR_END as int)->Ok_0;
    let ghost root_esz: (int, int) = if s[a + 15] >= 2 {
        (le64(s, a + 24), 8int)
    } else {
        (le32(s, a + 16), 4int)
    };
    proof {
        assert(acpi_rsdp.revision == s[a + 15]);
        assert(spec_table_root(acpi_rsdp.revision, acpi_rsdp.rsdt_address, acpi_rsdp.xsdt_address)
            == root_esz);
    }
    let madt = match acpi_find_madt(mem, &acpi_rsdp) {
        Ok(m) => m,
        Err(e) => {
            return Err(e);
        },
    };
    let (cpus, ioapics): (
        FixedArr<CpuId, CONFIG_MAX_NUM_NODES>,
        FixedArr<Paddr, CONFIG_MAX_NUM_IOAPIC>,
    ) = match madt {
        None => (FixedArr::new(), FixedArr::new()),
        Some(m) => {
            match acpi_madt_scan(mem, m) {
                Ok(info) => (info.cpus, info.ioapics),
                Err(e) => {
                    return Err(e);
                },
            }
        },
    };

    let num_cpus = cpus.len() as u32;
    let num_ioapic = ioapics.len() as u32;
    proof {
        let v = BootStateView {
            mem_p_regs: regs_status.0,
            mods_end_paddr: mods_end_paddr as int,
            boot_module_start: boot_module_start as int,
            mem_lower: le32(s, mbi + 4),
            rsdp_addr: a,
            cpus: cpus@,
            ioapics: ioapics@,
        };
        assert(spec_try_boot_sys_mbi1(s, mbi as int) == Ok::<BootStateView, BootError>(v));
    }
    Ok(
        BootState {
            avail_p_reg: PhysRegion { start: 0, end: 0 },
            kern_p_reg: PhysRegion { start: 0, end: 0 },
            num_ioapic,
            ioapic_paddr: ioapics,
            acpi_rsdp,
            mods_end_paddr,
            boot_module_start,
            num_cpus,
            mem_lower: info.mem_lower,
            cpus,
            mem_p_regs,
        },
    )
}

/// The boot entry contract over the two machine words the bootloader
/// leaves in registers: the multiboot v1 magic and the physical address of
/// the info block.
pub open spec fn spec_try_boot_sys(s: Seq<u8>, multiboot_magic: u32, mbi: int) -> Result<
    BootStateView,
    BootError,
> {
    if multiboot_magic != MULTIBOOT_BOOTLOADER_MAGIC {
        Err(BootError::BadMagic)
    } else {
        spec_try_boot_sys_mbi1(s, mbi)
    }
}

/// The top-level discovery entry: check the bootloader magic, then decode
/// the info block and run the whole pipeline.  Any error is fatal and the
/// caller halts with its diagnostic.
pub fn try_boot_sys(mem: &[u8], multiboot_magic: u32, mbi: usize) -> (r: Result<
    BootState,
    BootError,
>)
    ensures
        match r {
            Ok(bs) => spec_try_boot_sys(mem@, multiboot_magic, mbi as int) matches Ok(v)
                && boot_state_matches(bs, v, mem@),
            Err(e) => spec_try_boot_sys(mem@, multiboot_magic, mbi as int) == Err::<
                BootStateView,
                _,
            >(e),
        },
{
    if multiboot_magic != MULTIBOOT_BOOTLOADER_MAGIC {
        return Err(BootError::BadMagic);
    }
    try_boot_sys_mbi1(mem, mbi)
}

} // verus!
