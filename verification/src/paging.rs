//! Pure builders for the bootstrap page tables and the minimal descriptor
//! table used to enter long mode.
//!
//! The mode-transition code cannot detect or recover from a bad table, so
//! the contents are computed here as plain data with exact contracts; the
//! privileged loads (the page-table base register, the descriptor-table
//! register) stay outside the library.
use vstd::prelude::*;

verus! {

/// Entries per page-table level.
pub const PD_ENTRIES: usize = 512;

/// Entries of the bootstrap page directory: 2048 large-page entries cover
/// the whole 4 GiB that 32-bit mode could address.
pub const BOOT_PD_ENTRIES: usize = 2048;

/// Present + writable + user-accessible, the flags of the bootstrap
/// table-pointer entries.  User access is a bootstrap simplification,
/// re-tightened once the real permission model takes over.
pub const PTE_FLAGS: u64 = 0x7;

/// Present + writable + user-accessible + large page, the flags of the
/// bootstrap 2 MiB mapping entries.
pub const LARGE_PTE_FLAGS: u64 = 0x87;

/// The byte size of one 2 MiB large page.
pub const LARGE_PAGE_SIZE: u64 = 0x200000;

/// The packed form of a large-page directory entry: a 4 MiB-aligned base
/// address in the high bits, the flag bits below, the large-page bit
/// always set.
pub open spec fn spec_pde_word(
    base_addr: u32,
    pat: bool,
    avl: u8,
    global: bool,
    dirty: bool,
    accessed: bool,
    cache_disabled: bool,
    write_through: bool,
    super_user: bool,
    rw: bool,
    present: bool,
) -> u64 {
    ((base_addr & 0xffc00000) as u64 | ((pat as u64) << 12) | ((avl as u64) << 9) | ((
    global as u64) << 8) | (1u64 << 7) | ((dirty as u64) << 6) | ((accessed as u64) << 5) | ((
    cache_disabled as u64) << 4) | ((write_through as u64) << 3) | ((super_user as u64) << 2) | ((
    rw as u64) << 1) | (present as u64))
}

/// A page-directory entry of the 32-bit bootstrap, packed from its base
/// address and flag bits.
#[derive(Clone, Copy, PartialEq, Eq, Structural, Debug)]
pub struct Pde(pub u64);

impl Pde {
    /// Pack a large-page directory entry.  The present and write bits land
    /// in the two lowest bits and the large-page bit is always set.
    pub fn new(
        base_addr: u32,
        pat: bool,
        avl: u8,
        global: bool,
        dirty: bool,
        accessed: bool,
        cache_disabled: bool,
        write_through: bool,
        super_user: bool,
        rw: bool,
        present: bool,
    ) -> (r: Pde)
        ensures
            r.0 == spec_pde_word(
                base_addr,
                pat,
                avl,
                global,
                dirty,
                accessed,
                cache_disabled,
                write_through,
                super_user,
                rw,
                present,
            ),
            (r.0 & 1) == (present as u64),
            (r.0 & 2) == (rw as u64) << 1,
            (r.0 & 0x80) == 0x80,
    {
        let word = (base_addr & 0xffc00000) as u64 | ((pat as u64) << 12) | ((avl as u64) << 9) | (
        (global as u64) << 8) | (1u64 << 7) | ((dirty as u64) << 6) | ((accessed as u64) << 5) | ((
        cache_disabled as u64) << 4) | ((write_through as u64) << 3) | ((super_user as u64) << 2)
            | ((rw as u64) << 1) | (present as u64);
        proof {
            let b = (base_addr & 0xffc00000) as u64;
            let p = pat as u64;
            let v = avl as u64;
            let g = global as u64;
            let d = dirty as u64;
            let ac = accessed as u64;
            let cd = cache_disabled as u64;
            let ce = write_through as u64;
            let su = super_user as u64;
            let w = rw as u64;
            let pr = present as u64;
            assert((base_addr & 0xffc00000) as u64 & 0x3ffu64 == 0) by (bit_vector);
            assert(b & 0x3ffu64 == 0 && p <= 1 && v <= 255 && g <= 1 && d <= 1 && ac <= 1 && cd
                <= 1 && ce <= 1 && su <= 1 && w <= 1 && pr <= 1 ==> (((b | (p << 12) | (v << 9) | (
            g << 8) | (1u64 << 7) | (d << 6) | (ac << 5) | (cd << 4) | (ce << 3) | (su << 2) | (w
                << 1) | pr) & 1) == pr && ((b | (p << 12) | (v << 9) | (g << 8) | (1u64 << 7) | (d
                << 6) | (ac << 5) | (cd << 4) | (ce << 3) | (su << 2) | (w << 1) | pr) & 2) == (w
                << 1) && ((b | (p << 12) | (v << 9) | (g << 8) | (1u64 << 7) | (d << 6) | (ac << 5)
                | (cd << 4) | (ce << 3) | (su << 2) | (w << 1) | pr) & 0x80) == 0x80)) by (bit_vector);
        }
        Pde(word)
    }
}

/// The bootstrap page directory: 2048 large-page entries mapping the low
/// 4 GiB of physical memory one to one.
pub struct BootPD(pub Vec<Pde>);

impl BootPD {
    /// Build the identity mapping: entry `i` maps the 2 MiB chunk starting
    /// at `i * 2 MiB`, present, writable, user-accessible and large (the
    /// flag bits sit below the 2 MiB-aligned base, so the entry word is
    /// their sum).
    pub fn new_default() -> (r: BootPD)
        ensures
            r.0@.len() == BOOT_PD_ENTRIES,
            forall|j: int|
                0 <= j < BOOT_PD_ENTRIES ==> r.0@[j].0 == j * LARGE_PAGE_SIZE + LARGE_PTE_FLAGS,
    {
        let mut pd: Vec<Pde> = Vec::new();
        let mut entry: u64 = LARGE_PTE_FLAGS;
        let mut i: usize = 0;
        while i < BOOT_PD_ENTRIES
            invariant
                i <= BOOT_PD_ENTRIES,
                pd@.len() == i,
                entry == i * LARGE_PAGE_SIZE + LARGE_PTE_FLAGS,
                forall|j: int| 0 <= j < i ==> pd@[j].0 == j * LARGE_PAGE_SIZE + LARGE_PTE_FLAGS,
            decreases BOOT_PD_ENTRIES - i,
        {
            pd.push(Pde(entry));
            entry = entry + LARGE_PAGE_SIZE;
            i = i + 1;
        }
        BootPD(pd)
    }
}

/// Build the bootstrap top-level table: three identical entries point at
/// the second-level table — the identity mapping at index 0, the kernel's
/// physical-memory window at index 256, and the top slot at index 511 for
/// sign-extended compatibility addresses.  Everything else is absent.
pub fn boot_pml4_entries(pml3_paddr: u64) -> (r: Vec<u64>)
    requires
        pml3_paddr % 4096 == 0,
        pml3_paddr + PTE_FLAGS <= u64::MAX,
    ensures
        r@.len() == PD_ENTRIES,
        forall|j: int|
            0 <= j < PD_ENTRIES ==> r@[j] == (if j == 0 || j == 256 || j == 511 {
                (pml3_paddr + PTE_FLAGS) as u64
            } else {
                0u64
            }),
{
    let mut t: Vec<u64> = Vec::new();
    let mut i: usize = 0;
    while i < PD_ENTRIES
        invariant
            i <= PD_ENTRIES,
            t@.len() == i,
            pml3_paddr + PTE_FLAGS <= u64::MAX,
            forall|j: int|
                0 <= j < i ==> t@[j] == (if j == 0 || j == 256 || j == 511 {
                    (pml3_paddr + PTE_FLAGS) as u64
                } else {
                    0u64
                }),
        decreases PD_ENTRIES - i,
    {
        if i == 0 || i == 256 || i == 511 {
            t.push(pml3_paddr + PTE_FLAGS);
        } else {
            t.push(0);
        }
        i = i + 1;
    }
    t
}

/// Build the bootstrap third-level table: the four pages of the large-page
/// directory cover 1 GiB each at indices 0 to 3, and index 510 aliases the
/// first for sign-extended compatibility addresses.
pub fn boot_pml3_entries(pml2_paddr: u64) -> (r: Vec<u64>)
    requires
        pml2_paddr % 4096 == 0,
        pml2_paddr + 3 * 4096 + PTE_FLAGS <= u64::MAX,
    ensures
        r@.len() == PD_ENTRIES,
        forall|j: int|
            0 <= j < PD_ENTRIES ==> r@[j] == (if 0 <= j <= 3 {
                (pml2_paddr + j * 4096 + PTE_FLAGS) as u64
            } else if j == 510 {
                (pml2_paddr + PTE_FLAGS) as u64
            } else {
                0u64
            }),
{
    let mut t: Vec<u64> = Vec::new();
    let mut i: usize = 0;
    while i < PD_ENTRIES
        invariant
            i <= PD_ENTRIES,
            t@.len() == i,
            pml2_paddr + 3 * 4096 + PTE_FLAGS <= u64::MAX,
            forall|j: int|
                0 <= j < i ==> t@[j] == (if 0 <= j <= 3 {
                    (pml2_paddr + j * 4096 + PTE_FLAGS) as u64
                } else if j == 510 {
                    (pml2_paddr + PTE_FLAGS) as u64
                } else {
                    0u64
                }),
        decreases PD_ENTRIES - i,
    {
        if i <= 3 {
            t.push(pml2_paddr + (i as u64) * 4096 + PTE_FLAGS);
        } else if i == 510 {
            t.push(pml2_paddr + PTE_FLAGS);
        } else {
            t.push(0);
        }
        i = i + 1;
    }
    t
}

/// Pack one global-descriptor-table entry.  Base and limit are unused in
/// long mode and stay zero; only the flags byte (bits 48..55) and the
/// access byte (bits 40..47) matter.
pub fn new_gdt(flags: u8, access_byte: u8) -> (r: u64)
    ensures
        r == ((flags as u64) << 48) | ((access_byte as u64) << 40),
{
    ((flags as u64) << 48) | ((access_byte as u64) << 40)
}

/// The minimal 3-entry descriptor table for entering 64-bit mode: the
/// required null entry, a 64-bit code segment, and a data segment.
pub fn boot_gdt() -> (r: Vec<u64>)
    ensures
        r@.len() == 3,
        r@[0] == 0,
        r@[1] == 0x0020_9800_0000_0000u64,
        r@[2] == 0x0000_9000_0000_0000u64,
{
    let mut t: Vec<u64> = Vec::new();
    t.push(0);
    t.push(new_gdt(0x20, 0x98));
    t.push(new_gdt(0x00, 0x90));
    proof {
        assert(((0x20u64) << 48) | ((0x98u64) << 40) == 0x0020_9800_0000_0000u64) by (bit_vector);
        assert(((0x00u64) << 48) | ((0x90u64) << 40) == 0x0000_9000_0000_0000u64) by (bit_vector);
    }
    t
}

} // verus!
