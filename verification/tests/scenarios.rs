//! End-to-end discovery scenarios over synthetic boot memory images.
use bootsys::basic_types::PhysRegion;
use bootsys::boot::try_boot_sys;
use bootsys::error::BootError;
use bootsys::multiboot::MULTIBOOT_BOOTLOADER_MAGIC;

const MBI: usize = 0x1000;
const MODS: usize = 0x2000;
const RSDT: usize = 0x3000;
const MADT: usize = 0x4000;
const RSDP: usize = 0xe0000;

fn w32(buf: &mut Vec<u8>, off: usize, v: u32) {
    for k in 0..4 {
        buf[off + k] = ((v >> (8 * k)) & 0xff) as u8;
    }
}

fn balance(buf: &mut Vec<u8>, off: usize, len: usize, checksum_at: usize) {
    buf[checksum_at] = 0;
    let sum: u32 = buf[off..off + len].iter().map(|b| *b as u32).sum();
    buf[checksum_at] = ((256 - sum % 256) % 256) as u8;
}

/// A fresh memory image covering the BIOS window, with a multiboot info
/// block carrying `flags`, legacy memory sizes, and one boot module.
fn base_image(flags: u32) -> Vec<u8> {
    let mut mem = vec![0u8; 0x110000];
    w32(&mut mem, MBI, flags);
    w32(&mut mem, MBI + 4, 640); // mem_lower, KiB
    w32(&mut mem, MBI + 8, 0x3fc00); // mem_upper, KiB
    w32(&mut mem, MBI + 20, 1); // mods_count
    w32(&mut mem, MBI + 24, MODS as u32);
    w32(&mut mem, MODS, 0x200000); // mod_start
    w32(&mut mem, MODS + 4, 0x300000); // mod_end
    mem
}

/// Write a revision-0 root pointer at the BIOS window start, with a valid
/// base checksum, pointing at `rsdt`.
fn put_rsdp(mem: &mut Vec<u8>, rsdt: u32) {
    mem[RSDP..RSDP + 8].copy_from_slice(b"RSD PTR ");
    mem[RSDP + 9..RSDP + 15].copy_from_slice(b"BOOTIT");
    mem[RSDP + 15] = 0; // revision
    w32(mem, RSDP + 16, rsdt);
    balance(mem, RSDP, 20, RSDP + 8);
}

/// Write an RSDT at its fixed spot holding the given entry pointers.
fn put_rsdt(mem: &mut Vec<u8>, entries: &[u32]) {
    mem[RSDT..RSDT + 4].copy_from_slice(b"RSDT");
    w32(mem, RSDT + 4, (36 + 4 * entries.len()) as u32);
    for (i, e) in entries.iter().enumerate() {
        w32(mem, RSDT + 36 + 4 * i, *e);
    }
}

/// Write a MADT with two enabled local APICs, one disabled one, and one
/// I/O-APIC.
fn put_madt(mem: &mut Vec<u8>) {
    mem[MADT..MADT + 4].copy_from_slice(b"APIC");
    w32(mem, MADT + 36, 0xfee00000);
    w32(mem, MADT + 40, 1);
    let mut off = MADT + 44;
    for (id, enabled) in [(0u8, true), (1, false), (4, true)] {
        mem[off] = 0;
        mem[off + 1] = 8;
        mem[off + 2] = id;
        mem[off + 3] = id;
        w32(mem, off + 4, if enabled { 1 } else { 0 });
        off += 8;
    }
    mem[off] = 1;
    mem[off + 1] = 12;
    mem[off + 2] = 9;
    w32(mem, off + 4, 0xfec00000);
    w32(mem, off + 8, 0);
    off += 12;
    w32(mem, MADT + 4, (off - MADT) as u32);
}

#[test]
fn scenario_legacy_memory_fallback() {
    // Memory + modules flags, no memory map: discovery synthesizes one
    // region from the legacy lower/upper fields and succeeds.
    let mut mem = base_image(0x9);
    put_rsdp(&mut mem, RSDT as u32);
    put_rsdt(&mut mem, &[]);

    let bs = try_boot_sys(&mem, MULTIBOOT_BOOTLOADER_MAGIC, MBI).unwrap();
    assert_eq!(bs.mem_p_regs.len(), 1);
    assert_eq!(
        *bs.mem_p_regs.get(0),
        PhysRegion { start: 0x100000, end: 0x100000 + 0x3fc00 * 1024 }
    );
    assert_eq!(bs.boot_module_start, 0x200000);
    assert_eq!(bs.mods_end_paddr, 0x300000);
    assert_eq!(bs.mem_lower, 640);
    assert_eq!(bs.num_cpus, 0);
    assert_eq!(bs.num_ioapic, 0);
    assert_eq!(bs.acpi_rsdp.revision, 0);
    assert_eq!(bs.acpi_rsdp.rsdt_address, RSDT as u32);
    assert_eq!(bs.acpi_rsdp.signature.as_slice(), b"RSD PTR ".as_slice());
}

#[test]
fn scenario_missing_mods_flag_fails_before_acpi() {
    // No module flag: discovery fails fatally before any ACPI work; the
    // image holds no root pointer at all, yet the error is about modules.
    let mem = base_image(0x1);
    let r = try_boot_sys(&mem, MULTIBOOT_BOOTLOADER_MAGIC, MBI);
    assert!(matches!(r, Err(BootError::NoModulesInfo)));
}

#[test]
fn scenario_missing_memory_flag_is_fatal() {
    let mem = base_image(0x8);
    let r = try_boot_sys(&mem, MULTIBOOT_BOOTLOADER_MAGIC, MBI);
    assert!(matches!(r, Err(BootError::NoMemoryInfo)));
}

#[test]
fn scenario_madt_topology_extracted() {
    // A valid revision-0 root pointer, an RSDT with one MADT entry, two
    // enabled local APICs and one I/O-APIC.
    let mut mem = base_image(0x9);
    put_rsdp(&mut mem, RSDT as u32);
    put_rsdt(&mut mem, &[MADT as u32]);
    put_madt(&mut mem);

    let bs = try_boot_sys(&mem, MULTIBOOT_BOOTLOADER_MAGIC, MBI).unwrap();
    assert_eq!(bs.num_cpus, 2);
    assert_eq!(bs.cpus.as_slice(), &[0, 4]);
    assert_eq!(bs.num_ioapic, 1);
    assert_eq!(bs.ioapic_paddr.as_slice(), &[0xfec00000]);
}

#[test]
fn scenario_bad_rsdp_checksum_is_corrupt() {
    // The signature is present but the base checksum is wrong: discovery
    // reports corrupt ACPI information and never reaches the MADT.
    let mut mem = base_image(0x9);
    put_rsdp(&mut mem, RSDT as u32);
    put_rsdt(&mut mem, &[MADT as u32]);
    put_madt(&mut mem);
    mem[RSDP + 8] = mem[RSDP + 8].wrapping_add(1); // break the checksum

    let r = try_boot_sys(&mem, MULTIBOOT_BOOTLOADER_MAGIC, MBI);
    match r {
        Err(e) => {
            assert!(matches!(e, BootError::AcpiCorrupt));
            assert!(e.as_str().contains("corrupt"));
        }
        Ok(_) => panic!("expected corrupt ACPI information to be fatal"),
    }
}

#[test]
fn scenario_no_rsdp_is_not_found() {
    let mem = base_image(0x9);
    let r = try_boot_sys(&mem, MULTIBOOT_BOOTLOADER_MAGIC, MBI);
    assert!(matches!(r, Err(BootError::AcpiNotFound)));
}

#[test]
fn scenario_wrong_magic_is_fatal() {
    let mut mem = base_image(0x9);
    put_rsdp(&mut mem, RSDT as u32);
    put_rsdt(&mut mem, &[]);
    let r = try_boot_sys(&mem, 0x36d76289, MBI); // a multiboot v2 magic
    assert!(matches!(r, Err(BootError::BadMagic)));
}

#[test]
fn scenario_memory_map_over_legacy() {
    // With the memory-map flag set, the walk over the map wins over the
    // legacy fields.
    let mut mem = base_image(0x49);
    let mmap = 0x5000usize;
    w32(&mut mem, MBI + 44, 48); // two 24-byte records
    w32(&mut mem, MBI + 48, mmap as u32);
    // Record one: usable, 0x100000..0x180000.
    w32(&mut mem, mmap, 20);
    w32(&mut mem, mmap + 4, 0x100000);
    w32(&mut mem, mmap + 12, 0x80000);
    w32(&mut mem, mmap + 20, 1);
    // Record two: reserved, skipped.
    w32(&mut mem, mmap + 24, 20);
    w32(&mut mem, mmap + 28, 0x400000);
    w32(&mut mem, mmap + 36, 0x80000);
    w32(&mut mem, mmap + 44, 2);
    put_rsdp(&mut mem, RSDT as u32);
    put_rsdt(&mut mem, &[]);

    let bs = try_boot_sys(&mem, MULTIBOOT_BOOTLOADER_MAGIC, MBI).unwrap();
    assert_eq!(bs.mem_p_regs.len(), 1);
    assert_eq!(*bs.mem_p_regs.get(0), PhysRegion { start: 0x100000, end: 0x180000 });
}

#[test]
fn scenario_invalid_module_size_is_fatal() {
    let mut mem = base_image(0x9);
    w32(&mut mem, MODS, 0x300000); // start above end
    w32(&mut mem, MODS + 4, 0x200000);
    let r = try_boot_sys(&mem, MULTIBOOT_BOOTLOADER_MAGIC, MBI);
    assert!(matches!(r, Err(BootError::InvalidModuleSize)));
}

#[test]
fn scenario_zero_modules_is_fatal() {
    let mut mem = base_image(0x9);
    w32(&mut mem, MBI + 20, 0);
    let r = try_boot_sys(&mem, MULTIBOOT_BOOTLOADER_MAGIC, MBI);
    assert!(matches!(r, Err(BootError::NoBootModule)));
}
