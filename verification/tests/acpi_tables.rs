//! Root-pointer location and table-walk behaviour: the 16-byte-step scan,
//! revision gating of the extended checksum and pointer width, and the
//! malformed-table conditions.
use bootsys::acpi::{acpi_find_madt, acpi_get_rsdp, acpi_init, rsdt_entries, validate_rsdp};
use bootsys::error::BootError;

fn w32(buf: &mut Vec<u8>, off: usize, v: u32) {
    for k in 0..4 {
        buf[off + k] = ((v >> (8 * k)) & 0xff) as u8;
    }
}

fn w64(buf: &mut Vec<u8>, off: usize, v: u64) {
    for k in 0..8 {
        buf[off + k] = ((v >> (8 * k)) & 0xff) as u8;
    }
}

fn balance(buf: &mut Vec<u8>, off: usize, len: usize, checksum_at: usize) {
    buf[checksum_at] = 0;
    let sum: u32 = buf[off..off + len].iter().map(|b| *b as u32).sum();
    buf[checksum_at] = ((256 - sum % 256) % 256) as u8;
}

fn put_rsdp_v2(mem: &mut Vec<u8>, at: usize, rsdt: u32, xsdt: u64) {
    mem[at..at + 8].copy_from_slice(b"RSD PTR ");
    mem[at + 15] = 2; // revision
    w32(mem, at + 16, rsdt);
    w32(mem, at + 20, 36); // length
    w64(mem, at + 24, xsdt);
    balance(mem, at, 20, at + 8);
    balance(mem, at, 36, at + 32);
}

#[test]
fn scan_probes_sixteen_byte_steps_only() {
    let mut mem = vec![0u8; 0x200];
    // A signature at an unaligned offset is not a candidate.
    mem[0x28..0x30].copy_from_slice(b"RSD PTR ");
    assert_eq!(acpi_get_rsdp(&mem, 0, 0x200), None);
    // At an aligned offset it is found.
    mem[0x40..0x48].copy_from_slice(b"RSD PTR ");
    assert_eq!(acpi_get_rsdp(&mem, 0, 0x200), Some(0x40));
}

#[test]
fn scan_first_match_wins() {
    let mut mem = vec![0u8; 0x200];
    mem[0x50..0x58].copy_from_slice(b"RSD PTR ");
    mem[0x100..0x108].copy_from_slice(b"RSD PTR ");
    assert_eq!(acpi_get_rsdp(&mem, 0, 0x200), Some(0x50));
    assert_eq!(acpi_get_rsdp(&mem, 0x60, 0x200), Some(0x100));
}

#[test]
fn revision_two_needs_extended_checksum() {
    let mut mem = vec![0u8; 0x200];
    put_rsdp_v2(&mut mem, 0x10, 0x100, 0x140);
    assert!(validate_rsdp(&mem, 0x10).is_ok());

    // Break a byte covered only by the extended checksum.
    mem[0x10 + 28] = mem[0x10 + 28].wrapping_add(1);
    balance(&mut mem, 0x10, 20, 0x10 + 8); // keep the base checksum valid
    assert!(matches!(validate_rsdp(&mem, 0x10), Err(BootError::AcpiCorrupt)));
}

#[test]
fn null_table_pointer_is_fatal() {
    let mut mem = vec![0u8; 0x200];
    mem[0..8].copy_from_slice(b"RSD PTR ");
    mem[15] = 0;
    w32(&mut mem, 16, 0); // null RSDT pointer
    balance(&mut mem, 0, 20, 8);
    assert!(matches!(validate_rsdp(&mem, 0), Err(BootError::AcpiRsdtNull)));

    // For revision 2 the XSDT pointer is the one that counts.
    let mut mem2 = vec![0u8; 0x200];
    put_rsdp_v2(&mut mem2, 0, 0x100, 0);
    assert!(matches!(validate_rsdp(&mem2, 0), Err(BootError::AcpiRsdtNull)));
}

#[test]
fn revision_two_walks_the_xsdt() {
    let mut mem = vec![0u8; 0x400];
    let xsdt = 0x200usize;
    let madt = 0x300usize;
    put_rsdp_v2(&mut mem, 0x10, 0xdead, xsdt as u64);
    // An XSDT with one 8-byte entry pointing at the MADT.
    mem[xsdt..xsdt + 4].copy_from_slice(b"XSDT");
    w32(&mut mem, xsdt + 4, 44);
    w64(&mut mem, xsdt + 36, madt as u64);
    mem[madt..madt + 4].copy_from_slice(b"APIC");
    w32(&mut mem, madt + 4, 44);

    let rsdp = acpi_init(&mem, 0x10, 0x20).unwrap();
    assert_eq!(rsdp.revision, 2);
    assert_eq!(rsdp.xsdt_address, xsdt as u64);
    assert_eq!(acpi_find_madt(&mem, &rsdp), Ok(Some(madt)));
}

#[test]
fn entry_outside_memory_is_malformed() {
    let mut mem = vec![0u8; 0x200];
    mem[0..8].copy_from_slice(b"RSD PTR ");
    mem[15] = 0;
    w32(&mut mem, 16, 0x100); // RSDT address
    balance(&mut mem, 0, 20, 8);
    mem[0x100..0x104].copy_from_slice(b"RSDT");
    w32(&mut mem, 0x104, 40); // one entry
    w32(&mut mem, 0x100 + 36, 0xfffffff0); // pointing far outside the view

    let rsdp = acpi_init(&mem, 0, 0x10).unwrap();
    assert!(matches!(acpi_find_madt(&mem, &rsdp), Err(BootError::AcpiMalformed)));
}

#[test]
fn no_madt_entry_yields_none() {
    let mut mem = vec![0u8; 0x200];
    mem[0..8].copy_from_slice(b"RSD PTR ");
    mem[15] = 0;
    w32(&mut mem, 16, 0x100);
    balance(&mut mem, 0, 20, 8);
    mem[0x100..0x104].copy_from_slice(b"RSDT");
    w32(&mut mem, 0x104, 40);
    w32(&mut mem, 0x100 + 36, 0x180); // an entry of another kind
    mem[0x180..0x184].copy_from_slice(b"FACP");

    let rsdp = acpi_init(&mem, 0, 0x10).unwrap();
    assert_eq!(acpi_find_madt(&mem, &rsdp), Ok(None));
}

#[test]
fn entry_listing_in_table_order() {
    let mut mem = vec![0u8; 0x400];
    let rsdt = 0x100usize;
    mem[rsdt..rsdt + 4].copy_from_slice(b"RSDT");
    w32(&mut mem, rsdt + 4, 44); // two 4-byte entries
    w32(&mut mem, rsdt + 36, 0x200);
    w32(&mut mem, rsdt + 40, 0x300);
    mem[0x200..0x204].copy_from_slice(b"FACP");
    mem[0x300..0x304].copy_from_slice(b"APIC");

    let entries = rsdt_entries(&mem, rsdt, 4).unwrap();
    assert_eq!(entries.len(), 2);
    assert_eq!(entries[0].signature.as_slice(), b"FACP".as_slice());
    assert_eq!(entries[0].address, 0x200);
    assert_eq!(entries[1].signature.as_slice(), b"APIC".as_slice());
    assert_eq!(entries[1].address, 0x300);
}
