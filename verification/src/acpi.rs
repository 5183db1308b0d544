//! ACPI boot-time discovery: checksums, the RSDP scan, the RSDT entry walk
//! and the MADT CPU / I/O-APIC extraction.
//!
//! All table reads go through the bounds-checked byte view of low physical
//! memory; nothing here assumes alignment, an OS, or a heap.
use vstd::prelude::*;
use vstd::arithmetic::div_mod::{lemma_add_mod_noop, lemma_mod_bound};
use crate::bytes::{bytes_eq_at, le32, le64, read_le_u32, read_le_u64, read_u8};
use crate::error::BootError;
use crate::basic_types::{CpuId, Paddr};
use crate::config::{CONFIG_MAX_NUM_IOAPIC, CONFIG_MAX_NUM_NODES};
use crate::fixedarr::FixedArr;

verus! {

/// The size of the revision-0 root pointer structure, covered by the base
/// checksum.
pub const ACPI_V1_SIZE: usize = 20;

/// The size of the revision-2 (extended) root pointer structure, covered by
/// the extended checksum.
pub const ACPI_V2_SIZE: usize = 36;

/// The sum of a byte sequence as an unbounded integer.
pub open spec fn byte_sum(s: Seq<u8>) -> int
    decreases s.len(),
{
    if s.len() == 0 {
        0
    } else {
        byte_sum(s.drop_last()) + s.last()
    }
}

/// Replacing one byte moves the sum by exactly the difference of the bytes.
pub proof fn lemma_byte_sum_update(s: Seq<u8>, i: int, v: u8)
    requires
        0 <= i < s.len(),
    ensures
        byte_sum(s.update(i, v)) == byte_sum(s) - s[i] + v,
    decreases s.len(),
{
    let t = s.update(i, v);
    if i == s.len() - 1 {
        assert(t.drop_last() =~= s.drop_last());
        assert(t.last() == v);
    } else {
        assert(t.drop_last() =~= s.drop_last().update(i, v));
        lemma_byte_sum_update(s.drop_last(), i, v);
        assert(t.last() == s.last());
    }
}

/// Law: a mod-256 checksum detects every single-byte change.  Mutating one
/// byte of a sequence always changes the sum's residue mod 256, so a
/// sequence that summed to zero no longer does.
pub proof fn lemma_checksum_detects_single_byte_change(s: Seq<u8>, i: int, v: u8)
    requires
        0 <= i < s.len(),
        v != s[i],
    ensures
        byte_sum(s.update(i, v)) % 256 != byte_sum(s) % 256,
{
    lemma_byte_sum_update(s, i, v);
    let a = byte_sum(s);
    let d = v - s[i];
    lemma_add_mod_noop(a, d, 256);
    lemma_mod_bound(a, 256);
    lemma_mod_bound(d, 256);
    assert(d % 256 != 0) by {
        if d > 0 {
            assert(d % 256 == d);
        } else {
            assert(d % 256 == d + 256);
        }
    }
    assert((a % 256 + d % 256) % 256 != a % 256) by {
        let r = a % 256;
        let e = d % 256;
        if r + e < 256 {
            assert((r + e) % 256 == r + e);
        } else {
            assert((r + e) % 256 == r + e - 256);
        }
    }
}

/// The mod-256 sum of the `len` bytes starting at `off`.
pub fn acpi_calc_checksum(mem: &[u8], off: usize, len: usize) -> (r: u8)
    requires
        off + len <= mem@.len(),
    ensures
        r == byte_sum(mem@.subrange(off as int, off + len)) % 256,
{
    let ghost sub = mem@.subrange(off as int, off + len);
    let mlen: usize = mem.len();
    let mut checksum: u8 = 0;
    let mut i: usize = 0;
    while i < len
        invariant
            off + len <= mlen,
            mlen == mem@.len(),
            i <= len,
            sub == mem@.subrange(off as int, off + len),
            checksum == byte_sum(sub.take(i as int)) % 256,
        decreases len - i,
    {
        let b = mem[off + i];
        proof {
            assert(sub.take(i + 1).drop_last() =~= sub.take(i as int));
            assert(sub.take(i + 1).last() == b);
            lemma_add_mod_noop(byte_sum(sub.take(i as int)), b as int, 256);
            lemma_mod_bound(byte_sum(sub.take(i + 1)), 256);
        }
        checksum = ((checksum as u16 + b as u16) % 256) as u8;
        i = i + 1;
    }
    proof {
        assert(sub.take(len as int) =~= sub);
    }
    checksum
}

/// Whether the `len` bytes at `off` sum to zero mod 256 — the validity
/// condition every ACPI structure's checksum field is chosen to satisfy.
pub fn checksum_valid(mem: &[u8], off: usize, len: usize) -> (r: bool)
    requires
        off + len <= mem@.len(),
    ensures
        r <==> byte_sum(mem@.subrange(off as int, off + len)) % 256 == 0,
{
    acpi_calc_checksum(mem, off, len) == 0
}

/// The 8-byte root pointer signature, "RSD PTR ".
pub open spec fn rsdp_sig() -> Seq<u8> {
    seq![0x52u8, 0x53u8, 0x44u8, 0x20u8, 0x50u8, 0x54u8, 0x52u8, 0x20u8]
}

/// Build the signature as bytes for run-time comparison.
fn rsdp_signature_bytes() -> (r: Vec<u8>)
    ensures
        r@ =~= rsdp_sig(),
{
    let mut v: Vec<u8> = Vec::new();
    v.push(0x52);
    v.push(0x53);
    v.push(0x44);
    v.push(0x20);
    v.push(0x50);
    v.push(0x54);
    v.push(0x52);
    v.push(0x20);
    v
}

/// A candidate root pointer: the signature matches at `addr` and the whole
/// base structure lies inside the memory view.
pub open spec fn rsdp_sig_at(s: Seq<u8>, addr: int) -> bool {
    &&& addr + ACPI_V1_SIZE <= s.len()
    &&& s.subrange(addr, addr + 8) == rsdp_sig()
}

/// The first 16-byte-aligned step in `[addr, end)` whose bytes carry the
/// root pointer signature.
pub open spec fn spec_rsdp_scan(s: Seq<u8>, addr: int, end: int) -> Option<int>
    decreases end - addr,
{
    if addr >= end {
        None
    } else if rsdp_sig_at(s, addr) {
        Some(addr)
    } else if addr + 16 >= end {
        None
    } else {
        spec_rsdp_scan(s, addr + 16, end)
    }
}

/// Scan the BIOS memory window in 16-byte steps for the root pointer
/// signature.  The root pointer is always 16-byte aligned, so only those
/// offsets are candidates; the first signature hit wins.
pub fn acpi_get_rsdp(mem: &[u8], start: usize, end: usize) -> (r: Option<usize>)
    ensures
        match r {
            Some(a) => {
                &&& Some(a as int) == spec_rsdp_scan(mem@, start as int, end as int)
                &&& start <= a < end
                &&& rsdp_sig_at(mem@, a as int)
            },
            None => spec_rsdp_scan(mem@, start as int, end as int) is None,
        },
{
    let mlen: usize = mem.len();
    let sig = rsdp_signature_bytes();
    let mut addr = start;
    while addr < end
        invariant
            mlen == mem@.len(),
            sig@ =~= rsdp_sig(),
            start <= addr,
            spec_rsdp_scan(mem@, start as int, end as int) == spec_rsdp_scan(
                mem@,
                addr as int,
                end as int,
            ),
        decreases end - addr,
    {
        if addr <= mlen && ACPI_V1_SIZE <= mlen - addr {
            if bytes_eq_at(mem, addr, sig.as_slice()) {
                assert(rsdp_sig_at(mem@, addr as int));
                return Some(addr);
            }
        }
        proof {
            assert(!rsdp_sig_at(mem@, addr as int));
        }
        if end - addr <= 16 {
            assert(spec_rsdp_scan(mem@, end as int, end as int) is None);
            addr = end;
        } else {
            addr = addr + 16;
        }
    }
    None
}

/// A byte-exact copy of the Root System Description Pointer, taken once at
/// discovery and never mutated.
pub struct AcpiRsdp {
    /// The 8 signature bytes, "RSD PTR ".
    pub signature: Vec<u8>,
    /// Chosen so that the first 20 bytes of the structure sum to 0 mod 256.
    pub checksum: u8,
    /// The 6 OEM identification bytes.
    pub oem_id: Vec<u8>,
    pub revision: u8,
    /// The legacy 32-bit pointer to the table of tables.  Valid for every
    /// revision and sufficient to bring the kernel up.
    pub rsdt_address: u32,
    /// The remaining fields exist only for revision >= 2; they read as zero
    /// for a revision-0 structure.
    pub length: u32,
    pub xsdt_address: u64,
    pub extended_checksum: u8,
}

/// Copy the revision-0 part of the root pointer structure at `addr` out of
/// memory, with the extended fields zeroed.
fn parse_rsdp_v1(mem: &[u8], addr: usize) -> (r: AcpiRsdp)
    requires
        addr + ACPI_V1_SIZE <= mem@.len(),
    ensures
        r.signature@ =~= mem@.subrange(addr as int, addr + 8),
        r.checksum == mem@[addr + 8],
        r.oem_id@ =~= mem@.subrange(addr + 9, addr + 15),
        r.revision == mem@[addr + 15],
        r.rsdt_address == le32(mem@, addr + 16),
        r.length == 0 && r.xsdt_address == 0 && r.extended_checksum == 0,
{
    let mlen: usize = mem.len();
    AcpiRsdp {
        signature: crate::bytes::bytes_at(mem, addr, 8),
        checksum: read_u8(mem, addr + 8),
        oem_id: crate::bytes::bytes_at(mem, addr + 9, 6),
        revision: read_u8(mem, addr + 15),
        rsdt_address: read_le_u32(mem, addr + 16),
        length: 0,
        xsdt_address: 0,
        extended_checksum: 0,
    }
}

/// Copy the full extended root pointer structure at `addr` out of memory.
fn parse_rsdp_v2(mem: &[u8], addr: usize) -> (r: AcpiRsdp)
    requires
        addr + ACPI_V2_SIZE <= mem@.len(),
    ensures
        r.signature@ =~= mem@.subrange(addr as int, addr + 8),
        r.checksum == mem@[addr + 8],
        r.oem_id@ =~= mem@.subrange(addr + 9, addr + 15),
        r.revision == mem@[addr + 15],
        r.rsdt_address == le32(mem@, addr + 16),
        r.length == le32(mem@, addr + 20),
        r.xsdt_address == le64(mem@, addr + 24),
        r.extended_checksum == mem@[addr + 32],
{
    let mlen: usize = mem.len();
    AcpiRsdp {
        signature: crate::bytes::bytes_at(mem, addr, 8),
        checksum: read_u8(mem, addr + 8),
        oem_id: crate::bytes::bytes_at(mem, addr + 9, 6),
        revision: read_u8(mem, addr + 15),
        rsdt_address: read_le_u32(mem, addr + 16),
        length: read_le_u32(mem, addr + 20),
        xsdt_address: read_le_u64(mem, addr + 24),
        extended_checksum: read_u8(mem, addr + 32),
    }
}

/// The validity of the root pointer structure at `a`: the base checksum
/// must hold; when the revision announces the extended structure, it must
/// fit the view and its extended checksum must hold too; and the pointer
/// the revision selects (RSDT below revision 2, XSDT from it on) must not
/// be null.
pub open spec fn spec_validate_rsdp(s: Seq<u8>, a: int) -> Result<(), BootError> {
    if byte_sum(s.subrange(a, a + ACPI_V1_SIZE as int)) % 256 != 0 {
        Err(BootError::AcpiCorrupt)
    } else if s[a + 15] > 0 && !(a + ACPI_V2_SIZE as int <= s.len() && byte_sum(
        s.subrange(a, a + ACPI_V2_SIZE as int),
    ) % 256 == 0) {
        Err(BootError::AcpiCorrupt)
    } else if (s[a + 15] < 2 && le32(s, a + 16) == 0) || (s[a + 15] >= 2 && le64(s, a + 24)
        == 0) {
        Err(BootError::AcpiRsdtNull)
    } else {
        Ok(())
    }
}

/// The outcome of locating and validating the root pointer over the bytes
/// of the BIOS window: the address of the validated structure, or the fatal
/// error.
pub open spec fn spec_acpi_init(s: Seq<u8>, start: int, end: int) -> Result<int, BootError> {
    match spec_rsdp_scan(s, start, end) {
        None => Err(BootError::AcpiNotFound),
        Some(a) => match spec_validate_rsdp(s, a) {
            Err(e) => Err(e),
            Ok(()) => Ok(a),
        },
    }
}

/// Validate the root pointer structure found at `addr`: the base checksum
/// must hold, the extended checksum too when the revision announces the
/// extended structure, and the table-of-tables pointer must not be null.
pub fn validate_rsdp(mem: &[u8], addr: usize) -> (r: Result<(), BootError>)
    requires
        rsdp_sig_at(mem@, addr as int),
    ensures
        r == spec_validate_rsdp(mem@, addr as int),
{
    let mlen: usize = mem.len();
    if !checksum_valid(mem, addr, ACPI_V1_SIZE) {
        return Err(BootError::AcpiCorrupt);
    }
    let revision = read_u8(mem, addr + 15);
    if revision > 0 {
        if !(addr <= mlen && ACPI_V2_SIZE <= mlen - addr) {
            return Err(BootError::AcpiCorrupt);
        }
        if !checksum_valid(mem, addr, ACPI_V2_SIZE) {
            return Err(BootError::AcpiCorrupt);
        }
    }
    if revision < 2 {
        let rsdt_address = read_le_u32(mem, addr + 16);
        if rsdt_address == 0 {
            return Err(BootError::AcpiRsdtNull);
        }
    } else {
        let xsdt_address = read_le_u64(mem, addr + 24);
        if xsdt_address == 0 {
            return Err(BootError::AcpiRsdtNull);
        }
    }
    Ok(())
}

/// Locate the root pointer in the BIOS window `[start, end)` of the memory
/// view, validate it, and hand back a by-value copy.
pub fn acpi_init(mem: &[u8], start: usize, end: usize) -> (r: Result<AcpiRsdp, BootError>)
    ensures
        match r {
            Ok(rsdp) => {
                &&& spec_acpi_init(mem@, start as int, end as int) is Ok
                &&& {
                    let a = spec_acpi_init(mem@, start as int, end as int)->Ok_0;
                    &&& rsdp.signature@ =~= mem@.subrange(a, a + 8)
                    &&& rsdp.checksum == mem@[a + 8]
                    &&& rsdp.oem_id@ =~= mem@.subrange(a + 9, a + 15)
                    &&& rsdp.revision == mem@[a + 15]
                    &&& rsdp.rsdt_address == le32(mem@, a + 16)
                    &&& rsdp.revision > 0 ==> rsdp.length == le32(mem@, a + 20)
                        && rsdp.xsdt_address == le64(mem@, a + 24) && rsdp.extended_checksum
                        == mem@[a + 32]
                    &&& rsdp.revision == 0 ==> rsdp.length == 0 && rsdp.xsdt_address == 0
                        && rsdp.extended_checksum == 0
                }
            },
            Err(e) => spec_acpi_init(mem@, start as int, end as int) == Err::<int, BootError>(e),
        },
{
    let rsdp_addr = match acpi_get_rsdp(mem, start, end) {
        Some(a) => a,
        None => {
            return Err(BootError::AcpiNotFound);
        },
    };
    match validate_rsdp(mem, rsdp_addr) {
        Ok(()) => (),
        Err(e) => {
            return Err(e);
        },
    }
    let mlen: usize = mem.len();
    let revision = read_u8(mem, rsdp_addr + 15);
    if revision > 0 {
        Ok(parse_rsdp_v2(mem, rsdp_addr))
    } else {
        Ok(parse_rsdp_v1(mem, rsdp_addr))
    }
}

/// The size of a generic System Description Table header.
pub const ACPI_SDT_HEADER_SIZE: usize = 36;

/// The size of the MADT's fixed part: the table header followed by the
/// local-APIC base address and the global flags.
pub const MADT_HEADER_SIZE: usize = 44;

/// The byte-length field of the table header at `t`.
pub open spec fn sdt_length(s: Seq<u8>, t: int) -> int {
    le32(s, t + 4)
}

/// A table of tables that fits its own declared length inside the memory
/// view and is long enough to hold a header at all.
pub open spec fn rsdt_wf(s: Seq<u8>, t: int) -> bool {
    &&& t >= 0
    &&& t + ACPI_SDT_HEADER_SIZE <= s.len()
    &&& sdt_length(s, t) >= ACPI_SDT_HEADER_SIZE
    &&& t + sdt_length(s, t) <= s.len()
}

/// The number of entry pointers the table of tables declares, derived from
/// its byte length; `esz` is 4 for the RSDT and 8 for the XSDT.
pub open spec fn sdt_entry_count(s: Seq<u8>, t: int, esz: int) -> int {
    (sdt_length(s, t) - ACPI_SDT_HEADER_SIZE) / esz
}

/// The `i`-th entry pointer of the table of tables, read unaligned.
pub open spec fn sdt_entry(s: Seq<u8>, t: int, i: int, esz: int) -> int {
    if esz == 4 {
        le32(s, t + ACPI_SDT_HEADER_SIZE + 4 * i)
    } else {
        le64(s, t + ACPI_SDT_HEADER_SIZE + 8 * i)
    }
}

/// The 4-byte signature of the MADT, "APIC".
pub open spec fn madt_sig() -> Seq<u8> {
    seq![0x41u8, 0x50u8, 0x49u8, 0x43u8]
}

/// Build the MADT signature as bytes for run-time comparison.
fn madt_signature_bytes() -> (r: Vec<u8>)
    ensures
        r@ =~= madt_sig(),
{
    let mut v: Vec<u8> = Vec::new();
    v.push(0x41);
    v.push(0x50);
    v.push(0x49);
    v.push(0x43);
    v
}

/// Walk the entry pointers from index `i` on, looking for the first table
/// whose header carries `sig`.  An entry whose pointed-to signature cannot
/// be read from the memory view makes the whole table malformed.
pub open spec fn spec_find_table(s: Seq<u8>, t: int, esz: int, sig: Seq<u8>, i: int) -> Result<
    Option<int>,
    BootError,
>
    decreases sdt_entry_count(s, t, esz) - i,
{
    if i >= sdt_entry_count(s, t, esz) {
        Ok(None)
    } else {
        let e = sdt_entry(s, t, i, esz);
        if e + 4 > s.len() {
            Err(BootError::AcpiMalformed)
        } else if s.subrange(e, e + 4) == sig {
            Ok(Some(e))
        } else {
            spec_find_table(s, t, esz, sig, i + 1)
        }
    }
}

/// Walk the table of tables at `table` and return the address of the first
/// entry whose header signature equals `sig`, reading every entry pointer
/// byte-by-byte since the entry array is not guaranteed aligned.
pub fn find_table(mem: &[u8], table: usize, entry_size: usize, sig: &[u8]) -> (r: Result<
    Option<usize>,
    BootError,
>)
    requires
        rsdt_wf(mem@, table as int),
        entry_size == 4 || entry_size == 8,
        sig@.len() == 4,
    ensures
        match r {
            Ok(Some(e)) => spec_find_table(mem@, table as int, entry_size as int, sig@, 0)
                == Ok::<Option<int>, BootError>(Some(e as int)),
            Ok(None) => spec_find_table(mem@, table as int, entry_size as int, sig@, 0)
                == Ok::<Option<int>, BootError>(None),
            Err(er) => spec_find_table(mem@, table as int, entry_size as int, sig@, 0)
                == Err::<Option<int>, BootError>(er),
        },
{
    let mlen: usize = mem.len();
    let length = read_le_u32(mem, table + 4) as usize;
    let count = (length - ACPI_SDT_HEADER_SIZE) / entry_size;
    proof {
        vstd::arithmetic::div_mod::lemma_fundamental_div_mod(
            length - ACPI_SDT_HEADER_SIZE,
            entry_size as int,
        );
        lemma_mod_bound(length - ACPI_SDT_HEADER_SIZE, entry_size as int);
    }
    let mut i: usize = 0;
    let mut off: usize = ACPI_SDT_HEADER_SIZE;
    while i < count
        invariant
            mlen == mem@.len(),
            rsdt_wf(mem@, table as int),
            entry_size == 4 || entry_size == 8,
            sig@.len() == 4,
            length == sdt_length(mem@, table as int),
            table + length <= mlen,
            count == sdt_entry_count(mem@, table as int, entry_size as int),
            entry_size * count <= length - ACPI_SDT_HEADER_SIZE,
            i <= count,
            off == ACPI_SDT_HEADER_SIZE + entry_size * i,
            spec_find_table(mem@, table as int, entry_size as int, sig@, 0) == spec_find_table(
                mem@,
                table as int,
                entry_size as int,
                sig@,
                i as int,
            ),
        decreases count - i,
    {
        proof {
            vstd::arithmetic::mul::lemma_mul_inequality(i + 1, count as int, entry_size as int);
            vstd::arithmetic::mul::lemma_mul_is_commutative(i + 1, entry_size as int);
            vstd::arithmetic::mul::lemma_mul_is_commutative(count as int, entry_size as int);
            vstd::arithmetic::mul::lemma_mul_is_distributive_add(entry_size as int, i as int, 1);
        }
        let e_val: u64 = if entry_size == 4 {
            read_le_u32(mem, table + off) as u64
        } else {
            read_le_u64(mem, table + off)
        };
        if mlen < 4 || e_val > (mlen - 4) as u64 {
            return Err(BootError::AcpiMalformed);
        }
        let e = e_val as usize;
        if bytes_eq_at(mem, e, sig) {
            return Ok(Some(e));
        }
        i = i + 1;
        off = off + entry_size;
    }
    Ok(None)
}

/// A MADT that fits its own declared length inside the memory view and is
/// long enough to hold its fixed part.
pub open spec fn madt_wf(s: Seq<u8>, m: int) -> bool {
    &&& m >= 0
    &&& m + MADT_HEADER_SIZE <= s.len()
    &&& sdt_length(s, m) >= MADT_HEADER_SIZE
    &&& m + sdt_length(s, m) <= s.len()
}

/// One step of the MADT sub-record walk, advancing by each record's own
/// declared length.  The walk stops exactly at the table's declared byte
/// length; a record that is shorter than its own header, longer than the
/// remaining stream, or too short for its declared type makes the table
/// malformed (a zero-length record would otherwise stall the walk forever).
///
/// Local-APIC records contribute their APIC id to the CPU list only when
/// the processor-enabled flag bit is set; I/O-APIC records contribute their
/// physical base address.  Both lists drop entries beyond their capacity
/// without disturbing what was already collected.
pub open spec fn spec_madt_walk(
    s: Seq<u8>,
    m: int,
    off: int,
    cpus: Seq<CpuId>,
    ioapics: Seq<Paddr>,
) -> Result<(Seq<CpuId>, Seq<Paddr>), BootError>
    decreases sdt_length(s, m) - off,
{
    let len = sdt_length(s, m);
    if off >= len {
        Ok((cpus, ioapics))
    } else if off + 2 > len {
        Err(BootError::AcpiMalformed)
    } else {
        let rtype = s[m + off];
        let rlen = s[m + off + 1] as int;
        if rlen < 2 {
            Err(BootError::AcpiMalformed)
        } else if off + rlen > len {
            Err(BootError::AcpiMalformed)
        } else if rtype == 0 && rlen < 8 {
            Err(BootError::AcpiMalformed)
        } else if rtype == 1 && rlen < 12 {
            Err(BootError::AcpiMalformed)
        } else {
            let cpus2 = if rtype == 0 && le32(s, m + off + 4) % 2 == 1 && cpus.len()
                < CONFIG_MAX_NUM_NODES {
                cpus.push(s[m + off + 3] as CpuId)
            } else {
                cpus
            };
            let ioapics2 = if rtype == 1 && ioapics.len() < CONFIG_MAX_NUM_IOAPIC {
                ioapics.push(le32(s, m + off + 4) as Paddr)
            } else {
                ioapics
            };
            spec_madt_walk(s, m, off + rlen, cpus2, ioapics2)
        }
    }
}

/// The CPU and I/O-APIC lists a well-formed MADT at `m` yields, or the
/// fatal error for a malformed one.
pub open spec fn spec_madt_scan(s: Seq<u8>, m: int) -> Result<
    (Seq<CpuId>, Seq<Paddr>),
    BootError,
> {
    if !madt_wf(s, m) {
        Err(BootError::AcpiMalformed)
    } else {
        spec_madt_walk(s, m, MADT_HEADER_SIZE as int, Seq::empty(), Seq::empty())
    }
}

/// What the MADT declares about the interrupt topology.
pub struct MadtInfo {
    /// The physical base address of the local APIC.
    pub local_apic_addr: u32,
    /// The MADT's global flags word.
    pub flags: u32,
    /// The ids of the enabled CPUs, in table order.
    pub cpus: FixedArr<CpuId, CONFIG_MAX_NUM_NODES>,
    /// The physical base addresses of the I/O-APICs, in table order.
    pub ioapics: FixedArr<Paddr, CONFIG_MAX_NUM_IOAPIC>,
}

/// Walk the MADT at `madt`: read the local-APIC base and global flags from
/// its fixed part, then collect the enabled CPUs and the I/O-APICs from its
/// variable-record stream.
pub fn acpi_madt_scan(mem: &[u8], madt: usize) -> (r: Result<MadtInfo, BootError>)
    ensures
        match r {
            Ok(info) => {
                &&& madt_wf(mem@, madt as int)
                &&& info.local_apic_addr == le32(mem@, madt + ACPI_SDT_HEADER_SIZE)
                &&& info.flags == le32(mem@, madt + ACPI_SDT_HEADER_SIZE + 4)
                &&& spec_madt_scan(mem@, madt as int) == Ok::<_, BootError>(
                    (info.cpus@, info.ioapics@),
                )
                &&& info.cpus.wf() && info.ioapics.wf()
            },
            Err(e) => spec_madt_scan(mem@, madt as int) == Err::<(Seq<CpuId>, Seq<Paddr>), _>(e),
        },
{
    let mlen: usize = mem.len();
    if !(madt <= mlen && MADT_HEADER_SIZE <= mlen - madt) {
        return Err(BootError::AcpiMalformed);
    }
    let length = read_le_u32(mem, madt + 4) as usize;
    if length < MADT_HEADER_SIZE || length > mlen - madt {
        return Err(BootError::AcpiMalformed);
    }
    let local_apic_addr = read_le_u32(mem, madt + ACPI_SDT_HEADER_SIZE);
    let flags = read_le_u32(mem, madt + ACPI_SDT_HEADER_SIZE + 4);
    let mut cpus: FixedArr<CpuId, CONFIG_MAX_NUM_NODES> = FixedArr::new();
    let mut ioapics: FixedArr<Paddr, CONFIG_MAX_NUM_IOAPIC> = FixedArr::new();
    let mut off: usize = MADT_HEADER_SIZE;
    while off < length
        invariant
            mlen == mem@.len(),
            madt_wf(mem@, madt as int),
            length == sdt_length(mem@, madt as int),
            madt + length <= mlen,
            off <= length,
            cpus.wf(),
            ioapics.wf(),
            spec_madt_walk(
                mem@,
                madt as int,
                MADT_HEADER_SIZE as int,
                Seq::empty(),
                Seq::empty(),
            ) == spec_madt_walk(mem@, madt as int, off as int, cpus@, ioapics@),
        decreases length - off,
    {
        if length - off < 2 {
            return Err(BootError::AcpiMalformed);
        }
        let rtype = read_u8(mem, madt + off);
        let rlen = read_u8(mem, madt + off + 1) as usize;
        if rlen < 2 {
            return Err(BootError::AcpiMalformed);
        }
        if rlen > length - off {
            return Err(BootError::AcpiMalformed);
        }
        if rtype == 0 {
            if rlen < 8 {
                return Err(BootError::AcpiMalformed);
            }
            let record_flags = read_le_u32(mem, madt + off + 4);
            if record_flags % 2 == 1 {
                let apic_id = read_u8(mem, madt + off + 3);
                let _ = cpus.try_push(apic_id as CpuId);
            }
        } else if rtype == 1 {
            if rlen < 12 {
                return Err(BootError::AcpiMalformed);
            }
            let ioapic_paddr = read_le_u32(mem, madt + off + 4);
            let _ = ioapics.try_push(ioapic_paddr as Paddr);
        }
        off = off + rlen;
    }
    Ok(MadtInfo { local_apic_addr, flags, cpus, ioapics })
}

/// The table-of-tables root and entry-pointer width the root pointer
/// selects: the 64-bit XSDT for revision >= 2, else the legacy RSDT.
pub open spec fn spec_table_root(revision: u8, rsdt: u32, xsdt: u64) -> (int, int) {
    if revision >= 2 {
        (xsdt as int, 8)
    } else {
        (rsdt as int, 4)
    }
}

/// The MADT address the table of tables at `root` yields: `Ok(None)` when
/// no entry carries the MADT signature, the fatal error when the table
/// contradicts its own layout.
pub open spec fn spec_locate_madt(s: Seq<u8>, root: int, esz: int) -> Result<
    Option<int>,
    BootError,
> {
    if !rsdt_wf(s, root) {
        Err(BootError::AcpiMalformed)
    } else {
        spec_find_table(s, root, esz, madt_sig(), 0)
    }
}

/// Resolve the root pointer's table of tables and walk its entries for the
/// MADT.
pub fn acpi_find_madt(mem: &[u8], rsdp: &AcpiRsdp) -> (r: Result<Option<usize>, BootError>)
    ensures
        ({
            let (root, esz) = spec_table_root(rsdp.revision, rsdp.rsdt_address, rsdp.xsdt_address);
            match r {
                Ok(Some(m)) => spec_locate_madt(mem@, root, esz) == Ok::<Option<int>, BootError>(
                    Some(m as int),
                ),
                Ok(None) => spec_locate_madt(mem@, root, esz) == Ok::<Option<int>, BootError>(
                    None,
                ),
                Err(e) => spec_locate_madt(mem@, root, esz) == Err::<Option<int>, BootError>(e),
            }
        }),
{
    let mlen: usize = mem.len();
    let root64: u64 = if rsdp.revision >= 2 {
        rsdp.xsdt_address
    } else {
        rsdp.rsdt_address as u64
    };
    let entry_size: usize = if rsdp.revision >= 2 {
        8
    } else {
        4
    };
    if mlen < ACPI_SDT_HEADER_SIZE || root64 > (mlen - ACPI_SDT_HEADER_SIZE) as u64 {
        return Err(BootError::AcpiMalformed);
    }
    let root = root64 as usize;
    let length = read_le_u32(mem, root + 4) as usize;
    if length < ACPI_SDT_HEADER_SIZE || length > mlen - root {
        return Err(BootError::AcpiMalformed);
    }
    let sig = madt_signature_bytes();
    find_table(mem, root, entry_size, sig.as_slice())
}

/// One entry of the table of tables: the 4-byte signature of the table it
/// points at, and the table's physical address.
pub struct SdtEntry {
    pub signature: Vec<u8>,
    pub address: u64,
}

/// The (signature, address) pairs of the entries from index `i` on, in
/// table order.  An entry whose pointed-to signature cannot be read from
/// the memory view makes the whole table malformed.
pub open spec fn spec_rsdt_entries(
    s: Seq<u8>,
    t: int,
    esz: int,
    i: int,
    acc: Seq<(Seq<u8>, int)>,
) -> Result<Seq<(Seq<u8>, int)>, BootError>
    decreases sdt_entry_count(s, t, esz) - i,
{
    if i >= sdt_entry_count(s, t, esz) {
        Ok(acc)
    } else {
        let e = sdt_entry(s, t, i, esz);
        if e + 4 > s.len() {
            Err(BootError::AcpiMalformed)
        } else {
            spec_rsdt_entries(s, t, esz, i + 1, acc.push((s.subrange(e, e + 4), e)))
        }
    }
}

/// The pairs an exec entry list stands for.
pub open spec fn sdt_entries_view(v: Seq<SdtEntry>) -> Seq<(Seq<u8>, int)> {
    v.map_values(|e: SdtEntry| (e.signature@, e.address as int))
}

/// List the entries of the table of tables at `table` as (signature,
/// address) pairs: the forward-only walk behind every table lookup, and
/// the hook for consuming tables beyond the MADT.  It may be rebuilt from
/// the stored root as often as needed.
#[verifier::rlimit(30)]
pub fn rsdt_entries(mem: &[u8], table: usize, entry_size: usize) -> (r: Result<
    Vec<SdtEntry>,
    BootError,
>)
    requires
        rsdt_wf(mem@, table as int),
        entry_size == 4 || entry_size == 8,
    ensures
        match r {
            Ok(v) => spec_rsdt_entries(mem@, table as int, entry_size as int, 0, Seq::empty())
                == Ok::<_, BootError>(sdt_entries_view(v@)),
            Err(e) => spec_rsdt_entries(mem@, table as int, entry_size as int, 0, Seq::empty())
                == Err::<Seq<(Seq<u8>, int)>, _>(e),
        },
{
    let mlen: usize = mem.len();
    let length = read_le_u32(mem, table + 4) as usize;
    let count = (length - ACPI_SDT_HEADER_SIZE) / entry_size;
    proof {
        vstd::arithmetic::div_mod::lemma_fundamental_div_mod(
            length - ACPI_SDT_HEADER_SIZE,
            entry_size as int,
        );
        lemma_mod_bound(length - ACPI_SDT_HEADER_SIZE, entry_size as int);
    }
    let mut out: Vec<SdtEntry> = Vec::new();
    proof {
        assert(sdt_entries_view(out@) =~= Seq::<(Seq<u8>, int)>::empty());
    }
    let mut i: usize = 0;
    let mut off: usize = ACPI_SDT_HEADER_SIZE;
    while i < count
        invariant
            mlen == mem@.len(),
            rsdt_wf(mem@, table as int),
            entry_size == 4 || entry_size == 8,
            length == sdt_length(mem@, table as int),
            table + length <= mlen,
            count == sdt_entry_count(mem@, table as int, entry_size as int),
            entry_size * count <= length - ACPI_SDT_HEADER_SIZE,
            i <= count,
            off == ACPI_SDT_HEADER_SIZE + entry_size * i,
            out@.len() == i,
            spec_rsdt_entries(mem@, table as int, entry_size as int, 0, Seq::empty())
                == spec_rsdt_entries(
                mem@,
                table as int,
                entry_size as int,
                i as int,
                sdt_entries_view(out@),
            ),
        decreases count - i,
    {
        proof {
            vstd::arithmetic::mul::lemma_mul_inequality(i + 1, count as int, entry_size as int);
            vstd::arithmetic::mul::lemma_mul_is_commutative(i + 1, entry_size as int);
            vstd::arithmetic::mul::lemma_mul_is_commutative(count as int, entry_size as int);
            vstd::arithmetic::mul::lemma_mul_is_distributive_add(entry_size as int, i as int, 1);
        }
        let e_val: u64 = if entry_size == 4 {
            read_le_u32(mem, table + off) as u64
        } else {
            read_le_u64(mem, table + off)
        };
        if mlen < 4 || e_val > (mlen - 4) as u64 {
            return Err(BootError::AcpiMalformed);
        }
        let e = e_val as usize;
        let entry = SdtEntry { signature: crate::bytes::bytes_at(mem, e, 4), address: e_val };
        let ghost prev_view = sdt_entries_view(out@);
        out.push(entry);
        proof {
            assert(sdt_entries_view(out@) =~= prev_view.push(
                (mem@.subrange(e as int, e + 4), e as int),
            ));
        }
        i = i + 1;
        off = off + entry_size;
    }
    Ok(out)
}

} // verus!
