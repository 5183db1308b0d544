//! Bounds-checked, unaligned-safe reads over a byte view of physical memory.
//!
//! The bootloader and the BIOS hand the kernel structures with no alignment
//! guarantee, so every multi-byte field is assembled from individual bytes in
//! little-endian order.  The spec functions below are the reference meaning
//! of those reads.
use vstd::prelude::*;

verus! {

/// The value of the two bytes at `off`, little endian.
pub open spec fn le16(s: Seq<u8>, off: int) -> int {
    s[off] + 0x100 * s[off + 1]
}

/// The value of the four bytes at `off`, little endian.
pub open spec fn le32(s: Seq<u8>, off: int) -> int {
    le16(s, off) + 0x1_0000 * le16(s, off + 2)
}

/// The value of the eight bytes at `off`, little endian.
pub open spec fn le64(s: Seq<u8>, off: int) -> int {
    le32(s, off) + 0x1_0000_0000 * le32(s, off + 4)
}

/// Read the byte at `off`.
pub fn read_u8(mem: &[u8], off: usize) -> (r: u8)
    requires
        off < mem@.len(),
    ensures
        r == mem@[off as int],
{
    mem[off]
}

/// Read two bytes at `off` as a little-endian 16-bit value.
pub fn read_le_u16(mem: &[u8], off: usize) -> (r: u16)
    requires
        off + 2 <= mem@.len(),
    ensures
        r == le16(mem@, off as int),
{
    mem[off] as u16 + 0x100 * mem[off + 1] as u16
}

/// Read four bytes at `off` as a little-endian 32-bit value.
pub fn read_le_u32(mem: &[u8], off: usize) -> (r: u32)
    requires
        off + 4 <= mem@.len(),
    ensures
        r == le32(mem@, off as int),
{
    mem[off] as u32 + 0x100 * mem[off + 1] as u32 + 0x1_0000 * mem[off + 2] as u32 + 0x100_0000
        * mem[off + 3] as u32
}

/// Read eight bytes at `off` as a little-endian 64-bit value.
pub fn read_le_u64(mem: &[u8], off: usize) -> (r: u64)
    requires
        off + 8 <= mem@.len(),
    ensures
        r == le64(mem@, off as int),
{
    let mlen: usize = mem.len();
    let lo = read_le_u32(mem, off);
    let hi = read_le_u32(mem, off + 4);
    lo as u64 + 0x1_0000_0000 * hi as u64
}

/// Copy the `n` bytes starting at `off` out of the memory view.
pub fn bytes_at(mem: &[u8], off: usize, n: usize) -> (r: Vec<u8>)
    requires
        off + n <= mem@.len(),
    ensures
        r@ =~= mem@.subrange(off as int, off + n),
{
    let mlen: usize = mem.len();
    let mut out: Vec<u8> = Vec::new();
    let mut i: usize = 0;
    while i < n
        invariant
            off + n <= mem@.len(),
            mlen == mem@.len(),
            i <= n,
            out@ =~= mem@.subrange(off as int, off + i),
        decreases n - i,
    {
        out.push(mem[off + i]);
        i = i + 1;
    }
    out
}

/// Whether the `n` bytes at `off` equal `expected`.
pub fn bytes_eq_at(mem: &[u8], off: usize, expected: &[u8]) -> (r: bool)
    requires
        off + expected@.len() <= mem@.len(),
    ensures
        r <==> mem@.subrange(off as int, off + expected@.len()) =~= expected@,
{
    let mlen: usize = mem.len();
    let n = expected.len();
    let mut i: usize = 0;
    while i < n
        invariant
            n == expected@.len(),
            off + n <= mem@.len(),
            mlen == mem@.len(),
            i <= n,
            forall|j: int| 0 <= j < i ==> mem@[off + j] == expected@[j],
        decreases n - i,
    {
        if mem[off + i] != expected[i] {
            assert(mem@.subrange(off as int, off + expected@.len())[i as int] != expected@[i as int]);
            return false;
        }
        i = i + 1;
    }
    assert forall|j: int| 0 <= j < n implies mem@.subrange(off as int, off + n as int)[j]
        == expected@[j] by {}
    true
}

} // verus!
