//! The 32-bit "pointer" values that BIOS- and bootloader-provided tables
//! carry.  To the discovery pipeline they are offsets into the byte view of
//! low physical memory, never dereferenced directly.
use vstd::prelude::*;

verus! {

/// A 32-bit value read from a system descriptor table that is really the
/// physical address of some structure.
#[derive(Clone, Copy, PartialEq, Eq, Structural, Debug)]
pub struct U32Ptr(pub u32);

impl U32Ptr {
    pub fn new(addr: u32) -> (r: Self)
        ensures
            r.0 == addr,
    {
        U32Ptr(addr)
    }

    pub fn not_null(&self) -> (r: bool)
        ensures
            r <==> self.0 != 0,
    {
        self.0 != 0
    }

    /// The address as an offset into the memory view.
    pub fn addr(&self) -> (r: usize)
        ensures
            r == self.0,
    {
        self.0 as usize
    }
}

/// The offset of the first NUL byte at or after `p`, if the string ends
/// inside the view.
pub open spec fn spec_cstr_end(s: Seq<u8>, p: int) -> Option<int>
    decreases s.len() - p,
{
    if p < 0 || p >= s.len() {
        None
    } else if s[p] == 0 {
        Some(p)
    } else {
        spec_cstr_end(s, p + 1)
    }
}

/// A 32-bit physical pointer to a NUL-terminated string provided by the
/// bootloader (a module name or command line).
#[derive(Clone, Copy, PartialEq, Eq, Structural, Debug)]
pub struct CStr32(pub u32);

impl CStr32 {
    /// Copy the string's bytes (without the NUL) out of the memory view.
    /// A null pointer, or a string that runs off the end of the view
    /// without a terminator, yields `None`.
    pub fn try_as_cstr(self, mem: &[u8]) -> (r: Option<Vec<u8>>)
        ensures
            match r {
                Some(v) => {
                    &&& self.0 != 0
                    &&& spec_cstr_end(mem@, self.0 as int) matches Some(e) && v@ == mem@.subrange(
                        self.0 as int,
                        e,
                    )
                },
                None => self.0 == 0 || spec_cstr_end(mem@, self.0 as int) is None,
            },
    {
        if self.0 == 0 {
            return None;
        }
        let mlen: usize = mem.len();
        let start = self.0 as usize;
        if start >= mlen {
            return None;
        }
        let mut i = start;
        let mut out: Vec<u8> = Vec::new();
        while i < mlen
            invariant
                self.0 != 0,
                start == self.0,
                mlen == mem@.len(),
                start <= i <= mlen,
                out@ =~= mem@.subrange(start as int, i as int),
                spec_cstr_end(mem@, start as int) == spec_cstr_end(mem@, i as int),
            decreases mlen - i,
        {
            let b = mem[i];
            if b == 0 {
                assert(spec_cstr_end(mem@, i as int) == Some(i as int));
                return Some(out);
            }
            out.push(b);
            i = i + 1;
        }
        None
    }
}

} // verus!
