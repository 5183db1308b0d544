//! CPU identification and the Meltdown-mitigation cross-check, as pure
//! decisions over the values the identification instructions return.
//!
//! Executing CPUID or reading a model-specific register is a privileged,
//! machine-dependent act that stays outside the library; the decoding and
//! the decisions live here.
use vstd::prelude::*;
use crate::config::CONFIG_KERNEL_SKIM_WINDOW;

verus! {

/// The x86 vendors the kernel officially supports.
#[derive(Clone, Copy, PartialEq, Eq, Structural, Debug)]
pub enum CpuVendor {
    Intel,
    Amd,
    Other,
}

/// The 12-byte vendor string CPUID leaf 0 returns, stored as the three
/// register words in the order they spell it: ebx, edx, ecx.
#[derive(Clone, Copy, PartialEq, Eq, Structural, Debug)]
pub struct VendorInfo(pub u32, pub u32, pub u32);

/// The little-endian bytes of one register word.
pub open spec fn u32_le_bytes(x: u32) -> Seq<u8> {
    seq![
        (x % 0x100) as u8,
        ((x / 0x100) % 0x100) as u8,
        ((x / 0x1_0000) % 0x100) as u8,
        ((x / 0x100_0000) % 0x100) as u8,
    ]
}

/// The vendor a [`VendorInfo`] identifies.  The two recognized strings
/// are "GenuineIntel" and "AuthenticAMD", compared word-for-word in their
/// little-endian register form.
pub open spec fn spec_vendor(info: VendorInfo) -> CpuVendor {
    if info.0 == 0x756e_6547 && info.1 == 0x4965_6e69 && info.2 == 0x6c65_746e {
        CpuVendor::Intel
    } else if info.0 == 0x6874_7541 && info.1 == 0x6974_6e65 && info.2 == 0x444d_4163 {
        CpuVendor::Amd
    } else {
        CpuVendor::Other
    }
}

impl VendorInfo {
    /// The vendor string as its 12 ASCII bytes.
    pub fn to_bytes(&self) -> (r: Vec<u8>)
        ensures
            r@ == u32_le_bytes(self.0) + u32_le_bytes(self.1) + u32_le_bytes(self.2),
    {
        let mut v: Vec<u8> = Vec::new();
        push_u32_le(&mut v, self.0);
        push_u32_le(&mut v, self.1);
        push_u32_le(&mut v, self.2);
        proof {
            assert(v@ =~= u32_le_bytes(self.0) + u32_le_bytes(self.1) + u32_le_bytes(self.2));
        }
        v
    }
}

/// Append the four little-endian bytes of `x`.
fn push_u32_le(v: &mut Vec<u8>, x: u32)
    ensures
        final(v)@ =~= old(v)@ + u32_le_bytes(x),
{
    v.push((x % 0x100) as u8);
    v.push(((x / 0x100) % 0x100) as u8);
    v.push(((x / 0x1_0000) % 0x100) as u8);
    v.push(((x / 0x100_0000) % 0x100) as u8);
    proof {
        assert(final(v)@ =~= old(v)@ + u32_le_bytes(x));
    }
}

/// Classify the CPU vendor from the identification words.  Anything other
/// than the two supported vendors is reported as [`CpuVendor::Other`] and
/// the caller logs a warning.
pub fn x86_cpuid_get_vendor(info: &VendorInfo) -> (r: CpuVendor)
    ensures
        r == spec_vendor(*info),
{
    if info.0 == 0x756e_6547 && info.1 == 0x4965_6e69 && info.2 == 0x6c65_746e {
        CpuVendor::Intel
    } else if info.0 == 0x6874_7541 && info.1 == 0x6974_6e65 && info.2 == 0x444d_4163 {
        CpuVendor::Amd
    } else {
        CpuVendor::Other
    }
}

/// The model-specific register that reports architectural capabilities.
pub const IA32_ARCH_CAPABILITIES_MSR: u32 = 0x10A;

/// Whether CPUID leaf 7's edx word announces the architectural-
/// capabilities register (bit 29).
pub fn cpuid_007h_edx_get_ia32_arch_cap_msr(cpuid_007_edx: u32) -> (r: bool)
    ensures
        r <==> (cpuid_007_edx & 0x2000_0000) != 0,
{
    let mask = 0x2000_0000u32;
    (cpuid_007_edx & mask) != 0
}

/// RDCL_NO (bit 0 of the capabilities register): the processor is not
/// susceptible to Rogue Data Cache Load, the Meltdown leak class.
pub fn ia32_arch_caps_msr_get_rdcl_no(ia32_arch_caps_msr: u64) -> (r: bool)
    ensures
        r <==> (ia32_arch_caps_msr & 0x1) != 0,
{
    (ia32_arch_caps_msr & 0x1) != 0
}

/// Whether the processor is immune to the Meltdown leak class: AMD parts
/// are not susceptible, and an Intel part announces immunity through
/// RDCL_NO when it exposes the capabilities register at all.
pub open spec fn spec_meltdown_immune(vendor: CpuVendor, arch_caps: Option<u64>) -> bool {
    vendor is Amd || (arch_caps matches Some(m) && (m & 0x1) != 0)
}

/// Cross-check the hardware's Meltdown immunity against the compile-time
/// mitigation switch.  The result is `true` exactly when they disagree —
/// the mitigation is built in but unnecessary, or needed but absent — and
/// the caller logs a warning; the mismatch is never fatal.
pub fn meltdown_mitigation_mismatch(vendor: CpuVendor, arch_caps: Option<u64>) -> (r: bool)
    ensures
        r <==> (CONFIG_KERNEL_SKIM_WINDOW == spec_meltdown_immune(vendor, arch_caps)),
{
    let immune = match vendor {
        CpuVendor::Amd => true,
        _ => match arch_caps {
            Some(m) => ia32_arch_caps_msr_get_rdcl_no(m),
            None => false,
        },
    };
    CONFIG_KERNEL_SKIM_WINDOW == immune
}

} // verus!
