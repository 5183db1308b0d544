//! Component-level behaviour: bit utilities, the multiboot header, the
//! bootstrap tables, the interrupt-controller command sequences, CPU
//! identification, and the raw-pointer helpers.
use bootsys::arch::{CStr32, U32Ptr};
use bootsys::basic_types::PhysRegion;
use bootsys::config::ConfigGraphicsMode;
use bootsys::cpu::{
    cpuid_007h_edx_get_ia32_arch_cap_msr, ia32_arch_caps_msr_get_rdcl_no,
    meltdown_mitigation_mismatch, x86_cpuid_get_vendor, CpuVendor, VendorInfo,
};
use bootsys::hardware::{get_p_reg_kernel_img, KERNEL_ELF_BASE, KERNEL_ELF_PADDR_BASE};
use bootsys::multiboot::{gfx_flags, MMapType, MultibootHeader, MULTIBOOT_HEADER_MAGIC};
use bootsys::paging::{boot_gdt, boot_pml3_entries, boot_pml4_entries, new_gdt, BootPD, Pde};
use bootsys::pic::{pic_disable_commands, pic_remap_irqs_commands};
use bootsys::utils::{bit_u32, bit_u64, bit_usize, NumUtils};

#[test]
fn bit_helpers() {
    assert_eq!(bit_usize(0), 1);
    assert_eq!(bit_usize(12), 4096);
    assert_eq!(bit_u32(31), 0x8000_0000);
    assert_eq!(bit_u64(21), 0x20_0000);
    assert_eq!(u64::bit(12), 4096);
    assert_eq!(u32::bit(5), 32);
    assert_eq!(usize::bit(3), 8);
}

#[test]
fn rounding() {
    assert_eq!(0x12345u64.round_down(12), 0x12000);
    assert_eq!(0x12345u64.round_up(12), 0x13000);
    assert_eq!(0x12000u64.round_down(12), 0x12000);
    assert_eq!(0x12000u64.round_up(12), 0x12000);
    assert_eq!(0x12001u32.round_up(12), 0x13000);
    assert_eq!(0xffffusize.round_down(4), 0xfff0);
    assert_eq!(1u64.round_up(12), 4096);
}

#[test]
fn multiboot_header_checksum_sums_to_zero() {
    for mode in [ConfigGraphicsMode::Disabled, ConfigGraphicsMode::Text, ConfigGraphicsMode::Linear]
    {
        let h = MultibootHeader::new(mode);
        assert_eq!(h.magic, MULTIBOOT_HEADER_MAGIC);
        assert_eq!(h.magic.wrapping_add(h.flags).wrapping_add(h.checksum), 0);
    }
    let h = MultibootHeader::new(ConfigGraphicsMode::Disabled);
    assert_eq!(h.flags, 0x3);
    assert_eq!(h.graphics_mode_type, 0);
    let h = MultibootHeader::new(ConfigGraphicsMode::Linear);
    assert_eq!(h.flags, 0x7);
    assert_eq!(h.graphics_mode_type, 1);
}

#[test]
fn gfx_flags_by_mode() {
    assert_eq!(gfx_flags(ConfigGraphicsMode::Disabled), (0, 0));
    assert_eq!(gfx_flags(ConfigGraphicsMode::Text), (4, 0));
    assert_eq!(gfx_flags(ConfigGraphicsMode::Linear), (4, 1));
}

#[test]
fn mmap_type_codes() {
    assert_eq!(MMapType::Usable.code(), 1);
    assert_eq!(MMapType::Reserved.code(), 2);
    assert_eq!(MMapType::Acpi.code(), 3);
    assert_eq!(MMapType::AcpiNvs.code(), 4);
    assert_eq!(MMapType::Bad.code(), 5);
}

#[test]
fn boot_page_directory_identity_maps() {
    let pd = BootPD::new_default();
    assert_eq!(pd.0.len(), 2048);
    assert_eq!(pd.0[0].0, 0x87);
    assert_eq!(pd.0[1].0, 0x200087);
    assert_eq!(pd.0[2047].0, 2047 * 0x200000 + 0x87);
}

#[test]
fn boot_upper_tables() {
    let pml4 = boot_pml4_entries(0x11000);
    assert_eq!(pml4.len(), 512);
    assert_eq!(pml4[0], 0x11007);
    assert_eq!(pml4[256], 0x11007);
    assert_eq!(pml4[511], 0x11007);
    assert_eq!(pml4[1], 0);
    assert_eq!(pml4[255], 0);

    let pml3 = boot_pml3_entries(0x12000);
    assert_eq!(pml3.len(), 512);
    assert_eq!(pml3[0], 0x12007);
    assert_eq!(pml3[1], 0x13007);
    assert_eq!(pml3[2], 0x14007);
    assert_eq!(pml3[3], 0x15007);
    assert_eq!(pml3[510], 0x12007);
    assert_eq!(pml3[4], 0);
    assert_eq!(pml3[511], 0);
}

#[test]
fn pde_packing() {
    let p = Pde::new(0xffc0_0000, false, 0, true, false, false, false, false, false, true, true);
    // base | global | large | rw | present
    assert_eq!(p.0, 0xffc0_0000 | 0x100 | 0x80 | 0x2 | 0x1);
    let q = Pde::new(0x0040_0000, true, 3, false, true, true, true, true, true, false, false);
    assert_eq!(q.0, 0x0040_0000 | 0x1000 | 0x600 | 0x80 | 0x40 | 0x20 | 0x10 | 0x8 | 0x4);
}

#[test]
fn gdt_entries() {
    assert_eq!(new_gdt(0x20, 0x98), 0x0020_9800_0000_0000);
    assert_eq!(new_gdt(0x00, 0x90), 0x0000_9000_0000_0000);
    let gdt = boot_gdt();
    assert_eq!(gdt, vec![0, 0x0020_9800_0000_0000, 0x0000_9000_0000_0000]);
}

#[test]
fn pic_command_sequences() {
    let remap = pic_remap_irqs_commands(0x20);
    assert_eq!(
        remap,
        vec![
            (0x20, 0x11),
            (0xa0, 0x11),
            (0x21, 0x20),
            (0xa1, 0x28),
            (0x21, 0x04),
            (0xa1, 0x02),
            (0x21, 0x01),
            (0xa1, 0x01),
            (0x21, 0x00),
            (0xa1, 0x00),
        ]
    );
    assert_eq!(pic_disable_commands(), vec![(0x21, 0xff), (0xa1, 0xff)]);
}

#[test]
fn vendor_classification() {
    // "GenuineIntel" and "AuthenticAMD" in their ebx/edx/ecx word form.
    let intel = VendorInfo(0x756e_6547, 0x4965_6e69, 0x6c65_746e);
    assert_eq!(x86_cpuid_get_vendor(&intel), CpuVendor::Intel);
    assert_eq!(intel.to_bytes(), b"GenuineIntel".to_vec());

    let amd = VendorInfo(0x6874_7541, 0x6974_6e65, 0x444d_4163);
    assert_eq!(x86_cpuid_get_vendor(&amd), CpuVendor::Amd);
    assert_eq!(amd.to_bytes(), b"AuthenticAMD".to_vec());

    let other = VendorInfo(0x1, 0x2, 0x3);
    assert_eq!(x86_cpuid_get_vendor(&other), CpuVendor::Other);
}

#[test]
fn capability_bits() {
    assert!(cpuid_007h_edx_get_ia32_arch_cap_msr(1 << 29));
    assert!(!cpuid_007h_edx_get_ia32_arch_cap_msr(!(1u32 << 29)));
    assert!(ia32_arch_caps_msr_get_rdcl_no(1));
    assert!(ia32_arch_caps_msr_get_rdcl_no(0xff));
    assert!(!ia32_arch_caps_msr_get_rdcl_no(0xfe));
}

#[test]
fn meltdown_cross_check() {
    // The mitigation is compiled in: an immune part makes it unnecessary
    // (a mismatch); a vulnerable Intel part matches the configuration.
    assert!(meltdown_mitigation_mismatch(CpuVendor::Amd, None));
    assert!(meltdown_mitigation_mismatch(CpuVendor::Intel, Some(1)));
    assert!(!meltdown_mitigation_mismatch(CpuVendor::Intel, Some(0)));
    assert!(!meltdown_mitigation_mismatch(CpuVendor::Intel, None));
    assert!(!meltdown_mitigation_mismatch(CpuVendor::Other, None));
}

#[test]
fn kernel_image_region() {
    let top = KERNEL_ELF_BASE + 0x200000;
    let r = get_p_reg_kernel_img(top);
    assert_eq!(
        r,
        PhysRegion { start: KERNEL_ELF_PADDR_BASE, end: KERNEL_ELF_PADDR_BASE + 0x200000 }
    );
}

#[test]
fn u32_ptr_basics() {
    let p = U32Ptr::new(0x1234);
    assert!(p.not_null());
    assert_eq!(p.addr(), 0x1234);
    assert!(!U32Ptr::new(0).not_null());
}

#[test]
fn cstr32_reads_until_nul() {
    let mem = b"xxroot=/dev/ram0\0yy".to_vec();
    let s = CStr32(2);
    assert_eq!(s.try_as_cstr(&mem), Some(b"root=/dev/ram0".to_vec()));

    // A null pointer has no string.
    assert_eq!(CStr32(0).try_as_cstr(&mem), None);

    // A string that runs off the view has no terminator.
    let raw = b"abc".to_vec();
    assert_eq!(CStr32(1).try_as_cstr(&raw), None);
}
