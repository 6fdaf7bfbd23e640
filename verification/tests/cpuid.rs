use sevcheck::cpuid::brand_contains_epyc;
use sevcheck::cpuid::CpuidRegs;

#[test]
fn authentic_amd_vendor_registers() {
    // "AuthenticAMD": ebx = "Auth", edx = "enti", ecx = "cAMD",
    // little-endian bytes in each register.
    let amd = CpuidRegs { eax: 0, ebx: 0x6874_7541, ecx: 0x444d_4163, edx: 0x6974_6e65 };
    assert!(amd.is_authentic_amd());

    // "GenuineIntel" laid out the same way is rejected.
    let intel = CpuidRegs { eax: 0, ebx: 0x756e_6547, ecx: 0x6c65_746e, edx: 0x4965_6e69 };
    assert!(!intel.is_authentic_amd());
}

#[test]
fn capability_bits() {
    let regs = CpuidRegs { eax: 0b0110, ebx: 0, ecx: 0, edx: 0 };
    assert!(!regs.sme_supported());
    assert!(regs.sev_supported());
    assert!(regs.page_flush_msr_supported());
    assert!(!regs.sev_es_supported());

    let regs = CpuidRegs { eax: 0b1001, ebx: 0, ecx: 0, edx: 0 };
    assert!(regs.sme_supported());
    assert!(!regs.sev_supported());
    assert!(!regs.page_flush_msr_supported());
    assert!(regs.sev_es_supported());
}

#[test]
fn capability_fields() {
    let regs = CpuidRegs { eax: 0, ebx: 0xffff_ffff, ecx: 509, edx: 1 };
    assert_eq!(regs.physical_address_reduction_bits(), 0x3f);
    assert_eq!(regs.cbit_location(), 0x1f);
    assert_eq!(regs.encrypted_guest_count(), 509);
    assert_eq!(regs.min_sev_asid(), 1);

    let regs = CpuidRegs { eax: 0, ebx: 0b10_1101, ecx: 0, edx: 0 };
    assert_eq!(regs.physical_address_reduction_bits(), 0b10_1101);
    assert_eq!(regs.cbit_location(), 0b0_1101);
}

#[test]
fn brand_string_epyc_search() {
    let brand = b"AMD EPYC 7282 16-Core Processor".to_vec();
    assert!(brand_contains_epyc(&brand));

    // The search folds ASCII case.
    let lower = b"amd epyc 7282".to_vec();
    assert!(brand_contains_epyc(&lower));
    let mixed = b"xxEpYcxx".to_vec();
    assert!(brand_contains_epyc(&mixed));

    // At the very start and the very end of the buffer.
    assert!(brand_contains_epyc(&b"EPYC".to_vec()));
    assert!(brand_contains_epyc(&b"....EPYC".to_vec()));

    assert!(!brand_contains_epyc(&b"AMD Ryzen 7 5800X".to_vec()));
    assert!(!brand_contains_epyc(&b"EPY".to_vec()));
    assert!(!brand_contains_epyc(&b"".to_vec()));
    assert!(!brand_contains_epyc(&b"EP YC".to_vec()));
}
