//! Interpretation of raw processor identification registers.
//!
//! The hardware query instruction itself is a collaborator outside this
//! library; callers hand its four raw register values to the narrow adapter
//! here, and every capability bit and field is read out by a verified
//! accessor instead of inline bit-twiddling in the gating logic.

use vstd::prelude::*;

verus! {

/// The four raw register values returned by one processor identification
/// query for some leaf.
#[derive(Clone, Copy, PartialEq, Eq, Structural, Debug)]
pub struct CpuidRegs {
    pub eax: u32,
    pub ebx: u32,
    pub ecx: u32,
    pub edx: u32,
}

impl CpuidRegs {
    /// The vendor leaf reports the vendor string in ebx, edx, ecx, four
    /// little-endian bytes each; these three words spell "AuthenticAMD".
    pub fn is_authentic_amd(&self) -> (r: bool)
        ensures
            r == (self.ebx == 0x6874_7541u32 && self.edx == 0x6974_6e65u32 && self.ecx
                == 0x444d_4163u32),
    {
        self.ebx == 0x6874_7541 && self.edx == 0x6974_6e65 && self.ecx == 0x444d_4163
    }

    /// Secure Memory Encryption support: bit 0 of eax on the encrypted
    /// memory capability leaf.
    pub fn sme_supported(&self) -> (r: bool)
        ensures
            r == (self.eax & 0x1 != 0),
    {
        self.eax & 0x1 != 0
    }

    /// SEV support: bit 1 of eax on the encrypted memory capability leaf.
    pub fn sev_supported(&self) -> (r: bool)
        ensures
            r == (self.eax & 0x2 != 0),
    {
        self.eax & 0x2 != 0
    }

    /// Page flush MSR support: bit 2 of eax on the encrypted memory
    /// capability leaf.
    pub fn page_flush_msr_supported(&self) -> (r: bool)
        ensures
            r == (self.eax & 0x4 != 0),
    {
        self.eax & 0x4 != 0
    }

    /// Encrypted State (SEV-ES) support: bit 3 of eax on the encrypted
    /// memory capability leaf.
    pub fn sev_es_supported(&self) -> (r: bool)
        ensures
            r == (self.eax & 0x8 != 0),
    {
        self.eax & 0x8 != 0
    }

    /// The physical address bit reduction field, read from the low bits of
    /// ebx on the encrypted memory capability leaf.
    pub fn physical_address_reduction_bits(&self) -> (r: u32)
        ensures
            r == self.ebx & 0x3f,
    {
        self.ebx & 0x3f
    }

    /// The C-bit location field, read from the low bits of ebx on the
    /// encrypted memory capability leaf.
    pub fn cbit_location(&self) -> (r: u32)
        ensures
            r == self.ebx & 0x1f,
    {
        self.ebx & 0x1f
    }

    /// Number of simultaneously encrypted guests supported: ecx of the
    /// encrypted memory capability leaf.
    pub fn encrypted_guest_count(&self) -> (r: u32)
        ensures
            r == self.ecx,
    {
        self.ecx
    }

    /// Minimum ASID value for an SEV-enabled, Encrypted-State-disabled
    /// guest: edx of the encrypted memory capability leaf.
    pub fn min_sev_asid(&self) -> (r: u32)
        ensures
            r == self.edx,
    {
        self.edx
    }
}

/// `b` with an ASCII lower-case letter folded to its upper-case form.
pub open spec fn ascii_upper(b: u8) -> u8 {
    if 97 <= b && b <= 122 {
        (b - 32) as u8
    } else {
        b
    }
}

/// The four bytes at position `i` of `s` spell "EPYC" up to ASCII case.
pub open spec fn epyc_at(s: Seq<u8>, i: int) -> bool {
    &&& 0 <= i
    &&& i + 4 <= s.len()
    &&& ascii_upper(s[i]) == 69
    &&& ascii_upper(s[i + 1]) == 80
    &&& ascii_upper(s[i + 2]) == 89
    &&& ascii_upper(s[i + 3]) == 67
}

/// Some position of `s` spells "EPYC" up to ASCII case.
pub open spec fn contains_epyc(s: Seq<u8>) -> bool {
    exists|i: int| epyc_at(s, i)
}

/// Folds one byte to upper case, as `ascii_upper` says.
fn to_ascii_upper(b: u8) -> (r: u8)
    ensures
        r == ascii_upper(b),
{
    if 97 <= b && b <= 122 {
        b - 32
    } else {
        b
    }
}

/// Decides whether the processor brand-string bytes name the supported
/// microcode family: a case-insensitive search for "EPYC".
pub fn brand_contains_epyc(bytes: &Vec<u8>) -> (r: bool)
    ensures
        r == contains_epyc(bytes@),
{
    let n = bytes.len();
    if n < 4 {
        return false;
    }
    let mut i: usize = 0;
    while i <= n - 4
        invariant
            bytes@.len() == n,
            n >= 4,
            i <= n - 3,
            forall|j: int| 0 <= j < i ==> !epyc_at(bytes@, j),
        decreases n - i,
    {
        if to_ascii_upper(bytes[i]) == 69 && to_ascii_upper(bytes[i + 1]) == 80
            && to_ascii_upper(bytes[i + 2]) == 89 && to_ascii_upper(bytes[i + 3]) == 67 {
            assert(epyc_at(bytes@, i as int));
            return true;
        }
        assert(!epyc_at(bytes@, i as int));
        i += 1;
    }
    assert(forall|j: int| epyc_at(bytes@, j) ==> 0 <= j && j + 4 <= n);
    false
}

} // verus!
