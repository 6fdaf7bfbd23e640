//! The atomic unit of the diagnostic run: a named probe in a dependency tier.

use vstd::prelude::*;

verus! {

/// Identifies which underlying check a probe runs. The engine treats this as
/// opaque configuration data; only the collaborator that actually performs
/// the hardware or operating-system query interprets it.
#[derive(Clone, Copy, PartialEq, Eq, Structural, Debug)]
pub enum ProbeCheck {
    /// Processor vendor identification.
    CpuVendor,
    /// Processor brand string indicates a supported microcode family.
    CpuMicrocode,
    /// SEV capability bit.
    CpuSev,
    /// Secure Memory Encryption capability bit.
    CpuSme,
    /// Page flush MSR capability bit.
    CpuPageFlush,
    /// Physical address bit reduction field.
    CpuAddrReduction,
    /// C-bit location field.
    CpuCBitLocation,
    /// Number of simultaneously encrypted guests field.
    CpuGuestCount,
    /// Minimum ASID for an SEV-enabled, Encrypted-State-disabled guest.
    CpuMinAsid,
    /// Encrypted State (SEV-ES) capability bit.
    CpuSevEs,
    /// The SEV device file is readable.
    DevSevReadable,
    /// The SEV device file is writable.
    DevSevWritable,
    /// The KVM device answers its version query.
    KvmSupport,
    /// The kernel module parameter says SEV is enabled in KVM.
    SevEnabledInKvm,
    /// The locked-memory resource limit can be queried.
    MemlockLimit,
}

/// One atomic diagnostic check: a human-readable name, the dependency tier it
/// belongs to, the opaque leaf selector handed to the collaborator that
/// executes it, and the check it stands for.
pub struct Probe {
    pub name: String,
    pub tier: u32,
    pub leaf: u32,
    pub check: ProbeCheck,
}

/// What the engine hands the collaborator for one executed probe: the check
/// selector together with its opaque leaf value.
#[derive(Clone, Copy, PartialEq, Eq, Structural, Debug)]
pub struct ProbeQuery {
    pub check: ProbeCheck,
    pub leaf: u32,
}

impl Probe {
    /// The query the engine hands the collaborator when this probe executes.
    pub open spec fn spec_query(self) -> ProbeQuery {
        ProbeQuery { check: self.check, leaf: self.leaf }
    }

    /// Builds the collaborator query for this probe.
    pub fn query(&self) -> (q: ProbeQuery)
        ensures
            q == self.spec_query(),
    {
        ProbeQuery { check: self.check, leaf: self.leaf }
    }
}

} // verus!
