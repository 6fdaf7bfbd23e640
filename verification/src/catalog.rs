//! Catalog construction: the ordered probe groups for a selected feature
//! generation, pinned probe by probe by the specification functions here.

use vstd::prelude::*;
use vstd::string::StringExecFns;

use crate::probe::Probe;
use crate::probe::ProbeCheck;
use crate::probe::ProbeQuery;

verus! {

/// The feature generation a catalog targets.
#[derive(Clone, Copy, PartialEq, Eq, Structural, Debug)]
pub enum SevGeneration {
    /// Plain Secure Encrypted Virtualization.
    Sev,
    /// SEV together with the Encrypted State extension (SEV-ES).
    Es,
}

/// The dependency tier shared by every operating-system probe; it comes
/// after all CPU-capability tiers.
pub const SYS_TEST_LEVEL: u32 = 5;

/// The generation a run targets: the caller's selection, or the most
/// capable variant — Encrypted State — when the caller selects none.
pub open spec fn effective_generation(gen: Option<SevGeneration>) -> SevGeneration {
    match gen {
        Option::Some(g) => g,
        Option::None => SevGeneration::Es,
    }
}

/// Number of CPU-capability probes in the catalog of a generation.
pub open spec fn cpu_probe_count(gen: SevGeneration) -> int {
    match gen {
        SevGeneration::Sev => 9,
        SevGeneration::Es => 10,
    }
}

/// Number of operating-system probes; the same for every generation.
pub open spec fn system_probe_count() -> int {
    5
}

/// Total number of probes a run reports on, both phases together.
pub open spec fn total_probe_count(gen: SevGeneration) -> int {
    cpu_probe_count(gen) + system_probe_count()
}

/// The check run by the CPU-capability probe at flat catalog position `k`.
pub open spec fn cpu_catalog_check(k: int) -> ProbeCheck {
    if k == 0 {
        ProbeCheck::CpuVendor
    } else if k == 1 {
        ProbeCheck::CpuMicrocode
    } else if k == 2 {
        ProbeCheck::CpuSev
    } else if k == 3 {
        ProbeCheck::CpuSme
    } else if k == 4 {
        ProbeCheck::CpuPageFlush
    } else if k == 5 {
        ProbeCheck::CpuAddrReduction
    } else if k == 6 {
        ProbeCheck::CpuCBitLocation
    } else if k == 7 {
        ProbeCheck::CpuGuestCount
    } else if k == 8 {
        ProbeCheck::CpuMinAsid
    } else {
        ProbeCheck::CpuSevEs
    }
}

/// The dependency tier of the CPU-capability probe at flat position `k`.
pub open spec fn cpu_catalog_tier(k: int) -> u32 {
    if k == 0 {
        1
    } else if k == 1 {
        2
    } else if k <= 3 {
        3
    } else {
        4
    }
}

/// The opaque leaf selector of the CPU-capability probe at flat position `k`.
pub open spec fn cpu_catalog_leaf(k: int) -> u32 {
    if k == 0 {
        0
    } else if k == 1 {
        0x8000_0002
    } else {
        0x8000_001f
    }
}

/// The name of the CPU-capability probe at flat position `k`.
pub open spec fn cpu_catalog_name(k: int) -> Seq<char> {
    if k == 0 {
        "AMD CPU"@
    } else if k == 1 {
        "Microcode support"@
    } else if k == 2 {
        "AMD SEV"@
    } else if k == 3 {
        "AMD SME"@
    } else if k == 4 {
        "Page flush MSR"@
    } else if k == 5 {
        "Physical address bit reduction"@
    } else if k == 6 {
        "C-bit location in page table entry"@
    } else if k == 7 {
        "Number of encrypted guests supported simultaneously"@
    } else if k == 8 {
        "Minimum ASID value for SEV-enabled, SEV-ES disabled guest"@
    } else {
        "AMD SEV-ES"@
    }
}

/// The collaborator query of the CPU-capability probe at flat position `k`.
pub open spec fn cpu_query(k: int) -> ProbeQuery {
    ProbeQuery { check: cpu_catalog_check(k), leaf: cpu_catalog_leaf(k) }
}

/// The check run by operating-system probe `i`.
pub open spec fn system_catalog_check(i: int) -> ProbeCheck {
    if i == 0 {
        ProbeCheck::DevSevReadable
    } else if i == 1 {
        ProbeCheck::DevSevWritable
    } else if i == 2 {
        ProbeCheck::KvmSupport
    } else if i == 3 {
        ProbeCheck::SevEnabledInKvm
    } else {
        ProbeCheck::MemlockLimit
    }
}

/// The name of operating-system probe `i`.
pub open spec fn system_catalog_name(i: int) -> Seq<char> {
    if i == 0 {
        "/dev/sev readable"@
    } else if i == 1 {
        "/dev/sev writable"@
    } else if i == 2 {
        "KVM support"@
    } else if i == 3 {
        "SEV enablement in KVM"@
    } else {
        "Memlock resource limit"@
    }
}

/// The collaborator query of operating-system probe `i`. These probes take
/// no leaf selector, so the leaf is fixed to zero.
pub open spec fn system_query(i: int) -> ProbeQuery {
    ProbeQuery { check: system_catalog_check(i), leaf: 0 }
}

/// `p` is exactly the CPU-capability probe of flat catalog position `k`.
pub open spec fn is_cpu_probe_at(p: Probe, k: int) -> bool {
    &&& p.check == cpu_catalog_check(k)
    &&& p.tier == cpu_catalog_tier(k)
    &&& p.leaf == cpu_catalog_leaf(k)
    &&& p.name@ == cpu_catalog_name(k)
}

/// `p` is exactly operating-system probe `i`.
pub open spec fn is_system_probe_at(p: Probe, i: int) -> bool {
    &&& p.check == system_catalog_check(i)
    &&& p.tier == SYS_TEST_LEVEL
    &&& p.leaf == 0
    &&& p.name@ == system_catalog_name(i)
}

/// Number of probe groups in the CPU catalog of a generation.
pub open spec fn cpu_group_count(gen: SevGeneration) -> int {
    match gen {
        SevGeneration::Sev => 4,
        SevGeneration::Es => 5,
    }
}

/// Number of probes in CPU group `g`.
pub open spec fn cpu_group_len(g: int) -> int {
    if g == 0 {
        1
    } else if g == 1 {
        1
    } else if g == 2 {
        2
    } else if g == 3 {
        5
    } else {
        1
    }
}

/// Flat catalog position of the first probe of CPU group `g`.
pub open spec fn cpu_group_offset(g: int) -> int {
    if g <= 0 {
        0
    } else if g == 1 {
        1
    } else if g == 2 {
        2
    } else if g == 3 {
        4
    } else if g == 4 {
        9
    } else {
        10
    }
}

/// `groups` is the grouped CPU catalog of `gen`: the expected number of
/// groups, each of its expected size, and each probe pinned to its flat
/// catalog position.
pub open spec fn is_cpu_groups(groups: Seq<Vec<Probe>>, gen: SevGeneration) -> bool {
    &&& groups.len() == cpu_group_count(gen)
    &&& forall|g: int| 0 <= g < groups.len() ==> (#[trigger] groups[g])@.len() == cpu_group_len(g)
    &&& forall|g: int, j: int|
        0 <= g < groups.len() && 0 <= j < groups[g]@.len() ==> is_cpu_probe_at(
            #[trigger] groups[g]@[j],
            cpu_group_offset(g) + j,
        )
}

/// Builds one catalog probe.
fn make_probe(name: &str, tier: u32, leaf: u32, check: ProbeCheck) -> (p: Probe)
    ensures
        p.name@ == name@,
        p.tier == tier,
        p.leaf == leaf,
        p.check == check,
{
    Probe { name: String::from_str(name), tier: tier, leaf: leaf, check: check }
}

/// Builds the ordered CPU-capability probe groups for a generation: the
/// vendor check, then the microcode check, then the SEV and SME capability
/// bits, then the detailed capability fields; when the Encrypted State
/// generation is selected, one extra tier-4 group with the Encrypted State
/// capability probe is appended.
pub fn collect_cpuids(gen: SevGeneration) -> (groups: Vec<Vec<Probe>>)
    ensures
        is_cpu_groups(groups@, gen),
{
    let mut g0: Vec<Probe> = Vec::new();
    g0.push(make_probe("AMD CPU", 1, 0x0000_0000, ProbeCheck::CpuVendor));

    let mut g1: Vec<Probe> = Vec::new();
    g1.push(make_probe("Microcode support", 2, 0x8000_0002, ProbeCheck::CpuMicrocode));

    let mut g2: Vec<Probe> = Vec::new();
    g2.push(make_probe("AMD SEV", 3, 0x8000_001f, ProbeCheck::CpuSev));
    g2.push(make_probe("AMD SME", 3, 0x8000_001f, ProbeCheck::CpuSme));

    let mut g3: Vec<Probe> = Vec::new();
    g3.push(make_probe("Page flush MSR", 4, 0x8000_001f, ProbeCheck::CpuPageFlush));
    g3.push(
        make_probe("Physical address bit reduction", 4, 0x8000_001f, ProbeCheck::CpuAddrReduction),
    );
    g3.push(
        make_probe(
            "C-bit location in page table entry",
            4,
            0x8000_001f,
            ProbeCheck::CpuCBitLocation,
        ),
    );
    g3.push(
        make_probe(
            "Number of encrypted guests supported simultaneously",
            4,
            0x8000_001f,
            ProbeCheck::CpuGuestCount,
        ),
    );
    g3.push(
        make_probe(
            "Minimum ASID value for SEV-enabled, SEV-ES disabled guest",
            4,
            0x8000_001f,
            ProbeCheck::CpuMinAsid,
        ),
    );

    let mut groups: Vec<Vec<Probe>> = Vec::new();
    groups.push(g0);
    groups.push(g1);
    groups.push(g2);
    groups.push(g3);
    if let SevGeneration::Es = gen {
        let mut g4: Vec<Probe> = Vec::new();
        g4.push(make_probe("AMD SEV-ES", 4, 0x8000_001f, ProbeCheck::CpuSevEs));
        groups.push(g4);
    }
    groups
}

/// Builds the flat list of operating-system probes: device-file access,
/// KVM presence, the kernel's SEV-enablement flag, and the locked-memory
/// resource limit. They all share one tier after the CPU-capability tiers.
pub fn collect_system_probes() -> (probes: Vec<Probe>)
    ensures
        probes@.len() == system_probe_count(),
        forall|i: int| 0 <= i < probes@.len() ==> is_system_probe_at(#[trigger] probes@[i], i),
{
    let mut probes: Vec<Probe> = Vec::new();
    probes.push(make_probe("/dev/sev readable", SYS_TEST_LEVEL, 0, ProbeCheck::DevSevReadable));
    probes.push(make_probe("/dev/sev writable", SYS_TEST_LEVEL, 0, ProbeCheck::DevSevWritable));
    probes.push(make_probe("KVM support", SYS_TEST_LEVEL, 0, ProbeCheck::KvmSupport));
    probes.push(make_probe("SEV enablement in KVM", SYS_TEST_LEVEL, 0, ProbeCheck::SevEnabledInKvm));
    probes.push(make_probe("Memlock resource limit", SYS_TEST_LEVEL, 0, ProbeCheck::MemlockLimit));
    probes
}

/// Two probes that stand for the same check, at the same tier, with the
/// same leaf selector and the same name.
pub open spec fn probes_alike(a: Probe, b: Probe) -> bool {
    &&& a.check == b.check
    &&& a.tier == b.tier
    &&& a.leaf == b.leaf
    &&& a.name@ == b.name@
}

/// Law: the Encrypted State catalog holds exactly one more tier-4 probe
/// than the plain SEV catalog — the two agree group by group and probe by
/// probe on the shared prefix, and the one extra group holds a single probe
/// of tier 4 — and selecting no generation targets Encrypted State.
pub proof fn lemma_es_catalog_one_more_probe(es: Seq<Vec<Probe>>, sev: Seq<Vec<Probe>>)
    requires
        is_cpu_groups(es, SevGeneration::Es),
        is_cpu_groups(sev, SevGeneration::Sev),
    ensures
        cpu_probe_count(SevGeneration::Es) == cpu_probe_count(SevGeneration::Sev) + 1,
        es.len() == sev.len() + 1,
        forall|g: int| 0 <= g < sev.len() ==> (#[trigger] sev[g])@.len() == es[g]@.len(),
        forall|g: int, j: int|
            0 <= g < sev.len() && 0 <= j < sev[g]@.len() ==> probes_alike(
                #[trigger] sev[g]@[j],
                es[g]@[j],
            ),
        es[4]@.len() == 1,
        es[4]@[0].tier == 4,
        effective_generation(Option::<SevGeneration>::None) == SevGeneration::Es,
{
    assert forall|g: int, j: int|
        0 <= g < sev.len() && 0 <= j < sev[g]@.len() implies probes_alike(
        #[trigger] sev[g]@[j],
        es[g]@[j],
    ) by {
        assert(is_cpu_probe_at(sev[g]@[j], cpu_group_offset(g) + j));
        assert(is_cpu_probe_at(es[g]@[j], cpu_group_offset(g) + j));
    }
}

} // verus!
