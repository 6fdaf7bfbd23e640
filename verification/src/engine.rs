//! The dependency-gated executor and result aggregator.
//!
//! The executor walks the CPU-capability probe groups in catalog order and
//! keeps a single two-state machine: while every probe so far has passed it
//! executes the next probe through the collaborator; after the first failure
//! it stops executing and reports every remaining probe as skipped. The
//! operating-system probes form a second phase, gated as one block on the
//! CPU phase but not on one another. Every probe yields exactly one report
//! entry, and the aggregate verdict is a success exactly when no entry is a
//! failure.

use vstd::prelude::*;

use crate::catalog::SevGeneration;
use crate::catalog::SYS_TEST_LEVEL;
use crate::catalog::collect_cpuids;
use crate::catalog::collect_system_probes;
use crate::catalog::cpu_catalog_name;
use crate::catalog::cpu_catalog_tier;
use crate::catalog::cpu_group_count;
use crate::catalog::cpu_group_len;
use crate::catalog::cpu_group_offset;
use crate::catalog::cpu_probe_count;
use crate::catalog::cpu_query;
use crate::catalog::effective_generation;
use crate::catalog::is_cpu_groups;
use crate::catalog::is_cpu_probe_at;
use crate::catalog::is_system_probe_at;
use crate::catalog::system_catalog_name;
use crate::catalog::system_probe_count;
use crate::catalog::system_query;
use crate::catalog::total_probe_count;
use crate::probe::ProbeQuery;
use crate::report::DiagnosticError;
use crate::report::ReportEntry;
use crate::report::Status;

verus! {

/// Some entry of `r[lo..hi]` reports a failure.
pub open spec fn fail_in(r: Seq<ReportEntry>, lo: int, hi: int) -> bool {
    exists|j: int| lo <= j < hi && (#[trigger] r[j]).status is Fail
}

/// Entry `k` of the report is right for the CPU-capability probe at flat
/// catalog position `k`: it carries that probe's tier; it is a skip exactly
/// when some earlier probe failed, and then shows the probe's name;
/// otherwise its status and message are a result the collaborator can
/// return for that probe's query.
pub open spec fn cpu_entry_ok<F: Fn(ProbeQuery) -> (bool, String)>(
    f: F,
    r: Seq<ReportEntry>,
    k: int,
) -> bool {
    let e = r[k];
    &&& e.tier == cpu_catalog_tier(k)
    &&& (e.status is Skip <==> fail_in(r, 0, k))
    &&& (e.status is Skip ==> e.message@ == cpu_catalog_name(k))
    &&& (!(e.status is Skip) ==> call_ensures(f, (cpu_query(k),), (e.status is Pass, e.message)))
}

/// Entry `k` of the report is right for operating-system probe `k - n_cpu`:
/// it carries the operating-system tier; it is a skip exactly when the CPU
/// phase failed somewhere, and then shows the probe's name; otherwise its
/// status and message are a result the collaborator can return for that
/// probe's query.
pub open spec fn system_entry_ok<F: Fn(ProbeQuery) -> (bool, String)>(
    f: F,
    r: Seq<ReportEntry>,
    k: int,
    n_cpu: int,
) -> bool {
    let e = r[k];
    let i = k - n_cpu;
    &&& e.tier == SYS_TEST_LEVEL
    &&& (e.status is Skip <==> fail_in(r, 0, n_cpu))
    &&& (e.status is Skip ==> e.message@ == system_catalog_name(i))
    &&& (!(e.status is Skip) ==> call_ensures(f, (system_query(i),), (e.status is Pass, e.message)))
}

/// The whole report of one gated run over the catalog of a generation: one
/// entry per probe, in catalog order. Within the CPU phase any failure
/// gates every later probe into a skip; the operating-system phase runs
/// only if the whole CPU phase passed, and its probes do not gate one
/// another.
pub open spec fn gated_report<F: Fn(ProbeQuery) -> (bool, String)>(
    f: F,
    r: Seq<ReportEntry>,
    gen: SevGeneration,
) -> bool {
    &&& r.len() == total_probe_count(gen)
    &&& forall|k: int| 0 <= k < cpu_probe_count(gen) ==> cpu_entry_ok(f, r, k)
    &&& forall|k: int|
        cpu_probe_count(gen) <= k < r.len() ==> system_entry_ok(f, r, k, cpu_probe_count(gen))
}

/// `fail_in` over a range reads only the entries in that range.
proof fn lemma_fail_in_same(r0: Seq<ReportEntry>, r1: Seq<ReportEntry>, lo: int, hi: int)
    requires
        0 <= lo,
        hi <= r0.len(),
        hi <= r1.len(),
        forall|j: int| lo <= j < hi ==> r0[j] == r1[j],
    ensures
        fail_in(r0, lo, hi) == fail_in(r1, lo, hi),
{
    if fail_in(r0, lo, hi) {
        let j = choose|j: int| lo <= j < hi && (#[trigger] r0[j]).status is Fail;
        assert(r1[j].status is Fail);
    }
    if fail_in(r1, lo, hi) {
        let j = choose|j: int| lo <= j < hi && (#[trigger] r1[j]).status is Fail;
        assert(r0[j].status is Fail);
    }
}

/// A CPU entry's clauses are untouched by anything appended after it.
proof fn lemma_cpu_entry_ok_frame<F: Fn(ProbeQuery) -> (bool, String)>(
    f: F,
    r0: Seq<ReportEntry>,
    r1: Seq<ReportEntry>,
    k: int,
)
    requires
        0 <= k < r0.len(),
        r0.len() <= r1.len(),
        forall|j: int| 0 <= j <= k ==> r0[j] == r1[j],
        cpu_entry_ok(f, r0, k),
    ensures
        cpu_entry_ok(f, r1, k),
{
    lemma_fail_in_same(r0, r1, 0, k);
    assert(r1[k] == r0[k]);
}

/// An operating-system entry's clauses are untouched by anything appended
/// after it, as long as the CPU prefix it is gated on is unchanged.
proof fn lemma_system_entry_ok_frame<F: Fn(ProbeQuery) -> (bool, String)>(
    f: F,
    r0: Seq<ReportEntry>,
    r1: Seq<ReportEntry>,
    k: int,
    n_cpu: int,
)
    requires
        0 <= n_cpu <= k < r0.len(),
        r0.len() <= r1.len(),
        forall|j: int| 0 <= j < n_cpu ==> r0[j] == r1[j],
        r0[k] == r1[k],
        system_entry_ok(f, r0, k, n_cpu),
    ensures
        system_entry_ok(f, r1, k, n_cpu),
{
    lemma_fail_in_same(r0, r1, 0, n_cpu);
}

/// Runs the full diagnostic. The catalog is built for the selected
/// generation — Encrypted State when none is selected — and walked tier by
/// tier through `checker`, the collaborator that performs one hardware or
/// operating-system query per call. Returns one report entry per probe, in
/// catalog order, and the aggregate verdict, which is a success exactly
/// when no probe reported a failure. Rendering the entries, and
/// suppressing that rendering when the caller wants a quiet run, is the
/// caller's concern; neither changes what this function executes.
pub fn cmd<F: Fn(ProbeQuery) -> (bool, String)>(gen: Option<SevGeneration>, checker: F) -> (res: (
    Vec<ReportEntry>,
    Result<(), DiagnosticError>,
))
    requires
        forall|q: ProbeQuery| call_requires(checker, (q,)),
    ensures
        gated_report(checker, res.0@, effective_generation(gen)),
        res.1 is Ok <==> !fail_in(res.0@, 0, res.0@.len() as int),
{
    let eg = match gen {
        Option::Some(g) => g,
        Option::None => SevGeneration::Es,
    };
    let groups = collect_cpuids(eg);
    let sys_probes = collect_system_probes();
    let mut report: Vec<ReportEntry> = Vec::new();
    let mut passed: bool = true;

    let mut g: usize = 0;
    while g < groups.len()
        invariant
            forall|q: ProbeQuery| call_requires(checker, (q,)),
            is_cpu_groups(groups@, eg),
            g <= groups@.len(),
            report@.len() == cpu_group_offset(g as int),
            passed <==> !fail_in(report@, 0, report@.len() as int),
            forall|k: int| 0 <= k < report@.len() ==> cpu_entry_ok(checker, report@, k),
        decreases groups@.len() - g,
    {
        let mut j: usize = 0;
        while j < groups[g].len()
            invariant
                forall|q: ProbeQuery| call_requires(checker, (q,)),
                is_cpu_groups(groups@, eg),
                g < groups@.len(),
                j <= groups@[g as int]@.len(),
                report@.len() == cpu_group_offset(g as int) + j,
                passed <==> !fail_in(report@, 0, report@.len() as int),
                forall|k: int| 0 <= k < report@.len() ==> cpu_entry_ok(checker, report@, k),
            decreases groups@[g as int]@.len() - j,
        {
            let ghost kk: int = cpu_group_offset(g as int) + j;
            let ghost r0 = report@;
            proof {
                assert(is_cpu_probe_at(groups@[g as int]@[j as int], kk));
            }
            let p = &groups[g][j];
            if passed {
                let q = p.query();
                let (success, msg) = checker(q);
                let status = if success {
                    Status::Pass
                } else {
                    Status::Fail
                };
                if !success {
                    passed = false;
                }
                report.push(ReportEntry { status: status, message: msg, tier: p.tier });
                proof {
                    let r1 = report@;
                    lemma_fail_in_same(r0, r1, 0, kk);
                    assert(q == cpu_query(kk));
                    assert forall|k: int| 0 <= k < r1.len() implies cpu_entry_ok(
                        checker,
                        r1,
                        k,
                    ) by {
                        if k < r0.len() {
                            lemma_cpu_entry_ok_frame(checker, r0, r1, k);
                        } else {
                            assert(!fail_in(r1, 0, k));
                        }
                    }
                    if fail_in(r1, 0, r1.len() as int) {
                        let jw = choose|jw: int|
                            0 <= jw < r1.len() && (#[trigger] r1[jw]).status is Fail;
                        if jw < r0.len() {
                            assert(fail_in(r0, 0, r0.len() as int));
                        }
                        assert(!success);
                    }
                    if !success {
                        assert(r1[kk].status is Fail);
                        assert(fail_in(r1, 0, r1.len() as int));
                    }
                }
            } else {
                report.push(
                    ReportEntry { status: Status::Skip, message: p.name.clone(), tier: p.tier },
                );
                proof {
                    let r1 = report@;
                    lemma_fail_in_same(r0, r1, 0, kk);
                    assert(fail_in(r0, 0, r0.len() as int));
                    assert(fail_in(r1, 0, kk));
                    assert forall|k: int| 0 <= k < r1.len() implies cpu_entry_ok(
                        checker,
                        r1,
                        k,
                    ) by {
                        if k < r0.len() {
                            lemma_cpu_entry_ok_frame(checker, r0, r1, k);
                        }
                    }
                    let jw = choose|jw: int| 0 <= jw < r0.len() && (#[trigger] r0[jw]).status is Fail;
                    assert(r1[jw].status is Fail);
                    assert(fail_in(r1, 0, r1.len() as int));
                }
            }
            j += 1;
        }
        proof {
            assert(cpu_group_offset(g as int + 1) == cpu_group_offset(g as int) + cpu_group_len(
                g as int,
            ));
        }
        g += 1;
    }

    let ghost n_cpu: int = cpu_probe_count(eg);
    proof {
        assert(cpu_group_offset(cpu_group_count(eg)) == cpu_probe_count(eg));
    }

    if passed {
        let mut i: usize = 0;
        while i < sys_probes.len()
            invariant
                forall|q: ProbeQuery| call_requires(checker, (q,)),
                sys_probes@.len() == system_probe_count(),
                forall|ii: int|
                    0 <= ii < sys_probes@.len() ==> is_system_probe_at(
                        #[trigger] sys_probes@[ii],
                        ii,
                    ),
                n_cpu == cpu_probe_count(eg),
                i <= sys_probes@.len(),
                report@.len() == n_cpu + i,
                !fail_in(report@, 0, n_cpu),
                forall|k: int| 0 <= k < n_cpu ==> cpu_entry_ok(checker, report@, k),
                forall|k: int|
                    n_cpu <= k < report@.len() ==> system_entry_ok(checker, report@, k, n_cpu),
                passed <==> !fail_in(report@, 0, report@.len() as int),
            decreases sys_probes@.len() - i,
        {
            let ghost kk: int = n_cpu + i;
            let ghost r0 = report@;
            let p = &sys_probes[i];
            let q = p.query();
            let (success, msg) = checker(q);
            let status = if success {
                Status::Pass
            } else {
                Status::Fail
            };
            report.push(ReportEntry { status: status, message: msg, tier: p.tier });
            if !success {
                passed = false;
            }
            proof {
                let r1 = report@;
                lemma_fail_in_same(r0, r1, 0, n_cpu);
                lemma_fail_in_same(r0, r1, 0, r0.len() as int);
                assert(q == system_query(i as int));
                assert forall|k: int| 0 <= k < n_cpu implies cpu_entry_ok(checker, r1, k) by {
                    lemma_cpu_entry_ok_frame(checker, r0, r1, k);
                }
                assert forall|k: int| n_cpu <= k < r1.len() implies system_entry_ok(
                    checker,
                    r1,
                    k,
                    n_cpu,
                ) by {
                    if k < r0.len() {
                        lemma_system_entry_ok_frame(checker, r0, r1, k, n_cpu);
                    } else {
                        assert(!fail_in(r1, 0, n_cpu));
                    }
                }
                if fail_in(r1, 0, r1.len() as int) {
                    let jw = choose|jw: int| 0 <= jw < r1.len() && (#[trigger] r1[jw]).status is Fail;
                    if jw < r0.len() {
                        assert(fail_in(r1, 0, r0.len() as int));
                        assert(fail_in(r0, 0, r0.len() as int));
                    } else {
                        assert(r1[kk].status is Fail);
                        assert(!success);
                    }
                }
                if fail_in(r0, 0, r0.len() as int) {
                    let jw = choose|jw: int| 0 <= jw < r0.len() && (#[trigger] r0[jw]).status is Fail;
                    assert(r1[jw].status is Fail);
                    assert(fail_in(r1, 0, r1.len() as int));
                }
                if !success {
                    assert(r1[kk].status is Fail);
                    assert(fail_in(r1, 0, r1.len() as int));
                }
            }
            i += 1;
        }
    } else {
        let mut i: usize = 0;
        while i < sys_probes.len()
            invariant
                sys_probes@.len() == system_probe_count(),
                forall|ii: int|
                    0 <= ii < sys_probes@.len() ==> is_system_probe_at(
                        #[trigger] sys_probes@[ii],
                        ii,
                    ),
                n_cpu == cpu_probe_count(eg),
                i <= sys_probes@.len(),
                report@.len() == n_cpu + i,
                fail_in(report@, 0, n_cpu),
                forall|k: int| 0 <= k < n_cpu ==> cpu_entry_ok(checker, report@, k),
                forall|k: int|
                    n_cpu <= k < report@.len() ==> system_entry_ok(checker, report@, k, n_cpu),
                !passed,
            decreases sys_probes@.len() - i,
        {
            let ghost r0 = report@;
            let p = &sys_probes[i];
            report.push(ReportEntry { status: Status::Skip, message: p.name.clone(), tier: p.tier });
            proof {
                let r1 = report@;
                lemma_fail_in_same(r0, r1, 0, n_cpu);
                assert forall|k: int| 0 <= k < n_cpu implies cpu_entry_ok(checker, r1, k) by {
                    lemma_cpu_entry_ok_frame(checker, r0, r1, k);
                }
                assert forall|k: int| n_cpu <= k < r1.len() implies system_entry_ok(
                    checker,
                    r1,
                    k,
                    n_cpu,
                ) by {
                    if k < r0.len() {
                        lemma_system_entry_ok_frame(checker, r0, r1, k, n_cpu);
                    }
                }
            }
            i += 1;
        }
        proof {
            let r1 = report@;
            let jw = choose|jw: int| 0 <= jw < n_cpu && (#[trigger] r1[jw]).status is Fail;
            assert(fail_in(r1, 0, r1.len() as int));
        }
    }

    let verdict: Result<(), DiagnosticError> = if passed {
        Result::Ok(())
    } else {
        Result::Err(DiagnosticError)
    };
    (report, verdict)
}

/// Law: the report of a run holds exactly one entry per probe of the
/// catalog in both phases — every probe is reported once, as a pass, a
/// failure or a skip, never omitted.
pub proof fn lemma_every_probe_reported<F: Fn(ProbeQuery) -> (bool, String)>(
    f: F,
    r: Seq<ReportEntry>,
    gen: SevGeneration,
)
    requires
        gated_report(f, r, gen),
    ensures
        r.len() == total_probe_count(gen),
        r.len() == cpu_probe_count(gen) + system_probe_count(),
{
}

/// Law: if the very first probe fails, every other probe of the run — the
/// remaining CPU-capability tiers and the whole operating-system phase —
/// is reported as skipped.
pub proof fn lemma_first_failure_skips_rest<F: Fn(ProbeQuery) -> (bool, String)>(
    f: F,
    r: Seq<ReportEntry>,
    gen: SevGeneration,
)
    requires
        gated_report(f, r, gen),
        r[0].status is Fail,
    ensures
        forall|k: int| 1 <= k < r.len() ==> (#[trigger] r[k]).status is Skip,
{
    assert forall|k: int| 1 <= k < r.len() implies (#[trigger] r[k]).status is Skip by {
        if k < cpu_probe_count(gen) {
            assert(cpu_entry_ok(f, r, k));
            assert(fail_in(r, 0, k)) by {
                assert(0 <= 0 < k && r[0].status is Fail);
            }
        } else {
            assert(system_entry_ok(f, r, k, cpu_probe_count(gen)));
            assert(fail_in(r, 0, cpu_probe_count(gen))) by {
                assert(0 <= 0 < cpu_probe_count(gen) && r[0].status is Fail);
            }
        }
    }
}

/// Law: when no CPU-capability probe failed, no operating-system probe is
/// skipped — a failing sibling never gates the others in that phase — and
/// any operating-system failure still fails the whole run.
pub proof fn lemma_system_probes_not_mutually_gated<F: Fn(ProbeQuery) -> (bool, String)>(
    f: F,
    r: Seq<ReportEntry>,
    gen: SevGeneration,
)
    requires
        gated_report(f, r, gen),
        !fail_in(r, 0, cpu_probe_count(gen)),
    ensures
        forall|k: int|
            cpu_probe_count(gen) <= k < r.len() ==> !((#[trigger] r[k]).status is Skip),
        fail_in(r, cpu_probe_count(gen), r.len() as int) ==> fail_in(r, 0, r.len() as int),
{
    assert forall|k: int|
        cpu_probe_count(gen) <= k < r.len() implies !((#[trigger] r[k]).status is Skip) by {
        assert(system_entry_ok(f, r, k, cpu_probe_count(gen)));
    }
    if fail_in(r, cpu_probe_count(gen), r.len() as int) {
        let j = choose|j: int|
            cpu_probe_count(gen) <= j < r.len() && (#[trigger] r[j]).status is Fail;
        assert(0 <= j < r.len() && r[j].status is Fail);
        assert(fail_in(r, 0, r.len() as int));
    }
}

/// Law: a run in which no probe failed has no skipped entry either — with
/// the cascading design, a fully passing run executes everything.
pub proof fn lemma_no_failure_no_skip<F: Fn(ProbeQuery) -> (bool, String)>(
    f: F,
    r: Seq<ReportEntry>,
    gen: SevGeneration,
)
    requires
        gated_report(f, r, gen),
        !fail_in(r, 0, r.len() as int),
    ensures
        forall|k: int| 0 <= k < r.len() ==> !((#[trigger] r[k]).status is Skip),
{
    assert forall|k: int| 0 <= k < r.len() implies !((#[trigger] r[k]).status is Skip) by {
        if k < cpu_probe_count(gen) {
            assert(cpu_entry_ok(f, r, k));
            if fail_in(r, 0, k) {
                let j = choose|j: int| 0 <= j < k && (#[trigger] r[j]).status is Fail;
                assert(fail_in(r, 0, r.len() as int));
            }
        } else {
            assert(system_entry_ok(f, r, k, cpu_probe_count(gen)));
            if fail_in(r, 0, cpu_probe_count(gen)) {
                let j = choose|j: int|
                    0 <= j < cpu_probe_count(gen) && (#[trigger] r[j]).status is Fail;
                assert(fail_in(r, 0, r.len() as int));
            }
        }
    }
}

} // verus!
