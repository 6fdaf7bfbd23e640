use std::cell::Cell;

use sevcheck::catalog::SevGeneration;
use sevcheck::engine::cmd;
use sevcheck::probe::ProbeCheck;
use sevcheck::probe::ProbeQuery;
use sevcheck::report::Status;

/// A checker that passes every probe and returns a recognizable message.
fn all_pass(q: ProbeQuery) -> (bool, String) {
    (true, format!("ok {:?}", q.check))
}

#[test]
fn all_passing_run() {
    let res = cmd(Some(SevGeneration::Es), all_pass);
    let (report, verdict) = res;
    assert_eq!(report.len(), 15);
    assert!(verdict.is_ok());
    for entry in &report {
        assert_eq!(entry.status, Status::Pass);
    }
}

#[test]
fn aggregate_is_ok_iff_no_fail_entry() {
    let ok = cmd(Some(SevGeneration::Es), all_pass);
    let fails = ok.0.iter().filter(|e| e.status == Status::Fail).count();
    assert_eq!(fails, 0);
    assert!(ok.1.is_ok());

    let bad = cmd(Some(SevGeneration::Es), |q: ProbeQuery| {
        (q.check != ProbeCheck::MemlockLimit, String::from("msg"))
    });
    let fails = bad.0.iter().filter(|e| e.status == Status::Fail).count();
    assert!(fails > 0);
    assert!(bad.1.is_err());
}

#[test]
fn tier1_failure_cascades_to_all_skips() {
    let res = cmd(Some(SevGeneration::Es), |q: ProbeQuery| {
        (q.check != ProbeCheck::CpuVendor, String::from("vendor check"))
    });
    let (report, verdict) = res;
    assert_eq!(report.len(), 15);
    assert!(verdict.is_err());

    assert_eq!(report[0].status, Status::Fail);
    assert_eq!(report[0].tier, 1);
    for entry in &report[1..] {
        assert_eq!(entry.status, Status::Skip);
    }
    let tiers: Vec<u32> = report.iter().map(|e| e.tier).collect();
    assert_eq!(tiers, vec![1, 2, 3, 3, 4, 4, 4, 4, 4, 4, 5, 5, 5, 5, 5]);
    // A skipped probe is reported under its own name.
    assert_eq!(report[1].message, "Microcode support".to_string());
    assert_eq!(report[14].message, "Memlock resource limit".to_string());
}

#[test]
fn gated_checks_are_not_invoked_after_failure() {
    let calls = Cell::new(0u32);
    let res = cmd(Some(SevGeneration::Sev), |_q: ProbeQuery| {
        calls.set(calls.get() + 1);
        (false, String::from("first probe fails"))
    });
    // Only the tier-1 probe ran; the 8 later CPU probes and the 5
    // operating-system probes were skipped without being invoked.
    assert_eq!(calls.get(), 1);
    assert_eq!(res.0.len(), 14);
    assert_eq!(res.0[0].status, Status::Fail);
    for entry in &res.0[1..] {
        assert_eq!(entry.status, Status::Skip);
    }
    assert!(res.1.is_err());
}

#[test]
fn os_sibling_failure_does_not_gate_the_rest() {
    let calls = Cell::new(0u32);
    let res = cmd(Some(SevGeneration::Es), |q: ProbeQuery| {
        calls.set(calls.get() + 1);
        (q.check != ProbeCheck::DevSevReadable, format!("checked {:?}", q.check))
    });
    let (report, verdict) = res;
    // Every probe executed: the failing device probe gates nothing in its
    // own phase.
    assert_eq!(calls.get(), 15);
    assert_eq!(report.len(), 15);
    assert!(verdict.is_err());
    let fails: Vec<usize> = report
        .iter()
        .enumerate()
        .filter(|(_, e)| e.status == Status::Fail)
        .map(|(i, _)| i)
        .collect();
    assert_eq!(fails, vec![10]);
    for (i, entry) in report.iter().enumerate() {
        if i == 10 {
            assert_eq!(entry.status, Status::Fail);
        } else {
            assert_eq!(entry.status, Status::Pass);
        }
    }
}

#[test]
fn executed_entries_carry_the_collaborator_message() {
    let res = cmd(Some(SevGeneration::Sev), |q: ProbeQuery| {
        (true, format!("leaf {:#x}", q.leaf))
    });
    assert_eq!(res.0[0].message, "leaf 0x0".to_string());
    assert_eq!(res.0[1].message, "leaf 0x80000002".to_string());
    assert_eq!(res.0[2].message, "leaf 0x8000001f".to_string());
}

#[test]
fn default_generation_is_encrypted_state() {
    let default_run = cmd(None, all_pass);
    let es_run = cmd(Some(SevGeneration::Es), all_pass);
    let sev_run = cmd(Some(SevGeneration::Sev), all_pass);
    assert_eq!(default_run.0.len(), es_run.0.len());
    assert_eq!(default_run.0.len(), 15);
    assert_eq!(sev_run.0.len(), 14);
    for (a, b) in default_run.0.iter().zip(es_run.0.iter()) {
        assert_eq!(a.status, b.status);
        assert_eq!(a.message, b.message);
        assert_eq!(a.tier, b.tier);
    }
}

#[test]
fn every_probe_reported_exactly_once() {
    for gen in [SevGeneration::Sev, SevGeneration::Es] {
        let expected = match gen {
            SevGeneration::Sev => 14,
            SevGeneration::Es => 15,
        };
        let passing = cmd(Some(gen), all_pass);
        assert_eq!(passing.0.len(), expected);
        let failing = cmd(Some(gen), |_q: ProbeQuery| (false, String::from("no")));
        assert_eq!(failing.0.len(), expected);
    }
}
