//! Per-probe outcomes, the reporter-sink entries built from them, and the
//! run-level error value.

use vstd::prelude::*;
use vstd::string::StringExecFns;

verus! {

/// Outcome of one probe: executed and passed, executed and failed, or never
/// executed because an earlier failure gated it off.
#[derive(Clone, Copy, PartialEq, Eq, Structural, Debug)]
pub enum Status {
    Pass,
    Fail,
    Skip,
}

/// One reporter-sink entry. The engine emits exactly one entry per probe, in
/// catalog order: its status, the message to show for it, and the probe's
/// dependency tier.
pub struct ReportEntry {
    pub status: Status,
    pub message: String,
    pub tier: u32,
}

/// The run-level error: returned when at least one probe reported a failure.
/// Per-probe detail is already in the report entries, so the error carries a
/// message and nothing more.
pub struct DiagnosticError;

impl DiagnosticError {
    /// The one message the run-level error carries.
    pub fn message(&self) -> (s: String)
        ensures
            s@ == "One or more diagnostic checks reported a failure"@,
    {
        String::from_str("One or more diagnostic checks reported a failure")
    }
}

/// The indentation prefix a renderer puts before a probe's message, by tier:
/// deeper tiers are indented further.
pub fn get_align_level(level: u32) -> (r: &'static str)
    ensures
        level == 1 ==> r@ == " "@,
        level == 2 ==> r@ == " - "@,
        level == 3 ==> r@ == "   - "@,
        level == 4 ==> r@ == "     - "@,
        (level == 0 || level >= 5) ==> r@ == "       - "@,
{
    match level {
        1 => " ",
        2 => " - ",
        3 => "   - ",
        4 => "     - ",
        _ => "       - ",
    }
}

} // verus!
