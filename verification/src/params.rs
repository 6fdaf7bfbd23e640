//! Interpretation of data read by the operating-system collaborators.
//!
//! Reading the kernel module parameter file is a collaborator's job; the
//! decision whether its contents say that SEV is enabled in KVM is made
//! here, on the raw bytes.

use vstd::prelude::*;

verus! {

/// An ASCII whitespace byte: space, tab, line feed, vertical tab, form
/// feed or carriage return.
pub open spec fn is_ascii_space(b: u8) -> bool {
    b == 32 || (9 <= b && b <= 13)
}

/// The parameter file's contents say SEV is enabled: a single "1" (byte
/// 49), with every other byte ASCII whitespace around it.
pub open spec fn parameter_says_enabled(s: Seq<u8>) -> bool {
    exists|i: int|
        {
            &&& 0 <= i < s.len()
            &&& (#[trigger] s[i]) == 49
            &&& forall|j: int| 0 <= j < s.len() && j != i ==> is_ascii_space(#[trigger] s[j])
        }
}

/// Decides `is_ascii_space` on one byte.
fn is_space_byte(b: u8) -> (r: bool)
    ensures
        r == is_ascii_space(b),
{
    b == 32 || (9 <= b && b <= 13)
}

/// Decides whether the bytes of the kernel's SEV-enablement parameter file
/// report the feature as enabled: their content, once surrounding
/// whitespace is ignored, must be exactly "1".
pub fn kvm_sev_parameter_enabled(bytes: &Vec<u8>) -> (r: bool)
    ensures
        r == parameter_says_enabled(bytes@),
{
    let n = bytes.len();
    let mut idx: usize = 0;
    let mut found: bool = false;
    let mut pos: usize = 0;
    while idx < n
        invariant
            n == bytes@.len(),
            idx <= n,
            !found ==> forall|j: int| 0 <= j < idx ==> is_ascii_space(#[trigger] bytes@[j]),
            found ==> pos < idx && bytes@[pos as int] == 49 && forall|j: int|
                0 <= j < idx && j != pos ==> is_ascii_space(#[trigger] bytes@[j]),
        decreases n - idx,
    {
        let b = bytes[idx];
        if b == 49 && !found {
            found = true;
            pos = idx;
        } else if !is_space_byte(b) {
            proof {
                if parameter_says_enabled(bytes@) {
                    let i = choose|i: int|
                        {
                            &&& 0 <= i < bytes@.len()
                            &&& (#[trigger] bytes@[i]) == 49
                            &&& forall|j: int|
                                0 <= j < bytes@.len() && j != i ==> is_ascii_space(
                                    #[trigger] bytes@[j],
                                )
                        };
                    assert(idx == i);
                    assert(found ==> is_ascii_space(bytes@[pos as int]));
                }
            }
            return false;
        }
        idx += 1;
    }
    proof {
        if found {
            assert(parameter_says_enabled(bytes@));
        } else if parameter_says_enabled(bytes@) {
            let i = choose|i: int|
                {
                    &&& 0 <= i < bytes@.len()
                    &&& (#[trigger] bytes@[i]) == 49
                    &&& forall|j: int|
                        0 <= j < bytes@.len() && j != i ==> is_ascii_space(#[trigger] bytes@[j])
                };
            assert(is_ascii_space(bytes@[i]));
        }
    }
    found
}

} // verus!
