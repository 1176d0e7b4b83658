//! The version column of the list of managed programs.

use vstd::prelude::*;
use crate::text::{same_text, trim_text, trimmed};

verus! {

/// Whether the program prints no usable version, so it is not probed.
pub open spec fn is_unversioned(program: Seq<char>) -> bool {
    program == "bpftop"@
}

/// Whether the program prints no usable version, so it is not probed.
pub fn unversioned(program: &str) -> (r: bool)
    ensures
        r == is_unversioned(program@),
{
    same_text(program, "bpftop")
}

/// The version column: `Not installed`, `Unsupported` for a program that
/// is not probed, `Unable to retrieve` when the probe gave nothing, else the
/// probe's output without surrounding whitespace.
pub open spec fn label_of(present: bool, program: Seq<char>, probe: Option<Seq<char>>) -> Seq<
    char,
> {
    if !present {
        "Not installed"@
    } else if is_unversioned(program) {
        "Unsupported"@
    } else {
        match probe {
            Some(out) => if trimmed(out).len() > 0 {
                trimmed(out)
            } else {
                "Unable to retrieve"@
            },
            None => "Unable to retrieve"@,
        }
    }
}

/// The version column for one program, from whether its binary is present
/// and what its probe printed (`None` when the probe failed or timed out).
pub fn version_label(present: bool, program: &str, probe: &Option<String>) -> (r: String)
    ensures
        r@ == label_of(present, program@, match probe {
            Some(out) => Some(out@),
            None => None,
        }),
{
    if !present {
        String::from_str("Not installed")
    } else if unversioned(program) {
        String::from_str("Unsupported")
    } else {
        match probe {
            Some(out) => {
                let t = trim_text(out.as_str());
                if t.unicode_len() > 0 {
                    String::from_str(t)
                } else {
                    String::from_str("Unable to retrieve")
                }
            },
            None => String::from_str("Unable to retrieve"),
        }
    }
}

} // verus!
