//! Names of the deterministic regression scenarios.

use vstd::prelude::*;

use crate::text::str_eq;

verus! {

/// The known scenario names.
pub open spec fn scenario_names() -> Seq<Seq<char>> {
    seq![
        "basic-compression"@,
        "append-during-update"@,
        "one-section-fails"@,
        "empty-section-fails"@,
        "persistence-roundtrip"@,
        "memory-finishes-after-line-save"@,
    ]
}

/// Whether `name` is a known scenario.
pub fn known(name: &str) -> (b: bool)
    ensures
        b == scenario_names().contains(name@),
{
    let r = str_eq(name, "basic-compression") || str_eq(name, "append-during-update") || str_eq(
        name,
        "one-section-fails",
    ) || str_eq(name, "empty-section-fails") || str_eq(name, "persistence-roundtrip") || str_eq(
        name,
        "memory-finishes-after-line-save",
    );
    proof {
        let s = scenario_names();
        if r {
            if name@ == "basic-compression"@ {
                assert(s[0] == name@);
            } else if name@ == "append-during-update"@ {
                assert(s[1] == name@);
            } else if name@ == "one-section-fails"@ {
                assert(s[2] == name@);
            } else if name@ == "empty-section-fails"@ {
                assert(s[3] == name@);
            } else if name@ == "persistence-roundtrip"@ {
                assert(s[4] == name@);
            } else {
                assert(s[5] == name@);
            }
        }
    }
    r
}

} // verus!
