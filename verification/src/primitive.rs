//! The primitive value domains: the fixed boolean sequence that every
//! boolean property ranges over, and the canonical string forms of the
//! primitive values.

use vstd::prelude::*;

verus! {

/// Returns the domain of every boolean property: `[false, true]`, in that
/// fixed order.
pub fn sequence() -> (r: Vec<bool>)
    ensures
        r@ == seq![false, true],
{
    let r = vec![false, true];
    proof {
        assert(r@ =~= seq![false, true]);
    }
    r
}

/// Returns the canonical string form of a boolean: `"true"` or `"false"`.
pub fn to_str(value: bool) -> (r: &'static str)
    ensures
        r@ == if value {
            "true"@
        } else {
            "false"@
        },
{
    if value {
        "true"
    } else {
        "false"
    }
}

} // verus!
