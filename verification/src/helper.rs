use vstd::prelude::*;

verus! {

/// The flag as the service counts it: 1 for `true`, 0 for `false`.
pub fn bool_to_u8(b: bool) -> (n: u8)
    ensures
        n == (if b { 1u8 } else { 0u8 }),
{
    if b {
        1u8
    } else {
        0u8
    }
}

} // verus!
