//! Global peripherals of the i.MX 8M Nano EVK.
use vstd::prelude::*;

verus! {

/// Board identification.
pub fn board_name() -> (s: &'static str)
    ensures
        s@ == "i.MX 8M Nano EVK"@,
{
    "i.MX 8M Nano EVK"
}

} // verus!
