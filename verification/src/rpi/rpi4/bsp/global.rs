//! Top-level board support of the Raspberry Pi 4.
use vstd::prelude::*;

verus! {

/// Board identification.
pub fn board_name() -> (s: &'static str)
    ensures
        s@ == "Raspberry Pi 4"@,
{
    "Raspberry Pi 4"
}

} // verus!
