//! The boot decisions of the bootloader's main function.
use vstd::prelude::*;
use zeroize::Zeroize;
use super::fit::AuthError;

verus! {

/// What the bootloader does once an image's authentication is known.
#[derive(Clone, Copy, PartialEq, Eq, Structural)]
pub enum BootStep {
    /// Relocate the kernel and ramdisk and patch the device tree.
    Relocate,
    /// Clear the loaded image, and load and check the active image instead.
    FallBackToActive,
    /// Stop: the image cannot be booted.
    Halt,
}

/// The next step after authenticating the chosen image: relocate an
/// authentic image; fall back to the active image when the passive image's
/// version check failed and a fall-back was requested; halt otherwise.
pub fn after_verification(res: Result<bool, AuthError>, fallback_to_active: bool) -> (s: BootStep)
    ensures
        s == (match res {
            Ok(true) => BootStep::Relocate,
            Err(AuthError::BadVersion) => if fallback_to_active {
                BootStep::FallBackToActive
            } else {
                BootStep::Halt
            },
            _ => BootStep::Halt,
        }),
{
    match res {
        Ok(val) => if val {
            BootStep::Relocate
        } else {
            BootStep::Halt
        },
        Err(e) => if e == AuthError::BadVersion && fallback_to_active {
            BootStep::FallBackToActive
        } else {
            BootStep::Halt
        },
    }
}

/// The next step after authenticating the active image on a fall-back:
/// relocate it if it is authentic; an active image has booted before, so
/// anything else halts.
pub fn after_fallback_verification(res: Result<bool, AuthError>) -> (s: BootStep)
    ensures
        s == (if res == Ok::<bool, AuthError>(true) {
            BootStep::Relocate
        } else {
            BootStep::Halt
        }),
{
    match res {
        Ok(val) => if val {
            BootStep::Relocate
        } else {
            BootStep::Halt
        },
        Err(_) => BootStep::Halt,
    }
}

/// Sets every byte of `buf` to zero with zeroize's `Zeroize` impl for
/// `[u8]`, which writes zero to each element with volatile stores.
#[verifier::external_body]
fn zeroize_bytes(buf: &mut Vec<u8>)
    ensures
        final(buf)@.len() == old(buf)@.len(),
        forall|i: int| 0 <= i < final(buf)@.len() ==> #[trigger] final(buf)@[i] == 0u8,
{
    buf.as_mut_slice().zeroize();
}

/// Clears the image-tree load area before the active image is loaded into it.
pub fn clear_image_tree(itb: &mut Vec<u8>)
    ensures
        final(itb)@.len() == old(itb)@.len(),
        forall|i: int| 0 <= i < final(itb)@.len() ==> #[trigger] final(itb)@[i] == 0u8,
{
    zeroize_bytes(itb);
}

} // verus!
