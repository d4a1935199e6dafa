//! Load areas of the boot images.
use vstd::prelude::*;

verus! {

pub const MAX_INITRAMFS_SIZE: usize = 16066 * 4 * 512;
pub const MAX_KERNEL_SIZE: usize = 14624 * 4 * 512;
pub const MAX_DTB_SIZE: usize = 100 * 512;
pub const MAX_ITB_SIZE: usize = 32000 * 4 * 512;

/// Copies an image into the start of its load area; the image must be
/// shorter than the area. The rest of the area is left as it is.
pub fn relocate_image(entry: &mut Vec<u8>, data: &[u8])
    requires
        data@.len() < old(entry)@.len(),
    ensures
        final(entry)@.len() == old(entry)@.len(),
        final(entry)@.subrange(0, data@.len() as int) == data@,
        final(entry)@.subrange(data@.len() as int, old(entry)@.len() as int) == old(entry)@.subrange(
            data@.len() as int,
            old(entry)@.len() as int,
        ),
{
    let len = data.len();
    let mut i: usize = 0;
    while i < len
        invariant
            i <= len,
            len == data@.len(),
            len < old(entry)@.len(),
            entry@.len() == old(entry)@.len(),
            forall|k: int| 0 <= k < i ==> #[trigger] entry@[k] == data@[k],
            forall|k: int| i <= k < entry@.len() ==> #[trigger] entry@[k] == old(entry)@[k],
        decreases len - i,
    {
        entry.set(i, data[i]);
        i = i + 1;
    }
    assert(entry@.subrange(0, len as int) =~= data@);
    assert(entry@.subrange(len as int, entry@.len() as int) =~= old(entry)@.subrange(
        len as int,
        old(entry)@.len() as int,
    ));
}

} // verus!
