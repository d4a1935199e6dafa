//! The kernel command line and initrd bounds patched into the device tree.
use vstd::prelude::*;
use vstd::utf8::valid_utf8;

verus! {

/// Whether `bytes` is valid UTF-8: calls `core::str::from_utf8` and tells
/// whether it succeeded, which it does exactly when the bytes are a valid
/// UTF-8 encoding (`vstd::utf8::valid_utf8`).
#[verifier::external_body]
fn is_utf8(bytes: &[u8]) -> (b: bool)
    ensures
        b == valid_utf8(bytes@),
{
    core::str::from_utf8(bytes).is_ok()
}

/// Why the property values could not be made.
#[derive(Clone, Copy, PartialEq, Eq, Structural, Debug)]
pub enum DtError {
    /// The command line is not valid UTF-8.
    BadStrEncoding,
}

/// The properties patched into the device tree's chosen node.
pub struct PropertyValues {
    /// The kernel command line.
    pub bootargs: Vec<u8>,
    /// The first address of the initrd, big-endian.
    pub initrd_start: [u8; 4],
    /// The address just past the initrd, big-endian.
    pub initrd_end: [u8; 4],
}

/// `bootargs="`, the start of an `rbconfig` command line.
pub open spec fn bootargs_prefix() -> Seq<u8> {
    seq![0x62u8, 0x6fu8, 0x6fu8, 0x74u8, 0x61u8, 0x72u8, 0x67u8, 0x73u8, 0x3du8, 0x22u8]
}

/// Whether an `rbconfig` command line has the form `bootargs="..."`.
pub open spec fn bootargs_form(s: Seq<u8>) -> bool {
    s.len() >= 11 && s[s.len() - 1] == 0x22u8 && s.subrange(0, 10) == bootargs_prefix()
}

/// The four big-endian bytes of a word.
pub open spec fn be_bytes(x: u32) -> Seq<u8> {
    seq![(x >> 24u32) as u8, ((x >> 16u32) & 0xff) as u8, ((x >> 8u32) & 0xff) as u8, (x & 0xff) as u8]
}

/// The property values made from a command line and the initrd bounds.
pub open spec fn props_of(v: PropertyValues, cmd_line: Seq<u8>, initrd_start: u32, initrd_len: usize) -> bool {
    &&& v.bootargs@ == cmd_line.subrange(10, cmd_line.len() - 1)
    &&& v.initrd_start@ == be_bytes(initrd_start)
    &&& v.initrd_end@ == be_bytes((initrd_start + initrd_len) as u32)
}

fn to_be_bytes(x: u32) -> (b: [u8; 4])
    ensures
        b@ == be_bytes(x),
{
    let b: [u8; 4] = [(x >> 24u32) as u8, ((x >> 16u32) & 0xff) as u8, ((x >> 8u32) & 0xff) as u8, (x & 0xff) as u8];
    assert(b@ =~= be_bytes(x));
    b
}

/// The properties for the chosen node: the command line inside
/// `bootargs="..."` and the bounds of an initrd of `initrd_len` bytes loaded
/// at `initrd_start`.
pub fn get_propval_list(cmd_line: &[u8], initrd_start: u32, initrd_len: usize) -> (r: Result<
    PropertyValues,
    DtError,
>)
    requires
        valid_utf8(cmd_line@) ==> bootargs_form(cmd_line@) && initrd_start + initrd_len <= u32::MAX,
    ensures
        !valid_utf8(cmd_line@) ==> r == Err::<PropertyValues, DtError>(DtError::BadStrEncoding),
        valid_utf8(cmd_line@) ==> (r matches Ok(v) && props_of(v, cmd_line@, initrd_start, initrd_len)),
{
    if !is_utf8(cmd_line) {
        return Err(DtError::BadStrEncoding);
    }
    let mut bootargs: Vec<u8> = Vec::new();
    let end = cmd_line.len() - 1;
    let mut i: usize = 10;
    while i < end
        invariant
            10 <= i <= end,
            end == cmd_line@.len() - 1,
            bootargs@ == cmd_line@.subrange(10, i as int),
        decreases end - i,
    {
        bootargs.push(cmd_line[i]);
        i = i + 1;
    }
    let initrd_end = initrd_start + initrd_len as u32;
    Ok(
        PropertyValues {
            bootargs,
            initrd_start: to_be_bytes(initrd_start),
            initrd_end: to_be_bytes(initrd_end),
        },
    )
}

/// The properties for the chosen node where the command line and the initrd
/// bounds are well-formed: `None` where the command line is UTF-8 but lacks
/// the `bootargs="..."` form, or the initrd would end past the 32-bit
/// address space.
pub fn checked_propval_list(cmd_line: &[u8], initrd_start: u32, initrd_len: usize) -> (r: Option<
    Result<PropertyValues, DtError>,
>)
    ensures
        r is None <==> valid_utf8(cmd_line@) && !(bootargs_form(cmd_line@) && initrd_start
            + initrd_len <= u32::MAX),
        !valid_utf8(cmd_line@) ==> r == Some(Err::<PropertyValues, DtError>(DtError::BadStrEncoding)),
        valid_utf8(cmd_line@) && bootargs_form(cmd_line@) && initrd_start + initrd_len <= u32::MAX ==> (r matches Some(Ok(v))
            && props_of(v, cmd_line@, initrd_start, initrd_len)),
        r matches Some(Ok(v)) ==> props_of(v, cmd_line@, initrd_start, initrd_len),
{
    if is_utf8(cmd_line) {
        let len = cmd_line.len();
        let well_formed = len >= 11 && cmd_line[len - 1] == 0x22 && cmd_line[0] == 0x62 && cmd_line[1]
            == 0x6f && cmd_line[2] == 0x6f && cmd_line[3] == 0x74 && cmd_line[4] == 0x61 && cmd_line[5]
            == 0x72 && cmd_line[6] == 0x67 && cmd_line[7] == 0x73 && cmd_line[8] == 0x3d && cmd_line[9]
            == 0x22;
        proof {
            if len >= 11 {
                if cmd_line@.subrange(0, 10) == bootargs_prefix() {
                    assert(cmd_line@.subrange(0, 10)[9] == cmd_line@[9]);
                }
                if well_formed {
                    assert(cmd_line@.subrange(0, 10) =~= bootargs_prefix());
                }
            }
        }
        if !well_formed || initrd_len > (0xFFFF_FFFFu32 - initrd_start) as usize {
            return None;
        }
    }
    Some(get_propval_list(cmd_line, initrd_start, initrd_len))
}

} // verus!
