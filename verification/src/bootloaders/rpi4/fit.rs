//! Choosing, naming and authenticating the fit-image to boot.
use vstd::prelude::*;

verus! {

/// The state of an update, as `updt.txt` records it.
#[derive(Clone, Copy, PartialEq, Eq, Structural)]
pub enum UpdateStatus {
    Updating,
    Success,
    Testing,
}

/// The active image's entry of `updt.txt`.
pub struct ActiveConfig {
    /// The image name and its extension (with the dot).
    pub image_name: (Vec<u8>, Vec<u8>),
    pub image_version: u32,
}

/// The passive (update) image's entry of `updt.txt`.
pub struct PassiveConfig {
    pub image_name: Option<(Vec<u8>, Vec<u8>)>,
    pub image_version: Option<u32>,
    pub update_status: Option<UpdateStatus>,
    pub ready_for_update_flag: bool,
}

/// The image chosen to boot: its file name (name and extension), its
/// version, and whether it is the passive (update) image.
pub struct FitChoice {
    pub passive_selected: bool,
    pub file_name: Vec<u8>,
    pub version: u32,
}

/// The fit-image extension, `.itb`.
pub open spec fn itb_ext() -> Seq<u8> {
    seq![0x2eu8, 0x69u8, 0x74u8, 0x62u8]
}

/// Whether the update is marked ready for the next boot: the flag is set,
/// the passive entry names an `.itb` image with a version, and its update is
/// under way or has succeeded. An update that ran but was not marked as a
/// success (Testing) is not booted again.
pub open spec fn update_ready(p: PassiveConfig) -> bool {
    &&& p.ready_for_update_flag
    &&& p.image_name is Some
    &&& p.image_version is Some
    &&& p.update_status is Some
    &&& p.image_name->Some_0.1@ == itb_ext()
    &&& (p.update_status == Some(UpdateStatus::Updating) || p.update_status == Some(
        UpdateStatus::Success,
    ))
}

/// Whether the passive image is the one to boot: the update is ready, its
/// version is greater than the active version, and the bootloader has not
/// been told to fall back to the active image.
pub open spec fn boot_passive(a: ActiveConfig, p: PassiveConfig, fallback_to_active: bool) -> bool {
    &&& update_ready(p)
    &&& p.image_version->Some_0 > a.image_version
    &&& !fallback_to_active
}

/// Whether a name and extension fit the 50-byte file name buffer.
pub open spec fn name_fits(n: (Vec<u8>, Vec<u8>)) -> bool {
    n.0@.len() + n.1@.len() <= 50
}

fn is_itb(ext: &Vec<u8>) -> (b: bool)
    ensures
        b == (ext@ == itb_ext()),
{
    if ext.len() == 4 && ext[0] == 0x2e && ext[1] == 0x69 && ext[2] == 0x74 && ext[3] == 0x62 {
        assert(ext@ =~= itb_ext());
        true
    } else {
        false
    }
}

fn concat_name(n: &(Vec<u8>, Vec<u8>)) -> (v: Vec<u8>)
    ensures
        v@ == n.0@ + n.1@,
{
    let mut v: Vec<u8> = Vec::new();
    let mut i: usize = 0;
    while i < n.0.len()
        invariant
            i <= n.0@.len(),
            v@ == n.0@.subrange(0, i as int),
        decreases n.0@.len() - i,
    {
        v.push(n.0[i]);
        i = i + 1;
    }
    let mut j: usize = 0;
    while j < n.1.len()
        invariant
            j <= n.1@.len(),
            v@ == n.0@ + n.1@.subrange(0, j as int),
        decreases n.1@.len() - j,
    {
        v.push(n.1[j]);
        j = j + 1;
    }
    assert(n.0@.subrange(0, n.0@.len() as int) =~= n.0@);
    assert(n.1@.subrange(0, n.1@.len() as int) =~= n.1@);
    v
}

/// Chooses the fit-image to load from the entries of `updt.txt`: the
/// passive image when its update is ready, newer than the active image and
/// no fall-back was requested; the active image otherwise.
pub fn select_fit(active: &ActiveConfig, passive: &PassiveConfig, fallback_to_active: bool) -> (c: FitChoice)
    requires
        name_fits(active.image_name),
        passive.image_name matches Some(n) ==> name_fits(n),
    ensures
        c.passive_selected == boot_passive(*active, *passive, fallback_to_active),
        c.passive_selected ==> c.version == passive.image_version->Some_0 && c.file_name@
            == passive.image_name->Some_0.0@ + passive.image_name->Some_0.1@,
        !c.passive_selected ==> c.version == active.image_version && c.file_name@
            == active.image_name.0@ + active.image_name.1@,
{
    let updt_flag = if passive.ready_for_update_flag {
        match (&passive.image_name, passive.image_version, passive.update_status) {
            (None, _, _) => false,
            (_, None, _) => false,
            (_, _, None) => false,
            (Some(n), _, Some(status)) => is_itb(&n.1) && (status == UpdateStatus::Updating || status
                == UpdateStatus::Success),
        }
    } else {
        false
    };
    let version_check = match passive.image_version {
        Some(ver) => ver > active.image_version,
        None => false,
    };
    if updt_flag && version_check && !fallback_to_active {
        let name = match &passive.image_name {
            Some(n) => concat_name(n),
            None => concat_name(&active.image_name),
        };
        let version = match passive.image_version {
            Some(v) => v,
            None => active.image_version,
        };
        FitChoice { passive_selected: true, file_name: name, version: version }
    } else {
        FitChoice {
            passive_selected: false,
            file_name: concat_name(&active.image_name),
            version: active.image_version,
        }
    }
}

/// The dotted form of an 8.3 short file name: the 8 name bytes, a `.`, and
/// the 3 extension bytes.
pub open spec fn dotted(b: Seq<u8>) -> Seq<u8> {
    b.subrange(0, 8) + seq![0x2eu8] + b.subrange(8, 11)
}

/// Short file names do not hold the `.` between the name and the
/// extension; this adds it.
pub fn to_dotted_sfn(bytes: [u8; 11]) -> (d: [u8; 12])
    ensures
        d@ == dotted(bytes@),
{
    let mut dotted_sfn: [u8; 12] = [0u8; 12];
    let mut idx: usize = 0;
    while idx < 11
        invariant
            idx <= 11,
            forall|k: int| 0 <= k < idx && k < 8 ==> #[trigger] dotted_sfn@[k] == bytes@[k],
            idx > 8 ==> dotted_sfn@[8] == 0x2eu8,
            forall|k: int| 9 <= k < idx + 1 ==> #[trigger] dotted_sfn@[k] == bytes@[k - 1],
        decreases 11 - idx,
    {
        let byte = bytes[idx];
        if idx == 8 {
            dotted_sfn[idx] = 0x2e;
            dotted_sfn[idx + 1] = byte;
        } else if idx > 8 {
            dotted_sfn[idx + 1] = byte;
        } else {
            dotted_sfn[idx] = byte;
        }
        idx = idx + 1;
    }
    assert(dotted_sfn@ =~= dotted(bytes@));
    dotted_sfn
}

/// Why an image failed authentication.
#[derive(Clone, Copy, PartialEq, Eq, Structural, Debug)]
pub enum AuthError {
    /// The version in `updt.txt` does not match the image's timestamp.
    BadVersion,
    /// The signature check failed.
    FwAuthFailed,
    /// The image could not be checked at all.
    Invalid,
}

/// The result of authenticating a fit-image, from the outcome of the
/// signature and version check: a version mismatch is reported as such,
/// every other failure as a failed authentication.
pub fn verify_authenticity(check: Result<bool, AuthError>) -> (r: Result<bool, AuthError>)
    ensures
        r == (match check {
            Ok(v) => Ok::<bool, AuthError>(v),
            Err(AuthError::BadVersion) => Err::<bool, AuthError>(AuthError::BadVersion),
            Err(_) => Err::<bool, AuthError>(AuthError::FwAuthFailed),
        }),
{
    match check {
        Ok(val) => Ok(val),
        Err(e) => match e {
            AuthError::BadVersion => Err(e),
            _ => Err(AuthError::FwAuthFailed),
        },
    }
}

} // verus!
