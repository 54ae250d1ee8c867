//! Source-pinned GSP-RM firmware manifests and measured admission.
use vstd::prelude::*;

use sha2::Digest;

use crate::elf_gsp::{
    fwversion_bytes, parse_gsp_rm_elf, spec_elf_magic, spec_fwversion_bytes, spec_parse_gsp_rm_elf,
};
use crate::fault::HermesFault;
use crate::pci::{nvidia_architecture_hint, spec_nvidia_architecture, NvidiaArchitecture};

verus! {

/// GSP-RM firmware line used by TU10x devices and GA100.
#[derive(Clone, Copy, Debug, PartialEq, Eq, Structural)]
pub enum FirmwareFamily {
    Tu10x,
    Ga10x,
}

pub const MAXIMUM_TU10X_GSP_BYTES: u32 = 33554432;
pub const MAXIMUM_GA10X_GSP_BYTES: u32 = 100663296;

/// The SHA-256 digest that `sha2` computes for a byte sequence.
pub uninterp spec fn spec_sha256(data: Seq<u8>) -> Seq<u8>;

/// SHA-256 of `data`, computed by `sha2::Sha256::digest`.
/// Trusted: the result is the 32-byte digest that `sha2` returns for exactly
/// these bytes; nothing else about the digest is claimed.
#[verifier::external_body]
pub fn sha256_bytes(data: &[u8]) -> (out: [u8; 32])
    ensures
        out@ == spec_sha256(data@),
{
    let digest = sha2::Sha256::digest(data);
    let mut out = [0u8; 32];
    out.copy_from_slice(digest.as_slice());
    out
}

/// Byte-wise equality of two digests.
pub fn digest_eq(a: &[u8; 32], b: &[u8; 32]) -> (r: bool)
    ensures
        r == (a@ == b@),
{
    let mut i: usize = 0;
    while i < 32
        invariant
            i <= 32,
            a@.len() == 32,
            b@.len() == 32,
            forall|k: int| 0 <= k < i ==> a@[k] == b@[k],
        decreases 32 - i,
    {
        if a[i] != b[i] {
            return false;
        }
        i = i + 1;
    }
    assert(a@ =~= b@);
    true
}

pub open spec fn is_zero_digest(d: Seq<u8>) -> bool {
    forall|k: int| 0 <= k < d.len() ==> d[k] == 0
}

fn digest_is_zero(a: &[u8; 32]) -> (r: bool)
    ensures
        r == is_zero_digest(a@),
{
    let mut i: usize = 0;
    while i < 32
        invariant
            i <= 32,
            a@.len() == 32,
            forall|k: int| 0 <= k < i ==> a@[k] == 0,
        decreases 32 - i,
    {
        if a[i] != 0 {
            return false;
        }
        i = i + 1;
    }
    true
}

pub open spec fn spec_maximum_image_bytes(family: FirmwareFamily) -> u32 {
    match family {
        FirmwareFamily::Tu10x => MAXIMUM_TU10X_GSP_BYTES,
        FirmwareFamily::Ga10x => MAXIMUM_GA10X_GSP_BYTES,
    }
}

/// Largest GSP-RM image accepted for a firmware line.
pub fn maximum_image_bytes(family: FirmwareFamily) -> (n: u32)
    ensures
        n == spec_maximum_image_bytes(family),
{
    match family {
        FirmwareFamily::Tu10x => MAXIMUM_TU10X_GSP_BYTES,
        FirmwareFamily::Ga10x => MAXIMUM_GA10X_GSP_BYTES,
    }
}

pub open spec fn spec_firmware_version(major: u16, minor: u16, patch: u16) -> u64 {
    (major * 0x1_0000_0000 + minor * 0x1_0000 + patch) as u64
}

proof fn lemma_version_pack(major: u64, minor: u64, patch: u64)
    by (bit_vector)
    requires
        major < 0x10000,
        minor < 0x10000,
        patch < 0x10000,
    ensures
        (major << 32u64) | (minor << 16u64) | patch == major * 0x1_0000_0000u64 + minor
            * 0x1_0000u64 + patch,
{
}

/// Packs a driver release `major.minor.patch` as `major<<32 | minor<<16 | patch`.
pub fn firmware_version(major: u16, minor: u16, patch: u16) -> (v: u64)
    ensures
        v == spec_firmware_version(major, minor, patch),
{
    proof {
        lemma_version_pack(major as u64, minor as u64, patch as u64);
    }
    (major as u64) << 32 | (minor as u64) << 16 | patch as u64
}

/// A pinned GSP-RM image: family, release, exact length and SHA-256.
#[derive(Clone, Copy, Debug, PartialEq, Eq)]
pub struct NvidiaGspFirmwareManifest {
    pub family: FirmwareFamily,
    pub version: u64,
    pub byte_length: u32,
    pub sha256: [u8; 32],
}

impl NvidiaGspFirmwareManifest {
    pub open spec fn spec_valid(self) -> bool {
        &&& self.version != 0
        &&& self.byte_length != 0
        &&& !is_zero_digest(self.sha256@)
        &&& self.byte_length <= spec_maximum_image_bytes(self.family)
    }

    pub fn new(family: FirmwareFamily, version: u64, byte_length: u32, sha256: [u8; 32]) -> (m:
        Self)
        ensures
            m == (NvidiaGspFirmwareManifest { family, version, byte_length, sha256 }),
    {
        NvidiaGspFirmwareManifest { family, version, byte_length, sha256 }
    }

    /// Usable pin: nonzero release, nonzero length within the family bound, nonzero digest.
    pub fn valid(self) -> (b: bool)
        ensures
            b == self.spec_valid(),
    {
        self.version != 0 && self.byte_length != 0 && !digest_is_zero(&self.sha256)
            && self.byte_length <= maximum_image_bytes(self.family)
    }
}

/// Host-measured OpenRM 610.43.02 pins (TU10x, GA10x).
pub fn nvidia_gsp_rm_610_43_02() -> (pins: [NvidiaGspFirmwareManifest; 2])
    ensures
        pins[0].family == FirmwareFamily::Tu10x,
        pins[1].family == FirmwareFamily::Ga10x,
        pins[0].byte_length == 29352832,
        pins[1].byte_length == 84277400,
        pins[0].version == spec_firmware_version(610, 43, 2),
        pins[1].version == spec_firmware_version(610, 43, 2),
        pins[0].spec_valid(),
        pins[1].spec_valid(),
{
    let v = firmware_version(610, 43, 2);
    let a = NvidiaGspFirmwareManifest::new(
        FirmwareFamily::Tu10x,
        v,
        29352832,
        [
            0xc8, 0xfc, 0x1a, 0x92, 0xc9, 0x0b, 0x03, 0x4b, 0xbb, 0xe4, 0xd5, 0x6c, 0xa9, 0x4b,
            0x0d, 0xc9, 0x5a, 0xfb, 0x52, 0xd3, 0x40, 0x9a, 0x78, 0x80, 0x18, 0x6a, 0xe0, 0x3c,
            0x7d, 0xde, 0x17, 0xf3,
        ],
    );
    let b = NvidiaGspFirmwareManifest::new(
        FirmwareFamily::Ga10x,
        v,
        84277400,
        [
            0x00, 0xda, 0x3f, 0xd9, 0xb4, 0x1d, 0xb8, 0xaf, 0xd6, 0x61, 0xc9, 0xdc, 0xec, 0x2a,
            0x32, 0xa3, 0x1d, 0x3c, 0x14, 0xb9, 0x3e, 0x6d, 0x71, 0x12, 0xd4, 0xfb, 0x3f, 0x46,
            0x87, 0x65, 0x25, 0xce,
        ],
    );
    assert(a.sha256@[0] != 0);
    assert(b.sha256@[1] != 0);
    [a, b]
}

/// Measured 610.43.03 GSP-RM pins (TU10x, GA10x).
pub fn nvidia_gsp_rm_610_43_03() -> (pins: [NvidiaGspFirmwareManifest; 2])
    ensures
        pins[0].family == FirmwareFamily::Tu10x,
        pins[1].family == FirmwareFamily::Ga10x,
        pins[0].byte_length == 29352832,
        pins[1].byte_length == 84277400,
        pins[0].version == spec_firmware_version(610, 43, 3),
        pins[1].version == spec_firmware_version(610, 43, 3),
        pins[0].spec_valid(),
        pins[1].spec_valid(),
{
    let v = firmware_version(610, 43, 3);
    let a = NvidiaGspFirmwareManifest::new(
        FirmwareFamily::Tu10x,
        v,
        29352832,
        [
            0x73, 0x06, 0x56, 0x19, 0xdb, 0x9e, 0xc9, 0x21, 0xd1, 0x9f, 0xc4, 0xe5, 0x19, 0xdd,
            0x04, 0xd9, 0x1a, 0x91, 0x99, 0xb5, 0x25, 0xea, 0xca, 0x9b, 0x25, 0x7b, 0x89, 0xfb,
            0x8c, 0x5e, 0x52, 0xc0,
        ],
    );
    let b = NvidiaGspFirmwareManifest::new(
        FirmwareFamily::Ga10x,
        v,
        84277400,
        [
            0x57, 0x23, 0x73, 0x62, 0x0a, 0x37, 0x41, 0x8f, 0x24, 0xdc, 0x16, 0xb5, 0x03, 0x1c,
            0x39, 0x33, 0x87, 0x78, 0xc3, 0x25, 0x7e, 0x48, 0xe8, 0x40, 0x8d, 0xe9, 0xa5, 0x72,
            0x91, 0xb2, 0x4f, 0x3a,
        ],
    );
    assert(a.sha256@[0] != 0);
    assert(b.sha256@[0] != 0);
    [a, b]
}

/// Firmware line of a device: Turing and the GA100 band use TU10x, later
/// known generations use GA10x, unknown IDs have none.
pub open spec fn spec_firmware_family(device_id: u16) -> Option<FirmwareFamily> {
    match spec_nvidia_architecture(device_id) {
        Some(NvidiaArchitecture::Turing) => Some(FirmwareFamily::Tu10x),
        Some(_) => if 0x2000 <= device_id <= 0x20ff {
            Some(FirmwareFamily::Tu10x)
        } else {
            Some(FirmwareFamily::Ga10x)
        },
        None => None,
    }
}

proof fn lemma_hint_masks()
    by (bit_vector)
    ensures
        0x101u32 & 0x100u32 != 0,
        0x201u32 & 0x100u32 == 0,
        0x401u32 & 0x100u32 == 0,
        0x801u32 & 0x100u32 == 0,
        0x1001u32 & 0x100u32 == 0,
        0u32 & 0x100u32 == 0,
        0x201u32 & 0x1e00u32 != 0,
        0x401u32 & 0x1e00u32 != 0,
        0x801u32 & 0x1e00u32 != 0,
        0x1001u32 & 0x1e00u32 != 0,
        0u32 & 0x1e00u32 == 0,
        0x200u32 | 0x400u32 | 0x800u32 | 0x1000u32 == 0x1e00u32,
{
}

/// Classifies device IDs into GSP firmware lines. Unknown IDs return None.
pub fn firmware_family_for_device(device_id: u16) -> (f: Option<FirmwareFamily>)
    ensures
        f == spec_firmware_family(device_id),
{
    proof {
        lemma_hint_masks();
    }
    let architecture = nvidia_architecture_hint(device_id);
    if architecture & 0x100 != 0 || (device_id >= 0x2000 && device_id <= 0x20ff) {
        return Some(FirmwareFamily::Tu10x);
    }
    if architecture & (0x200 | 0x400 | 0x800 | 0x1000) != 0 {
        return Some(FirmwareFamily::Ga10x);
    }
    None
}

/// Firmware identity after exact length + digest admission.
#[derive(Clone, Copy, Debug, PartialEq, Eq)]
pub struct VerifiedFirmware {
    pub family: FirmwareFamily,
    pub version: u64,
    pub byte_length: u32,
    pub sha256: [u8; 32],
}

/// Some valid pin of this family has exactly this length.
pub open spec fn spec_length_may_match(allow: Seq<NvidiaGspFirmwareManifest>, family: FirmwareFamily, length: u32) -> bool {
    exists|k: int|
        0 <= k < allow.len() && (#[trigger] allow[k]).family == family && allow[k].byte_length
            == length && allow[k].spec_valid()
}

pub open spec fn spec_pin_matches(m: NvidiaGspFirmwareManifest, family: FirmwareFamily, length: u32, digest: Seq<u8>) -> bool {
    m.family == family && m.byte_length == length && m.sha256@ == digest && m.spec_valid()
}

/// First pin at or after `i` that matches family, length and digest.
pub open spec fn spec_first_match(
    allow: Seq<NvidiaGspFirmwareManifest>,
    family: FirmwareFamily,
    length: u32,
    digest: Seq<u8>,
    i: int,
) -> Option<NvidiaGspFirmwareManifest>
    decreases allow.len() - i,
{
    if i >= allow.len() || i < 0 {
        None
    } else if spec_pin_matches(allow[i], family, length, digest) {
        Some(allow[i])
    } else {
        spec_first_match(allow, family, length, digest, i + 1)
    }
}

pub open spec fn spec_verified(m: NvidiaGspFirmwareManifest) -> VerifiedFirmware {
    VerifiedFirmware {
        family: m.family,
        version: m.version,
        byte_length: m.byte_length,
        sha256: m.sha256,
    }
}

proof fn lemma_first_match_digest(
    allow: Seq<NvidiaGspFirmwareManifest>,
    family: FirmwareFamily,
    length: u32,
    digest: Seq<u8>,
    i: int,
)
    ensures
        spec_first_match(allow, family, length, digest, i) matches Some(m) ==> m.sha256@ == digest,
    decreases allow.len() - i,
{
    if 0 <= i < allow.len() && !spec_pin_matches(allow[i], family, length, digest) {
        lemma_first_match_digest(allow, family, length, digest, i + 1);
    }
}

/// Admission refuses an unsupported device as such, and an empty image of a
/// supported one as missing.
pub proof fn admission_refusals(allow: Seq<NvidiaGspFirmwareManifest>, device_id: u16, image: Seq<u8>)
    ensures
        spec_firmware_family(device_id) is None ==> spec_admit(allow, device_id, image) == Err::<
            VerifiedFirmware,
            HermesFault,
        >(HermesFault::UnsupportedArchitecture),
        spec_firmware_family(device_id) is Some && image.len() == 0 ==> spec_admit(
            allow,
            device_id,
            image,
        ) == Err::<VerifiedFirmware, HermesFault>(HermesFault::FirmwareMissing),
{
}

/// An admitted image carries the measurement of exactly its bytes.
pub proof fn lemma_admitted_digest(allow: Seq<NvidiaGspFirmwareManifest>, device_id: u16, image: Seq<u8>)
    ensures
        spec_admit(allow, device_id, image) matches Ok(fw) ==> fw.sha256@ == spec_sha256(image),
{
    if let Some(family) = spec_firmware_family(device_id) {
        if image.len() <= u32::MAX {
            lemma_first_match_digest(allow, family, image.len() as u32, spec_sha256(image), 0);
        }
    }
}

/// The admission decision for `image` on device `device_id` against `allow`.
pub open spec fn spec_admit(allow: Seq<NvidiaGspFirmwareManifest>, device_id: u16, image: Seq<u8>) -> Result<
    VerifiedFirmware,
    HermesFault,
> {
    match spec_firmware_family(device_id) {
        None => Err(HermesFault::UnsupportedArchitecture),
        Some(family) => if image.len() > u32::MAX {
            Err(HermesFault::FirmwareSize)
        } else if image.len() == 0 {
            Err(HermesFault::FirmwareMissing)
        } else if image.len() > spec_maximum_image_bytes(family) {
            Err(HermesFault::FirmwareSize)
        } else if !spec_length_may_match(allow, family, image.len() as u32) {
            Err(HermesFault::FirmwareRejected)
        } else if spec_elf_magic(image) && (spec_parse_gsp_rm_elf(image) is None
            || spec_fwversion_bytes(image, spec_parse_gsp_rm_elf(image)->Some_0) is None) {
            Err(HermesFault::FirmwareRejected)
        } else {
            match spec_first_match(allow, family, image.len() as u32, spec_sha256(image), 0) {
                Some(m) => Ok(spec_verified(m)),
                None => Err(HermesFault::FirmwareRejected),
            }
        },
    }
}

/// Authenticates images against an allow-list. Empty allow-list rejects all.
#[derive(Clone, Debug)]
pub struct NvidiaGspFirmwareAuthority {
    allow_list: Vec<NvidiaGspFirmwareManifest>,
}

impl NvidiaGspFirmwareAuthority {
    pub closed spec fn allow(&self) -> Seq<NvidiaGspFirmwareManifest> {
        self.allow_list@
    }

    /// Authority over exactly the given pins, in order.
    pub fn new(allow_list: &[NvidiaGspFirmwareManifest]) -> (a: Self)
        ensures
            a.allow() == allow_list@,
    {
        let mut v: Vec<NvidiaGspFirmwareManifest> = Vec::new();
        let mut i: usize = 0;
        while i < allow_list.len()
            invariant
                i <= allow_list@.len(),
                v@ == allow_list@.subrange(0, i as int),
            decreases allow_list@.len() - i,
        {
            v.push(allow_list[i]);
            i = i + 1;
        }
        assert(v@ =~= allow_list@);
        NvidiaGspFirmwareAuthority { allow_list: v }
    }

    pub fn default_610_43_03() -> (a: Self)
        ensures
            a.allow().len() == 2,
            a.allow()[0].family == FirmwareFamily::Tu10x,
            a.allow()[1].family == FirmwareFamily::Ga10x,
            a.allow()[0].byte_length == 29352832,
            a.allow()[1].byte_length == 84277400,
            a.allow()[0].version == spec_firmware_version(610, 43, 3),
            a.allow()[1].version == spec_firmware_version(610, 43, 3),
            a.allow()[0].spec_valid() && a.allow()[1].spec_valid(),
    {
        let pins = nvidia_gsp_rm_610_43_03();
        NvidiaGspFirmwareAuthority { allow_list: vec![pins[0], pins[1]] }
    }

    pub fn default_610_43_02() -> (a: Self)
        ensures
            a.allow().len() == 2,
            a.allow()[0].family == FirmwareFamily::Tu10x,
            a.allow()[1].family == FirmwareFamily::Ga10x,
            a.allow()[0].byte_length == 29352832,
            a.allow()[1].byte_length == 84277400,
            a.allow()[0].version == spec_firmware_version(610, 43, 2),
            a.allow()[1].version == spec_firmware_version(610, 43, 2),
            a.allow()[0].spec_valid() && a.allow()[1].spec_valid(),
    {
        let pins = nvidia_gsp_rm_610_43_02();
        NvidiaGspFirmwareAuthority { allow_list: vec![pins[0], pins[1]] }
    }

    /// Combined allow-list: host 610.43.02 pins, then staged 610.43.03 pins.
    pub fn default_allow_list() -> (a: Self)
        ensures
            a.allow().len() == 4,
            a.allow()[0].version == spec_firmware_version(610, 43, 2),
            a.allow()[1].version == spec_firmware_version(610, 43, 2),
            a.allow()[2].version == spec_firmware_version(610, 43, 3),
            a.allow()[3].version == spec_firmware_version(610, 43, 3),
            forall|k: int| 0 <= k < 4 ==> (#[trigger] a.allow()[k]).spec_valid(),
    {
        let p2 = nvidia_gsp_rm_610_43_02();
        let p3 = nvidia_gsp_rm_610_43_03();
        NvidiaGspFirmwareAuthority { allow_list: vec![p2[0], p2[1], p3[0], p3[1]] }
    }

    /// Number of pins in the allow-list.
    pub fn len(&self) -> (n: usize)
        ensures
            n == self.allow().len(),
    {
        self.allow_list.len()
    }

    fn may_match_length(&self, family: FirmwareFamily, length: u32) -> (b: bool)
        ensures
            b == spec_length_may_match(self.allow(), family, length),
    {
        let mut i: usize = 0;
        while i < self.allow_list.len()
            invariant
                i <= self.allow_list@.len(),
                forall|k: int|
                    0 <= k < i ==> !((#[trigger] self.allow_list@[k]).family == family
                        && self.allow_list@[k].byte_length == length
                        && self.allow_list@[k].spec_valid()),
            decreases self.allow_list@.len() - i,
        {
            let m = self.allow_list[i];
            if m.family == family && m.byte_length == length && m.valid() {
                return true;
            }
            i = i + 1;
        }
        false
    }

    fn first_match(&self, family: FirmwareFamily, length: u32, digest: &[u8; 32]) -> (r: Option<
        NvidiaGspFirmwareManifest,
    >)
        ensures
            r == spec_first_match(self.allow(), family, length, digest@, 0),
    {
        let mut i: usize = 0;
        while i < self.allow_list.len()
            invariant
                i <= self.allow_list@.len(),
                spec_first_match(self.allow(), family, length, digest@, 0) == spec_first_match(
                    self.allow(),
                    family,
                    length,
                    digest@,
                    i as int,
                ),
            decreases self.allow_list@.len() - i,
        {
            let m = self.allow_list[i];
            if m.family == family && m.byte_length == length && digest_eq(&m.sha256, digest)
                && m.valid() {
                return Some(m);
            }
            i = i + 1;
        }
        None
    }

    /// Admit staged firmware bytes for a device only on exact length+hash match
    /// and, for images that claim to be ELF, the GSP-RM ELF structural contract.
    pub fn admit_image(&self, device_id: u16, image: &[u8]) -> (r: Result<VerifiedFirmware, HermesFault>)
        ensures
            r == spec_admit(self.allow(), device_id, image@),
    {
        let family = match firmware_family_for_device(device_id) {
            Some(f) => f,
            None => return Err(HermesFault::UnsupportedArchitecture),
        };
        if image.len() > 0xffff_ffff {
            return Err(HermesFault::FirmwareSize);
        }
        let length = image.len() as u32;
        if length == 0 {
            return Err(HermesFault::FirmwareMissing);
        }
        if length > maximum_image_bytes(family) {
            return Err(HermesFault::FirmwareSize);
        }
        if !self.may_match_length(family, length) {
            return Err(HermesFault::FirmwareRejected);
        }
        if image.len() >= 4 && image[0] == 0x7f && image[1] == 0x45 && image[2] == 0x4c
            && image[3] == 0x46 {
            let elf = parse_gsp_rm_elf(image)?;
            let _ver = fwversion_bytes(image, &elf)?;
        }
        let digest = sha256_bytes(image);
        match self.first_match(family, length, &digest) {
            Some(m) => Ok(
                VerifiedFirmware {
                    family: m.family,
                    version: m.version,
                    byte_length: m.byte_length,
                    sha256: m.sha256,
                },
            ),
            None => Err(HermesFault::FirmwareRejected),
        }
    }

    /// Reject without hashing when length alone cannot match any allow-list entry.
    pub fn reject_length_mismatch(&self, device_id: u16, length: u32) -> (r: Result<(), HermesFault>)
        ensures
            spec_firmware_family(device_id) is None ==> r == Err::<(), HermesFault>(
                HermesFault::UnsupportedArchitecture),
            spec_firmware_family(device_id) matches Some(f) ==> (r is Ok <==> spec_length_may_match(
                self.allow(),
                f,
                length,
            )),
            spec_firmware_family(device_id) is Some && r is Err ==> r == Err::<(), HermesFault>(
                HermesFault::FirmwareRejected),
    {
        let family = match firmware_family_for_device(device_id) {
            Some(f) => f,
            None => return Err(HermesFault::UnsupportedArchitecture),
        };
        if self.may_match_length(family, length) {
            Ok(())
        } else {
            Err(HermesFault::FirmwareRejected)
        }
    }
}

/// Admission law: an admitted image has a known firmware line, a nonzero length
/// within that line's bound, and its SHA-256 equals the digest of a valid pin of
/// that same family and exact length; the verified record copies that pin.
pub proof fn admitted_firmware_matches_a_pin(
    allow: Seq<NvidiaGspFirmwareManifest>,
    device_id: u16,
    image: Seq<u8>,
)
    ensures
        spec_admit(allow, device_id, image) matches Ok(v) ==> exists|k: int|
            0 <= k < allow.len() && spec_pin_matches(
                #[trigger] allow[k],
                v.family,
                image.len() as u32,
                spec_sha256(image),
            ) && v == spec_verified(allow[k]) && spec_firmware_family(device_id) == Some(v.family)
                && 0 < image.len() <= spec_maximum_image_bytes(v.family),
{
    if let Some(family) = spec_firmware_family(device_id) {
        lemma_first_match_is_member(allow, family, image.len() as u32, spec_sha256(image), 0);
    }
}

proof fn lemma_first_match_is_member(
    allow: Seq<NvidiaGspFirmwareManifest>,
    family: FirmwareFamily,
    length: u32,
    digest: Seq<u8>,
    i: int,
)
    requires
        0 <= i,
    ensures
        spec_first_match(allow, family, length, digest, i) matches Some(m) ==> exists|k: int|
            i <= k < allow.len() && #[trigger] allow[k] == m && spec_pin_matches(
                m,
                family,
                length,
                digest,
            ),
    decreases allow.len() - i,
{
    if i < allow.len() && !spec_pin_matches(allow[i], family, length, digest) {
        lemma_first_match_is_member(allow, family, length, digest, i + 1);
    }
}

/// An empty allow-list rejects every image.
pub proof fn empty_allow_list_rejects_all(device_id: u16, image: Seq<u8>)
    ensures
        spec_admit(Seq::empty(), device_id, image) is Err,
{
}

} // verus!
