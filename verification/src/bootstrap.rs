//! Turing SEC2 / GSP bootstrap auxiliary image manifests and verification.
use vstd::prelude::*;

use crate::fault::HermesFault;
use crate::firmware::{digest_eq, firmware_version, sha256_bytes, spec_firmware_version, spec_sha256};

verus! {

/// One auxiliary image used by the documented SEC2/GSP bootstrap sequence.
#[derive(Clone, Copy, Debug, PartialEq, Eq, Structural)]
pub enum TuringGspBootstrapRole {
    GenericSec2Bootloader,
    GspBootloader,
    BooterLoad,
    BooterUnload,
}

/// Pinned length and digest of one bootstrap image.
#[derive(Clone, Copy, Debug, PartialEq, Eq)]
pub struct NvidiaGspBootstrapArtifactManifest {
    pub role: TuringGspBootstrapRole,
    pub byte_length: u32,
    pub sha256: [u8; 32],
}

impl NvidiaGspBootstrapArtifactManifest {
    pub fn new(role: TuringGspBootstrapRole, byte_length: u32, sha256: [u8; 32]) -> (m: Self)
        ensures
            m == (NvidiaGspBootstrapArtifactManifest { role, byte_length, sha256 }),
    {
        NvidiaGspBootstrapArtifactManifest { role, byte_length, sha256 }
    }
}

/// Exact TU117 (Quadro T1000) auxiliary images for NVIDIA 610.43.03.
pub open spec fn spec_t1000_bootstrap_pins() -> Seq<NvidiaGspBootstrapArtifactManifest> {
    seq![
        NvidiaGspBootstrapArtifactManifest {
            role: TuringGspBootstrapRole::GenericSec2Bootloader,
            byte_length: 816,
            sha256: [
                0xb3, 0x77, 0x76, 0xa5, 0x11, 0xb4, 0xa0, 0x09, 0x01, 0xe4, 0xe3, 0xac, 0x56, 0x8d,
                0xb9, 0x17, 0x08, 0x6d, 0x3b, 0xf4, 0x39, 0xf8, 0x5b, 0xc9, 0xb3, 0xe4, 0xad, 0xc7,
                0x33, 0x8a, 0x0a, 0xff,
            ],
        },
        NvidiaGspBootstrapArtifactManifest {
            role: TuringGspBootstrapRole::GspBootloader,
            byte_length: 4196,
            sha256: [
                0x12, 0xe9, 0x87, 0xb6, 0x36, 0xc2, 0xf0, 0x0f, 0xa4, 0x0f, 0x42, 0xfd, 0x95, 0x09,
                0x75, 0x15, 0xc0, 0x81, 0x7b, 0x15, 0x81, 0x19, 0xc5, 0x84, 0x04, 0x9a, 0x37, 0xfa,
                0xf3, 0x8f, 0x8f, 0x96,
            ],
        },
        NvidiaGspBootstrapArtifactManifest {
            role: TuringGspBootstrapRole::BooterLoad,
            byte_length: 59016,
            sha256: [
                0x9b, 0xd0, 0x18, 0x04, 0xb4, 0xb9, 0x1d, 0x92, 0x90, 0x4e, 0x77, 0x35, 0xb0, 0x25,
                0xe0, 0x7a, 0x3c, 0x93, 0x5b, 0xc6, 0xfb, 0x92, 0xe3, 0x83, 0x3e, 0x85, 0xc2, 0x97,
                0x54, 0x60, 0x25, 0xb9,
            ],
        },
        NvidiaGspBootstrapArtifactManifest {
            role: TuringGspBootstrapRole::BooterUnload,
            byte_length: 39048,
            sha256: [
                0xbf, 0x4a, 0x2b, 0x77, 0x87, 0x22, 0xdd, 0xe5, 0x78, 0x50, 0x83, 0x9b, 0xb9, 0xf7,
                0x65, 0x1a, 0xe2, 0x95, 0x92, 0xce, 0x85, 0xd6, 0xdf, 0x41, 0x60, 0xd2, 0xd2, 0x28,
                0xff, 0x43, 0x01, 0x56,
            ],
        },
    ]
}

/// The pinned TU117 bootstrap table, in role order.
pub fn t1000_tu117_bootstrap_610_43_03() -> (pins: Vec<NvidiaGspBootstrapArtifactManifest>)
    ensures
        pins@ == spec_t1000_bootstrap_pins(),
{
    let v = vec![
        NvidiaGspBootstrapArtifactManifest::new(
            TuringGspBootstrapRole::GenericSec2Bootloader,
            816,
            [
                0xb3, 0x77, 0x76, 0xa5, 0x11, 0xb4, 0xa0, 0x09, 0x01, 0xe4, 0xe3, 0xac, 0x56, 0x8d,
                0xb9, 0x17, 0x08, 0x6d, 0x3b, 0xf4, 0x39, 0xf8, 0x5b, 0xc9, 0xb3, 0xe4, 0xad, 0xc7,
                0x33, 0x8a, 0x0a, 0xff,
            ],
        ),
        NvidiaGspBootstrapArtifactManifest::new(
            TuringGspBootstrapRole::GspBootloader,
            4196,
            [
                0x12, 0xe9, 0x87, 0xb6, 0x36, 0xc2, 0xf0, 0x0f, 0xa4, 0x0f, 0x42, 0xfd, 0x95, 0x09,
                0x75, 0x15, 0xc0, 0x81, 0x7b, 0x15, 0x81, 0x19, 0xc5, 0x84, 0x04, 0x9a, 0x37, 0xfa,
                0xf3, 0x8f, 0x8f, 0x96,
            ],
        ),
        NvidiaGspBootstrapArtifactManifest::new(
            TuringGspBootstrapRole::BooterLoad,
            59016,
            [
                0x9b, 0xd0, 0x18, 0x04, 0xb4, 0xb9, 0x1d, 0x92, 0x90, 0x4e, 0x77, 0x35, 0xb0, 0x25,
                0xe0, 0x7a, 0x3c, 0x93, 0x5b, 0xc6, 0xfb, 0x92, 0xe3, 0x83, 0x3e, 0x85, 0xc2, 0x97,
                0x54, 0x60, 0x25, 0xb9,
            ],
        ),
        NvidiaGspBootstrapArtifactManifest::new(
            TuringGspBootstrapRole::BooterUnload,
            39048,
            [
                0xbf, 0x4a, 0x2b, 0x77, 0x87, 0x22, 0xdd, 0xe5, 0x78, 0x50, 0x83, 0x9b, 0xb9, 0xf7,
                0x65, 0x1a, 0xe2, 0x95, 0x92, 0xce, 0x85, 0xd6, 0xdf, 0x41, 0x60, 0xd2, 0xd2, 0x28,
                0xff, 0x43, 0x01, 0x56,
            ],
        ),
    ];
    assert(v@ =~= spec_t1000_bootstrap_pins());
    v
}

/// The four auxiliary images supplied for verification.
#[derive(Clone, Copy)]
pub struct TuringGspBootstrapMaterial<'a> {
    pub generic_sec2_bootloader: &'a [u8],
    pub gsp_bootloader: &'a [u8],
    pub booter_load: &'a [u8],
    pub booter_unload: &'a [u8],
}

/// Proof that all four bootstrap images matched their pins.
#[derive(Clone, Copy, Debug, PartialEq, Eq, Structural)]
pub struct VerifiedTuringGspBootstrap {
    pub version: u64,
    pub roles_ok: u8,
}

/// Check of artifacts `i..` against the pins, in role order.
pub open spec fn spec_check_artifacts(arts: Seq<Seq<u8>>, i: int) -> Result<(), HermesFault>
    decreases 4 - i,
{
    if i >= 4 || i < 0 {
        Ok(())
    } else if arts[i].len() > u32::MAX {
        Err(HermesFault::FirmwareSize)
    } else if arts[i].len() != spec_t1000_bootstrap_pins()[i].byte_length || spec_sha256(arts[i])
        != spec_t1000_bootstrap_pins()[i].sha256@ {
        Err(HermesFault::FirmwareRejected)
    } else {
        spec_check_artifacts(arts, i + 1)
    }
}

impl<'a> TuringGspBootstrapMaterial<'a> {
    pub open spec fn artifacts(self) -> Seq<Seq<u8>> {
        seq![
            self.generic_sec2_bootloader@,
            self.gsp_bootloader@,
            self.booter_load@,
            self.booter_unload@,
        ]
    }

    /// Verifies every auxiliary image (exact length and SHA-256) before any
    /// firmware DMA or SEC2 MMIO.
    pub fn verify_t1000_610_43_03(&self) -> (r: Result<VerifiedTuringGspBootstrap, HermesFault>)
        ensures
            match spec_check_artifacts(self.artifacts(), 0) {
                Ok(_) => r == Ok::<VerifiedTuringGspBootstrap, HermesFault>(
                    VerifiedTuringGspBootstrap {
                        version: spec_firmware_version(610, 43, 3),
                        roles_ok: 4,
                    },
                ),
                Err(e) => r == Err::<VerifiedTuringGspBootstrap, HermesFault>(e),
            },
    {
        let pins = t1000_tu117_bootstrap_610_43_03();
        let mut roles_ok: u8 = 0;
        let mut i: usize = 0;
        while i < 4
            invariant
                i <= 4,
                roles_ok == i,
                pins@ == spec_t1000_bootstrap_pins(),
                spec_check_artifacts(self.artifacts(), 0) == spec_check_artifacts(
                    self.artifacts(),
                    i as int,
                ),
            decreases 4 - i,
        {
            let artifact: &[u8] = if i == 0 {
                self.generic_sec2_bootloader
            } else if i == 1 {
                self.gsp_bootloader
            } else if i == 2 {
                self.booter_load
            } else {
                self.booter_unload
            };
            assert(artifact@ == self.artifacts()[i as int]);
            let expected = pins[i];
            if artifact.len() > 0xffff_ffff {
                return Err(HermesFault::FirmwareSize);
            }
            let length = artifact.len() as u32;
            let hash = sha256_bytes(artifact);
            if length != expected.byte_length || !digest_eq(&hash, &expected.sha256) {
                return Err(HermesFault::FirmwareRejected);
            }
            roles_ok = roles_ok + 1;
            i = i + 1;
        }
        if roles_ok != 4 {
            return Err(HermesFault::FirmwareRejected);
        }
        Ok(VerifiedTuringGspBootstrap { version: firmware_version(610, 43, 3), roles_ok })
    }
}

/// Any bootstrap material whose lengths differ from the pins is refused.
pub proof fn wrong_length_is_refused(arts: Seq<Seq<u8>>, i: int)
    requires
        arts.len() == 4,
        0 <= i < 4,
        arts[i].len() != spec_t1000_bootstrap_pins()[i].byte_length,
    ensures
        spec_check_artifacts(arts, 0) is Err,
    decreases i,
{
    lemma_err_propagates(arts, i);
}

proof fn lemma_err_propagates(arts: Seq<Seq<u8>>, i: int)
    requires
        0 <= i < 4,
        arts[i].len() != spec_t1000_bootstrap_pins()[i].byte_length,
    ensures
        forall|j: int| 0 <= j <= i ==> (#[trigger] spec_check_artifacts(arts, j)) is Err,
    decreases i,
{
    if i > 0 {
        assert(spec_check_artifacts(arts, i) is Err);
        lemma_err_down(arts, i);
    }
}

proof fn lemma_err_down(arts: Seq<Seq<u8>>, i: int)
    requires
        0 <= i < 4,
        spec_check_artifacts(arts, i) is Err,
    ensures
        forall|j: int| 0 <= j <= i ==> (#[trigger] spec_check_artifacts(arts, j)) is Err,
    decreases i,
{
    if i > 0 {
        assert(spec_check_artifacts(arts, i - 1) is Err);
        lemma_err_down(arts, i - 1);
    }
}

} // verus!
