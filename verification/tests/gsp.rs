use hermes::bootstrap::TuringGspBootstrapMaterial;
use hermes::elf_gsp::parse_gsp_rm_elf;
use hermes::fault::HermesFault;
use hermes::firmware::{
    digest_eq, firmware_family_for_device, firmware_version, nvidia_gsp_rm_610_43_02,
    nvidia_gsp_rm_610_43_03, sha256_bytes, FirmwareFamily, NvidiaGspFirmwareAuthority,
    NvidiaGspFirmwareManifest,
};
use hermes::host_gate::{
    facts_from_sysfs, host_isolation_ready, host_may_claim_online, host_online_blockers,
    host_preflight_fault, host_preflight_fault_require_map, is_foreign_gpu_driver,
    is_hermes_or_nvidia_driver, HostDeviceFacts, HostGateBlocker,
};
use hermes::layout::{chip_for_architecture, chip_gsp_relative, openrm_gsp_relative, NvidiaChipDir};
use hermes::mailbox::{
    boot_handshake, platform_result, reset_outcome, MailboxError, RPC_CMD_HELLO, RPC_RSP_ACK,
};
use hermes::pci::{HermesPciIdentity, NvidiaArchitecture};
use hermes::platform::{DmaPurpose, DmaRegion, HeldResource, HermesPlatform, MmioWindow};
use hermes::regs::ga102_gsp::{
    NV_PGSP_FALCON_ENGINE, NV_PGSP_FALCON_ENGINE_RESET_FALSE, NV_PGSP_FALCON_MAILBOX0,
    NV_PGSP_FALCON_MAILBOX1,
};

#[test]
fn wrong_bootstrap_bytes_reject() {
    let material = TuringGspBootstrapMaterial {
        generic_sec2_bootloader: &[0u8; 816],
        gsp_bootloader: &[0u8; 4196],
        booter_load: &[0u8; 59016],
        booter_unload: &[0u8; 39048],
    };
    assert_eq!(material.verify_t1000_610_43_03(), Err(HermesFault::FirmwareRejected));
}

#[test]
fn wrong_length_rejects() {
    let material = TuringGspBootstrapMaterial {
        generic_sec2_bootloader: &[0u8; 10],
        gsp_bootloader: &[0u8; 4196],
        booter_load: &[0u8; 59016],
        booter_unload: &[0u8; 39048],
    };
    assert_eq!(material.verify_t1000_610_43_03(), Err(HermesFault::FirmwareRejected));
}

fn minimal_bad() -> [u8; 64] {
    let mut b = [0u8; 64];
    b[0..4].copy_from_slice(&[0x7f, b'E', b'L', b'F']);
    b[4] = 2;
    b[5] = 1;
    b
}

#[test]
fn rejects_non_elf() {
    assert!(parse_gsp_rm_elf(b"not-an-elf").is_err());
}

#[test]
fn rejects_empty_elf_header_without_sections() {
    let b = minimal_bad();
    assert!(parse_gsp_rm_elf(&b).is_err());
}

#[test]
fn elf_errors_are_firmware_faults() {
    assert_eq!(parse_gsp_rm_elf(b"").unwrap_err(), HermesFault::FirmwareRejected);
    assert_eq!(parse_gsp_rm_elf(&minimal_bad()).unwrap_err(), HermesFault::FirmwareRejected);
}

#[test]
fn family_selection_turing_vs_ga10x() {
    assert_eq!(firmware_family_for_device(0x1fb9), Some(FirmwareFamily::Tu10x));
    assert_eq!(firmware_family_for_device(0x1e04), Some(FirmwareFamily::Tu10x));
    assert_eq!(firmware_family_for_device(0x2204), Some(FirmwareFamily::Ga10x));
    assert_eq!(firmware_family_for_device(0x2684), Some(FirmwareFamily::Ga10x));
    assert_eq!(firmware_family_for_device(0x1db6), None);
}

#[test]
fn length_mismatch_rejects_without_claiming_online() {
    let auth = NvidiaGspFirmwareAuthority::default_610_43_03();
    assert_eq!(auth.reject_length_mismatch(0x1fb9, 100), Err(HermesFault::FirmwareRejected));
    assert!(auth.reject_length_mismatch(0x1fb9, 29_352_832).is_ok());
}

#[test]
fn wrong_hash_rejects_real_admit_path() {
    let auth = NvidiaGspFirmwareAuthority::default_610_43_03();
    let fake = vec![0u8; 29_352_832];
    assert_eq!(auth.admit_image(0x1fb9, &fake), Err(HermesFault::FirmwareRejected));
}

#[test]
fn correct_hash_admits_through_real_function() {
    let auth = NvidiaGspFirmwareAuthority::default_610_43_03();
    let manifest = nvidia_gsp_rm_610_43_03()[0];
    let payload = b"hermes-gsp-test-image-v1";
    let digest = sha256_bytes(payload);
    let test_manifest = NvidiaGspFirmwareManifest::new(
        FirmwareFamily::Tu10x,
        firmware_version(1, 0, 0),
        payload.len() as u32,
        digest,
    );
    let test_auth = NvidiaGspFirmwareAuthority::new(std::slice::from_ref(&test_manifest));
    let verified = test_auth.admit_image(0x1fb9, payload).expect("must admit");
    assert_eq!(verified.sha256, digest);
    assert_eq!(verified.family, FirmwareFamily::Tu10x);
    assert!(auth.admit_image(0x1fb9, payload).is_err());
    assert!(manifest.valid());
}

#[test]
fn empty_image_is_missing() {
    let auth = NvidiaGspFirmwareAuthority::default_610_43_03();
    assert_eq!(auth.admit_image(0x1fb9, &[]), Err(HermesFault::FirmwareMissing));
}

#[test]
fn host_610_43_02_pin_is_valid() {
    for m in nvidia_gsp_rm_610_43_02() {
        assert!(m.valid());
    }
    assert_eq!(NvidiaGspFirmwareAuthority::default_allow_list().len(), 4);
}

#[test]
fn sha256_of_abc_is_the_standard_vector() {
    let d = sha256_bytes(b"abc");
    let expected: [u8; 32] = [
        0xba, 0x78, 0x16, 0xbf, 0x8f, 0x01, 0xcf, 0xea, 0x41, 0x41, 0x40, 0xde, 0x5d, 0xae, 0x22,
        0x23, 0xb0, 0x03, 0x61, 0xa3, 0x96, 0x17, 0x7a, 0x9c, 0xb4, 0x10, 0xff, 0x61, 0xf2, 0x00,
        0x15, 0xad,
    ];
    assert_eq!(d, expected);
    assert!(digest_eq(&d, &expected));
    assert!(!digest_eq(&d, &[0u8; 32]));
}

#[test]
fn unknown_device_has_no_firmware_family() {
    let auth = NvidiaGspFirmwareAuthority::default_610_43_03();
    assert_eq!(auth.admit_image(0x1db6, b"x"), Err(HermesFault::UnsupportedArchitecture));
}

#[test]
fn firmware_version_packs_fields() {
    assert_eq!(firmware_version(610, 43, 3), (610u64 << 32) | (43u64 << 16) | 3);
}

#[test]
fn nouveau_without_iommu_blocks_online() {
    let facts = facts_from_sysfs(None, Some("nouveau"), true, false);
    let b = host_online_blockers(&facts);
    assert!(b.contains(&HostGateBlocker::NoIommuGroup));
    assert!(b.contains(&HostGateBlocker::ForeignDriver));
    assert!(b.contains(&HostGateBlocker::BarNotMapped));
    assert!(!host_may_claim_online(&facts));
    assert!(!host_isolation_ready(&facts));
    assert_eq!(host_preflight_fault(&facts), Some(HermesFault::DeviceIsolation));
}

#[test]
fn full_host_facts_allow_online_gate() {
    let facts = facts_from_sysfs(Some(12), Some("nvidia"), true, true);
    assert!(host_online_blockers(&facts).is_empty());
    assert!(host_may_claim_online(&facts));
    assert!(host_isolation_ready(&facts));
    assert_eq!(host_preflight_fault_require_map(&facts), None);
}

#[test]
fn iommu_without_map_blocks_online_but_isolation_ready() {
    let facts = facts_from_sysfs(Some(3), None, true, false);
    assert!(host_isolation_ready(&facts));
    assert!(!host_may_claim_online(&facts));
    assert_eq!(host_preflight_fault_require_map(&facts), Some(HermesFault::BarUnavailable));
    assert_eq!(host_preflight_fault(&facts), None);
}

#[test]
fn foreign_driver_classification() {
    assert!(is_foreign_gpu_driver("nouveau"));
    assert!(is_foreign_gpu_driver("vfio-pci"));
    assert!(!is_foreign_gpu_driver("nvidia"));
    assert!(is_hermes_or_nvidia_driver("nvidia"));
}

#[test]
fn sim_ready_facts_clear_all_blockers() {
    assert!(host_may_claim_online(&HostDeviceFacts::sim_ready()));
}

#[test]
fn empty_facts_list_every_blocker() {
    let b = host_online_blockers(&HostDeviceFacts::empty());
    assert!(b.contains(&HostGateBlocker::NoIommuGroup));
    assert!(b.contains(&HostGateBlocker::BarNotMapped));
    assert!(!b.contains(&HostGateBlocker::ForeignDriver));
}

#[test]
fn whencelike_aliases_and_families() {
    assert_eq!(NvidiaChipDir::Tu117.gsp_canonical(), NvidiaChipDir::Tu116);
    assert_eq!(NvidiaChipDir::Tu104.gsp_canonical(), NvidiaChipDir::Tu102);
    assert_eq!(NvidiaChipDir::Ga107.gsp_canonical(), NvidiaChipDir::Ga102);
    assert_eq!(NvidiaChipDir::Ga100.firmware_family(), FirmwareFamily::Tu10x);
    assert_eq!(NvidiaChipDir::Ad102.firmware_family(), FirmwareFamily::Ga10x);
    assert_eq!(chip_for_architecture(NvidiaArchitecture::Blackwell), NvidiaChipDir::Gb202);
}

#[test]
fn openrm_and_chip_paths() {
    assert_eq!(
        openrm_gsp_relative("610.43.02", FirmwareFamily::Tu10x),
        "nvidia/610.43.02/gsp_tu10x.bin"
    );
    assert_eq!(chip_gsp_relative(NvidiaChipDir::Tu117, "570.144"), "nvidia/tu116/gsp/gsp-570.144.bin");
}

/// A register file of sixteen sparse words, optionally acknowledging HELLO.
struct FakePlat {
    offs: [u32; 16],
    vals: [u32; 16],
    n: usize,
    auto_ack: bool,
}

impl FakePlat {
    fn new(auto_ack: bool) -> Self {
        FakePlat { offs: [0; 16], vals: [0; 16], n: 0, auto_ack }
    }

    fn get(&self, offset: u32) -> u32 {
        for i in 0..self.n {
            if self.offs[i] == offset {
                return self.vals[i];
            }
        }
        0
    }

    fn set(&mut self, offset: u32, value: u32) {
        for i in 0..self.n {
            if self.offs[i] == offset {
                self.vals[i] = value;
                return;
            }
        }
        if self.n < 16 {
            self.offs[self.n] = offset;
            self.vals[self.n] = value;
            self.n += 1;
        }
    }
}

impl HermesPlatform for FakePlat {
    fn holds(&self, _x: HeldResource) -> bool {
        false
    }

    fn isolate_device(&mut self, _: HermesPciIdentity) -> Result<u32, HermesFault> {
        Ok(1)
    }
    fn release_domain(&mut self, _: u32) {}
    fn map_bar(&mut self, _: u32, _: u8, _: u64) -> Result<MmioWindow, HermesFault> {
        Ok(MmioWindow { handle: 0, bar: 0, length: 0x20_0000 })
    }
    fn unmap_bar(&mut self, _: MmioWindow) {}
    fn read32(&mut self, _: MmioWindow, offset: u32) -> Result<u32, HermesFault> {
        Ok(self.get(offset))
    }
    fn write32(&mut self, _: MmioWindow, offset: u32, value: u32) -> Result<(), HermesFault> {
        self.set(offset, value);
        if self.auto_ack && offset == NV_PGSP_FALCON_MAILBOX0 && value == RPC_CMD_HELLO {
            self.set(NV_PGSP_FALCON_MAILBOX1, RPC_RSP_ACK);
        }
        if offset == NV_PGSP_FALCON_ENGINE && value == NV_PGSP_FALCON_ENGINE_RESET_FALSE {
            self.set(offset, 0);
        }
        Ok(())
    }
    fn io_fence(&mut self) -> Result<(), HermesFault> {
        Ok(())
    }
    fn allocate_dma(
        &mut self,
        _: u32,
        length: usize,
        _: usize,
        purpose: DmaPurpose,
    ) -> Result<DmaRegion, HermesFault> {
        Ok(DmaRegion { handle: 1, device_address: 0x1000, length, alignment: 64, purpose })
    }
    fn release_dma(&mut self, _: DmaRegion) {}
    fn dma_write(&mut self, _: DmaRegion, _: usize, _: &[u8]) -> Result<(), HermesFault> {
        Ok(())
    }
    fn dma_read(&mut self, _: DmaRegion, _: usize, _: &mut [u8]) -> Result<(), HermesFault> {
        Ok(())
    }
    fn dma_publish(&mut self, _: DmaRegion, _: usize, _: usize) -> Result<(), HermesFault> {
        Ok(())
    }
    fn dma_acquire(&mut self, _: DmaRegion, _: usize, _: usize) -> Result<(), HermesFault> {
        Ok(())
    }
    fn now_tick(&mut self) -> u64 {
        0
    }
    fn relax(&mut self) {}
}

#[test]
fn handshake_acks_on_auto_plat() {
    let mut p = FakePlat::new(true);
    let bar = p.map_bar(1, 0, 4096).unwrap();
    let ev = boot_handshake(&mut p, bar, 8).unwrap();
    assert!(ev.mailbox_ok);
    assert!(ev.ready_ok);
    assert_eq!(ev.last_response, RPC_RSP_ACK);
}

#[test]
fn handshake_not_ready_without_ack() {
    let mut p = FakePlat::new(false);
    let bar = p.map_bar(1, 0, 4096).unwrap();
    let ev = boot_handshake(&mut p, bar, 4).unwrap();
    assert!(!ev.mailbox_ok);
    assert!(!ev.ready_ok);
}

#[test]
fn handshake_with_no_polls_never_claims_ready() {
    let mut p = FakePlat::new(true);
    let bar = p.map_bar(1, 0, 4096).unwrap();
    let ev = boot_handshake(&mut p, bar, 0).unwrap();
    assert!(!ev.mailbox_ok);
    assert!(!ev.ready_ok);
}

#[test]
fn mailbox_lifts_platform_answers_and_judges_reset() {
    assert_eq!(platform_result::<u32>(Ok(7)), Ok(7));
    assert_eq!(
        platform_result::<u32>(Err(HermesFault::NotNvidia)),
        Err(MailboxError::Platform(HermesFault::NotNvidia))
    );
    assert_eq!(reset_outcome(0), Ok(()));
    assert_eq!(reset_outcome(0x10), Ok(()));
    assert_eq!(reset_outcome(0x11), Err(MailboxError::ResetStuck));
}
