use hermes::fault::HermesFault;
use hermes::firmware::{
    firmware_version, sha256_bytes, FirmwareFamily, NvidiaGspFirmwareAuthority,
    NvidiaGspFirmwareManifest,
};
use hermes::manifold::{HermesManifold, ManifoldFault};
use hermes::pci::{admit_display_device, pci_identity, NvidiaArchitecture, NVIDIA_VENDOR_ID};
use hermes::platform::{DmaPurpose, DmaRegion, HeldResource, HermesPlatform, MmioWindow};
use hermes::pci::HermesPciIdentity;
use hermes::session::{
    default_negotiated_features, drive_full_success, plan_activation, ActivationStep,
};
use hermes::stage::{stage_gsp_rm_image, stage_matches_admit, StageError};
use hermes::wpr::{
    TuringFramebufferEvidence, TuringGspDmaInputs, TuringMmuLock, TuringRiscvBootOffsets,
    TuringSec2BooterLoad, TuringWprPlan, T1000_WPR_ALIGNMENT, T1000_WPR_METADATA_BYTES,
    WPR_METADATA_MAGIC,
};

fn single_pin_authority(payload: &[u8]) -> NvidiaGspFirmwareAuthority {
    let manifest = NvidiaGspFirmwareManifest::new(
        FirmwareFamily::Tu10x,
        firmware_version(610, 43, 3),
        payload.len() as u32,
        sha256_bytes(payload),
    );
    NvidiaGspFirmwareAuthority::new(std::slice::from_ref(&manifest))
}

#[test]
fn plan_matches_architecture_and_never_skips_steps() {
    let payload = b"plan-test-fw";
    let auth = single_pin_authority(payload);
    let fw = auth.admit_image(0x1fb9, payload).unwrap();
    let plan = plan_activation(NvidiaArchitecture::Turing, &fw);
    assert_eq!(plan.steps[0], ActivationStep::ProbePci);
    assert_eq!(plan.steps[8], ActivationStep::PublishOnline);
    assert_eq!(plan.steps.len(), 9);
    assert_eq!(plan.firmware_family, FirmwareFamily::Tu10x);
}

#[test]
fn end_to_end_admission_plus_gates_use_shipped_functions() {
    let id = pci_identity(NVIDIA_VENDOR_ID, 0x1fb9, 0x03, 0x00);
    let admitted = admit_display_device(&id).expect("admit");
    let payload = b"e2e-hermes-gsp";
    let auth = single_pin_authority(payload);
    let fw = auth.admit_image(admitted.identity.device_id, payload).unwrap();
    let _plan = plan_activation(admitted.architecture, &fw);
    let online = drive_full_success(1, 42, default_negotiated_features()).unwrap();
    assert!(online.is_online());
    assert_eq!(online.evidence.dma_domain, 42);
}

#[test]
fn incomplete_drive_cannot_reach_online() {
    let mut m = HermesManifold::dark(1);
    assert!(m.observe_probe(true).is_ok());
    assert!(m.arm_queues(true, 1).is_err());
    assert!(!m.is_online());
}

#[test]
fn drive_refuses_zero_domain_and_missing_features() {
    assert_eq!(
        drive_full_success(1, 0, default_negotiated_features()).unwrap_err(),
        ManifoldFault::InvalidDomain
    );
    assert_eq!(drive_full_success(1, 5, 0x3).unwrap_err(), ManifoldFault::RequiredFeatureMissing);
    assert_eq!(default_negotiated_features(), 0x3ff);
}

/// One DMA buffer of 8 KiB that counts the bytes published to the device.
struct TinyDma {
    buf: Vec<u8>,
    len: usize,
    published: usize,
}

impl TinyDma {
    fn new() -> Self {
        TinyDma { buf: vec![0; 8192], len: 0, published: 0 }
    }
}

impl HermesPlatform for TinyDma {
    fn holds(&self, _x: HeldResource) -> bool {
        false
    }

    fn isolate_device(&mut self, _: HermesPciIdentity) -> Result<u32, HermesFault> {
        Ok(1)
    }
    fn release_domain(&mut self, _: u32) {}
    fn map_bar(&mut self, _: u32, _: u8, _: u64) -> Result<MmioWindow, HermesFault> {
        Ok(MmioWindow { handle: 1, bar: 0, length: 4096 })
    }
    fn unmap_bar(&mut self, _: MmioWindow) {}
    fn read32(&mut self, _: MmioWindow, _: u32) -> Result<u32, HermesFault> {
        Ok(0)
    }
    fn write32(&mut self, _: MmioWindow, _: u32, _: u32) -> Result<(), HermesFault> {
        Ok(())
    }
    fn io_fence(&mut self) -> Result<(), HermesFault> {
        Ok(())
    }
    fn allocate_dma(
        &mut self,
        _: u32,
        length: usize,
        _: usize,
        purpose: DmaPurpose,
    ) -> Result<DmaRegion, HermesFault> {
        if length > 8192 {
            return Err(HermesFault::DmaAllocation);
        }
        self.len = length;
        Ok(DmaRegion { handle: 1, device_address: 0x9000_0000, length, alignment: 64, purpose })
    }
    fn release_dma(&mut self, _: DmaRegion) {}
    fn dma_write(&mut self, _: DmaRegion, offset: usize, bytes: &[u8]) -> Result<(), HermesFault> {
        if offset + bytes.len() > self.len {
            return Err(HermesFault::DmaAccess);
        }
        self.buf[offset..offset + bytes.len()].copy_from_slice(bytes);
        Ok(())
    }
    fn dma_read(&mut self, _: DmaRegion, _: usize, _: &mut [u8]) -> Result<(), HermesFault> {
        Ok(())
    }
    fn dma_publish(&mut self, _: DmaRegion, _: usize, length: usize) -> Result<(), HermesFault> {
        self.published += length;
        Ok(())
    }
    fn dma_acquire(&mut self, _: DmaRegion, _: usize, _: usize) -> Result<(), HermesFault> {
        Ok(())
    }
    fn now_tick(&mut self) -> u64 {
        0
    }
    fn relax(&mut self) {}
}

#[test]
fn stages_full_image_digest_matches() {
    let mut p = TinyDma::new();
    let mut image = vec![0u8; 5500];
    for (i, b) in image.iter_mut().enumerate() {
        *b = (i % 251) as u8;
    }
    let expected = sha256_bytes(&image);
    let (rep, _reg) = stage_gsp_rm_image(&mut p, 1, &image, 4096).unwrap();
    assert_eq!(rep.bytes_staged, 5500);
    assert_eq!(rep.chunks, 2);
    assert!(stage_matches_admit(&rep.staged_sha256, &expected));
    assert_eq!(p.published, 5500);
}

#[test]
fn empty_image_fails() {
    let mut p = TinyDma::new();
    assert_eq!(stage_gsp_rm_image(&mut p, 1, &[], 4096), Err(StageError::EmptyImage));
}

#[test]
fn stage_clamps_small_chunks_and_reports_platform_faults() {
    let mut p = TinyDma::new();
    let image = vec![7u8; 200];
    let (rep, reg) = stage_gsp_rm_image(&mut p, 1, &image, 1).unwrap();
    assert_eq!(rep.chunks, 4);
    assert_eq!(rep.last_device_address, reg.device_address);
    assert!(!stage_matches_admit(&rep.staged_sha256, &[0u8; 32]));
}

fn framebuffer() -> TuringFramebufferEvidence {
    TuringFramebufferEvidence {
        usable_bytes: 4 * 1024 * 1024 * 1024,
        vga_workspace_offset: 4 * 1024 * 1024 * 1024 - 2 * 1024 * 1024,
        vga_workspace_bytes: 2 * 1024 * 1024,
        mmu_lock: TuringMmuLock::NotPresent,
        wpr_end_margin: 0,
        wpr_heap_bytes: 64 * 1024 * 1024,
        non_wpr_heap_bytes: 8 * 1024 * 1024,
    }
}

fn dma() -> TuringGspDmaInputs {
    TuringGspDmaInputs {
        gsp_rm_address: 0x1_0000_0000,
        gsp_rm_bytes: 29_352_832,
        gsp_boot_binary_address: 0x1_0200_0000,
        metadata_address: 0x1_0300_0000,
    }
}

fn offsets() -> TuringRiscvBootOffsets {
    TuringRiscvBootOffsets { monitor_code_offset: 0, monitor_data_offset: 0, manifest_offset: 0 }
}

fn le64(bytes: &[u8]) -> u64 {
    u64::from_le_bytes(bytes.try_into().unwrap())
}

#[test]
fn builds_the_256_byte_turing_wpr_metadata_record() {
    let plan = TuringWprPlan::build(framebuffer(), dma(), offsets()).unwrap();
    assert_eq!(plan.metadata.len(), T1000_WPR_METADATA_BYTES);
    assert_eq!(le64(&plan.metadata[0..8]), WPR_METADATA_MAGIC);
    assert_eq!(le64(&plan.metadata[16..24]), dma().gsp_rm_address);
    assert_eq!(le64(&plan.metadata[24..32]), dma().gsp_rm_bytes);
    assert_eq!(le64(&plan.metadata[184..192]), framebuffer().vga_workspace_offset);
    assert_eq!(le64(&plan.metadata[192..200]), framebuffer().vga_workspace_bytes);
    assert_eq!(le64(&plan.metadata[248..256]), 0);
    assert_eq!(plan.wpr_start % T1000_WPR_ALIGNMENT, 0);
    assert_eq!(plan.wpr_end % T1000_WPR_ALIGNMENT, 0);
    assert!(plan.wpr_start < plan.wpr_end);
}

#[test]
fn rejects_sysmem_that_is_not_mapped_at_page_alignment() {
    let mut inputs = dma();
    inputs.metadata_address += 1;
    assert_eq!(
        TuringWprPlan::build(framebuffer(), inputs, offsets()),
        Err(HermesFault::FirmwareRejected)
    );
}

#[test]
fn rejects_an_invalid_observed_mmu_lock() {
    let mut observed = framebuffer();
    observed.mmu_lock = TuringMmuLock::Present {
        start: observed.vga_workspace_offset,
        end: observed.vga_workspace_offset,
    };
    assert_eq!(
        TuringWprPlan::build(observed, dma(), offsets()),
        Err(HermesFault::FirmwareRejected)
    );
}

#[test]
fn uses_the_lower_valid_mmu_lock_as_the_wpr_ceiling() {
    let mut observed = framebuffer();
    let lock_start = observed.vga_workspace_offset - 64 * 1024 * 1024;
    observed.mmu_lock = TuringMmuLock::Present { start: lock_start, end: observed.vga_workspace_offset };
    let plan = TuringWprPlan::build(observed, dma(), offsets()).unwrap();
    assert!(plan.wpr_end <= lock_start);
}

#[test]
fn booter_load_requires_zero_mailbox_and_live_wpr2() {
    let request = TuringSec2BooterLoad::new(0x1_0300_0000).unwrap();
    assert_eq!(request.mailbox_words(), (0x0300_0000, 1));
    assert_eq!(request.complete(0, true), Ok(()));
    assert_eq!(request.complete(1, true), Err(HermesFault::DeviceFault));
    assert_eq!(request.complete(0, false), Err(HermesFault::DeviceFault));
}

#[test]
fn booter_load_refuses_unaligned_or_null_metadata() {
    assert_eq!(TuringSec2BooterLoad::new(0), Err(HermesFault::DmaAddressOverflow));
    assert_eq!(TuringSec2BooterLoad::new(0x1001), Err(HermesFault::DmaAddressOverflow));
    let plan = TuringWprPlan::build(framebuffer(), dma(), offsets()).unwrap();
    assert!(plan.booter_load(0x2000).is_ok());
}
