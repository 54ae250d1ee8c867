use hermes::bringup::{BringupFault, BringupRequest, HardwareEvidence};
use hermes::ctl_uapi::{
    block_checksum, hermes_ctl_ioctl_status, hermes_ctl_module_mask_compose,
    hermes_drm_ioctl_status, module_sysfs_path, HermesCtlStatus, HERMES_CTL_STATUS_VERSION,
    HERMES_MOD_ALL_OPEN_STACK, HERMES_MOD_DRM, HERMES_MOD_MODESET, HERMES_MOD_NVIDIA,
    HERMES_MOD_UVM,
};
use hermes::fault::HermesFault;
use hermes::firmware::{
    firmware_version, sha256_bytes, FirmwareFamily, NvidiaGspFirmwareAuthority,
    NvidiaGspFirmwareManifest,
};
use hermes::linux::devices;
use hermes::linux::modules;
use hermes::linux::userspace;
use hermes::linux::{drop_in_module_name, linux_bringup, module_surfaces, LinuxGpuSlot};
use hermes::manifold::{HermesPhase, ManifoldFault};
use hermes::pci::{pci_identity, NVIDIA_VENDOR_ID};
use hermes::platform::{DmaPurpose, HermesPlatform};
use hermes::sim_platform::SimPlatform;

#[test]
fn status_fill_and_modules() {
    let st = HermesCtlStatus::fill(false, 0, HERMES_MOD_NVIDIA);
    assert!(!st.is_online());
    assert_eq!(st.version, HERMES_CTL_STATUS_VERSION);
    assert_eq!(st.modules_listed(), &["nvidia"]);
    let st2 = HermesCtlStatus::fill(true, 5, HERMES_MOD_NVIDIA | HERMES_MOD_DRM | HERMES_MOD_UVM);
    assert!(st2.is_online());
    assert_eq!(st2.phase_label(), "ONLINE");
    assert_eq!(st2.modules_listed().len(), 3);
}

#[test]
fn companion_mask_compose_ors_soft_deps() {
    assert_eq!(hermes_ctl_module_mask_compose(false, false, false, false), HERMES_MOD_NVIDIA);
    assert_eq!(hermes_ctl_module_mask_compose(true, true, true, true), HERMES_MOD_ALL_OPEN_STACK);
    let partial = hermes_ctl_module_mask_compose(true, false, true, false);
    assert_eq!(partial, HERMES_MOD_NVIDIA | HERMES_MOD_MODESET | HERMES_MOD_DRM);
    let st = HermesCtlStatus::fill(false, 0, HERMES_MOD_ALL_OPEN_STACK);
    assert_eq!(st.modules_listed().len(), 5);
}

#[test]
fn ioctl_numbers_non_zero_and_sized() {
    let ctl = hermes_ctl_ioctl_status();
    let drm = hermes_drm_ioctl_status();
    assert_ne!(ctl, 0);
    assert_ne!(drm, 0);
    assert_eq!((ctl >> 16) & 0x3fff, 16);
    assert_eq!((drm >> 16) & 0x3fff, 20);
}

#[test]
fn ctl_status_ioctl_encodes_read_base_and_number() {
    let ctl = hermes_ctl_ioctl_status();
    assert_eq!(ctl, (2u64 << 30) | (16u64 << 16) | (0x48u64 << 8) | 0x10);
}

#[test]
fn block_checksum_wraps_modulo_256() {
    let mut block = [0u8; 130];
    block[0] = 0xff;
    block[1] = 0x02;
    block[129] = 0x40;
    assert_eq!(block_checksum(&block), 0x01);
    assert_eq!(block_checksum(&[0u8; 128]), 0);
}

#[test]
fn module_sysfs_path_joins_the_name() {
    assert_eq!(module_sysfs_path("nvidia"), "/sys/module/nvidia");
}

#[test]
fn module_set_covers_open_gpu_kernel_modules() {
    let set = modules::all_nvidia_set();
    assert_eq!(set.len(), 5);
    assert!(set.contains(&"nvidia"));
    assert!(set.contains(&"nvidia-drm"));
    let surfaces = module_surfaces();
    assert_eq!(surfaces.len(), 5);
    for surface in &surfaces {
        assert!(set.contains(&surface.replaces));
    }
    assert_eq!(surfaces[0].name, "nvidia");
}

#[test]
fn linux_slot_starts_offline_after_admission() {
    let id = pci_identity(NVIDIA_VENDOR_ID, 0x1fb9, 0x03, 0x00);
    let slot = LinuxGpuSlot::from_identity(id, 1).unwrap();
    assert!(!slot.is_online());
    assert_eq!(slot.phase(), HermesPhase::Offline);
    assert_eq!(slot.module_provides_nvidia_name(), "nvidia");
    assert_eq!(drop_in_module_name(true), "nvidia");
}

#[test]
fn device_node_paths_match_nvidia_stack() {
    assert_eq!(devices::NVIDIA_CTL, "/dev/nvidiactl");
    assert_eq!(devices::NVIDIA_0, "/dev/nvidia0");
    assert_eq!(userspace::NVIDIA_SETTINGS, "nvidia-settings");
    assert_eq!(userspace::NVIDIA_SMI, "nvidia-smi");
}

fn authority_for(pinned: &[u8], length: usize) -> NvidiaGspFirmwareAuthority {
    let manifest = NvidiaGspFirmwareManifest::new(
        FirmwareFamily::Tu10x,
        firmware_version(610, 43, 3),
        length as u32,
        sha256_bytes(pinned),
    );
    NvidiaGspFirmwareAuthority::new(std::slice::from_ref(&manifest))
}

#[test]
fn bringup_isolation_fail_never_online() {
    let mut plat = SimPlatform::new();
    plat.set_fail_isolation(true);
    let payload = b"hermes-linux-bringup-iso-fail";
    let auth = authority_for(payload, payload.len());
    let identity = pci_identity(NVIDIA_VENDOR_ID, 0x1fb9, 0x03, 0x00);
    let mut req = BringupRequest::with_defaults(identity, payload, auth);
    req.hardware = HardwareEvidence::full();
    let report = linux_bringup(&mut plat, &req);
    assert!(!report.is_online());
    assert!(!report.manifold.is_online());
    assert!(report.fault.is_some());
    assert_eq!(plat.isolate_calls(), 1);
}

#[test]
fn bringup_full_evidence_reaches_online_via_shared_path() {
    let mut plat = SimPlatform::new();
    let payload = b"hermes-linux-bringup-success";
    let auth = authority_for(payload, payload.len());
    let identity = pci_identity(NVIDIA_VENDOR_ID, 0x1fb9, 0x03, 0x00);
    let mut req = BringupRequest::with_defaults(identity, payload, auth);
    req.hardware = HardwareEvidence::full();
    let report = linux_bringup(&mut plat, &req);
    assert!(report.is_online(), "fault={:?}", report.fault);
    assert_eq!(report.phase(), HermesPhase::Online);
    assert!(plat.isolate_calls() >= 1);
    assert!(plat.map_bar_calls() >= 1);
    assert!(plat.dma_alloc_calls() >= 1);

    let mut slot = LinuxGpuSlot::from_identity(identity, 1).unwrap();
    slot.apply_bringup(&report);
    assert!(slot.is_online());
}

#[test]
fn bringup_missing_wpr_stays_offline_after_isolation() {
    let mut plat = SimPlatform::new();
    let payload = b"hermes-linux-bringup-no-wpr";
    let auth = authority_for(payload, payload.len());
    let identity = pci_identity(NVIDIA_VENDOR_ID, 0x1fb9, 0x03, 0x00);
    let mut req = BringupRequest::with_defaults(identity, payload, auth);
    req.hardware =
        HardwareEvidence { wpr_locked: false, boot_mailbox_ok: true, ready_queue_observed: true };
    let report = linux_bringup(&mut plat, &req);
    assert!(!report.is_online());
    assert!(matches!(report.fault, Some(BringupFault::Manifold(ManifoldFault::MissingWpr))));
}

#[test]
fn bringup_pre_turing_rejected_before_isolation() {
    let mut plat = SimPlatform::new();
    let payload = b"hermes-linux-volta";
    let auth = authority_for(payload, payload.len());
    let identity = pci_identity(NVIDIA_VENDOR_ID, 0x1db6, 0x03, 0x00);
    let mut req = BringupRequest::with_defaults(identity, payload, auth);
    req.hardware = HardwareEvidence::full();
    let report = linux_bringup(&mut plat, &req);
    assert!(!report.is_online());
    assert_eq!(plat.isolate_calls(), 0);
    assert!(report.admitted.is_none());
    assert!(report.firmware.is_none());
    assert_eq!(plat.map_bar_calls(), 0);
    assert_eq!(plat.dma_alloc_calls(), 0);
}

#[test]
fn bringup_wrong_firmware_hash_never_online() {
    let mut plat = SimPlatform::new();
    let payload = b"actual-bytes";
    let wrong = b"other-bytes!!";
    let auth = authority_for(wrong, payload.len());
    let identity = pci_identity(NVIDIA_VENDOR_ID, 0x1fb9, 0x03, 0x00);
    let mut req = BringupRequest::with_defaults(identity, payload, auth);
    req.hardware = HardwareEvidence::full();
    let report = linux_bringup(&mut plat, &req);
    assert!(!report.is_online());
    assert_eq!(plat.isolate_calls(), 0);
}

#[test]
fn bringup_without_hardware_evidence_stays_offline() {
    let mut plat = SimPlatform::new();
    let payload = b"hermes-linux-no-evidence";
    let auth = authority_for(payload, payload.len());
    let identity = pci_identity(NVIDIA_VENDOR_ID, 0x1fb9, 0x03, 0x00);
    let req = BringupRequest::with_defaults(identity, payload, auth);
    let report = linux_bringup(&mut plat, &req);
    assert!(!report.is_online());
    assert!(!report.resources_retained);
}

#[test]
fn isolation_mmio_dma_paths_work_and_fail_closed() {
    let mut plat = SimPlatform::new();
    let id = pci_identity(NVIDIA_VENDOR_ID, 0x1fb9, 0x03, 0x00);
    let domain = plat.isolate_device(id).expect("isolate");
    assert_eq!(plat.isolate_calls(), 1);

    let bar = plat.map_bar(domain, 0, 4096).expect("map");
    assert_eq!(plat.map_bar_calls(), 1);
    assert_eq!(plat.read32(bar, 0).unwrap(), 0x1);
    plat.write32(bar, 4, 0xdead_beef).unwrap();
    assert_eq!(plat.read32(bar, 4).unwrap(), 0xdead_beef);
    assert!(plat.write32_calls() >= 1);

    let dma = plat.allocate_dma(domain, 256, 64, DmaPurpose::Firmware).expect("dma");
    assert_eq!(plat.dma_alloc_calls(), 1);
    plat.dma_write(dma, 0, b"hermes").unwrap();
    let mut buf = [0u8; 6];
    plat.dma_read(dma, 0, &mut buf).unwrap();
    assert_eq!(&buf, b"hermes");
    plat.dma_publish(dma, 0, 6).unwrap();

    plat.release_dma(dma);
    plat.unmap_bar(bar);
    plat.release_domain(domain);
}

#[test]
fn forced_isolation_failure_returns_device_isolation() {
    let mut plat = SimPlatform::new();
    plat.set_fail_isolation(true);
    let id = pci_identity(NVIDIA_VENDOR_ID, 0x1fb9, 0x03, 0x00);
    assert_eq!(plat.isolate_device(id), Err(HermesFault::DeviceIsolation));
}

#[test]
fn pre_turing_isolation_rejected() {
    let mut plat = SimPlatform::new();
    let volta = pci_identity(NVIDIA_VENDOR_ID, 0x1db6, 0x03, 0x00);
    assert_eq!(plat.isolate_device(volta), Err(HermesFault::UnsupportedArchitecture));
}

#[test]
fn released_resources_fail_closed() {
    let mut plat = SimPlatform::new();
    let id = pci_identity(NVIDIA_VENDOR_ID, 0x1fb9, 0x03, 0x00);
    let domain = plat.isolate_device(id).unwrap();
    let bar = plat.map_bar(domain, 0, 4096).unwrap();
    let dma = plat.allocate_dma(domain, 64, 64, DmaPurpose::CommandRing).unwrap();
    assert!(plat.dma_write(dma, 60, b"too-long").is_err());
    plat.release_dma(dma);
    assert!(plat.dma_write(dma, 0, b"x").is_err());
    plat.unmap_bar(bar);
    assert!(plat.read32(bar, 0).is_err());
}
