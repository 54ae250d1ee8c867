use hermes::ctl::chardev::{
    check_live_ctl_status, firmware_version_key, is_version_dir_name, parse_ctl_read_line,
    select_newest_version, LiveStatusFault,
};
use hermes::ctl::graphics::{
    count_connector_status, count_render_nodes, parse_card_name, DevNodeEntry, DrmClassEntry,
    GraphicsAdapter, GraphicsReport, GraphicsVendor,
};
use hermes::ctl::silicon::{
    fault_name, firmware_probe_from_bytes, parse_resource0, sort_gpus_by_bdf, PciGpu,
};
use hermes::ctl_uapi::{HermesCtlStatus, HERMES_MOD_DRM, HERMES_MOD_NVIDIA};
use hermes::fault::HermesFault;
use hermes::firmware::{sha256_bytes, NvidiaGspFirmwareAuthority};

#[test]
fn parse_offline_and_online_lines() {
    let off = parse_ctl_read_line("hermes gsp_online=0 phase=OFFLINE modules=nvidia");
    assert!(!off.is_online());
    let on = parse_ctl_read_line("hermes gsp_online=1 phase=ONLINE modules=nvidia,nvidia-drm status_ver=2");
    assert!(on.is_online());
    assert_eq!(on.phase_label(), "ONLINE");
    assert!(on.module_mask & HERMES_MOD_DRM != 0);
}

#[test]
fn parse_defaults_and_masks() {
    let st = parse_ctl_read_line("");
    assert!(!st.is_online());
    assert_eq!(st.module_mask, HERMES_MOD_NVIDIA);
    let st = parse_ctl_read_line("hermes modules=drm");
    assert_eq!(st.module_mask, HERMES_MOD_DRM);
    let st = parse_ctl_read_line("hermes modules=unknown phase=queued");
    assert_eq!(st.module_mask, HERMES_MOD_NVIDIA);
    assert_eq!(st.phase, 3);
}

#[test]
fn live_status_faults_in_order() {
    let good = HermesCtlStatus::fill(false, 0, HERMES_MOD_NVIDIA);
    assert_eq!(check_live_ctl_status(&good, HERMES_MOD_NVIDIA), Ok(()));
    assert_eq!(
        check_live_ctl_status(&good, HERMES_MOD_NVIDIA | HERMES_MOD_DRM),
        Err(LiveStatusFault::MaskMismatch)
    );
    let mut old = good;
    old.version = 1;
    assert_eq!(check_live_ctl_status(&old, HERMES_MOD_NVIDIA), Err(LiveStatusFault::BadVersion));
    let no_primary = HermesCtlStatus::fill(false, 0, HERMES_MOD_DRM);
    assert_eq!(
        check_live_ctl_status(&no_primary, HERMES_MOD_DRM),
        Err(LiveStatusFault::PrimaryMissing)
    );
}

#[test]
fn version_directories_and_newest_pick() {
    assert!(is_version_dir_name("610.43.02"));
    assert!(!is_version_dir_name("610.43"));
    assert!(!is_version_dir_name("610..2"));
    assert_eq!(firmware_version_key("610.43.02"), (610, 43, 2));
    let versions = vec!["570.144.0".to_string(), "610.43.02".to_string(), "610.43.03".to_string()];
    assert_eq!(select_newest_version(&versions, &vec![true, true, false]), Some(1));
    assert_eq!(select_newest_version(&versions, &vec![false, false, false]), None);
}

#[test]
fn card_names_and_vendors() {
    assert!(parse_card_name("card0"));
    assert!(parse_card_name("card12"));
    assert!(!parse_card_name("card"));
    assert!(!parse_card_name("card0-HDMI-A-1"));
    assert_eq!(GraphicsVendor::from_pci_id(0x10de), GraphicsVendor::Nvidia);
    assert_eq!(GraphicsVendor::from_pci_id(0x10de).name(), "nvidia");
}

#[test]
fn resource0_spans_start_to_end() {
    let text = "0x00000000f6000000 0x00000000f6ffffff 0x0000000000040200\n";
    assert_eq!(parse_resource0(text), Some((0xf600_0000, 0x100_0000)));
    assert_eq!(parse_resource0("0x0 0x0 0x0\n"), None);
    assert_eq!(parse_resource0(""), None);
}

#[test]
fn firmware_probe_reports_digest_and_rejection() {
    let auth = NvidiaGspFirmwareAuthority::default_allow_list();
    let bytes = b"not-a-gsp-image";
    let p = firmware_probe_from_bytes(&auth, "/lib/firmware/nvidia/x.bin", 0x1fb9, bytes);
    assert_eq!(p.path, "/lib/firmware/nvidia/x.bin");
    assert_eq!(p.length, bytes.len() as u64);
    assert_eq!(p.sha256, sha256_bytes(bytes));
    assert!(!p.admitted);
    assert!(!p.elf_ok);
    assert!(p.version_field.is_none());
    assert_eq!(p.reject.as_deref(), Some(fault_name(HermesFault::FirmwareRejected)));
}

fn intel_host_report() -> GraphicsReport {
    let class = vec![
        DrmClassEntry { name: Some("card0".to_string()), status_is_file: false, status: None },
        DrmClassEntry {
            name: Some("card0-eDP-1".to_string()),
            status_is_file: true,
            status: Some("connected\n".to_string()),
        },
    ];
    let (outputs, connected) = count_connector_status("card0", &class);
    let nodes = vec![
        DevNodeEntry { name: Some("card0".to_string()), accessible: true },
        DevNodeEntry { name: Some("renderD128".to_string()), accessible: true },
    ];
    let (render, accessible) = count_render_nodes(&nodes);
    GraphicsReport {
        adapters: vec![GraphicsAdapter {
            card: "card0".to_string(),
            vendor: GraphicsVendor::from_pci_id(0x8086),
            vendor_id: 0x8086,
            device_id: Some(0x3e9b),
            driver: Some("i915".to_string()),
            card_node: "/dev/dri/card0".to_string(),
            card_access: true,
            connected_outputs: connected,
            output_count: outputs,
        }],
        render_nodes: render,
        accessible_render_nodes: accessible,
        mesa_library: Some("libEGL.so.1".to_string()),
        session_type: None,
        session_display: None,
    }
}

#[test]
fn host_report_from_probed_entries_qualifies() {
    let report = intel_host_report();
    assert_eq!(report.drm_cards(), 1);
    assert_eq!(report.connected_outputs(), 1);
    assert_eq!(report.accessible_render_nodes, 1);
    assert!(report.graphics_host_ready());
    assert!(report.drm_kms_ready());
    assert!(report.mesa_ready());
    let text = report.qualification_text();
    assert!(text.contains("schema=hermes-hardware-host-v1"));
    assert!(text.contains("graphics_host=pass"));
    assert!(text.contains("gsp_boot=not-tested"));
    assert!(text.contains("intel_online=not-tested"));
    assert!(text.contains("simulation=0"));
}

#[test]
fn empty_report_never_qualifies() {
    let report = GraphicsReport {
        adapters: Vec::new(),
        render_nodes: 0,
        accessible_render_nodes: 0,
        mesa_library: None,
        session_type: None,
        session_display: None,
    };
    assert!(!report.graphics_host_ready());
    assert!(!report.drm_kms_ready());
    assert!(!report.mesa_ready());
}

fn gpu(bdf: &str, device: u16) -> PciGpu {
    PciGpu {
        bdf: bdf.to_string(),
        vendor: 0x10de,
        device,
        class_code: 0x03,
        subclass: 0x00,
        driver: None,
        iommu_group: None,
        bar0: None,
        sysfs: format!("/sys/bus/pci/devices/{}", bdf),
    }
}

#[test]
fn gpus_sort_by_bus_id_and_equal_ids_keep_their_order() {
    let sorted = sort_gpus_by_bdf(vec![
        gpu("0000:02:00.0", 1),
        gpu("0000:01:00.0", 2),
        gpu("0000:02:00.0", 3),
        gpu("0000:01:00.0", 4),
    ]);
    let order: Vec<(String, u16)> = sorted.iter().map(|g| (g.bdf.clone(), g.device)).collect();
    assert_eq!(
        order,
        vec![
            ("0000:01:00.0".to_string(), 2),
            ("0000:01:00.0".to_string(), 4),
            ("0000:02:00.0".to_string(), 1),
            ("0000:02:00.0".to_string(), 3),
        ]
    );
}
