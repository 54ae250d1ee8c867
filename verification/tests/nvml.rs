use hermes::manifold::HermesPhase;
use hermes::nvml::abi::{
    brand, c_string, compute_running_processes, cuda_compute_capability, device_count,
    device_name, fan_speed, handle_by_index, memory_info, nvml_init, nvml_shutdown, power_usage,
    temperature,
};
use hermes::nvml::discover::{
    hermes_nvml_discover_host_gpus, hermes_nvml_session_promote_from, SysfsPciEntry,
};
use hermes::nvml::format::NVML_BRAND_QUADRO_RTX;
use hermes::nvml::parse::parse_sysfs_hex;
use hermes::nvml::{
    hermes_nvml_bind_offline_gpu, hermes_nvml_bind_sim_online_session,
    hermes_nvml_format_device_line, hermes_nvml_format_process_lines, hermes_nvml_gpu_count,
    hermes_nvml_gpu_phase, hermes_nvml_process_count, hermes_nvml_promote_first_sim_online,
    hermes_nvml_register_process, hermes_nvml_reset, NvmlState, NVML_ERROR_GPU_IS_LOST,
    NVML_ERROR_INSUFFICIENT_SIZE, NVML_ERROR_NOT_SUPPORTED, NVML_ERROR_UNINITIALIZED,
    NVML_SUCCESS,
};

#[test]
fn init_count_shutdown_without_inventing_devices() {
    let mut st = NvmlState::new();
    hermes_nvml_reset(&mut st);
    assert_eq!(nvml_init(&mut st), NVML_SUCCESS);
    assert_eq!(device_count(&st), Ok(0));
    hermes_nvml_bind_offline_gpu(&mut st, 1);
    assert_eq!(device_count(&st), Ok(1));
    assert_eq!(hermes_nvml_gpu_phase(&st, 0), Some(HermesPhase::Offline));
    let h = handle_by_index(&st, 0).unwrap();
    let name = device_name(&st, h).unwrap();
    assert_eq!(name.last(), Some(&0u8));
    let mem = memory_info(&st, h).unwrap();
    assert!(mem.total > 0);
    assert_eq!(mem.free, 0);
    assert_eq!(temperature(&st, h), Err(NVML_ERROR_GPU_IS_LOST));
    assert_eq!(nvml_shutdown(&mut st), NVML_SUCCESS);
}

#[test]
fn online_gpu_exposes_temp_power_and_line() {
    let mut st = NvmlState::new();
    assert!(hermes_nvml_bind_sim_online_session(&mut st, "Hermes T1000"));
    let h = handle_by_index(&st, 0).unwrap();
    assert_eq!(temperature(&st, h), Ok(42));
    assert_eq!(brand(&st, h), Ok(NVML_BRAND_QUADRO_RTX));
    assert_eq!(fan_speed(&st, h), Ok(30));
    assert!(power_usage(&st, h).unwrap() > 0);
    assert_eq!(cuda_compute_capability(&st, h), Ok((7, 5)));
    let line = hermes_nvml_format_device_line(&st, 0).unwrap();
    assert!(line.contains("Hermes T1000"));
    assert!(line.contains("ONLINE") || line.contains("Online") || line.contains("phase="));
    hermes_nvml_reset(&mut st);
}

#[test]
fn device_line_is_exact() {
    let mut st = NvmlState::new();
    hermes_nvml_bind_sim_online_session(&mut st, "Hermes T1000");
    assert_eq!(
        hermes_nvml_format_device_line(&st, 0).unwrap(),
        "GPU 0: Hermes T1000 (0000:01:00.0) phase=ONLINE mem=8192 MiB"
    );
    assert!(hermes_nvml_format_device_line(&st, 1).is_none());
}

#[test]
fn offline_fan_not_supported() {
    let mut st = NvmlState::new();
    hermes_nvml_bind_offline_gpu(&mut st, 1);
    let h = handle_by_index(&st, 0).unwrap();
    assert_eq!(fan_speed(&st, h), Err(NVML_ERROR_NOT_SUPPORTED));
}

fn entry(name: &str, vendor: &str, device: &str, class: &str) -> SysfsPciEntry {
    SysfsPciEntry {
        name: Some(name.to_string()),
        vendor: Some(vendor.to_string()),
        device: Some(device.to_string()),
        class: Some(class.to_string()),
    }
}

#[test]
fn discover_binds_admitted_entries_once() {
    let mut st = NvmlState::new();
    let entries = vec![
        entry("0000:01:00.0", "0x10de\n", "0x1fb9\n", "0x030000\n"),
        entry("0000:02:00.0", "0x8086\n", "0x1234\n", "0x030000\n"),
        entry("0000:03:00.0", "0x10de\n", "0x1db6\n", "0x030000\n"),
    ];
    assert_eq!(hermes_nvml_discover_host_gpus(&mut st, &entries), 1);
    assert_eq!(hermes_nvml_gpu_count(&st), 1);
    assert_eq!(hermes_nvml_gpu_phase(&st, 0), Some(HermesPhase::Offline));
    let line = hermes_nvml_format_device_line(&st, 0).unwrap();
    assert!(line.contains("0000:01:00.0"));
    assert!(line.contains("1fb9") || line.contains("Turing") || line.contains("NVIDIA"));
    assert_eq!(hermes_nvml_discover_host_gpus(&mut st, &entries), 0);
    assert_eq!(hermes_nvml_gpu_count(&st), 1);
}

#[test]
fn sysfs_hex_parsing() {
    assert_eq!(parse_sysfs_hex("0x10de\n", 0xffff), Some(0x10de));
    assert_eq!(parse_sysfs_hex("  0x030000 ", 0xff_ffff), Some(0x030000));
    assert_eq!(parse_sysfs_hex("0x1_0000", 0xffff), None);
    assert_eq!(parse_sysfs_hex("zz", 0xffff), None);
}

#[test]
fn promote_discovered_to_online() {
    let mut st = NvmlState::new();
    hermes_nvml_bind_offline_gpu(&mut st, 1);
    assert!(hermes_nvml_promote_first_sim_online(&mut st));
    assert_eq!(hermes_nvml_gpu_phase(&st, 0), Some(HermesPhase::Online));
}

#[test]
fn process_register_only_when_online() {
    let mut st = NvmlState::new();
    hermes_nvml_bind_offline_gpu(&mut st, 1);
    assert!(!hermes_nvml_register_process(&mut st, 0, 1234, 1024, "x"));
    assert_eq!(hermes_nvml_process_count(&st, 0), 0);
    assert!(hermes_nvml_promote_first_sim_online(&mut st));
    assert!(hermes_nvml_register_process(&mut st, 0, 1234, 128 * 1024 * 1024, "hermes-test"));
    assert_eq!(hermes_nvml_process_count(&st, 0), 1);
    let h = handle_by_index(&st, 0).unwrap();
    let t = compute_running_processes(&st, h, None).unwrap();
    assert_eq!(t.status, NVML_SUCCESS);
    assert_eq!(t.count, 1);
    let t = compute_running_processes(&st, h, Some(2)).unwrap();
    assert_eq!(t.status, NVML_SUCCESS);
    assert_eq!(t.count, 1);
    assert_eq!(t.infos[0].pid, 1234);
    let t = compute_running_processes(&st, h, Some(0)).unwrap();
    assert_eq!(t.status, NVML_ERROR_INSUFFICIENT_SIZE);
    let lines = hermes_nvml_format_process_lines(&st, 0);
    assert!(lines[0].contains("1234"));
}

#[test]
fn session_promote_returns_online_snapshot() {
    let mut st = NvmlState::new();
    let snap = hermes_nvml_session_promote_from(&mut st, &[], 4321).expect("promote");
    assert!(snap.online);
    assert_eq!(snap.phase, HermesPhase::Online);
    assert!(!snap.name.is_empty());
    assert!(hermes_nvml_process_count(&st, 0) >= 1);
    hermes_nvml_reset(&mut st);
}

#[test]
fn session_promote_prefers_a_discovered_gpu() {
    let mut st = NvmlState::new();
    let entries = vec![entry("0000:01:00.0", "0x10de", "0x1fb9", "0x030000")];
    let snap = hermes_nvml_session_promote_from(&mut st, &entries, 7).unwrap();
    assert_eq!(snap.pci_bus_id, "0000:01:00.0");
    assert_ne!(snap.name, "Hermes Sim GPU");
    assert_eq!(hermes_nvml_process_count(&st, 0), 1);
}

#[test]
fn uninitialized_count_errors() {
    let mut st = NvmlState::new();
    hermes_nvml_reset(&mut st);
    assert_eq!(device_count(&st), Err(NVML_ERROR_UNINITIALIZED));
}

#[test]
fn c_strings_end_in_nul() {
    assert_eq!(c_string("ab"), vec![b'a', b'b', 0]);
}
