use hermes::ctl_uapi::HermesCtlStatus;
use hermes::modprobe::{
    char_major_for_path, device_paths_for_create, minor_for_path, nothing_requested, parse_args,
    plan, wanted_modules, ModprobeOpts,
};
use hermes::mps::{handle_command, parse_bytes, parse_percent, status_says_online, MpsHost, MpsState};
use hermes::nvml::abi::nvml_init;
use hermes::nvml::smi::{
    brand_name, csv_header, list_gpu_lines, query_fields, query_gpu_lines, query_one_field, truncate,
};
use hermes::nvml::{hermes_nvml_bind_offline_gpu, hermes_nvml_bind_sim_online_session, NvmlState};

fn host(online: bool) -> MpsHost {
    MpsHost { gsp_online: online, pid: 4242, now: 1_700_000_000, service_quantum_us: 7 }
}

#[test]
fn mps_server_needs_online_gsp() {
    let mut st = MpsState::new();
    let (reply, quit) = handle_command(&mut st, "start_server", host(false));
    assert!(reply.starts_with("error: Hermes GSP status is not Online"));
    assert!(!quit);
    assert!(st.server.is_none());
    assert_eq!(st.sequence, 1);
    assert_eq!(handle_command(&mut st, "get_server_list", host(true)).0, "No MPS servers running");
}

#[test]
fn mps_server_lifecycle() {
    let mut st = MpsState::new();
    assert_eq!(
        handle_command(&mut st, "start_server", host(true)).0,
        "MPS server started pid=4242 service_quantum_us=7"
    );
    assert_eq!(handle_command(&mut st, "start", host(true)).0, "MPS server is already running");
    assert_eq!(handle_command(&mut st, "get_server_list", host(true)).0, "Server PID: 4242");
    assert_eq!(
        handle_command(&mut st, "set_default_active_thread_percentage 40", host(true)).0,
        "OK 40"
    );
    assert_eq!(handle_command(&mut st, "get_default_active_thread_percentage", host(true)).0, "40");
    assert_eq!(
        handle_command(&mut st, "  set_default_device_pinned_mem_limit 1048576 ", host(true)).0,
        "OK 1048576"
    );
    assert_eq!(
        handle_command(&mut st, "get_server_status", host(true)).0,
        "MPS server pid=4242 started=1700000000 active_thread_percentage=40 default_pinned_mem_limit=1048576 service_quantum_us=7"
    );
    assert_eq!(handle_command(&mut st, "stop_server", host(true)).0, "MPS server stopped");
    assert_eq!(handle_command(&mut st, "stop", host(true)).0, "MPS server is not running");
    assert_eq!(handle_command(&mut st, "quit", host(true)), ("Bye".to_string(), true));
    assert_eq!(st.sequence, 10);
}

#[test]
fn mps_blank_and_unknown_commands() {
    let mut st = MpsState::new();
    assert_eq!(handle_command(&mut st, "   ", host(true)), (String::new(), false));
    assert_eq!(st.sequence, 0);
    assert_eq!(handle_command(&mut st, "frobnicate", host(true)).0, "error: unknown command 'frobnicate'");
    assert_eq!(
        handle_command(&mut st, "set_default_active_thread_percentage 150", host(true)).0,
        "error: percentage must be between 0 and 100"
    );
    assert_eq!(
        handle_command(&mut st, "set_default_active_thread_percentage 50", host(true)).0,
        "error: MPS server is not running"
    );
    let mut zero = host(true);
    zero.service_quantum_us = 0;
    handle_command(&mut st, "help", zero);
    assert_eq!(st.service_quantum_us, 1);
}

#[test]
fn mps_argument_parsing() {
    assert_eq!(parse_percent(Some("100")), Ok(100));
    assert_eq!(parse_percent(Some("+7")), Ok(7));
    assert_eq!(parse_percent(None), Err("missing percentage".to_string()));
    assert_eq!(parse_percent(Some("x1")), Err("invalid percentage 'x1'".to_string()));
    assert_eq!(parse_bytes(Some("18446744073709551615")), Ok(u64::MAX));
    assert_eq!(parse_bytes(Some("18446744073709551616")), Err("invalid byte limit '18446744073709551616'".to_string()));
    assert_eq!(parse_bytes(None), Err("missing byte limit".to_string()));
}

#[test]
fn mps_online_needs_flag_and_phase() {
    assert!(status_says_online(&HermesCtlStatus { gsp_online: 1, phase: 5, version: 4, module_mask: 1 }));
    assert!(!status_says_online(&HermesCtlStatus { gsp_online: 1, phase: 4, version: 4, module_mask: 1 }));
    assert!(!status_says_online(&HermesCtlStatus { gsp_online: 0, phase: 5, version: 4, module_mask: 1 }));
}

fn online_state() -> NvmlState {
    let mut st = NvmlState::new();
    assert!(hermes_nvml_bind_sim_online_session(&mut st, "Hermes T1000"));
    st
}

#[test]
fn smi_cells_for_an_online_gpu() {
    let st = online_state();
    assert_eq!(query_one_field(&st, 1, "name", true, true), "Hermes T1000");
    assert_eq!(query_one_field(&st, 1, "pci.bus_id", true, true), "0000:01:00.0");
    assert_eq!(query_one_field(&st, 1, "temperature.gpu", true, true), "42");
    assert_eq!(query_one_field(&st, 1, "fan.speed", true, true), "30");
    assert_eq!(query_one_field(&st, 1, "power.draw", true, true), "15.00");
    assert_eq!(query_one_field(&st, 1, "power.limit", true, true), "70");
    assert_eq!(query_one_field(&st, 1, "memory.total", true, true), "8192");
    assert_eq!(query_one_field(&st, 1, "memory.used", true, true), "4096");
    assert_eq!(query_one_field(&st, 1, "utilization.gpu", true, true), "0");
    assert_eq!(query_one_field(&st, 1, "brand", true, true), "Quadro RTX");
    assert_eq!(query_one_field(&st, 1, "compute_cap", true, true), "7.5");
    assert_eq!(query_one_field(&st, 1, "arch", true, true), "Turing");
    assert_eq!(query_one_field(&st, 1, "clocks.gr", true, true), "[N/A]");
    assert_eq!(query_one_field(&st, 1, "bogus", true, true), "[unknown:bogus]");
    assert_eq!(query_one_field(&st, 9, "name", true, true), "[N/A]");
}

#[test]
fn smi_offline_gpu_hides_telemetry() {
    let mut st = NvmlState::new();
    hermes_nvml_bind_offline_gpu(&mut st, 1);
    assert_eq!(query_one_field(&st, 1, "temp", false, true), "[N/A]");
    assert_eq!(query_one_field(&st, 1, "memory.free", false, true), "0");
    assert_eq!(query_one_field(&st, 1, "name", false, true), "Hermes Offline GPU");
}

#[test]
fn smi_query_lines_and_headers() {
    let st = online_state();
    assert_eq!(
        query_gpu_lines(&st, "name, temperature.gpu,,fan.speed", true, true, true),
        vec!["name, temperature.gpu [C], fan.speed [%]".to_string(), "Hermes T1000, 42, 30".to_string()]
    );
    assert_eq!(
        query_gpu_lines(&st, "name", false, false, false),
        vec!["Hermes T1000".to_string()]
    );
    assert!(query_gpu_lines(&st, " , ", true, true, true).is_empty());
    assert_eq!(query_fields(" a ,b,, c"), vec!["a".to_string(), "b".to_string(), "c".to_string()]);
    assert_eq!(csv_header("memory.used", true), "memory.used [MiB]");
    assert_eq!(csv_header("memory.used", false), "memory.used");
}

#[test]
fn smi_gpu_list() {
    let mut st = NvmlState::new();
    nvml_init(&mut st);
    assert_eq!(list_gpu_lines(&st), vec!["No devices found.".to_string()]);
    let st = online_state();
    assert_eq!(
        list_gpu_lines(&st),
        vec!["GPU 0: Hermes T1000 (UUID n/a) Bus 0000:01:00.0 [ONLINE]".to_string()]
    );
}

#[test]
fn smi_text_helpers() {
    assert_eq!(truncate("abc", 5), "abc  ");
    assert_eq!(truncate("abcdef", 4), "abc\u{2026}");
    assert_eq!(brand_name(5), "GeForce");
    assert_eq!(brand_name(99), "Unknown");
}

fn args(list: &[&str]) -> Vec<String> {
    list.iter().map(|s| s.to_string()).collect()
}

#[test]
fn modprobe_options() {
    let o = parse_args(&args(&["-u", "-c", "3", "--drm"])).unwrap();
    assert!(o.uvm && o.drm && o.create_devices);
    assert_eq!(o.minor, Some(3));
    let o = parse_args(&args(&["-c", "--drm"])).unwrap();
    assert_eq!(o.minor, Some(0));
    assert!(o.drm);
    assert!(parse_args(&args(&["-c", "x"])).is_err());
    let o = parse_args(&args(&["-c7"])).unwrap();
    assert_eq!(o.minor, Some(7));
    let o = parse_args(&args(&["--", "--bogus"])).unwrap();
    assert!(nothing_requested(&o));
    assert_eq!(
        parse_args(&args(&["--bogus"])),
        Err("nvidia-modprobe: unknown option '--bogus' (try --help)".to_string())
    );
}

#[test]
fn modprobe_plan_and_modules() {
    let bare = ModprobeOpts::default();
    let (report, run) = plan(&bare);
    assert!(report);
    let run = run.unwrap();
    assert!(run.core && run.create_devices);
    assert_eq!(run.minor, Some(0));
    assert_eq!(wanted_modules(&run), vec!["nvidia"]);
    let uvm = parse_args(&args(&["-u", "-m"])).unwrap();
    assert_eq!(plan(&uvm), (false, Some(uvm)));
    assert_eq!(wanted_modules(&uvm), vec!["nvidia", "nvidia-uvm", "nvidia-modeset"]);
    let status = parse_args(&args(&["--status"])).unwrap();
    assert_eq!(plan(&status), (true, None));
}

#[test]
fn modprobe_device_nodes() {
    let mut sorted = device_paths_for_create(2);
    assert_eq!(
        sorted,
        vec!["/dev/nvidia-drm", "/dev/nvidia-modeset", "/dev/nvidia-uvm", "/dev/nvidia2", "/dev/nvidiactl"]
    );
    let copy = sorted.clone();
    sorted.sort();
    sorted.dedup();
    assert_eq!(sorted, copy);
    assert_eq!(minor_for_path("/dev/nvidiactl"), 255);
    assert_eq!(minor_for_path("/dev/nvidia-modeset"), 255);
    assert_eq!(minor_for_path("/dev/nvidia-uvm-tools"), 0);
    assert_eq!(minor_for_path("/dev/nvidia12"), 12);
    assert_eq!(minor_for_path("/dev/nvidia"), 0);
}

#[test]
fn modprobe_majors_from_proc_devices() {
    let lines = args(&[
        "Character devices:",
        "  1 mem",
        "195 nvidia-frontend",
        "195 nvidia",
        "508 nvidia-uvm",
        "509 nvidia-modeset",
        "",
        "Block devices:",
        "700 nvidia",
    ]);
    assert_eq!(char_major_for_path(&lines, "/dev/nvidia0"), Some(195));
    assert_eq!(char_major_for_path(&lines, "/dev/nvidia-uvm"), Some(508));
    assert_eq!(char_major_for_path(&lines, "/dev/nvidia-modeset"), Some(509));
    let only_core = args(&["Character devices:", "195 nvidia"]);
    assert_eq!(char_major_for_path(&only_core, "/dev/nvidia-uvm"), Some(195));
    let none = args(&["195 nvidia", "Character devices:"]);
    assert_eq!(char_major_for_path(&none, "/dev/nvidia0"), None);
}

#[test]
fn smi_summary_without_devices_says_so() {
    let mut st = NvmlState::new();
    nvml_init(&mut st);
    let lines = hermes::nvml::summary::smi_summary_lines(&st, "Hermes-GSP 0.1.0", 12_040, 2, "stamp");
    assert_eq!(lines[0], "stamp");
    assert_eq!(
        lines[2],
        "| NVIDIA-SMI Hermes-GSP  Driver Version: Hermes-GSP 0.1.0      CUDA Version: 12.4   |"
    );
    assert_eq!(lines[8], "| No devices were found                                                         |");
    assert_eq!(lines[10], "");
    assert_eq!(lines[11], "Note: discovered_host_gpus=2 (none bound into NVML this process)");
    assert_eq!(lines.len(), 12);
}

#[test]
fn smi_summary_shows_telemetry_only_online() {
    let mut st = NvmlState::new();
    nvml_init(&mut st);
    hermes_nvml_bind_offline_gpu(&mut st, 1);
    let lines = hermes::nvml::summary::smi_summary_lines(&st, "d", 12_000, 1, "t");
    assert!(lines.iter().all(|l| !l.contains("No devices were found")));
    assert!(lines[9].starts_with("|  N/A   N/A  P0      N/A /"));
    assert!(lines.iter().any(|l| l == "|  No running processes found                                                 |"));
    let mut st = NvmlState::new();
    nvml_init(&mut st);
    hermes_nvml_bind_sim_online_session(&mut st, "Hermes Sim GPU");
    let lines = hermes::nvml::summary::smi_summary_lines(&st, "d", 12_000, 0, "t");
    assert!(lines[9].starts_with("|  30%   42C  P0      15W /"));
    assert!(lines[12].contains("phase=ONLINE"));
    assert!(lines.last().unwrap().starts_with("+----"));
}
