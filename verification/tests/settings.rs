use hermes::settings::{
    active_profile_name, compat_matrix, compat_row, header_end, json_string, parse_request_head,
    profile_catalog_json, profile_outcome, profile_plan, profile_plan_from_body,
    profile_request_id, profile_response, profiles, request_fits, request_head, response_head,
    route, status_json, SettingsRoute, MAX_REQUEST,
};

#[test]
fn json_string_escapes_quotes_controls_and_keeps_text() {
    assert_eq!(json_string("plain"), "\"plain\"");
    assert_eq!(json_string("a\"b\\c"), "\"a\\\"b\\\\c\"");
    assert_eq!(json_string("l1\nl2\r\tx"), "\"l1\\nl2\\r\\tx\"");
    assert_eq!(json_string("\u{1}\u{7f}\u{9f}"), "\"\\u0001\\u007f\\u009f\"");
    assert_eq!(json_string("caf\u{e9} \u{a0}"), "\"caf\u{e9} \u{a0}\"");
    assert_eq!(json_string(""), "\"\"");
}

#[test]
fn five_profiles_in_page_order() {
    let v = profiles();
    let ids: Vec<&str> = v.iter().map(|p| p.id).collect();
    assert_eq!(ids, vec!["performance", "balanced", "power-saver", "battery-saver", "low-latency"]);
    assert_eq!(v[3].tuned_profile, "laptop-battery-powersave");
    assert_eq!(v[4].name, "Low Latency");
}

#[test]
fn catalog_is_a_json_array_of_profiles() {
    let c = profile_catalog_json();
    assert!(c.starts_with("[{\"id\":\"performance\",\"name\":\"Performance\",\"description\":\"Prioritize sustained CPU and system throughput.\",\"tuned_profile\":\"throughput-performance\"},{\"id\":\"balanced\""));
    assert!(c.ends_with("\"tuned_profile\":\"latency-performance\"}]"));
    assert_eq!(c.matches("},{").count(), 4);
}

#[test]
fn profile_response_shape() {
    assert_eq!(profile_response(true, "ok"), "{\"ok\":true,\"message\":\"ok\"}");
    assert_eq!(profile_response(false, "a\"b"), "{\"ok\":false,\"message\":\"a\\\"b\"}");
}

#[test]
fn profile_request_id_reads_the_quoted_value() {
    assert_eq!(profile_request_id("{\"profile\": \"balanced\"}").as_deref(), Some("balanced"));
    assert_eq!(profile_request_id("{\"profile\":\"x\",\"other\":1}").as_deref(), Some("x"));
    assert_eq!(profile_request_id("{\"profile\": 3}"), None);
    assert_eq!(profile_request_id("{\"mode\": \"balanced\"}"), None);
    assert_eq!(profile_request_id("{\"profile\" \"balanced\"}").as_deref(), None);
    assert_eq!(profile_request_id("{\"profile\": \"open"), None);
}

#[test]
fn profile_plan_finds_offered_profiles_and_refuses_others() {
    let p = profile_plan("{\"profile\":\"power-saver\"}").unwrap();
    assert_eq!(p.tuned_profile, "powersave");
    assert_eq!(
        profile_plan("{\"profile\":\"turbo\"}").unwrap_err(),
        "{\"ok\":false,\"message\":\"Unknown Hermes profile\"}"
    );
    assert_eq!(
        profile_plan("nonsense").unwrap_err(),
        "{\"ok\":false,\"message\":\"Invalid profile request\"}"
    );
}

#[test]
fn profile_plan_from_body_decodes_bytes() {
    let p = profile_plan_from_body(b"{\"profile\":\"low-latency\"}").unwrap();
    assert_eq!(p.name, "Low Latency");
    assert!(profile_plan_from_body(b"{\"profile\":\"\xff\"}").is_err());
}

#[test]
fn profile_outcome_reports_applied_or_tuned_output() {
    let p = profiles()[1];
    assert_eq!(
        profile_outcome(p, true, "ignored"),
        "{\"ok\":true,\"message\":\"Balanced profile applied\"}"
    );
    assert_eq!(
        profile_outcome(p, false, "tuned-adm is unavailable"),
        "{\"ok\":false,\"message\":\"tuned-adm is unavailable\"}"
    );
}

#[test]
fn active_profile_name_takes_the_first_marked_line() {
    assert_eq!(active_profile_name("Current active profile: balanced\n"), "balanced");
    assert_eq!(
        active_profile_name("note\r\nCurrent active profile:  powersave \r\nCurrent active profile: x"),
        "powersave"
    );
    assert_eq!(active_profile_name("No current active profile."), "");
    assert_eq!(active_profile_name(""), "");
    assert_eq!(active_profile_name("x Current active profile: y"), "");
}

#[test]
fn status_json_carries_outputs_and_catalog() {
    let s = status_json("g", "s\"", "Current active profile: balanced");
    assert!(s.starts_with(
        "{\"graphics\":\"g\",\"settings\":\"s\\\"\",\"power\":\"Current active profile: balanced\",\"active_profile\":\"balanced\",\"profiles\":[{"
    ));
    assert!(s.ends_with("}]}"));
}

#[test]
fn route_serves_page_and_token_guarded_api() {
    assert_eq!(route("GET", "/", "t0k"), SettingsRoute::Page);
    assert_eq!(route("GET", "/?token=wrong", "t0k"), SettingsRoute::Page);
    assert_eq!(route("GET", "/api/status?token=t0k", "t0k"), SettingsRoute::Status);
    assert_eq!(route("GET", "/api/status?x=1&token=t0k", "t0k"), SettingsRoute::Status);
    assert_eq!(route("GET", "/api/status?token=bad&token=t0k", "t0k"), SettingsRoute::NotFound);
    assert_eq!(route("GET", "/api/status", "t0k"), SettingsRoute::NotFound);
    assert_eq!(route("POST", "/api/status?token=t0k", "t0k"), SettingsRoute::NotFound);
    assert_eq!(route("POST", "/api/profile?token=t0k", "t0k"), SettingsRoute::Profile);
    assert_eq!(route("GET", "/api/profile?token=t0k", "t0k"), SettingsRoute::NotFound);
    assert_eq!(route("GET", "/other", "t0k"), SettingsRoute::NotFound);
}

#[test]
fn header_end_is_just_past_the_blank_line() {
    assert_eq!(header_end(b"GET / HTTP/1.1\r\nHost: x\r\n\r\nbody"), Some(27));
    assert_eq!(header_end(b"GET / HTTP/1.1\r\n"), None);
    assert_eq!(header_end(b"\r\n\r\n"), Some(4));
    assert_eq!(header_end(b""), None);
}

#[test]
fn request_head_reads_line_and_content_length() {
    let h = request_head("POST /api/profile?token=a HTTP/1.1\r\nHost: x\r\nCONTENT-Length: 12\r\n\r\n");
    assert_eq!(h.method, "POST");
    assert_eq!(h.target, "/api/profile?token=a");
    assert_eq!(h.content_length, 12);
    let h = request_head("GET /\r\ncontent-length: nope\r\nContent-Length: +7\r\n\r\n");
    assert_eq!(h.target, "/");
    assert_eq!(h.content_length, 7);
    let h = request_head("");
    assert_eq!(h.method, "");
    assert_eq!(h.target, "");
    assert_eq!(h.content_length, 0);
    let h = parse_request_head(b"GET /api/status?token=z HTTP/1.1\r\n\r\n");
    assert_eq!(h.target, "/api/status?token=z");
    assert_eq!(h.content_length, 0);
}

#[test]
fn request_size_limit() {
    assert_eq!(MAX_REQUEST, 64 * 1024);
    assert!(request_fits(100, 65436));
    assert!(!request_fits(100, 65437));
}

#[test]
fn response_head_lists_fixed_headers() {
    let h = response_head("404 Not Found", "text/plain; charset=utf-8", 9);
    assert!(h.starts_with("HTTP/1.1 404 Not Found\r\nContent-Type: text/plain; charset=utf-8\r\nContent-Length: 9\r\nCache-Control: no-store\r\n"));
    assert!(h.ends_with("Connection: close\r\n\r\n"));
}

#[test]
fn compat_matrix_rows() {
    let rows = compat_matrix();
    let got: Vec<(u16, bool, &str, bool, &str)> = rows
        .iter()
        .map(|r| (r.device_id, r.turing_plus, r.firmware_line, r.admitted, r.architecture))
        .collect();
    assert_eq!(
        got,
        vec![
            (0x1db6, false, "-", false, "n/a"),
            (0x1e04, true, "tu10x", true, "Turing"),
            (0x1fb9, true, "tu10x", true, "Turing"),
            (0x2204, true, "ga10x", true, "Ampere"),
            (0x2684, true, "ga10x", true, "Ada"),
            (0x2b85, true, "ga10x", true, "Blackwell"),
        ]
    );
    assert_eq!(compat_row(0x2000, "x").firmware_line, "tu10x");
}
