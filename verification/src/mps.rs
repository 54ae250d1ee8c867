//! The CUDA MPS control protocol: one line command in, one reply line out.
//!
//! The control state holds at most one server. A server starts only while the
//! host reports the GSP session Online; nothing about processes or capacity is
//! made up when it is not.

use vstd::prelude::*;
use vstd::string::*;

use crate::ctl::silicon::{next_token, spec_next_token};
use crate::ctl_uapi::HermesCtlStatus;
use crate::nvml::parse::{from_decimal_range, spec_from_radix};
use crate::text::{append_decimal, spec_decimal, str_eq};

verus! {

/// The control status phase that means Online.
pub const MPS_ONLINE_PHASE: u32 = 5;

/// The running MPS server.
#[derive(Clone, Copy, Debug, PartialEq, Eq, Structural)]
pub struct MpsServer {
    pub pid: u32,
    pub started_at: u64,
    pub active_thread_percentage: u32,
    pub default_pinned_mem_limit: u64,
}

/// The control daemon's state: its server, the number of commands served, and
/// the service quantum of the current command turn.
#[derive(Clone, Copy, Debug, PartialEq, Eq, Structural)]
pub struct MpsState {
    pub server: Option<MpsServer>,
    pub sequence: u64,
    pub service_quantum_us: u32,
}

/// What the host reports for one command turn: whether the GSP status says
/// Online, the daemon's pid, the time in seconds, and the service quantum its
/// scheduler chose.
#[derive(Clone, Copy, Debug, PartialEq, Eq, Structural)]
pub struct MpsHost {
    pub gsp_online: bool,
    pub pid: u32,
    pub now: u64,
    pub service_quantum_us: u32,
}

/// The control device status says Online: the GSP flag set and the Online phase.
pub fn status_says_online(st: &HermesCtlStatus) -> (b: bool)
    ensures
        b == (st.gsp_online == 1 && st.phase == MPS_ONLINE_PHASE),
{
    st.gsp_online == 1 && st.phase == MPS_ONLINE_PHASE
}

impl MpsState {
    /// No server, no command served, a quantum of one microsecond.
    pub fn new() -> (s: Self)
        ensures
            s == (MpsState { server: None, sequence: 0, service_quantum_us: 1 }),
    {
        MpsState { server: None, sequence: 0, service_quantum_us: 1 }
    }
}

/// One command turn: the sequence advances and the quantum becomes the host's,
/// at least one microsecond.
pub open spec fn spec_ticked(s: MpsState, host: MpsHost) -> MpsState {
    MpsState {
        sequence: s.sequence.wrapping_add(1),
        service_quantum_us: if host.service_quantum_us == 0 {
            1
        } else {
            host.service_quantum_us
        },
        ..s
    }
}

/// `str::parse::<u32>` of a percentage, which must be at most 100.
pub open spec fn spec_parse_percent(value: Option<Seq<char>>) -> Result<u32, Seq<char>> {
    match value {
        None => Err("missing percentage"@),
        Some(v) => match spec_from_radix(v, 10, u32::MAX as nat) {
            None => Err("invalid percentage '"@ + v + "'"@),
            Some(p) => if p > 100 {
                Err("percentage must be between 0 and 100"@)
            } else {
                Ok(p as u32)
            },
        },
    }
}

/// `str::parse::<u64>` of a byte limit.
pub open spec fn spec_parse_bytes(value: Option<Seq<char>>) -> Result<u64, Seq<char>> {
    match value {
        None => Err("missing byte limit"@),
        Some(v) => match spec_from_radix(v, 10, u64::MAX as nat) {
            None => Err("invalid byte limit '"@ + v + "'"@),
            Some(b) => Ok(b as u64),
        },
    }
}

pub open spec fn spec_help_text() -> Seq<char> {
    "Hermes MPS commands: get_server_list, get_server_status, start_server, stop_server, set_default_active_thread_percentage <0..100>, get_default_active_thread_percentage, set_default_device_pinned_mem_limit <bytes>, get_default_device_pinned_mem_limit, quit"@
}

pub open spec fn spec_not_running() -> Seq<char> {
    "error: MPS server is not running"@
}

pub open spec fn spec_server_status(sv: MpsServer, quantum: u32) -> Seq<char> {
    "MPS server pid="@ + spec_decimal(sv.pid as nat) + " started="@ + spec_decimal(sv.started_at as nat)
        + " active_thread_percentage="@ + spec_decimal(sv.active_thread_percentage as nat)
        + " default_pinned_mem_limit="@ + spec_decimal(sv.default_pinned_mem_limit as nat)
        + " service_quantum_us="@ + spec_decimal(quantum as nat)
}

/// The reply, whether to quit, and the next state for a command whose verb is
/// `verb` and whose argument (its second token) is `arg`, after the tick `t`.
pub open spec fn spec_mps_verb(t: MpsState, verb: Seq<char>, arg: Option<Seq<char>>, host: MpsHost) -> (
    Seq<char>,
    bool,
    MpsState,
) {
    if verb == "help"@ || verb == "?"@ {
        (spec_help_text(), false, t)
    } else if verb == "get_server_list"@ {
        match t.server {
            Some(sv) => ("Server PID: "@ + spec_decimal(sv.pid as nat), false, t),
            None => ("No MPS servers running"@, false, t),
        }
    } else if verb == "get_server_status"@ {
        match t.server {
            Some(sv) => (spec_server_status(sv, t.service_quantum_us), false, t),
            None => ("MPS server is not running"@, false, t),
        }
    } else if verb == "start_server"@ || verb == "start"@ {
        if t.server is Some {
            ("MPS server is already running"@, false, t)
        } else if !host.gsp_online {
            (
                "error: Hermes GSP status is not Online; start_server requires a live GPU session"@,
                false,
                t,
            )
        } else {
            (
                "MPS server started pid="@ + spec_decimal(host.pid as nat) + " service_quantum_us="@
                    + spec_decimal(t.service_quantum_us as nat),
                false,
                MpsState {
                    server: Some(
                        MpsServer {
                            pid: host.pid,
                            started_at: host.now,
                            active_thread_percentage: 100,
                            default_pinned_mem_limit: 0,
                        },
                    ),
                    ..t
                },
            )
        }
    } else if verb == "stop_server"@ || verb == "stop"@ {
        if t.server is Some {
            ("MPS server stopped"@, false, MpsState { server: None, ..t })
        } else {
            ("MPS server is not running"@, false, t)
        }
    } else if verb == "set_default_active_thread_percentage"@ {
        match spec_parse_percent(arg) {
            Err(e) => ("error: "@ + e, false, t),
            Ok(p) => match t.server {
                Some(sv) => (
                    "OK "@ + spec_decimal(p as nat),
                    false,
                    MpsState { server: Some(MpsServer { active_thread_percentage: p, ..sv }), ..t },
                ),
                None => (spec_not_running(), false, t),
            },
        }
    } else if verb == "get_default_active_thread_percentage"@ {
        match t.server {
            Some(sv) => (spec_decimal(sv.active_thread_percentage as nat), false, t),
            None => (spec_not_running(), false, t),
        }
    } else if verb == "set_default_device_pinned_mem_limit"@ {
        match spec_parse_bytes(arg) {
            Err(e) => ("error: "@ + e, false, t),
            Ok(b) => match t.server {
                Some(sv) => (
                    "OK "@ + spec_decimal(b as nat),
                    false,
                    MpsState { server: Some(MpsServer { default_pinned_mem_limit: b, ..sv }), ..t },
                ),
                None => (spec_not_running(), false, t),
            },
        }
    } else if verb == "get_default_device_pinned_mem_limit"@ {
        match t.server {
            Some(sv) => (spec_decimal(sv.default_pinned_mem_limit as nat), false, t),
            None => (spec_not_running(), false, t),
        }
    } else if verb == "quit"@ || verb == "exit"@ {
        ("Bye"@, true, t)
    } else {
        ("error: unknown command '"@ + verb + "'"@, false, t)
    }
}

/// What a command line does: nothing for a blank line; otherwise one tick and
/// the verb's effect.
pub open spec fn spec_mps_command(s: MpsState, command: Seq<char>, host: MpsHost) -> (
    Seq<char>,
    bool,
    MpsState,
) {
    match spec_next_token(command) {
        None => (Seq::empty(), false, s),
        Some((verb, rest)) => spec_mps_verb(
            spec_ticked(s, host),
            verb,
            match spec_next_token(rest) {
                Some((a, _)) => Some(a),
                None => None,
            },
            host,
        ),
    }
}

fn lit(s: &str) -> (r: String)
    ensures
        r@ == s@,
{
    String::from_str(s)
}

fn decimal(v: u64) -> (r: String)
    ensures
        r@ == spec_decimal(v as nat),
{
    let mut s = String::new();
    append_decimal(&mut s, v);
    s
}

fn quoted(prefix: &str, v: &str) -> (r: String)
    ensures
        r@ == prefix@ + v@ + "'"@,
{
    let mut s = String::from_str(prefix);
    s.append(v);
    s.append("'");
    s
}

/// Parses a percentage argument (see [`spec_parse_percent`]).
pub fn parse_percent(value: Option<&str>) -> (r: Result<u32, String>)
    ensures
        match spec_parse_percent(
            match value {
                Some(v) => Some(v@),
                None => None,
            },
        ) {
            Ok(p) => r == Ok::<u32, String>(p),
            Err(e) => r matches Err(m) && m@ == e,
        },
{
    match value {
        None => Err(lit("missing percentage")),
        Some(v) => {
            let parsed = from_decimal_range(v, 0, v.unicode_len(), 0xffff_ffff);
            proof {
                assert(v@.subrange(0, v@.len() as int) =~= v@);
            }
            match parsed {
                None => Err(quoted("invalid percentage '", v)),
                Some(p) => if p > 100 {
                    Err(lit("percentage must be between 0 and 100"))
                } else {
                    Ok(p as u32)
                },
            }
        },
    }
}

/// Parses a byte-limit argument (see [`spec_parse_bytes`]).
pub fn parse_bytes(value: Option<&str>) -> (r: Result<u64, String>)
    ensures
        match spec_parse_bytes(
            match value {
                Some(v) => Some(v@),
                None => None,
            },
        ) {
            Ok(b) => r == Ok::<u64, String>(b),
            Err(e) => r matches Err(m) && m@ == e,
        },
{
    match value {
        None => Err(lit("missing byte limit")),
        Some(v) => {
            let parsed = from_decimal_range(v, 0, v.unicode_len(), 0xffff_ffff_ffff_ffff);
            proof {
                assert(v@.subrange(0, v@.len() as int) =~= v@);
            }
            match parsed {
                None => Err(quoted("invalid byte limit '", v)),
                Some(b) => Ok(b),
            }
        },
    }
}

fn server_status(sv: MpsServer, quantum: u32) -> (r: String)
    ensures
        r@ == spec_server_status(sv, quantum),
{
    let mut s = String::from_str("MPS server pid=");
    append_decimal(&mut s, sv.pid as u64);
    s.append(" started=");
    append_decimal(&mut s, sv.started_at);
    s.append(" active_thread_percentage=");
    append_decimal(&mut s, sv.active_thread_percentage as u64);
    s.append(" default_pinned_mem_limit=");
    append_decimal(&mut s, sv.default_pinned_mem_limit);
    s.append(" service_quantum_us=");
    append_decimal(&mut s, quantum as u64);
    s
}

fn prefixed_decimal(prefix: &str, v: u64) -> (r: String)
    ensures
        r@ == prefix@ + spec_decimal(v as nat),
{
    let mut s = String::from_str(prefix);
    append_decimal(&mut s, v);
    s
}

fn error_reply(e: String) -> (r: String)
    ensures
        r@ == "error: "@ + e@,
{
    let mut s = String::from_str("error: ");
    s.append(e.as_str());
    s
}

#[verifier::rlimit(40)]
fn run_verb(state: &mut MpsState, verb: &str, arg: Option<&str>, host: MpsHost) -> (r: (String, bool))
    ensures
        (r.0@, r.1, *final(state)) == spec_mps_verb(
            *old(state),
            verb@,
            match arg {
                Some(a) => Some(a@),
                None => None,
            },
            host,
        ),
{
    if str_eq(verb, "help") || str_eq(verb, "?") {
        return (lit("Hermes MPS commands: get_server_list, get_server_status, start_server, stop_server, set_default_active_thread_percentage <0..100>, get_default_active_thread_percentage, set_default_device_pinned_mem_limit <bytes>, get_default_device_pinned_mem_limit, quit"), false);
    }
    if str_eq(verb, "get_server_list") {
        return match state.server {
            Some(sv) => (prefixed_decimal("Server PID: ", sv.pid as u64), false),
            None => (lit("No MPS servers running"), false),
        };
    }
    if str_eq(verb, "get_server_status") {
        return match state.server {
            Some(sv) => (server_status(sv, state.service_quantum_us), false),
            None => (lit("MPS server is not running"), false),
        };
    }
    if str_eq(verb, "start_server") || str_eq(verb, "start") {
        if state.server.is_some() {
            return (lit("MPS server is already running"), false);
        }
        if !host.gsp_online {
            return (
                lit("error: Hermes GSP status is not Online; start_server requires a live GPU session"),
                false,
            );
        }
        state.server = Some(
            MpsServer {
                pid: host.pid,
                started_at: host.now,
                active_thread_percentage: 100,
                default_pinned_mem_limit: 0,
            },
        );
        let mut s = prefixed_decimal("MPS server started pid=", host.pid as u64);
        s.append(" service_quantum_us=");
        append_decimal(&mut s, state.service_quantum_us as u64);
        return (s, false);
    }
    if str_eq(verb, "stop_server") || str_eq(verb, "stop") {
        if state.server.is_some() {
            state.server = None;
            return (lit("MPS server stopped"), false);
        }
        return (lit("MPS server is not running"), false);
    }
    if str_eq(verb, "set_default_active_thread_percentage") {
        return match parse_percent(arg) {
            Err(e) => (error_reply(e), false),
            Ok(p) => match state.server {
                Some(sv) => {
                    state.server = Some(MpsServer { active_thread_percentage: p, ..sv });
                    (prefixed_decimal("OK ", p as u64), false)
                },
                None => (lit("error: MPS server is not running"), false),
            },
        };
    }
    if str_eq(verb, "get_default_active_thread_percentage") {
        return match state.server {
            Some(sv) => (decimal(sv.active_thread_percentage as u64), false),
            None => (lit("error: MPS server is not running"), false),
        };
    }
    if str_eq(verb, "set_default_device_pinned_mem_limit") {
        return match parse_bytes(arg) {
            Err(e) => (error_reply(e), false),
            Ok(b) => match state.server {
                Some(sv) => {
                    state.server = Some(MpsServer { default_pinned_mem_limit: b, ..sv });
                    (prefixed_decimal("OK ", b), false)
                },
                None => (lit("error: MPS server is not running"), false),
            },
        };
    }
    if str_eq(verb, "get_default_device_pinned_mem_limit") {
        return match state.server {
            Some(sv) => (decimal(sv.default_pinned_mem_limit), false),
            None => (lit("error: MPS server is not running"), false),
        };
    }
    if str_eq(verb, "quit") || str_eq(verb, "exit") {
        return (lit("Bye"), true);
    }
    (quoted("error: unknown command '", verb), false)
}

/// Serves one command line (see [`spec_mps_command`]).
pub fn handle_command(state: &mut MpsState, command: &str, host: MpsHost) -> (r: (String, bool))
    ensures
        (r.0@, r.1, *final(state)) == spec_mps_command(*old(state), command@, host),
{
    proof {
        assert(command@.subrange(0, command@.len() as int) =~= command@);
    }
    let (a, b) = match next_token(command, 0) {
        Some(bounds) => bounds,
        None => {
            return (String::new(), false);
        },
    };
    let verb = command.substring_char(a, b);
    let arg = match next_token(command, b) {
        Some((c, d)) => Some(command.substring_char(c, d)),
        None => None,
    };
    state.sequence = state.sequence.wrapping_add(1);
    state.service_quantum_us = if host.service_quantum_us == 0 {
        1
    } else {
        host.service_quantum_us
    };
    run_verb(state, verb, arg, host)
}

} // verus!
