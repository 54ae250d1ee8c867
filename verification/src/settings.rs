//! The local settings page: its power profiles, the JSON it answers with, the
//! profile a request names, and how a request is routed. Serving sockets and
//! running `tuned-adm` stay with the host.

use vstd::prelude::*;
use vstd::string::*;

use crate::nvml::parse::{from_decimal_range, spec_from_radix, spec_trim, trim_bounds};
use crate::ctl::silicon::{next_token, spec_next_token, spec_utf8_lossy, utf8_lossy};
use crate::firmware::{firmware_family_for_device, spec_firmware_family, FirmwareFamily};
use crate::pci::{
    admit_display_device, nvidia_architecture, pci_identity, spec_admit_display,
    spec_nvidia_architecture, HermesPciIdentity, NvidiaArchitecture, NVIDIA_VENDOR_ID,
};
use crate::text::{append_decimal, append_hex, spec_decimal, spec_hex_digits, str_eq, str_starts_with};

verus! {

/// One power profile the page offers, and the `tuned` profile behind it.
#[derive(Clone, Copy, Debug, PartialEq, Eq)]
pub struct HermesProfile {
    pub id: &'static str,
    pub name: &'static str,
    pub tuned_profile: &'static str,
    pub description: &'static str,
}

/// The profile with these four texts.
pub open spec fn spec_profile_is(p: HermesProfile, id: Seq<char>, name: Seq<char>, tuned: Seq<char>, description: Seq<char>) -> bool {
    p.id@ == id && p.name@ == name && p.tuned_profile@ == tuned && p.description@ == description
}

/// The five profiles, in the order the page lists them.
pub open spec fn spec_profiles(v: Seq<HermesProfile>) -> bool {
    &&& v.len() == 5
    &&& spec_profile_is(
        v[0],
        "performance"@,
        "Performance"@,
        "throughput-performance"@,
        "Prioritize sustained CPU and system throughput."@,
    )
    &&& spec_profile_is(
        v[1],
        "balanced"@,
        "Balanced"@,
        "balanced"@,
        "General purpose performance and power balance."@,
    )
    &&& spec_profile_is(
        v[2],
        "power-saver"@,
        "Power Saver"@,
        "powersave"@,
        "Reduce power use and extend battery life."@,
    )
    &&& spec_profile_is(
        v[3],
        "battery-saver"@,
        "Battery Saver"@,
        "laptop-battery-powersave"@,
        "Use the laptop profile with more aggressive savings."@,
    )
    &&& spec_profile_is(
        v[4],
        "low-latency"@,
        "Low Latency"@,
        "latency-performance"@,
        "Favor deterministic response times over efficiency."@,
    )
}

/// The profiles the page offers.
pub fn profiles() -> (v: Vec<HermesProfile>)
    ensures
        spec_profiles(v@),
{
    let mut v: Vec<HermesProfile> = Vec::new();
    v.push(
        HermesProfile {
            id: "performance",
            name: "Performance",
            tuned_profile: "throughput-performance",
            description: "Prioritize sustained CPU and system throughput.",
        },
    );
    v.push(
        HermesProfile {
            id: "balanced",
            name: "Balanced",
            tuned_profile: "balanced",
            description: "General purpose performance and power balance.",
        },
    );
    v.push(
        HermesProfile {
            id: "power-saver",
            name: "Power Saver",
            tuned_profile: "powersave",
            description: "Reduce power use and extend battery life.",
        },
    );
    v.push(
        HermesProfile {
            id: "battery-saver",
            name: "Battery Saver",
            tuned_profile: "laptop-battery-powersave",
            description: "Use the laptop profile with more aggressive savings.",
        },
    );
    v.push(
        HermesProfile {
            id: "low-latency",
            name: "Low Latency",
            tuned_profile: "latency-performance",
            description: "Favor deterministic response times over efficiency.",
        },
    );
    v
}

/// `char::is_control`: the C0 and C1 control characters.
pub open spec fn spec_is_control(c: char) -> bool {
    (c as u32) <= 0x1f || (0x7f <= (c as u32) <= 0x9f)
}

/// How one character is written inside a JSON string.
pub open spec fn spec_escape_char(c: char) -> Seq<char> {
    if c == '"' {
        seq!['\\', '"']
    } else if c == '\\' {
        seq!['\\', '\\']
    } else if c == '\n' {
        seq!['\\', 'n']
    } else if c == '\r' {
        seq!['\\', 'r']
    } else if c == '\t' {
        seq!['\\', 't']
    } else if spec_is_control(c) {
        seq!['\\', 'u'] + spec_hex_digits(c as nat, 4)
    } else {
        seq![c]
    }
}

/// The characters of `s`, each escaped.
pub open spec fn spec_json_escape(s: Seq<char>) -> Seq<char>
    decreases s.len(),
{
    if s.len() == 0 {
        Seq::empty()
    } else {
        spec_json_escape(s.drop_last()) + spec_escape_char(s.last())
    }
}

/// `s` as a JSON string literal.
pub open spec fn spec_json_string(s: Seq<char>) -> Seq<char> {
    seq!['"'] + spec_json_escape(s) + seq!['"']
}

fn append_escaped(out: &mut String, value: &str, i: usize)
    requires
        i < value@.len(),
    ensures
        final(out)@ == old(out)@ + spec_escape_char(value@[i as int]),
{
    let c = value.get_char(i);
    let v = c as u32;
    if c == '"' {
        out.append("\\\"");
        proof {
            reveal_strlit("\\\"");
        }
    } else if c == '\\' {
        out.append("\\\\");
        proof {
            reveal_strlit("\\\\");
        }
    } else if c == '\n' {
        out.append("\\n");
        proof {
            reveal_strlit("\\n");
        }
    } else if c == '\r' {
        out.append("\\r");
        proof {
            reveal_strlit("\\r");
        }
    } else if c == '\t' {
        out.append("\\t");
        proof {
            reveal_strlit("\\t");
        }
    } else if v <= 0x1f || (0x7f <= v && v <= 0x9f) {
        out.append("\\u");
        proof {
            reveal_strlit("\\u");
        }
        append_hex(out, v as u64, 4);
        assert(final(out)@ =~= old(out)@ + spec_escape_char(c));
    } else {
        let n = value.unicode_len();
        let one = value.substring_char(i, i + 1);
        assert(one@ =~= seq![c]);
        out.append(one);
    }
}

/// `value` as a JSON string literal (see [`spec_json_string`]).
pub fn json_string(value: &str) -> (s: String)
    ensures
        s@ == spec_json_string(value@),
{
    let mut s = String::from_str("\"");
    proof {
        reveal_strlit("\"");
    }
    let n = value.unicode_len();
    let mut i: usize = 0;
    while i < n
        invariant
            i <= n,
            n == value@.len(),
            s@ == seq!['"'] + spec_json_escape(value@.subrange(0, i as int)),
        decreases n - i,
    {
        let c = value.get_char(i);
        append_escaped(&mut s, value, i);
        proof {
            assert(value@.subrange(0, i + 1).drop_last() =~= value@.subrange(0, i as int));
            assert(value@.subrange(0, i + 1).last() == c);
        }
        i = i + 1;
    }
    s.append("\"");
    proof {
        assert(value@.subrange(0, n as int) =~= value@);
    }
    s
}

/// One profile as a JSON object.
pub open spec fn spec_profile_json(p: HermesProfile) -> Seq<char> {
    "{\"id\":"@ + spec_json_string(p.id@) + ",\"name\":"@ + spec_json_string(p.name@)
        + ",\"description\":"@ + spec_json_string(p.description@) + ",\"tuned_profile\":"@
        + spec_json_string(p.tuned_profile@) + "}"@
}

/// The objects of `v`, comma separated.
pub open spec fn spec_profile_list(v: Seq<HermesProfile>) -> Seq<char>
    decreases v.len(),
{
    if v.len() == 0 {
        Seq::empty()
    } else if v.len() == 1 {
        spec_profile_json(v[0])
    } else {
        spec_profile_list(v.drop_last()) + ","@ + spec_profile_json(v.last())
    }
}

fn profile_json(p: HermesProfile) -> (s: String)
    ensures
        s@ == spec_profile_json(p),
{
    let mut s = String::from_str("{\"id\":");
    s.append(json_string(p.id).as_str());
    s.append(",\"name\":");
    s.append(json_string(p.name).as_str());
    s.append(",\"description\":");
    s.append(json_string(p.description).as_str());
    s.append(",\"tuned_profile\":");
    s.append(json_string(p.tuned_profile).as_str());
    s.append("}");
    s
}

/// The catalog of `v` as a JSON array.
pub open spec fn spec_catalog_json(v: Seq<HermesProfile>) -> Seq<char> {
    "["@ + spec_profile_list(v) + "]"@
}

/// The profile catalog as a JSON array (see [`spec_catalog_json`]).
pub fn profile_catalog_json() -> (s: String)
    ensures
        exists|v: Seq<HermesProfile>| spec_profiles(v) && s@ == spec_catalog_json(v),
{
    let v = profiles();
    let mut body = String::new();
    let mut k: usize = 0;
    while k < v.len()
        invariant
            k <= v@.len(),
            body@ == spec_profile_list(v@.subrange(0, k as int)),
        decreases v@.len() - k,
    {
        if k > 0 {
            body.append(",");
        }
        body.append(profile_json(v[k]).as_str());
        proof {
            let w = v@.subrange(0, k + 1);
            assert(w.drop_last() =~= v@.subrange(0, k as int));
            if k == 0 {
                assert(v@.subrange(0, 0) =~= Seq::<HermesProfile>::empty());
            }
        }
        k = k + 1;
    }
    let mut s = String::from_str("[");
    s.append(body.as_str());
    s.append("]");
    proof {
        assert(v@.subrange(0, v@.len() as int) =~= v@);
    }
    s
}

/// The answer to a profile request.
pub open spec fn spec_profile_response(ok: bool, message: Seq<char>) -> Seq<char> {
    "{\"ok\":"@ + (if ok {
        "true"@
    } else {
        "false"@
    }) + ",\"message\":"@ + spec_json_string(message) + "}"@
}

/// The answer to a profile request (see [`spec_profile_response`]).
pub fn profile_response(ok: bool, message: &str) -> (s: String)
    ensures
        s@ == spec_profile_response(ok, message@),
{
    let mut s = String::from_str("{\"ok\":");
    s.append(if ok {
        "true"
    } else {
        "false"
    });
    s.append(",\"message\":");
    s.append(json_string(message).as_str());
    s.append("}");
    s
}

/// Where `pat` first occurs in `s` at or after `from`.
pub open spec fn spec_find<A>(s: Seq<A>, pat: Seq<A>, from: int) -> Option<int>
    decreases s.len() + 1 - from,
{
    if from < 0 || from + pat.len() > s.len() {
        None
    } else if s.subrange(from, from + pat.len()) == pat {
        Some(from)
    } else {
        spec_find(s, pat, from + 1)
    }
}

fn find(s: &str, pat: &str) -> (r: Option<usize>)
    ensures
        match spec_find(s@, pat@, 0) {
            Some(k) => r == Some(k as usize) && 0 <= k && k + pat@.len() <= s@.len(),
            None => r is None,
        },
{
    let n = s.unicode_len();
    let m = pat.unicode_len();
    if m > n {
        return None;
    }
    let mut i: usize = 0;
    while i <= n - m
        invariant
            n == s@.len(),
            m == pat@.len(),
            m <= n,
            i <= n - m + 1,
            spec_find(s@, pat@, 0) == spec_find(s@, pat@, i as int),
        decreases n - m + 1 - i,
    {
        if str_eq(s.substring_char(i, i + m), pat) {
            return Some(i);
        }
        if i == n - m {
            assert(spec_find(s@, pat@, i + 1) is None);
            return None;
        }
        i = i + 1;
    }
    None
}

/// The profile id a request body names: after the first `"profile"`, its
/// first `:`, then, past blanks, a double-quoted id.
pub open spec fn spec_profile_request_id(body: Seq<char>) -> Option<Seq<char>> {
    match spec_find(body, "\"profile\""@, 0) {
        None => None,
        Some(k) => {
            let v = body.subrange(k + "\"profile\""@.len(), body.len() as int);
            match spec_find(v, ":"@, 0) {
                None => None,
                Some(c) => {
                    let w = spec_trim(v.subrange(c + 1, v.len() as int));
                    if w.len() > 0 && w[0] == '"' {
                        let x = w.subrange(1, w.len() as int);
                        match spec_find(x, "\""@, 0) {
                            Some(e) => Some(x.subrange(0, e)),
                            None => None,
                        }
                    } else {
                        None
                    }
                },
            }
        },
    }
}

/// The profile id a request body names (see [`spec_profile_request_id`]).
pub fn profile_request_id(body: &str) -> (r: Option<String>)
    ensures
        match spec_profile_request_id(body@) {
            Some(id) => r matches Some(s) && s@ == id,
            None => r is None,
        },
{
    let n = body.unicode_len();
    proof {
        reveal_strlit("\"profile\"");
        reveal_strlit(":");
        reveal_strlit("\"");
    }
    let k = match find(body, "\"profile\"") {
        Some(k) => k,
        None => {
            return None;
        },
    };
    let v = body.substring_char(k + "\"profile\"".unicode_len(), n);
    let vn = v.unicode_len();
    let c = match find(v, ":") {
        Some(c) => c,
        None => {
            return None;
        },
    };
    let rest = v.substring_char(c + 1, vn);
    let (a, b) = trim_bounds(rest);
    let w = rest.substring_char(a, b);
    let wn = w.unicode_len();
    if wn == 0 || w.get_char(0) != '"' {
        return None;
    }
    let x = w.substring_char(1, wn);
    match find(x, "\"") {
        Some(e) => Some(String::from_str(x.substring_char(0, e))),
        None => None,
    }
}

/// The offered profile with this id.
pub open spec fn spec_find_profile(v: Seq<HermesProfile>, id: Seq<char>) -> Option<HermesProfile>
    decreases v.len(),
{
    if v.len() == 0 {
        None
    } else if v[0].id@ == id {
        Some(v[0])
    } else {
        spec_find_profile(v.drop_first(), id)
    }
}

/// What a profile request body asks for: the offered profile it names, or the
/// answer refusing it.
pub open spec fn spec_profile_plan(v: Seq<HermesProfile>, body: Seq<char>) -> Result<HermesProfile, Seq<char>> {
    match spec_profile_request_id(body) {
        None => Err(spec_profile_response(false, "Invalid profile request"@)),
        Some(id) => match spec_find_profile(v, id) {
            None => Err(spec_profile_response(false, "Unknown Hermes profile"@)),
            Some(p) => Ok(p),
        },
    }
}

/// The profile a request body names among the offered ones, or the answer
/// refusing it (see [`spec_profile_plan`]).
pub fn profile_plan(body: &str) -> (r: Result<HermesProfile, String>)
    ensures
        exists|v: Seq<HermesProfile>|
            spec_profiles(v) && match spec_profile_plan(v, body@) {
                Ok(p) => r == Ok::<HermesProfile, String>(p),
                Err(m) => r matches Err(e) && e@ == m,
            },
{
    let v = profiles();
    let id = match profile_request_id(body) {
        Some(id) => id,
        None => {
            return Err(profile_response(false, "Invalid profile request"));
        },
    };
    proof {
        assert(v@.subrange(0, v@.len() as int) =~= v@);
    }
    let mut k: usize = 0;
    while k < v.len()
        invariant
            k <= v@.len(),
            spec_profiles(v@),
            spec_profile_request_id(body@) == Some(id@),
            spec_find_profile(v@, id@) == spec_find_profile(v@.subrange(k as int, v@.len() as int), id@),
        decreases v@.len() - k,
    {
        proof {
            assert(v@.subrange(k as int, v@.len() as int).drop_first() =~= v@.subrange(
                k + 1,
                v@.len() as int,
            ));
        }
        if str_eq(v[k].id, id.as_str()) {
            proof {
                assert(v@.subrange(k as int, v@.len() as int)[0] == v@[k as int]);
                assert(spec_profile_plan(v@, body@) == Ok::<HermesProfile, Seq<char>>(v@[k as int]));
            }
            return Ok(v[k]);
        }
        k = k + 1;
    }
    Err(profile_response(false, "Unknown Hermes profile"))
}

/// The answer after asking `tuned` for `profile`: applied, or refused with
/// what `tuned` said.
pub open spec fn spec_profile_outcome(p: HermesProfile, success: bool, output: Seq<char>) -> Seq<char> {
    if success {
        spec_profile_response(true, p.name@ + " profile applied"@)
    } else {
        spec_profile_response(false, output)
    }
}

/// The answer after asking `tuned` for `profile` (see [`spec_profile_outcome`]).
pub fn profile_outcome(p: HermesProfile, success: bool, output: &str) -> (s: String)
    ensures
        s@ == spec_profile_outcome(p, success, output@),
{
    if success {
        let mut message = String::from_str(p.name);
        message.append(" profile applied");
        profile_response(true, message.as_str())
    } else {
        profile_response(false, output)
    }
}

/// Where the segment of `s` that starts at `j` ends: the first `d` at or
/// after `j`, or the end of `s`.
pub open spec fn spec_next_delim(s: Seq<char>, j: int, d: char) -> int
    decreases s.len() - j,
{
    if j >= s.len() {
        s.len() as int
    } else if s[j] == d {
        j
    } else {
        spec_next_delim(s, j + 1, d)
    }
}

/// A segment ends within `s`, on the delimiter where it does not reach the end.
pub proof fn lemma_next_delim(s: Seq<char>, j: int, d: char)
    requires
        0 <= j <= s.len(),
    ensures
        j <= spec_next_delim(s, j, d) <= s.len(),
        spec_next_delim(s, j, d) < s.len() ==> s[spec_next_delim(s, j, d)] == d,
    decreases s.len() - j,
{
    if j < s.len() && s[j] != d {
        lemma_next_delim(s, j + 1, d);
    }
}

fn next_delim(s: &str, j: usize, d: char) -> (r: usize)
    requires
        j <= s@.len(),
    ensures
        r == spec_next_delim(s@, j as int, d),
        j <= r <= s@.len(),
        r < s@.len() ==> s@[r as int] == d,
{
    proof {
        lemma_next_delim(s@, j as int, d);
    }
    let n = s.unicode_len();
    let mut i = j;
    while i < n
        invariant
            j <= i <= n,
            n == s@.len(),
            spec_next_delim(s@, j as int, d) == spec_next_delim(s@, i as int, d),
        decreases n - i,
    {
        if s.get_char(i) == d {
            return i;
        }
        i = i + 1;
    }
    i
}

/// `power_output`, the text `tuned-adm active` printed: the rest of its first
/// line that starts with `Current active profile:`, from line start `j` on.
pub open spec fn spec_active_profile_from(s: Seq<char>, j: int) -> Option<Seq<char>>
    decreases s.len() + 1 - j,
{
    if j < 0 || j > s.len() {
        None
    } else {
        proof {
            lemma_next_delim(s, j, '\n');
        }
        let e = spec_next_delim(s, j, '\n');
        let line = s.subrange(j, e);
        let p = "Current active profile:"@;
        if p.len() <= line.len() && line.subrange(0, p.len() as int) == p {
            Some(line.subrange(p.len() as int, line.len() as int))
        } else if e < s.len() {
            spec_active_profile_from(s, e + 1)
        } else {
            None
        }
    }
}

/// The active `tuned` profile that `power_output` names, trimmed; empty when
/// no line names one.
pub open spec fn spec_active_profile_name(power_output: Seq<char>) -> Seq<char> {
    match spec_active_profile_from(power_output, 0) {
        Some(rest) => spec_trim(rest),
        None => Seq::empty(),
    }
}

/// The active `tuned` profile that `power_output` names (see
/// [`spec_active_profile_name`]).
pub fn active_profile_name(power_output: &str) -> (name: String)
    ensures
        name@ == spec_active_profile_name(power_output@),
{
    let n = power_output.unicode_len();
    let p = "Current active profile:";
    proof {
        reveal_strlit("Current active profile:");
    }
    let mut j: usize = 0;
    while j <= n
        invariant
            j <= n + 1,
            n == power_output@.len(),
            p@ == "Current active profile:"@,
            spec_active_profile_from(power_output@, 0) == spec_active_profile_from(
                power_output@,
                j as int,
            ),
        decreases n + 1 - j,
    {
        let e = next_delim(power_output, j, '\n');
        let line = power_output.substring_char(j, e);
        if str_starts_with(line, p) {
            let rest = line.substring_char(p.unicode_len(), line.unicode_len());
            let (a, b) = trim_bounds(rest);
            return String::from_str(rest.substring_char(a, b));
        }
        if e == n {
            return String::new();
        }
        j = e + 1;
    }
    String::new()
}

/// The page's status answer: the three command outputs, the active profile
/// and the catalog `v`.
pub open spec fn spec_status_json(
    graphics: Seq<char>,
    settings: Seq<char>,
    power: Seq<char>,
    v: Seq<HermesProfile>,
) -> Seq<char> {
    "{\"graphics\":"@ + spec_json_string(graphics) + ",\"settings\":"@ + spec_json_string(settings)
        + ",\"power\":"@ + spec_json_string(power) + ",\"active_profile\":"@ + spec_json_string(
        spec_active_profile_name(power),
    ) + ",\"profiles\":"@ + spec_catalog_json(v) + "}"@
}

/// The page's status answer from what `hermes-ctl graphics-status`,
/// `nvidia-settings --status` and `tuned-adm active` printed (see
/// [`spec_status_json`]).
pub fn status_json(graphics: &str, settings: &str, power: &str) -> (s: String)
    ensures
        exists|v: Seq<HermesProfile>|
            spec_profiles(v) && s@ == spec_status_json(graphics@, settings@, power@, v),
{
    let mut s = String::from_str("{\"graphics\":");
    s.append(json_string(graphics).as_str());
    s.append(",\"settings\":");
    s.append(json_string(settings).as_str());
    s.append(",\"power\":");
    s.append(json_string(power).as_str());
    s.append(",\"active_profile\":");
    let active = active_profile_name(power);
    s.append(json_string(active.as_str()).as_str());
    s.append(",\"profiles\":");
    let catalog = profile_catalog_json();
    s.append(catalog.as_str());
    s.append("}");
    s
}

/// Where a request should go.
#[derive(Clone, Copy, Debug, PartialEq, Eq)]
pub enum SettingsRoute {
    /// `GET /`: the page itself.
    Page,
    /// `GET /api/status` with the session token.
    Status,
    /// `POST /api/profile` with the session token.
    Profile,
    /// Anything else.
    NotFound,
}

/// A request target split at its first `?` into path and query.
pub open spec fn spec_split_target(t: Seq<char>) -> (Seq<char>, Seq<char>) {
    let e = spec_next_delim(t, 0, '?');
    if e < t.len() {
        (t.subrange(0, e), t.subrange(e + 1, t.len() as int))
    } else {
        (t, Seq::empty())
    }
}

/// The value of the first `&`-separated piece of `q`, from piece start `j`
/// on, that starts with `token=`.
pub open spec fn spec_query_token_from(q: Seq<char>, j: int) -> Option<Seq<char>>
    decreases q.len() + 1 - j,
{
    if j < 0 || j > q.len() {
        None
    } else {
        proof {
            lemma_next_delim(q, j, '&');
        }
        let e = spec_next_delim(q, j, '&');
        let piece = q.subrange(j, e);
        let p = "token="@;
        if p.len() <= piece.len() && piece.subrange(0, p.len() as int) == p {
            Some(piece.subrange(p.len() as int, piece.len() as int))
        } else if e < q.len() {
            spec_query_token_from(q, e + 1)
        } else {
            None
        }
    }
}

/// Where a request with this method and target goes, given the session token.
pub open spec fn spec_route(method: Seq<char>, target: Seq<char>, token: Seq<char>) -> SettingsRoute {
    let (path, query) = spec_split_target(target);
    let candidate = spec_query_token_from(query, 0);
    if path == "/"@ && method == "GET"@ {
        SettingsRoute::Page
    } else if path == "/api/status"@ && method == "GET"@ && candidate == Some(token) {
        SettingsRoute::Status
    } else if path == "/api/profile"@ && method == "POST"@ && candidate == Some(token) {
        SettingsRoute::Profile
    } else {
        SettingsRoute::NotFound
    }
}

fn query_token(q: &str) -> (r: Option<&str>)
    ensures
        match spec_query_token_from(q@, 0) {
            Some(t) => r matches Some(x) && x@ == t,
            None => r is None,
        },
{
    let n = q.unicode_len();
    let p = "token=";
    proof {
        reveal_strlit("token=");
    }
    let mut j: usize = 0;
    while j <= n
        invariant
            j <= n + 1,
            n == q@.len(),
            p@ == "token="@,
            spec_query_token_from(q@, 0) == spec_query_token_from(q@, j as int),
        decreases n + 1 - j,
    {
        let e = next_delim(q, j, '&');
        let piece = q.substring_char(j, e);
        if str_starts_with(piece, p) {
            return Some(piece.substring_char(p.unicode_len(), piece.unicode_len()));
        }
        if e == n {
            return None;
        }
        j = e + 1;
    }
    None
}

/// Where a request with this method and target goes (see [`spec_route`]).
pub fn route(method: &str, target: &str, token: &str) -> (r: SettingsRoute)
    ensures
        r == spec_route(method@, target@, token@),
{
    let n = target.unicode_len();
    let e = next_delim(target, 0, '?');
    let (path, query) = if e < n {
        (target.substring_char(0, e), target.substring_char(e + 1, n))
    } else {
        proof {
            assert(target@.subrange(0, n as int) =~= target@);
        }
        (target.substring_char(0, n), "")
    };
    proof {
        reveal_strlit("");
        reveal_strlit("/");
        reveal_strlit("GET");
        reveal_strlit("POST");
        reveal_strlit("/api/status");
        reveal_strlit("/api/profile");
        assert(""@ =~= Seq::<char>::empty());
    }
    let candidate = query_token(query);
    let token_ok = match candidate {
        Some(c) => str_eq(c, token),
        None => false,
    };
    if str_eq(path, "/") && str_eq(method, "GET") {
        SettingsRoute::Page
    } else if str_eq(path, "/api/status") && str_eq(method, "GET") && token_ok {
        SettingsRoute::Status
    } else if str_eq(path, "/api/profile") && str_eq(method, "POST") && token_ok {
        SettingsRoute::Profile
    } else {
        SettingsRoute::NotFound
    }
}

/// The largest request, head and body together, that the page reads.
pub const MAX_REQUEST: usize = 65536;

/// The bytes that end a request head.
pub open spec fn spec_head_terminator() -> Seq<u8> {
    seq![13u8, 10u8, 13u8, 10u8]
}

/// Where the head of the request in `buffer` ends: just past its first
/// blank line (`\r\n\r\n`), if it has one yet.
pub open spec fn spec_header_end(buffer: Seq<u8>) -> Option<int> {
    match spec_find(buffer, spec_head_terminator(), 0) {
        Some(k) => Some(k + 4),
        None => None,
    }
}

/// Where the head of the request in `buffer` ends (see [`spec_header_end`]).
pub fn header_end(buffer: &[u8]) -> (r: Option<usize>)
    ensures
        match spec_header_end(buffer@) {
            Some(e) => r == Some(e as usize) && 4 <= e <= buffer@.len(),
            None => r is None,
        },
{
    let n = buffer.len();
    let ghost pat = spec_head_terminator();
    if n < 4 {
        assert(spec_find(buffer@, pat, 0) is None);
        return None;
    }
    let mut i: usize = 0;
    while i <= n - 4
        invariant
            n == buffer@.len(),
            4 <= n,
            i <= n - 3,
            pat == spec_head_terminator(),
            spec_find(buffer@, pat, 0) == spec_find(buffer@, pat, i as int),
        decreases n - 3 - i,
    {
        let hit = buffer[i] == 13u8 && buffer[i + 1] == 10u8 && buffer[i + 2] == 13u8 && buffer[i
            + 3] == 10u8;
        if hit {
            assert(buffer@.subrange(i as int, i + 4) =~= pat);
            return Some(i + 4);
        }
        assert(buffer@.subrange(i as int, i + 4) != pat) by {
            if buffer@.subrange(i as int, i + 4) == pat {
                assert(buffer@.subrange(i as int, i + 4)[0] == pat[0]);
                assert(buffer@.subrange(i as int, i + 4)[1] == pat[1]);
                assert(buffer@.subrange(i as int, i + 4)[2] == pat[2]);
                assert(buffer@.subrange(i as int, i + 4)[3] == pat[3]);
            }
        }
        if i == n - 4 {
            assert(spec_find(buffer@, pat, i + 1) is None);
            return None;
        }
        i = i + 1;
    }
    None
}

/// Whether a request whose head ends at `header_end` and whose body is
/// `content_length` bytes is small enough to read.
pub fn request_fits(header_end: usize, content_length: usize) -> (r: bool)
    requires
        header_end + content_length <= usize::MAX,
    ensures
        r == (header_end + content_length <= MAX_REQUEST),
{
    header_end + content_length <= MAX_REQUEST
}

/// The method, target and body length a request head gives.
#[derive(Clone, Debug, PartialEq, Eq)]
pub struct RequestHead {
    pub method: String,
    pub target: String,
    pub content_length: usize,
}

/// The request line: the head's first line.
pub open spec fn spec_request_line(head: Seq<char>) -> Seq<char> {
    head.subrange(0, spec_next_delim(head, 0, '\n'))
}

/// The request method: the first whitespace-separated word of the request
/// line, or empty.
pub open spec fn spec_request_method(head: Seq<char>) -> Seq<char> {
    match spec_next_token(spec_request_line(head)) {
        Some((m, _)) => m,
        None => Seq::empty(),
    }
}

/// The request target: the second word of the request line, or empty.
pub open spec fn spec_request_target(head: Seq<char>) -> Seq<char> {
    match spec_next_token(spec_request_line(head)) {
        Some((_, rest)) => match spec_next_token(rest) {
            Some((t, _)) => t,
            None => Seq::empty(),
        },
        None => Seq::empty(),
    }
}

/// ASCII lower case, as a code point.
pub open spec fn spec_ascii_lower(c: char) -> u32 {
    if 'A' <= c <= 'Z' {
        ((c as u32) + 32) as u32
    } else {
        c as u32
    }
}

/// `str::eq_ignore_ascii_case` against a text that is all ASCII.
pub open spec fn spec_eq_ignore_ascii_case(a: Seq<char>, b: Seq<char>) -> bool {
    a.len() == b.len() && forall|i: int| 0 <= i < a.len() ==> spec_ascii_lower(a[i]) == spec_ascii_lower(b[i])
}

/// The length a header line gives: a name before its first `:` that is
/// `content-length` in any case, and a value after it that parses as a
/// `usize`, both trimmed.
pub open spec fn spec_content_length_line(line: Seq<char>) -> Option<nat> {
    let c = spec_next_delim(line, 0, ':');
    if c < line.len() && spec_eq_ignore_ascii_case(
        spec_trim(line.subrange(0, c)),
        "content-length"@,
    ) {
        spec_from_radix(spec_trim(line.subrange(c + 1, line.len() as int)), 10, usize::MAX as nat)
    } else {
        None
    }
}

/// The length the first line from line start `j` on that gives one gives.
pub open spec fn spec_content_length_from(head: Seq<char>, j: int) -> Option<nat>
    decreases head.len() + 1 - j,
{
    if j < 0 || j > head.len() {
        None
    } else {
        proof {
            lemma_next_delim(head, j, '\n');
        }
        let e = spec_next_delim(head, j, '\n');
        match spec_content_length_line(head.subrange(j, e)) {
            Some(v) => Some(v),
            None => if e < head.len() {
                spec_content_length_from(head, e + 1)
            } else {
                None
            },
        }
    }
}

/// The body length a request head gives; 0 when no line gives one.
pub open spec fn spec_request_content_length(head: Seq<char>) -> nat {
    match spec_content_length_from(head, 0) {
        Some(v) => v,
        None => 0,
    }
}

fn ascii_lower(c: char) -> (r: u32)
    ensures
        r == spec_ascii_lower(c),
{
    let v = c as u32;
    if 'A' <= c && c <= 'Z' {
        v + 32
    } else {
        v
    }
}

fn eq_ignore_ascii_case(a: &str, b: &str) -> (r: bool)
    ensures
        r == spec_eq_ignore_ascii_case(a@, b@),
{
    let n = a.unicode_len();
    if n != b.unicode_len() {
        return false;
    }
    let mut i: usize = 0;
    while i < n
        invariant
            i <= n,
            n == a@.len(),
            n == b@.len(),
            forall|k: int| 0 <= k < i ==> spec_ascii_lower(a@[k]) == spec_ascii_lower(b@[k]),
        decreases n - i,
    {
        if ascii_lower(a.get_char(i)) != ascii_lower(b.get_char(i)) {
            return false;
        }
        i = i + 1;
    }
    true
}

fn content_length_line(line: &str) -> (r: Option<usize>)
    ensures
        match spec_content_length_line(line@) {
            Some(v) => r == Some(v as usize),
            None => r is None,
        },
{
    let n = line.unicode_len();
    let c = next_delim(line, 0, ':');
    if c == n {
        return None;
    }
    let name = line.substring_char(0, c);
    let (a, b) = trim_bounds(name);
    proof {
        reveal_strlit("content-length");
    }
    if !eq_ignore_ascii_case(name.substring_char(a, b), "content-length") {
        return None;
    }
    let value = line.substring_char(c + 1, n);
    let (a, b) = trim_bounds(value);
    match from_decimal_range(value, a, b, usize::MAX as u64) {
        Some(v) => Some(v as usize),
        None => None,
    }
}

fn content_length(head: &str) -> (r: usize)
    ensures
        r == spec_request_content_length(head@),
{
    let n = head.unicode_len();
    let mut j: usize = 0;
    while j <= n
        invariant
            j <= n + 1,
            n == head@.len(),
            spec_content_length_from(head@, 0) == spec_content_length_from(head@, j as int),
        decreases n + 1 - j,
    {
        let e = next_delim(head, j, '\n');
        match content_length_line(head.substring_char(j, e)) {
            Some(v) => {
                return v;
            },
            None => {},
        }
        if e == n {
            return 0;
        }
        j = e + 1;
    }
    0
}

/// The method, target and body length a request head gives (see
/// [`spec_request_method`], [`spec_request_target`],
/// [`spec_request_content_length`]).
pub fn request_head(head: &str) -> (h: RequestHead)
    ensures
        h.method@ == spec_request_method(head@),
        h.target@ == spec_request_target(head@),
        h.content_length == spec_request_content_length(head@),
{
    let e0 = next_delim(head, 0, '\n');
    let line = head.substring_char(0, e0);
    let ln = line.unicode_len();
    proof {
        assert(line@.subrange(0, ln as int) =~= line@);
    }
    let (method, target) = match next_token(line, 0) {
        Some((a, b)) => {
            let m = String::from_str(line.substring_char(a, b));
            match next_token(line, b) {
                Some((c, d)) => (m, String::from_str(line.substring_char(c, d))),
                None => (m, String::new()),
            }
        },
        None => (String::new(), String::new()),
    };
    let length = content_length(head);
    RequestHead { method, target, content_length: length }
}

/// The head of the page's answers: status, content type and body length,
/// then the fixed caching, sniffing, content-security and connection headers.
pub open spec fn spec_response_head(status: Seq<char>, content_type: Seq<char>, body_len: nat) -> Seq<char> {
    "HTTP/1.1 "@ + status + "\r\nContent-Type: "@ + content_type + "\r\nContent-Length: "@
        + spec_decimal(body_len) + "\r\nCache-Control: no-store\r\nX-Content-Type-Options: nosniff\r\nContent-Security-Policy: default-src 'self'; script-src 'self' 'unsafe-inline'; style-src 'self' 'unsafe-inline'; connect-src 'self'; img-src 'self'\r\nConnection: close\r\n\r\n"@
}

/// The head of an answer (see [`spec_response_head`]).
pub fn response_head(status: &str, content_type: &str, body_len: usize) -> (s: String)
    ensures
        s@ == spec_response_head(status@, content_type@, body_len as nat),
{
    let mut s = String::from_str("HTTP/1.1 ");
    s.append(status);
    s.append("\r\nContent-Type: ");
    s.append(content_type);
    s.append("\r\nContent-Length: ");
    append_decimal(&mut s, body_len as u64);
    s.append(
        "\r\nCache-Control: no-store\r\nX-Content-Type-Options: nosniff\r\nContent-Security-Policy: default-src 'self'; script-src 'self' 'unsafe-inline'; style-src 'self' 'unsafe-inline'; connect-src 'self'; img-src 'self'\r\nConnection: close\r\n\r\n",
    );
    s
}

/// The method, target and body length of the request head in `header`, read
/// as UTF-8 with invalid sequences replaced (see [`request_head`]).
pub fn parse_request_head(header: &[u8]) -> (h: RequestHead)
    ensures
        h.method@ == spec_request_method(spec_utf8_lossy(header@)),
        h.target@ == spec_request_target(spec_utf8_lossy(header@)),
        h.content_length == spec_request_content_length(spec_utf8_lossy(header@)),
        vstd::utf8::valid_utf8(header@) ==> {
            let text = vstd::utf8::decode_utf8(header@);
            &&& h.method@ == spec_request_method(text)
            &&& h.target@ == spec_request_target(text)
            &&& h.content_length == spec_request_content_length(text)
        },
{
    let text = utf8_lossy(header);
    request_head(text.as_str())
}

/// The profile a request body names, read as UTF-8 with invalid sequences
/// replaced, or the answer refusing it (see [`profile_plan`]).
pub fn profile_plan_from_body(body: &[u8]) -> (r: Result<HermesProfile, String>)
    ensures
        exists|v: Seq<HermesProfile>|
            spec_profiles(v) && match spec_profile_plan(v, spec_utf8_lossy(body@)) {
                Ok(p) => r == Ok::<HermesProfile, String>(p),
                Err(m) => r matches Err(e) && e@ == m,
            },
        vstd::utf8::valid_utf8(body@) ==> exists|v: Seq<HermesProfile>|
            spec_profiles(v) && match spec_profile_plan(v, vstd::utf8::decode_utf8(body@)) {
                Ok(p) => r == Ok::<HermesProfile, String>(p),
                Err(m) => r matches Err(e) && e@ == m,
            },
{
    let text = utf8_lossy(body);
    profile_plan(text.as_str())
}

/// One row of the compatibility table: a sample device and what the gates
/// make of it.
#[derive(Clone, Copy, Debug, PartialEq, Eq)]
pub struct CompatRow {
    pub device_id: u16,
    pub name: &'static str,
    pub turing_plus: bool,
    pub firmware_line: &'static str,
    pub admitted: bool,
    pub architecture: &'static str,
}

/// The firmware line a device would load, as the table writes it.
pub open spec fn spec_firmware_line(device_id: u16) -> Seq<char> {
    match spec_firmware_family(device_id) {
        Some(FirmwareFamily::Tu10x) => "tu10x"@,
        Some(FirmwareFamily::Ga10x) => "ga10x"@,
        None => "-"@,
    }
}

/// The architecture of a device, as the table writes it.
pub open spec fn spec_architecture_label(device_id: u16) -> Seq<char> {
    match spec_nvidia_architecture(device_id) {
        Some(NvidiaArchitecture::Turing) => "Turing"@,
        Some(NvidiaArchitecture::Ampere) => "Ampere"@,
        Some(NvidiaArchitecture::Hopper) => "Hopper"@,
        Some(NvidiaArchitecture::Ada) => "Ada"@,
        Some(NvidiaArchitecture::Blackwell) => "Blackwell"@,
        None => "n/a"@,
    }
}

/// The display-class NVIDIA identity the table tests a device id with.
pub open spec fn spec_sample_identity(device_id: u16) -> HermesPciIdentity {
    HermesPciIdentity {
        segment: 0,
        bus: 0,
        slot: 0,
        function: 0,
        revision: 0,
        vendor_id: NVIDIA_VENDOR_ID,
        device_id,
        subsystem_vendor_id: 0,
        subsystem_device_id: 0,
        class_code: 0x03,
        subclass: 0x00,
        programming_interface: 0,
        reserved: 0,
    }
}

/// The table row of the device `device_id` called `name`.
pub fn compat_row(device_id: u16, name: &'static str) -> (r: CompatRow)
    ensures
        r.device_id == device_id,
        r.name == name,
        r.turing_plus == spec_nvidia_architecture(device_id).is_some(),
        r.firmware_line@ == spec_firmware_line(device_id),
        r.admitted == spec_admit_display(spec_sample_identity(device_id)) is Ok,
        r.architecture@ == spec_architecture_label(device_id),
{
    let arch = nvidia_architecture(device_id);
    let firmware_line = match firmware_family_for_device(device_id) {
        Some(FirmwareFamily::Tu10x) => "tu10x",
        Some(FirmwareFamily::Ga10x) => "ga10x",
        None => "-",
    };
    let identity = pci_identity(NVIDIA_VENDOR_ID, device_id, 0x03, 0x00);
    let admitted = admit_display_device(&identity).is_ok();
    let architecture = match arch {
        Some(a) => a.as_str(),
        None => "n/a",
    };
    proof {
        reveal_strlit("tu10x");
        reveal_strlit("ga10x");
        reveal_strlit("-");
        reveal_strlit("n/a");
    }
    CompatRow {
        device_id,
        name,
        turing_plus: arch.is_some(),
        firmware_line,
        admitted,
        architecture,
    }
}

/// The rows of the compatibility table: one sample of each generation from
/// Volta to Blackwell, in that order.
pub fn compat_matrix() -> (rows: Vec<CompatRow>)
    ensures
        rows@.len() == 6,
        rows@[0].device_id == 0x1db6 && rows@[0].name@ == "GV100 Volta"@,
        rows@[1].device_id == 0x1e04 && rows@[1].name@ == "TU102 Turing"@,
        rows@[2].device_id == 0x1fb9 && rows@[2].name@ == "TU117GLM T1000"@,
        rows@[3].device_id == 0x2204 && rows@[3].name@ == "GA102 Ampere"@,
        rows@[4].device_id == 0x2684 && rows@[4].name@ == "AD102 Ada"@,
        rows@[5].device_id == 0x2b85 && rows@[5].name@ == "GB202 Blackwell"@,
        forall|i: int|
            0 <= i < 6 ==> {
                let r = #[trigger] rows@[i];
                &&& r.turing_plus == spec_nvidia_architecture(r.device_id).is_some()
                &&& r.firmware_line@ == spec_firmware_line(r.device_id)
                &&& r.admitted == spec_admit_display(spec_sample_identity(r.device_id)) is Ok
                &&& r.architecture@ == spec_architecture_label(r.device_id)
            },
{
    let mut rows: Vec<CompatRow> = Vec::new();
    rows.push(compat_row(0x1db6, "GV100 Volta"));
    rows.push(compat_row(0x1e04, "TU102 Turing"));
    rows.push(compat_row(0x1fb9, "TU117GLM T1000"));
    rows.push(compat_row(0x2204, "GA102 Ampere"));
    rows.push(compat_row(0x2684, "AD102 Ada"));
    rows.push(compat_row(0x2b85, "GB202 Blackwell"));
    rows
}

} // verus!
