//! What the NVIDIA/Hermes character devices and kernel modules report, and the
//! status line the control device's `read()` gives. Presence alone never means
//! Online: a readable status that says Offline is reported as Offline.

use vstd::prelude::*;
use vstd::string::*;

use crate::ctl_uapi::{
    spec_block_checksum_ok, HermesCtlStatus, HermesDrmEdid, HermesDrmStatus, HermesMeasureFw,
    HERMES_CTL_STATUS_VERSION, HERMES_MOD_DRM, HERMES_MOD_MODESET, HERMES_MOD_NVIDIA,
    HERMES_MOD_PEERMEM, HERMES_MOD_UVM,
};
use crate::linux::modules;
use crate::nvml::format::{spec_ascii_lower, spec_ascii_lower_char};
use crate::nvml::parse::{from_decimal_range, spec_from_radix, spec_is_whitespace};
use crate::text::{str_eq, str_starts_with};

verus! {

#[derive(Clone, Debug)]
pub struct ModulePresence {
    pub name: &'static str,
    pub loaded: bool,
}

#[derive(Clone, Debug)]
pub struct NodePresence {
    pub path: &'static str,
    pub exists: bool,
}

/// Everything a chardev probe saw: module and node presence, and what the
/// control and DRM devices answered (or why they could not be asked).
#[derive(Clone, Debug)]
pub struct ChardevProbe {
    pub modules: Vec<ModulePresence>,
    pub nodes: Vec<NodePresence>,
    pub ctl_status: Option<HermesCtlStatus>,
    pub ctl_read: Option<String>,
    pub ctl_error: Option<String>,
    pub drm_status: Option<HermesDrmStatus>,
    pub drm_error: Option<String>,
}

/// The kernel modules a probe looks for, in load order.
pub fn probe_module_names() -> (names: Vec<&'static str>)
    ensures
        names@ == seq![
            modules::NVIDIA,
            modules::NVIDIA_MODESET,
            modules::NVIDIA_UVM,
            modules::NVIDIA_DRM,
            modules::NVIDIA_PEERMEM,
        ],
{
    let mut names: Vec<&'static str> = Vec::new();
    names.push(modules::NVIDIA);
    names.push(modules::NVIDIA_MODESET);
    names.push(modules::NVIDIA_UVM);
    names.push(modules::NVIDIA_DRM);
    names.push(modules::NVIDIA_PEERMEM);
    assert(names@ =~= seq![
        modules::NVIDIA,
        modules::NVIDIA_MODESET,
        modules::NVIDIA_UVM,
        modules::NVIDIA_DRM,
        modules::NVIDIA_PEERMEM,
    ]);
    names
}

/// The device nodes a probe looks for.
pub fn probe_node_paths() -> (paths: Vec<&'static str>)
    ensures
        paths@.len() == 7,
        paths@[0]@ == "/dev/nvidiactl"@,
        paths@[1]@ == "/dev/nvidia0"@,
        paths@[2]@ == "/dev/nvidia-uvm"@,
        paths@[3]@ == "/dev/nvidia-uvm-tools"@,
        paths@[4]@ == "/dev/nvidia-modeset"@,
        paths@[5]@ == "/dev/nvidia-drm"@,
        paths@[6]@ == "/dev/nvidia-peermem"@,
{
    let mut paths: Vec<&'static str> = Vec::new();
    paths.push("/dev/nvidiactl");
    paths.push("/dev/nvidia0");
    paths.push("/dev/nvidia-uvm");
    paths.push("/dev/nvidia-uvm-tools");
    paths.push("/dev/nvidia-modeset");
    paths.push("/dev/nvidia-drm");
    paths.push("/dev/nvidia-peermem");
    paths
}

/// Length of the run of non-whitespace characters `s` starts with.
pub open spec fn spec_token_len(s: Seq<char>) -> nat
    decreases s.len(),
{
    if s.len() > 0 && !spec_is_whitespace(s[0]) {
        1 + spec_token_len(s.drop_first())
    } else {
        0
    }
}

pub open spec fn spec_ascii_upper_char(c: char) -> char {
    if 0x61 <= (c as u32) <= 0x7a {
        ((c as u32) - 32) as char
    } else {
        c
    }
}

/// `str::to_ascii_uppercase`.
pub open spec fn spec_ascii_upper(s: Seq<char>) -> Seq<char> {
    Seq::new(s.len(), |i: int| spec_ascii_upper_char(s[i]))
}

/// The phase code a status line names (Offline's for a name it does not know).
pub open spec fn spec_phase_code_of(name: Seq<char>) -> u32 {
    let u = spec_ascii_upper(name);
    if u == "OFFLINE"@ {
        0
    } else if u == "PROBED"@ {
        1
    } else if u == "FIRMWARED"@ {
        2
    } else if u == "QUEUED"@ {
        3
    } else if u == "NEGOTIATED"@ {
        4
    } else if u == "ONLINE"@ {
        5
    } else if u == "RECOVERING"@ {
        6
    } else if u == "QUARANTINED"@ {
        7
    } else {
        0
    }
}

/// The module bit a `modules=` entry names (none for an unknown name).
pub open spec fn spec_module_bit(m: Seq<char>) -> u32 {
    if m == "nvidia"@ {
        HERMES_MOD_NVIDIA
    } else if m == "nvidia-modeset"@ || m == "modeset"@ {
        HERMES_MOD_MODESET
    } else if m == "nvidia-uvm"@ || m == "uvm"@ {
        HERMES_MOD_UVM
    } else if m == "nvidia-drm"@ || m == "drm"@ {
        HERMES_MOD_DRM
    } else if m == "nvidia-peermem"@ || m == "peermem"@ {
        HERMES_MOD_PEERMEM
    } else {
        0
    }
}

/// `str::split(',')`.
pub open spec fn spec_split_commas(s: Seq<char>) -> Seq<Seq<char>>
    decreases s.len(),
{
    if s.len() == 0 {
        seq![Seq::<char>::empty()]
    } else {
        let prev = spec_split_commas(s.drop_last());
        if s.last() == ',' {
            prev.push(Seq::<char>::empty())
        } else {
            prev.update(prev.len() - 1, prev.last().push(s.last()))
        }
    }
}

/// The bits of the first `n` entries of a module list, or-ed together.
pub open spec fn spec_mask_fold(pieces: Seq<Seq<char>>, n: int) -> u32
    decreases n,
{
    if n <= 0 {
        0
    } else {
        spec_mask_fold(pieces, n - 1) | spec_module_bit(pieces[n - 1])
    }
}

/// The module mask a `modules=` list names; the primary module alone when it
/// names none.
pub open spec fn spec_modules_mask(v: Seq<char>) -> u32 {
    let pieces = spec_split_commas(v);
    let m = spec_mask_fold(pieces, pieces.len() as int);
    if m == 0 {
        HERMES_MOD_NVIDIA
    } else {
        m
    }
}

/// What one `key=value` token of a status line sets: (online, phase, mask).
pub open spec fn spec_apply_token(st: (bool, u32, u32), tok: Seq<char>) -> (bool, u32, u32) {
    let st1 = if tok.len() >= 11 && tok.subrange(0, 11) == "gsp_online="@ {
        let v = tok.subrange(11, tok.len() as int);
        (v == "1"@ || spec_ascii_lower(v) == "true"@, st.1, st.2)
    } else {
        st
    };
    let st2 = if tok.len() >= 6 && tok.subrange(0, 6) == "phase="@ {
        (st1.0, spec_phase_code_of(tok.subrange(6, tok.len() as int)), st1.2)
    } else {
        st1
    };
    if tok.len() >= 8 && tok.subrange(0, 8) == "modules="@ {
        (st2.0, st2.1, spec_modules_mask(tok.subrange(8, tok.len() as int)))
    } else {
        st2
    }
}

/// The whitespace-separated tokens of `s`, applied in order.
pub open spec fn spec_scan(s: Seq<char>, st: (bool, u32, u32)) -> (bool, u32, u32)
    decreases s.len(),
{
    if s.len() == 0 {
        st
    } else if spec_is_whitespace(s[0]) {
        spec_scan(s.drop_first(), st)
    } else {
        let n = spec_token_len(s);
        if 0 < n <= s.len() {
            spec_scan(s.subrange(n as int, s.len() as int), spec_apply_token(st, s.subrange(0, n as int)))
        } else {
            st
        }
    }
}

/// The status a `hermes gsp_online=N phase=NAME modules=a,b ...` line gives:
/// Offline, phase 0 and the primary module unless its tokens say otherwise.
pub open spec fn spec_parse_ctl_read_line(line: Seq<char>) -> (bool, u32, u32) {
    spec_scan(line, (false, 0, HERMES_MOD_NVIDIA))
}

proof fn lemma_token_len_bound(s: Seq<char>)
    ensures
        spec_token_len(s) <= s.len(),
    decreases s.len(),
{
    if s.len() > 0 && !spec_is_whitespace(s[0]) {
        lemma_token_len_bound(s.drop_first());
    }
}

fn is_ws(c: char) -> (b: bool)
    ensures
        b == spec_is_whitespace(c),
{
    let v = c as u32;
    (0x9 <= v && v <= 0xd) || v == 0x20 || v == 0x85 || v == 0xa0 || v == 0x1680 || (0x2000 <= v
        && v <= 0x200a) || v == 0x2028 || v == 0x2029 || v == 0x202f || v == 0x205f || v == 0x3000
}

fn ascii_upper_char(c: char) -> (u: char)
    ensures
        u == spec_ascii_upper_char(c),
{
    let v = c as u32;
    if 0x61 <= v && v <= 0x7a {
        ((v - 32) as u8) as char
    } else {
        c
    }
}

fn ascii_lower_char(c: char) -> (l: char)
    ensures
        l == spec_ascii_lower_char(c),
{
    let v = c as u32;
    if 0x41 <= v && v <= 0x5a {
        ((v + 32) as u8) as char
    } else {
        c
    }
}

/// `spec_ascii_upper(a) == b`.
fn upper_equals(a: &str, b: &str) -> (r: bool)
    ensures
        r == (spec_ascii_upper(a@) == b@),
{
    let n = a.unicode_len();
    if n != b.unicode_len() {
        return false;
    }
    let mut i: usize = 0;
    while i < n
        invariant
            i <= n,
            n == a@.len(),
            n == b@.len(),
            forall|k: int| 0 <= k < i ==> spec_ascii_upper_char(a@[k]) == b@[k],
        decreases n - i,
    {
        if ascii_upper_char(a.get_char(i)) != b.get_char(i) {
            assert(spec_ascii_upper(a@)[i as int] != b@[i as int]);
            return false;
        }
        i = i + 1;
    }
    assert(spec_ascii_upper(a@) =~= b@);
    true
}

/// `spec_ascii_lower(a) == b`.
fn lower_equals(a: &str, b: &str) -> (r: bool)
    ensures
        r == (spec_ascii_lower(a@) == b@),
{
    let n = a.unicode_len();
    if n != b.unicode_len() {
        return false;
    }
    let mut i: usize = 0;
    while i < n
        invariant
            i <= n,
            n == a@.len(),
            n == b@.len(),
            forall|k: int| 0 <= k < i ==> spec_ascii_lower_char(a@[k]) == b@[k],
        decreases n - i,
    {
        if ascii_lower_char(a.get_char(i)) != b.get_char(i) {
            assert(spec_ascii_lower(a@)[i as int] != b@[i as int]);
            return false;
        }
        i = i + 1;
    }
    assert(spec_ascii_lower(a@) =~= b@);
    true
}

fn phase_code_of(name: &str) -> (code: u32)
    ensures
        code == spec_phase_code_of(name@),
{
    if upper_equals(name, "OFFLINE") {
        0
    } else if upper_equals(name, "PROBED") {
        1
    } else if upper_equals(name, "FIRMWARED") {
        2
    } else if upper_equals(name, "QUEUED") {
        3
    } else if upper_equals(name, "NEGOTIATED") {
        4
    } else if upper_equals(name, "ONLINE") {
        5
    } else if upper_equals(name, "RECOVERING") {
        6
    } else if upper_equals(name, "QUARANTINED") {
        7
    } else {
        0
    }
}

fn module_bit(m: &str) -> (bit: u32)
    ensures
        bit == spec_module_bit(m@),
{
    if str_eq(m, "nvidia") {
        HERMES_MOD_NVIDIA
    } else if str_eq(m, "nvidia-modeset") || str_eq(m, "modeset") {
        HERMES_MOD_MODESET
    } else if str_eq(m, "nvidia-uvm") || str_eq(m, "uvm") {
        HERMES_MOD_UVM
    } else if str_eq(m, "nvidia-drm") || str_eq(m, "drm") {
        HERMES_MOD_DRM
    } else if str_eq(m, "nvidia-peermem") || str_eq(m, "peermem") {
        HERMES_MOD_PEERMEM
    } else {
        0
    }
}

proof fn lemma_split_commas_nonempty(s: Seq<char>)
    ensures
        spec_split_commas(s).len() >= 1,
    decreases s.len(),
{
    if s.len() > 0 {
        lemma_split_commas_nonempty(s.drop_last());
    }
}

proof fn lemma_mask_fold_prefix(a: Seq<Seq<char>>, b: Seq<Seq<char>>, n: int)
    requires
        0 <= n <= a.len(),
        n <= b.len(),
        forall|q: int| 0 <= q < n ==> a[q] == b[q],
    ensures
        spec_mask_fold(a, n) == spec_mask_fold(b, n),
    decreases n,
{
    if n > 0 {
        lemma_mask_fold_prefix(a, b, n - 1);
    }
}

fn modules_mask(v: &str) -> (mask: u32)
    ensures
        mask == spec_modules_mask(v@),
{
    let n = v.unicode_len();
    let mut mask: u32 = 0;
    let mut seg: usize = 0;
    let mut start: usize = 0;
    let mut i: usize = 0;
    proof {
        assert(v@.subrange(0, 0) =~= Seq::<char>::empty());
    }
    while i < n
        invariant
            n == v@.len(),
            start <= i <= n,
            seg <= i,
            spec_split_commas(v@.subrange(0, i as int)).len() == seg + 1,
            spec_split_commas(v@.subrange(0, i as int))[seg as int] == v@.subrange(start as int, i as int),
            mask == spec_mask_fold(spec_split_commas(v@.subrange(0, i as int)), seg as int),
        decreases n - i,
    {
        let c = v.get_char(i);
        let ghost prev = spec_split_commas(v@.subrange(0, i as int));
        proof {
            assert(v@.subrange(0, i + 1).drop_last() =~= v@.subrange(0, i as int));
            assert(v@.subrange(0, i + 1).last() == c);
            lemma_split_commas_nonempty(v@.subrange(0, i as int));
        }
        if c == ',' {
            let piece = v.substring_char(start, i);
            mask = mask | module_bit(piece);
            proof {
                let next = spec_split_commas(v@.subrange(0, i + 1));
                assert(next == prev.push(Seq::<char>::empty()));
                lemma_mask_fold_prefix(prev, next, seg as int);
                assert(next[seg as int] == prev[seg as int]);
                assert(v@.subrange(i + 1, i + 1) =~= Seq::<char>::empty());
            }
            seg = seg + 1;
            start = i + 1;
        } else {
            proof {
                let next = spec_split_commas(v@.subrange(0, i + 1));
                lemma_mask_fold_prefix(prev, next, seg as int);
                assert(v@.subrange(start as int, i + 1) =~= v@.subrange(start as int, i as int).push(c));
            }
        }
        i = i + 1;
    }
    let piece = v.substring_char(start, n);
    mask = mask | module_bit(piece);
    proof {
        assert(v@.subrange(0, n as int) =~= v@);
    }
    if mask == 0 {
        HERMES_MOD_NVIDIA
    } else {
        mask
    }
}

fn apply_token(st: (bool, u32, u32), tok: &str) -> (r: (bool, u32, u32))
    ensures
        r == spec_apply_token(st, tok@),
{
    let n = tok.unicode_len();
    let mut cur = st;
    if str_starts_with(tok, "gsp_online=") {
        proof {
            reveal_strlit("gsp_online=");
        }
        let v = tok.substring_char(11, n);
        cur = (str_eq(v, "1") || lower_equals(v, "true"), cur.1, cur.2);
    } else {
        proof {
            reveal_strlit("gsp_online=");
        }
    }
    if str_starts_with(tok, "phase=") {
        proof {
            reveal_strlit("phase=");
        }
        let v = tok.substring_char(6, n);
        cur = (cur.0, phase_code_of(v), cur.2);
    } else {
        proof {
            reveal_strlit("phase=");
        }
    }
    if str_starts_with(tok, "modules=") {
        proof {
            reveal_strlit("modules=");
        }
        let v = tok.substring_char(8, n);
        cur = (cur.0, cur.1, modules_mask(v));
    } else {
        proof {
            reveal_strlit("modules=");
        }
    }
    cur
}

/// Parses `hermes gsp_online=N phase=NAME modules=a,b ...`, the line the
/// control device's `read()` gives.
pub fn parse_ctl_read_line(line: &str) -> (st: HermesCtlStatus)
    ensures
        st.gsp_online == (if spec_parse_ctl_read_line(line@).0 {
            1u32
        } else {
            0u32
        }),
        st.phase == spec_parse_ctl_read_line(line@).1,
        st.version == HERMES_CTL_STATUS_VERSION,
        st.module_mask == spec_parse_ctl_read_line(line@).2,
{
    let n = line.unicode_len();
    let mut st: (bool, u32, u32) = (false, 0, HERMES_MOD_NVIDIA);
    let mut i: usize = 0;
    proof {
        assert(line@.subrange(0, n as int) =~= line@);
    }
    while i < n
        invariant
            i <= n,
            n == line@.len(),
            spec_parse_ctl_read_line(line@) == spec_scan(line@.subrange(i as int, n as int), st),
        decreases n - i,
    {
        let ghost rest = line@.subrange(i as int, n as int);
        if is_ws(line.get_char(i)) {
            proof {
                assert(rest.drop_first() =~= line@.subrange(i + 1, n as int));
            }
            i = i + 1;
        } else {
            let mut j: usize = i;
            while j < n && !is_ws(line.get_char(j))
                invariant
                    i <= j <= n,
                    n == line@.len(),
                    rest == line@.subrange(i as int, n as int),
                    spec_token_len(rest) == (j - i) + spec_token_len(line@.subrange(j as int, n as int)),
                decreases n - j,
            {
                proof {
                    assert(line@.subrange(j as int, n as int).drop_first() =~= line@.subrange(j + 1, n as int));
                }
                j = j + 1;
            }
            proof {
                assert(spec_token_len(line@.subrange(j as int, n as int)) == 0);
                lemma_token_len_bound(rest);
                assert(rest.subrange(0, (j - i) as int) =~= line@.subrange(i as int, j as int));
                assert(rest.subrange((j - i) as int, rest.len() as int) =~= line@.subrange(j as int, n as int));
            }
            let tok = line.substring_char(i, j);
            st = apply_token(st, tok);
            i = j;
        }
    }
    HermesCtlStatus::fill(st.0, st.1, st.2)
}

/// A status that says Online must say so with the Online phase; presence of a
/// status never makes one Online.
pub open spec fn spec_ctl_status_consistent(st: HermesCtlStatus) -> bool {
    !(st.gsp_online != 0 && st.phase != 5)
}

pub fn ctl_status_consistent(st: &HermesCtlStatus) -> (ok: bool)
    ensures
        ok == spec_ctl_status_consistent(*st),
{
    !(st.is_online() && st.phase != 5)
}

/// Why a live control status was judged wrong after a bare module load.
#[derive(Clone, Copy, Debug, PartialEq, Eq, Structural)]
pub enum LiveStatusFault {
    /// The status record is older than version 2.
    BadVersion,
    /// Online is reported without the Online phase.
    InventedOnline,
    /// The primary module's bit is missing from the module mask.
    PrimaryMissing,
    /// The module mask differs from the companions that are loaded.
    MaskMismatch,
}

/// Judges the control status after a module load, in this order: record
/// version, Online without its phase, the primary module bit, and the module
/// mask against `expected_mask` (the companions found loaded).
pub fn check_live_ctl_status(st: &HermesCtlStatus, expected_mask: u32) -> (r: Result<(), LiveStatusFault>)
    ensures
        r == if st.version < 2 {
            Err::<(), LiveStatusFault>(LiveStatusFault::BadVersion)
        } else if !spec_ctl_status_consistent(*st) {
            Err::<(), LiveStatusFault>(LiveStatusFault::InventedOnline)
        } else if st.module_mask & HERMES_MOD_NVIDIA == 0 {
            Err::<(), LiveStatusFault>(LiveStatusFault::PrimaryMissing)
        } else if st.module_mask != expected_mask {
            Err::<(), LiveStatusFault>(LiveStatusFault::MaskMismatch)
        } else {
            Ok::<(), LiveStatusFault>(())
        },
{
    if st.version < 2 {
        return Err(LiveStatusFault::BadVersion);
    }
    if !ctl_status_consistent(st) {
        return Err(LiveStatusFault::InventedOnline);
    }
    if st.module_mask & HERMES_MOD_NVIDIA == 0 {
        return Err(LiveStatusFault::PrimaryMissing);
    }
    if st.module_mask != expected_mask {
        return Err(LiveStatusFault::MaskMismatch);
    }
    Ok(())
}

/// An EDID the DRM device returns while Online: a full 128-byte block with a
/// valid checksum and the EDID header's first two bytes.
pub fn edid_reply_valid(edid: &HermesDrmEdid) -> (ok: bool)
    ensures
        ok == (edid.size == 128 && spec_block_checksum_ok(edid.data@) && edid.data@[0] == 0x00
            && edid.data@[1] == 0xff),
{
    edid.size == 128 && edid.checksum_ok() && edid.data[0] == 0x00 && edid.data[1] == 0xff
}

/// Why a firmware measurement reply was judged wrong.
#[derive(Clone, Copy, Debug, PartialEq, Eq, Structural)]
pub enum MeasureFault {
    /// The host's own firmware was not pin-admitted.
    NotAdmitted,
    /// A measurement alone claimed Online.
    OnlineWithoutEvidence,
    /// The phase did not reach Firmwared.
    PhaseBehind,
}

/// Judges the reply to measuring the host's firmware: it must be admitted,
/// must not be Online on measurement alone, and must reach at least the
/// Firmwared phase.
pub fn check_measure_reply(m: &HermesMeasureFw) -> (r: Result<(), MeasureFault>)
    ensures
        r == if m.admitted != 1 {
            Err::<(), MeasureFault>(MeasureFault::NotAdmitted)
        } else if m.online != 0 {
            Err::<(), MeasureFault>(MeasureFault::OnlineWithoutEvidence)
        } else if m.phase < 2 {
            Err::<(), MeasureFault>(MeasureFault::PhaseBehind)
        } else {
            Ok::<(), MeasureFault>(())
        },
{
    if m.admitted != 1 {
        return Err(MeasureFault::NotAdmitted);
    }
    if m.online != 0 {
        return Err(MeasureFault::OnlineWithoutEvidence);
    }
    if m.phase < 2 {
        return Err(MeasureFault::PhaseBehind);
    }
    Ok(())
}

/// `str::split('.')`.
pub open spec fn spec_split_dots(s: Seq<char>) -> Seq<Seq<char>>
    decreases s.len(),
{
    if s.len() == 0 {
        seq![Seq::<char>::empty()]
    } else {
        let prev = spec_split_dots(s.drop_last());
        if s.last() == '.' {
            prev.push(Seq::<char>::empty())
        } else {
            prev.update(prev.len() - 1, prev.last().push(s.last()))
        }
    }
}

/// Component `i` of a dotted version as a `u32`, 0 when missing or not one.
pub open spec fn spec_version_part(s: Seq<char>, i: int) -> u32 {
    let parts = spec_split_dots(s);
    if i < parts.len() {
        match spec_from_radix(parts[i], 10, 0xffff_ffff) {
            Some(v) => v as u32,
            None => 0,
        }
    } else {
        0
    }
}

/// The sort key of a `major.minor.patch` firmware version.
pub open spec fn spec_version_key(s: Seq<char>) -> (u32, u32, u32) {
    (spec_version_part(s, 0), spec_version_part(s, 1), spec_version_part(s, 2))
}

/// `p` is a non-empty run of ASCII digits.
pub open spec fn spec_digit_run(p: Seq<char>) -> bool {
    p.len() > 0 && forall|k: int| 0 <= k < p.len() ==> 0x30 <= (#[trigger] p[k] as u32) <= 0x39
}

/// A firmware version directory name: three non-empty runs of ASCII digits
/// joined by dots.
pub open spec fn spec_is_version_dir(s: Seq<char>) -> bool {
    let parts = spec_split_dots(s);
    parts.len() == 3 && forall|i: int| 0 <= i < 3 ==> spec_digit_run(#[trigger] parts[i])
}

/// `a` is a newer version key than `b`.
pub open spec fn spec_key_newer(a: (u32, u32, u32), b: (u32, u32, u32)) -> bool {
    a.0 > b.0 || (a.0 == b.0 && (a.1 > b.1 || (a.1 == b.1 && a.2 > b.2)))
}

proof fn lemma_split_dots_nonempty(s: Seq<char>)
    ensures
        spec_split_dots(s).len() >= 1,
    decreases s.len(),
{
    if s.len() > 0 {
        lemma_split_dots_nonempty(s.drop_last());
    }
}

proof fn lemma_runs_same(a: Seq<Seq<char>>, b: Seq<Seq<char>>, n: int)
    requires
        forall|q: int| 0 <= q < n ==> #[trigger] a[q] == b[q],
    ensures
        (forall|q: int| 0 <= q < n ==> spec_digit_run(#[trigger] a[q])) == (forall|q: int|
            0 <= q < n ==> spec_digit_run(#[trigger] b[q])),
{
    if forall|q: int| 0 <= q < n ==> spec_digit_run(#[trigger] a[q]) {
        assert forall|q: int| 0 <= q < n implies spec_digit_run(#[trigger] b[q]) by {
            assert(spec_digit_run(a[q]));
        }
    }
    if forall|q: int| 0 <= q < n ==> spec_digit_run(#[trigger] b[q]) {
        assert forall|q: int| 0 <= q < n implies spec_digit_run(#[trigger] a[q]) by {
            assert(spec_digit_run(b[q]));
        }
    }
}

/// The pieces of `s` between dots: how many dots, whether each piece is a
/// non-empty run of ASCII digits, and the values of the first three pieces.
fn dotted_parts(s: &str) -> (r: (usize, bool, (u32, u32, u32)))
    ensures
        r.0 + 1 == spec_split_dots(s@).len(),
        r.1 == (forall|i: int|
            0 <= i < spec_split_dots(s@).len() ==> spec_digit_run(#[trigger] spec_split_dots(s@)[i])),
        r.2 == spec_version_key(s@),
{
    let n = s.unicode_len();
    let mut vals: Vec<u32> = vec![0u32, 0u32, 0u32];
    let mut seg: usize = 0;
    let mut start: usize = 0;
    let mut closed_ok = true;
    let mut cur_digits = true;
    let mut i: usize = 0;
    proof {
        assert(s@.subrange(0, 0) =~= Seq::<char>::empty());
    }
    while i < n
        invariant
            n == s@.len(),
            start <= i <= n,
            seg <= i,
            vals@.len() == 3,
            spec_split_dots(s@.subrange(0, i as int)).len() == seg + 1,
            spec_split_dots(s@.subrange(0, i as int))[seg as int] == s@.subrange(start as int, i as int),
            forall|q: int|
                0 <= q < 3 ==> #[trigger] vals@[q] == if q < seg {
                    match spec_from_radix(spec_split_dots(s@.subrange(0, i as int))[q], 10, 0xffff_ffff) {
                        Some(v) => v as u32,
                        None => 0u32,
                    }
                } else {
                    0u32
                },
            closed_ok == (forall|q: int|
                0 <= q < seg ==> spec_digit_run(#[trigger] spec_split_dots(s@.subrange(0, i as int))[q])),
            cur_digits == (forall|k: int| start <= k < i ==> 0x30 <= (#[trigger] s@[k] as u32) <= 0x39),
        decreases n - i,
    {
        let c = s.get_char(i);
        let ghost prev = spec_split_dots(s@.subrange(0, i as int));
        proof {
            assert(s@.subrange(0, i + 1).drop_last() =~= s@.subrange(0, i as int));
            assert(s@.subrange(0, i + 1).last() == c);
            lemma_split_dots_nonempty(s@.subrange(0, i as int));
        }
        if c == '.' {
            if seg < 3 {
                let v = match from_decimal_range(s, start, i, 0xffff_ffff) {
                    Some(v) => v as u32,
                    None => 0,
                };
                vals.set(seg, v);
            }
            proof {
                let piece = s@.subrange(start as int, i as int);
                assert(spec_digit_run(piece) == (start < i && cur_digits)) by {
                    if start < i && cur_digits {
                        assert forall|k: int| 0 <= k < piece.len() implies 0x30 <= (
                        #[trigger] piece[k] as u32) <= 0x39 by {
                            assert(piece[k] == s@[start + k]);
                        }
                    }
                    if spec_digit_run(piece) {
                        assert forall|k: int| start <= k < i implies 0x30 <= (
                        #[trigger] s@[k] as u32) <= 0x39 by {
                            assert(piece[k - start] == s@[k]);
                        }
                    }
                }
            }
            proof {
                let next = spec_split_dots(s@.subrange(0, i + 1));
                assert(next == prev.push(Seq::<char>::empty()));
                assert(forall|q: int| 0 <= q <= seg ==> #[trigger] next[q] == prev[q]);
                assert((forall|q: int| 0 <= q < seg + 1 ==> spec_digit_run(#[trigger] next[q])) == (
                closed_ok && spec_digit_run(prev[seg as int]))) by {
                    if closed_ok && spec_digit_run(prev[seg as int]) {
                        assert forall|q: int| 0 <= q < seg + 1 implies spec_digit_run(#[trigger] next[q]) by {
                            if q < seg {
                                assert(spec_digit_run(prev[q]));
                            }
                        }
                    }
                    if forall|q: int| 0 <= q < seg + 1 ==> spec_digit_run(#[trigger] next[q]) {
                        assert(spec_digit_run(next[seg as int]));
                        assert forall|q: int| 0 <= q < seg implies spec_digit_run(#[trigger] prev[q]) by {
                            assert(spec_digit_run(next[q]));
                        }
                    }
                }
            }
            closed_ok = closed_ok && start < i && cur_digits;
            cur_digits = true;
            seg = seg + 1;
            start = i + 1;
            proof {
                assert(s@.subrange(start as int, i + 1) =~= Seq::<char>::empty());
            }
        } else {
            let v = c as u32;
            cur_digits = cur_digits && 0x30 <= v && v <= 0x39;
            proof {
                let next = spec_split_dots(s@.subrange(0, i + 1));
                assert(forall|q: int| 0 <= q < seg ==> #[trigger] next[q] == prev[q]);
                lemma_runs_same(prev, next, seg as int);
                assert(s@.subrange(start as int, i + 1) =~= s@.subrange(start as int, i as int).push(c));
            }
        }
        i = i + 1;
    }
    if seg < 3 {
        let v = match from_decimal_range(s, start, n, 0xffff_ffff) {
            Some(v) => v as u32,
            None => 0,
        };
        vals.set(seg, v);
    }
    proof {
        assert(s@.subrange(0, n as int) =~= s@);
        let piece = s@.subrange(start as int, n as int);
        assert(spec_digit_run(piece) == (start < n && cur_digits)) by {
            if start < n && cur_digits {
                assert forall|k: int| 0 <= k < piece.len() implies 0x30 <= (#[trigger] piece[k] as u32)
                    <= 0x39 by {
                    assert(piece[k] == s@[start + k]);
                }
            }
            if spec_digit_run(piece) {
                assert forall|k: int| start <= k < n implies 0x30 <= (#[trigger] s@[k] as u32) <= 0x39 by {
                    assert(piece[k - start] == s@[k]);
                }
            }
        }
    }
    (seg, closed_ok && start < n && cur_digits, (vals[0], vals[1], vals[2]))
}

/// The sort key of a `major.minor.patch` firmware version; missing or
/// unparsable components count as 0.
pub fn firmware_version_key(value: &str) -> (key: (u32, u32, u32))
    ensures
        key == spec_version_key(value@),
{
    dotted_parts(value).2
}

/// A firmware version directory name: three non-empty runs of ASCII digits
/// joined by dots.
pub fn is_version_dir_name(name: &str) -> (ok: bool)
    ensures
        ok == spec_is_version_dir(name@),
{
    let (dots, digits_ok, _) = dotted_parts(name);
    dots == 2 && digits_ok
}

fn key_newer(a: (u32, u32, u32), b: (u32, u32, u32)) -> (r: bool)
    ensures
        r == spec_key_newer(a, b),
{
    a.0 > b.0 || (a.0 == b.0 && (a.1 > b.1 || (a.1 == b.1 && a.2 > b.2)))
}

/// Which staged firmware version to use: among the versions whose image is
/// present, the newest, the first listed among equally new ones; `None` when
/// no image is present.
pub fn select_newest_version(versions: &Vec<String>, present: &Vec<bool>) -> (pick: Option<usize>)
    requires
        versions@.len() == present@.len(),
    ensures
        pick is None <==> (forall|j: int| 0 <= j < present@.len() ==> !present@[j]),
        pick matches Some(i) ==> {
            &&& i < versions@.len()
            &&& present@[i as int]
            &&& forall|j: int|
                0 <= j < versions@.len() && present@[j] ==> !spec_key_newer(
                    spec_version_key(versions@[j]@),
                    spec_version_key(versions@[i as int]@),
                )
            &&& forall|j: int|
                0 <= j < i && present@[j] ==> spec_key_newer(
                    spec_version_key(versions@[i as int]@),
                    spec_version_key(versions@[j]@),
                )
            &&& forall|j: int|
                0 <= j < versions@.len() && present@[j] ==> spec_version_key(versions@[j]@)
                    == spec_version_key(versions@[i as int]@) || spec_key_newer(
                    spec_version_key(versions@[i as int]@),
                    spec_version_key(versions@[j]@),
                )
        },
{
    let mut best: Option<usize> = None;
    let mut best_key: (u32, u32, u32) = (0, 0, 0);
    let mut j: usize = 0;
    while j < versions.len()
        invariant
            j <= versions@.len(),
            versions@.len() == present@.len(),
            best is None <==> (forall|q: int| 0 <= q < j ==> !present@[q]),
            best matches Some(i) ==> {
                &&& i < j
                &&& present@[i as int]
                &&& best_key == spec_version_key(versions@[i as int]@)
                &&& forall|q: int|
                    0 <= q < j && present@[q] ==> !spec_key_newer(
                        spec_version_key(versions@[q]@),
                        best_key,
                    )
                &&& forall|q: int|
                    0 <= q < i && present@[q] ==> spec_key_newer(
                        best_key,
                        spec_version_key(versions@[q]@),
                    )
            },
        decreases versions@.len() - j,
    {
        if present[j] {
            let key = firmware_version_key(versions[j].as_str());
            match best {
                None => {
                    best = Some(j);
                    best_key = key;
                },
                Some(_) => {
                    if key_newer(key, best_key) {
                        best = Some(j);
                        best_key = key;
                    }
                },
            }
        }
        j = j + 1;
    }
    proof {
        if let Some(i) = best {
            assert forall|q: int|
                0 <= q < versions@.len() && present@[q] implies spec_version_key(versions@[q]@)
                == spec_version_key(versions@[i as int]@) || spec_key_newer(
                spec_version_key(versions@[i as int]@),
                spec_version_key(versions@[q]@),
            ) by {
                version_key_order(
                    spec_version_key(versions@[i as int]@),
                    spec_version_key(versions@[q]@),
                    spec_version_key(versions@[q]@),
                );
            }
        }
    }
    best
}


/// Version order law: newer is the lexicographic order on (major, minor,
/// patch). A larger major wins; on an equal major a larger minor wins; on an
/// equal major and minor a larger patch wins. It is a strict total order: no
/// key is newer than itself, of two keys at most one is newer than the other,
/// two different keys always have a newer one, and newer is transitive.
pub proof fn version_key_order(a: (u32, u32, u32), b: (u32, u32, u32), c: (u32, u32, u32))
    ensures
        a.0 > b.0 ==> spec_key_newer(a, b),
        a.0 == b.0 && a.1 > b.1 ==> spec_key_newer(a, b),
        a.0 == b.0 && a.1 == b.1 && a.2 > b.2 ==> spec_key_newer(a, b),
        spec_key_newer(a, b) ==> a.0 >= b.0,
        !spec_key_newer(a, a),
        !(spec_key_newer(a, b) && spec_key_newer(b, a)),
        a != b ==> spec_key_newer(a, b) || spec_key_newer(b, a),
        spec_key_newer(a, b) && spec_key_newer(b, c) ==> spec_key_newer(a, c),
{
}

} // verus!
