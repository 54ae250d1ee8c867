//! Names, UUIDs, brands and the summary lines the management tools print.

use vstd::prelude::*;
use vstd::string::*;

use crate::manifold::HermesPhase;
use crate::pci::{nvidia_architecture, spec_nvidia_architecture, NvidiaArchitecture};
use crate::text::{append_decimal, append_hex, spec_decimal, spec_hex_digits};

verus! {

pub const NVML_BRAND_UNKNOWN: u32 = 0;

pub const NVML_BRAND_QUADRO: u32 = 1;

pub const NVML_BRAND_TESLA: u32 = 2;

pub const NVML_BRAND_NVS: u32 = 3;

pub const NVML_BRAND_GRID: u32 = 4;

pub const NVML_BRAND_GEFORCE: u32 = 5;

pub const NVML_BRAND_TITAN: u32 = 6;

pub const NVML_BRAND_NVIDIA_VAPPS: u32 = 7;

pub const NVML_BRAND_NVIDIA_VPC: u32 = 8;

pub const NVML_BRAND_NVIDIA_VGAMING: u32 = 9;

pub const NVML_BRAND_QUADRO_RTX: u32 = 10;

pub const NVML_BRAND_NVIDIA_RTX: u32 = 11;

pub const NVML_BRAND_NVIDIA: u32 = 12;

pub const NVML_BRAND_GEFORCE_RTX: u32 = 13;

pub const NVML_BRAND_TITAN_RTX: u32 = 14;

/// Name of a device's architecture family, or "Unknown".
pub open spec fn spec_architecture_name(device_id: u16) -> Seq<char> {
    match spec_nvidia_architecture(device_id) {
        Some(NvidiaArchitecture::Turing) => "Turing"@,
        Some(NvidiaArchitecture::Ampere) => "Ampere"@,
        Some(NvidiaArchitecture::Hopper) => "Hopper"@,
        Some(NvidiaArchitecture::Ada) => "Ada"@,
        Some(NvidiaArchitecture::Blackwell) => "Blackwell"@,
        None => "Unknown"@,
    }
}

/// "NVIDIA <architecture> [<device id as 4 hex digits>]".
pub open spec fn spec_default_name(device_id: u16) -> Seq<char> {
    "NVIDIA "@ + spec_architecture_name(device_id) + " ["@ + spec_hex_digits(device_id as nat, 4)
        + "]"@
}

/// `bus` without its `:` and `.` separators.
pub open spec fn spec_bus_digits(bus: Seq<char>) -> Seq<char> {
    bus.filter(|c: char| c != ':' && c != '.')
}

/// The deterministic Hermes UUID of a device: "GPU-<device id>-<bus digits>".
pub open spec fn spec_uuid(bus: Seq<char>, device_id: u16) -> Seq<char> {
    "GPU-"@ + spec_hex_digits(device_id as nat, 4) + "-"@ + spec_bus_digits(bus)
}

/// CUDA compute capability of a device's architecture (Turing's when unknown).
pub open spec fn spec_compute_caps(device_id: u16) -> (u32, u32) {
    match spec_nvidia_architecture(device_id) {
        Some(NvidiaArchitecture::Ampere) => (8, 6),
        Some(NvidiaArchitecture::Ada) => (8, 9),
        Some(NvidiaArchitecture::Hopper) => (9, 0),
        Some(NvidiaArchitecture::Blackwell) => (10, 0),
        _ => (7, 5),
    }
}

pub open spec fn spec_ascii_lower_char(c: char) -> char {
    if 0x41 <= (c as u32) <= 0x5a {
        ((c as u32) + 32) as char
    } else {
        c
    }
}

/// `str::to_ascii_lowercase`.
pub open spec fn spec_ascii_lower(s: Seq<char>) -> Seq<char> {
    Seq::new(s.len(), |i: int| spec_ascii_lower_char(s[i]))
}

/// `needle` occurs in `hay`.
pub open spec fn spec_contains(hay: Seq<char>, needle: Seq<char>) -> bool {
    exists|i: int| 0 <= i && i + needle.len() <= hay.len() && #[trigger] hay.subrange(i, i + needle.len()) == needle
}

/// The NVML brand of a device: by words in its lower-cased name, then by the
/// Turing workstation device ids, else plain NVIDIA.
pub open spec fn spec_brand(device_id: u16, name: Seq<char>) -> u32 {
    let n = spec_ascii_lower(name);
    if spec_contains(n, "quadro"@) || spec_contains(n, "rtx a"@) || spec_contains(n, "t1000"@)
        || spec_contains(n, "t600"@) {
        NVML_BRAND_QUADRO_RTX
    } else if spec_contains(n, "tesla"@) || spec_contains(n, "a100"@) || spec_contains(n, "h100"@)
        || spec_contains(n, "l40"@) {
        NVML_BRAND_TESLA
    } else if spec_contains(n, "titan"@) {
        NVML_BRAND_TITAN_RTX
    } else if spec_contains(n, "geforce"@) || spec_contains(n, "rtx 20"@) || spec_contains(
        n,
        "rtx 30"@,
    ) || spec_contains(n, "rtx 40"@) {
        NVML_BRAND_GEFORCE_RTX
    } else if device_id == 0x1fb9 || device_id == 0x1fb8 || device_id == 0x1fb0 || device_id
        == 0x1eba || device_id == 0x1eb8 {
        NVML_BRAND_QUADRO_RTX
    } else {
        NVML_BRAND_NVIDIA
    }
}

pub open spec fn spec_spaces(n: nat) -> Seq<char> {
    Seq::new(n, |i: int| ' ')
}

/// `s` right-aligned in `width` columns (`{:>width}`).
pub open spec fn spec_pad_left(s: Seq<char>, width: nat) -> Seq<char> {
    if s.len() < width {
        spec_spaces((width - s.len()) as nat) + s
    } else {
        s
    }
}

/// `s` in exactly `n` columns: padded on the right, or cut to `n - 1`
/// characters and an ellipsis when longer.
pub open spec fn spec_truncate_name(s: Seq<char>, n: nat) -> Seq<char> {
    if s.len() <= n {
        s + spec_spaces((n - s.len()) as nat)
    } else {
        s.subrange(0, if n >= 1 {
            n - 1
        } else {
            0
        }) + "\u{2026}"@
    }
}

/// One row of the process table.
pub open spec fn spec_process_line(pid: u32, name: Seq<char>, used_gpu_memory: u64) -> Seq<char> {
    "|  "@ + spec_pad_left(spec_decimal(pid as nat), 6) + "   C   "@ + spec_truncate_name(name, 20)
        + "  "@ + spec_pad_left(spec_decimal((used_gpu_memory / 0x10_0000) as nat), 8) + "MiB |"@
}

pub open spec fn spec_phase_label(p: HermesPhase) -> Seq<char> {
    match p {
        HermesPhase::Offline => "OFFLINE"@,
        HermesPhase::Probed => "PROBED"@,
        HermesPhase::Firmwared => "FIRMWARED"@,
        HermesPhase::Queued => "QUEUED"@,
        HermesPhase::Negotiated => "NEGOTIATED"@,
        HermesPhase::Online => "ONLINE"@,
        HermesPhase::Recovering => "RECOVERING"@,
        HermesPhase::Quarantined => "QUARANTINED"@,
    }
}

/// The one-line device summary.
pub open spec fn spec_device_line(
    index: usize,
    name: Seq<char>,
    bus: Seq<char>,
    phase: HermesPhase,
    total_mem_bytes: u64,
) -> Seq<char> {
    "GPU "@ + spec_decimal(index as nat) + ": "@ + name + " ("@ + bus + ") phase="@
        + spec_phase_label(phase) + " mem="@ + spec_decimal((total_mem_bytes / 0x10_0000) as nat)
        + " MiB"@
}

pub fn architecture_name(device_id: u16) -> (s: &'static str)
    ensures
        s@ == spec_architecture_name(device_id),
{
    match nvidia_architecture(device_id) {
        Some(a) => a.as_str(),
        None => "Unknown",
    }
}

pub fn default_name_for_device(device_id: u16) -> (s: String)
    ensures
        s@ == spec_default_name(device_id),
{
    let mut s = String::from_str("NVIDIA ");
    s.append(architecture_name(device_id));
    s.append(" [");
    append_hex(&mut s, device_id as u64, 4);
    s.append("]");
    s
}

proof fn lemma_filter_step(s: Seq<char>, p: spec_fn(char) -> bool, k: int)
    requires
        0 <= k < s.len(),
    ensures
        s.subrange(0, k + 1).filter(p) == if p(s[k]) {
            s.subrange(0, k).filter(p).push(s[k])
        } else {
            s.subrange(0, k).filter(p)
        },
{
    reveal(Seq::filter);
    assert(s.subrange(0, k + 1).drop_last() =~= s.subrange(0, k));
}

pub fn uuid_for(bus: &str, device_id: u16) -> (s: String)
    ensures
        s@ == spec_uuid(bus@, device_id),
{
    let mut s = String::from_str("GPU-");
    append_hex(&mut s, device_id as u64, 4);
    s.append("-");
    let ghost head = s@;
    let ghost p = |c: char| c != ':' && c != '.';
    let n = bus.unicode_len();
    let mut i: usize = 0;
    while i < n
        invariant
            i <= n,
            n == bus@.len(),
            s@ == head + bus@.subrange(0, i as int).filter(p),
            p == (|c: char| c != ':' && c != '.'),
        decreases n - i,
    {
        let c = bus.get_char(i);
        proof {
            lemma_filter_step(bus@, p, i as int);
            assert(p(c) == (c != ':' && c != '.'));
        }
        if c != ':' && c != '.' {
            let one = bus.substring_char(i, i + 1);
            s.append(one);
            proof {
                assert(one@ =~= seq![c]);
                assert(s@ =~= head + bus@.subrange(0, i + 1).filter(p));
            }
        }
        i = i + 1;
    }
    proof {
        assert(bus@.subrange(0, n as int) =~= bus@);
    }
    s
}

pub fn compute_caps(device_id: u16) -> (caps: (u32, u32))
    ensures
        caps == spec_compute_caps(device_id),
{
    match nvidia_architecture(device_id) {
        Some(NvidiaArchitecture::Ampere) => (8, 6),
        Some(NvidiaArchitecture::Ada) => (8, 9),
        Some(NvidiaArchitecture::Hopper) => (9, 0),
        Some(NvidiaArchitecture::Blackwell) => (10, 0),
        _ => (7, 5),
    }
}

fn ascii_lower_char(c: char) -> (l: char)
    ensures
        l == spec_ascii_lower_char(c),
{
    let v = c as u32;
    if 0x41 <= v && v <= 0x5a {
        ((v + 32) as u8) as char
    } else {
        c
    }
}

/// `needle` occurs in the ASCII lower-casing of `hay`.
pub fn contains_lowered(hay: &str, needle: &str) -> (b: bool)
    ensures
        b == spec_contains(spec_ascii_lower(hay@), needle@),
{
    let ghost h = spec_ascii_lower(hay@);
    let n = hay.unicode_len();
    let m = needle.unicode_len();
    if m > n {
        return false;
    }
    let last = n - m;
    let mut i: usize = 0;
    while i <= last
        invariant
            n == hay@.len(),
            m == needle@.len(),
            last == n - m,
            i <= last,
            h == spec_ascii_lower(hay@),
            forall|j: int| 0 <= j < i ==> #[trigger] h.subrange(j, j + m) != needle@,
        decreases last - i,
    {
        let mut k: usize = 0;
        let mut same = true;
        while k < m
            invariant
                k <= m,
                i + m <= n,
                n == hay@.len(),
                m == needle@.len(),
                h == spec_ascii_lower(hay@),
                same ==> forall|q: int| 0 <= q < k ==> h[i + q] == needle@[q],
                !same ==> h.subrange(i as int, i + m) != needle@,
            decreases m - k,
        {
            if same && ascii_lower_char(hay.get_char(i + k)) != needle.get_char(k) {
                same = false;
                assert(h.subrange(i as int, i + m)[k as int] != needle@[k as int]);
            }
            k = k + 1;
        }
        if same {
            assert(h.subrange(i as int, i + m) =~= needle@);
            return true;
        }
        if i == last {
            proof {
                assert forall|j: int| 0 <= j && j + m <= h.len() implies #[trigger] h.subrange(
                    j,
                    j + m,
                ) != needle@ by {}
            }
            return false;
        }
        i = i + 1;
    }
    false
}

pub fn brand_for_device(device_id: u16, name: &str) -> (b: u32)
    ensures
        b == spec_brand(device_id, name@),
{
    if contains_lowered(name, "quadro") || contains_lowered(name, "rtx a") || contains_lowered(
        name,
        "t1000",
    ) || contains_lowered(name, "t600") {
        return NVML_BRAND_QUADRO_RTX;
    }
    if contains_lowered(name, "tesla") || contains_lowered(name, "a100") || contains_lowered(
        name,
        "h100",
    ) || contains_lowered(name, "l40") {
        return NVML_BRAND_TESLA;
    }
    if contains_lowered(name, "titan") {
        return NVML_BRAND_TITAN_RTX;
    }
    if contains_lowered(name, "geforce") || contains_lowered(name, "rtx 20") || contains_lowered(
        name,
        "rtx 30",
    ) || contains_lowered(name, "rtx 40") {
        return NVML_BRAND_GEFORCE_RTX;
    }
    if device_id == 0x1fb9 || device_id == 0x1fb8 || device_id == 0x1fb0 || device_id == 0x1eba
        || device_id == 0x1eb8 {
        NVML_BRAND_QUADRO_RTX
    } else {
        NVML_BRAND_NVIDIA
    }
}

pub(crate) fn append_spaces(s: &mut String, n: usize)
    ensures
        final(s)@ == old(s)@ + spec_spaces(n as nat),
{
    let mut i: usize = 0;
    let sp = " ";
    proof {
        reveal_strlit(" ");
    }
    while i < n
        invariant
            i <= n,
            sp@ == seq![' '],
            s@ == old(s)@ + spec_spaces(i as nat),
        decreases n - i,
    {
        s.append(sp);
        i = i + 1;
        assert(s@ =~= old(s)@ + spec_spaces(i as nat));
    }
}

/// Appends the decimal digits of `v` right-aligned in `width` columns.
pub fn append_padded_decimal(s: &mut String, v: u64, width: usize)
    ensures
        final(s)@ == old(s)@ + spec_pad_left(spec_decimal(v as nat), width as nat),
{
    let mut digits = String::new();
    append_decimal(&mut digits, v);
    let len = digits.as_str().unicode_len();
    if len < width {
        append_spaces(s, width - len);
    }
    s.append(digits.as_str());
    assert(final(s)@ =~= old(s)@ + spec_pad_left(spec_decimal(v as nat), width as nat));
}

/// Appends `name` in exactly `n` columns (see [`spec_truncate_name`]).
pub fn append_truncated_name(s: &mut String, name: &str, n: usize)
    ensures
        final(s)@ == old(s)@ + spec_truncate_name(name@, n as nat),
{
    let count = name.unicode_len();
    if count <= n {
        s.append(name);
        append_spaces(s, n - count);
        assert(final(s)@ =~= old(s)@ + spec_truncate_name(name@, n as nat));
    } else {
        let keep = if n >= 1 {
            n - 1
        } else {
            0
        };
        s.append(name.substring_char(0, keep));
        s.append("\u{2026}");
        assert(final(s)@ =~= old(s)@ + spec_truncate_name(name@, n as nat));
    }
}

/// One row of the process table.
pub fn format_process_line(pid: u32, name: &str, used_gpu_memory: u64) -> (line: String)
    ensures
        line@ == spec_process_line(pid, name@, used_gpu_memory),
{
    let mut line = String::from_str("|  ");
    append_padded_decimal(&mut line, pid as u64, 6);
    line.append("   C   ");
    append_truncated_name(&mut line, name, 20);
    line.append("  ");
    append_padded_decimal(&mut line, used_gpu_memory / 0x10_0000, 8);
    line.append("MiB |");
    line
}

/// The one-line device summary.
pub fn format_device_line(
    index: usize,
    name: &str,
    bus: &str,
    phase: HermesPhase,
    total_mem_bytes: u64,
) -> (line: String)
    ensures
        line@ == spec_device_line(index, name@, bus@, phase, total_mem_bytes),
{
    let mut line = String::from_str("GPU ");
    append_decimal(&mut line, index as u64);
    line.append(": ");
    line.append(name);
    line.append(" (");
    line.append(bus);
    line.append(") phase=");
    line.append(phase.label());
    line.append(" mem=");
    append_decimal(&mut line, total_mem_bytes / 0x10_0000);
    line.append(" MiB");
    line
}


/// Compute-capability law: Turing IDs (0x1e00-0x1fff, 0x2180-0x21ff) report
/// 7.5, Ampere IDs (0x2000-0x20ff, 0x2200-0x22ff, 0x2400-0x25ff) 8.6, Hopper
/// IDs (0x2300-0x23ff) 9.0, Ada IDs (0x2600-0x28ff) 8.9 and Blackwell IDs
/// (0x2900-0x2fff) 10.0; an unknown ID reports Turing's 7.5. Two IDs of
/// different generations never report the same capability, except that an
/// unknown ID shares Turing's.
pub proof fn compute_capability_bands(device_id: u16, other: u16)
    ensures
        0x1e00 <= device_id <= 0x1fff || 0x2180 <= device_id <= 0x21ff ==> spec_compute_caps(
            device_id,
        ) == (7u32, 5u32),
        0x2000 <= device_id <= 0x20ff || 0x2200 <= device_id <= 0x22ff || 0x2400 <= device_id
            <= 0x25ff ==> spec_compute_caps(device_id) == (8u32, 6u32),
        0x2300 <= device_id <= 0x23ff ==> spec_compute_caps(device_id) == (9u32, 0u32),
        0x2600 <= device_id <= 0x28ff ==> spec_compute_caps(device_id) == (8u32, 9u32),
        0x2900 <= device_id <= 0x2fff ==> spec_compute_caps(device_id) == (10u32, 0u32),
        !(0x1e00 <= device_id <= 0x2fff) ==> spec_compute_caps(device_id) == (7u32, 5u32),
        spec_nvidia_architecture(device_id) is Some && spec_nvidia_architecture(other) is Some
            && spec_nvidia_architecture(device_id) != spec_nvidia_architecture(other)
            ==> spec_compute_caps(device_id) != spec_compute_caps(other),
{
}

} // verus!
