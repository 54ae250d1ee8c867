//! The text an `nvidia-smi` front end shows: `--query-gpu` cells and lines and
//! the `-L` GPU list, computed from the management state.

use vstd::prelude::*;
use vstd::string::*;

use crate::nvml::format::{
    append_truncated_name, spec_truncate_name, NVML_BRAND_GEFORCE, NVML_BRAND_GEFORCE_RTX,
    NVML_BRAND_GRID, NVML_BRAND_NVIDIA, NVML_BRAND_NVIDIA_RTX, NVML_BRAND_NVIDIA_VAPPS,
    NVML_BRAND_NVIDIA_VGAMING, NVML_BRAND_NVIDIA_VPC, NVML_BRAND_NVS, NVML_BRAND_QUADRO,
    NVML_BRAND_QUADRO_RTX, NVML_BRAND_TESLA, NVML_BRAND_TITAN, NVML_BRAND_TITAN_RTX,
};
use crate::nvml::abi::{
    brand, cuda_compute_capability, device_count, device_index, enforced_power_limit, fan_speed,
    memory_info,
    power_usage, spec_device_index, spec_online_reading, temperature, utilization,
    ONLINE_FAN_SPEED_PERCENT, ONLINE_POWER_USAGE_MW, ONLINE_TEMPERATURE_C,
};
use crate::nvml::format::spec_brand;
use crate::nvml::{NvmlReturn, NvmlState, NVML_ERROR_GPU_IS_LOST, NVML_ERROR_NOT_SUPPORTED};
use crate::pci::{nvidia_architecture, spec_nvidia_architecture, NvidiaArchitecture};
use crate::ctl::chardev::spec_split_commas;
use crate::ctl::silicon::spec_string_views;
use crate::manifold::HermesPhase;
use crate::nvml::format::spec_phase_label;
use crate::nvml::parse::{spec_trim, trim_bounds};
use crate::text::{append_decimal, spec_decimal, str_eq};

verus! {

/// The cell of a value that is not available.
pub open spec fn spec_na() -> Seq<char> {
    "[N/A]"@
}

/// The display name of an NVML brand code.
pub open spec fn spec_brand_name(b: u32) -> Seq<char> {
    if b == NVML_BRAND_QUADRO {
        "Quadro"@
    } else if b == NVML_BRAND_TESLA {
        "Tesla"@
    } else if b == NVML_BRAND_NVS {
        "NVS"@
    } else if b == NVML_BRAND_GRID {
        "Grid"@
    } else if b == NVML_BRAND_GEFORCE {
        "GeForce"@
    } else if b == NVML_BRAND_TITAN {
        "Titan"@
    } else if b == NVML_BRAND_NVIDIA_VAPPS {
        "NVIDIA Virtual Applications"@
    } else if b == NVML_BRAND_NVIDIA_VPC {
        "NVIDIA Virtual PC"@
    } else if b == NVML_BRAND_NVIDIA_VGAMING {
        "NVIDIA Virtual Gaming"@
    } else if b == NVML_BRAND_QUADRO_RTX {
        "Quadro RTX"@
    } else if b == NVML_BRAND_NVIDIA_RTX {
        "NVIDIA RTX"@
    } else if b == NVML_BRAND_NVIDIA {
        "NVIDIA"@
    } else if b == NVML_BRAND_GEFORCE_RTX {
        "GeForce RTX"@
    } else if b == NVML_BRAND_TITAN_RTX {
        "Titan RTX"@
    } else {
        "Unknown"@
    }
}

/// The display name of an NVML brand code.
pub fn brand_name(b: u32) -> (s: &'static str)
    ensures
        s@ == spec_brand_name(b),
{
    if b == NVML_BRAND_QUADRO {
        "Quadro"
    } else if b == NVML_BRAND_TESLA {
        "Tesla"
    } else if b == NVML_BRAND_NVS {
        "NVS"
    } else if b == NVML_BRAND_GRID {
        "Grid"
    } else if b == NVML_BRAND_GEFORCE {
        "GeForce"
    } else if b == NVML_BRAND_TITAN {
        "Titan"
    } else if b == NVML_BRAND_NVIDIA_VAPPS {
        "NVIDIA Virtual Applications"
    } else if b == NVML_BRAND_NVIDIA_VPC {
        "NVIDIA Virtual PC"
    } else if b == NVML_BRAND_NVIDIA_VGAMING {
        "NVIDIA Virtual Gaming"
    } else if b == NVML_BRAND_QUADRO_RTX {
        "Quadro RTX"
    } else if b == NVML_BRAND_NVIDIA_RTX {
        "NVIDIA RTX"
    } else if b == NVML_BRAND_NVIDIA {
        "NVIDIA"
    } else if b == NVML_BRAND_GEFORCE_RTX {
        "GeForce RTX"
    } else if b == NVML_BRAND_TITAN_RTX {
        "Titan RTX"
    } else {
        "Unknown"
    }
}

/// The characters of `s` before its first NUL.
pub open spec fn spec_before_nul(s: Seq<char>) -> Seq<char>
    decreases s.len(),
{
    if s.len() == 0 {
        s
    } else if s[0] == '\0' {
        Seq::empty()
    } else {
        seq![s[0]] + spec_before_nul(s.drop_first())
    }
}

/// A string as it reads back from a C buffer of `cap` bytes: its text up to
/// the first NUL when it and its terminator fit, else not available.
pub open spec fn spec_c_text(s: Seq<char>, cap: nat) -> Seq<char> {
    if vstd::utf8::encode_utf8(s).len() + 1 <= cap {
        spec_before_nul(s)
    } else {
        spec_na()
    }
}

/// The text of `s` before its first NUL.
pub fn before_nul(s: &str) -> (t: String)
    ensures
        t@ == spec_before_nul(s@),
{
    let n = s.unicode_len();
    let mut k: usize = 0;
    proof {
        assert(s@.subrange(0, 0) + s@.subrange(0, n as int) =~= s@);
    }
    while k < n && s.get_char(k) != '\0'
        invariant
            k <= n,
            n == s@.len(),
            spec_before_nul(s@) == s@.subrange(0, k as int) + spec_before_nul(
                s@.subrange(k as int, n as int),
            ),
        decreases n - k,
    {
        proof {
            let rest = s@.subrange(k as int, n as int);
            assert(rest.drop_first() =~= s@.subrange(k + 1, n as int));
            assert(s@.subrange(0, k + 1) =~= s@.subrange(0, k as int) + seq![rest[0]]);
        }
        k = k + 1;
    }
    proof {
        let rest = s@.subrange(k as int, n as int);
        assert(spec_before_nul(rest) =~= Seq::<char>::empty());
        assert(s@.subrange(0, k as int) + Seq::<char>::empty() =~= s@.subrange(0, k as int));
    }
    String::from_str(s.substring_char(0, k))
}

/// `s` read back from a C buffer of `cap` bytes (see [`spec_c_text`]).
pub fn c_text(s: &str, cap: usize) -> (t: String)
    ensures
        t@ == spec_c_text(s@, cap as nat),
{
    let bytes = crate::nvml::abi::c_string(s);
    if bytes.len() <= cap {
        before_nul(s)
    } else {
        String::from_str("[N/A]")
    }
}

/// `{}` of a signed integer.
pub open spec fn spec_signed(v: int) -> Seq<char> {
    if v < 0 {
        "-"@ + spec_decimal((-v) as nat)
    } else {
        spec_decimal(v as nat)
    }
}

pub(crate) fn append_signed(s: &mut String, v: i32)
    ensures
        final(s)@ == old(s)@ + spec_signed(v as int),
{
    if v < 0 {
        s.append("-");
        append_decimal(s, (-(v as i64)) as u64);
        assert(final(s)@ =~= old(s)@ + spec_signed(v as int));
    } else {
        append_decimal(s, v as u64);
    }
}

/// `{:.0}` of `mw / 1000` watts: the nearest whole watt, ties to even.
pub open spec fn spec_whole_watts(mw: u32) -> Seq<char> {
    let q: int = (mw / 1000) as int;
    let r: int = (mw % 1000) as int;
    spec_decimal(
        (if r > 500 || (r == 500 && q % 2 == 1) {
            q + 1
        } else {
            q
        }) as nat,
    )
}

/// `{:.2}` of `mw / 1000` watts: hundredths rounded to nearest, ties to even.
pub open spec fn spec_centi_watts(mw: u32) -> Seq<char> {
    let c0: int = (mw / 10) as int;
    let r: int = (mw % 10) as int;
    let c: int = if r > 5 || (r == 5 && c0 % 2 == 1) {
        c0 + 1
    } else {
        c0
    };
    spec_decimal((c / 100) as nat) + "."@ + spec_decimal(((c % 100) / 10) as nat) + spec_decimal(
        (c % 10) as nat,
    )
}

fn append_whole_watts(s: &mut String, mw: u32)
    ensures
        final(s)@ == old(s)@ + spec_whole_watts(mw),
{
    let q = mw / 1000;
    let r = mw % 1000;
    let w: u64 = if r > 500 || (r == 500 && q % 2 == 1) {
        q as u64 + 1
    } else {
        q as u64
    };
    append_decimal(s, w);
}

fn append_centi_watts(s: &mut String, mw: u32)
    ensures
        final(s)@ == old(s)@ + spec_centi_watts(mw),
{
    let c0 = mw / 10;
    let r = mw % 10;
    let c: u64 = if r > 5 || (r == 5 && c0 % 2 == 1) {
        c0 as u64 + 1
    } else {
        c0 as u64
    };
    append_decimal(s, c / 100);
    s.append(".");
    append_decimal(s, (c % 100) / 10);
    append_decimal(s, c % 10);
    assert(final(s)@ =~= old(s)@ + spec_centi_watts(mw));
}

/// The CSV column title of a query field: with units, the unit in brackets
/// after the fields that have one.
pub open spec fn spec_csv_header(field: Seq<char>, units: bool) -> Seq<char> {
    if !units {
        field
    } else if field == "temperature.gpu"@ || field == "temp"@ {
        field + " [C]"@
    } else if field == "fan.speed"@ || field == "fan"@ || field == "utilization.gpu"@ {
        field + " [%]"@
    } else if field == "power.draw"@ || field == "power"@ || field == "power.limit"@ {
        field + " [W]"@
    } else if field == "memory.total"@ || field == "memory.used"@ || field == "memory.free"@ {
        field + " [MiB]"@
    } else {
        field
    }
}

fn with_suffix(field: &str, suffix: &str) -> (s: String)
    ensures
        s@ == field@ + suffix@,
{
    let mut s = String::from_str(field);
    s.append(suffix);
    s
}

/// The CSV column title of a query field (see [`spec_csv_header`]).
pub fn csv_header(field: &str, units: bool) -> (s: String)
    ensures
        s@ == spec_csv_header(field@, units),
{
    if !units {
        String::from_str(field)
    } else if str_eq(field, "temperature.gpu") || str_eq(field, "temp") {
        with_suffix(field, " [C]")
    } else if str_eq(field, "fan.speed") || str_eq(field, "fan") || str_eq(field, "utilization.gpu") {
        with_suffix(field, " [%]")
    } else if str_eq(field, "power.draw") || str_eq(field, "power") || str_eq(field, "power.limit") {
        with_suffix(field, " [W]")
    } else if str_eq(field, "memory.total") || str_eq(field, "memory.used") || str_eq(
        field,
        "memory.free",
    ) {
        with_suffix(field, " [MiB]")
    } else {
        String::from_str(field)
    }
}

/// `s` in exactly `n` columns: padded on the right, or cut to `n - 1`
/// characters and an ellipsis.
pub fn truncate(s: &str, n: usize) -> (t: String)
    ensures
        t@ == spec_truncate_name(s@, n as nat),
{
    let mut t = String::new();
    append_truncated_name(&mut t, s, n);
    assert(t@ =~= spec_truncate_name(s@, n as nat));
    t
}


/// The text of a numeric reading, or not available.
pub open spec fn spec_reading_text(r: Result<u32, NvmlReturn>) -> Seq<char> {
    match r {
        Ok(v) => spec_decimal(v as nat),
        Err(_) => spec_na(),
    }
}

/// The architecture name of a device id as the query shows it; the Blackwell
/// generation by its NVML code.
pub open spec fn spec_arch_text(device_id: u16) -> Seq<char> {
    match spec_nvidia_architecture(device_id) {
        Some(NvidiaArchitecture::Turing) => "Turing"@,
        Some(NvidiaArchitecture::Ampere) => "Ampere"@,
        Some(NvidiaArchitecture::Ada) => "Ada"@,
        Some(NvidiaArchitecture::Hopper) => "Hopper"@,
        Some(NvidiaArchitecture::Blackwell) => spec_decimal(10),
        None => spec_na(),
    }
}

pub open spec fn spec_is_clock_field(field: Seq<char>) -> bool {
    field == "clocks.current.graphics"@ || field == "clocks.gr"@ || field
        == "clocks.current.memory"@ || field == "clocks.mem"@
}

/// The cell one `--query-gpu` field gives for the GPU behind `h`; `online` is
/// whether that GPU's phase is Online. Telemetry is not available offline;
/// this library has no clock query, so clocks are never available.
pub open spec fn spec_query_field(st: NvmlState, h: u64, field: Seq<char>, online: bool) -> Seq<char> {
    let idx = spec_device_index(st, h);
    if field == "name"@ || field == "gpu_name"@ {
        match idx {
            Ok(i) => spec_c_text(st.gpus@[i as int].name@, 96),
            Err(_) => spec_na(),
        }
    } else if field == "pci.bus_id"@ || field == "bus_id"@ {
        match idx {
            Ok(i) => spec_c_text(st.gpus@[i as int].pci_bus_id@, 32),
            Err(_) => spec_na(),
        }
    } else if field == "temperature.gpu"@ || field == "temp"@ {
        if !online {
            spec_na()
        } else {
            spec_reading_text(
                spec_online_reading(st, h, NVML_ERROR_GPU_IS_LOST, ONLINE_TEMPERATURE_C),
            )
        }
    } else if field == "fan.speed"@ || field == "fan"@ {
        if !online {
            spec_na()
        } else {
            spec_reading_text(
                spec_online_reading(st, h, NVML_ERROR_NOT_SUPPORTED, ONLINE_FAN_SPEED_PERCENT),
            )
        }
    } else if field == "power.draw"@ || field == "power"@ {
        if !online {
            spec_na()
        } else {
            match spec_online_reading(st, h, NVML_ERROR_NOT_SUPPORTED, ONLINE_POWER_USAGE_MW) {
                Ok(mw) => spec_centi_watts(mw),
                Err(_) => spec_na(),
            }
        }
    } else if field == "power.limit"@ {
        match idx {
            Ok(i) => spec_whole_watts(st.gpus@[i as int].power_limit_mw),
            Err(_) => spec_na(),
        }
    } else if field == "memory.total"@ || field == "memory.used"@ || field == "memory.free"@ {
        match idx {
            Ok(i) => {
                let g = st.gpus@[i as int];
                let shown = if field == "memory.total"@ {
                    g.total_mem_bytes as int
                } else if g.manifold.spec_is_online() {
                    (g.total_mem_bytes / 2) as int
                } else {
                    0int
                };
                spec_decimal((shown / 0x10_0000) as nat)
            },
            Err(_) => spec_na(),
        }
    } else if field == "utilization.gpu"@ {
        if !online {
            spec_na()
        } else {
            spec_reading_text(spec_online_reading(st, h, NVML_ERROR_NOT_SUPPORTED, 0))
        }
    } else if field == "brand"@ {
        match idx {
            Ok(i) => spec_brand_name(
                spec_brand(st.gpus@[i as int].device_id, st.gpus@[i as int].name@),
            ),
            Err(_) => spec_na(),
        }
    } else if field == "compute_cap"@ {
        match idx {
            Ok(i) => spec_signed((st.gpus@[i as int].compute_major as i32) as int) + "."@
                + spec_signed((st.gpus@[i as int].compute_minor as i32) as int),
            Err(_) => spec_na(),
        }
    } else if spec_is_clock_field(field) {
        spec_na()
    } else if field == "architecture"@ || field == "arch"@ {
        match idx {
            Ok(i) => spec_arch_text(st.gpus@[i as int].device_id),
            Err(_) => spec_na(),
        }
    } else {
        "[unknown:"@ + field + "]"@
    }
}

fn na() -> (s: String)
    ensures
        s@ == spec_na(),
{
    String::from_str("[N/A]")
}

fn reading_text(r: Result<u32, NvmlReturn>) -> (s: String)
    ensures
        s@ == spec_reading_text(r),
{
    match r {
        Ok(v) => {
            let mut s = String::new();
            append_decimal(&mut s, v as u64);
            s
        },
        Err(_) => na(),
    }
}

fn arch_text(device_id: u16) -> (s: String)
    ensures
        s@ == spec_arch_text(device_id),
{
    match nvidia_architecture(device_id) {
        Some(NvidiaArchitecture::Turing) => String::from_str("Turing"),
        Some(NvidiaArchitecture::Ampere) => String::from_str("Ampere"),
        Some(NvidiaArchitecture::Ada) => String::from_str("Ada"),
        Some(NvidiaArchitecture::Hopper) => String::from_str("Hopper"),
        Some(NvidiaArchitecture::Blackwell) => {
            let mut s = String::new();
            append_decimal(&mut s, 10);
            s
        },
        None => na(),
    }
}

fn identity_field(st: &NvmlState, h: u64, bus: bool) -> (s: String)
    ensures
        s@ == match spec_device_index(*st, h) {
            Ok(i) => if bus {
                spec_c_text(st.gpus@[i as int].pci_bus_id@, 32)
            } else {
                spec_c_text(st.gpus@[i as int].name@, 96)
            },
            Err(_) => spec_na(),
        },
{
    match device_index(st, h) {
        Ok(i) => if bus {
            c_text(st.gpus[i].pci_bus_id.as_str(), 32)
        } else {
            c_text(st.gpus[i].name.as_str(), 96)
        },
        Err(_) => na(),
    }
}

fn memory_field(st: &NvmlState, h: u64, total: bool) -> (s: String)
    ensures
        s@ == match spec_device_index(*st, h) {
            Ok(i) => {
                let g = st.gpus@[i as int];
                let shown = if total {
                    g.total_mem_bytes as int
                } else if g.manifold.spec_is_online() {
                    (g.total_mem_bytes / 2) as int
                } else {
                    0int
                };
                spec_decimal((shown / 0x10_0000) as nat)
            },
            Err(_) => spec_na(),
        },
{
    match memory_info(st, h) {
        Ok(m) => {
            let mut s = String::new();
            append_decimal(&mut s, if total { m.total } else { m.used } / 0x10_0000);
            s
        },
        Err(_) => na(),
    }
}

fn device_field(st: &NvmlState, h: u64, which: u8) -> (s: String)
    requires
        which < 3,
    ensures
        s@ == match spec_device_index(*st, h) {
            Ok(i) => {
                let g = st.gpus@[i as int];
                if which == 0 {
                    spec_whole_watts(g.power_limit_mw)
                } else if which == 1 {
                    spec_brand_name(spec_brand(g.device_id, g.name@))
                } else {
                    spec_signed((g.compute_major as i32) as int) + "."@ + spec_signed(
                        (g.compute_minor as i32) as int,
                    )
                }
            },
            Err(_) => spec_na(),
        },
{
    if which == 0 {
        match enforced_power_limit(st, h) {
            Ok(lim) => {
                let mut s = String::new();
                append_whole_watts(&mut s, lim);
                s
            },
            Err(_) => na(),
        }
    } else if which == 1 {
        match brand(st, h) {
            Ok(b) => String::from_str(brand_name(b)),
            Err(_) => na(),
        }
    } else {
        match cuda_compute_capability(st, h) {
            Ok((major, minor)) => {
                let mut s = String::new();
                append_signed(&mut s, major);
                s.append(".");
                append_signed(&mut s, minor);
                s
            },
            Err(_) => na(),
        }
    }
}

fn telemetry_field(st: &NvmlState, h: u64, which: u8) -> (s: String)
    requires
        which < 4,
    ensures
        s@ == if which == 0 {
            spec_reading_text(spec_online_reading(*st, h, NVML_ERROR_GPU_IS_LOST, ONLINE_TEMPERATURE_C))
        } else if which == 1 {
            spec_reading_text(
                spec_online_reading(*st, h, NVML_ERROR_NOT_SUPPORTED, ONLINE_FAN_SPEED_PERCENT),
            )
        } else if which == 2 {
            match spec_online_reading(*st, h, NVML_ERROR_NOT_SUPPORTED, ONLINE_POWER_USAGE_MW) {
                Ok(mw) => spec_centi_watts(mw),
                Err(_) => spec_na(),
            }
        } else {
            spec_reading_text(spec_online_reading(*st, h, NVML_ERROR_NOT_SUPPORTED, 0))
        },
{
    if which == 0 {
        reading_text(temperature(st, h))
    } else if which == 1 {
        reading_text(fan_speed(st, h))
    } else if which == 2 {
        match power_usage(st, h) {
            Ok(mw) => {
                let mut s = String::new();
                append_centi_watts(&mut s, mw);
                s
            },
            Err(_) => na(),
        }
    } else {
        match utilization(st, h) {
            Ok(u) => reading_text(Ok(u.gpu)),
            Err(e) => reading_text(Err(e)),
        }
    }
}

/// The cell one `--query-gpu` field gives (see [`spec_query_field`]). `units`
/// does not change a cell.
#[verifier::rlimit(40)]
pub fn query_one_field(st: &NvmlState, h: u64, field: &str, online: bool, units: bool) -> (s: String)
    ensures
        s@ == spec_query_field(*st, h, field@, online),
{
    if str_eq(field, "name") || str_eq(field, "gpu_name") {
        identity_field(st, h, false)
    } else if str_eq(field, "pci.bus_id") || str_eq(field, "bus_id") {
        identity_field(st, h, true)
    } else if str_eq(field, "temperature.gpu") || str_eq(field, "temp") {
        if !online { na() } else { telemetry_field(st, h, 0) }
    } else if str_eq(field, "fan.speed") || str_eq(field, "fan") {
        if !online { na() } else { telemetry_field(st, h, 1) }
    } else if str_eq(field, "power.draw") || str_eq(field, "power") {
        if !online { na() } else { telemetry_field(st, h, 2) }
    } else if str_eq(field, "power.limit") {
        device_field(st, h, 0)
    } else if str_eq(field, "memory.total") {
        memory_field(st, h, true)
    } else if str_eq(field, "memory.used") || str_eq(field, "memory.free") {
        memory_field(st, h, false)
    } else if str_eq(field, "utilization.gpu") {
        if !online { na() } else { telemetry_field(st, h, 3) }
    } else if str_eq(field, "brand") {
        device_field(st, h, 1)
    } else if str_eq(field, "compute_cap") {
        device_field(st, h, 2)
    } else if str_eq(field, "clocks.current.graphics") || str_eq(field, "clocks.gr") || str_eq(
        field,
        "clocks.current.memory",
    ) || str_eq(field, "clocks.mem") {
        na()
    } else if str_eq(field, "architecture") || str_eq(field, "arch") {
        match device_index(st, h) {
            Ok(i) => arch_text(st.gpus[i].device_id),
            Err(_) => na(),
        }
    } else {
        let mut s = String::from_str("[unknown:");
        s.append(field);
        s.append("]");
        s
    }
}


/// The trimmed, non-empty pieces among the first `n` of `pieces`.
pub open spec fn spec_nonempty_trimmed(pieces: Seq<Seq<char>>, n: int) -> Seq<Seq<char>>
    decreases n,
{
    if n <= 0 {
        Seq::empty()
    } else {
        let prev = spec_nonempty_trimmed(pieces, n - 1);
        let t = spec_trim(pieces[n - 1]);
        if t.len() > 0 {
            prev.push(t)
        } else {
            prev
        }
    }
}

/// The fields a `--query-gpu=` list names: split at commas, trimmed, empty
/// ones dropped.
pub open spec fn spec_query_fields(list: Seq<char>) -> Seq<Seq<char>> {
    spec_nonempty_trimmed(spec_split_commas(list), spec_split_commas(list).len() as int)
}

/// `parts` joined with `sep` between them.
pub open spec fn spec_join(parts: Seq<Seq<char>>, sep: Seq<char>) -> Seq<char>
    decreases parts.len(),
{
    if parts.len() == 0 {
        Seq::empty()
    } else if parts.len() == 1 {
        parts[0]
    } else {
        spec_join(parts.drop_last(), sep) + sep + parts.last()
    }
}

proof fn lemma_nonempty_trimmed_prefix(a: Seq<Seq<char>>, b: Seq<Seq<char>>, n: int)
    requires
        0 <= n <= a.len(),
        n <= b.len(),
        forall|q: int| 0 <= q < n ==> a[q] == b[q],
    ensures
        spec_nonempty_trimmed(a, n) == spec_nonempty_trimmed(b, n),
    decreases n,
{
    if n > 0 {
        lemma_nonempty_trimmed_prefix(a, b, n - 1);
    }
}

proof fn lemma_split_nonempty(s: Seq<char>)
    ensures
        spec_split_commas(s).len() >= 1,
    decreases s.len(),
{
    if s.len() > 0 {
        lemma_split_nonempty(s.drop_last());
    }
}

fn push_trimmed(fields: &mut Vec<String>, piece: &str)
    ensures
        spec_string_views(final(fields)@) == if spec_trim(piece@).len() > 0 {
            spec_string_views(old(fields)@).push(spec_trim(piece@))
        } else {
            spec_string_views(old(fields)@)
        },
{
    let (a, b) = trim_bounds(piece);
    if a < b {
        fields.push(String::from_str(piece.substring_char(a, b)));
        assert(spec_string_views(fields@) =~= spec_string_views(old(fields)@).push(spec_trim(piece@)));
    }
}

/// The fields of a `--query-gpu=` list (see [`spec_query_fields`]).
pub fn query_fields(list: &str) -> (fields: Vec<String>)
    ensures
        spec_string_views(fields@) == spec_query_fields(list@),
{
    let n = list.unicode_len();
    let mut fields: Vec<String> = Vec::new();
    let mut seg: usize = 0;
    let mut start: usize = 0;
    let mut i: usize = 0;
    proof {
        assert(list@.subrange(0, 0) =~= Seq::<char>::empty());
        assert(spec_string_views(fields@) =~= Seq::<Seq<char>>::empty());
    }
    while i < n
        invariant
            n == list@.len(),
            start <= i <= n,
            seg <= i,
            spec_split_commas(list@.subrange(0, i as int)).len() == seg + 1,
            spec_split_commas(list@.subrange(0, i as int))[seg as int] == list@.subrange(
                start as int,
                i as int,
            ),
            spec_string_views(fields@) == spec_nonempty_trimmed(
                spec_split_commas(list@.subrange(0, i as int)),
                seg as int,
            ),
        decreases n - i,
    {
        let c = list.get_char(i);
        let ghost prev = spec_split_commas(list@.subrange(0, i as int));
        proof {
            assert(list@.subrange(0, i + 1).drop_last() =~= list@.subrange(0, i as int));
            assert(list@.subrange(0, i + 1).last() == c);
            lemma_split_nonempty(list@.subrange(0, i as int));
        }
        if c == ',' {
            let piece = list.substring_char(start, i);
            push_trimmed(&mut fields, piece);
            proof {
                let next = spec_split_commas(list@.subrange(0, i + 1));
                assert(next == prev.push(Seq::<char>::empty()));
                lemma_nonempty_trimmed_prefix(prev, next, seg as int);
                assert(next[seg as int] == prev[seg as int]);
                assert(list@.subrange(i + 1, i + 1) =~= Seq::<char>::empty());
            }
            seg = seg + 1;
            start = i + 1;
        } else {
            proof {
                let next = spec_split_commas(list@.subrange(0, i + 1));
                lemma_nonempty_trimmed_prefix(prev, next, seg as int);
                assert(list@.subrange(start as int, i + 1) =~= list@.subrange(start as int, i as int).push(
                    c,
                ));
            }
        }
        i = i + 1;
    }
    let piece = list.substring_char(start, n);
    push_trimmed(&mut fields, piece);
    proof {
        assert(list@.subrange(0, n as int) =~= list@);
    }
    fields
}

/// `parts` joined with `sep` (see [`spec_join`]).
pub fn join(parts: &Vec<String>, sep: &str) -> (s: String)
    ensures
        s@ == spec_join(spec_string_views(parts@), sep@),
{
    let mut s = String::new();
    let mut k: usize = 0;
    while k < parts.len()
        invariant
            k <= parts@.len(),
            s@ == spec_join(spec_string_views(parts@.subrange(0, k as int)), sep@),
        decreases parts@.len() - k,
    {
        if k > 0 {
            s.append(sep);
        }
        s.append(parts[k].as_str());
        proof {
            let v = spec_string_views(parts@.subrange(0, k + 1));
            assert(v.drop_last() =~= spec_string_views(parts@.subrange(0, k as int)));
            if k == 0 {
                assert(spec_string_views(parts@.subrange(0, 0)) =~= Seq::<Seq<char>>::empty());
            }
        }
        k = k + 1;
    }
    proof {
        assert(parts@.subrange(0, parts@.len() as int) =~= parts@);
    }
    s
}

/// Whether GPU `i` is in the Online phase.
pub open spec fn spec_gpu_phase_online(st: NvmlState, i: int) -> bool {
    st.gpus@[i].manifold.phase == HermesPhase::Online
}

/// The data row of GPU `i`: its cell for each field, comma separated.
pub open spec fn spec_query_row(st: NvmlState, fields: Seq<Seq<char>>, i: int) -> Seq<char> {
    spec_join(
        Seq::new(
            fields.len(),
            |k: int| spec_query_field(st, (i + 1) as u64, fields[k], spec_gpu_phase_online(st, i)),
        ),
        ", "@,
    )
}

/// What `--query-gpu=<list>` prints: nothing for an empty list; otherwise the
/// header (unless suppressed; CSV titles carry units when asked) and one row
/// per GPU.
pub open spec fn spec_query_lines(st: NvmlState, list: Seq<char>, csv: bool, header: bool, units: bool) -> Seq<Seq<char>> {
    let fields = spec_query_fields(list);
    if fields.len() == 0 {
        Seq::empty()
    } else {
        let head: Seq<Seq<char>> = if header {
            seq![
                spec_join(
                    if csv {
                        Seq::new(fields.len(), |k: int| spec_csv_header(fields[k], units))
                    } else {
                        fields
                    },
                    ", "@,
                ),
            ]
        } else {
            Seq::empty()
        };
        head + Seq::new(st.gpus@.len(), |i: int| spec_query_row(st, fields, i))
    }
}

fn query_row(st: &NvmlState, fields: &Vec<String>, i: usize) -> (row: String)
    requires
        st.initialized,
        i < st.gpus@.len(),
        i < u32::MAX,
    ensures
        row@ == spec_query_row(*st, spec_string_views(fields@), i as int),
{
    let online = st.gpus[i].manifold.phase == HermesPhase::Online;
    let h = i as u64 + 1;
    let mut cells: Vec<String> = Vec::new();
    let mut k: usize = 0;
    while k < fields.len()
        invariant
            k <= fields@.len(),
            h == i + 1,
            online == spec_gpu_phase_online(*st, i as int),
            cells@.len() == k,
            forall|q: int|
                0 <= q < k ==> (#[trigger] cells@[q])@ == spec_query_field(
                    *st,
                    h,
                    fields@[q]@,
                    online,
                ),
        decreases fields@.len() - k,
    {
        cells.push(query_one_field(st, h, fields[k].as_str(), online, true));
        k = k + 1;
    }
    let row = join(&cells, ", ");
    assert(spec_string_views(cells@) =~= Seq::new(
        spec_string_views(fields@).len(),
        |k: int| spec_query_field(*st, (i + 1) as u64, spec_string_views(fields@)[k], spec_gpu_phase_online(*st, i as int)),
    ));
    row
}

/// The lines `--query-gpu=<list>` prints (see [`spec_query_lines`]). Counting
/// the GPUs needs an initialised library.
pub fn query_gpu_lines(st: &NvmlState, list: &str, csv: bool, header: bool, units: bool) -> (lines: Vec<String>)
    requires
        st.initialized,
        st.gpus@.len() <= u32::MAX,
    ensures
        spec_string_views(lines@) == spec_query_lines(*st, list@, csv, header, units),
{
    let fields = query_fields(list);
    let mut lines: Vec<String> = Vec::new();
    if fields.len() == 0 {
        assert(spec_string_views(lines@) =~= Seq::<Seq<char>>::empty());
        return lines;
    }
    let ghost fv = spec_string_views(fields@);
    if header {
        if csv {
            let mut titles: Vec<String> = Vec::new();
            let mut k: usize = 0;
            while k < fields.len()
                invariant
                    k <= fields@.len(),
                    titles@.len() == k,
                    forall|q: int|
                        0 <= q < k ==> (#[trigger] titles@[q])@ == spec_csv_header(fields@[q]@, units),
                decreases fields@.len() - k,
            {
                titles.push(csv_header(fields[k].as_str(), units));
                k = k + 1;
            }
            assert(spec_string_views(titles@) =~= Seq::new(fv.len(), |k: int| spec_csv_header(fv[k], units)));
            lines.push(join(&titles, ", "));
        } else {
            lines.push(join(&fields, ", "));
        }
    }
    let ghost head = spec_string_views(lines@);
    let count = match device_count(st) {
        Ok(n) => n,
        Err(_) => 0,
    };
    let mut i: u32 = 0;
    while i < count
        invariant
            st.initialized,
            count == st.gpus@.len(),
            st.gpus@.len() <= u32::MAX,
            i <= count,
            fv == spec_string_views(fields@),
            spec_string_views(lines@) == head + Seq::new(i as nat, |j: int| spec_query_row(*st, fv, j)),
        decreases count - i,
    {
        let row = query_row(st, &fields, i as usize);
        let ghost before = spec_string_views(lines@);
        let ghost row_view = row@;
        lines.push(row);
        assert(spec_string_views(lines@) =~= before.push(row_view));
        assert(before.push(row_view) =~= head + Seq::new((i + 1) as nat, |j: int| spec_query_row(*st, fv, j)));
        i = i + 1;
    }
    lines
}

/// One line of `-L`: index, name, bus id and phase.
pub open spec fn spec_list_line(st: NvmlState, i: int) -> Seq<char> {
    "GPU "@ + spec_decimal(i as nat) + ": "@ + spec_before_nul(st.gpus@[i].name@) + " (UUID n/a) Bus "@
        + spec_before_nul(st.gpus@[i].pci_bus_id@) + " ["@ + spec_phase_label(st.gpus@[i].manifold.phase)
        + "]"@
}

/// Every GPU's name and bus id fit the buffers `-L` reads them into (96 and
/// 32 bytes with the terminator).
pub open spec fn spec_list_fits(st: NvmlState) -> bool {
    forall|i: int|
        0 <= i < st.gpus@.len() ==> vstd::utf8::encode_utf8(#[trigger] st.gpus@[i].name@).len() + 1
            <= 96 && vstd::utf8::encode_utf8(st.gpus@[i].pci_bus_id@).len() + 1 <= 32
}

/// What `-L` prints: a line per GPU, or that none was found.
pub open spec fn spec_list_lines(st: NvmlState) -> Seq<Seq<char>> {
    if st.gpus@.len() == 0 {
        seq!["No devices found."@]
    } else {
        Seq::new(st.gpus@.len(), |i: int| spec_list_line(st, i))
    }
}

/// The lines `-L` prints (see [`spec_list_lines`]); the library must be
/// initialised and every name and bus id must fit its buffer.
pub fn list_gpu_lines(st: &NvmlState) -> (lines: Vec<String>)
    requires
        st.initialized,
        spec_list_fits(*st),
    ensures
        spec_string_views(lines@) == spec_list_lines(*st),
{
    let mut lines: Vec<String> = Vec::new();
    if st.gpus.len() == 0 {
        lines.push(String::from_str("No devices found."));
        assert(spec_string_views(lines@) =~= spec_list_lines(*st));
        return lines;
    }
    let mut i: usize = 0;
    while i < st.gpus.len()
        invariant
            i <= st.gpus@.len(),
            st.gpus@.len() > 0,
            spec_string_views(lines@) == Seq::new(i as nat, |j: int| spec_list_line(*st, j)),
        decreases st.gpus@.len() - i,
    {
        let g = &st.gpus[i];
        let mut line = String::from_str("GPU ");
        append_decimal(&mut line, i as u64);
        line.append(": ");
        line.append(before_nul(g.name.as_str()).as_str());
        line.append(" (UUID n/a) Bus ");
        line.append(before_nul(g.pci_bus_id.as_str()).as_str());
        line.append(" [");
        line.append(g.manifold.phase.label());
        line.append("]");
        assert(line@ =~= spec_list_line(*st, i as int));
        let ghost before = spec_string_views(lines@);
        let ghost line_view = line@;
        lines.push(line);
        assert(spec_string_views(lines@) =~= before.push(line_view));
        assert(before.push(line_view) =~= Seq::new((i + 1) as nat, |j: int| spec_list_line(*st, j)));
        i = i + 1;
    }
    lines
}

} // verus!
