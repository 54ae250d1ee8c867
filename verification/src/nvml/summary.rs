//! The table `nvidia-smi` prints with no arguments, rendered from the
//! management state: a header, a block per bound GPU (telemetry only for a
//! GPU that is Online), the process table, and "No devices were found" only
//! when no GPU is bound.

use vstd::prelude::*;
use vstd::string::*;

use crate::ctl::silicon::spec_string_views;
use crate::manifold::HermesPhase;
use crate::nvml::abi::{ONLINE_FAN_SPEED_PERCENT, ONLINE_POWER_USAGE_MW, ONLINE_TEMPERATURE_C};
use crate::nvml::format::{
    append_padded_decimal, append_spaces, append_truncated_name, brand_for_device, spec_brand,
    spec_device_line, spec_pad_left, spec_phase_label, spec_process_line, spec_spaces,
    spec_truncate_name,
};
use crate::nvml::parse::{spec_trim, trim_bounds};
use crate::nvml::smi::{append_signed, before_nul, brand_name, spec_before_nul, spec_brand_name, spec_signed};
use crate::nvml::{hermes_nvml_format_device_line, hermes_nvml_format_process_lines, NvmlState};
use crate::text::{append_decimal, spec_decimal};

verus! {

/// `s` left-aligned in `width` columns (`{:width}` of a string).
pub open spec fn spec_pad_right(s: Seq<char>, width: nat) -> Seq<char> {
    if s.len() < width {
        s + spec_spaces((width - s.len()) as nat)
    } else {
        s
    }
}

fn append_pad_left(s: &mut String, t: &str, width: usize)
    ensures
        final(s)@ == old(s)@ + spec_pad_left(t@, width as nat),
{
    let n = t.unicode_len();
    if n < width {
        append_spaces(s, width - n);
    }
    s.append(t);
    assert(final(s)@ =~= old(s)@ + spec_pad_left(t@, width as nat));
}

fn append_pad_right(s: &mut String, t: &str, width: usize)
    ensures
        final(s)@ == old(s)@ + spec_pad_right(t@, width as nat),
{
    let n = t.unicode_len();
    s.append(t);
    if n < width {
        append_spaces(s, width - n);
    }
    assert(final(s)@ =~= old(s)@ + spec_pad_right(t@, width as nat));
}

/// Integer division that rounds toward zero, as Rust's `/` does.
pub open spec fn spec_trunc_div(v: int, d: int) -> int {
    if v >= 0 {
        v / d
    } else {
        -((-v) / d)
    }
}

/// The CUDA driver version as `major.minor` (`v / 1000` and `v % 1000 / 10`,
/// rounding toward zero).
pub open spec fn spec_cuda_text(v: i32) -> Seq<char> {
    spec_signed(spec_trunc_div(v as int, 1000)) + "."@ + spec_signed(
        spec_trunc_div(v as int - 1000 * spec_trunc_div(v as int, 1000), 10),
    )
}

fn trunc_div(v: i64, d: u64) -> (q: i64)
    requires
        d >= 1,
        v > i64::MIN,
    ensures
        q == spec_trunc_div(v as int, d as int),
        -0x8000_0000_0000_0000 < q,
{
    if v >= 0 {
        ((v as u64) / d) as i64
    } else {
        let m = ((-v) as u64) / d;
        -(m as i64)
    }
}

fn append_cuda_text(s: &mut String, v: i32)
    ensures
        final(s)@ == old(s)@ + spec_cuda_text(v),
{
    let major = trunc_div(v as i64, 1000);
    let rest = (v as i64) - 1000 * major;
    let minor = trunc_div(rest, 10);
    append_signed(s, major as i32);
    s.append(".");
    append_signed(s, minor as i32);
    assert(final(s)@ =~= old(s)@ + spec_cuda_text(v));
}

/// The two header lines above the GPU rows, and the rule under them.
pub open spec fn spec_summary_head(driver_version: Seq<char>, cuda_version: i32) -> Seq<Seq<char>> {
    seq![
        "+-----------------------------------------------------------------------------+"@,
        "| NVIDIA-SMI Hermes-GSP  Driver Version: "@ + spec_pad_right(driver_version, 20)
            + "  CUDA Version: "@ + spec_pad_right(spec_cuda_text(cuda_version), 6) + " |"@,
        "+-------------------------------+----------------------+----------------------+"@,
        "| GPU  Name        Persistence-M| Bus-Id        Disp.A | Volatile Uncorr. ECC |"@,
        "| Fan  Temp  Perf  Pwr:Usage/Cap|         Memory-Usage | GPU-Util  Compute M. |"@,
        "|                               |                      |               MIG M. |"@,
        "|===============================+======================+======================|"@,
    ]
}

/// A telemetry cell: `value` and its unit while the GPU is Online, else N/A.
pub open spec fn spec_cell(online: bool, value: nat, unit: Seq<char>) -> Seq<char> {
    if online {
        spec_decimal(value) + unit
    } else {
        "N/A"@
    }
}

/// Mebibytes, rounded down.
pub open spec fn spec_mib(bytes: u64) -> nat {
    (bytes / 0x10_0000) as nat
}

/// The five lines of GPU `i`: index, name, persistence and bus; fan,
/// temperature, power, memory and utilisation; a spare line; its Hermes device
/// line; brand, compute capability and phase.
pub open spec fn spec_summary_gpu(st: NvmlState, i: int) -> Seq<Seq<char>> {
    let g = st.gpus@[i];
    let online = g.manifold.spec_is_online();
    let used: u64 = if online {
        (g.total_mem_bytes / 2) as u64
    } else {
        0
    };
    seq![
        "| "@ + spec_pad_left(spec_decimal(i as nat), 3) + "  "@ + spec_truncate_name(
            spec_before_nul(g.name@),
            18,
        ) + "  "@ + spec_pad_left(
            if g.persistence_mode {
                "On"@
            } else {
                "Off"@
            },
            3,
        ) + "  | "@ + spec_pad_right(spec_before_nul(g.pci_bus_id@), 16)
            + "  On |                  N/A |"@,
        "| "@ + spec_pad_left(spec_cell(online, ONLINE_FAN_SPEED_PERCENT as nat, "%"@), 4) + " "@
            + spec_pad_left(spec_cell(online, ONLINE_TEMPERATURE_C as nat, "C"@), 5) + "  P0   "@
            + spec_pad_left(spec_cell(online, (ONLINE_POWER_USAGE_MW / 1000) as nat, "W"@), 6)
            + " /"@ + spec_pad_left(spec_decimal((g.power_limit_mw / 1000) as nat), 4) + "W |   "@
            + spec_pad_left(spec_decimal(spec_mib(used)), 5) + "MiB / "@ + spec_pad_left(
            spec_decimal(spec_mib(g.total_mem_bytes)),
            5,
        ) + "MiB |   "@ + spec_pad_left(spec_cell(online, 0, "%"@), 5) + "      Default |"@,
        "|                               |                      |                  N/A |"@,
        "| Hermes: "@ + spec_truncate_name(
            spec_device_line(i as usize, g.name@, g.pci_bus_id@, g.manifold.phase, g.total_mem_bytes),
            70,
        ) + " |"@,
        "| brand="@ + spec_brand_name(spec_brand(g.device_id, g.name@)) + " sm"@ + spec_signed(
            (g.compute_major as i32) as int,
        ) + "."@ + spec_signed((g.compute_minor as i32) as int) + " phase="@ + spec_phase_label(
            g.manifold.phase,
        ) + "                                        |"@,
    ]
}

/// The blocks of GPUs `0..n`, in order.
pub open spec fn spec_summary_gpus(st: NvmlState, n: int) -> Seq<Seq<char>>
    decreases n,
{
    if n <= 0 {
        Seq::empty()
    } else {
        spec_summary_gpus(st, n - 1) + spec_summary_gpu(st, n - 1)
    }
}

/// `s` without its leading `|` characters.
pub open spec fn spec_strip_bars(s: Seq<char>) -> Seq<char>
    decreases s.len(),
{
    if s.len() > 0 && s[0] == '|' {
        spec_strip_bars(s.drop_first())
    } else {
        s
    }
}

/// The process-table row of process `k` of GPU `i`.
pub open spec fn spec_summary_process(st: NvmlState, i: int, k: int) -> Seq<char> {
    let p = st.gpus@[i].processes@[k];
    "|    "@ + spec_decimal(i as nat) + "   N/A  N/A  "@ + spec_trim(
        spec_strip_bars(spec_process_line(p.pid, p.name@, p.used_gpu_memory)),
    ) + " |"@
}

/// The process rows of GPUs `0..n`, GPU by GPU.
pub open spec fn spec_summary_processes(st: NvmlState, n: int) -> Seq<Seq<char>>
    decreases n,
{
    if n <= 0 {
        Seq::empty()
    } else {
        spec_summary_processes(st, n - 1) + Seq::new(
            st.gpus@[n - 1].processes@.len(),
            |k: int| spec_summary_process(st, n - 1, k),
        )
    }
}

/// The rule under the GPU rows and the process table's head.
pub open spec fn spec_process_head() -> Seq<Seq<char>> {
    seq![
        "+-------------------------------+----------------------+----------------------+"@,
        Seq::<char>::empty(),
        "+-----------------------------------------------------------------------------+"@,
        "| Processes:                                                                  |"@,
        "|  GPU   GI   CI        PID   Type   Process name                  GPU Memory |"@,
        "|        ID   ID                                                   Usage      |"@,
        "|=============================================================================|"@,
    ]
}

/// What `nvidia-smi` prints with no arguments: the time stamp, the header,
/// then, with no GPU bound, "No devices were found" and how many host GPUs
/// were discovered; otherwise a block per GPU and the process table.
pub open spec fn spec_summary_table(
    st: NvmlState,
    driver_version: Seq<char>,
    cuda_version: i32,
    discovered: usize,
    stamp: Seq<char>,
) -> Seq<Seq<char>> {
    let n = st.gpus@.len() as int;
    let top = seq![stamp] + spec_summary_head(driver_version, cuda_version);
    if n == 0 {
        top + seq![
            "| No devices were found                                                         |"@,
            "+-----------------------------------------------------------------------------+"@,
            Seq::<char>::empty(),
            "Note: discovered_host_gpus="@ + spec_decimal(discovered as nat)
                + " (none bound into NVML this process)"@,
        ]
    } else {
        let procs = spec_summary_processes(st, n);
        top + spec_summary_gpus(st, n) + spec_process_head() + (if procs.len() == 0 {
            seq!["|  No running processes found                                                 |"@]
        } else {
            procs
        }) + seq!["+-----------------------------------------------------------------------------+"@]
    }
}

/// Every GPU's name and bus id fit the buffers the table reads them into (64
/// and 32 bytes with the terminator).
pub open spec fn spec_summary_fits(st: NvmlState) -> bool {
    forall|i: int|
        0 <= i < st.gpus@.len() ==> vstd::utf8::encode_utf8(#[trigger] st.gpus@[i].name@).len() + 1
            <= 64 && vstd::utf8::encode_utf8(st.gpus@[i].pci_bus_id@).len() + 1 <= 32
}

fn push_line(lines: &mut Vec<String>, line: String)
    ensures
        spec_string_views(final(lines)@) == spec_string_views(old(lines)@).push(line@),
{
    lines.push(line);
    assert(spec_string_views(final(lines)@) =~= spec_string_views(old(lines)@).push(line@));
}

fn push_str(lines: &mut Vec<String>, line: &str)
    ensures
        spec_string_views(final(lines)@) == spec_string_views(old(lines)@).push(line@),
{
    push_line(lines, String::from_str(line));
}

fn append_cell(s: &mut String, online: bool, value: u32, unit: &str, width: usize)
    ensures
        final(s)@ == old(s)@ + spec_pad_left(spec_cell(online, value as nat, unit@), width as nat),
{
    let mut cell = String::new();
    if online {
        append_decimal(&mut cell, value as u64);
        cell.append(unit);
    } else {
        cell.append("N/A");
        proof {
            reveal_strlit("N/A");
        }
    }
    append_pad_left(s, cell.as_str(), width);
}

fn gpu_block(st: &NvmlState, i: usize) -> (block: Vec<String>)
    requires
        i < st.gpus@.len(),
    ensures
        spec_string_views(block@) == spec_summary_gpu(*st, i as int),
{
    let g = &st.gpus[i];
    let online = g.manifold.is_online();
    let mut block: Vec<String> = Vec::new();
    let mut l1 = String::from_str("| ");
    append_padded_decimal(&mut l1, i as u64, 3);
    l1.append("  ");
    let name = before_nul(g.name.as_str());
    append_truncated_name(&mut l1, name.as_str(), 18);
    l1.append("  ");
    append_pad_left(&mut l1, if g.persistence_mode {
        "On"
    } else {
        "Off"
    }, 3);
    l1.append("  | ");
    let bus = before_nul(g.pci_bus_id.as_str());
    append_pad_right(&mut l1, bus.as_str(), 16);
    l1.append("  On |                  N/A |");
    push_line(&mut block, l1);
    let used: u64 = if online {
        g.total_mem_bytes / 2
    } else {
        0
    };
    let mut l2 = String::from_str("| ");
    append_cell(&mut l2, online, ONLINE_FAN_SPEED_PERCENT, "%", 4);
    l2.append(" ");
    append_cell(&mut l2, online, ONLINE_TEMPERATURE_C, "C", 5);
    l2.append("  P0   ");
    append_cell(&mut l2, online, ONLINE_POWER_USAGE_MW / 1000, "W", 6);
    l2.append(" /");
    append_padded_decimal(&mut l2, (g.power_limit_mw / 1000) as u64, 4);
    l2.append("W |   ");
    append_padded_decimal(&mut l2, used / 0x10_0000, 5);
    l2.append("MiB / ");
    append_padded_decimal(&mut l2, g.total_mem_bytes / 0x10_0000, 5);
    l2.append("MiB |   ");
    append_cell(&mut l2, online, 0, "%", 5);
    l2.append("      Default |");
    push_line(&mut block, l2);
    push_str(&mut block, "|                               |                      |                  N/A |");
    let mut l4 = String::from_str("| Hermes: ");
    match hermes_nvml_format_device_line(st, i) {
        Some(line) => append_truncated_name(&mut l4, line.as_str(), 70),
        None => {},
    }
    l4.append(" |");
    push_line(&mut block, l4);
    let mut l5 = String::from_str("| brand=");
    l5.append(brand_name(brand_for_device(g.device_id, g.name.as_str())));
    l5.append(" sm");
    append_signed(&mut l5, g.compute_major as i32);
    l5.append(".");
    append_signed(&mut l5, g.compute_minor as i32);
    l5.append(" phase=");
    l5.append(g.manifold.phase.label());
    l5.append("                                        |");
    push_line(&mut block, l5);
    proof {
        reveal_strlit("| ");
        reveal_strlit("  ");
        reveal_strlit("On");
        reveal_strlit("Off");
        reveal_strlit("  | ");
        reveal_strlit("  On |                  N/A |");
        reveal_strlit("%");
        reveal_strlit(" ");
        reveal_strlit("C");
        reveal_strlit("  P0   ");
        reveal_strlit("W");
        reveal_strlit(" /");
        reveal_strlit("W |   ");
        reveal_strlit("MiB / ");
        reveal_strlit("MiB |   ");
        reveal_strlit("      Default |");
        reveal_strlit("| Hermes: ");
        reveal_strlit(" |");
        reveal_strlit("| brand=");
        reveal_strlit(" sm");
        reveal_strlit(".");
        reveal_strlit(" phase=");
        reveal_strlit("                                        |");
        assert(spec_string_views(block@) =~= spec_summary_gpu(*st, i as int));
    }
    block
}

fn strip_bars(s: &str) -> (r: &str)
    ensures
        r@ == spec_strip_bars(s@),
{
    let n = s.unicode_len();
    let mut i: usize = 0;
    proof {
        assert(s@.subrange(0, n as int) =~= s@);
    }
    while i < n && s.get_char(i) == '|'
        invariant
            i <= n,
            n == s@.len(),
            spec_strip_bars(s@) == spec_strip_bars(s@.subrange(i as int, n as int)),
        decreases n - i,
    {
        proof {
            assert(s@.subrange(i as int, n as int).drop_first() =~= s@.subrange(i + 1, n as int));
        }
        i = i + 1;
    }
    s.substring_char(i, n)
}

fn process_row(i: usize, line: &str) -> (row: String)
    ensures
        row@ == "|    "@ + spec_decimal(i as nat) + "   N/A  N/A  "@ + spec_trim(spec_strip_bars(line@))
            + " |"@,
{
    let mut row = String::from_str("|    ");
    append_decimal(&mut row, i as u64);
    row.append("   N/A  N/A  ");
    let t = strip_bars(line);
    let (a, b) = trim_bounds(t);
    row.append(t.substring_char(a, b));
    row.append(" |");
    row
}

/// The table `nvidia-smi` prints with no arguments (see
/// [`spec_summary_table`]). Counting the GPUs needs an initialised library,
/// and every name and bus id must fit the buffer it is read into.
pub fn smi_summary_lines(
    st: &NvmlState,
    driver_version: &str,
    cuda_version: i32,
    discovered: usize,
    stamp: &str,
) -> (lines: Vec<String>)
    requires
        st.initialized,
        st.gpus@.len() <= u32::MAX,
        spec_summary_fits(*st),
    ensures
        spec_string_views(lines@) == spec_summary_table(*st, driver_version@, cuda_version, discovered, stamp@),
{
    let mut lines: Vec<String> = Vec::new();
    push_str(&mut lines, stamp);
    push_str(&mut lines, "+-----------------------------------------------------------------------------+");
    let mut h2 = String::from_str("| NVIDIA-SMI Hermes-GSP  Driver Version: ");
    append_pad_right(&mut h2, driver_version, 20);
    h2.append("  CUDA Version: ");
    let mut cuda = String::new();
    append_cuda_text(&mut cuda, cuda_version);
    append_pad_right(&mut h2, cuda.as_str(), 6);
    h2.append(" |");
    push_line(&mut lines, h2);
    push_str(&mut lines, "+-------------------------------+----------------------+----------------------+");
    push_str(&mut lines, "| GPU  Name        Persistence-M| Bus-Id        Disp.A | Volatile Uncorr. ECC |");
    push_str(&mut lines, "| Fan  Temp  Perf  Pwr:Usage/Cap|         Memory-Usage | GPU-Util  Compute M. |");
    push_str(&mut lines, "|                               |                      |               MIG M. |");
    push_str(&mut lines, "|===============================+======================+======================|");
    proof {
        reveal_strlit("+-----------------------------------------------------------------------------+");
        reveal_strlit("| NVIDIA-SMI Hermes-GSP  Driver Version: ");
        reveal_strlit("  CUDA Version: ");
        reveal_strlit(" |");
        reveal_strlit("+-------------------------------+----------------------+----------------------+");
        reveal_strlit("| GPU  Name        Persistence-M| Bus-Id        Disp.A | Volatile Uncorr. ECC |");
        reveal_strlit("| Fan  Temp  Perf  Pwr:Usage/Cap|         Memory-Usage | GPU-Util  Compute M. |");
        reveal_strlit("|                               |                      |               MIG M. |");
        reveal_strlit("|===============================+======================+======================|");
        assert(spec_string_views(lines@) =~= seq![stamp@] + spec_summary_head(driver_version@, cuda_version));
    }
    let ghost top = spec_string_views(lines@);
    let n = st.gpus.len();
    if n == 0 {
        push_str(&mut lines, "| No devices were found                                                         |");
        push_str(&mut lines, "+-----------------------------------------------------------------------------+");
        push_str(&mut lines, "");
        let mut note = String::from_str("Note: discovered_host_gpus=");
        append_decimal(&mut note, discovered as u64);
        note.append(" (none bound into NVML this process)");
        push_line(&mut lines, note);
        proof {
            reveal_strlit("| No devices were found                                                         |");
            reveal_strlit("");
            assert(""@ =~= Seq::<char>::empty());
            reveal_strlit("Note: discovered_host_gpus=");
            reveal_strlit(" (none bound into NVML this process)");
            assert(spec_string_views(lines@) =~= spec_summary_table(
                *st,
                driver_version@,
                cuda_version,
                discovered,
                stamp@,
            ));
        }
        return lines;
    }
    let mut i: usize = 0;
    while i < n
        invariant
            i <= n,
            n == st.gpus@.len(),
            spec_string_views(lines@) == top + spec_summary_gpus(*st, i as int),
        decreases n - i,
    {
        let block = gpu_block(st, i);
        let ghost before = spec_string_views(lines@);
        let mut k: usize = 0;
        while k < block.len()
            invariant
                k <= block@.len(),
                spec_string_views(lines@) == before + spec_string_views(block@).subrange(0, k as int),
            decreases block@.len() - k,
        {
            let ghost b = spec_string_views(lines@);
            let line = block[k].clone();
            assert(line@ == block@[k as int]@);
            push_line(&mut lines, line);
            assert(spec_string_views(block@).subrange(0, k + 1) =~= spec_string_views(block@).subrange(
                0,
                k as int,
            ).push(block@[k as int]@));
            k = k + 1;
        }
        assert(spec_string_views(block@).subrange(0, block@.len() as int) =~= spec_string_views(block@));
        i = i + 1;
    }
    push_str(&mut lines, "+-------------------------------+----------------------+----------------------+");
    push_str(&mut lines, "");
    push_str(&mut lines, "+-----------------------------------------------------------------------------+");
    push_str(&mut lines, "| Processes:                                                                  |");
    push_str(&mut lines, "|  GPU   GI   CI        PID   Type   Process name                  GPU Memory |");
    push_str(&mut lines, "|        ID   ID                                                   Usage      |");
    push_str(&mut lines, "|=============================================================================|");
    proof {
        reveal_strlit("");
        assert(""@ =~= Seq::<char>::empty());
        reveal_strlit("| Processes:                                                                  |");
        reveal_strlit("|  GPU   GI   CI        PID   Type   Process name                  GPU Memory |");
        reveal_strlit("|        ID   ID                                                   Usage      |");
        reveal_strlit("|=============================================================================|");
        assert(spec_string_views(lines@) =~= top + spec_summary_gpus(*st, n as int) + spec_process_head());
    }
    let ghost mid = spec_string_views(lines@);
    let mid_len = lines.len();
    let mut j: usize = 0;
    while j < n
        invariant
            j <= n,
            n == st.gpus@.len(),
            mid_len == mid.len(),
            spec_string_views(lines@) == mid + spec_summary_processes(*st, j as int),
        decreases n - j,
    {
        let rows = hermes_nvml_format_process_lines(st, j);
        let ghost before = spec_string_views(lines@);
        let mut k: usize = 0;
        while k < rows.len()
            invariant
                k <= rows@.len(),
                j < st.gpus@.len(),
                rows@.len() == st.gpus@[j as int].processes@.len(),
                forall|q: int|
                    0 <= q < rows@.len() ==> (#[trigger] rows@[q])@ == spec_process_line(
                        st.gpus@[j as int].processes@[q].pid,
                        st.gpus@[j as int].processes@[q].name@,
                        st.gpus@[j as int].processes@[q].used_gpu_memory,
                    ),
                spec_string_views(lines@) == before + Seq::new(
                    k as nat,
                    |q: int| spec_summary_process(*st, j as int, q),
                ),
            decreases rows@.len() - k,
        {
            let row = process_row(j, rows[k].as_str());
            let ghost b = spec_string_views(lines@);
            proof {
                reveal_strlit("|    ");
                reveal_strlit("   N/A  N/A  ");
                reveal_strlit(" |");
            }
            push_line(&mut lines, row);
            assert(b.push(row@) =~= before + Seq::new(
                (k + 1) as nat,
                |q: int| spec_summary_process(*st, j as int, q),
            ));
            k = k + 1;
        }
        assert(spec_string_views(lines@) =~= mid + spec_summary_processes(*st, j + 1));
        j = j + 1;
    }
    let ghost procs = spec_summary_processes(*st, n as int);
    proof {
        reveal_strlit("|  No running processes found                                                 |");
        assert(spec_string_views(lines@).len() == lines@.len());
    }
    if lines.len() == mid_len {
        push_str(&mut lines, "|  No running processes found                                                 |");
    }
    push_str(&mut lines, "+-----------------------------------------------------------------------------+");
    proof {
        assert(spec_string_views(lines@) =~= spec_summary_table(
            *st,
            driver_version@,
            cuda_version,
            discovered,
            stamp@,
        ));
    }
    lines
}

} // verus!
