//! The decisions of an `nvidia-modprobe` front end: its options, which
//! modules and device nodes an invocation asks for, and the character-device
//! major and minor numbers a node needs. Loading and node creation stay with
//! the host; nothing here claims that either succeeded.

use vstd::prelude::*;
use vstd::string::*;

use crate::ctl::silicon::{next_token, spec_next_token};
use crate::linux::modules;
use crate::nvml::format::spec_contains;
use crate::nvml::parse::{from_decimal_range, spec_from_radix};
use crate::text::{append_decimal, spec_decimal, str_contains, str_ends_with, str_eq, str_starts_with};

verus! {

/// What an invocation asks for.
#[derive(Clone, Copy, Debug, PartialEq, Eq, Structural)]
pub struct ModprobeOpts {
    pub verbose: bool,
    pub uvm: bool,
    pub modeset: bool,
    pub drm: bool,
    pub peermem: bool,
    /// Load the core `nvidia` module.
    pub core: bool,
    /// Create the `/dev/nvidia*` nodes.
    pub create_devices: bool,
    /// Minor of `/dev/nvidiaN`.
    pub minor: Option<u32>,
    /// Report module and node state only.
    pub status: bool,
    pub help: bool,
}

pub open spec fn spec_no_opts() -> ModprobeOpts {
    ModprobeOpts {
        verbose: false,
        uvm: false,
        modeset: false,
        drm: false,
        peermem: false,
        core: false,
        create_devices: false,
        minor: None,
        status: false,
        help: false,
    }
}

impl Default for ModprobeOpts {
    fn default() -> (o: Self)
        ensures
            o == spec_no_opts(),
    {
        ModprobeOpts {
            verbose: false,
            uvm: false,
            modeset: false,
            drm: false,
            peermem: false,
            core: false,
            create_devices: false,
            minor: None,
            status: false,
            help: false,
        }
    }
}

/// `str::parse::<u32>`.
pub open spec fn spec_parse_u32(s: Seq<char>) -> Option<u32> {
    match spec_from_radix(s, 10, u32::MAX as nat) {
        Some(v) => Some(v as u32),
        None => None,
    }
}

/// One option of `args` at `i` applied to `o`: where the next option starts,
/// the options so far, and whether `--` ended the list; an unknown option is
/// refused with its message.
pub open spec fn spec_parse_step(args: Seq<Seq<char>>, i: int, o: ModprobeOpts) -> Result<
    (int, ModprobeOpts, bool),
    Seq<char>,
> {
    let a = args[i];
    if a == "-h"@ || a == "--help"@ {
        Ok((i + 1, ModprobeOpts { help: true, ..o }, false))
    } else if a == "-v"@ || a == "--verbose"@ {
        Ok((i + 1, ModprobeOpts { verbose: true, ..o }, false))
    } else if a == "-u"@ || a == "--uvm"@ {
        Ok((i + 1, ModprobeOpts { uvm: true, ..o }, false))
    } else if a == "-m"@ || a == "--modeset"@ {
        Ok((i + 1, ModprobeOpts { modeset: true, ..o }, false))
    } else if a == "--drm"@ {
        Ok((i + 1, ModprobeOpts { drm: true, ..o }, false))
    } else if a == "--peermem"@ {
        Ok((i + 1, ModprobeOpts { peermem: true, ..o }, false))
    } else if a == "-s"@ || a == "--create-devices"@ {
        Ok((i + 1, ModprobeOpts { create_devices: true, ..o }, false))
    } else if a == "--status"@ {
        Ok((i + 1, ModprobeOpts { status: true, ..o }, false))
    } else if a == "-c"@ {
        match if i + 1 < args.len() {
            spec_parse_u32(args[i + 1])
        } else {
            None
        } {
            Some(n) => Ok((i + 2, ModprobeOpts { create_devices: true, minor: Some(n), ..o }, false)),
            None => Ok((i + 1, ModprobeOpts { create_devices: true, minor: Some(0), ..o }, false)),
        }
    } else if a.len() > 2 && a.subrange(0, 2) == "-c"@ {
        Ok(
            (
                i + 1,
                ModprobeOpts {
                    create_devices: true,
                    minor: Some(
                        match spec_parse_u32(a.subrange(2, a.len() as int)) {
                            Some(n) => n,
                            None => 0,
                        },
                    ),
                    ..o
                },
                false,
            ),
        )
    } else if a == "--"@ {
        Ok((i + 1, o, true))
    } else {
        Err("nvidia-modprobe: unknown option '"@ + a + "' (try --help)"@)
    }
}

/// The options `args[i..]` give on top of `o`; an unknown option is refused
/// with its message, and `--` ends the options.
pub open spec fn spec_parse_args(args: Seq<Seq<char>>, i: int, o: ModprobeOpts) -> Result<
    ModprobeOpts,
    Seq<char>,
>
    decreases args.len() - i,
{
    if i < 0 || i >= args.len() {
        Ok(o)
    } else {
        match spec_parse_step(args, i, o) {
            Err(m) => Err(m),
            Ok((j, o2, stop)) => if stop || j <= i {
                Ok(o2)
            } else {
                spec_parse_args(args, j, o2)
            },
        }
    }
}

/// The views of a list of strings.
pub open spec fn spec_arg_views(args: Seq<String>) -> Seq<Seq<char>> {
    Seq::new(args.len(), |i: int| args[i]@)
}

fn parse_u32(s: &str) -> (r: Option<u32>)
    ensures
        r == spec_parse_u32(s@),
{
    proof {
        assert(s@.subrange(0, s@.len() as int) =~= s@);
    }
    match from_decimal_range(s, 0, s.unicode_len(), 0xffff_ffff) {
        Some(v) => Some(v as u32),
        None => None,
    }
}

fn parse_step(args: &Vec<String>, i: usize, o: ModprobeOpts) -> (r: Result<(usize, ModprobeOpts, bool), String>)
    requires
        i < args.len(),
    ensures
        match spec_parse_step(spec_arg_views(args@), i as int, o) {
            Ok((j, o2, stop)) => r matches Ok((j2, o3, stop2)) && j2 == j && o3 == o2 && stop2 == stop,
            Err(m) => r matches Err(e) && e@ == m,
        },
{
    let ghost views = spec_arg_views(args@);
    let a = args[i].as_str();
    assert(a@ == views[i as int]);
    if str_eq(a, "-h") || str_eq(a, "--help") {
        return Ok((i + 1, ModprobeOpts { help: true, ..o }, false));
    }
    if str_eq(a, "-v") || str_eq(a, "--verbose") {
        return Ok((i + 1, ModprobeOpts { verbose: true, ..o }, false));
    }
    if str_eq(a, "-u") || str_eq(a, "--uvm") {
        return Ok((i + 1, ModprobeOpts { uvm: true, ..o }, false));
    }
    if str_eq(a, "-m") || str_eq(a, "--modeset") {
        return Ok((i + 1, ModprobeOpts { modeset: true, ..o }, false));
    }
    if str_eq(a, "--drm") {
        return Ok((i + 1, ModprobeOpts { drm: true, ..o }, false));
    }
    if str_eq(a, "--peermem") {
        return Ok((i + 1, ModprobeOpts { peermem: true, ..o }, false));
    }
    if str_eq(a, "-s") || str_eq(a, "--create-devices") {
        return Ok((i + 1, ModprobeOpts { create_devices: true, ..o }, false));
    }
    if str_eq(a, "--status") {
        return Ok((i + 1, ModprobeOpts { status: true, ..o }, false));
    }
    if str_eq(a, "-c") {
        let next = if i + 1 < args.len() {
            assert(args@[i + 1]@ == views[i + 1]);
            parse_u32(args[i + 1].as_str())
        } else {
            None
        };
        return match next {
            Some(n) => Ok((i + 2, ModprobeOpts { create_devices: true, minor: Some(n), ..o }, false)),
            None => Ok((i + 1, ModprobeOpts { create_devices: true, minor: Some(0), ..o }, false)),
        };
    }
    if str_starts_with(a, "-c") && a.unicode_len() > 2 {
        proof {
            reveal_strlit("-c");
        }
        let minor = match parse_u32(a.substring_char(2, a.unicode_len())) {
            Some(n) => n,
            None => 0,
        };
        return Ok((i + 1, ModprobeOpts { create_devices: true, minor: Some(minor), ..o }, false));
    }
    proof {
        reveal_strlit("-c");
    }
    if str_eq(a, "--") {
        return Ok((i + 1, o, true));
    }
    let mut m = String::from_str("nvidia-modprobe: unknown option '");
    m.append(a);
    m.append("' (try --help)");
    Err(m)
}

/// The options of an argument list (see [`spec_parse_args`]).
pub fn parse_args(args: &Vec<String>) -> (r: Result<ModprobeOpts, String>)
    ensures
        match spec_parse_args(spec_arg_views(args@), 0, spec_no_opts()) {
            Ok(o) => r == Ok::<ModprobeOpts, String>(o),
            Err(m) => r matches Err(e) && e@ == m,
        },
{
    let ghost views = spec_arg_views(args@);
    let mut o = ModprobeOpts::default();
    let mut i: usize = 0;
    while i < args.len()
        invariant
            i <= args@.len() + 1,
            views == spec_arg_views(args@),
            views.len() == args@.len(),
            spec_parse_args(views, 0, spec_no_opts()) == spec_parse_args(views, i as int, o),
        decreases args@.len() + 1 - i,
    {
        match parse_step(args, i, o) {
            Err(e) => {
                return Err(e);
            },
            Ok((j, o2, stop)) => {
                if stop {
                    return Ok(o2);
                }
                o = o2;
                i = j;
            },
        }
    }
    Ok(o)
}

/// No action and no report was asked for.
pub open spec fn spec_nothing_requested(o: ModprobeOpts) -> bool {
    !o.uvm && !o.modeset && !o.drm && !o.peermem && !o.core && !o.create_devices && o.minor is None
        && !o.status
}

pub fn nothing_requested(o: &ModprobeOpts) -> (b: bool)
    ensures
        b == spec_nothing_requested(*o),
{
    !o.uvm && !o.modeset && !o.drm && !o.peermem && !o.core && !o.create_devices && o.minor.is_none()
        && !o.status
}

/// What an invocation does: whether it reports state, and the actions it then
/// runs. A bare invocation reports, then loads the core module and creates the
/// nodes for minor 0.
pub open spec fn spec_plan(o: ModprobeOpts) -> (bool, Option<ModprobeOpts>) {
    if o.status || spec_nothing_requested(o) {
        (
            true,
            if spec_nothing_requested(o) && !o.status {
                Some(ModprobeOpts { core: true, create_devices: true, minor: Some(0), ..o })
            } else {
                None
            },
        )
    } else {
        (false, Some(o))
    }
}

/// The report and actions of an invocation (see [`spec_plan`]).
pub fn plan(o: &ModprobeOpts) -> (r: (bool, Option<ModprobeOpts>))
    ensures
        r == spec_plan(*o),
{
    let nothing = nothing_requested(o);
    if o.status || nothing {
        if nothing && !o.status {
            (true, Some(ModprobeOpts { core: true, create_devices: true, minor: Some(0), ..*o }))
        } else {
            (true, None)
        }
    } else {
        (false, Some(*o))
    }
}

/// The modules an action set loads, in order: the core module first whenever
/// anything needs it, then the companions asked for.
pub open spec fn spec_wanted_modules(o: ModprobeOpts) -> Seq<Seq<char>> {
    (if o.core || o.create_devices || o.uvm {
        seq![modules::NVIDIA@]
    } else {
        Seq::empty()
    }) + (if o.uvm {
        seq![modules::NVIDIA_UVM@]
    } else {
        Seq::empty()
    }) + (if o.modeset {
        seq![modules::NVIDIA_MODESET@]
    } else {
        Seq::empty()
    }) + (if o.drm {
        seq![modules::NVIDIA_DRM@]
    } else {
        Seq::empty()
    }) + (if o.peermem {
        seq![modules::NVIDIA_PEERMEM@]
    } else {
        Seq::empty()
    })
}

/// The modules an action set loads (see [`spec_wanted_modules`]).
pub fn wanted_modules(o: &ModprobeOpts) -> (names: Vec<&'static str>)
    ensures
        Seq::new(names@.len(), |i: int| names@[i]@) == spec_wanted_modules(*o),
{
    let mut names: Vec<&'static str> = Vec::new();
    if o.core || o.create_devices || o.uvm {
        names.push(modules::NVIDIA);
    }
    if o.uvm {
        names.push(modules::NVIDIA_UVM);
    }
    if o.modeset {
        names.push(modules::NVIDIA_MODESET);
    }
    if o.drm {
        names.push(modules::NVIDIA_DRM);
    }
    if o.peermem {
        names.push(modules::NVIDIA_PEERMEM);
    }
    assert(Seq::new(names@.len(), |i: int| names@[i]@) =~= spec_wanted_modules(*o));
    names
}

/// The nodes created for minor `minor`, in byte order (no two coincide).
pub open spec fn spec_device_paths(minor: u32) -> Seq<Seq<char>> {
    seq![
        "/dev/nvidia-drm"@,
        "/dev/nvidia-modeset"@,
        "/dev/nvidia-uvm"@,
        "/dev/nvidia"@ + spec_decimal(minor as nat),
        "/dev/nvidiactl"@,
    ]
}

/// The nodes created for minor `minor` (see [`spec_device_paths`]).
pub fn device_paths_for_create(minor: u32) -> (paths: Vec<String>)
    ensures
        Seq::new(paths@.len(), |i: int| paths@[i]@) == spec_device_paths(minor),
{
    let mut paths: Vec<String> = Vec::new();
    paths.push(String::from_str("/dev/nvidia-drm"));
    paths.push(String::from_str("/dev/nvidia-modeset"));
    paths.push(String::from_str("/dev/nvidia-uvm"));
    let mut numbered = String::from_str("/dev/nvidia");
    append_decimal(&mut numbered, minor as u64);
    paths.push(numbered);
    paths.push(String::from_str("/dev/nvidiactl"));
    assert(Seq::new(paths@.len(), |i: int| paths@[i]@) =~= spec_device_paths(minor));
    paths
}

/// `s` begins with `p`.
pub open spec fn spec_has_prefix(s: Seq<char>, p: Seq<char>) -> bool {
    p.len() <= s.len() && s.subrange(0, p.len() as int) == p
}

/// `s` ends with `p`.
pub open spec fn spec_has_suffix(s: Seq<char>, p: Seq<char>) -> bool {
    p.len() <= s.len() && s.subrange(s.len() - p.len(), s.len() as int) == p
}

/// The digits at the end of `s` (none when it ends otherwise).
pub open spec fn spec_trailing_digits(s: Seq<char>) -> Seq<char>
    decreases s.len(),
{
    if s.len() > 0 && '0' <= s.last() <= '9' {
        spec_trailing_digits(s.drop_last()).push(s.last())
    } else {
        Seq::empty()
    }
}

/// The minor number of a node: 255 for the control and modeset nodes, 0 for
/// the UVM and DRM nodes, else the number `/dev/nvidiaN` ends with (0 when it
/// has none or it does not fit).
pub open spec fn spec_minor_for_path(path: Seq<char>) -> u32 {
    if spec_has_suffix(path, "nvidiactl"@) || spec_has_suffix(path, "nvidia-modeset"@) {
        255
    } else if spec_contains(path, "nvidia-uvm"@) || spec_contains(path, "nvidia-drm"@) {
        0
    } else {
        match spec_parse_u32(spec_trailing_digits(path)) {
            Some(n) => n,
            None => 0,
        }
    }
}

/// The minor number of a node (see [`spec_minor_for_path`]).
pub fn minor_for_path(path: &str) -> (m: u32)
    ensures
        m == spec_minor_for_path(path@),
{
    if str_ends_with(path, "nvidiactl") || str_ends_with(path, "nvidia-modeset") {
        return 255;
    }
    if str_contains(path, "nvidia-uvm") || str_contains(path, "nvidia-drm") {
        return 0;
    }
    let n = path.unicode_len();
    let mut k: usize = n;
    proof {
        assert(path@.subrange(0, n as int) =~= path@);
        assert(path@ + path@.subrange(n as int, n as int) =~= path@);
    }
    while k > 0 && '0' <= path.get_char(k - 1) && path.get_char(k - 1) <= '9'
        invariant
            k <= n,
            n == path@.len(),
            spec_trailing_digits(path@) == spec_trailing_digits(path@.subrange(0, k as int))
                + path@.subrange(k as int, n as int),
        decreases k,
    {
        proof {
            let p = path@.subrange(0, k as int);
            assert(p.drop_last() =~= path@.subrange(0, k - 1));
            assert(path@.subrange(k - 1, n as int) =~= seq![p.last()] + path@.subrange(
                k as int,
                n as int,
            ));
        }
        k = k - 1;
    }
    proof {
        let p = path@.subrange(0, k as int);
        assert(spec_trailing_digits(p) =~= Seq::<char>::empty());
        assert(path@.subrange(0, n as int) =~= path@);
    }
    match parse_u32(path.substring_char(k, n)) {
        Some(v) => v,
        None => 0,
    }
}

/// Scan state over `/proc/devices` lines: inside the character section,
/// past its end, and the majors of `nvidia` (or `nvidia-frontend`),
/// `nvidia-uvm` and, for a modeset node, `nvidia-modeset`.
#[derive(Clone, Copy, Debug, PartialEq, Eq, Structural)]
pub struct MajorScan {
    pub in_char: bool,
    pub stopped: bool,
    pub nvidia: Option<u32>,
    pub uvm: Option<u32>,
    pub modeset: Option<u32>,
}

/// The major and the name a character-section line gives.
pub open spec fn spec_line_entry(line: Seq<char>) -> (Option<u32>, Seq<char>) {
    match spec_next_token(line) {
        None => (None, Seq::empty()),
        Some((first, rest)) => (
            spec_parse_u32(first),
            match spec_next_token(rest) {
                Some((second, _)) => second,
                None => Seq::empty(),
            },
        ),
    }
}

/// The scan after one more line.
pub open spec fn spec_major_step(st: MajorScan, line: Seq<char>, path: Seq<char>) -> MajorScan {
    if st.stopped || st.modeset is Some {
        st
    } else if spec_has_prefix(line, "Character devices:"@) {
        MajorScan { in_char: true, ..st }
    } else if spec_has_prefix(line, "Block devices:"@) {
        MajorScan { stopped: true, ..st }
    } else if !st.in_char {
        st
    } else {
        let (major, name) = spec_line_entry(line);
        match major {
            None => st,
            Some(m) => MajorScan {
                nvidia: if name == "nvidia"@ || name == "nvidia-frontend"@ {
                    Some(m)
                } else {
                    st.nvidia
                },
                uvm: if name == "nvidia-uvm"@ {
                    Some(m)
                } else {
                    st.uvm
                },
                modeset: if name == "nvidia-modeset"@ && spec_contains(path, "modeset"@) {
                    Some(m)
                } else {
                    None
                },
                ..st
            },
        }
    }
}

/// The scan over the first `n` lines.
pub open spec fn spec_major_scan(lines: Seq<Seq<char>>, path: Seq<char>, n: int) -> MajorScan
    decreases n,
{
    if n <= 0 {
        MajorScan { in_char: false, stopped: false, nvidia: None, uvm: None, modeset: None }
    } else {
        spec_major_step(spec_major_scan(lines, path, n - 1), lines[n - 1], path)
    }
}

/// The character-device major of a node from the lines of `/proc/devices`:
/// `nvidia-modeset`'s for a modeset node when listed, else for a UVM node
/// `nvidia-uvm`'s or failing that `nvidia`'s, else `nvidia`'s (the last
/// listing of each wins).
pub open spec fn spec_char_major(lines: Seq<Seq<char>>, path: Seq<char>) -> Option<u32> {
    let st = spec_major_scan(lines, path, lines.len() as int);
    match st.modeset {
        Some(m) => Some(m),
        None => if spec_contains(path, "uvm"@) {
            match st.uvm {
                Some(m) => Some(m),
                None => st.nvidia,
            }
        } else {
            st.nvidia
        },
    }
}

fn line_entry(line: &str) -> (r: (Option<u32>, String))
    ensures
        r.0 == spec_line_entry(line@).0,
        r.1@ == spec_line_entry(line@).1,
{
    proof {
        assert(line@.subrange(0, line@.len() as int) =~= line@);
    }
    match next_token(line, 0) {
        None => (None, String::new()),
        Some((a, b)) => {
            let major = parse_u32(line.substring_char(a, b));
            let name = match next_token(line, b) {
                Some((c, d)) => String::from_str(line.substring_char(c, d)),
                None => String::new(),
            };
            (major, name)
        },
    }
}

/// The major of a node (see [`spec_char_major`]).
pub fn char_major_for_path(lines: &Vec<String>, path: &str) -> (r: Option<u32>)
    ensures
        r == spec_char_major(spec_arg_views(lines@), path@),
{
    let ghost views = spec_arg_views(lines@);
    let wants_modeset = str_contains(path, "modeset");
    let mut st = MajorScan { in_char: false, stopped: false, nvidia: None, uvm: None, modeset: None };
    let mut i: usize = 0;
    while i < lines.len()
        invariant
            i <= lines@.len(),
            views == spec_arg_views(lines@),
            wants_modeset == spec_contains(path@, "modeset"@),
            st == spec_major_scan(views, path@, i as int),
        decreases lines@.len() - i,
    {
        let line = lines[i].as_str();
        assert(line@ == views[i as int]);
        if st.stopped || st.modeset.is_some() {
        } else if str_starts_with(line, "Character devices:") {
            st.in_char = true;
        } else if str_starts_with(line, "Block devices:") {
            st.stopped = true;
        } else {
            if st.in_char {
                let (major, name) = line_entry(line);
                if let Some(m) = major {
                    if str_eq(name.as_str(), "nvidia") || str_eq(name.as_str(), "nvidia-frontend") {
                        st.nvidia = Some(m);
                    }
                    if str_eq(name.as_str(), "nvidia-uvm") {
                        st.uvm = Some(m);
                    }
                    if str_eq(name.as_str(), "nvidia-modeset") && wants_modeset {
                        st.modeset = Some(m);
                    }
                }
            }
        }
        i = i + 1;
    }
    proof {
        assert(views.len() == lines@.len());
    }
    match st.modeset {
        Some(m) => Some(m),
        None => if str_contains(path, "uvm") {
            match st.uvm {
                Some(m) => Some(m),
                None => st.nvidia,
            }
        } else {
            st.nvidia
        },
    }
}

} // verus!
