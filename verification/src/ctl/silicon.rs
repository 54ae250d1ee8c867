//! The live host silicon probe: NVIDIA display-class PCI functions with their
//! driver, IOMMU group and BAR0, the staged GSP-RM images, and the blockers
//! that keep the host Offline. It never claims Online: it holds no WPR,
//! mailbox or ready-queue authority.

use vstd::prelude::*;
use vstd::string::*;

use crate::elf_gsp::{fwversion_bytes, parse_gsp_rm_elf};
use crate::fault::HermesFault;
use crate::firmware::{
    firmware_family_for_device, sha256_bytes, spec_firmware_family, FirmwareFamily,
    NvidiaGspFirmwareAuthority,
};
use crate::host_gate::{
    facts_from_sysfs, host_may_claim_online, host_online_blockers, spec_host_may_claim_online,
    spec_host_online_blockers, spec_is_foreign_gpu_driver, spec_is_hermes_or_nvidia_driver,
    HostDeviceFacts, HostGateBlocker,
};
use crate::layout::{chip_gsp_relative, openrm_gsp_relative, NvidiaChipDir};
use crate::nvml::discover::{spec_field, SysfsPciEntry};
use crate::ctl::chardev::spec_token_len;
use crate::nvml::parse::{parse_sysfs_hex, spec_is_whitespace, spec_parse_sysfs_hex, spec_trim_start};
use crate::pci::{
    admit_display_device, is_nvidia_turing_or_newer, pci_identity, spec_admit_display,
    spec_nvidia_architecture, AdmissionError, HermesPciIdentity, NVIDIA_VENDOR_ID,
    PCI_CLASS_DISPLAY,
};
use crate::sort::{sort_by_name, spec_stable_placement, spec_str_le, NamedRecord};
use crate::text::{append_hex, spec_hex_digits};

verus! {

/// One NVIDIA display-class PCI function as sysfs describes it.
#[derive(Clone, Debug)]
pub struct PciGpu {
    pub bdf: String,
    pub vendor: u16,
    pub device: u16,
    pub class_code: u8,
    pub subclass: u8,
    pub driver: Option<String>,
    pub iommu_group: Option<u32>,
    /// BAR0 as (start, length).
    pub bar0: Option<(u64, u64)>,
    pub sysfs: String,
}

/// What probing one staged GSP-RM image found.
#[derive(Clone, Debug)]
pub struct FirmwareProbe {
    pub path: String,
    pub length: u64,
    pub sha256: [u8; 32],
    pub admitted: bool,
    pub elf_ok: bool,
    pub version_field: Option<String>,
    pub reject: Option<String>,
}

/// What one host silicon probe found, and why the host stays Offline.
#[derive(Clone, Debug)]
pub struct SiliconReport {
    pub gpus: Vec<PciGpu>,
    pub firmware: Vec<FirmwareProbe>,
    pub online_claimed: bool,
    pub blockers: Vec<String>,
    /// Per Turing-or-newer GPU: its bus id, host gate facts, and whether the
    /// gate allows claiming Online.
    pub host_facts: Vec<(String, HostDeviceFacts, bool)>,
}

/// The outcome of opening and reading a GPU's BAR0 through sysfs.
#[derive(Clone, Debug)]
pub struct BarMapAttempt {
    pub bdf: String,
    pub path: String,
    pub ok: bool,
    pub bytes_readable: usize,
    pub error: Option<String>,
}

/// What the host gave for one Turing-or-newer GPU: its BAR0 attempt and the
/// probes of its firmware candidates that exist, in candidate order.
#[derive(Clone, Debug)]
pub struct GpuEvidence {
    pub bar: BarMapAttempt,
    pub firmware: Vec<FirmwareProbe>,
}

impl NamedRecord for PciGpu {
    open spec fn name_view(&self) -> Seq<char> {
        self.bdf@
    }

    fn record_name(&self) -> (n: &str) {
        self.bdf.as_str()
    }
}

/// The (vendor, device, class code, subclass) of a sysfs PCI function a scan
/// keeps: NVIDIA vendor, a readable device id, and the display class (from the
/// class field's bits 16 to 23, 0 when unreadable).
pub open spec fn spec_scanned(e: SysfsPciEntry) -> Option<(u16, u16, u8, u8)> {
    let class = (match spec_field(e.class, 0xffff_ffff_ffff_ffff) {
        Some(c) => c,
        None => 0,
    }) % 0x1_0000_0000;
    let class_code = ((class / 0x10000) % 0x100) as u8;
    let subclass = ((class / 0x100) % 0x100) as u8;
    match (spec_field(e.vendor, 0xffff), spec_field(e.device, 0xffff)) {
        (Some(v), Some(d)) => if v == NVIDIA_VENDOR_ID && class_code == PCI_CLASS_DISPLAY {
            Some((v as u16, d as u16, class_code, subclass))
        } else {
            None
        },
        _ => None,
    }
}

fn field(f: &Option<String>, max: u64) -> (r: Option<u64>)
    ensures
        match spec_field(*f, max as nat) {
            Some(v) => r == Some(v as u64),
            None => r is None,
        },
{
    match f {
        Some(s) => parse_sysfs_hex(s.as_str(), max),
        None => None,
    }
}

/// The identity a scan keeps of a sysfs PCI function (see [`spec_scanned`]).
pub fn scan_entry(e: &SysfsPciEntry) -> (r: Option<(u16, u16, u8, u8)>)
    ensures
        r == spec_scanned(*e),
{
    let vendor = match field(&e.vendor, 0xffff) {
        Some(v) => v,
        None => {
            return None;
        },
    };
    if vendor != NVIDIA_VENDOR_ID as u64 {
        return None;
    }
    let device = match field(&e.device, 0xffff) {
        Some(d) => d,
        None => {
            return None;
        },
    };
    let class_full = match field(&e.class, 0xffff_ffff_ffff_ffff) {
        Some(c) => c,
        None => 0,
    };
    let class = class_full % 0x1_0000_0000;
    let class_code = ((class / 0x10000) % 0x100) as u8;
    let subclass = ((class / 0x100) % 0x100) as u8;
    if class_code != PCI_CLASS_DISPLAY {
        return None;
    }
    Some((vendor as u16, device as u16, class_code, subclass))
}

/// The GPUs ordered by bus id, as `String` orders them; equal names keep their order.
pub fn sort_gpus_by_bdf(gpus: Vec<PciGpu>) -> (sorted: Vec<PciGpu>)
    ensures
        sorted@.to_multiset() == gpus@.to_multiset(),
        forall|i: int, j: int|
            0 <= i < j < sorted@.len() ==> spec_str_le(
                (#[trigger] sorted@[i]).bdf@,
                (#[trigger] sorted@[j]).bdf@,
            ),
        exists|perm: Seq<int>| #[trigger] spec_stable_placement(gpus@, sorted@, perm),
{
    sort_by_name(gpus)
}

/// Host gate facts of a scanned GPU, given whether its BAR0 could be mapped.
pub fn facts_for_gpu(gpu: &PciGpu, bar_mapped: bool) -> (f: HostDeviceFacts)
    ensures
        f.iommu_group == gpu.iommu_group,
        f.foreign_driver_bound == (gpu.driver matches Some(d) && spec_is_foreign_gpu_driver(d@)),
        f.hermes_driver_bound == (gpu.driver matches Some(d) && spec_is_hermes_or_nvidia_driver(d@)),
        f.bar0_described == gpu.bar0 is Some,
        f.bar0_mapped == bar_mapped,
{
    let driver: Option<&str> = match &gpu.driver {
        Some(d) => Some(d.as_str()),
        None => None,
    };
    facts_from_sysfs(gpu.iommu_group, driver, gpu.bar0.is_some(), bar_mapped)
}

/// The name `{:?}` gives a fault.
pub open spec fn spec_fault_name(f: HermesFault) -> Seq<char> {
    match f {
        HermesFault::NotNvidia => "NotNvidia"@,
        HermesFault::NotDisplayController => "NotDisplayController"@,
        HermesFault::UnsupportedArchitecture => "UnsupportedArchitecture"@,
        HermesFault::NoPersonality => "NoPersonality"@,
        HermesFault::AmbiguousPersonality => "AmbiguousPersonality"@,
        HermesFault::PersonalityCapacity => "PersonalityCapacity"@,
        HermesFault::PersonalityRejected => "PersonalityRejected"@,
        HermesFault::CompatibilityRejected => "CompatibilityRejected"@,
        HermesFault::ProfileRejected => "ProfileRejected"@,
        HermesFault::CodecRejected => "CodecRejected"@,
        HermesFault::FirmwareMissing => "FirmwareMissing"@,
        HermesFault::FirmwareUnexpected => "FirmwareUnexpected"@,
        HermesFault::FirmwareSize => "FirmwareSize"@,
        HermesFault::FirmwareAlignment => "FirmwareAlignment"@,
        HermesFault::FirmwareRejected => "FirmwareRejected"@,
        HermesFault::DeviceIsolation => "DeviceIsolation"@,
        HermesFault::BarUnavailable => "BarUnavailable"@,
        HermesFault::MmioOutOfRange => "MmioOutOfRange"@,
        HermesFault::MmioRead => "MmioRead"@,
        HermesFault::MmioWrite => "MmioWrite"@,
        HermesFault::UnstableMmio => "UnstableMmio"@,
        HermesFault::DmaAllocation => "DmaAllocation"@,
        HermesFault::DmaAccess => "DmaAccess"@,
        HermesFault::DmaAddressOverflow => "DmaAddressOverflow"@,
        HermesFault::QueueGeometry => "QueueGeometry"@,
        HermesFault::QueueFull => "QueueFull"@,
        HermesFault::QueueCorrupt => "QueueCorrupt"@,
        HermesFault::PendingCapacity => "PendingCapacity"@,
        HermesFault::DuplicateRequest => "DuplicateRequest"@,
        HermesFault::UnknownResponse => "UnknownResponse"@,
        HermesFault::ResponseMismatch => "ResponseMismatch"@,
        HermesFault::ResponseExpired => "ResponseExpired"@,
        HermesFault::ProtocolMismatch => "ProtocolMismatch"@,
        HermesFault::RequiredFeatureMissing => "RequiredFeatureMissing"@,
        HermesFault::BootFuelExhausted => "BootFuelExhausted"@,
        HermesFault::BootInstructionRejected => "BootInstructionRejected"@,
        HermesFault::DeadlineExpired => "DeadlineExpired"@,
        HermesFault::DeviceFault => "DeviceFault"@,
        HermesFault::RecoveryRequired => "RecoveryRequired"@,
        HermesFault::CorrelationSpaceExhausted => "CorrelationSpaceExhausted"@,
        HermesFault::ArithmeticOverflow => "ArithmeticOverflow"@,
    }
}

pub fn fault_name(f: HermesFault) -> (s: &'static str)
    ensures
        s@ == spec_fault_name(f),
{
    match f {
        HermesFault::NotNvidia => "NotNvidia",
        HermesFault::NotDisplayController => "NotDisplayController",
        HermesFault::UnsupportedArchitecture => "UnsupportedArchitecture",
        HermesFault::NoPersonality => "NoPersonality",
        HermesFault::AmbiguousPersonality => "AmbiguousPersonality",
        HermesFault::PersonalityCapacity => "PersonalityCapacity",
        HermesFault::PersonalityRejected => "PersonalityRejected",
        HermesFault::CompatibilityRejected => "CompatibilityRejected",
        HermesFault::ProfileRejected => "ProfileRejected",
        HermesFault::CodecRejected => "CodecRejected",
        HermesFault::FirmwareMissing => "FirmwareMissing",
        HermesFault::FirmwareUnexpected => "FirmwareUnexpected",
        HermesFault::FirmwareSize => "FirmwareSize",
        HermesFault::FirmwareAlignment => "FirmwareAlignment",
        HermesFault::FirmwareRejected => "FirmwareRejected",
        HermesFault::DeviceIsolation => "DeviceIsolation",
        HermesFault::BarUnavailable => "BarUnavailable",
        HermesFault::MmioOutOfRange => "MmioOutOfRange",
        HermesFault::MmioRead => "MmioRead",
        HermesFault::MmioWrite => "MmioWrite",
        HermesFault::UnstableMmio => "UnstableMmio",
        HermesFault::DmaAllocation => "DmaAllocation",
        HermesFault::DmaAccess => "DmaAccess",
        HermesFault::DmaAddressOverflow => "DmaAddressOverflow",
        HermesFault::QueueGeometry => "QueueGeometry",
        HermesFault::QueueFull => "QueueFull",
        HermesFault::QueueCorrupt => "QueueCorrupt",
        HermesFault::PendingCapacity => "PendingCapacity",
        HermesFault::DuplicateRequest => "DuplicateRequest",
        HermesFault::UnknownResponse => "UnknownResponse",
        HermesFault::ResponseMismatch => "ResponseMismatch",
        HermesFault::ResponseExpired => "ResponseExpired",
        HermesFault::ProtocolMismatch => "ProtocolMismatch",
        HermesFault::RequiredFeatureMissing => "RequiredFeatureMissing",
        HermesFault::BootFuelExhausted => "BootFuelExhausted",
        HermesFault::BootInstructionRejected => "BootInstructionRejected",
        HermesFault::DeadlineExpired => "DeadlineExpired",
        HermesFault::DeviceFault => "DeviceFault",
        HermesFault::RecoveryRequired => "RecoveryRequired",
        HermesFault::CorrelationSpaceExhausted => "CorrelationSpaceExhausted",
        HermesFault::ArithmeticOverflow => "ArithmeticOverflow",
    }
}

/// The name `{:?}` gives an admission error.
pub open spec fn spec_admission_error_name(e: AdmissionError) -> Seq<char> {
    match e {
        AdmissionError::NotNvidia => "NotNvidia"@,
        AdmissionError::NotDisplayController => "NotDisplayController"@,
        AdmissionError::UnsupportedArchitecture => "UnsupportedArchitecture"@,
        AdmissionError::InvalidIdentity => "InvalidIdentity"@,
    }
}

pub fn admission_error_name(e: AdmissionError) -> (s: &'static str)
    ensures
        s@ == spec_admission_error_name(e),
{
    match e {
        AdmissionError::NotNvidia => "NotNvidia",
        AdmissionError::NotDisplayController => "NotDisplayController",
        AdmissionError::UnsupportedArchitecture => "UnsupportedArchitecture",
        AdmissionError::InvalidIdentity => "InvalidIdentity",
    }
}

/// The text `String::from_utf8_lossy` makes of `bytes`: their UTF-8
/// decoding, each invalid sequence replaced by U+FFFD. It depends on the bytes
/// alone.
pub uninterp spec fn spec_utf8_lossy(bytes: Seq<u8>) -> Seq<char>;

/// `String::from_utf8_lossy`. Trusted: the text is [`spec_utf8_lossy`] of the
/// bytes, and for valid UTF-8 it is their decoding. What replaces an invalid
/// sequence is left to the name.
#[verifier::external_body]
pub(crate) fn utf8_lossy(bytes: &[u8]) -> (s: String)
    ensures
        s@ == spec_utf8_lossy(bytes@),
        vstd::utf8::valid_utf8(bytes@) ==> s@ == vstd::utf8::decode_utf8(bytes@),
{
    String::from_utf8_lossy(bytes).into_owned()
}

/// Probes one staged image read from `path` against `auth` (the probe uses
/// the default allow-list): its length and digest, whether it is admitted for
/// `device_id` (and if not, why), whether it parses as a GSP-RM ELF, and its
/// version note.
pub fn firmware_probe_from_bytes(
    auth: &NvidiaGspFirmwareAuthority,
    path: &str,
    device_id: u16,
    bytes: &[u8],
) -> (p: FirmwareProbe)
    ensures
        p.path@ == path@,
        p.length == bytes@.len(),
        p.sha256@ == crate::firmware::spec_sha256(bytes@),
        p.admitted == crate::firmware::spec_admit(auth.allow(), device_id, bytes@) is Ok,
        p.elf_ok == crate::elf_gsp::spec_parse_gsp_rm_elf(bytes@) is Some,
        p.reject is None <==> p.admitted,
        crate::firmware::spec_admit(auth.allow(), device_id, bytes@) is Err ==> (p.reject matches Some(
            r,
        ) && r@ == spec_fault_name(
            crate::firmware::spec_admit(auth.allow(), device_id, bytes@)->Err_0,
        )),
        crate::elf_gsp::spec_parse_gsp_rm_elf(bytes@) is None ==> p.version_field is None,
        crate::elf_gsp::spec_parse_gsp_rm_elf(bytes@) is Some ==> (crate::elf_gsp::spec_fwversion_bytes(
            bytes@,
            crate::elf_gsp::spec_parse_gsp_rm_elf(bytes@)->0,
        ) is None <==> p.version_field is None),
        p.version_field matches Some(v) ==> v@ == spec_utf8_lossy(
            crate::elf_gsp::spec_fwversion_bytes(
                bytes@,
                crate::elf_gsp::spec_parse_gsp_rm_elf(bytes@)->0,
            )->Some_0,
        ),
{
    let digest = sha256_bytes(bytes);
    let verdict = auth.admit_image(device_id, bytes);
    let elf = parse_gsp_rm_elf(bytes);
    let version_field = match &elf {
        Ok(e) => match fwversion_bytes(bytes, e) {
            Ok(v) => Some(utf8_lossy(v)),
            Err(_) => None,
        },
        Err(_) => None,
    };
    let reject = match verdict {
        Ok(_) => None,
        Err(e) => Some(String::from_str(fault_name(e))),
    };
    FirmwareProbe {
        path: String::from_str(path),
        length: bytes.len() as u64,
        sha256: digest,
        admitted: verdict.is_ok(),
        elf_ok: elf.is_ok(),
        version_field,
        reject,
    }
}

/// The characters of `s` before its first newline.
pub open spec fn spec_first_line(s: Seq<char>) -> Seq<char>
    decreases s.len(),
{
    if s.len() == 0 {
        s
    } else if s[0] == '\n' {
        Seq::empty()
    } else {
        seq![s[0]] + spec_first_line(s.drop_first())
    }
}

/// The first whitespace-separated token of `s` and what follows it.
pub open spec fn spec_next_token(s: Seq<char>) -> Option<(Seq<char>, Seq<char>)> {
    let t = spec_trim_start(s);
    if t.len() == 0 {
        None
    } else {
        let n = spec_token_len(t);
        Some((t.subrange(0, n as int), t.subrange(n as int, t.len() as int)))
    }
}

/// BAR0 as (start, length) from the first line of a sysfs `resource` file
/// (`start end flags`, in hexadecimal); `None` when unreadable or all zero.
pub open spec fn spec_resource0(text: Seq<char>) -> Option<(u64, u64)> {
    let line = spec_first_line(text);
    match spec_next_token(line) {
        Some((a, rest)) => match spec_next_token(rest) {
            Some((b, _)) => match (
                spec_parse_sysfs_hex(a, 0xffff_ffff_ffff_ffff),
                spec_parse_sysfs_hex(b, 0xffff_ffff_ffff_ffff),
            ) {
                (Some(start), Some(end)) => if start == 0 && end == 0 {
                    None
                } else {
                    let span: int = if end >= start {
                        end - start
                    } else {
                        0
                    };
                    Some(
                        (
                            start as u64,
                            (if span + 1 > u64::MAX {
                                u64::MAX as int
                            } else {
                                span + 1
                            }) as u64,
                        ),
                    )
                },
                _ => None,
            },
            None => None,
        },
        None => None,
    }
}

proof fn lemma_token_len_bound(s: Seq<char>)
    ensures
        spec_token_len(s) <= s.len(),
    decreases s.len(),
{
    if s.len() > 0 && !spec_is_whitespace(s[0]) {
        lemma_token_len_bound(s.drop_first());
    }
}

fn is_ws(c: char) -> (b: bool)
    ensures
        b == spec_is_whitespace(c),
{
    let v = c as u32;
    (0x9 <= v && v <= 0xd) || v == 0x20 || v == 0x85 || v == 0xa0 || v == 0x1680 || (0x2000 <= v
        && v <= 0x200a) || v == 0x2028 || v == 0x2029 || v == 0x202f || v == 0x205f || v == 0x3000
}

/// The bounds of the first token of `s[from..]` (see [`spec_next_token`]).
pub(crate) fn next_token(s: &str, from: usize) -> (r: Option<(usize, usize)>)
    requires
        from <= s@.len(),
    ensures
        match spec_next_token(s@.subrange(from as int, s@.len() as int)) {
            Some((t, rest)) => r matches Some((a, b)) && from <= a < b <= s@.len() && t == s@.subrange(
                a as int,
                b as int,
            ) && rest == s@.subrange(b as int, s@.len() as int),
            None => r is None,
        },
{
    let n = s.unicode_len();
    let mut a: usize = from;
    while a < n && is_ws(s.get_char(a))
        invariant
            from <= a <= n,
            n == s@.len(),
            spec_trim_start(s@.subrange(from as int, n as int)) == spec_trim_start(
                s@.subrange(a as int, n as int),
            ),
        decreases n - a,
    {
        proof {
            assert(s@.subrange(a as int, n as int).drop_first() =~= s@.subrange(a + 1, n as int));
        }
        a = a + 1;
    }
    proof {
        if a < n {
            assert(s@.subrange(a as int, n as int)[0] == s@[a as int]);
        }
    }
    if a == n {
        proof {
            assert(s@.subrange(a as int, n as int).len() == 0);
        }
        return None;
    }
    let ghost t = s@.subrange(a as int, n as int);
    let mut b: usize = a;
    while b < n && !is_ws(s.get_char(b))
        invariant
            a <= b <= n,
            n == s@.len(),
            t == s@.subrange(a as int, n as int),
            spec_token_len(t) == (b - a) + spec_token_len(s@.subrange(b as int, n as int)),
        decreases n - b,
    {
        proof {
            assert(s@.subrange(b as int, n as int).drop_first() =~= s@.subrange(b + 1, n as int));
        }
        b = b + 1;
    }
    proof {
        assert(spec_token_len(s@.subrange(b as int, n as int)) == 0);
        lemma_token_len_bound(t);
        assert(t.subrange(0, (b - a) as int) =~= s@.subrange(a as int, b as int));
        assert(t.subrange((b - a) as int, t.len() as int) =~= s@.subrange(b as int, n as int));
    }
    Some((a, b))
}

/// BAR0 as (start, length) from a sysfs `resource` file (see
/// [`spec_resource0`]).
pub fn parse_resource0(text: &str) -> (r: Option<(u64, u64)>)
    ensures
        r == spec_resource0(text@),
{
    let total = text.unicode_len();
    let mut end: usize = 0;
    proof {
        assert(text@.subrange(0, total as int) =~= text@);
        assert(text@.subrange(0, 0) + spec_first_line(text@) =~= spec_first_line(text@));
    }
    while end < total && text.get_char(end) != '\n'
        invariant
            end <= total,
            total == text@.len(),
            spec_first_line(text@) == text@.subrange(0, end as int) + spec_first_line(
                text@.subrange(end as int, total as int),
            ),
        decreases total - end,
    {
        proof {
            let rest = text@.subrange(end as int, total as int);
            assert(rest.drop_first() =~= text@.subrange(end + 1, total as int));
            assert(text@.subrange(0, end + 1) =~= text@.subrange(0, end as int) + seq![rest[0]]);
        }
        end = end + 1;
    }
    proof {
        assert(text@.subrange(0, total as int) =~= text@);
        assert(text@.subrange(end as int, total as int).len() == 0 || text@.subrange(
            end as int,
            total as int,
        )[0] == '\n');
        assert(text@.subrange(0, end as int) + Seq::<char>::empty() =~= text@.subrange(0, end as int));
    }
    let line = text.substring_char(0, end);
    let n = line.unicode_len();
    proof {
        assert(line@.subrange(0, n as int) =~= line@);
    }
    let (a0, a1) = match next_token(line, 0) {
        Some(t) => t,
        None => {
            return None;
        },
    };
    let (b0, b1) = match next_token(line, a1) {
        Some(t) => t,
        None => {
            return None;
        },
    };
    let start = match parse_sysfs_hex(line.substring_char(a0, a1), 0xffff_ffff_ffff_ffff) {
        Some(v) => v,
        None => {
            return None;
        },
    };
    let stop = match parse_sysfs_hex(line.substring_char(b0, b1), 0xffff_ffff_ffff_ffff) {
        Some(v) => v,
        None => {
            return None;
        },
    };
    if start == 0 && stop == 0 {
        return None;
    }
    Some((start, stop.saturating_sub(start).saturating_add(1)))
}

/// The GSP-RM images probed for a GPU, relative to the firmware root: the
/// OpenRM 610.43.02 image of its family (TU10x when unknown), and for TU10x
/// also the TU117 570.144 image under both of its names.
pub fn firmware_candidates(device_id: u16) -> (paths: Vec<String>)
    ensures
        paths@.len() == (if spec_firmware_family(device_id) is None || spec_firmware_family(device_id)
            == Some(FirmwareFamily::Tu10x) {
            3int
        } else {
            1int
        }),
        paths@[0]@ == "nvidia/"@ + "610.43.02"@ + "/"@ + crate::layout::spec_gsp_basename(
            match spec_firmware_family(device_id) {
                Some(f) => f,
                None => FirmwareFamily::Tu10x,
            },
        ),
        paths@.len() == 3 ==> paths@[1]@ == "nvidia/"@ + crate::layout::spec_chip_name(
            crate::layout::spec_gsp_canonical(NvidiaChipDir::Tu117),
        ) + "/gsp/gsp-"@ + "570.144"@ + ".bin"@,
        paths@.len() == 3 ==> paths@[2]@ == "nvidia/tu117/gsp/gsp-570.144.bin"@,
{
    let family = match firmware_family_for_device(device_id) {
        Some(f) => f,
        None => FirmwareFamily::Tu10x,
    };
    let mut paths: Vec<String> = Vec::new();
    paths.push(openrm_gsp_relative("610.43.02", family));
    if family == FirmwareFamily::Tu10x {
        paths.push(chip_gsp_relative(NvidiaChipDir::Tu117, "570.144"));
        paths.push(String::from_str("nvidia/tu117/gsp/gsp-570.144.bin"));
    }
    paths
}

/// The images probed when no GPU yielded one: the OpenRM 610.43.02 images of
/// TU10x and GA10x, each with a device id of its family.
pub fn fallback_firmware_candidates() -> (c: Vec<(String, u16)>)
    ensures
        c@.len() == 2,
        c@[0].0@ == "nvidia/"@ + "610.43.02"@ + "/"@ + crate::layout::spec_gsp_basename(
            FirmwareFamily::Tu10x,
        ),
        c@[0].1 == 0x1fb9,
        c@[1].0@ == "nvidia/"@ + "610.43.02"@ + "/"@ + crate::layout::spec_gsp_basename(
            FirmwareFamily::Ga10x,
        ),
        c@[1].1 == 0x2204,
{
    let mut c: Vec<(String, u16)> = Vec::new();
    c.push((openrm_gsp_relative("610.43.02", FirmwareFamily::Tu10x), 0x1fb9u16));
    c.push((openrm_gsp_relative("610.43.02", FirmwareFamily::Ga10x), 0x2204u16));
    c
}

pub open spec fn spec_is_turing(g: PciGpu) -> bool {
    spec_nvidia_architecture(g.device) is Some
}

/// Host gate facts of a GPU given whether its BAR0 could be mapped.
pub open spec fn spec_gpu_facts(g: PciGpu, bar_mapped: bool) -> HostDeviceFacts {
    HostDeviceFacts {
        iommu_group: g.iommu_group,
        foreign_driver_bound: g.driver is Some && spec_is_foreign_gpu_driver(g.driver->0@),
        hermes_driver_bound: g.driver is Some && spec_is_hermes_or_nvidia_driver(g.driver->0@),
        bar0_described: g.bar0 is Some,
        bar0_mapped: bar_mapped,
    }
}

pub open spec fn spec_blocker_text(b: HostGateBlocker) -> Seq<char> {
    match b {
        HostGateBlocker::NoIommuGroup => "no IOMMU group \u{2014} Online impossible"@,
        HostGateBlocker::ForeignDriver => "foreign driver bound \u{2014} unbind before Hermes GSP BAR map"@,
        HostGateBlocker::BarNotDescribed => "BAR0 not described in PCI resource"@,
        HostGateBlocker::BarNotMapped => "BAR0 not mapped (privilege or driver ownership)"@,
    }
}

/// The blockers one GPU contributes: for a pre-Turing GPU its rejection; else
/// its host gate blockers, its failed BAR0 map, and its refused admission.
pub open spec fn spec_gpu_blockers(g: PciGpu, ev: Option<GpuEvidence>) -> Seq<Seq<char>> {
    if !spec_is_turing(g) {
        seq![g.bdf@ + " device "@ + spec_hex_digits(g.device as nat, 4) + " is pre-Turing \u{2014} Hermes rejects"@]
    } else {
        let e = ev->0;
        let facts = spec_gpu_facts(g, e.bar.ok);
        let gate = spec_host_online_blockers(facts).map_values(
            |b: HostGateBlocker| g.bdf@ + ": "@ + spec_blocker_text(b),
        );
        let bar = if !e.bar.ok {
            seq![g.bdf@ + " BAR0 map attempt failed: "@ + (match e.bar.error {
                Some(m) => m@,
                None => "unknown"@,
            })]
        } else {
            Seq::empty()
        };
        let adm = match spec_admit_display(
            crate::nvml::discover::spec_sysfs_identity(g.vendor, g.device, g.class_code, g.subclass),
        ) {
            Err(err) => seq![g.bdf@ + " admission: "@ + spec_admission_error_name(err)],
            Ok(_) => Seq::empty(),
        };
        gate + bar + adm
    }
}

/// The blockers of the first `n` GPUs, in GPU order.
pub open spec fn spec_blockers_upto(gpus: Seq<PciGpu>, ev: Seq<Option<GpuEvidence>>, n: int) -> Seq<Seq<char>>
    decreases n,
{
    if n <= 0 {
        Seq::empty()
    } else {
        spec_blockers_upto(gpus, ev, n - 1) + spec_gpu_blockers(gpus[n - 1], ev[n - 1])
    }
}

/// The firmware probes of the first `n` GPUs that are Turing or newer.
pub open spec fn spec_firmware_upto(gpus: Seq<PciGpu>, ev: Seq<Option<GpuEvidence>>, n: int) -> Seq<FirmwareProbe>
    decreases n,
{
    if n <= 0 {
        Seq::empty()
    } else {
        spec_firmware_upto(gpus, ev, n - 1) + if spec_is_turing(gpus[n - 1]) {
            ev[n - 1]->0.firmware@
        } else {
            Seq::empty()
        }
    }
}

/// The host gate verdicts of the first `n` GPUs that are Turing or newer.
pub open spec fn spec_facts_upto(gpus: Seq<PciGpu>, ev: Seq<Option<GpuEvidence>>, n: int) -> Seq<(Seq<char>, HostDeviceFacts, bool)>
    decreases n,
{
    if n <= 0 {
        Seq::empty()
    } else {
        let prev = spec_facts_upto(gpus, ev, n - 1);
        let g = gpus[n - 1];
        if spec_is_turing(g) {
            let f = spec_gpu_facts(g, ev[n - 1]->0.bar.ok);
            prev.push((g.bdf@, f, spec_host_may_claim_online(f)))
        } else {
            prev
        }
    }
}

pub open spec fn spec_string_views(v: Seq<String>) -> Seq<Seq<char>> {
    Seq::new(v.len(), |i: int| v[i]@)
}

/// The blockers of a whole probe: no GPU at all, then each GPU's, then no
/// admitted image, then no Turing-or-newer GPU.
pub open spec fn spec_silicon_blockers(
    gpus: Seq<PciGpu>,
    ev: Seq<Option<GpuEvidence>>,
    firmware: Seq<FirmwareProbe>,
) -> Seq<Seq<char>> {
    let none = if gpus.len() == 0 {
        seq!["no NVIDIA display-class PCI devices in sysfs"@]
    } else {
        Seq::empty()
    };
    let any_admitted = exists|k: int| 0 <= k < firmware.len() && (#[trigger] firmware[k]).admitted;
    let any_turing = exists|k: int| 0 <= k < gpus.len() && spec_is_turing(#[trigger] gpus[k]);
    let no_image = if !any_admitted {
        seq!["no GSP-RM image admitted from firmware root"@]
    } else {
        Seq::empty()
    };
    let no_turing = if !any_turing && gpus.len() > 0 {
        seq!["no Turing+ GPU present"@]
    } else {
        Seq::empty()
    };
    none + spec_blockers_upto(gpus, ev, gpus.len() as int) + no_image + no_turing
}

fn push_text(v: &mut Vec<String>, s: String)
    ensures
        spec_string_views(final(v)@) == spec_string_views(old(v)@).push(s@),
{
    v.push(s);
    assert(spec_string_views(v@) =~= spec_string_views(old(v)@).push(s@));
}

/// The blockers one Turing-or-newer GPU contributes (see [`spec_gpu_blockers`]).
fn gpu_blockers(g: &PciGpu, e: &GpuEvidence, out: &mut Vec<String>)
    requires
        spec_is_turing(*g),
    ensures
        spec_string_views(final(out)@) == spec_string_views(old(out)@) + spec_gpu_blockers(*g, Some(*e)),
{
    let ghost start = spec_string_views(out@);
    let facts = facts_for_gpu(g, e.bar.ok);
    let gate = host_online_blockers(&facts);
    let ghost gate_text = spec_host_online_blockers(facts).map_values(
        |b: HostGateBlocker| g.bdf@ + ": "@ + spec_blocker_text(b),
    );
    let mut k: usize = 0;
    while k < gate.len()
        invariant
            k <= gate@.len(),
            gate@ == spec_host_online_blockers(facts),
            gate_text == spec_host_online_blockers(facts).map_values(
                |b: HostGateBlocker| g.bdf@ + ": "@ + spec_blocker_text(b),
            ),
            spec_string_views(out@) == start + gate_text.subrange(0, k as int),
        decreases gate@.len() - k,
    {
        let mut line = String::from_str(g.bdf.as_str());
        line.append(": ");
        line.append(gate[k].as_str());
        push_text(out, line);
        proof {
            assert(gate_text.subrange(0, k + 1) =~= gate_text.subrange(0, k as int).push(gate_text[k as int]));
        }
        k = k + 1;
    }
    proof {
        assert(gate_text.subrange(0, gate@.len() as int) =~= gate_text);
    }
    let ghost after_gate = spec_string_views(out@);
    if !e.bar.ok {
        let mut line = String::from_str(g.bdf.as_str());
        line.append(" BAR0 map attempt failed: ");
        match &e.bar.error {
            Some(m) => line.append(m.as_str()),
            None => line.append("unknown"),
        }
        push_text(out, line);
    }
    let ghost after_bar = spec_string_views(out@);
    let id = pci_identity(g.vendor, g.device, g.class_code, g.subclass);
    match admit_display_device(&id) {
        Err(err) => {
            let mut line = String::from_str(g.bdf.as_str());
            line.append(" admission: ");
            line.append(admission_error_name(err));
            push_text(out, line);
        },
        Ok(_) => {},
    }
    proof {
        let want = spec_gpu_blockers(*g, Some(*e));
        assert(spec_string_views(out@) =~= start + want);
    }
}

/// Assembles a silicon report from the scanned GPUs, what the host gave for
/// each (`None` for a pre-Turing GPU, which is not probed further), and the
/// fallback image probes used when no GPU yielded one. Online is never claimed.
pub fn assemble_silicon_report(
    gpus: Vec<PciGpu>,
    evidence: Vec<Option<GpuEvidence>>,
    fallback: Vec<FirmwareProbe>,
) -> (r: SiliconReport)
    requires
        gpus@.len() == evidence@.len(),
        forall|i: int| 0 <= i < gpus@.len() && spec_is_turing(#[trigger] gpus@[i]) ==> evidence@[i] is Some,
    ensures
        r.gpus@ == gpus@,
        !r.online_claimed,
        r.firmware@ == (if spec_firmware_upto(gpus@, evidence@, gpus@.len() as int).len() == 0 {
            fallback@
        } else {
            spec_firmware_upto(gpus@, evidence@, gpus@.len() as int)
        }),
        spec_string_views(r.blockers@) == spec_silicon_blockers(gpus@, evidence@, r.firmware@),
        r.host_facts@.len() == spec_facts_upto(gpus@, evidence@, gpus@.len() as int).len(),
        forall|k: int|
            0 <= k < r.host_facts@.len() ==> (#[trigger] r.host_facts@[k]).0@ == spec_facts_upto(
                gpus@,
                evidence@,
                gpus@.len() as int,
            )[k].0 && r.host_facts@[k].1 == spec_facts_upto(gpus@, evidence@, gpus@.len() as int)[k].1
                && r.host_facts@[k].2 == spec_facts_upto(gpus@, evidence@, gpus@.len() as int)[k].2,
{
    let mut blockers: Vec<String> = Vec::new();
    proof {
        assert(spec_string_views(blockers@) =~= Seq::<Seq<char>>::empty());
    }
    if gpus.len() == 0 {
        push_text(&mut blockers, String::from_str("no NVIDIA display-class PCI devices in sysfs"));
    }
    let ghost head = spec_string_views(blockers@);
    let mut firmware: Vec<FirmwareProbe> = Vec::new();
    let mut host_facts: Vec<(String, HostDeviceFacts, bool)> = Vec::new();
    let mut any_turing = false;
    let ghost all_ev = evidence@;
    let mut rest = evidence;
    let mut i: usize = 0;
    while i < gpus.len()
        invariant
            i <= gpus@.len(),
            gpus@.len() == all_ev.len(),
            rest@ == all_ev.subrange(i as int, all_ev.len() as int),
            forall|q: int| 0 <= q < gpus@.len() && spec_is_turing(#[trigger] gpus@[q]) ==> all_ev[q] is Some,
            spec_string_views(blockers@) == head + spec_blockers_upto(gpus@, all_ev, i as int),
            firmware@ == spec_firmware_upto(gpus@, all_ev, i as int),
            host_facts@.len() == spec_facts_upto(gpus@, all_ev, i as int).len(),
            forall|k: int|
                0 <= k < host_facts@.len() ==> (#[trigger] host_facts@[k]).0@ == spec_facts_upto(
                    gpus@,
                    all_ev,
                    i as int,
                )[k].0 && host_facts@[k].1 == spec_facts_upto(gpus@, all_ev, i as int)[k].1
                    && host_facts@[k].2 == spec_facts_upto(gpus@, all_ev, i as int)[k].2,
            any_turing == exists|q: int| 0 <= q < i && spec_is_turing(#[trigger] gpus@[q]),
        decreases gpus@.len() - i,
    {
        let g = &gpus[i];
        let ev = rest.remove(0);
        proof {
            assert(ev == all_ev[i as int]);
            assert(rest@ =~= all_ev.subrange(i + 1, all_ev.len() as int));
        }
        if !is_nvidia_turing_or_newer(g.device) {
            let mut line = String::from_str(g.bdf.as_str());
            line.append(" device ");
            append_hex(&mut line, g.device as u64, 4);
            line.append(" is pre-Turing \u{2014} Hermes rejects");
            push_text(&mut blockers, line);
            proof {
                assert(spec_string_views(blockers@) =~= head + spec_blockers_upto(gpus@, all_ev, i + 1));
                assert(spec_firmware_upto(gpus@, all_ev, i + 1) =~= firmware@);
                assert(spec_facts_upto(gpus@, all_ev, i + 1) == spec_facts_upto(gpus@, all_ev, i as int));
            }
        } else {
            any_turing = true;
            match ev {
                Some(mut e) => {
                    let ghost e0 = e;
                    let facts = facts_for_gpu(g, e.bar.ok);
                    let may = host_may_claim_online(&facts);
                    let ghost hf_before = host_facts@;
                    host_facts.push((String::from_str(g.bdf.as_str()), facts, may));
                    gpu_blockers(g, &e, &mut blockers);
                    let ghost fw_before = firmware@;
                    firmware.append(&mut e.firmware);
                    proof {
                        assert(firmware@ == fw_before + e0.firmware@);
                        assert(spec_string_views(blockers@) =~= head + spec_blockers_upto(gpus@, all_ev, i + 1));
                        let fu = spec_facts_upto(gpus@, all_ev, i + 1);
                        assert(fu == spec_facts_upto(gpus@, all_ev, i as int).push(
                            (g.bdf@, facts, may),
                        ));
                        assert forall|k: int| 0 <= k < host_facts@.len() implies (
                        #[trigger] host_facts@[k]).0@ == fu[k].0 && host_facts@[k].1 == fu[k].1
                            && host_facts@[k].2 == fu[k].2 by {
                            if k < hf_before.len() {
                                assert(host_facts@[k] == hf_before[k]);
                            }
                        }
                    }
                },
                None => {},
            }
        }
        i = i + 1;
    }
    let ghost gpu_firmware = firmware@;
    proof {
        assert(spec_string_views(blockers@) == head + spec_blockers_upto(gpus@, all_ev, gpus@.len() as int));
    }
    if firmware.len() == 0 {
        firmware = fallback;
    }
    let mut any_admitted = false;
    let mut k: usize = 0;
    while k < firmware.len()
        invariant
            k <= firmware@.len(),
            any_admitted == exists|q: int| 0 <= q < k && (#[trigger] firmware@[q]).admitted,
        decreases firmware@.len() - k,
    {
        if firmware[k].admitted {
            any_admitted = true;
        }
        k = k + 1;
    }
    if !any_admitted {
        push_text(&mut blockers, String::from_str("no GSP-RM image admitted from firmware root"));
    }
    if !any_turing && gpus.len() > 0 {
        push_text(&mut blockers, String::from_str("no Turing+ GPU present"));
    }
    SiliconReport { gpus, firmware, online_claimed: false, blockers, host_facts }
}

} // verus!
