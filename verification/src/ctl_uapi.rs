//! Userspace mirror of the Hermes control and DRM character-device uAPI:
//! packed structures, module masks and ioctl request numbers. No I/O.

use vstd::prelude::*;

use crate::linux::modules;
use crate::text::concat2;

verus! {

/// Version of the control status structure.
pub const HERMES_CTL_STATUS_VERSION: u32 = 4;

/// Ioctl type byte ('H').
pub const HERMES_CTL_IOCTL_BASE: u8 = 0x48;

pub const HERMES_CTL_IOCTL_STATUS_NR: u8 = 0x10;

pub const HERMES_CTL_IOCTL_SIM_PROMOTE_NR: u8 = 0x11;

pub const HERMES_CTL_IOCTL_DEMOTE_NR: u8 = 0x12;

pub const HERMES_CTL_IOCTL_MEASURE_FW_NR: u8 = 0x13;

pub const HERMES_CTL_IOCTL_APPLY_EVIDENCE_NR: u8 = 0x14;

pub const HERMES_COMPANION_IOCTL_STATUS_NR: u8 = 0x20;

pub const HERMES_MOD_NVIDIA: u32 = 0x1;

pub const HERMES_MOD_MODESET: u32 = 0x2;

pub const HERMES_MOD_UVM: u32 = 0x4;

pub const HERMES_MOD_DRM: u32 = 0x8;

pub const HERMES_MOD_PEERMEM: u32 = 0x10;

/// Every module of the open stack.
pub const HERMES_MOD_ALL_OPEN_STACK: u32 = 0x1f;

/// `_IOC` direction bits.
pub const IOC_NONE: u64 = 0;

pub const IOC_WRITE: u64 = 1;

pub const IOC_READ: u64 = 2;

/// Byte sizes of the packed uAPI structures (C layout).
pub const HERMES_CTL_STATUS_BYTES: u64 = 16;

pub const HERMES_DRM_STATUS_BYTES: u64 = 20;

pub const HERMES_DRM_EDID_BYTES: u64 = 136;

pub const HERMES_DRM_PROP_GET_BYTES: u64 = 16;

pub const HERMES_MEASURE_FW_BYTES: u64 = 52;

pub const HERMES_APPLY_EVIDENCE_BYTES: u64 = 40;

/// The module mask of a companion set: `nvidia` always, the others when present.
pub open spec fn spec_module_mask(modeset: bool, uvm: bool, drm: bool, peermem: bool) -> u32 {
    (1 + (if modeset {
        2int
    } else {
        0
    }) + (if uvm {
        4int
    } else {
        0
    }) + (if drm {
        8int
    } else {
        0
    }) + (if peermem {
        16int
    } else {
        0
    })) as u32
}

/// Mask law: the mask is the nvidia bit with each present companion's bit
/// or-ed in, so it always names nvidia; none present is the nvidia bit alone,
/// all present is the whole open stack.
pub proof fn module_mask_law(modeset: bool, uvm: bool, drm: bool, peermem: bool)
    ensures
        spec_module_mask(modeset, uvm, drm, peermem) == HERMES_MOD_NVIDIA | (if modeset {
            HERMES_MOD_MODESET
        } else {
            0u32
        }) | (if uvm {
            HERMES_MOD_UVM
        } else {
            0u32
        }) | (if drm {
            HERMES_MOD_DRM
        } else {
            0u32
        }) | (if peermem {
            HERMES_MOD_PEERMEM
        } else {
            0u32
        }),
        spec_module_mask(modeset, uvm, drm, peermem) & HERMES_MOD_NVIDIA != 0,
        spec_module_mask(false, false, false, false) == 0x1,
        spec_module_mask(true, true, true, true) == HERMES_MOD_ALL_OPEN_STACK,
        spec_module_mask(true, false, true, false) == 0xb,
{
    let a: u32 = if modeset { 2 } else { 0 };
    let b: u32 = if uvm { 4 } else { 0 };
    let c: u32 = if drm { 8 } else { 0 };
    let d: u32 = if peermem { 16 } else { 0 };
    assert((a == 0 || a == 2) && (b == 0 || b == 4) && (c == 0 || c == 8) && (d == 0 || d == 16)
        ==> (1u32 | a | b | c | d) == 1 + a + b + c + d) by (bit_vector);
    assert((1u32 | a | b | c | d) & 1u32 != 0) by (bit_vector);
}

/// Composes the module mask from companion presence.
pub fn hermes_ctl_module_mask_compose(modeset: bool, uvm: bool, drm: bool, peermem: bool) -> (m:
    u32)
    ensures
        m == spec_module_mask(modeset, uvm, drm, peermem),
{
    let a: u32 = if modeset {
        HERMES_MOD_MODESET
    } else {
        0
    };
    let b: u32 = if uvm {
        HERMES_MOD_UVM
    } else {
        0
    };
    let c: u32 = if drm {
        HERMES_MOD_DRM
    } else {
        0
    };
    let d: u32 = if peermem {
        HERMES_MOD_PEERMEM
    } else {
        0
    };
    assert((1u32 | a | b | c | d) == 1 + a + b + c + d) by (bit_vector)
        requires
            a == 0 || a == 2,
            b == 0 || b == 4,
            c == 0 || c == 8,
            d == 0 || d == 16,
    ;
    HERMES_MOD_NVIDIA | a | b | c | d
}

/// Packed status of the control device.
#[derive(Clone, Copy, Debug, PartialEq, Eq, Structural)]
pub struct HermesCtlStatus {
    pub gsp_online: u32,
    pub phase: u32,
    pub version: u32,
    pub module_mask: u32,
}

impl Default for HermesCtlStatus {
    fn default() -> (s: Self)
        ensures
            s == (HermesCtlStatus { gsp_online: 0, phase: 0, version: 0, module_mask: 0 }),
    {
        HermesCtlStatus { gsp_online: 0, phase: 0, version: 0, module_mask: 0 }
    }
}

/// Names of the modules whose bits are set, in mask-bit order.
pub open spec fn spec_modules_listed(mask: u32) -> Seq<&'static str> {
    (if mask & HERMES_MOD_NVIDIA != 0 {
        seq![modules::NVIDIA]
    } else {
        Seq::empty()
    }) + (if mask & HERMES_MOD_MODESET != 0 {
        seq![modules::NVIDIA_MODESET]
    } else {
        Seq::empty()
    }) + (if mask & HERMES_MOD_UVM != 0 {
        seq![modules::NVIDIA_UVM]
    } else {
        Seq::empty()
    }) + (if mask & HERMES_MOD_DRM != 0 {
        seq![modules::NVIDIA_DRM]
    } else {
        Seq::empty()
    }) + (if mask & HERMES_MOD_PEERMEM != 0 {
        seq![modules::NVIDIA_PEERMEM]
    } else {
        Seq::empty()
    })
}

impl HermesCtlStatus {
    /// A status record of the current version.
    pub fn fill(online: bool, phase: u32, module_mask: u32) -> (s: Self)
        ensures
            s == (HermesCtlStatus {
                gsp_online: if online {
                    1
                } else {
                    0
                },
                phase,
                version: HERMES_CTL_STATUS_VERSION,
                module_mask,
            }),
    {
        HermesCtlStatus {
            gsp_online: if online {
                1
            } else {
                0
            },
            phase,
            version: HERMES_CTL_STATUS_VERSION,
            module_mask,
        }
    }

    pub fn is_online(&self) -> (b: bool)
        ensures
            b == (self.gsp_online != 0),
    {
        self.gsp_online != 0
    }

    /// Label of the phase code; codes past the lattice are "UNKNOWN".
    pub fn phase_label(&self) -> (s: &'static str)
        ensures
            s@ == (match self.phase {
                0 => "OFFLINE"@,
                1 => "PROBED"@,
                2 => "FIRMWARED"@,
                3 => "QUEUED"@,
                4 => "NEGOTIATED"@,
                5 => "ONLINE"@,
                6 => "RECOVERING"@,
                7 => "QUARANTINED"@,
                _ => "UNKNOWN"@,
            }),
    {
        match self.phase {
            0 => "OFFLINE",
            1 => "PROBED",
            2 => "FIRMWARED",
            3 => "QUEUED",
            4 => "NEGOTIATED",
            5 => "ONLINE",
            6 => "RECOVERING",
            7 => "QUARANTINED",
            _ => "UNKNOWN",
        }
    }

    /// The module names whose bits are set in the mask.
    pub fn modules_listed(&self) -> (v: Vec<&'static str>)
        ensures
            v@ == spec_modules_listed(self.module_mask),
    {
        let mask = self.module_mask;
        let mut v: Vec<&'static str> = Vec::new();
        if mask & HERMES_MOD_NVIDIA != 0 {
            v.push(modules::NVIDIA);
        }
        let ghost a = v@;
        if mask & HERMES_MOD_MODESET != 0 {
            v.push(modules::NVIDIA_MODESET);
        }
        let ghost b = v@;
        if mask & HERMES_MOD_UVM != 0 {
            v.push(modules::NVIDIA_UVM);
        }
        let ghost c = v@;
        if mask & HERMES_MOD_DRM != 0 {
            v.push(modules::NVIDIA_DRM);
        }
        let ghost d = v@;
        if mask & HERMES_MOD_PEERMEM != 0 {
            v.push(modules::NVIDIA_PEERMEM);
        }
        assert(v@ =~= spec_modules_listed(mask));
        v
    }
}

/// Linux `_IOC(dir, type, nr, size)`.
pub open spec fn spec_ioc(dir: u64, base: u8, nr: u8, size: u64) -> u64 {
    (dir << 30u64) | ((base as u64) << 8u64) | (nr as u64) | (size << 16u64)
}

fn ioc(dir: u64, base: u8, nr: u8, size: u64) -> (r: u64)
    ensures
        r == spec_ioc(dir, base, nr, size),
{
    (dir << 30u64) | ((base as u64) << 8u64) | (nr as u64) | (size << 16u64)
}

/// Encoding law: an `_IOC` request keeps its size in bits 16..29, its type byte
/// in bits 8..15, its number in bits 0..7 and its direction in bits 30..31; with
/// a nonzero type byte it is never zero.
pub proof fn ioctl_encoding_fields(dir: u64, base: u8, nr: u8, size: u64)
    requires
        dir < 4,
        size < 0x4000,
    ensures
        (spec_ioc(dir, base, nr, size) >> 16u64) & 0x3fff == size,
        (spec_ioc(dir, base, nr, size) >> 8u64) & 0xff == base as u64,
        spec_ioc(dir, base, nr, size) & 0xff == nr as u64,
        spec_ioc(dir, base, nr, size) >> 30u64 == dir,
        base != 0 ==> spec_ioc(dir, base, nr, size) != 0,
{
    let b = base as u64;
    let n = nr as u64;
    assert(b < 256 && n < 256 && dir < 4 && size < 0x4000 ==> {
        let r = (dir << 30u64) | (b << 8u64) | n | (size << 16u64);
        &&& (r >> 16u64) & 0x3fff == size
        &&& (r >> 8u64) & 0xff == b
        &&& r & 0xff == n
        &&& r >> 30u64 == dir
        &&& (b != 0 ==> r != 0)
    }) by (bit_vector);
}

/// `_IOR('H', 0x10, HermesCtlStatus)`.
pub fn hermes_ctl_ioctl_status() -> (r: u64)
    ensures
        r == spec_ioc(IOC_READ, HERMES_CTL_IOCTL_BASE, HERMES_CTL_IOCTL_STATUS_NR, HERMES_CTL_STATUS_BYTES),
{
    ioc(IOC_READ, HERMES_CTL_IOCTL_BASE, HERMES_CTL_IOCTL_STATUS_NR, HERMES_CTL_STATUS_BYTES)
}

/// DRM status structure.
#[derive(Clone, Copy, Debug, PartialEq, Eq, Structural)]
pub struct HermesDrmStatus {
    pub gsp_online: u32,
    pub connectors: u32,
    pub crtcs: u32,
    pub active_crtcs: u32,
    pub version: u32,
}

impl Default for HermesDrmStatus {
    fn default() -> (s: Self)
        ensures
            s == (HermesDrmStatus { gsp_online: 0, connectors: 0, crtcs: 0, active_crtcs: 0, version: 0 }),
    {
        HermesDrmStatus { gsp_online: 0, connectors: 0, crtcs: 0, active_crtcs: 0, version: 0 }
    }
}

pub const HERMES_DRM_IOCTL_BASE: u8 = 0x48;

pub const HERMES_DRM_IOCTL_STATUS_NR: u8 = 0x01;

pub const HERMES_DRM_IOCTL_GET_EDID_NR: u8 = 0x05;

pub const HERMES_DRM_IOCTL_GET_PROP_NR: u8 = 0x06;

pub const HERMES_DRM_EDID_MAX: usize = 128;

/// `_IOR('H', 0x01, HermesDrmStatus)`.
pub fn hermes_drm_ioctl_status() -> (r: u64)
    ensures
        r == spec_ioc(IOC_READ, HERMES_DRM_IOCTL_BASE, HERMES_DRM_IOCTL_STATUS_NR, HERMES_DRM_STATUS_BYTES),
{
    ioc(IOC_READ, HERMES_DRM_IOCTL_BASE, HERMES_DRM_IOCTL_STATUS_NR, HERMES_DRM_STATUS_BYTES)
}

/// Sum of the first `n` bytes of `data`.
pub open spec fn spec_byte_sum(data: Seq<u8>, n: int) -> int
    decreases n,
{
    if n <= 0 {
        0
    } else {
        spec_byte_sum(data, n - 1) + data[n - 1]
    }
}

/// The first 128 bytes of `data` sum to zero modulo 256.
pub open spec fn spec_block_checksum_ok(data: Seq<u8>) -> bool {
    spec_byte_sum(data, 128) % 256 == 0
}

/// Wrapping byte sum of the first 128 bytes.
pub fn block_checksum(data: &[u8]) -> (sum: u8)
    requires
        data@.len() >= 128,
    ensures
        sum == spec_byte_sum(data@, 128) % 256,
{
    let mut acc: u8 = 0;
    let mut i: usize = 0;
    while i < 128
        invariant
            i <= 128,
            data@.len() >= 128,
            acc == spec_byte_sum(data@, i as int) % 256,
        decreases 128 - i,
    {
        acc = acc.wrapping_add(data[i]);
        i = i + 1;
    }
    acc
}

/// Kernel EDID transfer record.
#[derive(Clone, Copy)]
pub struct HermesDrmEdid {
    pub connector_id: u32,
    pub size: u32,
    pub data: [u8; 128],
}

impl Default for HermesDrmEdid {
    fn default() -> (e: Self)
        ensures
            e.connector_id == 0,
            e.size == 0,
            e.data@ == Seq::new(128, |i: int| 0u8),
    {
        let e = HermesDrmEdid { connector_id: 0, size: 0, data: [0u8; 128] };
        assert(e.data@ =~= Seq::new(128, |i: int| 0u8));
        e
    }
}

impl HermesDrmEdid {
    /// A full 128-byte block whose bytes sum to zero.
    pub fn checksum_ok(&self) -> (b: bool)
        ensures
            b == (self.size >= 128 && spec_block_checksum_ok(self.data@)),
    {
        if self.size < 128 {
            return false;
        }
        block_checksum(&self.data) == 0
    }
}

/// Kernel property query record.
#[derive(Clone, Copy, Debug, PartialEq, Eq, Structural)]
pub struct HermesDrmPropGet {
    pub object_id: u32,
    pub prop_id: u32,
    pub value: u64,
}

impl Default for HermesDrmPropGet {
    fn default() -> (p: Self)
        ensures
            p == (HermesDrmPropGet { object_id: 0, prop_id: 0, value: 0 }),
    {
        HermesDrmPropGet { object_id: 0, prop_id: 0, value: 0 }
    }
}

pub const HERMES_DRM_PROP_EDID: u32 = 1;

pub const HERMES_DRM_PROP_DPMS: u32 = 2;

pub const HERMES_DRM_PROP_CRTC_ID: u32 = 3;

/// `_IOWR('H', 0x05, HermesDrmEdid)`.
pub fn hermes_drm_ioctl_get_edid() -> (r: u64)
    ensures
        r == spec_ioc(IOC_READ | IOC_WRITE, HERMES_DRM_IOCTL_BASE, HERMES_DRM_IOCTL_GET_EDID_NR, HERMES_DRM_EDID_BYTES),
{
    ioc(IOC_READ | IOC_WRITE, HERMES_DRM_IOCTL_BASE, HERMES_DRM_IOCTL_GET_EDID_NR, HERMES_DRM_EDID_BYTES)
}

/// `_IOWR('H', 0x06, HermesDrmPropGet)`.
pub fn hermes_drm_ioctl_get_prop() -> (r: u64)
    ensures
        r == spec_ioc(IOC_READ | IOC_WRITE, HERMES_DRM_IOCTL_BASE, HERMES_DRM_IOCTL_GET_PROP_NR, HERMES_DRM_PROP_GET_BYTES),
{
    ioc(IOC_READ | IOC_WRITE, HERMES_DRM_IOCTL_BASE, HERMES_DRM_IOCTL_GET_PROP_NR, HERMES_DRM_PROP_GET_BYTES)
}

/// `_IO('H', 0x11)`: no size or direction bits.
pub fn hermes_ctl_ioctl_sim_promote() -> (r: u64)
    ensures
        r == spec_ioc(IOC_NONE, HERMES_CTL_IOCTL_BASE, HERMES_CTL_IOCTL_SIM_PROMOTE_NR, 0),
{
    ioc(IOC_NONE, HERMES_CTL_IOCTL_BASE, HERMES_CTL_IOCTL_SIM_PROMOTE_NR, 0)
}

/// `_IO('H', 0x12)`.
pub fn hermes_ctl_ioctl_demote() -> (r: u64)
    ensures
        r == spec_ioc(IOC_NONE, HERMES_CTL_IOCTL_BASE, HERMES_CTL_IOCTL_DEMOTE_NR, 0),
{
    ioc(IOC_NONE, HERMES_CTL_IOCTL_BASE, HERMES_CTL_IOCTL_DEMOTE_NR, 0)
}

/// Firmware measurement exchange record.
#[derive(Clone, Copy, Debug)]
pub struct HermesMeasureFw {
    pub byte_length: u32,
    pub sha256: [u8; 32],
    pub admitted: u32,
    pub phase: u32,
    pub online: u32,
    pub status: u32,
}

impl Default for HermesMeasureFw {
    fn default() -> (m: Self)
        ensures
            m.byte_length == 0,
            m.sha256@ == Seq::new(32, |i: int| 0u8),
            m.admitted == 0,
            m.phase == 0,
            m.online == 0,
            m.status == 0,
    {
        let m = HermesMeasureFw {
            byte_length: 0,
            sha256: [0u8; 32],
            admitted: 0,
            phase: 0,
            online: 0,
            status: 0,
        };
        assert(m.sha256@ =~= Seq::new(32, |i: int| 0u8));
        m
    }
}

/// Evidence application exchange record.
#[derive(Clone, Copy, Debug, PartialEq, Eq, Structural)]
pub struct HermesApplyEvidence {
    pub iommu_isolated: u32,
    pub dma_domain: u32,
    pub wpr_locked: u32,
    pub mailbox_ok: u32,
    pub ready_ok: u32,
    pub use_measured_fw: u32,
    pub force_fw_measured: u32,
    pub phase: u32,
    pub online: u32,
    pub status: u32,
}

impl Default for HermesApplyEvidence {
    fn default() -> (e: Self)
        ensures
            e == (HermesApplyEvidence {
                iommu_isolated: 0,
                dma_domain: 0,
                wpr_locked: 0,
                mailbox_ok: 0,
                ready_ok: 0,
                use_measured_fw: 0,
                force_fw_measured: 0,
                phase: 0,
                online: 0,
                status: 0,
            }),
    {
        HermesApplyEvidence {
            iommu_isolated: 0,
            dma_domain: 0,
            wpr_locked: 0,
            mailbox_ok: 0,
            ready_ok: 0,
            use_measured_fw: 0,
            force_fw_measured: 0,
            phase: 0,
            online: 0,
            status: 0,
        }
    }
}

/// `_IOWR('H', 0x13, HermesMeasureFw)`.
pub fn hermes_ctl_ioctl_measure_fw() -> (r: u64)
    ensures
        r == spec_ioc(IOC_READ | IOC_WRITE, HERMES_CTL_IOCTL_BASE, HERMES_CTL_IOCTL_MEASURE_FW_NR, HERMES_MEASURE_FW_BYTES),
{
    ioc(IOC_READ | IOC_WRITE, HERMES_CTL_IOCTL_BASE, HERMES_CTL_IOCTL_MEASURE_FW_NR, HERMES_MEASURE_FW_BYTES)
}

/// `_IOWR('H', 0x14, HermesApplyEvidence)`.
pub fn hermes_ctl_ioctl_apply_evidence() -> (r: u64)
    ensures
        r == spec_ioc(IOC_READ | IOC_WRITE, HERMES_CTL_IOCTL_BASE, HERMES_CTL_IOCTL_APPLY_EVIDENCE_NR, HERMES_APPLY_EVIDENCE_BYTES),
{
    ioc(IOC_READ | IOC_WRITE, HERMES_CTL_IOCTL_BASE, HERMES_CTL_IOCTL_APPLY_EVIDENCE_NR, HERMES_APPLY_EVIDENCE_BYTES)
}

/// `_IOR('H', 0x20, HermesCtlStatus)` for the companion devices.
pub fn hermes_companion_ioctl_status() -> (r: u64)
    ensures
        r == spec_ioc(IOC_READ, HERMES_CTL_IOCTL_BASE, HERMES_COMPANION_IOCTL_STATUS_NR, HERMES_CTL_STATUS_BYTES),
{
    ioc(IOC_READ, HERMES_CTL_IOCTL_BASE, HERMES_COMPANION_IOCTL_STATUS_NR, HERMES_CTL_STATUS_BYTES)
}

/// The sysfs directory of a loaded module.
pub fn module_sysfs_path(name: &str) -> (p: String)
    ensures
        p@ == "/sys/module/"@ + name@,
{
    concat2("/sys/module/", name)
}

} // verus!
