//! Host-side isolation and BAR readiness gates (pure logic, fail-closed).
use vstd::prelude::*;

use crate::fault::HermesFault;
use crate::text::str_eq;

verus! {

/// Snapshot of host sysfs facts for one NVIDIA display GPU.
#[derive(Clone, Copy, Debug, PartialEq, Eq, Structural)]
pub struct HostDeviceFacts {
    /// Present when `/sys/.../iommu_group` resolves to a group id.
    pub iommu_group: Option<u32>,
    /// True when a foreign driver (Nouveau, vfio, …) owns the device.
    pub foreign_driver_bound: bool,
    /// True when Hermes/nvidia personality is bound.
    pub hermes_driver_bound: bool,
    /// True when BAR0 resource node exists and reports a nonzero window.
    pub bar0_described: bool,
    /// True only after a real open/mmap of `resource0` succeeded.
    pub bar0_mapped: bool,
}

impl HostDeviceFacts {
    pub fn empty() -> (f: Self)
        ensures
            f == (HostDeviceFacts {
                iommu_group: None,
                foreign_driver_bound: false,
                hermes_driver_bound: false,
                bar0_described: false,
                bar0_mapped: false,
            }),
    {
        HostDeviceFacts {
            iommu_group: None,
            foreign_driver_bound: false,
            hermes_driver_bound: false,
            bar0_described: false,
            bar0_mapped: false,
        }
    }

    /// Isolated domain available, Hermes bound, BAR described and mapped.
    pub fn sim_ready() -> (f: Self)
        ensures
            f == (HostDeviceFacts {
                iommu_group: Some(1),
                foreign_driver_bound: false,
                hermes_driver_bound: true,
                bar0_described: true,
                bar0_mapped: true,
            }),
    {
        HostDeviceFacts {
            iommu_group: Some(1),
            foreign_driver_bound: false,
            hermes_driver_bound: true,
            bar0_described: true,
            bar0_mapped: true,
        }
    }
}

/// Why host Online is forbidden (operator-facing).
#[derive(Clone, Copy, Debug, PartialEq, Eq, Structural)]
pub enum HostGateBlocker {
    NoIommuGroup,
    ForeignDriver,
    BarNotDescribed,
    BarNotMapped,
}

impl HostGateBlocker {
    pub fn as_str(self) -> (s: &'static str)
        ensures
            s@ == (match self {
                HostGateBlocker::NoIommuGroup => "no IOMMU group — Online impossible"@,
                HostGateBlocker::ForeignDriver =>
                    "foreign driver bound — unbind before Hermes GSP BAR map"@,
                HostGateBlocker::BarNotDescribed => "BAR0 not described in PCI resource"@,
                HostGateBlocker::BarNotMapped => "BAR0 not mapped (privilege or driver ownership)"@,
            }),
    {
        match self {
            HostGateBlocker::NoIommuGroup => "no IOMMU group — Online impossible",
            HostGateBlocker::ForeignDriver =>
                "foreign driver bound — unbind before Hermes GSP BAR map",
            HostGateBlocker::BarNotDescribed => "BAR0 not described in PCI resource",
            HostGateBlocker::BarNotMapped => "BAR0 not mapped (privilege or driver ownership)",
        }
    }
}

pub open spec fn spec_is_foreign_gpu_driver(name: Seq<char>) -> bool {
    name == "nouveau"@ || name == "vfio-pci"@ || name == "nvidiafb"@ || name == "nvidia_drm"@
        || name == "nvidia-modeset"@
}

pub open spec fn spec_is_hermes_or_nvidia_driver(name: Seq<char>) -> bool {
    name == "nvidia"@ || name == "hermes"@ || name == "hermes-gsp"@
}

/// Drivers that own the GPU and must be unbound before Hermes maps BAR0.
pub fn is_foreign_gpu_driver(name: &str) -> (b: bool)
    ensures
        b == spec_is_foreign_gpu_driver(name@),
{
    str_eq(name, "nouveau") || str_eq(name, "vfio-pci") || str_eq(name, "nvidiafb") || str_eq(
        name,
        "nvidia_drm",
    ) || str_eq(name, "nvidia-modeset")
}

/// Classic proprietary / Hermes drop-in names that are our own surface.
pub fn is_hermes_or_nvidia_driver(name: &str) -> (b: bool)
    ensures
        b == spec_is_hermes_or_nvidia_driver(name@),
{
    str_eq(name, "nvidia") || str_eq(name, "hermes") || str_eq(name, "hermes-gsp")
}

/// Build facts from optional driver name + iommu + bar flags (host edge helper).
pub fn facts_from_sysfs(
    iommu_group: Option<u32>,
    driver: Option<&str>,
    bar0_described: bool,
    bar0_mapped: bool,
) -> (f: HostDeviceFacts)
    ensures
        f.iommu_group == iommu_group,
        f.foreign_driver_bound == (driver matches Some(d) && spec_is_foreign_gpu_driver(d@)),
        f.hermes_driver_bound == (driver matches Some(d) && spec_is_hermes_or_nvidia_driver(d@)),
        f.bar0_described == bar0_described,
        f.bar0_mapped == bar0_mapped,
{
    let foreign = match driver {
        Some(d) => is_foreign_gpu_driver(d),
        None => false,
    };
    let hermes = match driver {
        Some(d) => is_hermes_or_nvidia_driver(d),
        None => false,
    };
    HostDeviceFacts {
        iommu_group,
        foreign_driver_bound: foreign,
        hermes_driver_bound: hermes,
        bar0_described,
        bar0_mapped,
    }
}

/// Blockers in report order: IOMMU, foreign driver, BAR description, BAR mapping.
pub open spec fn spec_host_online_blockers(f: HostDeviceFacts) -> Seq<HostGateBlocker> {
    let s0 = if f.iommu_group is None {
        seq![HostGateBlocker::NoIommuGroup]
    } else {
        Seq::empty()
    };
    let s1 = if f.foreign_driver_bound {
        s0.push(HostGateBlocker::ForeignDriver)
    } else {
        s0
    };
    let s2 = if !f.bar0_described {
        s1.push(HostGateBlocker::BarNotDescribed)
    } else {
        s1
    };
    if !f.bar0_mapped {
        s2.push(HostGateBlocker::BarNotMapped)
    } else {
        s2
    }
}

/// Collect blockers that forbid claiming Online on live silicon.
pub fn host_online_blockers(facts: &HostDeviceFacts) -> (out: Vec<HostGateBlocker>)
    ensures
        out@ == spec_host_online_blockers(*facts),
{
    let mut out: Vec<HostGateBlocker> = Vec::new();
    if facts.iommu_group.is_none() {
        out.push(HostGateBlocker::NoIommuGroup);
    }
    if facts.foreign_driver_bound {
        out.push(HostGateBlocker::ForeignDriver);
    }
    if !facts.bar0_described {
        out.push(HostGateBlocker::BarNotDescribed);
    }
    if !facts.bar0_mapped {
        out.push(HostGateBlocker::BarNotMapped);
    }
    assert(out@ =~= spec_host_online_blockers(*facts));
    out
}

pub open spec fn spec_host_may_claim_online(f: HostDeviceFacts) -> bool {
    f.iommu_group is Some && !f.foreign_driver_bound && f.bar0_described && f.bar0_mapped
}

/// True only when no blockers remain.
pub fn host_may_claim_online(facts: &HostDeviceFacts) -> (b: bool)
    ensures
        b == spec_host_may_claim_online(*facts),
        b == (spec_host_online_blockers(*facts).len() == 0),
{
    host_online_blockers(facts).len() == 0
}

pub open spec fn spec_host_preflight_fault(f: HostDeviceFacts) -> Option<HermesFault> {
    if f.iommu_group is None || f.foreign_driver_bound {
        Some(HermesFault::DeviceIsolation)
    } else if !f.bar0_described {
        Some(HermesFault::BarUnavailable)
    } else {
        None
    }
}

/// Preflight for isolation: IOMMU present, no foreign driver, BAR described.
pub fn host_preflight_fault(facts: &HostDeviceFacts) -> (r: Option<HermesFault>)
    ensures
        r == spec_host_preflight_fault(*facts),
{
    if facts.iommu_group.is_none() {
        return Some(HermesFault::DeviceIsolation);
    }
    if facts.foreign_driver_bound {
        return Some(HermesFault::DeviceIsolation);
    }
    if !facts.bar0_described {
        return Some(HermesFault::BarUnavailable);
    }
    None
}

/// Stricter preflight when a live BAR map is required before Online.
pub fn host_preflight_fault_require_map(facts: &HostDeviceFacts) -> (r: Option<HermesFault>)
    ensures
        spec_host_preflight_fault(*facts) is Some ==> r == spec_host_preflight_fault(*facts),
        spec_host_preflight_fault(*facts) is None ==> r == (if facts.bar0_mapped {
            None::<HermesFault>
        } else {
            Some(HermesFault::BarUnavailable)
        }),
{
    if let Some(f) = host_preflight_fault(facts) {
        return Some(f);
    }
    if !facts.bar0_mapped {
        return Some(HermesFault::BarUnavailable);
    }
    None
}

pub open spec fn spec_host_isolation_ready(f: HostDeviceFacts) -> bool {
    f.iommu_group is Some && !f.foreign_driver_bound
}

/// Whether isolation alone is legal (IOMMU present, no foreign driver).
pub fn host_isolation_ready(facts: &HostDeviceFacts) -> (b: bool)
    ensures
        b == spec_host_isolation_ready(*facts),
{
    facts.iommu_group.is_some() && !facts.foreign_driver_bound
}

/// Gate law: a host may claim Online exactly when the strict preflight passes,
/// and claiming Online implies isolation readiness; a foreign driver or a
/// missing IOMMU group always blocks it.
pub proof fn host_gates_agree(f: HostDeviceFacts)
    ensures
        spec_host_may_claim_online(f) <==> (spec_host_preflight_fault(f) is None
            && f.bar0_mapped),
        spec_host_may_claim_online(f) ==> spec_host_isolation_ready(f),
        (f.foreign_driver_bound || f.iommu_group is None) ==> !spec_host_may_claim_online(f)
            && spec_host_preflight_fault(f) == Some(HermesFault::DeviceIsolation),
        spec_host_may_claim_online(f) <==> spec_host_online_blockers(f).len() == 0,
{
}

} // verus!
