//! Host PCI discovery: which PCI functions the host's sysfs lists become
//! (offline) GPUs of the management library.

use vstd::prelude::*;
use vstd::string::*;

use crate::manifold::{no_evidence, HermesManifold, HermesPhase};
use crate::nvml::format::{
    compute_caps, default_name_for_device, spec_compute_caps, spec_default_name, spec_uuid, uuid_for,
};
use crate::nvml::parse::{parse_sysfs_hex, spec_parse_sysfs_hex};
use crate::manifold::FEATURE_REQUIRED;
use crate::nvml::abi::nvml_init;
use crate::nvml::{
    hermes_nvml_bind_sim_online_session, hermes_nvml_device_snapshot,
    hermes_nvml_promote_first_sim_online, hermes_nvml_register_process, hermes_nvml_reset,
    spec_process_index, spec_sim_online_manifold, BoundGpu, NvmlState, SessionDeviceSnapshot,
    BOUND_GPU_POWER_LIMIT_MW, BOUND_GPU_TOTAL_MEM,
};
use crate::pci::{
    admit_display_device, is_nvidia_turing_or_newer, pci_identity, spec_admit_display,
    spec_nvidia_architecture, HermesPciIdentity, NVIDIA_VENDOR_ID, PCI_CLASS_DISPLAY,
};
use crate::text::str_eq;

verus! {

/// What the host's sysfs holds for one PCI function: its directory name and
/// the contents of its `vendor`, `device` and `class` files, each `None` where
/// it could not be read.
pub struct SysfsPciEntry {
    pub name: Option<String>,
    pub vendor: Option<String>,
    pub device: Option<String>,
    pub class: Option<String>,
}

/// A sysfs hex file's value, for a type whose largest value is `max`.
pub open spec fn spec_field(f: Option<String>, max: nat) -> Option<nat> {
    match f {
        Some(s) => spec_parse_sysfs_hex(s@, max),
        None => None,
    }
}

/// The identity discovery hands to display admission.
pub open spec fn spec_sysfs_identity(vendor: u16, device: u16, class_code: u8, subclass: u8) -> HermesPciIdentity {
    HermesPciIdentity {
        segment: 0,
        bus: 0,
        slot: 0,
        function: 0,
        revision: 0,
        vendor_id: vendor,
        device_id: device,
        subsystem_vendor_id: 0,
        subsystem_device_id: 0,
        class_code,
        subclass,
        programming_interface: 0,
        reserved: 0,
    }
}

/// The class code of a class field (0 when unreadable): its bits 16 to 23.
pub open spec fn spec_class_code(e: SysfsPciEntry) -> nat {
    let class = match spec_field(e.class, 0xffff_ffff) {
        Some(c) => c,
        None => 0,
    };
    (class / 0x10000) % 0x100
}

/// The subclass of a class field (0 when unreadable): its bits 8 to 15.
pub open spec fn spec_subclass(e: SysfsPciEntry) -> nat {
    let class = match spec_field(e.class, 0xffff_ffff) {
        Some(c) => c,
        None => 0,
    };
    (class / 0x100) % 0x100
}

/// The device id of an entry that discovery takes: an NVIDIA display
/// controller of a Turing-or-newer generation that display admission accepts.
#[verifier::opaque]
pub open spec fn spec_admitted_device(e: SysfsPciEntry) -> Option<u16> {
    match (spec_field(e.vendor, 0xffff), spec_field(e.device, 0xffff)) {
        (Some(v), Some(d)) => if v == NVIDIA_VENDOR_ID && spec_class_code(e) == PCI_CLASS_DISPLAY
            && spec_nvidia_architecture(d as u16) is Some && spec_admit_display(
            spec_sysfs_identity(v as u16, d as u16, spec_class_code(e) as u8, spec_subclass(e) as u8),
        ) is Ok {
            Some(d as u16)
        } else {
            None
        },
        _ => None,
    }
}

/// The bus id of an entry: its directory name, or `0000:00:00.0` without one.
pub open spec fn spec_entry_bdf(e: SysfsPciEntry) -> Seq<char> {
    match e.name {
        Some(n) => n@,
        None => "0000:00:00.0"@,
    }
}

/// A GPU as discovery binds it: offline, named and numbered after its device.
#[verifier::opaque]
pub open spec fn spec_discovered_gpu(g: BoundGpu, bdf: Seq<char>, device: u16) -> bool {
    &&& g.manifold == HermesManifold {
        generation: 1,
        phase: HermesPhase::Offline,
        evidence: no_evidence(),
    }
    &&& g.name@ == spec_default_name(device)
    &&& g.pci_bus_id@ == bdf
    &&& g.uuid@ == spec_uuid(bdf, device)
    &&& g.total_mem_bytes == BOUND_GPU_TOTAL_MEM
    &&& g.device_id == device
    &&& (g.compute_major, g.compute_minor) == spec_compute_caps(device)
    &&& g.power_limit_mw == BOUND_GPU_POWER_LIMIT_MW
    &&& !g.persistence_mode
    &&& g.processes@.len() == 0
}

/// `g` is the GPU discovery binds for entry `e`, which it admits.
#[verifier::opaque]
pub open spec fn spec_bound_from_entry(g: BoundGpu, e: SysfsPciEntry) -> bool {
    spec_admitted_device(e) is Some && spec_discovered_gpu(
        g,
        spec_entry_bdf(e),
        spec_admitted_device(e)->0,
    )
}

/// `g` is the GPU discovery binds for one of `entries`.
pub open spec fn spec_from_some_entry(g: BoundGpu, entries: Seq<SysfsPciEntry>) -> bool {
    exists|j: int| 0 <= j < entries.len() && #[trigger] spec_bound_from_entry(g, entries[j])
}

fn field(f: &Option<String>, max: u64) -> (r: Option<u64>)
    requires
        max <= u32::MAX,
    ensures
        match spec_field(*f, max as nat) {
            Some(v) => r == Some(v as u64),
            None => r is None,
        },
{
    match f {
        Some(s) => parse_sysfs_hex(s.as_str(), max),
        None => None,
    }
}

fn admitted_device(e: &SysfsPciEntry) -> (d: Option<u16>)
    ensures
        d == spec_admitted_device(*e),
{
    proof {
        reveal(spec_admitted_device);
    }
    let vendor = match field(&e.vendor, 0xffff) {
        Some(v) => v,
        None => {
            return None;
        },
    };
    if vendor != NVIDIA_VENDOR_ID as u64 {
        return None;
    }
    let device = match field(&e.device, 0xffff) {
        Some(d) => d,
        None => {
            return None;
        },
    };
    let class = match field(&e.class, 0xffff_ffff) {
        Some(c) => c,
        None => 0,
    };
    let class_code = ((class / 0x10000) % 0x100) as u8;
    let subclass = ((class / 0x100) % 0x100) as u8;
    if class_code != PCI_CLASS_DISPLAY {
        return None;
    }
    if !is_nvidia_turing_or_newer(device as u16) {
        return None;
    }
    let id = pci_identity(vendor as u16, device as u16, class_code, subclass);
    if admit_display_device(&id).is_err() {
        return None;
    }
    Some(device as u16)
}

fn entry_bdf(e: &SysfsPciEntry) -> (s: &str)
    ensures
        s@ == spec_entry_bdf(*e),
{
    match &e.name {
        Some(n) => n.as_str(),
        None => "0000:00:00.0",
    }
}

fn has_bus(gpus: &Vec<BoundGpu>, bdf: &str) -> (b: bool)
    ensures
        b == exists|k: int| 0 <= k < gpus@.len() && (#[trigger] gpus@[k]).pci_bus_id@ == bdf@,
{
    let mut k: usize = 0;
    while k < gpus.len()
        invariant
            k <= gpus@.len(),
            forall|q: int| 0 <= q < k ==> (#[trigger] gpus@[q]).pci_bus_id@ != bdf@,
        decreases gpus@.len() - k,
    {
        if str_eq(gpus[k].pci_bus_id.as_str(), bdf) {
            return true;
        }
        k = k + 1;
    }
    false
}

fn discovered_gpu(bdf: &str, device: u16) -> (g: BoundGpu)
    ensures
        spec_discovered_gpu(g, bdf@, device),
        g.pci_bus_id@ == bdf@,
{
    proof {
        reveal(spec_discovered_gpu);
    }
    let (major, minor) = compute_caps(device);
    BoundGpu {
        manifold: HermesManifold::dark(1),
        name: default_name_for_device(device),
        pci_bus_id: String::from_str(bdf),
        uuid: uuid_for(bdf, device),
        total_mem_bytes: BOUND_GPU_TOTAL_MEM,
        device_id: device,
        compute_major: major,
        compute_minor: minor,
        power_limit_mw: BOUND_GPU_POWER_LIMIT_MW,
        persistence_mode: false,
        processes: Vec::new(),
    }
}

spec fn origin_ok(g: BoundGpu, entries: Seq<SysfsPciEntry>, j: int) -> bool {
    0 <= j < entries.len() && spec_bound_from_entry(g, entries[j])
}

/// The state of discovery after the first `upto` entries: the GPUs bound
/// before are kept; each new GPU comes from an admitted entry; every admitted
/// entry seen has its bus id bound; no new GPU shares a bus id with another.
#[verifier::opaque]
spec fn discovery_holds(
    before: Seq<BoundGpu>,
    after: Seq<BoundGpu>,
    entries: Seq<SysfsPciEntry>,
    upto: int,
    origin: Seq<int>,
) -> bool {
    &&& after.len() >= before.len()
    &&& origin.len() == after.len() - before.len()
    &&& forall|k: int| 0 <= k < before.len() ==> #[trigger] after[k] == before[k]
    &&& forall|k: int|
        before.len() <= k < after.len() ==> origin_ok(#[trigger] after[k], entries, origin[k
            - before.len()])
    &&& forall|j: int|
        0 <= j < upto && #[trigger] spec_admitted_device(entries[j]) is Some ==> exists|k: int|
            0 <= k < after.len() && (#[trigger] after[k]).pci_bus_id@ == spec_entry_bdf(entries[j])
    &&& forall|k1: int, k2: int|
        0 <= k1 < k2 < after.len() && before.len() <= k2 ==> (#[trigger] after[k1]).pci_bus_id@
            != (#[trigger] after[k2]).pci_bus_id@
}

proof fn lemma_discovery_start(before: Seq<BoundGpu>, entries: Seq<SysfsPciEntry>)
    ensures
        discovery_holds(before, before, entries, 0, Seq::empty()),
{
    reveal(discovery_holds);
}

proof fn lemma_discovery_skip(
    before: Seq<BoundGpu>,
    after: Seq<BoundGpu>,
    entries: Seq<SysfsPciEntry>,
    i: int,
    origin: Seq<int>,
)
    requires
        0 <= i < entries.len(),
        discovery_holds(before, after, entries, i, origin),
        spec_admitted_device(entries[i]) is Some ==> exists|k: int|
            0 <= k < after.len() && (#[trigger] after[k]).pci_bus_id@ == spec_entry_bdf(entries[i]),
    ensures
        discovery_holds(before, after, entries, i + 1, origin),
{
    reveal(discovery_holds);
    assert forall|j: int|
        0 <= j < i + 1 && #[trigger] spec_admitted_device(entries[j]) is Some implies exists|k: int|
            0 <= k < after.len() && (#[trigger] after[k]).pci_bus_id@ == spec_entry_bdf(entries[j]) by {
        if j == i {
        }
    }
}

proof fn lemma_discovery_push(
    before: Seq<BoundGpu>,
    after: Seq<BoundGpu>,
    entries: Seq<SysfsPciEntry>,
    i: int,
    g: BoundGpu,
    origin: Seq<int>,
)
    requires
        0 <= i < entries.len(),
        discovery_holds(before, after, entries, i, origin),
        spec_admitted_device(entries[i]) is Some,
        spec_discovered_gpu(g, spec_entry_bdf(entries[i]), spec_admitted_device(entries[i])->0),
        g.pci_bus_id@ == spec_entry_bdf(entries[i]),
        forall|k: int| 0 <= k < after.len() ==> (#[trigger] after[k]).pci_bus_id@ != spec_entry_bdf(entries[i]),
    ensures
        discovery_holds(before, after.push(g), entries, i + 1, origin.push(i)),
{
    reveal(discovery_holds);
    let next = after.push(g);
    let last = after.len() as int;
    assert(next[last] == g);
    assert forall|k: int| 0 <= k < last implies #[trigger] next[k] == after[k] by {}
    let o = origin.push(i);
    assert forall|k: int|
        before.len() <= k < next.len() implies origin_ok(#[trigger] next[k], entries, o[k
            - before.len()]) by {
        if k == last {
            reveal(spec_bound_from_entry);
        } else {
            assert(next[k] == after[k]);
        }
    }
    assert forall|j: int|
        0 <= j < i + 1 && #[trigger] spec_admitted_device(entries[j]) is Some implies exists|k: int|
            0 <= k < next.len() && (#[trigger] next[k]).pci_bus_id@ == spec_entry_bdf(entries[j]) by {
        if j == i {
            assert(next[last].pci_bus_id@ == spec_entry_bdf(entries[j]));
        } else {
            let k = choose|k: int|
                0 <= k < after.len() && (#[trigger] after[k]).pci_bus_id@ == spec_entry_bdf(entries[j]);
            assert(next[k] == after[k]);
        }
    }
    assert forall|k1: int, k2: int|
        0 <= k1 < k2 < next.len() && before.len() <= k2 implies (#[trigger] next[k1]).pci_bus_id@
            != (#[trigger] next[k2]).pci_bus_id@ by {
        assert(next[k1] == after[k1]);
        if k2 != last {
            assert(next[k2] == after[k2]);
        }
    }
}

proof fn lemma_discovery_origins(
    before: Seq<BoundGpu>,
    after: Seq<BoundGpu>,
    entries: Seq<SysfsPciEntry>,
    upto: int,
    origin: Seq<int>,
)
    requires
        discovery_holds(before, after, entries, upto, origin),
    ensures
        forall|k: int|
            before.len() <= k < after.len() ==> spec_from_some_entry(#[trigger] after[k], entries),
{
    reveal(discovery_holds);
    assert forall|k: int| before.len() <= k < after.len() implies spec_from_some_entry(
        #[trigger] after[k],
        entries,
    ) by {
        let j = origin[k - before.len()];
        assert(origin_ok(after[k], entries, j));
    }
}

/// Binds an offline GPU for each admitted entry whose bus id is not bound yet,
/// in entry order, and marks the library initialised; answers how many were
/// bound.
pub fn hermes_nvml_discover_host_gpus(state: &mut NvmlState, entries: &[SysfsPciEntry]) -> (added: usize)
    ensures
        final(state).initialized,
        final(state).gpus@.len() == old(state).gpus@.len() + added,
        forall|k: int|
            0 <= k < old(state).gpus@.len() ==> #[trigger] final(state).gpus@[k] == old(state).gpus@[k],
        forall|k: int|
            old(state).gpus@.len() <= k < final(state).gpus@.len() ==> spec_from_some_entry(
                #[trigger] final(state).gpus@[k],
                entries@,
            ),
        forall|j: int|
            0 <= j < entries@.len() && #[trigger] spec_admitted_device(entries@[j]) is Some ==> exists|k: int|
                0 <= k < final(state).gpus@.len() && (#[trigger] final(state).gpus@[k]).pci_bus_id@
                    == spec_entry_bdf(entries@[j]),
        forall|k1: int, k2: int|
            0 <= k1 < k2 < final(state).gpus@.len() && old(state).gpus@.len() <= k2 ==> (
            #[trigger] final(state).gpus@[k1]).pci_bus_id@ != (
            #[trigger] final(state).gpus@[k2]).pci_bus_id@,
{
    state.initialized = true;
    let ghost before = old(state).gpus@;
    let ghost mut origin: Seq<int> = Seq::empty();
    proof {
        lemma_discovery_start(before, entries@);
    }
    let mut added: usize = 0;
    let mut i: usize = 0;
    while i < entries.len()
        invariant
            i <= entries@.len(),
            added <= i,
            state.initialized,
            before == old(state).gpus@,
            state.gpus@.len() == before.len() + added,
            discovery_holds(before, state.gpus@, entries@, i as int, origin),
        decreases entries@.len() - i,
    {
        let e = &entries[i];
        match admitted_device(e) {
            Some(device) => {
                let bdf = entry_bdf(e);
                if !has_bus(&state.gpus, bdf) {
                    let g = discovered_gpu(bdf, device);
                    proof {
                        lemma_discovery_push(before, state.gpus@, entries@, i as int, g, origin);
                        origin = origin.push(i as int);
                    }
                    state.gpus.push(g);
                    added = added + 1;
                } else {
                    proof {
                        lemma_discovery_skip(before, state.gpus@, entries@, i as int, origin);
                    }
                }
            },
            None => {
                proof {
                    lemma_discovery_skip(before, state.gpus@, entries@, i as int, origin);
                }
            },
        }
        i = i + 1;
    }
    proof {
        reveal(discovery_holds);
        lemma_discovery_origins(before, state.gpus@, entries@, i as int, origin);
    }
    added
}

/// Device memory a session client is registered with (64 MiB).
pub const SESSION_CLIENT_BYTES: u64 = 0x400_0000;

/// Some entry is a GPU that discovery admits.
pub open spec fn spec_any_admitted(entries: Seq<SysfsPciEntry>) -> bool {
    exists|j: int| 0 <= j < entries.len() && #[trigger] spec_admitted_device(entries[j]) is Some
}

/// Session bring-up for the CUDA, Mesa and settings glue: a fresh, initialised
/// library binds what `entries` admit, brings its first GPU online on the
/// simulated path (binding a simulated GPU when discovery found none),
/// registers `pid` as a 64 MiB compute client of it, and answers its snapshot.
pub fn hermes_nvml_session_promote_from(state: &mut NvmlState, entries: &[SysfsPciEntry], pid: u32) -> (snap:
    Option<SessionDeviceSnapshot>)
    ensures
        final(state).initialized,
        final(state).gpus@.len() >= 1,
        final(state).gpus@[0].manifold == spec_sim_online_manifold(),
        final(state).gpus@[0].processes@.len() == 1,
        final(state).gpus@[0].processes@[0].pid == pid,
        final(state).gpus@[0].processes@[0].used_gpu_memory == SESSION_CLIENT_BYTES,
        final(state).gpus@[0].processes@[0].name@ == "hermes-session"@,
        !spec_any_admitted(entries@) ==> final(state).gpus@.len() == 1
            && final(state).gpus@[0].name@ == "Hermes Sim GPU"@
            && final(state).gpus@[0].pci_bus_id@ == "0000:01:00.0"@,
        spec_any_admitted(entries@) ==> exists|d: BoundGpu|
            #[trigger] spec_from_some_entry(d, entries@) && final(state).gpus@[0] == (BoundGpu {
                manifold: spec_sim_online_manifold(),
                processes: final(state).gpus@[0].processes,
                ..d
            }),
        forall|k: int|
            1 <= k < final(state).gpus@.len() ==> spec_from_some_entry(
                #[trigger] final(state).gpus@[k],
                entries@,
            ),
        snap matches Some(s) && {
            let g = final(state).gpus@[0];
            &&& s.index == 0
            &&& s.name@ == g.name@
            &&& s.pci_bus_id@ == g.pci_bus_id@
            &&& s.uuid@ == g.uuid@
            &&& s.total_mem_bytes == g.total_mem_bytes
            &&& s.compute_major == g.compute_major
            &&& s.compute_minor == g.compute_minor
            &&& s.phase == HermesPhase::Online
            &&& s.online
        },
{
    hermes_nvml_reset(state);
    nvml_init(state);
    let added = hermes_nvml_discover_host_gpus(state, entries);
    let ghost d = state.gpus@[0];
    if added == 0 {
        proof {
            if spec_any_admitted(entries@) {
                let j = choose|j: int| 0 <= j < entries@.len() && #[trigger] spec_admitted_device(entries@[j]) is Some;
                assert(spec_admitted_device(entries@[j]) is Some);
            }
        }
        hermes_nvml_bind_sim_online_session(state, "Hermes Sim GPU");
    } else {
        proof {
            assert(spec_from_some_entry(state.gpus@[0], entries@));
            let j = choose|j: int| 0 <= j < entries@.len() && #[trigger] spec_bound_from_entry(d, entries@[j]);
            reveal(spec_bound_from_entry);
            reveal(spec_discovered_gpu);
            assert(d.processes@.len() == 0);
        }
        hermes_nvml_promote_first_sim_online(state);
    }
    proof {
        assert(state.gpus@[0].processes@.len() == 0);
        assert(spec_process_index(state.gpus@[0].processes@, pid) is None);
        assert(spec_sim_online_manifold().spec_is_online()) by {
            assert(0x1u64 | 0x2u64 | 0x4u64 | 0x8u64 | 0x10u64 | 0x20u64 | 0x40u64 | 0x80u64
                | 0x100u64 | 0x200u64 == 0x3ffu64 && 0x3ffu64 & 0x7u64 == 0x7u64) by (bit_vector);
        }
    }
    hermes_nvml_register_process(state, 0, pid, SESSION_CLIENT_BYTES, "hermes-session");
    proof {
        if added != 0 {
            assert(state.gpus@[0] == (BoundGpu {
                manifold: spec_sim_online_manifold(),
                processes: state.gpus@[0].processes,
                ..d
            }));
            assert(spec_from_some_entry(d, entries@));
        }
    }
    hermes_nvml_device_snapshot(state, 0)
}

} // verus!
