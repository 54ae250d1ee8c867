//! NVML-compatible management surface backed by Hermes admission and session
//! state. Devices appear from host PCI discovery or from explicit binds after
//! GSP bring-up; telemetry that needs the GSP online is refused while offline.
//!
//! The state the C entry points share lives in one [`NvmlState`] value, which
//! the caller owns and hands to each operation; the entry points themselves
//! only move values between that state and the caller's pointers.

pub mod abi;
pub mod discover;
pub mod format;
pub mod parse;
pub mod smi;
pub mod summary;

use vstd::prelude::*;
use vstd::string::*;

use crate::manifold::{no_evidence, HermesManifold, HermesPhase};
use crate::nvml::format::{
    format_device_line, format_process_line, spec_device_line, spec_process_line, spec_uuid,
    uuid_for,
};
use crate::session::{
    default_negotiated_features, drive_full_success, fully_evidenced,
    spec_default_negotiated_features,
};

verus! {

pub type NvmlReturn = u32;

pub const NVML_SUCCESS: NvmlReturn = 0;

pub const NVML_ERROR_UNINITIALIZED: NvmlReturn = 1;

pub const NVML_ERROR_INVALID_ARGUMENT: NvmlReturn = 2;

pub const NVML_ERROR_NOT_SUPPORTED: NvmlReturn = 3;

pub const NVML_ERROR_NOT_FOUND: NvmlReturn = 6;

pub const NVML_ERROR_INSUFFICIENT_SIZE: NvmlReturn = 7;

pub const NVML_ERROR_DRIVER_NOT_LOADED: NvmlReturn = 9;

pub const NVML_ERROR_GPU_IS_LOST: NvmlReturn = 15;

pub const NVML_ERROR_UNKNOWN: NvmlReturn = 999;

#[allow(non_camel_case_types)]
pub type NvmlDevice_t = u64;

/// Device memory every bound GPU reports: 8 GiB.
pub const BOUND_GPU_TOTAL_MEM: u64 = 0x2_0000_0000;

/// Power limit every bound GPU reports, in milliwatts.
pub const BOUND_GPU_POWER_LIMIT_MW: u32 = 70_000;

/// Device id of the GPUs bound without discovery (a Turing T1000).
pub const BOUND_GPU_DEVICE_ID: u16 = 0x1fb9;

/// A compute process bound to a GPU, as the process table shows it.
#[derive(Debug)]
pub struct ComputeProcess {
    pub pid: u32,
    pub used_gpu_memory: u64,
    pub name: String,
}

/// A GPU the library reports, with the session manifold that says whether it
/// is online.
#[derive(Debug)]
pub struct BoundGpu {
    pub manifold: HermesManifold,
    pub name: String,
    pub pci_bus_id: String,
    pub uuid: String,
    pub total_mem_bytes: u64,
    pub device_id: u16,
    pub compute_major: u32,
    pub compute_minor: u32,
    pub power_limit_mw: u32,
    pub persistence_mode: bool,
    pub processes: Vec<ComputeProcess>,
}

/// What the management entry points share.
pub struct NvmlState {
    pub initialized: bool,
    pub gpus: Vec<BoundGpu>,
}

/// One GPU as the CUDA, Mesa and settings session glue sees it.
#[derive(Debug)]
pub struct SessionDeviceSnapshot {
    pub index: usize,
    pub name: String,
    pub pci_bus_id: String,
    pub uuid: String,
    pub total_mem_bytes: u64,
    pub compute_major: u32,
    pub compute_minor: u32,
    pub phase: HermesPhase,
    pub online: bool,
}

/// The manifold Complete-evidence bring-up on the simulated path yields.
pub open spec fn spec_sim_online_manifold() -> HermesManifold {
    fully_evidenced(1, 7, spec_default_negotiated_features())
}

/// A GPU bound without discovery at `bdf`, as the T1000 the binds describe.
pub open spec fn spec_bound_t1000(
    g: BoundGpu,
    manifold: HermesManifold,
    name: Seq<char>,
    bdf: Seq<char>,
    persistence: bool,
) -> bool {
    &&& g.manifold == manifold
    &&& g.name@ == name
    &&& g.pci_bus_id@ == bdf
    &&& g.uuid@ == spec_uuid(bdf, BOUND_GPU_DEVICE_ID)
    &&& g.total_mem_bytes == BOUND_GPU_TOTAL_MEM
    &&& g.device_id == BOUND_GPU_DEVICE_ID
    &&& g.compute_major == 7
    &&& g.compute_minor == 5
    &&& g.power_limit_mw == BOUND_GPU_POWER_LIMIT_MW
    &&& g.persistence_mode == persistence
    &&& g.processes@.len() == 0
}

/// Index of the process with `pid`, the first if several share it.
pub open spec fn spec_process_index(procs: Seq<ComputeProcess>, pid: u32) -> Option<int> {
    crate::drm::atomic::spec_first(procs, |p: ComputeProcess| p.pid == pid)
}

impl NvmlState {
    /// Uninitialised, with no GPU.
    pub fn new() -> (s: Self)
        ensures
            !s.initialized,
            s.gpus@.len() == 0,
    {
        NvmlState { initialized: false, gpus: Vec::new() }
    }
}

fn bound_t1000(manifold: HermesManifold, name: &str, bdf: &str, persistence: bool) -> (g: BoundGpu)
    ensures
        spec_bound_t1000(g, manifold, name@, bdf@, persistence),
{
    BoundGpu {
        manifold,
        name: String::from_str(name),
        pci_bus_id: String::from_str(bdf),
        uuid: uuid_for(bdf, BOUND_GPU_DEVICE_ID),
        total_mem_bytes: BOUND_GPU_TOTAL_MEM,
        device_id: BOUND_GPU_DEVICE_ID,
        compute_major: 7,
        compute_minor: 5,
        power_limit_mw: BOUND_GPU_POWER_LIMIT_MW,
        persistence_mode: persistence,
        processes: Vec::new(),
    }
}

/// Replaces the manifold of GPU `index`; false when there is no such GPU.
pub fn hermes_nvml_set_online(state: &mut NvmlState, index: usize, manifold: HermesManifold) -> (ok: bool)
    ensures
        ok == (index < old(state).gpus@.len()),
        final(state).initialized == old(state).initialized,
        final(state).gpus@.len() == old(state).gpus@.len(),
        forall|k: int|
            0 <= k < old(state).gpus@.len() && k != index ==> #[trigger] final(state).gpus@[k]
                == old(state).gpus@[k],
        ok ==> final(state).gpus@[index as int] == (BoundGpu {
            manifold,
            ..old(state).gpus@[index as int]
        }),
{
    if index >= state.gpus.len() {
        return false;
    }
    let mut g = state.gpus.remove(index);
    g.manifold = manifold;
    state.gpus.insert(index, g);
    proof {
        assert(state.gpus@ =~= old(state).gpus@.update(index as int, g));
    }
    true
}

/// Binds an offline T1000 at `0000:00:00.0` with a dark manifold of
/// `generation`, and marks the library initialised.
pub fn hermes_nvml_bind_offline_gpu(state: &mut NvmlState, generation: u32)
    ensures
        final(state).initialized,
        final(state).gpus@.len() == old(state).gpus@.len() + 1,
        final(state).gpus@.drop_last() == old(state).gpus@,
        spec_bound_t1000(
            final(state).gpus@.last(),
            HermesManifold { generation, phase: HermesPhase::Offline, evidence: no_evidence() },
            "Hermes Offline GPU"@,
            "0000:00:00.0"@,
            false,
        ),
{
    state.initialized = true;
    let g = bound_t1000(HermesManifold::dark(generation), "Hermes Offline GPU", "0000:00:00.0", false);
    state.gpus.push(g);
    proof {
        assert(state.gpus@.drop_last() =~= old(state).gpus@);
    }
}

/// Binds a T1000 at `0000:01:00.0` under `manifold` and `name`, with
/// persistence on, and marks the library initialised.
pub fn hermes_nvml_bind_online_gpu(state: &mut NvmlState, manifold: HermesManifold, name: &str)
    ensures
        final(state).initialized,
        final(state).gpus@.len() == old(state).gpus@.len() + 1,
        final(state).gpus@.drop_last() == old(state).gpus@,
        spec_bound_t1000(final(state).gpus@.last(), manifold, name@, "0000:01:00.0"@, true),
{
    state.initialized = true;
    let g = bound_t1000(manifold, name, "0000:01:00.0", true);
    state.gpus.push(g);
    proof {
        assert(state.gpus@.drop_last() =~= old(state).gpus@);
    }
}

/// Runs complete-evidence bring-up on the simulated path and binds the GPU it
/// brings online; that bring-up always succeeds.
pub fn hermes_nvml_bind_sim_online_session(state: &mut NvmlState, name: &str) -> (ok: bool)
    ensures
        ok,
        final(state).initialized,
        final(state).gpus@.len() == old(state).gpus@.len() + 1,
        final(state).gpus@.drop_last() == old(state).gpus@,
        spec_bound_t1000(
            final(state).gpus@.last(),
            spec_sim_online_manifold(),
            name@,
            "0000:01:00.0"@,
            true,
        ),
{
    match drive_full_success(1, 7, default_negotiated_features()) {
        Ok(m) => {
            hermes_nvml_bind_online_gpu(state, m, name);
            true
        },
        Err(_) => false,
    }
}

/// Gives the first GPU the manifold of complete-evidence bring-up on the
/// simulated path; false when there is no GPU.
pub fn hermes_nvml_promote_first_sim_online(state: &mut NvmlState) -> (ok: bool)
    ensures
        ok == (old(state).gpus@.len() > 0),
        final(state).initialized == old(state).initialized,
        final(state).gpus@.len() == old(state).gpus@.len(),
        forall|k: int|
            0 < k < old(state).gpus@.len() ==> #[trigger] final(state).gpus@[k] == old(state).gpus@[k],
        ok ==> final(state).gpus@[0] == (BoundGpu {
            manifold: spec_sim_online_manifold(),
            ..old(state).gpus@[0]
        }),
{
    match drive_full_success(1, 7, default_negotiated_features()) {
        Ok(m) => hermes_nvml_set_online(state, 0, m),
        Err(_) => false,
    }
}

/// A snapshot of GPU `index`, if there is one.
pub fn hermes_nvml_device_snapshot(state: &NvmlState, index: usize) -> (snap: Option<SessionDeviceSnapshot>)
    ensures
        index >= state.gpus@.len() ==> snap is None,
        index < state.gpus@.len() ==> (snap matches Some(s) && {
            let g = state.gpus@[index as int];
            &&& s.index == index
            &&& s.name@ == g.name@
            &&& s.pci_bus_id@ == g.pci_bus_id@
            &&& s.uuid@ == g.uuid@
            &&& s.total_mem_bytes == g.total_mem_bytes
            &&& s.compute_major == g.compute_major
            &&& s.compute_minor == g.compute_minor
            &&& s.phase == g.manifold.phase
            &&& s.online == g.manifold.spec_is_online()
        }),
{
    if index >= state.gpus.len() {
        return None;
    }
    let g = &state.gpus[index];
    Some(
        SessionDeviceSnapshot {
            index,
            name: g.name.clone(),
            pci_bus_id: g.pci_bus_id.clone(),
            uuid: g.uuid.clone(),
            total_mem_bytes: g.total_mem_bytes,
            compute_major: g.compute_major,
            compute_minor: g.compute_minor,
            phase: g.manifold.phase,
            online: g.manifold.is_online(),
        },
    )
}

fn find_process(procs: &Vec<ComputeProcess>, pid: u32) -> (r: Option<usize>)
    ensures
        r matches Some(i) ==> spec_process_index(procs@, pid) == Some(i as int) && i < procs@.len(),
        r is None ==> spec_process_index(procs@, pid) is None,
{
    let mut i: usize = 0;
    while i < procs.len()
        invariant
            i <= procs@.len(),
            spec_process_index(procs@, pid) == crate::drm::atomic::spec_first_from(
                procs@,
                |p: ComputeProcess| p.pid == pid,
                i as int,
            ),
        decreases procs@.len() - i,
    {
        if procs[i].pid == pid {
            return Some(i);
        }
        i = i + 1;
    }
    None
}

/// Records a compute process against GPU `gpu_index`, updating the entry of
/// the same pid if there is one. Only an online GPU takes processes.
pub fn hermes_nvml_register_process(
    state: &mut NvmlState,
    gpu_index: usize,
    pid: u32,
    used_gpu_memory: u64,
    name: &str,
) -> (ok: bool)
    ensures
        ok == (gpu_index < old(state).gpus@.len() && old(state).gpus@[gpu_index as int].manifold.spec_is_online()),
        !ok ==> *final(state) == *old(state),
        final(state).initialized == old(state).initialized,
        final(state).gpus@.len() == old(state).gpus@.len(),
        forall|k: int|
            0 <= k < old(state).gpus@.len() && k != gpu_index ==> #[trigger] final(state).gpus@[k]
                == old(state).gpus@[k],
        ok ==> {
            let g0 = old(state).gpus@[gpu_index as int];
            let g1 = final(state).gpus@[gpu_index as int];
            &&& g1 == BoundGpu { processes: g1.processes, ..g0 }
            &&& match spec_process_index(g0.processes@, pid) {
                Some(pi) => {
                    &&& g1.processes@.len() == g0.processes@.len()
                    &&& forall|q: int|
                        0 <= q < g0.processes@.len() && q != pi ==> #[trigger] g1.processes@[q]
                            == g0.processes@[q]
                    &&& g1.processes@[pi].pid == pid
                    &&& g1.processes@[pi].used_gpu_memory == used_gpu_memory
                    &&& g1.processes@[pi].name@ == name@
                },
                None => {
                    &&& g1.processes@.len() == g0.processes@.len() + 1
                    &&& g1.processes@.drop_last() == g0.processes@
                    &&& g1.processes@.last().pid == pid
                    &&& g1.processes@.last().used_gpu_memory == used_gpu_memory
                    &&& g1.processes@.last().name@ == name@
                },
            }
        },
{
    if gpu_index >= state.gpus.len() {
        return false;
    }
    if !state.gpus[gpu_index].manifold.is_online() {
        return false;
    }
    let mut g = state.gpus.remove(gpu_index);
    let entry = ComputeProcess { pid, used_gpu_memory, name: String::from_str(name) };
    match find_process(&g.processes, pid) {
        Some(pi) => {
            g.processes.set(pi, entry);
        },
        None => {
            g.processes.push(entry);
            proof {
                assert(g.processes@.drop_last() =~= old(state).gpus@[gpu_index as int].processes@);
            }
        },
    }
    state.gpus.insert(gpu_index, g);
    proof {
        assert(state.gpus@ =~= old(state).gpus@.update(gpu_index as int, g));
    }
    true
}

/// Processes bound to GPU `gpu_index` (none for an unknown GPU).
pub fn hermes_nvml_process_count(state: &NvmlState, gpu_index: usize) -> (n: usize)
    ensures
        n == if gpu_index < state.gpus@.len() {
            state.gpus@[gpu_index as int].processes@.len()
        } else {
            0
        },
{
    if gpu_index < state.gpus.len() {
        state.gpus[gpu_index].processes.len()
    } else {
        0
    }
}

/// The process table rows of GPU `gpu_index` (none for an unknown GPU).
pub fn hermes_nvml_format_process_lines(state: &NvmlState, gpu_index: usize) -> (lines: Vec<String>)
    ensures
        gpu_index >= state.gpus@.len() ==> lines@.len() == 0,
        gpu_index < state.gpus@.len() ==> {
            let procs = state.gpus@[gpu_index as int].processes@;
            &&& lines@.len() == procs.len()
            &&& forall|k: int|
                0 <= k < procs.len() ==> (#[trigger] lines@[k])@ == spec_process_line(
                    procs[k].pid,
                    procs[k].name@,
                    procs[k].used_gpu_memory,
                )
        },
{
    let mut lines: Vec<String> = Vec::new();
    if gpu_index >= state.gpus.len() {
        return lines;
    }
    let procs = &state.gpus[gpu_index].processes;
    let mut k: usize = 0;
    while k < procs.len()
        invariant
            k <= procs@.len(),
            lines@.len() == k,
            forall|q: int|
                0 <= q < k ==> (#[trigger] lines@[q])@ == spec_process_line(
                    procs@[q].pid,
                    procs@[q].name@,
                    procs@[q].used_gpu_memory,
                ),
        decreases procs@.len() - k,
    {
        let p = &procs[k];
        lines.push(format_process_line(p.pid, p.name.as_str(), p.used_gpu_memory));
        k = k + 1;
    }
    lines
}

pub fn hermes_nvml_gpu_phase(state: &NvmlState, index: usize) -> (phase: Option<HermesPhase>)
    ensures
        phase == if index < state.gpus@.len() {
            Some(state.gpus@[index as int].manifold.phase)
        } else {
            None::<HermesPhase>
        },
{
    if index < state.gpus.len() {
        Some(state.gpus[index].manifold.phase)
    } else {
        None
    }
}

pub fn hermes_nvml_gpu_count(state: &NvmlState) -> (n: usize)
    ensures
        n == state.gpus@.len(),
{
    state.gpus.len()
}

/// Back to the state [`NvmlState::new`] gives.
pub fn hermes_nvml_reset(state: &mut NvmlState)
    ensures
        !final(state).initialized,
        final(state).gpus@.len() == 0,
{
    state.initialized = false;
    state.gpus.clear();
}

/// The summary line of GPU `index`, if there is one.
pub fn hermes_nvml_format_device_line(state: &NvmlState, index: usize) -> (line: Option<String>)
    ensures
        index >= state.gpus@.len() ==> line is None,
        index < state.gpus@.len() ==> (line matches Some(l) && l@ == {
            let g = state.gpus@[index as int];
            spec_device_line(index, g.name@, g.pci_bus_id@, g.manifold.phase, g.total_mem_bytes)
        }),
{
    if index >= state.gpus.len() {
        return None;
    }
    let g = &state.gpus[index];
    Some(
        format_device_line(
            index,
            g.name.as_str(),
            g.pci_bus_id.as_str(),
            g.manifold.phase,
            g.total_mem_bytes,
        ),
    )
}

} // verus!
