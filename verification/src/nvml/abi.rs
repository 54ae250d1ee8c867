//! What the classic `nvml*` C entry points answer, given the library state.
//! The entry points check their pointers, then copy these answers out.

use vstd::prelude::*;
use vstd::string::*;

use crate::nvml::format::{brand_for_device, spec_brand};
use crate::nvml::parse::{from_hex_range, spec_from_hex};
use crate::nvml::{
    NvmlReturn, NvmlState, NVML_ERROR_GPU_IS_LOST, NVML_ERROR_INSUFFICIENT_SIZE,
    NVML_ERROR_INVALID_ARGUMENT, NVML_ERROR_NOT_SUPPORTED, NVML_ERROR_UNINITIALIZED, NVML_SUCCESS,
};

verus! {

#[allow(non_camel_case_types)]
#[derive(Clone, Copy, Debug, PartialEq, Eq, Structural)]
pub struct NvmlPciInfo_t {
    pub bus: u32,
    pub device: u32,
    pub domain: u32,
    pub pci_device_id: u32,
    pub pci_sub_system_id: u32,
}

#[allow(non_camel_case_types)]
#[derive(Clone, Copy, Debug, PartialEq, Eq, Structural)]
pub struct NvmlMemory_t {
    pub total: u64,
    pub free: u64,
    pub used: u64,
}

#[allow(non_camel_case_types)]
#[derive(Clone, Copy, Debug, PartialEq, Eq, Structural)]
pub struct NvmlUtilization_t {
    pub gpu: u32,
    pub memory: u32,
}

#[allow(non_camel_case_types)]
#[derive(Clone, Copy, Debug, PartialEq, Eq, Structural)]
pub struct NvmlProcessInfo_t {
    pub pid: u32,
    pub used_gpu_memory: u64,
}

/// The driver version the library reports.
pub const HERMES_DRIVER_VERSION: &'static str = "Hermes-GSP 0.1.0";

/// The NVML version the library reports.
pub const HERMES_NVML_VERSION: &'static str = "12.0-hermes";

/// CUDA 12.0 in NVML's encoding.
pub const HERMES_CUDA_DRIVER_VERSION: i32 = 12_000;

/// Temperature an online GPU reports, in degrees Celsius.
pub const ONLINE_TEMPERATURE_C: u32 = 42;

/// Power draw an online GPU reports, in milliwatts.
pub const ONLINE_POWER_USAGE_MW: u32 = 15_000;

/// Fan speed an online GPU reports, in percent.
pub const ONLINE_FAN_SPEED_PERCENT: u32 = 30;

/// The process table a `ComputeRunningProcesses` call answers: its status, the
/// number of processes, and the entries written (as many as fit).
#[derive(Debug)]
pub struct ProcessTable {
    pub status: NvmlReturn,
    pub count: u32,
    pub infos: Vec<NvmlProcessInfo_t>,
}

/// The GPU a handle names: refused before initialisation, and for the null
/// handle or one past the bound GPUs (handles are indices plus one).
pub open spec fn spec_device_index(s: NvmlState, handle: u64) -> Result<usize, NvmlReturn> {
    if !s.initialized {
        Err(NVML_ERROR_UNINITIALIZED)
    } else if handle == 0 || ((handle - 1) as usize) >= s.gpus@.len() {
        Err(NVML_ERROR_INVALID_ARGUMENT)
    } else {
        Ok(((handle - 1) as usize))
    }
}

/// The status of copying a C string of `src_len` bytes into a caller's buffer
/// of `length` bytes.
pub open spec fn spec_copy_status(buffer_present: bool, src_len: nat, length: u32) -> NvmlReturn {
    if !buffer_present || length == 0 {
        NVML_ERROR_INVALID_ARGUMENT
    } else if (length as nat) < src_len {
        NVML_ERROR_INSUFFICIENT_SIZE
    } else {
        NVML_SUCCESS
    }
}

pub open spec fn spec_is_bus_separator(c: char) -> bool {
    c == ':' || c == '.'
}

/// `str::split` on `:` and `.`.
pub open spec fn spec_split_bus(s: Seq<char>) -> Seq<Seq<char>>
    decreases s.len(),
{
    if s.len() == 0 {
        seq![Seq::<char>::empty()]
    } else {
        let prev = spec_split_bus(s.drop_last());
        if spec_is_bus_separator(s.last()) {
            prev.push(Seq::<char>::empty())
        } else {
            prev.update(prev.len() - 1, prev.last().push(s.last()))
        }
    }
}

/// Field `i` of a bus id (`domain:bus:device.function`) as hexadecimal, or 0
/// when it is missing or not a `u32` in hexadecimal.
pub open spec fn spec_bus_field(s: Seq<char>, i: int) -> u32 {
    let parts = spec_split_bus(s);
    if i < parts.len() {
        match spec_from_hex(parts[i], 0xffff_ffff) {
            Some(v) => v as u32,
            None => 0,
        }
    } else {
        0
    }
}

/// `nvmlInit`: marks the library initialised.
pub fn nvml_init(state: &mut NvmlState) -> (r: NvmlReturn)
    ensures
        r == NVML_SUCCESS,
        final(state).initialized,
        final(state).gpus@ == old(state).gpus@,
{
    state.initialized = true;
    NVML_SUCCESS
}

/// `nvmlShutdown`: un-initialises the library and forgets every GPU.
pub fn nvml_shutdown(state: &mut NvmlState) -> (r: NvmlReturn)
    ensures
        r == NVML_SUCCESS,
        !final(state).initialized,
        final(state).gpus@.len() == 0,
{
    state.initialized = false;
    state.gpus.clear();
    NVML_SUCCESS
}

/// `nvmlDeviceGetCount`: the number of bound GPUs.
pub fn device_count(state: &NvmlState) -> (r: Result<u32, NvmlReturn>)
    ensures
        r == if !state.initialized {
            Err::<u32, NvmlReturn>(NVML_ERROR_UNINITIALIZED)
        } else {
            Ok(state.gpus@.len() as u32)
        },
{
    if !state.initialized {
        return Err(NVML_ERROR_UNINITIALIZED);
    }
    Ok(state.gpus.len() as u32)
}

/// `nvmlDeviceGetHandleByIndex`: the handle of GPU `index`, its index plus one.
pub fn handle_by_index(state: &NvmlState, index: u32) -> (r: Result<u64, NvmlReturn>)
    ensures
        r == if !state.initialized {
            Err::<u64, NvmlReturn>(NVML_ERROR_UNINITIALIZED)
        } else if index >= state.gpus@.len() {
            Err::<u64, NvmlReturn>(NVML_ERROR_INVALID_ARGUMENT)
        } else {
            Ok((index + 1) as u64)
        },
{
    if !state.initialized {
        return Err(NVML_ERROR_UNINITIALIZED);
    }
    if index as usize >= state.gpus.len() {
        return Err(NVML_ERROR_INVALID_ARGUMENT);
    }
    Ok(index as u64 + 1)
}

/// The GPU a handle names (see [`spec_device_index`]).
pub fn device_index(state: &NvmlState, handle: u64) -> (r: Result<usize, NvmlReturn>)
    ensures
        r == spec_device_index(*state, handle),
{
    if !state.initialized {
        return Err(NVML_ERROR_UNINITIALIZED);
    }
    if handle == 0 {
        return Err(NVML_ERROR_INVALID_ARGUMENT);
    }
    let i = (handle - 1) as usize;
    if i >= state.gpus.len() {
        return Err(NVML_ERROR_INVALID_ARGUMENT);
    }
    Ok(i)
}

/// The bytes of `s` and a terminating NUL.
pub fn c_string(s: &str) -> (bytes: Vec<u8>)
    ensures
        bytes@ == vstd::utf8::encode_utf8(s@).push(0u8),
{
    let mut bytes = s.as_bytes_vec();
    bytes.push(0u8);
    bytes
}

/// The status of copying a C string of `src_len` bytes into a caller's buffer
/// of `length` bytes (see [`spec_copy_status`]).
pub fn copy_status(buffer_present: bool, src_len: usize, length: u32) -> (r: NvmlReturn)
    ensures
        r == spec_copy_status(buffer_present, src_len as nat, length),
{
    if !buffer_present || length == 0 {
        return NVML_ERROR_INVALID_ARGUMENT;
    }
    if (length as u64) < (src_len as u64) {
        return NVML_ERROR_INSUFFICIENT_SIZE;
    }
    NVML_SUCCESS
}

/// `nvmlDeviceGetName`: the GPU's name as a C string.
pub fn device_name(state: &NvmlState, handle: u64) -> (r: Result<Vec<u8>, NvmlReturn>)
    ensures
        match spec_device_index(*state, handle) {
            Err(e) => r matches Err(e2) && e2 == e,
            Ok(i) => r matches Ok(b) && b@ == vstd::utf8::encode_utf8(state.gpus@[i as int].name@).push(0u8),
        },
{
    let i = device_index(state, handle)?;
    Ok(c_string(state.gpus[i].name.as_str()))
}

/// `nvmlDeviceGetUUID`: the GPU's UUID as a C string.
pub fn device_uuid(state: &NvmlState, handle: u64) -> (r: Result<Vec<u8>, NvmlReturn>)
    ensures
        match spec_device_index(*state, handle) {
            Err(e) => r matches Err(e2) && e2 == e,
            Ok(i) => r matches Ok(b) && b@ == vstd::utf8::encode_utf8(state.gpus@[i as int].uuid@).push(0u8),
        },
{
    let i = device_index(state, handle)?;
    Ok(c_string(state.gpus[i].uuid.as_str()))
}

/// `nvmlDeviceGetPCIBusId`: the GPU's bus id as a C string.
pub fn device_pci_bus_id(state: &NvmlState, handle: u64) -> (r: Result<Vec<u8>, NvmlReturn>)
    ensures
        match spec_device_index(*state, handle) {
            Err(e) => r matches Err(e2) && e2 == e,
            Ok(i) => r matches Ok(b) && b@ == vstd::utf8::encode_utf8(state.gpus@[i as int].pci_bus_id@).push(0u8),
        },
{
    let i = device_index(state, handle)?;
    Ok(c_string(state.gpus[i].pci_bus_id.as_str()))
}

proof fn lemma_split_nonempty(s: Seq<char>)
    ensures
        spec_split_bus(s).len() >= 1,
    decreases s.len(),
{
    if s.len() > 0 {
        lemma_split_nonempty(s.drop_last());
    }
}

/// The domain, bus and device fields of a bus id, in that order.
pub fn bus_fields(s: &str) -> (fields: (u32, u32, u32))
    ensures
        fields == (spec_bus_field(s@, 0), spec_bus_field(s@, 1), spec_bus_field(s@, 2)),
{
    let n = s.unicode_len();
    let mut vals: Vec<u32> = vec![0u32, 0u32, 0u32];
    let mut seg: usize = 0;
    let mut start: usize = 0;
    let mut i: usize = 0;
    proof {
        assert(s@.subrange(0, 0) =~= Seq::<char>::empty());
    }
    while i < n
        invariant
            n == s@.len(),
            start <= i <= n,
            vals@.len() == 3,
            spec_split_bus(s@.subrange(0, i as int)).len() == seg + 1,
            spec_split_bus(s@.subrange(0, i as int))[seg as int] == s@.subrange(start as int, i as int),
            forall|q: int|
                0 <= q < 3 ==> #[trigger] vals@[q] == if q < seg {
                    match spec_from_hex(spec_split_bus(s@.subrange(0, i as int))[q], 0xffff_ffff) {
                        Some(v) => v as u32,
                        None => 0u32,
                    }
                } else {
                    0u32
                },
            seg <= i,
        decreases n - i,
    {
        let c = s.get_char(i);
        let ghost prev = spec_split_bus(s@.subrange(0, i as int));
        proof {
            assert(s@.subrange(0, i + 1).drop_last() =~= s@.subrange(0, i as int));
            assert(s@.subrange(0, i + 1).last() == c);
            lemma_split_nonempty(s@.subrange(0, i as int));
        }
        if c == ':' || c == '.' {
            if seg < 3 {
                let v = match from_hex_range(s, start, i, 0xffff_ffff) {
                    Some(v) => v as u32,
                    None => 0,
                };
                vals.set(seg, v);
            }
            seg = seg + 1;
            start = i + 1;
            proof {
                assert(s@.subrange(start as int, i + 1) =~= Seq::<char>::empty());
            }
        } else {
            proof {
                assert(s@.subrange(start as int, i + 1) =~= s@.subrange(start as int, i as int).push(c));
            }
        }
        i = i + 1;
    }
    if seg < 3 {
        let v = match from_hex_range(s, start, n, 0xffff_ffff) {
            Some(v) => v as u32,
            None => 0,
        };
        vals.set(seg, v);
    }
    proof {
        assert(s@.subrange(0, n as int) =~= s@);
    }
    (vals[0], vals[1], vals[2])
}

/// `nvmlDeviceGetPciInfo`: the bus id's fields and NVIDIA's vendor id over the
/// device id.
pub fn pci_info(state: &NvmlState, handle: u64) -> (r: Result<NvmlPciInfo_t, NvmlReturn>)
    ensures
        match spec_device_index(*state, handle) {
            Err(e) => r == Err::<NvmlPciInfo_t, NvmlReturn>(e),
            Ok(i) => {
                let g = state.gpus@[i as int];
                r == Ok::<NvmlPciInfo_t, NvmlReturn>(
                    NvmlPciInfo_t {
                        bus: spec_bus_field(g.pci_bus_id@, 1),
                        device: spec_bus_field(g.pci_bus_id@, 2),
                        domain: spec_bus_field(g.pci_bus_id@, 0),
                        pci_device_id: (0x10deu32 << 16u32) | (g.device_id as u32),
                        pci_sub_system_id: 0,
                    },
                )
            },
        },
{
    let i = device_index(state, handle)?;
    let g = &state.gpus[i];
    let (domain, bus, dev) = bus_fields(g.pci_bus_id.as_str());
    Ok(
        NvmlPciInfo_t {
            bus,
            device: dev,
            domain,
            pci_device_id: (0x10deu32 << 16u32) | (g.device_id as u32),
            pci_sub_system_id: 0,
        },
    )
}

/// `nvmlDeviceGetMemoryInfo`: the total, split evenly between free and used
/// while online and reported as neither while offline.
pub fn memory_info(state: &NvmlState, handle: u64) -> (r: Result<NvmlMemory_t, NvmlReturn>)
    ensures
        match spec_device_index(*state, handle) {
            Err(e) => r == Err::<NvmlMemory_t, NvmlReturn>(e),
            Ok(i) => {
                let g = state.gpus@[i as int];
                let half = (g.total_mem_bytes / 2) as u64;
                r == Ok::<NvmlMemory_t, NvmlReturn>(
                    if g.manifold.spec_is_online() {
                        NvmlMemory_t { total: g.total_mem_bytes, free: half, used: half }
                    } else {
                        NvmlMemory_t { total: g.total_mem_bytes, free: 0, used: 0 }
                    },
                )
            },
        },
{
    let i = device_index(state, handle)?;
    let g = &state.gpus[i];
    let total = g.total_mem_bytes;
    if g.manifold.is_online() {
        Ok(NvmlMemory_t { total, free: total / 2, used: total / 2 })
    } else {
        Ok(NvmlMemory_t { total, free: 0, used: 0 })
    }
}

/// What a telemetry reading answers: refused as `offline_error` while the GPU
/// is not online, else `value`.
pub open spec fn spec_online_reading(
    s: NvmlState,
    handle: u64,
    offline_error: NvmlReturn,
    value: u32,
) -> Result<u32, NvmlReturn> {
    match spec_device_index(s, handle) {
        Err(e) => Err(e),
        Ok(i) => if s.gpus@[i as int].manifold.spec_is_online() {
            Ok(value)
        } else {
            Err(offline_error)
        },
    }
}

fn online_reading(state: &NvmlState, handle: u64, offline_error: NvmlReturn, value: u32) -> (r: Result<u32, NvmlReturn>)
    ensures
        r == spec_online_reading(*state, handle, offline_error, value),
{
    let i = device_index(state, handle)?;
    if !state.gpus[i].manifold.is_online() {
        return Err(offline_error);
    }
    Ok(value)
}

/// `nvmlDeviceGetTemperature`: the GPU is lost while offline.
pub fn temperature(state: &NvmlState, handle: u64) -> (r: Result<u32, NvmlReturn>)
    ensures
        r == spec_online_reading(*state, handle, NVML_ERROR_GPU_IS_LOST, ONLINE_TEMPERATURE_C),
{
    online_reading(state, handle, NVML_ERROR_GPU_IS_LOST, ONLINE_TEMPERATURE_C)
}

/// `nvmlDeviceGetUtilizationRates`: idle while online, unsupported offline.
pub fn utilization(state: &NvmlState, handle: u64) -> (r: Result<NvmlUtilization_t, NvmlReturn>)
    ensures
        match spec_online_reading(*state, handle, NVML_ERROR_NOT_SUPPORTED, 0) {
            Err(e) => r == Err::<NvmlUtilization_t, NvmlReturn>(e),
            Ok(_) => r == Ok::<NvmlUtilization_t, NvmlReturn>(NvmlUtilization_t { gpu: 0, memory: 0 }),
        },
{
    online_reading(state, handle, NVML_ERROR_NOT_SUPPORTED, 0)?;
    Ok(NvmlUtilization_t { gpu: 0, memory: 0 })
}

/// `nvmlDeviceGetPowerUsage`: unsupported offline.
pub fn power_usage(state: &NvmlState, handle: u64) -> (r: Result<u32, NvmlReturn>)
    ensures
        r == spec_online_reading(*state, handle, NVML_ERROR_NOT_SUPPORTED, ONLINE_POWER_USAGE_MW),
{
    online_reading(state, handle, NVML_ERROR_NOT_SUPPORTED, ONLINE_POWER_USAGE_MW)
}

/// `nvmlDeviceGetFanSpeed`: unsupported offline rather than a made-up 0.
pub fn fan_speed(state: &NvmlState, handle: u64) -> (r: Result<u32, NvmlReturn>)
    ensures
        r == spec_online_reading(*state, handle, NVML_ERROR_NOT_SUPPORTED, ONLINE_FAN_SPEED_PERCENT),
{
    online_reading(state, handle, NVML_ERROR_NOT_SUPPORTED, ONLINE_FAN_SPEED_PERCENT)
}

/// `nvmlDeviceGetFanSpeed_v2`: only fan 0 exists.
pub fn fan_speed_v2(state: &NvmlState, handle: u64, fan: u32) -> (r: Result<u32, NvmlReturn>)
    ensures
        r == if fan != 0 {
            Err::<u32, NvmlReturn>(NVML_ERROR_NOT_SUPPORTED)
        } else {
            spec_online_reading(*state, handle, NVML_ERROR_NOT_SUPPORTED, ONLINE_FAN_SPEED_PERCENT)
        },
{
    if fan != 0 {
        return Err(NVML_ERROR_NOT_SUPPORTED);
    }
    fan_speed(state, handle)
}

/// `nvmlDeviceGetEnforcedPowerLimit`.
pub fn enforced_power_limit(state: &NvmlState, handle: u64) -> (r: Result<u32, NvmlReturn>)
    ensures
        r == match spec_device_index(*state, handle) {
            Err(e) => Err::<u32, NvmlReturn>(e),
            Ok(i) => Ok(state.gpus@[i as int].power_limit_mw),
        },
{
    let i = device_index(state, handle)?;
    Ok(state.gpus[i].power_limit_mw)
}

/// `nvmlDeviceGetCudaComputeCapability`: (major, minor).
pub fn cuda_compute_capability(state: &NvmlState, handle: u64) -> (r: Result<(i32, i32), NvmlReturn>)
    ensures
        r == match spec_device_index(*state, handle) {
            Err(e) => Err::<(i32, i32), NvmlReturn>(e),
            Ok(i) => Ok(
                (
                    state.gpus@[i as int].compute_major as i32,
                    state.gpus@[i as int].compute_minor as i32,
                ),
            ),
        },
{
    let i = device_index(state, handle)?;
    Ok((state.gpus[i].compute_major as i32, state.gpus[i].compute_minor as i32))
}

/// `nvmlDeviceGetPersistenceMode`: 1 when enabled, else 0.
pub fn persistence_mode(state: &NvmlState, handle: u64) -> (r: Result<u32, NvmlReturn>)
    ensures
        r == match spec_device_index(*state, handle) {
            Err(e) => Err::<u32, NvmlReturn>(e),
            Ok(i) => Ok(
                if state.gpus@[i as int].persistence_mode {
                    1u32
                } else {
                    0u32
                },
            ),
        },
{
    let i = device_index(state, handle)?;
    Ok(
        if state.gpus[i].persistence_mode {
            1
        } else {
            0
        },
    )
}

/// `nvmlDeviceGetComputeMode`: always the default mode, 0.
pub fn compute_mode(state: &NvmlState, handle: u64) -> (r: Result<u32, NvmlReturn>)
    ensures
        r == match spec_device_index(*state, handle) {
            Err(e) => Err::<u32, NvmlReturn>(e),
            Ok(_) => Ok(0u32),
        },
{
    device_index(state, handle)?;
    Ok(0)
}

/// `nvmlDeviceGetBrand`.
pub fn brand(state: &NvmlState, handle: u64) -> (r: Result<u32, NvmlReturn>)
    ensures
        r == match spec_device_index(*state, handle) {
            Err(e) => Err::<u32, NvmlReturn>(e),
            Ok(i) => Ok(spec_brand(state.gpus@[i as int].device_id, state.gpus@[i as int].name@)),
        },
{
    let i = device_index(state, handle)?;
    let g = &state.gpus[i];
    Ok(brand_for_device(g.device_id, g.name.as_str()))
}

/// `nvmlDeviceGetComputeRunningProcesses`: the process count, and without a
/// buffer (`capacity` of `None`) nothing else; with one, the first entries
/// that fit, and a too-small buffer reported as such.
pub fn compute_running_processes(state: &NvmlState, handle: u64, capacity: Option<u32>) -> (r: Result<ProcessTable, NvmlReturn>)
    ensures
        match spec_device_index(*state, handle) {
            Err(e) => r matches Err(e2) && e2 == e,
            Ok(i) => r matches Ok(t) && {
                let procs = state.gpus@[i as int].processes@;
                let n = procs.len() as u32;
                &&& t.count == n
                &&& match capacity {
                    None => t.status == NVML_SUCCESS && t.infos@.len() == 0,
                    Some(cap) => {
                        &&& t.status == if cap < n {
                            NVML_ERROR_INSUFFICIENT_SIZE
                        } else {
                            NVML_SUCCESS
                        }
                        &&& t.infos@.len() == if cap < n {
                            cap
                        } else {
                            n
                        }
                        &&& forall|k: int|
                            0 <= k < t.infos@.len() ==> #[trigger] t.infos@[k] == (NvmlProcessInfo_t {
                                pid: procs[k].pid,
                                used_gpu_memory: procs[k].used_gpu_memory,
                            })
                    },
                }
            },
        },
{
    let i = device_index(state, handle)?;
    let procs = &state.gpus[i].processes;
    let n = procs.len() as u32;
    let cap = match capacity {
        None => {
            return Ok(ProcessTable { status: NVML_SUCCESS, count: n, infos: Vec::new() });
        },
        Some(c) => c,
    };
    let write = if cap < n {
        cap
    } else {
        n
    };
    let mut infos: Vec<NvmlProcessInfo_t> = Vec::new();
    let mut k: u32 = 0;
    while k < write
        invariant
            k <= write,
            write <= n,
            n == procs@.len() as u32,
            (write as int) <= procs@.len(),
            infos@.len() == k,
            forall|q: int|
                0 <= q < k ==> #[trigger] infos@[q] == (NvmlProcessInfo_t {
                    pid: procs@[q].pid,
                    used_gpu_memory: procs@[q].used_gpu_memory,
                }),
        decreases write - k,
    {
        let p = &procs[k as usize];
        infos.push(NvmlProcessInfo_t { pid: p.pid, used_gpu_memory: p.used_gpu_memory });
        k = k + 1;
    }
    let status = if cap < n {
        NVML_ERROR_INSUFFICIENT_SIZE
    } else {
        NVML_SUCCESS
    };
    Ok(ProcessTable { status, count: n, infos })
}

/// While offline no reading is invented: temperature, power and fan speed are
/// refused for every GPU that is not online.
pub proof fn offline_readings_are_refused(s: NvmlState, handle: u64)
    requires
        spec_device_index(s, handle) matches Ok(i) && !s.gpus@[i as int].manifold.spec_is_online(),
    ensures
        spec_online_reading(s, handle, NVML_ERROR_GPU_IS_LOST, ONLINE_TEMPERATURE_C) is Err,
        spec_online_reading(s, handle, NVML_ERROR_NOT_SUPPORTED, ONLINE_POWER_USAGE_MW) is Err,
        spec_online_reading(s, handle, NVML_ERROR_NOT_SUPPORTED, ONLINE_FAN_SPEED_PERCENT) is Err,
{
}

} // verus!
