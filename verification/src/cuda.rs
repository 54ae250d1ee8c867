//! CUDA driver and runtime compatibility surface (the classic `cu*` driver
//! calls and a `cuda*` runtime subset). Every call that touches a device needs
//! the GSP online: there is no success without GPU authority.
//!
//! The state the C entry points share lives in one [`CudaState`] value, which
//! the caller owns and hands to each operation; the entry points themselves
//! only move bytes between that state and the caller's pointers.

use vstd::prelude::*;
use vstd::string::*;

use crate::cccl::host_thrust::{hermes_fill, hermes_sort};
use crate::cccl::CCCL_VERSION;
use crate::drm::atomic::{lemma_first_bounds, spec_first, spec_first_from};

verus! {

pub type CudaResult = u32;

pub const CUDA_SUCCESS: CudaResult = 0;

pub const CUDA_ERROR_INVALID_VALUE: CudaResult = 1;

pub const CUDA_ERROR_OUT_OF_MEMORY: CudaResult = 2;

pub const CUDA_ERROR_NOT_INITIALIZED: CudaResult = 3;

pub const CUDA_ERROR_DEINITIALIZED: CudaResult = 4;

pub const CUDA_ERROR_NO_DEVICE: CudaResult = 100;

pub const CUDA_ERROR_INVALID_DEVICE: CudaResult = 101;

pub const CUDA_ERROR_INVALID_CONTEXT: CudaResult = 201;

pub const CUDA_ERROR_NOT_READY: CudaResult = 600;

pub const CUDA_ERROR_NOT_SUPPORTED: CudaResult = 801;

pub const CUDA_ERROR_UNKNOWN: CudaResult = 999;

/// The GSP is not online ("HERM").
pub const CUDA_ERROR_HERMES_GSP_OFFLINE: CudaResult = 0x4845_524d;

/// Device memory of the GPU the driver reports: 8 GiB.
pub const HERMES_GPU_TOTAL_MEM: u64 = 0x2_0000_0000;

#[derive(Clone, Copy, Debug, PartialEq, Eq)]
pub struct Device {
    pub index: u32,
    pub name: &'static str,
    pub total_mem: u64,
    pub compute_major: u32,
    pub compute_minor: u32,
}

/// A driver context on a device.
#[derive(Clone, Copy, Debug, PartialEq, Eq, Structural)]
pub struct Context {
    pub id: u64,
    pub device: u32,
    pub live: bool,
}

/// Device memory allocated in a context; `data` holds its `bytes` bytes.
#[derive(Debug)]
pub struct DeviceBuffer {
    pub id: u64,
    pub ctx: u64,
    pub bytes: usize,
    pub data: Vec<u8>,
}

/// A module loaded into a context.
#[derive(Debug)]
pub struct Module {
    pub id: u64,
    pub ctx: u64,
    pub name: String,
}

/// What the driver entry points share.
pub struct CudaState {
    pub driver_init: bool,
    pub gsp_online: bool,
    pub next_handle: u64,
    pub devices: Vec<Device>,
    pub contexts: Vec<Context>,
    pub buffers: Vec<DeviceBuffer>,
    pub modules: Vec<Module>,
}

/// The handle after `h`: handles count up from 1 and skip 0 when they wrap.
pub open spec fn spec_next_handle(h: u64) -> u64 {
    if h == u64::MAX {
        1
    } else {
        (h + 1) as u64
    }
}

/// The GPU the driver reports once initialised.
pub open spec fn spec_is_hermes_gpu(d: Device) -> bool {
    &&& d.index == 0
    &&& d.name@ == "Hermes GSP GPU"@
    &&& d.total_mem == HERMES_GPU_TOTAL_MEM
    &&& d.compute_major == 7
    &&& d.compute_minor == 5
}

/// Index of the last live context among the first `n`.
pub open spec fn spec_last_live_from(ctxs: Seq<Context>, n: int) -> Option<int>
    decreases n,
{
    if n <= 0 {
        None
    } else if ctxs[n - 1].live {
        Some(n - 1)
    } else {
        spec_last_live_from(ctxs, n - 1)
    }
}

/// The current context: the most recently created one that is live.
pub open spec fn spec_current_context(ctxs: Seq<Context>) -> Option<int> {
    spec_last_live_from(ctxs, ctxs.len() as int)
}

/// Index of the buffer with handle `id`, the first if several share it.
pub open spec fn spec_buffer_index(bufs: Seq<DeviceBuffer>, id: u64) -> Option<int> {
    spec_first(bufs, |b: DeviceBuffer| b.id == id)
}

/// `a` and `b` agree on everything but the buffers.
pub open spec fn spec_same_but_buffers(a: CudaState, b: CudaState) -> bool {
    &&& b.driver_init == a.driver_init
    &&& b.gsp_online == a.gsp_online
    &&& b.next_handle == a.next_handle
    &&& b.devices@ == a.devices@
    &&& b.contexts@ == a.contexts@
    &&& b.modules@ == a.modules@
}

/// A host-to-device copy of `src` into buffer `dst`, from `before` to `after`
/// answering `r`: refused (state unchanged) for an empty source, while the GSP
/// is offline, or for an unknown or too small buffer; else the buffer's leading
/// bytes become `src`.
pub open spec fn spec_htod(
    before: CudaState,
    dst: u64,
    src: Seq<u8>,
    after: CudaState,
    r: CudaResult,
) -> bool {
    let i = spec_buffer_index(before.buffers@, dst);
    if src.len() == 0 {
        r == CUDA_ERROR_INVALID_VALUE && after == before
    } else if !before.gsp_online {
        r == CUDA_ERROR_HERMES_GSP_OFFLINE && after == before
    } else if i is None || src.len() > before.buffers@[i->0].bytes {
        r == CUDA_ERROR_INVALID_VALUE && after == before
    } else {
        let b = before.buffers@[i->0];
        &&& r == CUDA_SUCCESS
        &&& spec_same_but_buffers(before, after)
        &&& after.buffers@.len() == before.buffers@.len()
        &&& after.buffers@[i->0].id == b.id
        &&& after.buffers@[i->0].ctx == b.ctx
        &&& after.buffers@[i->0].bytes == b.bytes
        &&& after.buffers@[i->0].data@ == src + b.data@.subrange(src.len() as int, b.data@.len() as int)
        &&& forall|k: int|
            0 <= k < before.buffers@.len() && k != i->0 ==> #[trigger] after.buffers@[k]
                == before.buffers@[k]
    }
}

/// A device-to-host copy of `bytes` bytes from buffer `src`: refused for zero
/// bytes, while the GSP is offline, or for an unknown or too small buffer; else
/// the buffer's leading bytes.
pub open spec fn spec_dtoh(s: CudaState, src: u64, bytes: usize) -> Result<Seq<u8>, CudaResult> {
    let i = spec_buffer_index(s.buffers@, src);
    if bytes == 0 {
        Err(CUDA_ERROR_INVALID_VALUE)
    } else if !s.gsp_online {
        Err(CUDA_ERROR_HERMES_GSP_OFFLINE)
    } else if i is None || bytes > s.buffers@[i->0].bytes {
        Err(CUDA_ERROR_INVALID_VALUE)
    } else {
        Ok(s.buffers@[i->0].data@.subrange(0, bytes as int))
    }
}

proof fn lemma_filter_step<A>(s: Seq<A>, p: spec_fn(A) -> bool, k: int)
    requires
        0 <= k < s.len(),
    ensures
        s.subrange(0, k + 1).filter(p) == if p(s[k]) {
            s.subrange(0, k).filter(p).push(s[k])
        } else {
            s.subrange(0, k).filter(p)
        },
{
    reveal(Seq::filter);
    assert(s.subrange(0, k + 1).drop_last() =~= s.subrange(0, k));
}

/// The elements of `v` that `keep` accepts, in order.
fn retain_where<T, F: Fn(&T) -> bool>(v: Vec<T>, keep: F, Ghost(p): Ghost<spec_fn(T) -> bool>) -> (out: Vec<T>)
    requires
        forall|x: &T| #[trigger] keep.requires((x,)),
        forall|x: &T, b: bool| keep.ensures((x,), b) ==> b == p(*x),
    ensures
        out@ == v@.filter(p),
{
    let ghost orig = v@;
    let mut src = v;
    let mut out: Vec<T> = Vec::new();
    let ghost mut k: int = 0;
    while src.len() > 0
        invariant
            0 <= k <= orig.len(),
            src@ == orig.subrange(k, orig.len() as int),
            out@ == orig.subrange(0, k).filter(p),
            forall|x: &T| #[trigger] keep.requires((x,)),
            forall|x: &T, b: bool| keep.ensures((x,), b) ==> b == p(*x),
        decreases src@.len(),
    {
        let x = src.remove(0);
        proof {
            assert(x == orig[k]);
            lemma_filter_step(orig, p, k);
        }
        if keep(&x) {
            out.push(x);
        }
        proof {
            k = k + 1;
            assert(src@ =~= orig.subrange(k, orig.len() as int));
        }
    }
    proof {
        assert(orig.subrange(0, k) =~= orig);
    }
    out
}

proof fn lemma_first_id_stable(a: Seq<DeviceBuffer>, b: Seq<DeviceBuffer>, id: u64, i: int)
    requires
        a.len() == b.len(),
        forall|k: int| 0 <= k < a.len() ==> (#[trigger] a[k]).id == b[k].id,
    ensures
        spec_first_from(a, |x: DeviceBuffer| x.id == id, i) == spec_first_from(
            b,
            |x: DeviceBuffer| x.id == id,
            i,
        ),
    decreases a.len() - i,
{
    if 0 <= i < a.len() {
        lemma_first_id_stable(a, b, id, i + 1);
    }
}

/// Buffers that hold their size keep doing so through a filter.
proof fn lemma_filter_keeps_sizes(bufs: Seq<DeviceBuffer>, p: spec_fn(DeviceBuffer) -> bool)
    requires
        forall|i: int| 0 <= i < bufs.len() ==> (#[trigger] bufs[i]).data@.len() == bufs[i].bytes,
    ensures
        forall|i: int|
            0 <= i < bufs.filter(p).len() ==> (#[trigger] bufs.filter(p)[i]).data@.len()
                == bufs.filter(p)[i].bytes,
{
    assert forall|i: int| 0 <= i < bufs.filter(p).len() implies (#[trigger] bufs.filter(
        p,
    )[i]).data@.len() == bufs.filter(p)[i].bytes by {
        let b = bufs.filter(p)[i];
        assert(bufs.filter(p).contains(b));
        bufs.lemma_filter_contains_rev(p, b);
        let j = choose|j: int| 0 <= j < bufs.len() && bufs[j] == b;
        assert(bufs[j].data@.len() == bufs[j].bytes);
    }
}

fn find_buffer(bufs: &Vec<DeviceBuffer>, id: u64) -> (r: Option<usize>)
    ensures
        r matches Some(i) ==> spec_buffer_index(bufs@, id) == Some(i as int) && i < bufs@.len(),
        r is None ==> spec_buffer_index(bufs@, id) is None,
{
    let mut i: usize = 0;
    while i < bufs.len()
        invariant
            i <= bufs@.len(),
            spec_buffer_index(bufs@, id) == spec_first_from(
                bufs@,
                |b: DeviceBuffer| b.id == id,
                i as int,
            ),
        decreases bufs@.len() - i,
    {
        if bufs[i].id == id {
            return Some(i);
        }
        i = i + 1;
    }
    None
}

fn current_context(ctxs: &Vec<Context>) -> (r: Option<u64>)
    ensures
        r matches Some(id) ==> spec_current_context(ctxs@) matches Some(i) && ctxs@[i].id == id,
        r is None ==> spec_current_context(ctxs@) is None,
{
    let mut n: usize = ctxs.len();
    while n > 0
        invariant
            n <= ctxs@.len(),
            spec_current_context(ctxs@) == spec_last_live_from(ctxs@, n as int),
        decreases n,
    {
        if ctxs[n - 1].live {
            return Some(ctxs[n - 1].id);
        }
        n = n - 1;
    }
    None
}

impl CudaState {
    /// At most one device, and each buffer holds exactly its size in bytes.
    pub open spec fn wf(&self) -> bool {
        &&& self.devices@.len() <= 1
        &&& forall|i: int|
            0 <= i < self.buffers@.len() ==> (#[trigger] self.buffers@[i]).data@.len()
                == self.buffers@[i].bytes
    }

    /// Offline and uninitialised, with nothing allocated; handles start at 1.
    pub fn new() -> (s: Self)
        ensures
            s.wf(),
            !s.driver_init,
            !s.gsp_online,
            s.next_handle == 1,
            s.devices@.len() == 0,
            s.contexts@.len() == 0,
            s.buffers@.len() == 0,
            s.modules@.len() == 0,
    {
        CudaState {
            driver_init: false,
            gsp_online: false,
            next_handle: 1,
            devices: Vec::new(),
            contexts: Vec::new(),
            buffers: Vec::new(),
            modules: Vec::new(),
        }
    }

    fn next_id(&mut self) -> (id: u64)
        ensures
            id == old(self).next_handle,
            final(self).next_handle == spec_next_handle(old(self).next_handle),
            final(self).driver_init == old(self).driver_init,
            final(self).gsp_online == old(self).gsp_online,
            final(self).devices@ == old(self).devices@,
            final(self).contexts@ == old(self).contexts@,
            final(self).buffers@ == old(self).buffers@,
            final(self).modules@ == old(self).modules@,
    {
        let id = self.next_handle;
        let n = self.next_handle.wrapping_add(1);
        self.next_handle = if n < 1 {
            1
        } else {
            n
        };
        id
    }

    /// `cuInit`: needs the GSP online; reports the Hermes GPU and marks the
    /// driver initialised.
    pub fn cu_init(&mut self) -> (r: CudaResult)
        requires
            old(self).wf(),
        ensures
            final(self).wf(),
            !old(self).gsp_online ==> r == CUDA_ERROR_HERMES_GSP_OFFLINE && *final(self) == *old(self),
            old(self).gsp_online ==> {
                &&& r == CUDA_SUCCESS
                &&& final(self).driver_init
                &&& final(self).devices@.len() == 1
                &&& old(self).devices@.len() == 0 ==> spec_is_hermes_gpu(final(self).devices@[0])
                &&& old(self).devices@.len() > 0 ==> final(self).devices@ == old(self).devices@
                &&& final(self).gsp_online == old(self).gsp_online
                &&& final(self).next_handle == old(self).next_handle
                &&& final(self).contexts@ == old(self).contexts@
                &&& final(self).buffers@ == old(self).buffers@
                &&& final(self).modules@ == old(self).modules@
            },
    {
        if !self.gsp_online {
            return CUDA_ERROR_HERMES_GSP_OFFLINE;
        }
        if self.devices.len() == 0 {
            let name = "Hermes GSP GPU";
            proof {
                reveal_strlit("Hermes GSP GPU");
            }
            self.devices.push(
                Device {
                    index: 0,
                    name,
                    total_mem: HERMES_GPU_TOTAL_MEM,
                    compute_major: 7,
                    compute_minor: 5,
                },
            );
        }
        self.driver_init = true;
        CUDA_SUCCESS
    }

    /// `cuDeviceGetCount`: the number of devices once the driver is initialised.
    pub fn cu_device_get_count(&self) -> (r: Result<i32, CudaResult>)
        requires
            self.wf(),
        ensures
            !self.driver_init ==> r == Err::<i32, CudaResult>(CUDA_ERROR_NOT_INITIALIZED),
            self.driver_init ==> r == Ok::<i32, CudaResult>(self.devices@.len() as i32),
    {
        if !self.driver_init {
            return Err(CUDA_ERROR_NOT_INITIALIZED);
        }
        Ok(self.devices.len() as i32)
    }

    /// `cuDeviceGet`: the ordinal itself, when it names a device.
    pub fn cu_device_get(&self, ordinal: i32) -> (r: Result<i32, CudaResult>)
        ensures
            ordinal < 0 ==> r == Err::<i32, CudaResult>(CUDA_ERROR_INVALID_VALUE),
            ordinal >= 0 && !self.driver_init ==> r == Err::<i32, CudaResult>(
                CUDA_ERROR_NOT_INITIALIZED,
            ),
            ordinal >= 0 && self.driver_init && ordinal >= self.devices@.len() ==> r == Err::<
                i32,
                CudaResult,
            >(CUDA_ERROR_INVALID_DEVICE),
            ordinal >= 0 && self.driver_init && ordinal < self.devices@.len() ==> r == Ok::<
                i32,
                CudaResult,
            >(ordinal),
    {
        if ordinal < 0 {
            return Err(CUDA_ERROR_INVALID_VALUE);
        }
        if !self.driver_init {
            return Err(CUDA_ERROR_NOT_INITIALIZED);
        }
        if ordinal as usize >= self.devices.len() {
            return Err(CUDA_ERROR_INVALID_DEVICE);
        }
        Ok(ordinal)
    }

    /// `cuCtxCreate`: a new live context on `device`, given the next handle.
    pub fn cu_ctx_create(&mut self, device: i32) -> (r: Result<u64, CudaResult>)
        requires
            old(self).wf(),
        ensures
            final(self).wf(),
            r is Err ==> *final(self) == *old(self),
            !old(self).gsp_online ==> r == Err::<u64, CudaResult>(CUDA_ERROR_HERMES_GSP_OFFLINE),
            old(self).gsp_online && !old(self).driver_init ==> r == Err::<u64, CudaResult>(
                CUDA_ERROR_NOT_INITIALIZED,
            ),
            old(self).gsp_online && old(self).driver_init && (device < 0 || device
                >= old(self).devices@.len()) ==> r == Err::<u64, CudaResult>(
                CUDA_ERROR_INVALID_DEVICE,
            ),
            old(self).gsp_online && old(self).driver_init && 0 <= device < old(
                self,
            ).devices@.len() ==> {
                &&& r == Ok::<u64, CudaResult>(old(self).next_handle)
                &&& final(self).contexts@ == old(self).contexts@.push(
                    Context { id: old(self).next_handle, device: device as u32, live: true },
                )
                &&& final(self).next_handle == spec_next_handle(old(self).next_handle)
                &&& final(self).driver_init == old(self).driver_init
                &&& final(self).gsp_online == old(self).gsp_online
                &&& final(self).devices@ == old(self).devices@
                &&& final(self).buffers@ == old(self).buffers@
                &&& final(self).modules@ == old(self).modules@
            },
    {
        if !self.gsp_online {
            return Err(CUDA_ERROR_HERMES_GSP_OFFLINE);
        }
        if !self.driver_init {
            return Err(CUDA_ERROR_NOT_INITIALIZED);
        }
        if device < 0 || device as usize >= self.devices.len() {
            return Err(CUDA_ERROR_INVALID_DEVICE);
        }
        let id = self.next_id();
        self.contexts.push(Context { id, device: device as u32, live: true });
        Ok(id)
    }

    /// `cuCtxDestroy`: drops the context and every buffer and module made in it;
    /// the null context is accepted and changes nothing.
    pub fn cu_ctx_destroy(&mut self, ctx: u64) -> (r: CudaResult)
        requires
            old(self).wf(),
        ensures
            final(self).wf(),
            r == CUDA_SUCCESS,
            ctx == 0 ==> *final(self) == *old(self),
            ctx != 0 ==> {
                &&& final(self).buffers@ == old(self).buffers@.filter(
                    |b: DeviceBuffer| b.ctx != ctx,
                )
                &&& final(self).modules@ == old(self).modules@.filter(|m: Module| m.ctx != ctx)
                &&& final(self).contexts@ == old(self).contexts@.filter(|c: Context| c.id != ctx)
                &&& final(self).driver_init == old(self).driver_init
                &&& final(self).gsp_online == old(self).gsp_online
                &&& final(self).next_handle == old(self).next_handle
                &&& final(self).devices@ == old(self).devices@
            },
    {
        if ctx == 0 {
            return CUDA_SUCCESS;
        }
        let mut bufs: Vec<DeviceBuffer> = Vec::new();
        std::mem::swap(&mut bufs, &mut self.buffers);
        let ghost pb = |b: DeviceBuffer| b.ctx != ctx;
        let keep_b = |b: &DeviceBuffer| -> (k: bool)
            ensures
                k == (b.ctx != ctx),
        {
            b.ctx != ctx
        };
        self.buffers = retain_where(
            bufs,
            keep_b,
            Ghost(pb),
        );
        let mut mods: Vec<Module> = Vec::new();
        std::mem::swap(&mut mods, &mut self.modules);
        let ghost pm = |m: Module| m.ctx != ctx;
        let keep_m = |m: &Module| -> (k: bool)
            ensures
                k == (m.ctx != ctx),
        {
            m.ctx != ctx
        };
        self.modules = retain_where(
            mods,
            keep_m,
            Ghost(pm),
        );
        let mut ctxs: Vec<Context> = Vec::new();
        std::mem::swap(&mut ctxs, &mut self.contexts);
        let ghost pc = |c: Context| c.id != ctx;
        let keep_c = |c: &Context| -> (k: bool)
            ensures
                k == (c.id != ctx),
        {
            c.id != ctx
        };
        self.contexts = retain_where(
            ctxs,
            keep_c,
            Ghost(pc),
        );
        proof {
            lemma_filter_keeps_sizes(old(self).buffers@, pb);
        }
        CUDA_SUCCESS
    }

    /// `cuMemAlloc`: zeroed device memory of `bytesize` bytes in the current
    /// context, given the next handle.
    pub fn cu_mem_alloc(&mut self, bytesize: usize) -> (r: Result<u64, CudaResult>)
        requires
            old(self).wf(),
        ensures
            final(self).wf(),
            r is Err ==> *final(self) == *old(self),
            bytesize == 0 ==> r == Err::<u64, CudaResult>(CUDA_ERROR_INVALID_VALUE),
            bytesize > 0 && !old(self).gsp_online ==> r == Err::<u64, CudaResult>(
                CUDA_ERROR_HERMES_GSP_OFFLINE,
            ),
            bytesize > 0 && old(self).gsp_online && spec_current_context(old(self).contexts@)
                is None ==> r == Err::<u64, CudaResult>(CUDA_ERROR_INVALID_CONTEXT),
            bytesize > 0 && old(self).gsp_online ==> (spec_current_context(old(self).contexts@)
                matches Some(ci) ==> {
                &&& r == Ok::<u64, CudaResult>(old(self).next_handle)
                &&& final(self).buffers@.len() == old(self).buffers@.len() + 1
                &&& final(self).buffers@.drop_last() == old(self).buffers@
                &&& final(self).buffers@.last().id == old(self).next_handle
                &&& final(self).buffers@.last().ctx == old(self).contexts@[ci].id
                &&& final(self).buffers@.last().bytes == bytesize
                &&& final(self).buffers@.last().data@ == Seq::new(bytesize as nat, |k: int| 0u8)
                &&& final(self).next_handle == spec_next_handle(old(self).next_handle)
                &&& final(self).driver_init == old(self).driver_init
                &&& final(self).gsp_online == old(self).gsp_online
                &&& final(self).devices@ == old(self).devices@
                &&& final(self).contexts@ == old(self).contexts@
                &&& final(self).modules@ == old(self).modules@
            }),
    {
        if bytesize == 0 {
            return Err(CUDA_ERROR_INVALID_VALUE);
        }
        if !self.gsp_online {
            return Err(CUDA_ERROR_HERMES_GSP_OFFLINE);
        }
        let ctx = match current_context(&self.contexts) {
            Some(c) => c,
            None => {
                return Err(CUDA_ERROR_INVALID_CONTEXT);
            },
        };
        let id = self.next_id();
        let mut data: Vec<u8> = Vec::new();
        let mut k: usize = 0;
        while k < bytesize
            invariant
                k <= bytesize,
                data@ == Seq::new(k as nat, |q: int| 0u8),
            decreases bytesize - k,
        {
            data.push(0u8);
            k = k + 1;
            assert(data@ =~= Seq::new(k as nat, |q: int| 0u8));
        }
        self.buffers.push(DeviceBuffer { id, ctx, bytes: bytesize, data });
        proof {
            assert(self.buffers@.drop_last() =~= old(self).buffers@);
        }
        Ok(id)
    }

    /// `cuMemFree`: drops the buffers with handle `dptr`; refused when there is
    /// none.
    pub fn cu_mem_free(&mut self, dptr: u64) -> (r: CudaResult)
        requires
            old(self).wf(),
        ensures
            final(self).wf(),
            final(self).buffers@ == old(self).buffers@.filter(|b: DeviceBuffer| b.id != dptr),
            spec_same_but_buffers(*old(self), *final(self)),
            r == if spec_buffer_index(old(self).buffers@, dptr) is None {
                CUDA_ERROR_INVALID_VALUE
            } else {
                CUDA_SUCCESS
            },
    {
        let found = find_buffer(&self.buffers, dptr);
        let mut bufs: Vec<DeviceBuffer> = Vec::new();
        std::mem::swap(&mut bufs, &mut self.buffers);
        let ghost p = |b: DeviceBuffer| b.id != dptr;
        let keep = |b: &DeviceBuffer| -> (k: bool)
            ensures
                k == (b.id != dptr),
        {
            b.id != dptr
        };
        self.buffers = retain_where(bufs, keep, Ghost(p));
        proof {
            lemma_filter_keeps_sizes(old(self).buffers@, p);
        }
        if found.is_none() {
            CUDA_ERROR_INVALID_VALUE
        } else {
            CUDA_SUCCESS
        }
    }

    /// `cuMemcpyHtoD`: writes `src` over the leading bytes of buffer `dst`.
    pub fn cu_memcpy_htod(&mut self, dst: u64, src: &[u8]) -> (r: CudaResult)
        requires
            old(self).wf(),
        ensures
            final(self).wf(),
            spec_htod(*old(self), dst, src@, *final(self), r),
    {
        if src.len() == 0 {
            return CUDA_ERROR_INVALID_VALUE;
        }
        if !self.gsp_online {
            return CUDA_ERROR_HERMES_GSP_OFFLINE;
        }
        let idx = match find_buffer(&self.buffers, dst) {
            Some(i) => i,
            None => {
                return CUDA_ERROR_INVALID_VALUE;
            },
        };
        if src.len() > self.buffers[idx].bytes {
            return CUDA_ERROR_INVALID_VALUE;
        }
        let mut b = self.buffers.remove(idx);
        let ghost before = b;
        let n = src.len();
        let mut k: usize = 0;
        while k < n
            invariant
                n == src@.len(),
                k <= n,
                n <= before.data@.len(),
                b.data@.len() == before.data@.len(),
                b.id == before.id,
                b.ctx == before.ctx,
                b.bytes == before.bytes,
                forall|q: int| 0 <= q < k ==> b.data@[q] == src@[q],
                forall|q: int| k <= q < b.data@.len() ==> b.data@[q] == before.data@[q],
            decreases n - k,
        {
            b.data.set(k, src[k]);
            k = k + 1;
        }
        proof {
            assert(b.data@ =~= src@ + before.data@.subrange(n as int, before.data@.len() as int));
        }
        self.buffers.insert(idx, b);
        proof {
            assert(self.buffers@ =~= old(self).buffers@.update(idx as int, b));
        }
        CUDA_SUCCESS
    }

    /// `cuMemcpyDtoH`: the leading `bytes` bytes of buffer `src`.
    pub fn cu_memcpy_dtoh(&self, src: u64, bytes: usize) -> (r: Result<Vec<u8>, CudaResult>)
        requires
            self.wf(),
        ensures
            match r {
                Ok(v) => spec_dtoh(*self, src, bytes) == Ok::<Seq<u8>, CudaResult>(v@),
                Err(e) => spec_dtoh(*self, src, bytes) == Err::<Seq<u8>, CudaResult>(e),
            },
    {
        if bytes == 0 {
            return Err(CUDA_ERROR_INVALID_VALUE);
        }
        if !self.gsp_online {
            return Err(CUDA_ERROR_HERMES_GSP_OFFLINE);
        }
        let idx = match find_buffer(&self.buffers, src) {
            Some(i) => i,
            None => {
                return Err(CUDA_ERROR_INVALID_VALUE);
            },
        };
        let b = &self.buffers[idx];
        if bytes > b.bytes {
            return Err(CUDA_ERROR_INVALID_VALUE);
        }
        let mut out: Vec<u8> = Vec::new();
        let mut k: usize = 0;
        while k < bytes
            invariant
                k <= bytes,
                bytes <= b.data@.len(),
                out@ == b.data@.subrange(0, k as int),
            decreases bytes - k,
        {
            out.push(b.data[k]);
            k = k + 1;
            assert(out@ =~= b.data@.subrange(0, k as int));
        }
        Ok(out)
    }

    /// `cuModuleLoadData`: a module in the current context, given the next
    /// handle.
    pub fn cu_module_load_data(&mut self) -> (r: Result<u64, CudaResult>)
        requires
            old(self).wf(),
        ensures
            final(self).wf(),
            r is Err ==> *final(self) == *old(self),
            !old(self).gsp_online ==> r == Err::<u64, CudaResult>(CUDA_ERROR_HERMES_GSP_OFFLINE),
            old(self).gsp_online && spec_current_context(old(self).contexts@) is None ==> r == Err::<
                u64,
                CudaResult,
            >(CUDA_ERROR_INVALID_CONTEXT),
            old(self).gsp_online ==> (spec_current_context(old(self).contexts@) matches Some(ci)
                ==> {
                &&& r == Ok::<u64, CudaResult>(old(self).next_handle)
                &&& final(self).modules@.len() == old(self).modules@.len() + 1
                &&& final(self).modules@.drop_last() == old(self).modules@
                &&& final(self).modules@.last().id == old(self).next_handle
                &&& final(self).modules@.last().ctx == old(self).contexts@[ci].id
                &&& final(self).modules@.last().name@ == "module"@
                &&& final(self).next_handle == spec_next_handle(old(self).next_handle)
                &&& final(self).driver_init == old(self).driver_init
                &&& final(self).gsp_online == old(self).gsp_online
                &&& final(self).devices@ == old(self).devices@
                &&& final(self).contexts@ == old(self).contexts@
                &&& final(self).buffers@ == old(self).buffers@
            }),
    {
        if !self.gsp_online {
            return Err(CUDA_ERROR_HERMES_GSP_OFFLINE);
        }
        let ctx = match current_context(&self.contexts) {
            Some(c) => c,
            None => {
                return Err(CUDA_ERROR_INVALID_CONTEXT);
            },
        };
        let id = self.next_id();
        let name = String::from_str("module");
        self.modules.push(Module { id, ctx, name });
        proof {
            assert(self.modules@.drop_last() =~= old(self).modules@);
        }
        Ok(id)
    }

    /// `cudaGetDeviceCount`: initialises the driver, then counts its devices.
    pub fn cuda_get_device_count(&mut self) -> (r: Result<i32, CudaResult>)
        requires
            old(self).wf(),
        ensures
            final(self).wf(),
            !old(self).gsp_online ==> r == Err::<i32, CudaResult>(CUDA_ERROR_HERMES_GSP_OFFLINE)
                && *final(self) == *old(self),
            old(self).gsp_online ==> {
                &&& r == Ok::<i32, CudaResult>(1)
                &&& final(self).driver_init
                &&& final(self).devices@.len() == 1
                &&& old(self).devices@.len() > 0 ==> final(self).devices@ == old(self).devices@
                &&& old(self).devices@.len() == 0 ==> spec_is_hermes_gpu(final(self).devices@[0])
                &&& final(self).gsp_online == old(self).gsp_online
                &&& final(self).next_handle == old(self).next_handle
                &&& final(self).contexts@ == old(self).contexts@
                &&& final(self).buffers@ == old(self).buffers@
                &&& final(self).modules@ == old(self).modules@
            },
    {
        let r = self.cu_init();
        if r != CUDA_SUCCESS {
            return Err(r);
        }
        self.cu_device_get_count()
    }
}

/// Publishes whether the GSP is online; going offline drops every context,
/// buffer and module and un-initialises the driver.
pub fn hermes_cuda_set_gsp_online(state: &mut CudaState, online: bool)
    requires
        old(state).wf(),
    ensures
        final(state).wf(),
        final(state).gsp_online == online,
        final(state).next_handle == old(state).next_handle,
        final(state).devices@ == old(state).devices@,
        online ==> {
            &&& final(state).driver_init == old(state).driver_init
            &&& final(state).contexts@ == old(state).contexts@
            &&& final(state).buffers@ == old(state).buffers@
            &&& final(state).modules@ == old(state).modules@
        },
        !online ==> {
            &&& !final(state).driver_init
            &&& final(state).contexts@.len() == 0
            &&& final(state).buffers@.len() == 0
            &&& final(state).modules@.len() == 0
        },
{
    state.gsp_online = online;
    if !online {
        state.contexts.clear();
        state.buffers.clear();
        state.modules.clear();
        state.driver_init = false;
    }
}

pub fn hermes_cuda_gsp_online(state: &CudaState) -> (online: bool)
    ensures
        online == state.gsp_online,
{
    state.gsp_online
}

/// Back to the state [`CudaState::new`] gives.
pub fn hermes_cuda_reset(state: &mut CudaState)
    ensures
        final(state).wf(),
        !final(state).driver_init,
        !final(state).gsp_online,
        final(state).next_handle == 1,
        final(state).devices@.len() == 0,
        final(state).contexts@.len() == 0,
        final(state).buffers@.len() == 0,
        final(state).modules@.len() == 0,
{
    *state = CudaState::new();
}

/// Sorts on the host, ascending.
pub fn hermes_cuda_host_sort_i32(data: &mut [i32])
    ensures
        final(data)@.to_multiset() == old(data)@.to_multiset(),
        forall|i: int, j: int|
            0 <= i <= j < final(data)@.len() ==> #[trigger] final(data)@[i] <= #[trigger] final(data)@[j],
{
    proof {
        broadcast use vstd::laws_cmp::group_laws_cmp;
    }
    hermes_sort(data);
}

/// Fills on the host.
pub fn hermes_cuda_host_fill_u8(data: &mut [u8], value: u8)
    ensures
        final(data)@ == Seq::new(old(data)@.len(), |i: int| value),
{
    hermes_fill(data, value);
}

pub fn hermes_cuda_cccl_version() -> (v: &'static str)
    ensures
        v@ == CCCL_VERSION@,
{
    CCCL_VERSION
}

/// The host algorithms need no device, so they are always there.
pub fn hermes_cuda_host_thrust_available() -> (available: bool)
    ensures
        available,
{
    true
}

/// A device buffer reads back what was written to it: after a host-to-device
/// copy of `src` into `dst` succeeds, copying `src.len()` bytes back from `dst`
/// gives `src`.
pub proof fn device_copy_reads_back_written_bytes(
    before: CudaState,
    after: CudaState,
    dst: u64,
    src: Seq<u8>,
)
    requires
        before.wf(),
        spec_htod(before, dst, src, after, CUDA_SUCCESS),
    ensures
        src.len() <= usize::MAX,
        spec_dtoh(after, dst, src.len() as usize) == Ok::<Seq<u8>, CudaResult>(src),
{
    let i = spec_buffer_index(before.buffers@, dst);
    lemma_first_bounds(before.buffers@, |b: DeviceBuffer| b.id == dst, 0);
    let ii = i->0;
    assert forall|k: int| 0 <= k < before.buffers@.len() implies (#[trigger] before.buffers@[k]).id
        == after.buffers@[k].id by {
        if k != ii {
            assert(after.buffers@[k] == before.buffers@[k]);
        }
    }
    lemma_first_id_stable(before.buffers@, after.buffers@, dst, 0);
    let b = before.buffers@[ii];
    assert(b.data@.len() == b.bytes);
    assert(after.buffers@[ii].data@.subrange(0, src.len() as int) =~= src);
}

/// Without the GSP no copy moves a byte: a host-to-device copy is refused and
/// leaves the state as it was, and a device-to-host copy is refused.
pub proof fn offline_copies_are_refused(
    before: CudaState,
    after: CudaState,
    dst: u64,
    src: Seq<u8>,
    r: CudaResult,
    bytes: usize,
)
    requires
        !before.gsp_online,
        spec_htod(before, dst, src, after, r),
    ensures
        r != CUDA_SUCCESS,
        after == before,
        spec_dtoh(before, dst, bytes) is Err,
{
}

} // verus!
