//! GEM-like buffer objects and DRM dumb-buffer creation.
//!
//! Host-side model: handles are stable ids and each object owns its backing
//! bytes, mapped as a slice for software scanout.

use vstd::prelude::*;

verus! {

#[derive(Clone, Copy, Debug, PartialEq, Eq, Structural)]
pub enum GemError {
    GspOffline,
    InvalidSize,
    InvalidHandle,
    Busy,
    OutOfMemory,
}

#[derive(Clone, Copy, Debug, PartialEq, Eq, Structural)]
pub struct DumbCreateRequest {
    pub width: u32,
    pub height: u32,
    pub bpp: u32,
}

#[derive(Clone, Copy, Debug, PartialEq, Eq, Structural)]
pub struct DumbCreateResult {
    pub handle: u32,
    pub pitch: u32,
    pub size: u64,
}

/// Largest dumb buffer: 512 MiB.
pub const MAX_DUMB_BYTES: u64 = 0x2000_0000;

/// Unaligned row length: width times whole bytes per pixel.
pub open spec fn spec_raw_pitch(req: DumbCreateRequest) -> int {
    req.width * ((req.bpp + 7) / 8)
}

/// Rounds up to a multiple of 64 bytes.
pub open spec fn spec_align64(n: int) -> int {
    ((n + 63) / 64) * 64
}

/// Pitch and size of a dumb buffer, or why it is refused: zero dimensions or a
/// row wider than 32 bits are invalid, more than 512 MiB is out of memory.
pub open spec fn spec_dumb_layout(req: DumbCreateRequest) -> Result<(u32, u64), GemError> {
    if req.width == 0 || req.height == 0 || req.bpp == 0 {
        Err(GemError::InvalidSize)
    } else if spec_raw_pitch(req) > u32::MAX {
        Err(GemError::InvalidSize)
    } else if spec_align64(spec_raw_pitch(req)) * req.height > MAX_DUMB_BYTES {
        Err(GemError::OutOfMemory)
    } else {
        Ok(
            (
                spec_align64(spec_raw_pitch(req)) as u32,
                (spec_align64(spec_raw_pitch(req)) * req.height) as u64,
            ),
        )
    }
}

/// The request does not hit the 32-bit overflow of aligning a row just below
/// 4 GiB up to 64 bytes.
pub open spec fn spec_dumb_request_aligns(req: DumbCreateRequest) -> bool {
    req.width == 0 || req.height == 0 || req.bpp == 0 || spec_raw_pitch(req) > u32::MAX
        || spec_align64(spec_raw_pitch(req)) <= u32::MAX
}

/// Byte `k` (little-endian) of `color`.
pub open spec fn spec_le_byte(color: u32, k: int) -> u8 {
    ((color as int / pow256(k)) % 256) as u8
}

pub open spec fn pow256(k: int) -> int {
    if k <= 0 {
        1
    } else if k == 1 {
        0x100
    } else if k == 2 {
        0x1_0000
    } else {
        0x100_0000
    }
}

#[derive(Clone, Debug)]
pub struct GemObject {
    pub handle: u32,
    pub size: u64,
    pub pitch: u32,
    pub width: u32,
    pub height: u32,
    pub bpp: u32,
    /// Host backing store.
    pub data: Vec<u8>,
    pub name: Option<u32>,
    pub refcount: u32,
}

impl GemObject {
    /// A zero-filled dumb buffer with 64-byte-aligned rows.
    pub fn create_dumb(handle: u32, req: &DumbCreateRequest) -> (r: Result<Self, GemError>)
        requires
            spec_dumb_request_aligns(*req),
        ensures
            match spec_dumb_layout(*req) {
                Err(e) => r == Err::<Self, GemError>(e),
                Ok((pitch, size)) => r matches Ok(o) && o.handle == handle && o.pitch == pitch
                    && o.size == size && o.width == req.width && o.height == req.height && o.bpp
                    == req.bpp && o.data@ == Seq::new(size as nat, |i: int| 0u8) && o.name is None
                    && o.refcount == 1,
            },
    {
        if req.width == 0 || req.height == 0 || req.bpp == 0 {
            return Err(GemError::InvalidSize);
        }
        let bpp_bytes: u32 = req.bpp / 8 + if req.bpp % 8 != 0 {
            1
        } else {
            0
        };
        assert(bpp_bytes == (req.bpp + 7) / 8);
        let raw = match req.width.checked_mul(bpp_bytes) {
            Some(p) => p,
            None => {
                return Err(GemError::InvalidSize);
            },
        };
        let pitch: u32 = raw / 64 * 64 + if raw % 64 != 0 {
            64
        } else {
            0
        };
        assert(pitch == spec_align64(raw as int));
        assert((pitch as u64) * (req.height as u64) <= 0xffff_ffff * 0xffff_ffff) by (nonlinear_arith)
            requires
                pitch <= 0xffff_ffff,
                req.height <= 0xffff_ffff,
        ;
        let size: u64 = (pitch as u64) * (req.height as u64);
        if size > MAX_DUMB_BYTES {
            return Err(GemError::OutOfMemory);
        }
        let data: Vec<u8> = vec![0u8; size as usize];
        assert(data@ =~= Seq::new(size as nat, |i: int| 0u8));
        Ok(
            GemObject {
                handle,
                size,
                pitch,
                width: req.width,
                height: req.height,
                bpp: req.bpp,
                data,
                name: None,
                refcount: 1,
            },
        )
    }

    /// Fills every whole 4-byte pixel with `color` in little-endian order; only
    /// 32-bpp buffers can be filled.
    #[verifier::loop_isolation(false)]
    pub fn fill_solid_xrgb8888(&mut self, color: u32) -> (r: Result<(), GemError>)
        ensures
            old(self).bpp != 32 ==> r == Err::<(), GemError>(GemError::InvalidSize) && *final(self)
                == *old(self),
            old(self).bpp == 32 ==> r is Ok,
            final(self).handle == old(self).handle,
            final(self).size == old(self).size,
            final(self).pitch == old(self).pitch,
            final(self).width == old(self).width,
            final(self).height == old(self).height,
            final(self).bpp == old(self).bpp,
            final(self).data@.len() == old(self).data@.len(),
            old(self).bpp == 32 ==> forall|i: int|
                0 <= i < old(self).data@.len() ==> #[trigger] final(self).data@[i] == if i < old(
                    self,
                ).data@.len() - old(self).data@.len() % 4 {
                    spec_le_byte(color, i % 4)
                } else {
                    old(self).data@[i]
                },
    {
        if self.bpp != 32 {
            return Err(GemError::InvalidSize);
        }
        let b0 = (color % 0x100) as u8;
        let b1 = (color / 0x100 % 0x100) as u8;
        let b2 = (color / 0x1_0000 % 0x100) as u8;
        let b3 = (color / 0x100_0000 % 0x100) as u8;
        let n = self.data.len();
        let whole = n - n % 4;
        let ghost before = self.data@;
        let mut i: usize = 0;
        while i < whole
            invariant
                i <= whole,
                i % 4 == 0,
                whole == n - n % 4,
                n == before.len(),
                self.data@.len() == n,
                self.bpp == 32,
                self.handle == old(self).handle,
                self.size == old(self).size,
                self.pitch == old(self).pitch,
                self.width == old(self).width,
                self.height == old(self).height,
                self.name == old(self).name,
                self.refcount == old(self).refcount,
                forall|k: int| 0 <= k < i ==> #[trigger] self.data@[k] == spec_le_byte(color, k % 4),
                forall|k: int| i <= k < n ==> #[trigger] self.data@[k] == before[k],
                b0 == spec_le_byte(color, 0),
                b1 == spec_le_byte(color, 1),
                b2 == spec_le_byte(color, 2),
                b3 == spec_le_byte(color, 3),
            decreases whole - i,
        {
            self.data[i] = b0;
            self.data[i + 1] = b1;
            self.data[i + 2] = b2;
            self.data[i + 3] = b3;
            i = i + 4;
        }
        Ok(())
    }

    /// The backing bytes.
    pub fn map(&self) -> (bytes: &[u8])
        ensures
            bytes@ == self.data@,
    {
        self.data.as_slice()
    }

    /// The backing bytes, writable.
    pub fn map_mut(&mut self) -> (bytes: &mut [u8])
        ensures
            bytes@ == old(self).data@,
            final(bytes)@ == final(self).data@,
    {
        self.data.as_mut_slice()
    }
}

} // verus!

verus! {

/// Index of the first object with `handle` among objects `i..`.
pub open spec fn spec_find_from(objects: Seq<GemObject>, handle: u32, i: int) -> Option<int>
    decreases objects.len() - i,
{
    if i < 0 || i >= objects.len() {
        None
    } else if objects[i].handle == handle {
        Some(i)
    } else {
        spec_find_from(objects, handle, i + 1)
    }
}

/// Index of the first object with `handle`.
pub open spec fn spec_find(objects: Seq<GemObject>, handle: u32) -> Option<int> {
    spec_find_from(objects, handle, 0)
}

/// The objects whose handle is not `handle`, in order.
pub open spec fn spec_without(objects: Seq<GemObject>, handle: u32) -> Seq<GemObject>
    decreases objects.len(),
{
    if objects.len() == 0 {
        objects
    } else {
        let rest = spec_without(objects.drop_last(), handle);
        if objects.last().handle != handle {
            rest.push(objects.last())
        } else {
            rest
        }
    }
}

/// The handle after `h`: wraps past `u32::MAX` to 1, never 0.
pub open spec fn spec_next_id(h: u32) -> u32 {
    if h == u32::MAX {
        1
    } else {
        (h + 1) as u32
    }
}

pub proof fn lemma_find_handle(objects: Seq<GemObject>, handle: u32)
    ensures
        spec_find(objects, handle) matches Some(k) ==> 0 <= k < objects.len() && objects[k].handle
            == handle,
{
    lemma_find_bounds(objects, handle, 0);
}

proof fn lemma_find_bounds(objects: Seq<GemObject>, handle: u32, i: int)
    requires
        0 <= i,
    ensures
        spec_find_from(objects, handle, i) matches Some(k) ==> i <= k < objects.len()
            && objects[k].handle == handle && forall|j: int|
            i <= j < k ==> (#[trigger] objects[j]).handle != handle,
        spec_find_from(objects, handle, i) is None ==> forall|j: int|
            i <= j < objects.len() ==> (#[trigger] objects[j]).handle != handle,
    decreases objects.len() - i,
{
    if i < objects.len() {
        lemma_find_bounds(objects, handle, i + 1);
    }
}

/// Owner of the dumb buffers of one device.
#[derive(Clone, Debug)]
pub struct GemManager {
    next_handle: u32,
    objects: Vec<GemObject>,
}

impl GemManager {
    pub closed spec fn objects(&self) -> Seq<GemObject> {
        self.objects@
    }

    /// The handle the next creation is given.
    pub closed spec fn next_handle(&self) -> u32 {
        self.next_handle
    }

    pub fn new() -> (m: Self)
        ensures
            m.objects() == Seq::<GemObject>::empty(),
            m.next_handle() == 1,
    {
        GemManager { next_handle: 1, objects: Vec::new() }
    }

    fn alloc_handle(&mut self) -> (h: u32)
        ensures
            h == old(self).next_handle,
            final(self).next_handle == spec_next_id(old(self).next_handle),
            final(self).objects@ == old(self).objects@,
    {
        let h = self.next_handle;
        let n = self.next_handle.wrapping_add(1);
        self.next_handle = if n < 1 {
            1
        } else {
            n
        };
        h
    }

    /// Creates a zeroed dumb buffer under the next handle; only while the GSP is
    /// online. A refused request still consumes the handle.
    pub fn create_dumb(&mut self, gsp_online: bool, req: &DumbCreateRequest) -> (r: Result<
        DumbCreateResult,
        GemError,
    >)
        requires
            gsp_online ==> spec_dumb_request_aligns(*req),
        ensures
            !gsp_online ==> r == Err::<DumbCreateResult, GemError>(GemError::GspOffline)
                && final(self).objects() == old(self).objects() && final(self).next_handle() == old(
                self,
            ).next_handle(),
            gsp_online ==> final(self).next_handle() == spec_next_id(old(self).next_handle()),
            gsp_online ==> match spec_dumb_layout(*req) {
                Err(e) => r == Err::<DumbCreateResult, GemError>(e) && final(self).objects() == old(
                    self,
                ).objects(),
                Ok((pitch, size)) => {
                    &&& r == Ok::<DumbCreateResult, GemError>(
                        DumbCreateResult { handle: old(self).next_handle(), pitch, size },
                    )
                    &&& final(self).objects().len() == old(self).objects().len() + 1
                    &&& final(self).objects().drop_last() == old(self).objects()
                    &&& final(self).objects().last().handle == old(self).next_handle()
                    &&& final(self).objects().last().data@ == Seq::new(size as nat, |i: int| 0u8)
                    &&& final(self).objects().last().bpp == req.bpp
                    &&& final(self).objects().last().width == req.width
                    &&& final(self).objects().last().height == req.height
                    &&& final(self).objects().last().pitch == pitch
                },
            },
    {
        if !gsp_online {
            return Err(GemError::GspOffline);
        }
        let handle = self.alloc_handle();
        let obj = GemObject::create_dumb(handle, req)?;
        let result = DumbCreateResult { handle: obj.handle, pitch: obj.pitch, size: obj.size };
        self.objects.push(obj);
        assert(self.objects@.drop_last() =~= old(self).objects@);
        Ok(result)
    }

    /// Destroys every object with `handle`; refused when there is none.
    pub fn destroy(&mut self, handle: u32) -> (r: Result<(), GemError>)
        ensures
            spec_find(old(self).objects(), handle) is None ==> r == Err::<(), GemError>(
                GemError::InvalidHandle),
            spec_find(old(self).objects(), handle) is Some ==> r is Ok,
            final(self).objects() == spec_without(old(self).objects(), handle),
            final(self).next_handle() == old(self).next_handle(),
    {
        let ghost old_objs = self.objects@;
        let mut kept: Vec<GemObject> = Vec::new();
        let mut removed = false;
        let n = self.objects.len();
        let mut i: usize = 0;
        while i < n
            invariant
                i <= n,
                n == old_objs.len(),
                self.objects@.len() == n - i,
                self.objects@ == old_objs.subrange(i as int, n as int),
                kept@ == spec_without(old_objs.subrange(0, i as int), handle),
                removed == exists|j: int| 0 <= j < i && (#[trigger] old_objs[j]).handle == handle,
                self.next_handle == old(self).next_handle,
            decreases n - i,
        {
            let obj = self.objects.remove(0);
            proof {
                assert(obj == old_objs[i as int]);
                assert(old_objs.subrange(0, i + 1).drop_last() =~= old_objs.subrange(0, i as int));
                assert(self.objects@ =~= old_objs.subrange(i + 1, n as int));
            }
            if obj.handle != handle {
                kept.push(obj);
            } else {
                removed = true;
            }
            i = i + 1;
        }
        proof {
            assert(old_objs.subrange(0, n as int) =~= old_objs);
            lemma_find_bounds(old_objs, handle, 0);
        }
        self.objects = kept;
        if removed {
            Ok(())
        } else {
            Err(GemError::InvalidHandle)
        }
    }

    /// The first object with `handle`.
    pub fn get(&self, handle: u32) -> (r: Option<&GemObject>)
        ensures
            match spec_find(self.objects(), handle) {
                Some(i) => r == Some(&self.objects()[i]),
                None => r is None,
            },
    {
        let mut i: usize = 0;
        while i < self.objects.len()
            invariant
                i <= self.objects@.len(),
                spec_find(self.objects@, handle) == spec_find_from(self.objects@, handle, i as int),
            decreases self.objects@.len() - i,
        {
            if self.objects[i].handle == handle {
                return Some(&self.objects[i]);
            }
            i = i + 1;
        }
        None
    }

    /// The first object with `handle`, writable.
    pub fn get_mut(&mut self, handle: u32) -> (r: Option<&mut GemObject>)
        ensures
            match spec_find(old(self).objects(), handle) {
                Some(i) => r is Some && *r->0 == old(self).objects()[i] && final(self).objects()
                    == old(self).objects().update(i, *final(r->0)) && final(self).next_handle()
                    == old(self).next_handle(),
                None => r is None && *final(self) == *old(self),
            },
    {
        let mut i: usize = 0;
        while i < self.objects.len()
            invariant
                i <= self.objects@.len(),
                spec_find(self.objects@, handle) == spec_find_from(self.objects@, handle, i as int),
                *self == *old(self),
            decreases self.objects@.len() - i,
        {
            if self.objects[i].handle == handle {
                return Some(&mut self.objects[i]);
            }
            i = i + 1;
        }
        None
    }

    pub fn count(&self) -> (n: usize)
        ensures
            n == self.objects().len(),
    {
        self.objects.len()
    }

    /// Drops every object; handles keep counting.
    pub fn clear(&mut self)
        ensures
            final(self).objects() == Seq::<GemObject>::empty(),
            final(self).next_handle() == old(self).next_handle(),
    {
        self.objects.clear();
    }
}

} // verus!
