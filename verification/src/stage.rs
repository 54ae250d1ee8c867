//! Whole-image GSP-RM DMA staging through the platform HAL.
//!
//! The image is streamed through one reusable DMA region in fixed-size chunks,
//! each written (zero-padded when short) and published. The report carries the
//! SHA-256 of every staged byte so callers can match it to the admitted digest.

use vstd::prelude::*;

use crate::fault::HermesFault;
use crate::firmware::{digest_eq, sha256_bytes, spec_sha256};
use crate::platform::{
    holds_plus, holds_unchanged, DmaOp, DmaPurpose, DmaRegion, HeldResource, HermesPlatform,
};

verus! {

/// Default DMA chunk size: one page.
pub const STAGE_CHUNK_BYTES: usize = 4096;

/// Smallest chunk the stager uses.
pub const STAGE_MIN_CHUNK_BYTES: usize = 64;

#[derive(Clone, Copy, Debug, PartialEq, Eq)]
pub struct StageReport {
    /// Total bytes written and published across all chunks.
    pub bytes_staged: u64,
    /// SHA-256 of the staged stream, in order.
    pub staged_sha256: [u8; 32],
    /// Number of chunk publications (saturating).
    pub chunks: u32,
    /// Device address of the staging region.
    pub last_device_address: u64,
}

#[derive(Clone, Copy, Debug, PartialEq, Eq, Structural)]
pub enum StageError {
    EmptyImage,
    Platform(HermesFault),
    DigestMismatch,
}

/// The chunk length actually used: at least 64 bytes, at most one page.
pub open spec fn spec_stage_chunk(chunk_len: usize) -> usize {
    if chunk_len < STAGE_MIN_CHUNK_BYTES {
        STAGE_MIN_CHUNK_BYTES
    } else if chunk_len > STAGE_CHUNK_BYTES {
        STAGE_CHUNK_BYTES
    } else {
        chunk_len
    }
}

/// Chunks needed for `len` bytes, saturated at `u32::MAX`.
pub open spec fn spec_chunk_count(len: nat, chunk: nat) -> int {
    let n = (len + chunk - 1) / (chunk as int);
    if n > u32::MAX {
        u32::MAX as int
    } else {
        n
    }
}

proof fn lemma_chunk_count(len: int, chunk: int, k: int)
    by (nonlinear_arith)
    requires
        chunk > 0,
        len > 0,
        (k - 1) * chunk < len,
        len <= k * chunk,
    ensures
        k == (len + chunk - 1) / chunk,
{
    let q = (len + chunk - 1) / chunk;
    let r = (len + chunk - 1) % chunk;
    assert(len + chunk - 1 == q * chunk + r);
    assert(0 <= r < chunk);
    if q < k {
        assert(q <= k - 1);
        assert(q * chunk <= (k - 1) * chunk);
    } else if q > k {
        assert(q >= k + 1);
        assert(q * chunk >= (k + 1) * chunk);
    }
}

/// Where the chunk that starts at `off` ends.
pub open spec fn spec_chunk_end(len: int, c: int, off: int) -> int {
    if len - off < c {
        len
    } else {
        off + c
    }
}

/// The bytes written for the chunk at `off`: the image bytes it covers, then
/// zeros up to the chunk length.
pub open spec fn spec_chunk_bytes(image: Seq<u8>, c: int, off: int) -> Seq<u8> {
    let e = spec_chunk_end(image.len() as int, c, off);
    image.subrange(off, e) + Seq::new((c - (e - off)) as nat, |i: int| 0u8)
}

/// The DMA operations that stage `image` from `off` on through region `h` in
/// chunks of `c`: for each chunk, its bytes written at offset 0, then its
/// image length published.
pub open spec fn spec_stage_ops(h: u32, image: Seq<u8>, c: int, off: int) -> Seq<DmaOp>
    decreases image.len() - off,
{
    if c <= 0 || off < 0 || off >= image.len() {
        Seq::empty()
    } else {
        let e = spec_chunk_end(image.len() as int, c, off);
        seq![
            DmaOp::Write(h, 0, spec_chunk_bytes(image, c, off), true),
            DmaOp::Publish(h, 0, (e - off) as usize, true),
        ] + spec_stage_ops(h, image, c, e)
    }
}

/// The byte stream a device sees from a log of DMA operations: for each write
/// followed by a publish, the published prefix of the written bytes.
pub open spec fn spec_published(ops: Seq<DmaOp>) -> Seq<u8>
    decreases ops.len(),
{
    if ops.len() < 2 {
        Seq::empty()
    } else {
        let rest = spec_published(ops.subrange(2, ops.len() as int));
        match (ops[0], ops[1]) {
            (DmaOp::Write(_, 0, bytes, true), DmaOp::Publish(_, 0, n, true)) => if n <= bytes.len() {
                bytes.subrange(0, n as int) + rest
            } else {
                rest
            },
            _ => rest,
        }
    }
}

/// Staging law: what the device sees of the staging operations from `off` on
/// is exactly the image from `off` on.
pub proof fn staged_stream_is_image(h: u32, image: Seq<u8>, c: int, off: int)
    requires
        c > 0,
        0 <= off <= image.len(),
        image.len() <= usize::MAX,
    ensures
        spec_published(spec_stage_ops(h, image, c, off)) == image.subrange(off, image.len() as int),
    decreases image.len() - off,
{
    if off < image.len() {
        let e = spec_chunk_end(image.len() as int, c, off);
        let ops = spec_stage_ops(h, image, c, off);
        staged_stream_is_image(h, image, c, e);
        assert(ops.subrange(2, ops.len() as int) =~= spec_stage_ops(h, image, c, e));
        assert(spec_chunk_bytes(image, c, off).subrange(0, e - off) =~= image.subrange(off, e));
        assert(image.subrange(off, e) + image.subrange(e, image.len() as int) =~= image.subrange(
            off,
            image.len() as int,
        ));
    } else {
        assert(image.subrange(off, image.len() as int) =~= Seq::<u8>::empty());
    }
}

/// Streams all of `image` into one DMA region of `domain`. Succeeds only for a
/// nonempty image; the report covers every byte, in order. On failure the
/// region, if one was allocated, is released again.
pub fn stage_gsp_rm_image<P: HermesPlatform>(
    platform: &mut P,
    domain: u32,
    image: &[u8],
    chunk_len: usize,
) -> (r: Result<(StageReport, DmaRegion), StageError>)
    ensures
        image@.len() == 0 <==> r == Err::<(StageReport, DmaRegion), StageError>(
            StageError::EmptyImage),
        r is Err && image@.len() != 0 ==> r->Err_0 is Platform,
        r is Err ==> holds_unchanged(*old(platform), *final(platform)),
        final(platform).mmio_log() == old(platform).mmio_log(),
        final(platform).isolation_log() == old(platform).isolation_log(),
        r matches Err(StageError::Platform(e)) ==> final(platform).refusal_log() == old(
            platform,
        ).refusal_log().push(e),
        !(r matches Err(StageError::Platform(_))) ==> final(platform).refusal_log() == old(
            platform,
        ).refusal_log(),
        r is Ok ==> final(platform).dma_log() == old(platform).dma_log() + spec_stage_ops(
            r->Ok_0.1.handle,
            image@,
            spec_stage_chunk(chunk_len) as int,
            0,
        ),
        r is Ok ==> spec_published(
            spec_stage_ops(r->Ok_0.1.handle, image@, spec_stage_chunk(chunk_len) as int, 0),
        ) == image@,
        r is Ok ==> !old(platform).holds(HeldResource::Region(r->Ok_0.1.handle)) && holds_plus(
            *old(platform),
            *final(platform),
            HeldResource::Region(r->Ok_0.1.handle),
        ),
        r is Ok ==> {
            let (report, region) = r->Ok_0;
            &&& report.bytes_staged == image@.len()
            &&& report.staged_sha256@ == spec_sha256(image@)
            &&& report.chunks == spec_chunk_count(
                image@.len(),
                spec_stage_chunk(chunk_len) as nat,
            )
            &&& report.last_device_address == region.device_address
        },
{
    let len = image.len();
    if len == 0 {
        return Err(StageError::EmptyImage);
    }
    let chunk: usize = if chunk_len < STAGE_MIN_CHUNK_BYTES {
        STAGE_MIN_CHUNK_BYTES
    } else if chunk_len > STAGE_CHUNK_BYTES {
        STAGE_CHUNK_BYTES
    } else {
        chunk_len
    };
    let region = match platform.allocate_dma(domain, chunk, 64, DmaPurpose::Firmware) {
        Ok(region) => region,
        Err(f) => {
            return Err(StageError::Platform(f));
        },
    };
    let ghost l0 = old(platform).dma_log();
    let ghost full = spec_stage_ops(region.handle, image@, chunk as int, 0);
    let mut offset: usize = 0;
    let mut chunks: u32 = 0;
    let ghost mut k: int = 0;
    proof {
        assert(l0 + full =~= platform.dma_log() + spec_stage_ops(region.handle, image@, chunk as int, 0));
    }
    while offset < len
        invariant
            platform.mmio_log() == old(platform).mmio_log(),
            platform.isolation_log() == old(platform).isolation_log(),
            platform.refusal_log() == old(platform).refusal_log(),
            l0 == old(platform).dma_log(),
            full == spec_stage_ops(region.handle, image@, chunk as int, 0),
            chunk == spec_stage_chunk(chunk_len),
            platform.dma_log() + spec_stage_ops(region.handle, image@, chunk as int, offset as int)
                == l0 + full,
            !old(platform).holds(HeldResource::Region(region.handle)),
            holds_plus(*old(platform), *platform, HeldResource::Region(region.handle)),
            len == image@.len(),
            len > 0,
            64 <= chunk <= 4096,
            offset <= len,
            0 <= k,
            offset < len ==> offset == k * chunk,
            offset == len ==> (k - 1) * chunk < len <= k * chunk,
            chunks == if k > u32::MAX {
                u32::MAX as int
            } else {
                k
            },
        decreases len - offset,
    {
        let end: usize = if len - offset < chunk {
            len
        } else {
            offset + chunk
        };
        let mut pad: Vec<u8> = Vec::new();
        let mut i: usize = 0;
        while i < chunk
            invariant
                i <= chunk,
                pad@.len() == i,
                offset < end <= len,
                end == spec_chunk_end(len as int, chunk as int, offset as int),
                len == image@.len(),
                forall|q: int|
                    0 <= q < i ==> #[trigger] pad@[q] == spec_chunk_bytes(
                        image@,
                        chunk as int,
                        offset as int,
                    )[q],
            decreases chunk - i,
        {
            if i < end - offset {
                pad.push(image[offset + i]);
            } else {
                pad.push(0u8);
            }
            i = i + 1;
        }
        proof {
            assert(pad@ =~= spec_chunk_bytes(image@, chunk as int, offset as int));
            let rest = spec_stage_ops(region.handle, image@, chunk as int, offset as int);
            assert(rest =~= seq![
                DmaOp::Write(region.handle, 0, pad@, true),
                DmaOp::Publish(region.handle, 0, (end - offset) as usize, true),
            ] + spec_stage_ops(region.handle, image@, chunk as int, end as int));
        }
        let ghost before = platform.dma_log();
        if let Err(f) = platform.dma_write(region, 0, pad.as_slice()) {
            platform.release_dma(region);
            return Err(StageError::Platform(f));
        }
        if let Err(f) = platform.dma_publish(region, 0, end - offset) {
            platform.release_dma(region);
            return Err(StageError::Platform(f));
        }
        proof {
            assert(platform.dma_log() + spec_stage_ops(region.handle, image@, chunk as int, end as int)
                =~= before + spec_stage_ops(region.handle, image@, chunk as int, offset as int));
            if end == len {
                assert((k + 1 - 1) * chunk < len) by (nonlinear_arith)
                    requires
                        offset == k * chunk,
                        offset < len,
                ;
                assert(len <= (k + 1) * chunk) by (nonlinear_arith)
                    requires
                        offset == k * chunk,
                        len - offset <= chunk,
                ;
            } else {
                assert(end == (k + 1) * chunk) by (nonlinear_arith)
                    requires
                        offset == k * chunk,
                        end == offset + chunk,
                ;
            }
            k = k + 1;
        }
        offset = end;
        chunks = chunks.saturating_add(1);
    }
    proof {
        lemma_chunk_count(len as int, chunk as int, k);
        assert(spec_stage_ops(region.handle, image@, chunk as int, offset as int) =~= Seq::<DmaOp>::empty());
        assert(platform.dma_log() =~= l0 + full);
        staged_stream_is_image(region.handle, image@, chunk as int, 0);
        assert(image@.subrange(0, len as int) =~= image@);
    }
    let staged_sha256 = sha256_bytes(image);
    Ok(
        (
            StageReport {
                bytes_staged: len as u64,
                staged_sha256,
                chunks,
                last_device_address: region.device_address,
            },
            region,
        ),
    )
}

/// The staged digest matches the admitted firmware measurement.
pub fn stage_matches_admit(staged: &[u8; 32], admitted: &[u8; 32]) -> (b: bool)
    ensures
        b == (staged@ == admitted@),
{
    digest_eq(staged, admitted)
}

} // verus!
