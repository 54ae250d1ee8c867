//! Source-defined WPR2 metadata and SEC2 Booter Load contract for TU117.
//!
//! The WPR2 geometry is carved downward from the reserved framebuffer top:
//! FRTS, the RISC-V boot binary, GSP-RM, the WPR heap, one MiB of WPR header
//! and, below WPR2, the non-WPR heap. The 256-byte little-endian metadata
//! record hands that layout and the mapped system addresses to Booter Load.
use vstd::prelude::*;

use crate::fault::HermesFault;

verus! {

/// Source-defined Turing WPR metadata size.
pub const T1000_WPR_METADATA_BYTES: usize = 256;
/// WPR2's start and end use this hardware alignment.
pub const T1000_WPR_ALIGNMENT: u64 = 0x20000;
/// Heap and framebuffer accounting in the TU10x layout is MiB-granular.
pub const T1000_WPR_HEAP_ALIGNMENT: u64 = 0x100000;
/// The TU102 family reserves this FRTS region for normal boot.
pub const T1000_FRTS_BYTES: u64 = 0x100000;
/// Payload size of the pinned TU117 GSP boot binary (one page).
pub const T1000_GSP_BOOT_BINARY_BYTES: u64 = 4096;
/// Exact byte length of the pinned TU10x GSP-RM ELF.
pub const T1000_GSP_RM_BYTES: u64 = 29352832;
pub const WPR_METADATA_MAGIC: u64 = 0xdc3a_ae21_371a_60b3;
pub const WPR_METADATA_REVISION: u64 = 1;
pub const PAGE_BYTES: u64 = 4096;

/// Hardware-observed framebuffer placement inputs.
#[derive(Clone, Copy, Debug, PartialEq, Eq, Structural)]
pub struct TuringFramebufferEvidence {
    pub usable_bytes: u64,
    pub vga_workspace_offset: u64,
    pub vga_workspace_bytes: u64,
    pub mmu_lock: TuringMmuLock,
    pub wpr_end_margin: u64,
    pub wpr_heap_bytes: u64,
    pub non_wpr_heap_bytes: u64,
}

/// Result of reading Turing's VBIOS-programmed MMU lock.
#[derive(Clone, Copy, Debug, PartialEq, Eq, Structural)]
pub enum TuringMmuLock {
    NotPresent,
    Present { start: u64, end: u64 },
}

/// DMA translations proven live in the GPU's isolated VT-d domain.
#[derive(Clone, Copy, Debug, PartialEq, Eq, Structural)]
pub struct TuringGspDmaInputs {
    pub gsp_rm_address: u64,
    pub gsp_rm_bytes: u64,
    pub gsp_boot_binary_address: u64,
    pub metadata_address: u64,
}

/// Offsets from the verified RISC-V boot-binary descriptor.
#[derive(Clone, Copy, Debug, PartialEq, Eq, Structural)]
pub struct TuringRiscvBootOffsets {
    pub monitor_code_offset: u64,
    pub monitor_data_offset: u64,
    pub manifest_offset: u64,
}

/// A validated WPR2 geometry plus its exact 256-byte Booter metadata record.
#[derive(Clone, Copy, Debug, PartialEq, Eq)]
pub struct TuringWprPlan {
    pub wpr_start: u64,
    pub wpr_end: u64,
    pub gsp_rm_offset: u64,
    pub gsp_boot_binary_offset: u64,
    pub metadata: [u8; 256],
}

/// The mailbox payload of the normal TU117 Booter Load path.
#[derive(Clone, Copy, Debug, PartialEq, Eq, Structural)]
pub struct TuringSec2BooterLoad {
    metadata_address: u64,
}

proof fn lemma_mailbox_split(a: u64)
    by (bit_vector)
    ensures
        a as u32 == a % 0x1_0000_0000u64,
        (a >> 32u64) as u32 == a / 0x1_0000_0000u64,
{
}

impl TuringSec2BooterLoad {
    pub closed spec fn address(self) -> u64 {
        self.metadata_address
    }

    /// Binds a page-aligned, nonzero metadata DMA address to the SEC2 mailbox format.
    pub fn new(metadata_address: u64) -> (r: Result<Self, HermesFault>)
        ensures
            r is Ok <==> (metadata_address != 0 && metadata_address % 4096 == 0),
            r matches Ok(l) ==> l.address() == metadata_address,
            r is Err ==> r == Err::<Self, HermesFault>(HermesFault::DmaAddressOverflow),
    {
        if metadata_address == 0 || metadata_address % PAGE_BYTES != 0 {
            return Err(HermesFault::DmaAddressOverflow);
        }
        Ok(TuringSec2BooterLoad { metadata_address })
    }

    /// (low word, high word) of the metadata address for mailboxes 0 and 1.
    pub fn mailbox_words(self) -> (w: (u32, u32))
        ensures
            w.0 == self.address() % 0x1_0000_0000,
            w.1 == self.address() / 0x1_0000_0000,
            w.0 + w.1 * 0x1_0000_0000 == self.address(),
    {
        proof {
            lemma_mailbox_split(self.metadata_address);
        }
        (self.metadata_address as u32, (self.metadata_address >> 32) as u32)
    }

    /// Completion only when Booter reported zero in mailbox 0 and WPR2 is active.
    pub fn complete(self, mailbox_zero: u32, wpr2_active: bool) -> (r: Result<(), HermesFault>)
        ensures
            r is Ok <==> (mailbox_zero == 0 && wpr2_active),
            r is Err ==> r == Err::<(), HermesFault>(HermesFault::DeviceFault),
    {
        if mailbox_zero == 0 && wpr2_active {
            Ok(())
        } else {
            Err(HermesFault::DeviceFault)
        }
    }
}

pub open spec fn spec_align_down(v: u64, a: u64) -> u64 {
    (v - v % a) as u64
}

proof fn lemma_align_masks(v: u64)
    by (bit_vector)
    ensures
        v & !0x1ffffu64 == v - v % 0x20000u64,
        v & !0xfffu64 == v - v % 0x1000u64,
        v & !0xffffu64 == v - v % 0x10000u64,
        v & !0xfffffu64 == v - v % 0x100000u64,
{
}

fn align_down(value: u64, alignment: u64) -> (r: u64)
    requires
        alignment == 0x20000 || alignment == 0x1000 || alignment == 0x10000 || alignment
            == 0x100000,
    ensures
        r == spec_align_down(value, alignment),
        r <= value,
        r % alignment == 0,
{
    proof {
        lemma_align_masks(value);
    }
    value & !(alignment - 1)
}

pub open spec fn spec_validate_framebuffer(fb: TuringFramebufferEvidence) -> Result<u64, HermesFault> {
    if fb.usable_bytes == 0 || fb.usable_bytes % T1000_WPR_HEAP_ALIGNMENT != 0
        || fb.vga_workspace_offset == 0 || fb.vga_workspace_offset >= fb.usable_bytes
        || fb.vga_workspace_bytes == 0 || fb.vga_workspace_offset + fb.vga_workspace_bytes
        != fb.usable_bytes || fb.wpr_heap_bytes == 0 || fb.wpr_heap_bytes
        % T1000_WPR_HEAP_ALIGNMENT != 0 || fb.non_wpr_heap_bytes % T1000_WPR_HEAP_ALIGNMENT != 0 {
        Err(HermesFault::FirmwareRejected)
    } else {
        match fb.mmu_lock {
            TuringMmuLock::NotPresent => Ok(fb.vga_workspace_offset),
            TuringMmuLock::Present { start, end } => if start != 0 && start < end && end
                <= fb.usable_bytes {
                Ok(
                    if start < fb.vga_workspace_offset {
                        start
                    } else {
                        fb.vga_workspace_offset
                    },
                )
            } else {
                Err(HermesFault::FirmwareRejected)
            },
        }
    }
}

fn validate_framebuffer(framebuffer: TuringFramebufferEvidence) -> (r: Result<u64, HermesFault>)
    ensures
        r == spec_validate_framebuffer(framebuffer),
        r matches Ok(top) ==> top != 0,
{
    let fb = framebuffer;
    let sum_ok = match fb.vga_workspace_offset.checked_add(fb.vga_workspace_bytes) {
        Some(s) => s == fb.usable_bytes,
        None => false,
    };
    if fb.usable_bytes == 0 || fb.usable_bytes % T1000_WPR_HEAP_ALIGNMENT != 0
        || fb.vga_workspace_offset == 0 || fb.vga_workspace_offset >= fb.usable_bytes
        || fb.vga_workspace_bytes == 0 || !sum_ok || fb.wpr_heap_bytes == 0 || fb.wpr_heap_bytes
        % T1000_WPR_HEAP_ALIGNMENT != 0 || fb.non_wpr_heap_bytes % T1000_WPR_HEAP_ALIGNMENT != 0 {
        return Err(HermesFault::FirmwareRejected);
    }
    let reserved_top_offset = match fb.mmu_lock {
        TuringMmuLock::NotPresent => fb.vga_workspace_offset,
        TuringMmuLock::Present { start, end } => {
            if start != 0 && start < end && end <= fb.usable_bytes {
                if start < fb.vga_workspace_offset {
                    start
                } else {
                    fb.vga_workspace_offset
                }
            } else {
                return Err(HermesFault::FirmwareRejected);
            }
        },
    };
    if reserved_top_offset == 0 {
        return Err(HermesFault::FirmwareRejected);
    }
    Ok(reserved_top_offset)
}

pub open spec fn page_aligned_nonzero(a: u64) -> bool {
    a != 0 && a % PAGE_BYTES == 0
}

pub open spec fn spec_dma_ok(dma: TuringGspDmaInputs) -> bool {
    page_aligned_nonzero(dma.gsp_rm_address) && dma.gsp_rm_bytes == T1000_GSP_RM_BYTES
        && page_aligned_nonzero(dma.gsp_boot_binary_address) && page_aligned_nonzero(
        dma.metadata_address,
    )
}

fn validate_dma(dma: TuringGspDmaInputs) -> (r: Result<(), HermesFault>)
    ensures
        r is Ok <==> spec_dma_ok(dma),
        r is Err ==> r == Err::<(), HermesFault>(HermesFault::FirmwareRejected),
{
    if dma.gsp_rm_address == 0 || dma.gsp_rm_address % PAGE_BYTES != 0 || dma.gsp_rm_bytes
        != T1000_GSP_RM_BYTES || dma.gsp_boot_binary_address == 0 || dma.gsp_boot_binary_address
        % PAGE_BYTES != 0 || dma.metadata_address == 0 || dma.metadata_address % PAGE_BYTES != 0 {
        return Err(HermesFault::FirmwareRejected);
    }
    Ok(())
}

pub open spec fn boot_offset_ok(o: u64) -> bool {
    o < T1000_GSP_BOOT_BINARY_BYTES && o % 4 == 0
}

pub open spec fn spec_boot_offsets_ok(b: TuringRiscvBootOffsets) -> bool {
    boot_offset_ok(b.monitor_code_offset) && boot_offset_ok(b.monitor_data_offset)
        && boot_offset_ok(b.manifest_offset)
}

fn validate_boot_offsets(offsets: TuringRiscvBootOffsets) -> (r: Result<(), HermesFault>)
    ensures
        r is Ok <==> spec_boot_offsets_ok(offsets),
        r is Err ==> r == Err::<(), HermesFault>(HermesFault::FirmwareRejected),
{
    let all = [offsets.monitor_code_offset, offsets.monitor_data_offset, offsets.manifest_offset];
    let mut i: usize = 0;
    while i < 3
        invariant
            i <= 3,
            all@ == seq![
                offsets.monitor_code_offset,
                offsets.monitor_data_offset,
                offsets.manifest_offset,
            ],
            forall|k: int| 0 <= k < i ==> boot_offset_ok(#[trigger] all@[k]),
        decreases 3 - i,
    {
        let offset = all[i];
        if offset >= T1000_GSP_BOOT_BINARY_BYTES || offset % 4 != 0 {
            return Err(HermesFault::FirmwareRejected);
        }
        i = i + 1;
    }
    assert(boot_offset_ok(all@[0]) && boot_offset_ok(all@[1]) && boot_offset_ok(all@[2]));
    Ok(())
}

/// The carved WPR2 geometry (all framebuffer offsets), when every step fits.
#[derive(Clone, Copy, Debug, PartialEq, Eq, Structural)]
pub struct WprGeometry {
    pub wpr_start: u64,
    pub wpr_end: u64,
    pub frts_offset: u64,
    pub gsp_boot_binary_offset: u64,
    pub gsp_rm_offset: u64,
    pub wpr_heap_offset: u64,
    pub non_wpr_offset: u64,
}

pub open spec fn spec_wpr_geometry(
    top: u64,
    fb: TuringFramebufferEvidence,
    dma: TuringGspDmaInputs,
) -> Result<WprGeometry, HermesFault> {
    if top < fb.wpr_end_margin {
        Err(HermesFault::DmaAddressOverflow)
    } else {
        let wpr_end = spec_align_down((top - fb.wpr_end_margin) as u64, T1000_WPR_ALIGNMENT);
        if wpr_end < T1000_FRTS_BYTES {
            Err(HermesFault::DmaAddressOverflow)
        } else {
            let frts = (wpr_end - T1000_FRTS_BYTES) as u64;
            if frts < T1000_GSP_BOOT_BINARY_BYTES {
                Err(HermesFault::DmaAddressOverflow)
            } else {
                let boot = spec_align_down((frts - T1000_GSP_BOOT_BINARY_BYTES) as u64, PAGE_BYTES);
                if boot < dma.gsp_rm_bytes {
                    Err(HermesFault::DmaAddressOverflow)
                } else {
                    let rm = spec_align_down((boot - dma.gsp_rm_bytes) as u64, 0x10000);
                    if rm < fb.wpr_heap_bytes {
                        Err(HermesFault::DmaAddressOverflow)
                    } else {
                        let heap = spec_align_down(
                            (rm - fb.wpr_heap_bytes) as u64,
                            T1000_WPR_HEAP_ALIGNMENT,
                        );
                        if heap < T1000_WPR_HEAP_ALIGNMENT {
                            Err(HermesFault::DmaAddressOverflow)
                        } else {
                            let start = (heap - T1000_WPR_HEAP_ALIGNMENT) as u64;
                            if start < fb.non_wpr_heap_bytes {
                                Err(HermesFault::DmaAddressOverflow)
                            } else {
                                Ok(
                                    WprGeometry {
                                        wpr_start: start,
                                        wpr_end,
                                        frts_offset: frts,
                                        gsp_boot_binary_offset: boot,
                                        gsp_rm_offset: rm,
                                        wpr_heap_offset: heap,
                                        non_wpr_offset: (start - fb.non_wpr_heap_bytes) as u64,
                                    },
                                )
                            }
                        }
                    }
                }
            }
        }
    }
}

pub open spec fn spec_geometry_accepted(g: WprGeometry, top: u64) -> bool {
    g.wpr_start % T1000_WPR_ALIGNMENT == 0 && g.wpr_end % T1000_WPR_ALIGNMENT == 0 && g.wpr_start
        < g.wpr_end && g.wpr_end <= top && g.non_wpr_offset < g.wpr_start
}

/// The whole plan decision: validation, carving, final geometry checks.
pub open spec fn spec_build(
    fb: TuringFramebufferEvidence,
    dma: TuringGspDmaInputs,
    boot: TuringRiscvBootOffsets,
) -> Result<WprGeometry, HermesFault> {
    match spec_validate_framebuffer(fb) {
        Err(e) => Err(e),
        Ok(top) => if !spec_dma_ok(dma) || !spec_boot_offsets_ok(boot) {
            Err(HermesFault::FirmwareRejected)
        } else {
            match spec_wpr_geometry(top, fb, dma) {
                Err(e) => Err(e),
                Ok(g) => if spec_geometry_accepted(g, top) {
                    Ok(g)
                } else {
                    Err(HermesFault::FirmwareRejected)
                },
            }
        },
    }
}


/// Little-endian encoding of a 64-bit value.
#[verifier::opaque]
pub open spec fn le_bytes(v: u64) -> Seq<u8> {
    seq![
        (v % 0x100) as u8,
        ((v / 0x100) % 0x100) as u8,
        ((v / 0x10000) % 0x100) as u8,
        ((v / 0x1000000) % 0x100) as u8,
        ((v / 0x100000000) % 0x100) as u8,
        ((v / 0x10000000000) % 0x100) as u8,
        ((v / 0x1000000000000) % 0x100) as u8,
        ((v / 0x100000000000000) % 0x100) as u8,
    ]
}

pub open spec fn zero_bytes(n: nat) -> Seq<u8> {
    Seq::new(n, |i: int| 0u8)
}

proof fn lemma_le_bytes_len(v: u64)
    ensures
        le_bytes(v).len() == 8,
{
    reveal(le_bytes);
}

/// The 256-byte Booter metadata record: magic, revision, the mapped GSP-RM and
/// boot-binary addresses and sizes, the boot-descriptor offsets, a zero
/// signature slot, the heap and WPR2 layout, FRTS, the framebuffer facts, and
/// a zero tail (boot count, partition data, flags, verified state).
pub open spec fn spec_metadata_record(
    g: WprGeometry,
    fb: TuringFramebufferEvidence,
    dma: TuringGspDmaInputs,
    boot: TuringRiscvBootOffsets,
) -> Seq<u8> {
    le_bytes(WPR_METADATA_MAGIC)
        + le_bytes(WPR_METADATA_REVISION)
        + le_bytes(dma.gsp_rm_address)
        + le_bytes(dma.gsp_rm_bytes)
        + le_bytes(dma.gsp_boot_binary_address)
        + le_bytes(T1000_GSP_BOOT_BINARY_BYTES)
        + le_bytes(boot.monitor_code_offset)
        + le_bytes(boot.monitor_data_offset)
        + le_bytes(boot.manifest_offset)
        + zero_bytes(16)
        + le_bytes(g.non_wpr_offset)
        + le_bytes(g.non_wpr_offset)
        + le_bytes(fb.non_wpr_heap_bytes)
        + le_bytes(g.wpr_start)
        + le_bytes(g.wpr_heap_offset)
        + le_bytes((g.gsp_rm_offset - g.wpr_heap_offset) as u64)
        + le_bytes(g.gsp_rm_offset)
        + le_bytes(g.gsp_boot_binary_offset)
        + le_bytes(g.frts_offset)
        + le_bytes(T1000_FRTS_BYTES)
        + le_bytes(g.wpr_end)
        + le_bytes(fb.usable_bytes)
        + le_bytes(fb.vga_workspace_offset)
        + le_bytes(fb.vga_workspace_bytes)
        + zero_bytes(56)
}

proof fn lemma_byte_split(v: u64)
    by (bit_vector)
    ensures
        v & 0xff == v % 0x100,
        (v >> 8u64) & 0xff == (v / 0x100) % 0x100,
        (v >> 16u64) & 0xff == (v / 0x10000) % 0x100,
        (v >> 24u64) & 0xff == (v / 0x1000000) % 0x100,
        (v >> 32u64) & 0xff == (v / 0x100000000) % 0x100,
        (v >> 40u64) & 0xff == (v / 0x10000000000) % 0x100,
        (v >> 48u64) & 0xff == (v / 0x1000000000000) % 0x100,
        (v >> 56u64) & 0xff == (v / 0x100000000000000) % 0x100,
{
}

/// Append `value` little-endian.
fn push_u64_le(out: &mut Vec<u8>, value: u64)
    ensures
        final(out)@ == old(out)@ + le_bytes(value),
{
    proof {
        lemma_byte_split(value);
    }
    out.push((value & 0xff) as u8);
    out.push(((value >> 8) & 0xff) as u8);
    out.push(((value >> 16) & 0xff) as u8);
    out.push(((value >> 24) & 0xff) as u8);
    out.push(((value >> 32) & 0xff) as u8);
    out.push(((value >> 40) & 0xff) as u8);
    out.push(((value >> 48) & 0xff) as u8);
    out.push(((value >> 56) & 0xff) as u8);
    reveal(le_bytes);
    assert(final(out)@ =~= old(out)@ + le_bytes(value));
}

fn push_zeros(out: &mut Vec<u8>, n: usize)
    ensures
        final(out)@ == old(out)@ + zero_bytes(n as nat),
{
    let ghost start = out@;
    let mut i: usize = 0;
    while i < n
        invariant
            i <= n,
            out@ == start + zero_bytes(i as nat),
        decreases n - i,
    {
        out.push(0);
        i = i + 1;
        assert(out@ =~= start + zero_bytes(i as nat));
    }
}

fn metadata_bytes(
    g: &WprGeometry,
    fb: &TuringFramebufferEvidence,
    dma: &TuringGspDmaInputs,
    boot: &TuringRiscvBootOffsets,
    heap_span: u64,
) -> (v: Vec<u8>)
    requires
        heap_span == g.gsp_rm_offset - g.wpr_heap_offset,
    ensures
        v@ == spec_metadata_record(*g, *fb, *dma, *boot),
{
    let mut v: Vec<u8> = Vec::new();
    push_u64_le(&mut v, WPR_METADATA_MAGIC);
    push_u64_le(&mut v, WPR_METADATA_REVISION);
    push_u64_le(&mut v, dma.gsp_rm_address);
    push_u64_le(&mut v, dma.gsp_rm_bytes);
    push_u64_le(&mut v, dma.gsp_boot_binary_address);
    push_u64_le(&mut v, T1000_GSP_BOOT_BINARY_BYTES);
    push_u64_le(&mut v, boot.monitor_code_offset);
    push_u64_le(&mut v, boot.monitor_data_offset);
    push_u64_le(&mut v, boot.manifest_offset);
    push_zeros(&mut v, 16);
    push_u64_le(&mut v, g.non_wpr_offset);
    push_u64_le(&mut v, g.non_wpr_offset);
    push_u64_le(&mut v, fb.non_wpr_heap_bytes);
    push_u64_le(&mut v, g.wpr_start);
    push_u64_le(&mut v, g.wpr_heap_offset);
    push_u64_le(&mut v, heap_span);
    push_u64_le(&mut v, g.gsp_rm_offset);
    push_u64_le(&mut v, g.gsp_boot_binary_offset);
    push_u64_le(&mut v, g.frts_offset);
    push_u64_le(&mut v, T1000_FRTS_BYTES);
    push_u64_le(&mut v, g.wpr_end);
    push_u64_le(&mut v, fb.usable_bytes);
    push_u64_le(&mut v, fb.vga_workspace_offset);
    push_u64_le(&mut v, fb.vga_workspace_bytes);
    push_zeros(&mut v, 56);
    v
}

proof fn lemma_record_len(
    g: WprGeometry,
    fb: TuringFramebufferEvidence,
    dma: TuringGspDmaInputs,
    boot: TuringRiscvBootOffsets,
)
    ensures
        spec_metadata_record(g, fb, dma, boot).len() == 256,
{
    assert forall|x: u64| #[trigger] le_bytes(x).len() == 8 by {
        lemma_le_bytes_len(x);
    }
}

/// Serialize the metadata record for an accepted geometry.
fn fill_metadata(
    g: &WprGeometry,
    fb: &TuringFramebufferEvidence,
    dma: &TuringGspDmaInputs,
    boot: &TuringRiscvBootOffsets,
) -> (r: Result<[u8; 256], HermesFault>)
    ensures
        g.wpr_heap_offset <= g.gsp_rm_offset ==> (r matches Ok(m) && m@ == spec_metadata_record(
            *g,
            *fb,
            *dma,
            *boot,
        )),
{
    let heap_span = match g.gsp_rm_offset.checked_sub(g.wpr_heap_offset) {
        Some(v) => v,
        None => return Err(HermesFault::FirmwareRejected),
    };
    let v = metadata_bytes(g, fb, dma, boot, heap_span);
    proof {
        lemma_record_len(*g, *fb, *dma, *boot);
    }
    let mut metadata = [0u8; 256];
    let mut k: usize = 0;
    while k < 256
        invariant
            k <= 256,
            v@.len() == 256,
            metadata@.len() == 256,
            forall|j: int| 0 <= j < k ==> metadata@[j] == v@[j],
        decreases 256 - k,
    {
        metadata[k] = v[k];
        k = k + 1;
    }
    assert(metadata@ =~= v@);
    Ok(metadata)
}

/// Carve the WPR2 layout downward from the reserved top.
fn carve(top: u64, framebuffer: &TuringFramebufferEvidence, dma: &TuringGspDmaInputs) -> (r: Result<
    WprGeometry,
    HermesFault,
>)
    ensures
        r == spec_wpr_geometry(top, *framebuffer, *dma),
{
    let m1 = match top.checked_sub(framebuffer.wpr_end_margin) {
        Some(v) => v,
        None => return Err(HermesFault::DmaAddressOverflow),
    };
    let wpr_end = align_down(m1, T1000_WPR_ALIGNMENT);
    let frts_offset = match wpr_end.checked_sub(T1000_FRTS_BYTES) {
        Some(v) => v,
        None => return Err(HermesFault::DmaAddressOverflow),
    };
    let b1 = match frts_offset.checked_sub(T1000_GSP_BOOT_BINARY_BYTES) {
        Some(v) => v,
        None => return Err(HermesFault::DmaAddressOverflow),
    };
    let gsp_boot_binary_offset = align_down(b1, PAGE_BYTES);
    let r1 = match gsp_boot_binary_offset.checked_sub(dma.gsp_rm_bytes) {
        Some(v) => v,
        None => return Err(HermesFault::DmaAddressOverflow),
    };
    let gsp_rm_offset = align_down(r1, 0x10000);
    let h1 = match gsp_rm_offset.checked_sub(framebuffer.wpr_heap_bytes) {
        Some(v) => v,
        None => return Err(HermesFault::DmaAddressOverflow),
    };
    let wpr_heap_offset = align_down(h1, T1000_WPR_HEAP_ALIGNMENT);
    let wpr_start = match wpr_heap_offset.checked_sub(T1000_WPR_HEAP_ALIGNMENT) {
        Some(v) => v,
        None => return Err(HermesFault::DmaAddressOverflow),
    };
    let non_wpr_offset = match wpr_start.checked_sub(framebuffer.non_wpr_heap_bytes) {
        Some(v) => v,
        None => return Err(HermesFault::DmaAddressOverflow),
    };
    Ok(
        WprGeometry {
            wpr_start,
            wpr_end,
            frts_offset,
            gsp_boot_binary_offset,
            gsp_rm_offset,
            wpr_heap_offset,
            non_wpr_offset,
        },
    )
}

impl TuringWprPlan {
    /// Constructs the normal-boot TU117 WPR2 layout from hardware observations
    /// and VT-d-mapped system memory. Performs no MMIO or DMA.
    pub fn build(
        framebuffer: TuringFramebufferEvidence,
        dma: TuringGspDmaInputs,
        boot_offsets: TuringRiscvBootOffsets,
    ) -> (r: Result<Self, HermesFault>)
        ensures
            match spec_build(framebuffer, dma, boot_offsets) {
                Err(e) => r == Err::<Self, HermesFault>(e),
                Ok(g) => r matches Ok(p) && p.wpr_start == g.wpr_start && p.wpr_end == g.wpr_end
                    && p.gsp_rm_offset == g.gsp_rm_offset && p.gsp_boot_binary_offset
                    == g.gsp_boot_binary_offset && p.metadata@ == spec_metadata_record(
                    g,
                    framebuffer,
                    dma,
                    boot_offsets,
                ),
            },
    {
        let reserved_top_offset = validate_framebuffer(framebuffer)?;
        validate_dma(dma)?;
        validate_boot_offsets(boot_offsets)?;
        let g = carve(reserved_top_offset, &framebuffer, &dma)?;
        if g.wpr_start % T1000_WPR_ALIGNMENT != 0 || g.wpr_end % T1000_WPR_ALIGNMENT != 0
            || g.wpr_start >= g.wpr_end || g.wpr_end > reserved_top_offset || g.non_wpr_offset
            >= g.wpr_start {
            return Err(HermesFault::FirmwareRejected);
        }
        let metadata = fill_metadata(&g, &framebuffer, &dma, &boot_offsets)?;
        Ok(
            TuringWprPlan {
                wpr_start: g.wpr_start,
                wpr_end: g.wpr_end,
                gsp_rm_offset: g.gsp_rm_offset,
                gsp_boot_binary_offset: g.gsp_boot_binary_offset,
                metadata,
            },
        )
    }

    /// The Booter Load mailbox request for this plan's metadata page.
    pub fn booter_load(&self, metadata_address: u64) -> (r: Result<
        TuringSec2BooterLoad,
        HermesFault,
    >)
        ensures
            r is Ok <==> (metadata_address != 0 && metadata_address % 4096 == 0),
            r matches Ok(l) ==> l.address() == metadata_address,
            r is Err ==> r == Err::<TuringSec2BooterLoad, HermesFault>(
                HermesFault::DmaAddressOverflow),
    {
        TuringSec2BooterLoad::new(metadata_address)
    }
}

/// Layout law: in an accepted plan WPR2 is 128 KiB-aligned, nonempty, ends at or
/// below the reserved framebuffer top, and its regions are stacked in order:
/// non-WPR heap < WPR start < WPR heap ≤ GSP-RM < GSP-RM + image ≤ boot binary
/// < FRTS < WPR end; GSP-RM sits on a 64 KiB boundary, the boot binary on a
/// page, and the end margin fits below the reserved top.
pub proof fn accepted_plan_is_ordered(
    fb: TuringFramebufferEvidence,
    dma: TuringGspDmaInputs,
    boot: TuringRiscvBootOffsets,
)
    ensures
        spec_build(fb, dma, boot) matches Ok(g) ==> {
            &&& g.wpr_start % T1000_WPR_ALIGNMENT == 0
            &&& g.wpr_end % T1000_WPR_ALIGNMENT == 0
            &&& g.non_wpr_offset < g.wpr_start < g.wpr_heap_offset
            &&& g.wpr_heap_offset + fb.wpr_heap_bytes <= g.gsp_rm_offset
            &&& g.gsp_rm_offset + dma.gsp_rm_bytes <= g.gsp_boot_binary_offset
            &&& g.gsp_boot_binary_offset + T1000_GSP_BOOT_BINARY_BYTES <= g.frts_offset
            &&& g.frts_offset + T1000_FRTS_BYTES == g.wpr_end
            &&& spec_validate_framebuffer(fb) matches Ok(top) && g.wpr_end <= top && g.wpr_end
                + fb.wpr_end_margin <= top
            &&& g.wpr_start < g.gsp_rm_offset
            &&& g.gsp_rm_offset % 0x10000 == 0
            &&& g.gsp_boot_binary_offset % PAGE_BYTES == 0
        },
{
    if let Ok(g) = spec_build(fb, dma, boot) {
        let top = spec_validate_framebuffer(fb)->Ok_0;
        let v = (g.gsp_boot_binary_offset - dma.gsp_rm_bytes) as u64;
        lemma_align_down_aligned(v, 0x10000);
        let w = (g.frts_offset - T1000_GSP_BOOT_BINARY_BYTES) as u64;
        lemma_align_down_aligned(w, PAGE_BYTES);
    }
}

/// Refusal law: DMA inputs that are zero or off a page boundary, or a GSP-RM
/// image of any size but the Turing one, are refused as `FirmwareRejected`,
/// and so is an MMU lock that starts at 0, is empty, or runs past usable
/// memory; no plan is produced then. Any refusal is `FirmwareRejected` or, where
/// the layout arithmetic runs below zero, `DmaAddressOverflow`.
pub proof fn refused_plans(
    fb: TuringFramebufferEvidence,
    dma: TuringGspDmaInputs,
    boot: TuringRiscvBootOffsets,
)
    ensures
        !spec_dma_ok(dma) ==> spec_build(fb, dma, boot) == Err::<WprGeometry, HermesFault>(
            HermesFault::FirmwareRejected,
        ),
        (fb.mmu_lock matches TuringMmuLock::Present { start, end } && (start == 0 || start >= end
            || end > fb.usable_bytes)) ==> spec_build(fb, dma, boot) == Err::<
            WprGeometry,
            HermesFault,
        >(HermesFault::FirmwareRejected),
        spec_build(fb, dma, boot) matches Err(e) ==> e == HermesFault::FirmwareRejected || e
            == HermesFault::DmaAddressOverflow,
{
}

proof fn lemma_align_down_aligned(v: u64, a: u64)
    requires
        a > 0,
    ensures
        spec_align_down(v, a) % a == 0,
        spec_align_down(v, a) <= v,
{
    let q: int = v as int / a as int;
    vstd::arithmetic::div_mod::lemma_fundamental_div_mod(v as int, a as int);
    vstd::arithmetic::div_mod::lemma_mod_multiples_basic(q, a as int);
    vstd::arithmetic::mul::lemma_mul_is_commutative(q, a as int);
    assert(v as int - v as int % a as int == q * a);
}

proof fn lemma_concat_prefix<A>(a: Seq<A>, b: Seq<A>, k: int)
    requires
        0 <= k <= a.len(),
    ensures
        (a + b).subrange(0, k) == a.subrange(0, k),
{
    assert((a + b).subrange(0, k) =~= a.subrange(0, k));
}

proof fn lemma_concat_suffix<A>(a: Seq<A>, b: Seq<A>, i: int, j: int)
    requires
        0 <= i <= j <= b.len(),
    ensures
        (a + b).subrange(a.len() + i, a.len() + j) == b.subrange(i, j),
{
    assert((a + b).subrange(a.len() + i, a.len() + j) =~= b.subrange(i, j));
}

proof fn lemma_le_bytes_zero()
    ensures
        le_bytes(0) == zero_bytes(8),
{
    reveal(le_bytes);
    assert(le_bytes(0) =~= zero_bytes(8));
}

/// Metadata law: the Booter record is 256 bytes, carries the GSP-RM DMA
/// address little-endian in bytes 16..24, and ends in zero bytes (the last
/// 64-bit word, bytes 248..256, is 0).
pub proof fn metadata_record_words(
    g: WprGeometry,
    fb: TuringFramebufferEvidence,
    dma: TuringGspDmaInputs,
    boot: TuringRiscvBootOffsets,
)
    ensures
        spec_metadata_record(g, fb, dma, boot).len() == 256,
        spec_metadata_record(g, fb, dma, boot).subrange(16, 24) == le_bytes(dma.gsp_rm_address),
        spec_metadata_record(g, fb, dma, boot).subrange(248, 256) == le_bytes(0),
{
    lemma_le_bytes_len(WPR_METADATA_MAGIC);
    lemma_le_bytes_len(WPR_METADATA_REVISION);
    lemma_le_bytes_len(dma.gsp_rm_address);
    lemma_le_bytes_len(dma.gsp_rm_bytes);
    lemma_le_bytes_len(dma.gsp_boot_binary_address);
    lemma_le_bytes_len(T1000_GSP_BOOT_BINARY_BYTES);
    lemma_le_bytes_len(boot.monitor_code_offset);
    lemma_le_bytes_len(boot.monitor_data_offset);
    lemma_le_bytes_len(boot.manifest_offset);
    lemma_le_bytes_len(g.non_wpr_offset);
    lemma_le_bytes_len(g.non_wpr_offset);
    lemma_le_bytes_len(fb.non_wpr_heap_bytes);
    lemma_le_bytes_len(g.wpr_start);
    lemma_le_bytes_len(g.wpr_heap_offset);
    lemma_le_bytes_len((g.gsp_rm_offset - g.wpr_heap_offset) as u64);
    lemma_le_bytes_len(g.gsp_rm_offset);
    lemma_le_bytes_len(g.gsp_boot_binary_offset);
    lemma_le_bytes_len(g.frts_offset);
    lemma_le_bytes_len(T1000_FRTS_BYTES);
    lemma_le_bytes_len(g.wpr_end);
    lemma_le_bytes_len(fb.usable_bytes);
    lemma_le_bytes_len(fb.vga_workspace_offset);
    lemma_le_bytes_len(fb.vga_workspace_bytes);
    let p0 = le_bytes(WPR_METADATA_MAGIC);
    let p1 = p0 + le_bytes(WPR_METADATA_REVISION);
    let p2 = p1 + le_bytes(dma.gsp_rm_address);
    let p3 = p2 + le_bytes(dma.gsp_rm_bytes);
    lemma_concat_prefix(p2, le_bytes(dma.gsp_rm_bytes), 24);
    let p4 = p3 + le_bytes(dma.gsp_boot_binary_address);
    lemma_concat_prefix(p3, le_bytes(dma.gsp_boot_binary_address), 24);
    let p5 = p4 + le_bytes(T1000_GSP_BOOT_BINARY_BYTES);
    lemma_concat_prefix(p4, le_bytes(T1000_GSP_BOOT_BINARY_BYTES), 24);
    let p6 = p5 + le_bytes(boot.monitor_code_offset);
    lemma_concat_prefix(p5, le_bytes(boot.monitor_code_offset), 24);
    let p7 = p6 + le_bytes(boot.monitor_data_offset);
    lemma_concat_prefix(p6, le_bytes(boot.monitor_data_offset), 24);
    let p8 = p7 + le_bytes(boot.manifest_offset);
    lemma_concat_prefix(p7, le_bytes(boot.manifest_offset), 24);
    let p9 = p8 + zero_bytes(16);
    lemma_concat_prefix(p8, zero_bytes(16), 24);
    let p10 = p9 + le_bytes(g.non_wpr_offset);
    lemma_concat_prefix(p9, le_bytes(g.non_wpr_offset), 24);
    let p11 = p10 + le_bytes(g.non_wpr_offset);
    lemma_concat_prefix(p10, le_bytes(g.non_wpr_offset), 24);
    let p12 = p11 + le_bytes(fb.non_wpr_heap_bytes);
    lemma_concat_prefix(p11, le_bytes(fb.non_wpr_heap_bytes), 24);
    let p13 = p12 + le_bytes(g.wpr_start);
    lemma_concat_prefix(p12, le_bytes(g.wpr_start), 24);
    let p14 = p13 + le_bytes(g.wpr_heap_offset);
    lemma_concat_prefix(p13, le_bytes(g.wpr_heap_offset), 24);
    let p15 = p14 + le_bytes((g.gsp_rm_offset - g.wpr_heap_offset) as u64);
    lemma_concat_prefix(p14, le_bytes((g.gsp_rm_offset - g.wpr_heap_offset) as u64), 24);
    let p16 = p15 + le_bytes(g.gsp_rm_offset);
    lemma_concat_prefix(p15, le_bytes(g.gsp_rm_offset), 24);
    let p17 = p16 + le_bytes(g.gsp_boot_binary_offset);
    lemma_concat_prefix(p16, le_bytes(g.gsp_boot_binary_offset), 24);
    let p18 = p17 + le_bytes(g.frts_offset);
    lemma_concat_prefix(p17, le_bytes(g.frts_offset), 24);
    let p19 = p18 + le_bytes(T1000_FRTS_BYTES);
    lemma_concat_prefix(p18, le_bytes(T1000_FRTS_BYTES), 24);
    let p20 = p19 + le_bytes(g.wpr_end);
    lemma_concat_prefix(p19, le_bytes(g.wpr_end), 24);
    let p21 = p20 + le_bytes(fb.usable_bytes);
    lemma_concat_prefix(p20, le_bytes(fb.usable_bytes), 24);
    let p22 = p21 + le_bytes(fb.vga_workspace_offset);
    lemma_concat_prefix(p21, le_bytes(fb.vga_workspace_offset), 24);
    let p23 = p22 + le_bytes(fb.vga_workspace_bytes);
    lemma_concat_prefix(p22, le_bytes(fb.vga_workspace_bytes), 24);
    let p24 = p23 + zero_bytes(56);
    lemma_concat_prefix(p23, zero_bytes(56), 24);
    assert(p24 == spec_metadata_record(g, fb, dma, boot));
    assert(p2.subrange(0, 24) =~= p2);
    assert(p2.subrange(16, 24) =~= le_bytes(dma.gsp_rm_address));
    assert(p24.subrange(16, 24) =~= p24.subrange(0, 24).subrange(16, 24));
    assert(p23.len() == 200);
    lemma_concat_suffix(p23, zero_bytes(56), 48, 56);
    assert(zero_bytes(56).subrange(48, 56) =~= zero_bytes(8));
    lemma_le_bytes_zero();
}

} // verus!
