//! In-process `HermesPlatform` double for host tests and controlled bring-up.
//!
//! Records isolation, MMIO and DMA calls. Isolation can be forced to fail so the
//! shared sequencer never reaches Online without a live domain. MMIO is a sparse
//! word store per mapped window; DMA regions hold up to one page each.

use vstd::prelude::*;

use crate::fault::HermesFault;
use crate::pci::{
    is_nvidia_turing_or_newer, spec_nvidia_architecture, HermesPciIdentity, NVIDIA_VENDOR_ID,
};
use crate::platform::{
    logged_refusal, DmaOp, DmaPurpose, DmaRegion, HeldResource, HermesPlatform, MmioOp, MmioWindow,
};

verus! {

pub const SIM_MAX_DOMAINS: u32 = 8;

pub const SIM_MAX_MMIO: u32 = 16;

pub const SIM_MAX_DMA: u32 = 16;

/// Sparse MMIO words per window: GSP Falcon mailboxes sit near 0x11_0040.
pub const SIM_SPARSE_WORDS: usize = 128;

/// Simulated BAR0 length, large enough for the published GSP register block.
pub const SIM_BAR0_LENGTH: u64 = 0x20_0000;

/// Bytes held by one simulated DMA region.
pub const SIM_DMA_CAP: usize = 4096;

pub const SIM_MAILBOX0: u32 = 0x0011_0040;

pub const SIM_MAILBOX1: u32 = 0x0011_0044;

/// Command token that the auto-acknowledging mailbox answers.
pub const SIM_HELLO: u32 = 0x4845_4c4c;

/// Answer of the auto-acknowledging mailbox.
pub const SIM_ACK: u32 = 0x4143_4b21;

#[derive(Clone, Copy)]
struct DomainRec {
    live: bool,
    identity: HermesPciIdentity,
}

#[derive(Clone, Copy)]
struct SparseWord {
    live: bool,
    offset: u32,
    value: u32,
}

#[derive(Clone, Copy)]
struct MmioRec {
    live: bool,
    domain: u32,
    bar: u8,
    length: u64,
    auto_mailbox_ack: bool,
}

#[derive(Clone, Copy)]
struct DmaRec {
    live: bool,
    domain: u32,
    device_address: u64,
    length: usize,
    purpose: DmaPurpose,
}

/// Call counters of a simulated platform.
pub struct SimCalls {
    pub isolate: u32,
    pub map_bar: u32,
    pub dma_alloc: u32,
    pub read32: u32,
    pub write32: u32,
}

/// Configurable platform used by tests and controlled bring-up probes.
pub struct SimPlatform {
    domains: Vec<DomainRec>,
    mmio: Vec<MmioRec>,
    /// `SIM_SPARSE_WORDS` words per MMIO slot, slot after slot.
    sparse: Vec<SparseWord>,
    dma: Vec<DmaRec>,
    /// `SIM_DMA_CAP` bytes per DMA slot, slot after slot.
    dma_bytes: Vec<u8>,
    fail_isolation: bool,
    auto_mailbox_ack: bool,
    next_domain: u32,
    next_mmio: u32,
    next_dma: u32,
    tick: u64,
    isolate_calls: u32,
    map_bar_calls: u32,
    dma_alloc_calls: u32,
    read32_calls: u32,
    write32_calls: u32,
    isolations: Ghost<Seq<HermesPciIdentity>>,
    mmio_ops: Ghost<Seq<MmioOp>>,
    dma_ops: Ghost<Seq<DmaOp>>,
    refusals: Ghost<Seq<HermesFault>>,
}

spec fn word_matches(w: SparseWord, offset: u32) -> bool {
    w.live && w.offset == offset
}

/// The value of the first live word at `offset` among the words `j..` of the
/// slot starting at `base`; 0 when there is none.
spec fn slot_lookup(words: Seq<SparseWord>, base: int, offset: u32, j: int) -> u32
    decreases SIM_SPARSE_WORDS - j,
{
    if j < 0 || j >= SIM_SPARSE_WORDS {
        0
    } else if word_matches(words[base + j], offset) {
        words[base + j].value
    } else {
        slot_lookup(words, base, offset, j + 1)
    }
}

proof fn lemma_lookup_skips_misses(words: Seq<SparseWord>, base: int, offset: u32, k: int, j: int)
    requires
        0 <= k <= j <= SIM_SPARSE_WORDS,
        forall|p: int| k <= p < j ==> !word_matches(#[trigger] words[base + p], offset),
    ensures
        slot_lookup(words, base, offset, k) == slot_lookup(words, base, offset, j),
    decreases j - k,
{
    if k < j {
        lemma_lookup_skips_misses(words, base, offset, k + 1, j);
    }
}

proof fn lemma_lookup_agrees(a: Seq<SparseWord>, b: Seq<SparseWord>, base: int, offset: u32, j: int)
    requires
        0 <= j <= SIM_SPARSE_WORDS,
        forall|p: int|
            j <= p < SIM_SPARSE_WORDS ==> word_matches(#[trigger] a[base + p], offset)
                == word_matches(b[base + p], offset),
        forall|p: int|
            j <= p < SIM_SPARSE_WORDS && word_matches(#[trigger] a[base + p], offset) ==> a[base
                + p].value == b[base + p].value,
    ensures
        slot_lookup(a, base, offset, j) == slot_lookup(b, base, offset, j),
    decreases SIM_SPARSE_WORDS - j,
{
    if j < SIM_SPARSE_WORDS {
        lemma_lookup_agrees(a, b, base, offset, j + 1);
    }
}

spec fn slot_of(handle: u32, max: u32) -> int {
    if handle == 0 || handle > max {
        -1
    } else {
        handle - 1
    }
}

pub open spec fn spec_power_of_two(a: usize) -> bool {
    a != 0 && a & ((a - 1) as usize) == 0
}

impl SimPlatform {
    #[verifier::type_invariant]
    spec fn inv(self) -> bool {
        &&& self.domains@.len() == SIM_MAX_DOMAINS
        &&& self.mmio@.len() == SIM_MAX_MMIO
        &&& self.sparse@.len() == SIM_MAX_MMIO * SIM_SPARSE_WORDS
        &&& self.dma@.len() == SIM_MAX_DMA
        &&& self.dma_bytes@.len() == SIM_MAX_DMA * SIM_DMA_CAP
        &&& forall|i: int| 0 <= i < SIM_MAX_DMA ==> #[trigger] self.dma@[i].length <= SIM_DMA_CAP
    }

    /// Whether isolation is forced to fail.
    pub closed spec fn fails_isolation(self) -> bool {
        self.fail_isolation
    }

    /// Whether newly mapped windows auto-acknowledge the HELLO mailbox command.
    pub closed spec fn auto_acks(self) -> bool {
        self.auto_mailbox_ack
    }

    /// The handle that the next isolation, BAR map or DMA allocation hands out.
    pub closed spec fn next_domain_handle(self) -> u32 {
        self.next_domain
    }

    pub closed spec fn next_mmio_handle(self) -> u32 {
        self.next_mmio
    }

    pub closed spec fn next_dma_handle(self) -> u32 {
        self.next_dma
    }

    /// The value the next `now_tick` returns.
    pub closed spec fn ticks(self) -> u64 {
        self.tick
    }

    pub closed spec fn domain_live(self, domain: u32) -> bool {
        let i = slot_of(domain, SIM_MAX_DOMAINS);
        i >= 0 && self.domains@[i].live
    }

    pub closed spec fn window_live(self, handle: u32) -> bool {
        let i = slot_of(handle, SIM_MAX_MMIO);
        i >= 0 && self.mmio@[i].live
    }

    pub closed spec fn window_length(self, handle: u32) -> u64 {
        let i = slot_of(handle, SIM_MAX_MMIO);
        if i >= 0 {
            self.mmio@[i].length
        } else {
            0
        }
    }

    pub closed spec fn window_auto_acks(self, handle: u32) -> bool {
        let i = slot_of(handle, SIM_MAX_MMIO);
        i >= 0 && self.mmio@[i].auto_mailbox_ack
    }

    /// The word that a read of `offset` through window `handle` sees.
    pub closed spec fn mmio_word(self, handle: u32, offset: u32) -> u32 {
        let i = slot_of(handle, SIM_MAX_MMIO);
        if i >= 0 {
            slot_lookup(self.sparse@, i * SIM_SPARSE_WORDS, offset, 0)
        } else {
            0
        }
    }

    pub closed spec fn region_live(self, handle: u32) -> bool {
        let i = slot_of(handle, SIM_MAX_DMA);
        i >= 0 && self.dma@[i].live
    }

    pub closed spec fn region_length(self, handle: u32) -> usize {
        let i = slot_of(handle, SIM_MAX_DMA);
        if i >= 0 {
            self.dma@[i].length
        } else {
            0
        }
    }

    /// The bytes of DMA region `handle`, offsets `0..SIM_DMA_CAP`.
    pub closed spec fn region_bytes(self, handle: u32) -> Seq<u8> {
        let i = slot_of(handle, SIM_MAX_DMA);
        if i >= 0 {
            self.dma_bytes@.subrange(i * SIM_DMA_CAP, i * SIM_DMA_CAP + SIM_DMA_CAP)
        } else {
            Seq::empty()
        }
    }

    pub closed spec fn domains_unchanged_but_switch(self, other: Self) -> bool {
        self.domains@ == other.domains@ && self.next_domain == other.next_domain
    }

    pub closed spec fn mmio_unchanged_but_switch(self, other: Self) -> bool {
        self.mmio@ == other.mmio@ && self.sparse@ == other.sparse@ && self.next_mmio == other.next_mmio
    }

    /// How many times each recorded platform call was made (wrapping).
    pub closed spec fn calls(self) -> SimCalls {
        SimCalls {
            isolate: self.isolate_calls,
            map_bar: self.map_bar_calls,
            dma_alloc: self.dma_alloc_calls,
            read32: self.read32_calls,
            write32: self.write32_calls,
        }
    }

    /// Isolation domains, the forced-failure switch and the next domain handle agree.
    pub closed spec fn same_domains(self, other: Self) -> bool {
        &&& self.domains@ == other.domains@
        &&& self.fail_isolation == other.fail_isolation
        &&& self.next_domain == other.next_domain
    }

    /// Mapped windows, their words, the auto-ack switch and the next window handle agree.
    pub closed spec fn same_mmio(self, other: Self) -> bool {
        &&& self.mmio@ == other.mmio@
        &&& self.sparse@ == other.sparse@
        &&& self.auto_mailbox_ack == other.auto_mailbox_ack
        &&& self.next_mmio == other.next_mmio
    }

    /// DMA regions, their bytes and the next region handle agree.
    pub closed spec fn same_dma(self, other: Self) -> bool {
        &&& self.dma@ == other.dma@
        &&& self.dma_bytes@ == other.dma_bytes@
        &&& self.next_dma == other.next_dma
    }

    /// Everything but the logs of isolations, MMIO and DMA is the same.
    pub closed spec fn same_but_logs(self, other: Self) -> bool {
        &&& self.domains@ == other.domains@
        &&& self.mmio@ == other.mmio@
        &&& self.sparse@ == other.sparse@
        &&& self.dma@ == other.dma@
        &&& self.dma_bytes@ == other.dma_bytes@
        &&& self.fail_isolation == other.fail_isolation
        &&& self.auto_mailbox_ack == other.auto_mailbox_ack
        &&& self.next_domain == other.next_domain
        &&& self.next_mmio == other.next_mmio
        &&& self.next_dma == other.next_dma
        &&& self.tick == other.tick
        &&& self.calls() == other.calls()
    }

    /// Everything but the MMIO words and the call counters is the same.
    pub closed spec fn same_resources(self, other: Self) -> bool {
        &&& self.same_domains(other)
        &&& self.mmio@ == other.mmio@
        &&& self.auto_mailbox_ack == other.auto_mailbox_ack
        &&& self.next_mmio == other.next_mmio
        &&& self.same_dma(other)
    }

    /// A fresh platform: nothing isolated, mapped or allocated, handles from 1.
    pub fn new() -> (p: Self)
        ensures
            !p.fails_isolation(),
            !p.auto_acks(),
            p.next_domain_handle() == 1,
            p.next_mmio_handle() == 1,
            p.next_dma_handle() == 1,
            forall|d: u32| !p.domain_live(d),
            forall|h: u32| !p.window_live(h),
            forall|h: u32| !p.region_live(h),
            p.calls() == (SimCalls { isolate: 0, map_bar: 0, dma_alloc: 0, read32: 0, write32: 0 }),
    {
        let empty_id = HermesPciIdentity {
            segment: 0,
            bus: 0,
            slot: 0,
            function: 0,
            revision: 0,
            vendor_id: 0,
            device_id: 0,
            subsystem_vendor_id: 0,
            subsystem_device_id: 0,
            class_code: 0,
            subclass: 0,
            programming_interface: 0,
            reserved: 0,
        };
        let mut domains: Vec<DomainRec> = Vec::new();
        let mut i: u32 = 0;
        while i < SIM_MAX_DOMAINS
            invariant
                i <= SIM_MAX_DOMAINS,
                domains@.len() == i,
                forall|k: int| 0 <= k < i ==> !(#[trigger] domains@[k]).live,
            decreases SIM_MAX_DOMAINS - i,
        {
            domains.push(DomainRec { live: false, identity: empty_id });
            i = i + 1;
        }
        let mut mmio: Vec<MmioRec> = Vec::new();
        let mut dma: Vec<DmaRec> = Vec::new();
        i = 0;
        while i < SIM_MAX_MMIO
            invariant
                i <= SIM_MAX_MMIO,
                SIM_MAX_MMIO == SIM_MAX_DMA,
                mmio@.len() == i,
                dma@.len() == i,
                forall|k: int| 0 <= k < i ==> !(#[trigger] mmio@[k]).live,
                forall|k: int| 0 <= k < i ==> !(#[trigger] dma@[k]).live && dma@[k].length == 0,
            decreases SIM_MAX_MMIO - i,
        {
            mmio.push(MmioRec { live: false, domain: 0, bar: 0, length: 0, auto_mailbox_ack: false });
            dma.push(
                DmaRec {
                    live: false,
                    domain: 0,
                    device_address: 0,
                    length: 0,
                    purpose: DmaPurpose::Firmware,
                },
            );
            i = i + 1;
        }
        let mut sparse: Vec<SparseWord> = Vec::new();
        let mut n: usize = 0;
        while n < 2048
            invariant
                n <= 2048,
                sparse@.len() == n,
            decreases 2048 - n,
        {
            sparse.push(SparseWord { live: false, offset: 0, value: 0 });
            n = n + 1;
        }
        let mut dma_bytes: Vec<u8> = Vec::new();
        n = 0;
        while n < 65536
            invariant
                n <= 65536,
                dma_bytes@.len() == n,
            decreases 65536 - n,
        {
            dma_bytes.push(0u8);
            n = n + 1;
        }
        SimPlatform {
            domains,
            mmio,
            sparse,
            dma,
            dma_bytes,
            fail_isolation: false,
            auto_mailbox_ack: false,
            next_domain: 1,
            next_mmio: 1,
            next_dma: 1,
            tick: 1,
            isolate_calls: 0,
            map_bar_calls: 0,
            dma_alloc_calls: 0,
            read32_calls: 0,
            write32_calls: 0,
            isolations: Ghost(Seq::empty()),
            mmio_ops: Ghost(Seq::empty()),
            dma_ops: Ghost(Seq::empty()),
            refusals: Ghost(Seq::empty()),
        }
    }

    /// Forces (or stops forcing) isolation to fail.
    pub fn set_fail_isolation(&mut self, fail: bool)
        ensures
            final(self).fails_isolation() == fail,
            final(self).domains_unchanged_but_switch(*old(self)),
            final(self).same_mmio(*old(self)),
            final(self).same_dma(*old(self)),
            final(self).calls() == old(self).calls(),
    {
        proof {
            use_type_invariant(&*self);
        }
        self.fail_isolation = fail;
    }

    /// Makes windows mapped from now on answer a HELLO written to MAILBOX0 with
    /// an ACK in MAILBOX1.
    pub fn set_auto_mailbox_ack(&mut self, enable: bool)
        ensures
            final(self).auto_acks() == enable,
            final(self).same_domains(*old(self)),
            final(self).mmio_unchanged_but_switch(*old(self)),
            final(self).same_dma(*old(self)),
            final(self).calls() == old(self).calls(),
    {
        proof {
            use_type_invariant(&*self);
        }
        self.auto_mailbox_ack = enable;
    }

    pub fn isolate_calls(&self) -> (n: u32)
        ensures
            n == self.calls().isolate,
    {
        self.isolate_calls
    }

    pub fn map_bar_calls(&self) -> (n: u32)
        ensures
            n == self.calls().map_bar,
    {
        self.map_bar_calls
    }

    pub fn dma_alloc_calls(&self) -> (n: u32)
        ensures
            n == self.calls().dma_alloc,
    {
        self.dma_alloc_calls
    }

    pub fn read32_calls(&self) -> (n: u32)
        ensures
            n == self.calls().read32,
    {
        self.read32_calls
    }

    pub fn write32_calls(&self) -> (n: u32)
        ensures
            n == self.calls().write32,
    {
        self.write32_calls
    }
}


impl SimPlatform {
    /// Why an MMIO access through `window` at `offset` is refused before any
    /// word is touched; `dead` is the fault for an unmapped window.
    pub open spec fn mmio_refusal(self, window: MmioWindow, offset: u32, dead: HermesFault) -> Option<
        HermesFault,
    > {
        let h = window.handle;
        if h == 0 || h > SIM_MAX_MMIO {
            Some(HermesFault::MmioOutOfRange)
        } else if !self.window_live(h) {
            Some(dead)
        } else if offset as u64 + 4 > self.window_length(h) || offset % 4 != 0 {
            Some(HermesFault::MmioOutOfRange)
        } else {
            None
        }
    }

    /// What `read32` answers.
    pub open spec fn spec_read32(self, window: MmioWindow, offset: u32) -> Result<u32, HermesFault> {
        match self.mmio_refusal(window, offset, HermesFault::MmioRead) {
            Some(f) => Err(f),
            None => Ok(self.mmio_word(window.handle, offset)),
        }
    }

    /// `after` is `before` with the word at `offset` of window `handle` set to
    /// `value`, every other word and every resource unchanged.
    pub open spec fn stored_word(before: Self, after: Self, handle: u32, offset: u32, value: u32) -> bool {
        &&& after.same_resources(before)
        &&& after.mmio_word(handle, offset) == value
        &&& forall|h: u32, o: u32|
            !(h == handle && o == offset) ==> #[trigger] after.mmio_word(h, o) == before.mmio_word(
                h,
                o,
            )
    }

    /// Whether window `handle` has a word that a write of `offset` can use.
    pub closed spec fn has_room(self, handle: u32, offset: u32) -> bool {
        words_room(self.sparse@, slot_of(handle, SIM_MAX_MMIO) * SIM_SPARSE_WORDS, offset)
    }


}


proof fn lemma_other_slots_agree(a: Seq<SparseWord>, b: Seq<SparseWord>, base: int)
    requires
        a.len() == b.len(),
        0 <= base,
        base + SIM_SPARSE_WORDS <= a.len(),
        forall|i: int| 0 <= i < a.len() && !(base <= i < base + SIM_SPARSE_WORDS) ==> a[i] == b[i],
    ensures
        forall|h: u32, o: u32|
            slot_of(h, SIM_MAX_MMIO) * SIM_SPARSE_WORDS != base && 0 <= slot_of(h, SIM_MAX_MMIO)
                && a.len() == 2048 && base % 128 == 0
                ==> #[trigger] slot_lookup(a, slot_of(h, SIM_MAX_MMIO) * SIM_SPARSE_WORDS, o, 0)
                == slot_lookup(b, slot_of(h, SIM_MAX_MMIO) * SIM_SPARSE_WORDS, o, 0),
{
    assert forall|h: u32, o: u32|
        slot_of(h, SIM_MAX_MMIO) * SIM_SPARSE_WORDS != base && 0 <= slot_of(h, SIM_MAX_MMIO)
            && a.len() == 2048 && base % 128 == 0 implies #[trigger] slot_lookup(
        a,
        slot_of(h, SIM_MAX_MMIO) * SIM_SPARSE_WORDS,
        o,
        0,
    ) == slot_lookup(b, slot_of(h, SIM_MAX_MMIO) * SIM_SPARSE_WORDS, o, 0) by {
        let s = slot_of(h, SIM_MAX_MMIO);
        let b2 = s * SIM_SPARSE_WORDS;
        assert(0 <= s < SIM_MAX_MMIO);
        assert(b2 + SIM_SPARSE_WORDS <= base || base + SIM_SPARSE_WORDS <= b2) by (nonlinear_arith)
            requires
                b2 == s * 128,
                base % 128 == 0,
                b2 != base,
                0 <= base,
                0 <= s,
        {
            let q = base / 128;
            assert(base == q * 128);
            if s < q {
                assert(s + 1 <= q);
                assert((s + 1) * 128 <= q * 128);
            } else {
                assert(s != q);
                assert(q + 1 <= s);
                assert((q + 1) * 128 <= s * 128);
            }
        }
        assert(b2 + SIM_SPARSE_WORDS <= a.len()) by (nonlinear_arith)
            requires
                b2 == s * 128,
                s < 16,
                a.len() == 16 * 128,
        ;
        lemma_lookup_agrees(a, b, b2, o, 0);
    }
}

fn store_region(regions: &mut Vec<DmaRec>, idx: usize, rec: DmaRec)
    requires
        idx < old(regions)@.len(),
    ensures
        final(regions)@ == old(regions)@.update(idx as int, rec),
    no_unwind
{
    regions[idx] = rec;
}

/// Marks every word of the slot starting at `base` free, then sets word 0 to
/// the synthetic "device ready" status 1 at offset 0.
fn reset_slot(words: &mut Vec<SparseWord>, base: usize)
    requires
        old(words)@.len() == 2048,
        base % 128 == 0,
        base + 128 <= 2048,
    ensures
        final(words)@.len() == 2048,
        final(words)@[base as int] == (SparseWord { live: true, offset: 0, value: 1 }),
        forall|p: int| 1 <= p < 128 ==> !(#[trigger] final(words)@[base + p]).live,
        forall|i: int|
            0 <= i < 2048 && !(base <= i < base + 128) ==> #[trigger] final(words)@[i] == old(
                words,
            )@[i],
    no_unwind
{
    let mut j: usize = 0;
    while j < SIM_SPARSE_WORDS
        invariant
            j <= SIM_SPARSE_WORDS,
            base % 128 == 0,
            base + 128 <= 2048,
            words@.len() == 2048,
            forall|p: int| 0 <= p < j ==> !(#[trigger] words@[base + p]).live,
            forall|i: int|
                0 <= i < 2048 && !(base <= i < base + 128) ==> #[trigger] words@[i] == old(
                    words,
                )@[i],
        decreases SIM_SPARSE_WORDS - j,
    {
        words[base + j] = SparseWord { live: false, offset: 0, value: 0 };
        j = j + 1;
    }
    words[base] = SparseWord { live: true, offset: 0, value: 1 };
}

/// Zeroes the region bytes starting at `base`.
fn zero_region(bytes: &mut Vec<u8>, base: usize)
    requires
        old(bytes)@.len() == 65536,
        base % 4096 == 0,
        base + 4096 <= 65536,
    ensures
        final(bytes)@.len() == 65536,
        forall|p: int| 0 <= p < 4096 ==> #[trigger] final(bytes)@[base + p] == 0,
        forall|i: int|
            0 <= i < 65536 && !(base <= i < base + 4096) ==> #[trigger] final(bytes)@[i] == old(
                bytes,
            )@[i],
    no_unwind
{
    let mut j: usize = 0;
    while j < SIM_DMA_CAP
        invariant
            j <= SIM_DMA_CAP,
            base % 4096 == 0,
            base + 4096 <= 65536,
            bytes@.len() == 65536,
            forall|p: int| 0 <= p < j ==> #[trigger] bytes@[base + p] == 0,
            forall|i: int|
                0 <= i < 65536 && !(base <= i < base + 4096) ==> #[trigger] bytes@[i] == old(
                    bytes,
                )@[i],
        decreases SIM_DMA_CAP - j,
    {
        bytes[base + j] = 0;
        j = j + 1;
    }
}

/// Copies `src` into `dst` at `at`.
fn copy_into(dst: &mut Vec<u8>, at: usize, src: &[u8], n: usize)
    requires
        n == src@.len(),
        old(dst)@.len() == 65536,
        at + src@.len() <= old(dst)@.len(),
    ensures
        final(dst)@.len() == old(dst)@.len(),
        forall|p: int| 0 <= p < src@.len() ==> #[trigger] final(dst)@[at + p] == src@[p],
        forall|i: int|
            0 <= i < old(dst)@.len() && !(at <= i < at + src@.len()) ==> #[trigger] final(dst)@[i]
                == old(dst)@[i],
    no_unwind
{
    let mut j: usize = 0;
    while j < n
        invariant
            j <= n,
            n == src@.len(),
            dst@.len() == 65536,
            at + n <= dst@.len(),
            dst@.len() == old(dst)@.len(),
            forall|p: int| 0 <= p < j ==> #[trigger] dst@[at + p] == src@[p],
            forall|i: int|
                0 <= i < old(dst)@.len() && !(at <= i < at + j) ==> #[trigger] dst@[i] == old(
                    dst,
                )@[i],
        decreases n - j,
    {
        dst[at + j] = src[j];
        j = j + 1;
    }
}

proof fn lemma_other_regions_unchanged(a: Seq<u8>, b: Seq<u8>, base: int)
    requires
        a.len() == 65536,
        b.len() == 65536,
        base % 4096 == 0,
        0 <= base,
        base + 4096 <= 65536,
        forall|i: int| 0 <= i < 65536 && !(base <= i < base + 4096) ==> #[trigger] a[i] == b[i],
    ensures
        forall|s: int|
            0 <= s < 16 && s * 4096 != base ==> #[trigger] a.subrange(s * 4096, s * 4096 + 4096)
                == b.subrange(s * 4096, s * 4096 + 4096),
{
    assert forall|s: int| 0 <= s < 16 && s * 4096 != base implies #[trigger] a.subrange(
        s * 4096,
        s * 4096 + 4096,
    ) == b.subrange(s * 4096, s * 4096 + 4096) by {
        let q = base / 4096;
        assert(base == q * 4096);
        if s < q {
            assert(s * 4096 + 4096 <= base) by (nonlinear_arith)
                requires
                    s < q,
                    base == q * 4096,
            ;
        } else {
            assert(s != q);
            assert(base + 4096 <= s * 4096) by (nonlinear_arith)
                requires
                    s > q,
                    base == q * 4096,
            ;
        }
        assert(a.subrange(s * 4096, s * 4096 + 4096) =~= b.subrange(s * 4096, s * 4096 + 4096));
    }
}

/// Whether the slot starting at `base` has a word that a write of `offset` can use.
spec fn words_room(words: Seq<SparseWord>, base: int, offset: u32) -> bool {
    exists|j: int|
        0 <= j < SIM_SPARSE_WORDS && (word_matches(#[trigger] words[base + j], offset)
            || !words[base + j].live)
}

/// Stores `value` at `offset` in the slot starting at `base`: the first live word
/// at that offset is updated, else the first free word is taken.
fn sparse_write(words: &mut Vec<SparseWord>, base: usize, offset: u32, value: u32) -> (r: Result<
    (),
    HermesFault,
>)
    requires
        old(words)@.len() == 2048,
        base % 128 == 0,
        base + 128 <= 2048,
    ensures
        final(words)@.len() == 2048,
        r is Ok <==> words_room(old(words)@, base as int, offset),
        r is Err ==> r == Err::<(), HermesFault>(HermesFault::MmioWrite) && final(words)@ == old(
            words,
        )@,
        r is Ok ==> slot_lookup(final(words)@, base as int, offset, 0) == value,
        r is Ok ==> forall|o: u32|
            o != offset ==> #[trigger] slot_lookup(final(words)@, base as int, o, 0) == slot_lookup(
                old(words)@,
                base as int,
                o,
                0,
            ),
        forall|i: int|
            0 <= i < 2048 && !(base <= i < base + 128) ==> #[trigger] final(words)@[i] == old(
                words,
            )@[i],
    no_unwind
{
    let ghost before = words@;
    let mut j: usize = 0;
    while j < SIM_SPARSE_WORDS
        invariant
            j <= SIM_SPARSE_WORDS,
            base % 128 == 0,
            base + 128 <= 2048,
            words@ == before,
            before == old(words)@,
            before.len() == 2048,
            forall|p: int| 0 <= p < j ==> !word_matches(#[trigger] before[base + p], offset),
        decreases SIM_SPARSE_WORDS - j,
    {
        let w = words[base + j];
        if w.live && w.offset == offset {
            let nw = SparseWord { live: true, offset, value };
            words[base + j] = nw;
            proof {
                let after = words@;
                assert(after == before.update(base + j, nw));
                lemma_lookup_skips_misses(after, base as int, offset, 0, j as int);
                assert forall|o: u32| o != offset implies #[trigger] slot_lookup(after, base as int, o, 0)
                    == slot_lookup(before, base as int, o, 0) by {
                    lemma_lookup_agrees(after, before, base as int, o, 0);
                }
                assert(words_room(before, base as int, offset)) by {
                    assert(word_matches(before[base + j], offset));
                }
            }
            return Ok(());
        }
        j = j + 1;
    }
    j = 0;
    while j < SIM_SPARSE_WORDS
        invariant
            j <= SIM_SPARSE_WORDS,
            base % 128 == 0,
            base + 128 <= 2048,
            words@ == before,
            before == old(words)@,
            before.len() == 2048,
            forall|p: int| 0 <= p < SIM_SPARSE_WORDS ==> !word_matches(#[trigger] before[base + p], offset),
            forall|p: int| 0 <= p < j ==> (#[trigger] before[base + p]).live,
        decreases SIM_SPARSE_WORDS - j,
    {
        let w = words[base + j];
        if !w.live {
            let nw = SparseWord { live: true, offset, value };
            words[base + j] = nw;
            proof {
                let after = words@;
                assert(after == before.update(base + j, nw));
                lemma_lookup_skips_misses(after, base as int, offset, 0, j as int);
                assert forall|o: u32| o != offset implies #[trigger] slot_lookup(after, base as int, o, 0)
                    == slot_lookup(before, base as int, o, 0) by {
                    lemma_lookup_agrees(after, before, base as int, o, 0);
                }
                assert(words_room(before, base as int, offset)) by {
                    assert(!before[base + j].live);
                }
            }
            return Ok(());
        }
        j = j + 1;
    }
    proof {
        assert forall|q: int| 0 <= q < SIM_SPARSE_WORDS implies !(word_matches(
            #[trigger] before[base + q],
            offset,
        ) || !before[base + q].live) by {}
    }
    Err(HermesFault::MmioWrite)
}


impl SimPlatform {
    /// What `isolate_device` answers.
    pub open spec fn isolation_result(self, identity: HermesPciIdentity) -> Result<u32, HermesFault> {
        if self.fails_isolation() {
            Err(HermesFault::DeviceIsolation)
        } else if identity.vendor_id != NVIDIA_VENDOR_ID {
            Err(HermesFault::NotNvidia)
        } else if spec_nvidia_architecture(identity.device_id).is_none() {
            Err(HermesFault::UnsupportedArchitecture)
        } else if self.next_domain_handle() == 0 || self.next_domain_handle() > SIM_MAX_DOMAINS {
            Err(HermesFault::DeviceIsolation)
        } else if self.domain_live(self.next_domain_handle()) {
            Err(HermesFault::DeviceIsolation)
        } else {
            Ok(self.next_domain_handle())
        }
    }

    /// What `map_bar` answers: the window is at least the simulated BAR0 long.
    pub open spec fn map_result(self, domain: u32, bar: u8, minimum_length: u64) -> Result<
        MmioWindow,
        HermesFault,
    > {
        if !self.domain_live(domain) {
            Err(HermesFault::DeviceIsolation)
        } else if bar > 5 {
            Err(HermesFault::BarUnavailable)
        } else if self.next_mmio_handle() == 0 || self.next_mmio_handle() > SIM_MAX_MMIO {
            Err(HermesFault::BarUnavailable)
        } else if self.window_live(self.next_mmio_handle()) {
            Err(HermesFault::BarUnavailable)
        } else {
            Ok(
                MmioWindow {
                    handle: self.next_mmio_handle(),
                    bar,
                    length: if minimum_length > SIM_BAR0_LENGTH {
                        minimum_length
                    } else {
                        SIM_BAR0_LENGTH
                    },
                },
            )
        }
    }

    /// What `allocate_dma` answers: regions sit at 0x8000_0000 plus the handle
    /// times 64 KiB.
    pub open spec fn dma_result(self, domain: u32, length: usize, alignment: usize, purpose: DmaPurpose) -> Result<
        DmaRegion,
        HermesFault,
    > {
        if !self.domain_live(domain) {
            Err(HermesFault::DeviceIsolation)
        } else if length == 0 || length > SIM_DMA_CAP {
            Err(HermesFault::DmaAllocation)
        } else if !spec_power_of_two(alignment) {
            Err(HermesFault::DmaAllocation)
        } else if self.next_dma_handle() == 0 || self.next_dma_handle() > SIM_MAX_DMA {
            Err(HermesFault::DmaAllocation)
        } else if self.region_live(self.next_dma_handle()) {
            Err(HermesFault::DmaAllocation)
        } else {
            Ok(
                DmaRegion {
                    handle: self.next_dma_handle(),
                    device_address: (0x8000_0000 + self.next_dma_handle() * 0x1_0000) as u64,
                    length,
                    alignment,
                    purpose,
                },
            )
        }
    }

    /// Why a DMA access of `length` bytes at `offset` of `region` is refused.
    pub open spec fn dma_refusal(self, region: DmaRegion, offset: usize, length: int) -> Option<
        HermesFault,
    > {
        let h = region.handle;
        if h == 0 || h > SIM_MAX_DMA || !self.region_live(h) {
            Some(HermesFault::DmaAccess)
        } else if offset + length > usize::MAX {
            Some(HermesFault::DmaAddressOverflow)
        } else if offset + length > self.region_length(h) {
            Some(HermesFault::DmaAccess)
        } else {
            None
        }
    }

    /// `after` is `before` with `data` stored at `offset` of region `handle`.
    pub open spec fn stored_bytes(before: Self, after: Self, handle: u32, offset: int, data: Seq<u8>) -> bool {
        &&& after.same_domains(before)
        &&& after.same_mmio(before)
        &&& forall|h: u32| #[trigger] after.region_live(h) == before.region_live(h)
        &&& forall|h: u32| #[trigger] after.region_length(h) == before.region_length(h)
        &&& after.region_bytes(handle) == before.region_bytes(handle).subrange(0, offset) + data
            + before.region_bytes(handle).subrange(offset + data.len(), SIM_DMA_CAP as int)
        &&& forall|h: u32|
            1 <= h <= SIM_MAX_DMA && h != handle ==> #[trigger] after.region_bytes(h)
                == before.region_bytes(h)
    }

    fn dma_check(&self, region: DmaRegion, offset: usize, length: usize) -> (r: Result<
        (usize, usize),
        HermesFault,
    >)
        ensures
            match self.dma_refusal(region, offset, length as int) {
                Some(f) => r == Err::<(usize, usize), HermesFault>(f),
                None => r == Ok::<(usize, usize), HermesFault>(
                    ((region.handle - 1) as usize, (offset + length) as usize),
                ),
            },
    {
        proof {
            use_type_invariant(self);
        }
        if region.handle == 0 || region.handle > SIM_MAX_DMA {
            return Err(HermesFault::DmaAccess);
        }
        let idx = (region.handle - 1) as usize;
        if !self.dma[idx].live {
            return Err(HermesFault::DmaAccess);
        }
        let end = match offset.checked_add(length) {
            Some(e) => e,
            None => {
                return Err(HermesFault::DmaAddressOverflow);
            },
        };
        if end > self.dma[idx].length {
            return Err(HermesFault::DmaAccess);
        }
        Ok((idx, end))
    }
}

impl SimPlatform {
    fn isolate_device_inner(&mut self, identity: HermesPciIdentity) -> (r: Result<u32, HermesFault>)
        ensures
            final(self).isolations == old(self).isolations,
            final(self).mmio_ops == old(self).mmio_ops,
            final(self).dma_ops == old(self).dma_ops,
            final(self).refusals == old(self).refusals,
            r == old(self).isolation_result(identity),
            final(self).calls() == (SimCalls {
                isolate: old(self).calls().isolate.wrapping_add(1),
                ..old(self).calls()
            }),
            final(self).fails_isolation() == old(self).fails_isolation(),
            final(self).same_mmio(*old(self)),
            final(self).same_dma(*old(self)),
            final(self).next_domain_handle() == if !old(self).fails_isolation()
                && identity.vendor_id == NVIDIA_VENDOR_ID && spec_nvidia_architecture(
                identity.device_id,
            ).is_some() {
                old(self).next_domain_handle().wrapping_add(1)
            } else {
                old(self).next_domain_handle()
            },
            r is Ok ==> final(self).domain_live(r->Ok_0),
            forall|d: u32|
                !(r is Ok && d == r->Ok_0) ==> #[trigger] final(self).domain_live(d) == old(
                    self,
                ).domain_live(d),
    {
        proof {
            use_type_invariant(&*self);
        }
        self.isolate_calls = self.isolate_calls.wrapping_add(1);
        if self.fail_isolation {
            return Err(HermesFault::DeviceIsolation);
        }
        if identity.vendor_id != NVIDIA_VENDOR_ID {
            return Err(HermesFault::NotNvidia);
        }
        if !is_nvidia_turing_or_newer(identity.device_id) {
            return Err(HermesFault::UnsupportedArchitecture);
        }
        let id = self.next_domain;
        self.next_domain = self.next_domain.wrapping_add(1);
        if id == 0 || id > SIM_MAX_DOMAINS {
            return Err(HermesFault::DeviceIsolation);
        }
        let idx = (id - 1) as usize;
        if self.domains[idx].live {
            return Err(HermesFault::DeviceIsolation);
        }
        self.domains[idx] = DomainRec { live: true, identity };
        Ok(id)
    }

    #[verifier::loop_isolation(false)]
    fn read32_inner(&mut self, window: MmioWindow, offset: u32) -> (r: Result<u32, HermesFault>)
        ensures
            final(self).isolations == old(self).isolations,
            final(self).mmio_ops == old(self).mmio_ops,
            final(self).dma_ops == old(self).dma_ops,
            final(self).refusals == old(self).refusals,
            r == old(self).spec_read32(window, offset),
            final(self).calls() == (SimCalls {
                read32: old(self).calls().read32.wrapping_add(1),
                ..old(self).calls()
            }),
            final(self).same_domains(*old(self)),
            final(self).same_mmio(*old(self)),
            final(self).same_dma(*old(self)),
    {
        proof {
            use_type_invariant(&*self);
        }
        self.read32_calls = self.read32_calls.wrapping_add(1);
        if window.handle == 0 || window.handle > SIM_MAX_MMIO {
            return Err(HermesFault::MmioOutOfRange);
        }
        let idx = (window.handle - 1) as usize;
        let rec = self.mmio[idx];
        if !rec.live {
            return Err(HermesFault::MmioRead);
        }
        if offset as u64 + 4 > rec.length || offset % 4 != 0 {
            return Err(HermesFault::MmioOutOfRange);
        }
        let base: usize = idx * SIM_SPARSE_WORDS;
        let mut j: usize = 0;
        while j < SIM_SPARSE_WORDS
            invariant
                j <= SIM_SPARSE_WORDS,
                base == idx * SIM_SPARSE_WORDS,
                idx < SIM_MAX_MMIO,
                self.sparse@.len() == 2048,
                slot_lookup(self.sparse@, base as int, offset, 0) == slot_lookup(
                    self.sparse@,
                    base as int,
                    offset,
                    j as int,
                ),
            decreases SIM_SPARSE_WORDS - j,
        {
            let w = self.sparse[base + j];
            if w.live && w.offset == offset {
                return Ok(w.value);
            }
            j = j + 1;
        }
        Ok(0)
    }

    fn write32_inner(&mut self, window: MmioWindow, offset: u32, value: u32) -> (r: Result<(), HermesFault>)
        ensures
            final(self).isolations == old(self).isolations,
            final(self).mmio_ops == old(self).mmio_ops,
            final(self).dma_ops == old(self).dma_ops,
            final(self).refusals == old(self).refusals,
            final(self).calls() == (SimCalls {
                write32: old(self).calls().write32.wrapping_add(1),
                ..old(self).calls()
            }),
            old(self).mmio_refusal(window, offset, HermesFault::MmioWrite) is Some ==> r == Err::<
                (),
                HermesFault,
            >(old(self).mmio_refusal(window, offset, HermesFault::MmioWrite)->0),
            r is Err ==> r == Err::<(), HermesFault>(HermesFault::MmioWrite) || old(
                self,
            ).mmio_refusal(window, offset, HermesFault::MmioWrite) is Some,
            old(self).mmio_refusal(window, offset, HermesFault::MmioWrite) is None && !old(
                self,
            ).has_room(window.handle, offset) ==> r == Err::<(), HermesFault>(
                HermesFault::MmioWrite,
            ),
            old(self).mmio_refusal(window, offset, HermesFault::MmioWrite) is None && old(
                self,
            ).has_room(window.handle, offset) && !(old(self).window_auto_acks(window.handle)
                && offset == SIM_MAILBOX0 && value == SIM_HELLO) ==> r is Ok,
            r is Ok && !(old(self).window_auto_acks(window.handle) && offset == SIM_MAILBOX0
                && value == SIM_HELLO) ==> Self::stored_word(
                *old(self),
                *final(self),
                window.handle,
                offset,
                value,
            ),
            r is Ok && old(self).window_auto_acks(window.handle) && offset == SIM_MAILBOX0 && value
                == SIM_HELLO ==> {
                &&& final(self).same_resources(*old(self))
                &&& final(self).mmio_word(window.handle, SIM_MAILBOX0) == SIM_HELLO
                &&& final(self).mmio_word(window.handle, SIM_MAILBOX1) == SIM_ACK
                &&& forall|h: u32, o: u32|
                    !(h == window.handle && (o == SIM_MAILBOX0 || o == SIM_MAILBOX1))
                        ==> #[trigger] final(self).mmio_word(h, o) == old(self).mmio_word(h, o)
            },
            final(self).same_resources(*old(self)),
    {
        proof {
            use_type_invariant(&*self);
        }
        self.write32_calls = self.write32_calls.wrapping_add(1);
        if window.handle == 0 || window.handle > SIM_MAX_MMIO {
            return Err(HermesFault::MmioOutOfRange);
        }
        let idx = (window.handle - 1) as usize;
        let rec = self.mmio[idx];
        if !rec.live {
            return Err(HermesFault::MmioWrite);
        }
        if offset as u64 + 4 > rec.length || offset % 4 != 0 {
            return Err(HermesFault::MmioOutOfRange);
        }
        let base: usize = idx * SIM_SPARSE_WORDS;
        let ghost before = self.sparse@;
        sparse_write(&mut self.sparse, base, offset, value)?;
        proof {
            lemma_other_slots_agree(self.sparse@, before, base as int);
        }
        if rec.auto_mailbox_ack && offset == SIM_MAILBOX0 && value == SIM_HELLO {
            let ghost mid = self.sparse@;
            sparse_write(&mut self.sparse, base, SIM_MAILBOX1, SIM_ACK)?;
            proof {
                lemma_other_slots_agree(self.sparse@, mid, base as int);
            }
        }
        Ok(())
    }

    fn io_fence_inner(&mut self) -> (r: Result<(), HermesFault>)
        ensures
            final(self).isolations == old(self).isolations,
            final(self).mmio_ops == old(self).mmio_ops,
            final(self).dma_ops == old(self).dma_ops,
            final(self).refusals == old(self).refusals,
            r is Ok,
            *final(self) == *old(self),
    {
        Ok(())
    }

    fn dma_write_inner(&mut self, region: DmaRegion, offset: usize, bytes: &[u8]) -> (r: Result<
        (),
        HermesFault,
    >)
        ensures
            final(self).isolations == old(self).isolations,
            final(self).mmio_ops == old(self).mmio_ops,
            final(self).dma_ops == old(self).dma_ops,
            final(self).refusals == old(self).refusals,
            match old(self).dma_refusal(region, offset, bytes@.len() as int) {
                Some(f) => r == Err::<(), HermesFault>(f) && *final(self) == *old(self),
                None => r is Ok && Self::stored_bytes(
                    *old(self),
                    *final(self),
                    region.handle,
                    offset as int,
                    bytes@,
                ),
            },
            final(self).calls() == old(self).calls(),
    {
        proof {
            use_type_invariant(&*self);
        }
        let (idx, end) = self.dma_check(region, offset, bytes.len())?;
        let base: usize = idx * SIM_DMA_CAP;
        let ghost before = self.dma_bytes@;
        copy_into(&mut self.dma_bytes, base + offset, bytes, bytes.len());
        proof {
            lemma_other_regions_unchanged(self.dma_bytes@, before, base as int);
            let after = self.dma_bytes@;
            let len = bytes@.len() as int;
            assert forall|p: int| 0 <= p < SIM_DMA_CAP implies #[trigger] after[base + p] == (if offset
                <= p < offset + len {
                bytes@[p - offset]
            } else {
                before[base + p]
            }) by {
                if offset <= p < offset + len {
                    let q = p - offset;
                    assert(after[(base + offset) + q] == bytes@[q]);
                } else {
                    assert(!((base + offset) <= base + p < (base + offset) + len));
                }
            }
            let old_region = before.subrange(base as int, base + SIM_DMA_CAP);
            let target = old_region.subrange(0, offset as int) + bytes@ + old_region.subrange(
                offset + len,
                SIM_DMA_CAP as int,
            );
            assert(target.len() == SIM_DMA_CAP);
            assert forall|p: int| 0 <= p < SIM_DMA_CAP implies #[trigger] target[p] == (if offset
                <= p < offset + len {
                bytes@[p - offset]
            } else {
                before[base + p]
            }) by {
                if p < offset {
                    assert(target[p] == old_region[p]);
                } else if p < offset + len {
                    assert(target[p] == bytes@[p - offset]);
                } else {
                    assert(target[p] == old_region.subrange(offset + len, SIM_DMA_CAP as int)[p
                        - offset - len]);
                }
            }
            assert forall|p: int| 0 <= p < SIM_DMA_CAP implies #[trigger] after.subrange(
                base as int,
                base + SIM_DMA_CAP,
            )[p] == target[p] by {
                assert(after.subrange(base as int, base + SIM_DMA_CAP)[p] == after[base + p]);
                assert(target[p] == (if offset <= p < offset + len {
                    bytes@[p - offset]
                } else {
                    before[base + p]
                }));
            }
            assert(self.dma_bytes@.subrange(base as int, base + SIM_DMA_CAP) =~= target);
        }
        Ok(())
    }

    fn dma_publish_inner(&mut self, region: DmaRegion, offset: usize, length: usize) -> (r: Result<
        (),
        HermesFault,
    >)
        ensures
            final(self).isolations == old(self).isolations,
            final(self).mmio_ops == old(self).mmio_ops,
            final(self).dma_ops == old(self).dma_ops,
            final(self).refusals == old(self).refusals,
            match old(self).dma_refusal(region, offset, length as int) {
                Some(f) => r == Err::<(), HermesFault>(f),
                None => r is Ok,
            },
            *final(self) == *old(self),
    {
        let _ = self.dma_check(region, offset, length)?;
        Ok(())
    }

}

/// Platforms with the same isolation state agree on every domain, the
/// forced-failure switch and the next domain handle.
pub proof fn same_domains_agree(a: SimPlatform, b: SimPlatform)
    requires
        a.same_domains(b),
    ensures
        a.fails_isolation() == b.fails_isolation(),
        a.next_domain_handle() == b.next_domain_handle(),
        forall|d: u32| #[trigger] a.domain_live(d) == b.domain_live(d),
{
}

/// Platforms with the same MMIO state agree on every window, every word, the
/// auto-ack switch and the next window handle.
pub proof fn same_mmio_agree(a: SimPlatform, b: SimPlatform)
    requires
        a.same_mmio(b),
    ensures
        a.auto_acks() == b.auto_acks(),
        a.next_mmio_handle() == b.next_mmio_handle(),
        forall|h: u32| #[trigger] a.window_live(h) == b.window_live(h),
        forall|h: u32| #[trigger] a.window_length(h) == b.window_length(h),
        forall|h: u32| #[trigger] a.window_auto_acks(h) == b.window_auto_acks(h),
        forall|h: u32, o: u32| #[trigger] a.mmio_word(h, o) == b.mmio_word(h, o),
{
}

/// Platforms with the same DMA state agree on every region, its bytes and the
/// next region handle.
pub proof fn same_dma_agree(a: SimPlatform, b: SimPlatform)
    requires
        a.same_dma(b),
    ensures
        a.next_dma_handle() == b.next_dma_handle(),
        forall|h: u32| #[trigger] a.region_live(h) == b.region_live(h),
        forall|h: u32| #[trigger] a.region_length(h) == b.region_length(h),
        forall|h: u32| #[trigger] a.region_bytes(h) == b.region_bytes(h),
{
}

/// Platforms with the same resources agree on every domain, window and
/// region (though not on MMIO words).
pub proof fn same_resources_agree(a: SimPlatform, b: SimPlatform)
    requires
        a.same_resources(b),
    ensures
        a.fails_isolation() == b.fails_isolation(),
        a.auto_acks() == b.auto_acks(),
        a.next_domain_handle() == b.next_domain_handle(),
        a.next_mmio_handle() == b.next_mmio_handle(),
        a.next_dma_handle() == b.next_dma_handle(),
        forall|d: u32| #[trigger] a.domain_live(d) == b.domain_live(d),
        forall|h: u32| #[trigger] a.window_live(h) == b.window_live(h),
        forall|h: u32| #[trigger] a.window_length(h) == b.window_length(h),
        forall|h: u32| #[trigger] a.window_auto_acks(h) == b.window_auto_acks(h),
        forall|h: u32| #[trigger] a.region_live(h) == b.region_live(h),
        forall|h: u32| #[trigger] a.region_length(h) == b.region_length(h),
        forall|h: u32| #[trigger] a.region_bytes(h) == b.region_bytes(h),
{
}

/// Two platforms that differ at most in their logs answer every question about
/// resources, words and regions alike.
proof fn lemma_logs_only(a: SimPlatform, b: SimPlatform)
    requires
        a.domains@ == b.domains@,
        a.mmio@ == b.mmio@,
        a.sparse@ == b.sparse@,
        a.dma@ == b.dma@,
        a.dma_bytes@ == b.dma_bytes@,
    ensures
        forall|x: HeldResource| #[trigger] a.holds(x) == b.holds(x),
        forall|h: u32, o: u32| #[trigger] a.mmio_word(h, o) == b.mmio_word(h, o),
        forall|h: u32, o: u32| #[trigger] a.has_room(h, o) == b.has_room(h, o),
        forall|h: u32| #[trigger] a.window_live(h) == b.window_live(h),
        forall|h: u32| #[trigger] a.window_length(h) == b.window_length(h),
        forall|h: u32| #[trigger] a.window_auto_acks(h) == b.window_auto_acks(h),
        forall|d: u32| #[trigger] a.domain_live(d) == b.domain_live(d),
        forall|h: u32| #[trigger] a.region_live(h) == b.region_live(h),
        forall|h: u32| #[trigger] a.region_length(h) == b.region_length(h),
        forall|h: u32| #[trigger] a.region_bytes(h) == b.region_bytes(h),
{
}

impl HermesPlatform for SimPlatform {
    closed spec fn isolation_log(&self) -> Seq<HermesPciIdentity> {
        self.isolations@
    }

    closed spec fn mmio_log(&self) -> Seq<MmioOp> {
        self.mmio_ops@
    }

    closed spec fn dma_log(&self) -> Seq<DmaOp> {
        self.dma_ops@
    }

    closed spec fn refusal_log(&self) -> Seq<HermesFault> {
        self.refusals@
    }

    open spec fn holds(&self, x: HeldResource) -> bool {
        match x {
            HeldResource::Domain(d) => self.domain_live(d),
            HeldResource::Window(h) => self.window_live(h),
            HeldResource::Region(h) => self.region_live(h),
        }
    }

    fn isolate_device(&mut self, identity: HermesPciIdentity) -> (r: Result<u32, HermesFault>)
        ensures
            r == old(self).isolation_result(identity),
            final(self).calls() == (SimCalls {
                isolate: old(self).calls().isolate.wrapping_add(1),
                ..old(self).calls()
            }),
            final(self).fails_isolation() == old(self).fails_isolation(),
            final(self).same_mmio(*old(self)),
            final(self).same_dma(*old(self)),
            final(self).next_domain_handle() == if !old(self).fails_isolation()
                && identity.vendor_id == NVIDIA_VENDOR_ID && spec_nvidia_architecture(
                identity.device_id,
            ).is_some() {
                old(self).next_domain_handle().wrapping_add(1)
            } else {
                old(self).next_domain_handle()
            },
            r is Ok ==> final(self).domain_live(r->Ok_0),
            forall|d: u32|
                !(r is Ok && d == r->Ok_0) ==> #[trigger] final(self).domain_live(d) == old(
                    self,
                ).domain_live(d),
    {
        let r = self.isolate_device_inner(identity);
        let ghost mid = *self;
        proof {
            use_type_invariant(&*self);
        }
        self.refusals = Ghost(logged_refusal(self.refusals@, r));
        self.isolations = Ghost(self.isolations@.push(identity));
        proof {
            lemma_logs_only(*self, mid);
        }
        r
    }

    fn release_domain(&mut self, domain: u32)
        ensures
            !final(self).domain_live(domain),
            forall|d: u32| d != domain ==> #[trigger] final(self).domain_live(d) == old(
                self,
            ).domain_live(d),
            final(self).fails_isolation() == old(self).fails_isolation(),
            final(self).next_domain_handle() == old(self).next_domain_handle(),
            final(self).same_mmio(*old(self)),
            final(self).same_dma(*old(self)),
            final(self).calls() == old(self).calls(),
    {
        proof {
            use_type_invariant(&*self);
        }
        if domain != 0 && domain <= SIM_MAX_DOMAINS {
            let idx = (domain - 1) as usize;
            let mut rec = self.domains[idx];
            rec.live = false;
            self.domains[idx] = rec;
        }
    }

    fn map_bar(&mut self, domain: u32, bar: u8, minimum_length: u64) -> (r: Result<
        MmioWindow,
        HermesFault,
    >)
        ensures
            r == old(self).map_result(domain, bar, minimum_length),
            final(self).calls() == (SimCalls {
                map_bar: old(self).calls().map_bar.wrapping_add(1),
                ..old(self).calls()
            }),
            final(self).same_domains(*old(self)),
            final(self).same_dma(*old(self)),
            final(self).auto_acks() == old(self).auto_acks(),
            final(self).next_mmio_handle() == if old(self).domain_live(domain) && bar <= 5 {
                old(self).next_mmio_handle().wrapping_add(1)
            } else {
                old(self).next_mmio_handle()
            },
            r is Ok ==> {
                let h = r->Ok_0.handle;
                &&& final(self).window_live(h)
                &&& final(self).window_length(h) == r->Ok_0.length
                &&& final(self).window_auto_acks(h) == old(self).auto_acks()
                &&& final(self).mmio_word(h, 0) == 1
                &&& forall|o: u32| o != 0 ==> #[trigger] final(self).mmio_word(h, o) == 0
                &&& forall|o: u32| #[trigger] final(self).has_room(h, o)
            },
            forall|h: u32|
                !(r is Ok && h == r->Ok_0.handle) ==> #[trigger] final(self).window_live(h) == old(
                    self,
                ).window_live(h) && final(self).window_length(h) == old(self).window_length(h)
                    && final(self).window_auto_acks(h) == old(self).window_auto_acks(h),
            forall|h: u32, o: u32|
                !(r is Ok && h == r->Ok_0.handle) && 1 <= h <= SIM_MAX_MMIO ==> #[trigger] final(self).mmio_word(h, o)
                    == old(self).mmio_word(h, o),
    {
        proof {
            use_type_invariant(&*self);
        }
        self.map_bar_calls = self.map_bar_calls.wrapping_add(1);
        if domain == 0 || domain > SIM_MAX_DOMAINS {
            {
            self.refusals = Ghost(self.refusals@.push(HermesFault::DeviceIsolation));
            return Err(HermesFault::DeviceIsolation);
        }
        }
        let didx = (domain - 1) as usize;
        if !self.domains[didx].live {
            {
            self.refusals = Ghost(self.refusals@.push(HermesFault::DeviceIsolation));
            return Err(HermesFault::DeviceIsolation);
        }
        }
        if bar > 5 {
            {
            self.refusals = Ghost(self.refusals@.push(HermesFault::BarUnavailable));
            return Err(HermesFault::BarUnavailable);
        }
        }
        let length = if minimum_length > SIM_BAR0_LENGTH {
            minimum_length
        } else {
            SIM_BAR0_LENGTH
        };
        let id = self.next_mmio;
        self.next_mmio = self.next_mmio.wrapping_add(1);
        if id == 0 || id > SIM_MAX_MMIO {
            {
            self.refusals = Ghost(self.refusals@.push(HermesFault::BarUnavailable));
            return Err(HermesFault::BarUnavailable);
        }
        }
        let idx = (id - 1) as usize;
        if self.mmio[idx].live {
            {
            self.refusals = Ghost(self.refusals@.push(HermesFault::BarUnavailable));
            return Err(HermesFault::BarUnavailable);
        }
        }
        let auto = self.auto_mailbox_ack;
        self.mmio[idx] = MmioRec { live: true, domain, bar, length, auto_mailbox_ack: auto };
        let base: usize = idx * SIM_SPARSE_WORDS;
        let ghost before = self.sparse@;
        reset_slot(&mut self.sparse, base);
        proof {
            lemma_other_slots_agree(self.sparse@, before, base as int);
            let after = self.sparse@;
            assert forall|o: u32| o != 0 implies #[trigger] slot_lookup(after, base as int, o, 0)
                == 0 by {
                lemma_lookup_skips_misses(after, base as int, o, 0, SIM_SPARSE_WORDS as int);
            }
            assert(slot_of(id, SIM_MAX_MMIO) == idx);
            assert forall|o: u32| #[trigger] self.has_room(id, o) by {
                let j: int = 1;
                assert(!after[base + j].live);
                assert(words_room(after, base as int, o));
            }
        }
        Ok(MmioWindow { handle: id, bar, length })
    }

    fn unmap_bar(&mut self, window: MmioWindow)
        ensures
            !final(self).window_live(window.handle),
            forall|h: u32| h != window.handle ==> #[trigger] final(self).window_live(h) == old(
                self,
            ).window_live(h),
            forall|h: u32| #[trigger] final(self).window_length(h) == old(self).window_length(h),
            forall|h: u32, o: u32| #[trigger] final(self).mmio_word(h, o) == old(self).mmio_word(h, o),
            final(self).same_domains(*old(self)),
            final(self).same_dma(*old(self)),
            final(self).auto_acks() == old(self).auto_acks(),
            final(self).next_mmio_handle() == old(self).next_mmio_handle(),
            final(self).calls() == old(self).calls(),
    {
        proof {
            use_type_invariant(&*self);
        }
        if window.handle != 0 && window.handle <= SIM_MAX_MMIO {
            let idx = (window.handle - 1) as usize;
            let mut rec = self.mmio[idx];
            rec.live = false;
            self.mmio[idx] = rec;
        }
    }

    fn read32(&mut self, window: MmioWindow, offset: u32) -> (r: Result<u32, HermesFault>)
        ensures
            r == old(self).spec_read32(window, offset),
            final(self).calls() == (SimCalls {
                read32: old(self).calls().read32.wrapping_add(1),
                ..old(self).calls()
            }),
            final(self).same_domains(*old(self)),
            final(self).same_mmio(*old(self)),
            final(self).same_dma(*old(self)),
    {
        let r = self.read32_inner(window, offset);
        let ghost mid = *self;
        proof {
            use_type_invariant(&*self);
        }
        self.refusals = Ghost(logged_refusal(self.refusals@, r));
        self.mmio_ops = Ghost(self.mmio_ops@.push(MmioOp::Read(window.handle, offset, (match r { Ok(v) => Some(v), Err(_) => None }))));
        proof {
            lemma_logs_only(*self, mid);
        }
        r
    }

    fn write32(&mut self, window: MmioWindow, offset: u32, value: u32) -> (r: Result<(), HermesFault>)
        ensures
            final(self).calls() == (SimCalls {
                write32: old(self).calls().write32.wrapping_add(1),
                ..old(self).calls()
            }),
            old(self).mmio_refusal(window, offset, HermesFault::MmioWrite) is Some ==> r == Err::<
                (),
                HermesFault,
            >(old(self).mmio_refusal(window, offset, HermesFault::MmioWrite)->0),
            r is Err ==> r == Err::<(), HermesFault>(HermesFault::MmioWrite) || old(
                self,
            ).mmio_refusal(window, offset, HermesFault::MmioWrite) is Some,
            old(self).mmio_refusal(window, offset, HermesFault::MmioWrite) is None && !old(
                self,
            ).has_room(window.handle, offset) ==> r == Err::<(), HermesFault>(
                HermesFault::MmioWrite,
            ),
            old(self).mmio_refusal(window, offset, HermesFault::MmioWrite) is None && old(
                self,
            ).has_room(window.handle, offset) && !(old(self).window_auto_acks(window.handle)
                && offset == SIM_MAILBOX0 && value == SIM_HELLO) ==> r is Ok,
            r is Ok && !(old(self).window_auto_acks(window.handle) && offset == SIM_MAILBOX0
                && value == SIM_HELLO) ==> Self::stored_word(
                *old(self),
                *final(self),
                window.handle,
                offset,
                value,
            ),
            r is Ok && old(self).window_auto_acks(window.handle) && offset == SIM_MAILBOX0 && value
                == SIM_HELLO ==> {
                &&& final(self).same_resources(*old(self))
                &&& final(self).mmio_word(window.handle, SIM_MAILBOX0) == SIM_HELLO
                &&& final(self).mmio_word(window.handle, SIM_MAILBOX1) == SIM_ACK
                &&& forall|h: u32, o: u32|
                    !(h == window.handle && (o == SIM_MAILBOX0 || o == SIM_MAILBOX1))
                        ==> #[trigger] final(self).mmio_word(h, o) == old(self).mmio_word(h, o)
            },
            final(self).same_resources(*old(self)),
    {
        let r = self.write32_inner(window, offset, value);
        let ghost mid = *self;
        proof {
            use_type_invariant(&*self);
        }
        self.refusals = Ghost(logged_refusal(self.refusals@, r));
        self.mmio_ops = Ghost(self.mmio_ops@.push(MmioOp::Write(window.handle, offset, value, r is Ok)));
        proof {
            lemma_logs_only(*self, mid);
        }
        r
    }

    fn io_fence(&mut self) -> (r: Result<(), HermesFault>)
        ensures
            r is Ok,
            final(self).same_but_logs(*old(self)),
    {
        let r = self.io_fence_inner();
        let ghost mid = *self;
        proof {
            use_type_invariant(&*self);
        }
        self.refusals = Ghost(logged_refusal(self.refusals@, r));
        self.mmio_ops = Ghost(self.mmio_ops@.push(MmioOp::Fence(r is Ok)));
        proof {
            lemma_logs_only(*self, mid);
        }
        r
    }

    fn allocate_dma(&mut self, domain: u32, length: usize, alignment: usize, purpose: DmaPurpose) -> (r:
        Result<DmaRegion, HermesFault>)
        ensures
            r == old(self).dma_result(domain, length, alignment, purpose),
            final(self).calls() == (SimCalls {
                dma_alloc: old(self).calls().dma_alloc.wrapping_add(1),
                ..old(self).calls()
            }),
            final(self).same_domains(*old(self)),
            final(self).same_mmio(*old(self)),
            final(self).next_dma_handle() == if old(self).domain_live(domain) && length != 0 && length
                <= SIM_DMA_CAP && spec_power_of_two(alignment) {
                old(self).next_dma_handle().wrapping_add(1)
            } else {
                old(self).next_dma_handle()
            },
            r is Ok ==> {
                let h = r->Ok_0.handle;
                &&& final(self).region_live(h)
                &&& final(self).region_length(h) == length
                &&& final(self).region_bytes(h) == Seq::new(SIM_DMA_CAP as nat, |i: int| 0u8)
            },
            forall|h: u32|
                !(r is Ok && h == r->Ok_0.handle) ==> #[trigger] final(self).region_live(h) == old(
                    self,
                ).region_live(h) && final(self).region_length(h) == old(self).region_length(h),
            forall|h: u32|
                !(r is Ok && h == r->Ok_0.handle) && 1 <= h <= SIM_MAX_DMA ==> #[trigger] final(self).region_bytes(h)
                    == old(self).region_bytes(h),
    {
        proof {
            use_type_invariant(&*self);
        }
        self.dma_alloc_calls = self.dma_alloc_calls.wrapping_add(1);
        if domain == 0 || domain > SIM_MAX_DOMAINS {
            {
            self.refusals = Ghost(self.refusals@.push(HermesFault::DeviceIsolation));
            return Err(HermesFault::DeviceIsolation);
        }
        }
        let didx = (domain - 1) as usize;
        if !self.domains[didx].live {
            {
            self.refusals = Ghost(self.refusals@.push(HermesFault::DeviceIsolation));
            return Err(HermesFault::DeviceIsolation);
        }
        }
        if length == 0 || length > SIM_DMA_CAP {
            {
            self.refusals = Ghost(self.refusals@.push(HermesFault::DmaAllocation));
            return Err(HermesFault::DmaAllocation);
        }
        }
        if alignment == 0 || alignment & (alignment - 1) != 0 {
            {
            self.refusals = Ghost(self.refusals@.push(HermesFault::DmaAllocation));
            return Err(HermesFault::DmaAllocation);
        }
        }
        let id = self.next_dma;
        self.next_dma = self.next_dma.wrapping_add(1);
        if id == 0 || id > SIM_MAX_DMA {
            {
            self.refusals = Ghost(self.refusals@.push(HermesFault::DmaAllocation));
            return Err(HermesFault::DmaAllocation);
        }
        }
        let idx = (id - 1) as usize;
        if self.dma[idx].live {
            {
            self.refusals = Ghost(self.refusals@.push(HermesFault::DmaAllocation));
            return Err(HermesFault::DmaAllocation);
        }
        }
        let device_address: u64 = 0x8000_0000u64 + (id as u64) * 0x1_0000;
        let rec = DmaRec { live: true, domain, device_address, length, purpose };
        proof {
            let updated = self.dma@.update(idx as int, rec);
            assert forall|i: int| 0 <= i < SIM_MAX_DMA implies #[trigger] updated[i].length
                <= SIM_DMA_CAP by {
                if i != idx {
                    assert(self.dma@[i].length <= SIM_DMA_CAP);
                }
            }
        }
        store_region(&mut self.dma, idx, rec);
        let base: usize = idx * SIM_DMA_CAP;
        let ghost before = self.dma_bytes@;
        zero_region(&mut self.dma_bytes, base);
        proof {
            lemma_other_regions_unchanged(self.dma_bytes@, before, base as int);
            assert forall|i: int| 0 <= i < SIM_DMA_CAP implies #[trigger] self.dma_bytes@.subrange(
                base as int,
                base + SIM_DMA_CAP,
            )[i] == 0u8 by {
                assert(self.dma_bytes@[base + i] == 0);
            }
            assert(self.dma_bytes@.subrange(base as int, base + SIM_DMA_CAP) =~= Seq::new(
                SIM_DMA_CAP as nat,
                |i: int| 0u8,
            ));
        }
        Ok(DmaRegion { handle: id, device_address, length, alignment, purpose })
    }

    fn release_dma(&mut self, region: DmaRegion)
        ensures
            !final(self).region_live(region.handle),
            forall|h: u32| h != region.handle ==> #[trigger] final(self).region_live(h) == old(
                self,
            ).region_live(h),
            forall|h: u32| #[trigger] final(self).region_length(h) == old(self).region_length(h),
            forall|h: u32| #[trigger] final(self).region_bytes(h) == old(self).region_bytes(h),
            final(self).next_dma_handle() == old(self).next_dma_handle(),
            final(self).same_domains(*old(self)),
            final(self).same_mmio(*old(self)),
            final(self).calls() == old(self).calls(),
    {
        proof {
            use_type_invariant(&*self);
        }
        if region.handle != 0 && region.handle <= SIM_MAX_DMA {
            let idx = (region.handle - 1) as usize;
            let mut rec = self.dma[idx];
            assert(rec.length <= SIM_DMA_CAP);
            rec.live = false;
            proof {
                let updated = self.dma@.update(idx as int, rec);
                assert forall|i: int| 0 <= i < SIM_MAX_DMA implies #[trigger] updated[i].length
                    <= SIM_DMA_CAP by {
                    if i != idx {
                        assert(self.dma@[i].length <= SIM_DMA_CAP);
                    }
                }
            }
            store_region(&mut self.dma, idx, rec);
        }
    }

    fn dma_write(&mut self, region: DmaRegion, offset: usize, bytes: &[u8]) -> (r: Result<
        (),
        HermesFault,
    >)
        ensures
            match old(self).dma_refusal(region, offset, bytes@.len() as int) {
                Some(f) => r == Err::<(), HermesFault>(f) && final(self).same_but_logs(*old(self)),
                None => r is Ok && Self::stored_bytes(
                    *old(self),
                    *final(self),
                    region.handle,
                    offset as int,
                    bytes@,
                ),
            },
            final(self).calls() == old(self).calls(),
    {
        let r = self.dma_write_inner(region, offset, bytes);
        let ghost mid = *self;
        proof {
            use_type_invariant(&*self);
        }
        self.refusals = Ghost(logged_refusal(self.refusals@, r));
        self.dma_ops = Ghost(self.dma_ops@.push(DmaOp::Write(region.handle, offset, bytes@, r is Ok)));
        proof {
            lemma_logs_only(*self, mid);
        }
        r
    }

    #[verifier::loop_isolation(false)]
    fn dma_read(&mut self, region: DmaRegion, offset: usize, bytes: &mut [u8]) -> (r: Result<
        (),
        HermesFault,
    >)
        ensures
            match old(self).dma_refusal(region, offset, old(bytes)@.len() as int) {
                Some(f) => r == Err::<(), HermesFault>(f) && final(bytes)@ == old(bytes)@,
                None => r is Ok && final(bytes)@ == old(self).region_bytes(region.handle).subrange(
                    offset as int,
                    offset + old(bytes)@.len(),
                ),
            },
            final(self).same_but_logs(*old(self)),
            final(self).refusal_log() == logged_refusal(old(self).refusal_log(), r),
    {
        proof {
            use_type_invariant(&*self);
        }
        let (idx, end) = match self.dma_check(region, offset, bytes.len()) {
            Ok(v) => v,
            Err(f) => {
                self.refusals = Ghost(self.refusals@.push(f));
                return Err(f);
            },
        };
        let base: usize = idx * SIM_DMA_CAP;
        let n = bytes.len();
        let mut i: usize = 0;
        while i < n
            invariant
                i <= n,
                n == bytes@.len(),
                n == old(bytes)@.len(),
                base == idx * SIM_DMA_CAP,
                idx < SIM_MAX_DMA,
                offset + n <= SIM_DMA_CAP,
                self.dma_bytes@.len() == SIM_MAX_DMA * SIM_DMA_CAP,
                forall|k: int| 0 <= k < i ==> #[trigger] bytes@[k] == self.dma_bytes@[base + offset + k],
            decreases n - i,
        {
            bytes[i] = self.dma_bytes[base + offset + i];
            i = i + 1;
        }
        proof {
            assert(bytes@ =~= self.dma_bytes@.subrange(base as int, base + SIM_DMA_CAP).subrange(
                offset as int,
                offset + n,
            ));
        }
        Ok(())
    }

    fn dma_publish(&mut self, region: DmaRegion, offset: usize, length: usize) -> (r: Result<
        (),
        HermesFault,
    >)
        ensures
            match old(self).dma_refusal(region, offset, length as int) {
                Some(f) => r == Err::<(), HermesFault>(f),
                None => r is Ok,
            },
            final(self).same_but_logs(*old(self)),
    {
        let r = self.dma_publish_inner(region, offset, length);
        let ghost mid = *self;
        proof {
            use_type_invariant(&*self);
        }
        self.refusals = Ghost(logged_refusal(self.refusals@, r));
        self.dma_ops = Ghost(self.dma_ops@.push(DmaOp::Publish(region.handle, offset, length, r is Ok)));
        proof {
            lemma_logs_only(*self, mid);
        }
        r
    }

    fn dma_acquire(&mut self, region: DmaRegion, offset: usize, length: usize) -> (r: Result<
        (),
        HermesFault,
    >)
        ensures
            match old(self).dma_refusal(region, offset, length as int) {
                Some(f) => r == Err::<(), HermesFault>(f),
                None => r is Ok,
            },
            final(self).same_but_logs(*old(self)),
    {
        let r = self.dma_publish_inner(region, offset, length);
        proof {
            use_type_invariant(&*self);
        }
        self.refusals = Ghost(logged_refusal(self.refusals@, r));
        r
    }

    fn now_tick(&mut self) -> (t: u64)
        ensures
            t == old(self).ticks(),
            final(self).ticks() == old(self).ticks().wrapping_add(1),
            final(self).same_domains(*old(self)),
            final(self).same_mmio(*old(self)),
            final(self).same_dma(*old(self)),
            final(self).calls() == old(self).calls(),
    {
        proof {
            use_type_invariant(&*self);
        }
        let t = self.tick;
        self.tick = self.tick.wrapping_add(1);
        t
    }

    fn relax(&mut self)
        ensures
            *final(self) == *old(self),
    {
    }
}

impl SimPlatform {
    /// The structural validity that every platform value has.
    pub closed spec fn consistent(self) -> bool {
        self.inv()
    }
}

/// A word written through a live, in-range window reads back through it.
pub proof fn mmio_read_returns_written_word(
    before: SimPlatform,
    after: SimPlatform,
    window: MmioWindow,
    offset: u32,
    value: u32,
)
    requires
        before.mmio_refusal(window, offset, HermesFault::MmioWrite) is None,
        SimPlatform::stored_word(before, after, window.handle, offset, value),
    ensures
        after.spec_read32(window, offset) == Ok::<u32, HermesFault>(value),
{
}

/// Bytes written into a live DMA region read back from the same offset.
pub proof fn dma_read_returns_written_bytes(
    before: SimPlatform,
    after: SimPlatform,
    region: DmaRegion,
    offset: usize,
    data: Seq<u8>,
)
    requires
        before.consistent(),
        before.dma_refusal(region, offset, data.len() as int) is None,
        SimPlatform::stored_bytes(before, after, region.handle, offset as int, data),
    ensures
        after.dma_refusal(region, offset, data.len() as int) is None,
        after.region_bytes(region.handle).subrange(offset as int, offset + data.len()) == data,
{
    let h = region.handle;
    let i = slot_of(h, SIM_MAX_DMA);
    assert(before.dma@[i].length <= SIM_DMA_CAP);
    let old_bytes = before.region_bytes(h);
    assert(old_bytes.len() == SIM_DMA_CAP);
    assert(after.region_bytes(h).subrange(offset as int, offset + data.len()) =~= data);
}
} // verus!
