//! Host services for the GSP path: device isolation, BAR MMIO and DMA.
//!
//! Hosts implement `HermesPlatform`; the bring-up sequencer never touches
//! hardware except through it. Handles are 32-bit tokens issued by the host.

use vstd::prelude::*;

use crate::fault::HermesFault;
use crate::pci::HermesPciIdentity;

verus! {

/// What a DMA region is used for.
#[derive(Clone, Copy, Debug, PartialEq, Eq, Structural)]
pub enum DmaPurpose {
    Firmware,
    CommandRing,
    EventRing,
}

/// A mapped BAR window.
#[derive(Clone, Copy, Debug, PartialEq, Eq, Structural)]
pub struct MmioWindow {
    pub handle: u32,
    pub bar: u8,
    pub length: u64,
}

/// A DMA region allocated inside an isolation domain.
#[derive(Clone, Copy, Debug, PartialEq, Eq, Structural)]
pub struct DmaRegion {
    pub handle: u32,
    pub device_address: u64,
    pub length: usize,
    pub alignment: usize,
    pub purpose: DmaPurpose,
}

/// A resource a platform hands out and takes back: an isolation domain, a
/// mapped BAR window or a DMA region, each by its handle.
#[derive(Clone, Copy, Debug, PartialEq, Eq, Structural)]
pub enum HeldResource {
    Domain(u32),
    Window(u32),
    Region(u32),
}

/// One MMIO access as the platform saw it: a read of `offset` through window
/// `handle` and the word it returned (none when refused), a write of a word
/// and whether it was taken, or an I/O fence and whether it succeeded.
#[derive(Clone, Copy, Debug, PartialEq, Eq, Structural)]
pub enum MmioOp {
    Read(u32, u32, Option<u32>),
    Write(u32, u32, u32, bool),
    Fence(bool),
}

/// One DMA operation as the platform saw it: bytes written at an offset of
/// region `handle`, or a range published to the device, each with whether it
/// was taken.
pub ghost enum DmaOp {
    Write(u32, usize, Seq<u8>, bool),
    Publish(u32, usize, usize, bool),
}

/// The platform holds exactly what it held before.
pub open spec fn holds_unchanged<P: HermesPlatform>(before: P, after: P) -> bool {
    forall|x: HeldResource| #[trigger] after.holds(x) == before.holds(x)
}

/// The platform holds what it held before, and `extra` besides.
pub open spec fn holds_plus<P: HermesPlatform>(before: P, after: P, extra: HeldResource) -> bool {
    forall|x: HeldResource| #[trigger] after.holds(x) == (before.holds(x) || x == extra)
}

/// The refusal log after a call that answered `r`: a refused call adds its
/// fault, a granted one adds nothing.
pub open spec fn logged_refusal<T>(log: Seq<HermesFault>, r: Result<T, HermesFault>) -> Seq<HermesFault> {
    match r {
        Ok(_) => log,
        Err(e) => log.push(e),
    }
}

/// `after` is the refusal log `before` with more refusals at its end.
pub open spec fn refusals_grew(before: Seq<HermesFault>, after: Seq<HermesFault>) -> bool {
    before.len() <= after.len() && after.subrange(0, before.len() as int) == before
}

/// A refusal log grew from `a` if it is `a` or `a` with one more refusal.
pub proof fn lemma_refusals_step(a: Seq<HermesFault>, b: Seq<HermesFault>)
    requires
        b == a || exists|e: HermesFault| b == a.push(e),
    ensures
        refusals_grew(a, b),
{
    if b != a {
        let e = choose|e: HermesFault| b == a.push(e);
        assert(b.subrange(0, a.len() as int) =~= a);
    } else {
        assert(b.subrange(0, a.len() as int) =~= a);
    }
}

/// Growth of refusal logs composes.
pub broadcast proof fn lemma_refusals_trans(a: Seq<HermesFault>, b: Seq<HermesFault>, c: Seq<HermesFault>)
    requires
        #[trigger] refusals_grew(a, b),
        #[trigger] refusals_grew(b, c),
    ensures
        refusals_grew(a, c),
{
    assert(c.subrange(0, a.len() as int) =~= c.subrange(0, b.len() as int).subrange(0, a.len() as int));
    assert(b.subrange(0, a.len() as int) == a);
}

/// Host services required by the GSP path. No method invents success: a
/// missing IOMMU, MMIO or DMA facility is a fault at the call site.
///
/// Every implementation keeps the account [`HermesPlatform::holds`] of the
/// domains, windows and regions it has handed out and not taken back: a
/// successful isolation, mapping or allocation adds one resource that was not
/// held, its release takes it away, and no other call changes the account.
/// It also keeps logs of what it was handed: the identities it was asked to
/// isolate, every MMIO access with the word read or written, every DMA
/// write and publish with its bytes, and the fault of every call it refused;
/// each call appends exactly its own entries.
pub trait HermesPlatform: Sized {
    /// Whether the platform holds `x` for its caller.
    spec fn holds(&self, x: HeldResource) -> bool;

    /// Every identity the platform was asked to isolate, in order.
    closed spec fn isolation_log(&self) -> Seq<HermesPciIdentity> {
        Seq::empty()
    }

    /// Every MMIO access made through the platform, in order.
    closed spec fn mmio_log(&self) -> Seq<MmioOp> {
        Seq::empty()
    }

    /// Every DMA write and publish made through the platform, in order.
    closed spec fn dma_log(&self) -> Seq<DmaOp> {
        Seq::empty()
    }

    /// The fault of every call the platform refused, in order.
    closed spec fn refusal_log(&self) -> Seq<HermesFault> {
        Seq::empty()
    }

    fn isolate_device(&mut self, identity: HermesPciIdentity) -> (r: Result<u32, HermesFault>)
        ensures
            r is Ok ==> !old(self).holds(HeldResource::Domain(r->Ok_0)) && (forall|x: HeldResource| #[trigger] final(self).holds(x) == (old(self).holds(x) || x == HeldResource::Domain(r->Ok_0))),
            r is Err ==> forall|x: HeldResource| #[trigger] final(self).holds(x) == old(self).holds(x),
            final(self).isolation_log() == old(self).isolation_log().push(identity),
            final(self).mmio_log() == old(self).mmio_log(),
            final(self).dma_log() == old(self).dma_log(),
            final(self).refusal_log() == logged_refusal(old(self).refusal_log(), r),
    ;

    fn release_domain(&mut self, domain: u32)
        ensures
            forall|x: HeldResource| #[trigger] final(self).holds(x) == (old(self).holds(x) && x != HeldResource::Domain(domain)),
            final(self).isolation_log() == old(self).isolation_log(),
            final(self).mmio_log() == old(self).mmio_log(),
            final(self).dma_log() == old(self).dma_log(),
            final(self).refusal_log() == old(self).refusal_log(),
    ;

    fn map_bar(&mut self, domain: u32, bar: u8, minimum_length: u64) -> (r: Result<
        MmioWindow,
        HermesFault,
    >)
        ensures
            r is Ok ==> !old(self).holds(HeldResource::Window(r->Ok_0.handle)) && (forall|x: HeldResource| #[trigger] final(self).holds(x) == (old(self).holds(x) || x == HeldResource::Window(r->Ok_0.handle))),
            r is Err ==> forall|x: HeldResource| #[trigger] final(self).holds(x) == old(self).holds(x),
            final(self).isolation_log() == old(self).isolation_log(),
            final(self).mmio_log() == old(self).mmio_log(),
            final(self).dma_log() == old(self).dma_log(),
            final(self).refusal_log() == logged_refusal(old(self).refusal_log(), r),
    ;

    fn unmap_bar(&mut self, window: MmioWindow)
        ensures
            forall|x: HeldResource| #[trigger] final(self).holds(x) == (old(self).holds(x) && x != HeldResource::Window(window.handle)),
            final(self).isolation_log() == old(self).isolation_log(),
            final(self).mmio_log() == old(self).mmio_log(),
            final(self).dma_log() == old(self).dma_log(),
            final(self).refusal_log() == old(self).refusal_log(),
    ;

    fn read32(&mut self, window: MmioWindow, offset: u32) -> (r: Result<u32, HermesFault>)
        ensures
            forall|x: HeldResource| #[trigger] final(self).holds(x) == old(self).holds(x),
            final(self).isolation_log() == old(self).isolation_log(),
            final(self).mmio_log() == old(self).mmio_log().push(MmioOp::Read(window.handle, offset, (match r { Ok(v) => Some(v), Err(_) => None }))),
            final(self).dma_log() == old(self).dma_log(),
            final(self).refusal_log() == logged_refusal(old(self).refusal_log(), r),
    ;

    fn write32(&mut self, window: MmioWindow, offset: u32, value: u32) -> (r: Result<(), HermesFault>)
        ensures
            forall|x: HeldResource| #[trigger] final(self).holds(x) == old(self).holds(x),
            final(self).isolation_log() == old(self).isolation_log(),
            final(self).mmio_log() == old(self).mmio_log().push(MmioOp::Write(window.handle, offset, value, r is Ok)),
            final(self).dma_log() == old(self).dma_log(),
            final(self).refusal_log() == logged_refusal(old(self).refusal_log(), r),
    ;

    fn io_fence(&mut self) -> (r: Result<(), HermesFault>)
        ensures
            forall|x: HeldResource| #[trigger] final(self).holds(x) == old(self).holds(x),
            final(self).isolation_log() == old(self).isolation_log(),
            final(self).mmio_log() == old(self).mmio_log().push(MmioOp::Fence(r is Ok)),
            final(self).dma_log() == old(self).dma_log(),
            final(self).refusal_log() == logged_refusal(old(self).refusal_log(), r),
    ;

    fn allocate_dma(&mut self, domain: u32, length: usize, alignment: usize, purpose: DmaPurpose) -> (r:
        Result<DmaRegion, HermesFault>)
        ensures
            r is Ok ==> !old(self).holds(HeldResource::Region(r->Ok_0.handle)) && (forall|x: HeldResource| #[trigger] final(self).holds(x) == (old(self).holds(x) || x == HeldResource::Region(r->Ok_0.handle))),
            r is Err ==> forall|x: HeldResource| #[trigger] final(self).holds(x) == old(self).holds(x),
            final(self).isolation_log() == old(self).isolation_log(),
            final(self).mmio_log() == old(self).mmio_log(),
            final(self).dma_log() == old(self).dma_log(),
            final(self).refusal_log() == logged_refusal(old(self).refusal_log(), r),
    ;

    fn release_dma(&mut self, region: DmaRegion)
        ensures
            forall|x: HeldResource| #[trigger] final(self).holds(x) == (old(self).holds(x) && x != HeldResource::Region(region.handle)),
            final(self).isolation_log() == old(self).isolation_log(),
            final(self).mmio_log() == old(self).mmio_log(),
            final(self).dma_log() == old(self).dma_log(),
            final(self).refusal_log() == old(self).refusal_log(),
    ;

    fn dma_write(&mut self, region: DmaRegion, offset: usize, bytes: &[u8]) -> (r: Result<
        (),
        HermesFault,
    >)
        ensures
            forall|x: HeldResource| #[trigger] final(self).holds(x) == old(self).holds(x),
            final(self).isolation_log() == old(self).isolation_log(),
            final(self).mmio_log() == old(self).mmio_log(),
            final(self).dma_log() == old(self).dma_log().push(DmaOp::Write(region.handle, offset, bytes@, r is Ok)),
            final(self).refusal_log() == logged_refusal(old(self).refusal_log(), r),
    ;

    fn dma_read(&mut self, region: DmaRegion, offset: usize, bytes: &mut [u8]) -> (r: Result<
        (),
        HermesFault,
    >)
        ensures
            forall|x: HeldResource| #[trigger] final(self).holds(x) == old(self).holds(x),
            final(self).isolation_log() == old(self).isolation_log(),
            final(self).mmio_log() == old(self).mmio_log(),
            final(self).dma_log() == old(self).dma_log(),
            final(self).refusal_log() == logged_refusal(old(self).refusal_log(), r),
    ;

    fn dma_publish(&mut self, region: DmaRegion, offset: usize, length: usize) -> (r: Result<
        (),
        HermesFault,
    >)
        ensures
            forall|x: HeldResource| #[trigger] final(self).holds(x) == old(self).holds(x),
            final(self).isolation_log() == old(self).isolation_log(),
            final(self).mmio_log() == old(self).mmio_log(),
            final(self).dma_log() == old(self).dma_log().push(DmaOp::Publish(region.handle, offset, length, r is Ok)),
            final(self).refusal_log() == logged_refusal(old(self).refusal_log(), r),
    ;

    fn dma_acquire(&mut self, region: DmaRegion, offset: usize, length: usize) -> (r: Result<
        (),
        HermesFault,
    >)
        ensures
            forall|x: HeldResource| #[trigger] final(self).holds(x) == old(self).holds(x),
            final(self).isolation_log() == old(self).isolation_log(),
            final(self).mmio_log() == old(self).mmio_log(),
            final(self).dma_log() == old(self).dma_log(),
            final(self).refusal_log() == logged_refusal(old(self).refusal_log(), r),
    ;

    fn now_tick(&mut self) -> (t: u64)
        ensures
            forall|x: HeldResource| #[trigger] final(self).holds(x) == old(self).holds(x),
            final(self).isolation_log() == old(self).isolation_log(),
            final(self).mmio_log() == old(self).mmio_log(),
            final(self).dma_log() == old(self).dma_log(),
            final(self).refusal_log() == old(self).refusal_log(),
    ;

    fn relax(&mut self)
        ensures
            forall|x: HeldResource| #[trigger] final(self).holds(x) == old(self).holds(x),
            final(self).isolation_log() == old(self).isolation_log(),
            final(self).mmio_log() == old(self).mmio_log(),
            final(self).dma_log() == old(self).dma_log(),
            final(self).refusal_log() == old(self).refusal_log(),
    ;
}

/// A codec personality for the GSP wire protocol (the open-RM family): it
/// matches devices, describes their transport, hands out boot instructions,
/// and encodes commands and decodes events on that transport. The wire types
/// belong to the ABI that a personality speaks, so each implementation names
/// them; nothing in this crate implements the trait or relies on what its
/// methods return.
pub trait HermesCodec: Sync {
    /// The portable compatibility manifest the personality advertises.
    type Manifest;
    /// What a probe of the device found.
    type ProbeEvidence;
    /// The transport negotiated for a device.
    type TransportProfile;
    /// One step of the boot program.
    type BootInstruction;
    /// A command in the normalized form the stack issues.
    type NormalizedCommand;
    /// An event in the normalized form the stack consumes.
    type NormalizedEvent;

    fn personality_id(&self) -> u64;

    fn compatibility_manifest(&self) -> Self::Manifest;

    fn match_device(
        &self,
        identity: &HermesPciIdentity,
        evidence: &Self::ProbeEvidence,
    ) -> Result<u32, HermesFault>;

    fn describe_transport(
        &self,
        identity: &HermesPciIdentity,
        evidence: &Self::ProbeEvidence,
    ) -> Result<Self::TransportProfile, HermesFault>;

    fn boot_instruction(
        &self,
        identity: &HermesPciIdentity,
        evidence: &Self::ProbeEvidence,
        stage: u32,
        index: u32,
    ) -> Result<Option<Self::BootInstruction>, HermesFault>;

    fn encode_command(
        &self,
        profile: &Self::TransportProfile,
        command: &Self::NormalizedCommand,
        output: &mut [u8],
    ) -> Result<usize, HermesFault>;

    fn decode_event(
        &self,
        profile: &Self::TransportProfile,
        input: &[u8],
    ) -> Result<Self::NormalizedEvent, HermesFault>;

    fn reset(&self, profile: &Self::TransportProfile, new_epoch: u32) -> Result<(), HermesFault>;
}

} // verus!
