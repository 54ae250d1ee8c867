//! Shared GSP bring-up sequencer.
//!
//! Turing+ admission → optional host preflight → measured GSP-RM → platform
//! isolation, BAR and whole-image DMA stage → optional live mailbox and WPR →
//! evidence-gated manifold progression. Online only with every evidence token.

use vstd::prelude::*;

use crate::bootstrap::{spec_check_artifacts, TuringGspBootstrapMaterial, VerifiedTuringGspBootstrap};
use crate::fault::HermesFault;
use crate::firmware::{spec_admit, NvidiaGspFirmwareAuthority, VerifiedFirmware};
use crate::host_gate::{host_preflight_fault, spec_host_preflight_fault, HostDeviceFacts};
use crate::mailbox::{boot_handshake, MailboxEvidence};
use crate::manifold::{HermesManifold, HermesPhase, ManifoldFault, FEATURE_REQUIRED};
use crate::pci::{
    admit_display_device, spec_admit_display, AdmissionError, AdmittedDevice, HermesPciIdentity,
};
use crate::platform::{holds_unchanged, DmaRegion, HeldResource, HermesPlatform, MmioWindow};
use crate::session::default_negotiated_features;
use crate::stage::{
    spec_published, spec_stage_ops, stage_gsp_rm_image, stage_matches_admit, StageError, StageReport,
    STAGE_CHUNK_BYTES,
};
use crate::wpr::{
    TuringFramebufferEvidence, TuringGspDmaInputs, TuringMmuLock, TuringRiscvBootOffsets,
    TuringWprPlan, T1000_GSP_BOOT_BINARY_BYTES,
};

verus! {

/// Hardware evidence that PCI isolation alone does not imply.
#[derive(Clone, Copy, Debug, PartialEq, Eq, Structural)]
pub struct HardwareEvidence {
    pub wpr_locked: bool,
    pub boot_mailbox_ok: bool,
    pub ready_queue_observed: bool,
}

impl HardwareEvidence {
    pub fn none() -> (e: Self)
        ensures
            e == (HardwareEvidence {
                wpr_locked: false,
                boot_mailbox_ok: false,
                ready_queue_observed: false,
            }),
    {
        HardwareEvidence { wpr_locked: false, boot_mailbox_ok: false, ready_queue_observed: false }
    }

    pub fn full() -> (e: Self)
        ensures
            e == (HardwareEvidence {
                wpr_locked: true,
                boot_mailbox_ok: true,
                ready_queue_observed: true,
            }),
    {
        HardwareEvidence { wpr_locked: true, boot_mailbox_ok: true, ready_queue_observed: true }
    }

    /// Token-wise conjunction of two evidence sets.
    pub fn and(self, other: Self) -> (e: Self)
        ensures
            e == (HardwareEvidence {
                wpr_locked: self.wpr_locked && other.wpr_locked,
                boot_mailbox_ok: self.boot_mailbox_ok && other.boot_mailbox_ok,
                ready_queue_observed: self.ready_queue_observed && other.ready_queue_observed,
            }),
    {
        HardwareEvidence {
            wpr_locked: self.wpr_locked && other.wpr_locked,
            boot_mailbox_ok: self.boot_mailbox_ok && other.boot_mailbox_ok,
            ready_queue_observed: self.ready_queue_observed && other.ready_queue_observed,
        }
    }
}

/// Inputs to one bring-up attempt.
pub struct BringupRequest<'a> {
    pub identity: HermesPciIdentity,
    pub generation: u32,
    pub gsp_rm_image: &'a [u8],
    pub firmware_authority: NvidiaGspFirmwareAuthority,
    pub bootstrap: Option<TuringGspBootstrapMaterial<'a>>,
    pub require_bootstrap: bool,
    pub features: u64,
    pub hardware: HardwareEvidence,
    pub drive_mailbox: bool,
    pub drive_wpr: bool,
    pub wpr_framebuffer: Option<TuringFramebufferEvidence>,
    pub wpr_boot_offsets: Option<TuringRiscvBootOffsets>,
    pub gsp_boot_binary_address: Option<u64>,
    /// Host IOMMU, driver and BAR facts; preflighted before progression when set.
    pub host_facts: Option<HostDeviceFacts>,
    /// Keep domain, BAR and DMA live for the caller when Online.
    pub retain_on_online: bool,
}

impl<'a> BringupRequest<'a> {
    /// A request with generation 1, the default features, no hardware evidence
    /// and nothing driven, preflighted or retained.
    pub fn with_defaults(
        identity: HermesPciIdentity,
        gsp_rm_image: &'a [u8],
        authority: NvidiaGspFirmwareAuthority,
    ) -> (r: Self)
        ensures
            r.identity == identity,
            r.generation == 1,
            r.gsp_rm_image@ == gsp_rm_image@,
            r.firmware_authority.allow() == authority.allow(),
            r.bootstrap is None,
            !r.require_bootstrap,
            r.features == 0x3ff,
            r.hardware == (HardwareEvidence {
                wpr_locked: false,
                boot_mailbox_ok: false,
                ready_queue_observed: false,
            }),
            !r.drive_mailbox,
            !r.drive_wpr,
            r.wpr_framebuffer is None,
            r.wpr_boot_offsets is None,
            r.gsp_boot_binary_address is None,
            r.host_facts is None,
            !r.retain_on_online,
    {
        BringupRequest {
            identity,
            generation: 1,
            gsp_rm_image,
            firmware_authority: authority,
            bootstrap: None,
            require_bootstrap: false,
            features: default_negotiated_features(),
            hardware: HardwareEvidence::none(),
            drive_mailbox: false,
            drive_wpr: false,
            wpr_framebuffer: None,
            wpr_boot_offsets: None,
            gsp_boot_binary_address: None,
            host_facts: None,
            retain_on_online: false,
        }
    }
}

#[derive(Clone, Copy, Debug, PartialEq, Eq, Structural)]
pub enum BringupFault {
    Admission(AdmissionError),
    Hermes(HermesFault),
    Manifold(ManifoldFault),
    BootstrapRequired,
    StageDigestMismatch,
    MailboxFailed,
    WprFailed,
    WprInputsMissing,
    HostPreflight,
}

impl From<AdmissionError> for BringupFault {
    fn from(value: AdmissionError) -> (f: Self)
        ensures
            f == BringupFault::Admission(value),
    {
        BringupFault::Admission(value)
    }
}

impl vstd::std_specs::convert::FromSpecImpl<AdmissionError> for BringupFault {
    open spec fn obeys_from_spec() -> bool {
        true
    }

    open spec fn from_spec(v: AdmissionError) -> Self {
        BringupFault::Admission(v)
    }
}

impl From<HermesFault> for BringupFault {
    fn from(value: HermesFault) -> (f: Self)
        ensures
            f == BringupFault::Hermes(value),
    {
        BringupFault::Hermes(value)
    }
}

impl vstd::std_specs::convert::FromSpecImpl<HermesFault> for BringupFault {
    open spec fn obeys_from_spec() -> bool {
        true
    }

    open spec fn from_spec(v: HermesFault) -> Self {
        BringupFault::Hermes(v)
    }
}

impl From<ManifoldFault> for BringupFault {
    fn from(value: ManifoldFault) -> (f: Self)
        ensures
            f == BringupFault::Manifold(value),
    {
        BringupFault::Manifold(value)
    }
}

impl vstd::std_specs::convert::FromSpecImpl<ManifoldFault> for BringupFault {
    open spec fn obeys_from_spec() -> bool {
        true
    }

    open spec fn from_spec(v: ManifoldFault) -> Self {
        BringupFault::Manifold(v)
    }
}

/// Result of the shared sequencer. Online only if the manifold is Online and no
/// fault was recorded.
#[derive(Clone, Copy, Debug)]
pub struct BringupReport {
    pub admitted: Option<AdmittedDevice>,
    pub firmware: Option<VerifiedFirmware>,
    pub bootstrap: Option<VerifiedTuringGspBootstrap>,
    pub manifold: HermesManifold,
    pub fault: Option<BringupFault>,
    pub domain_id: u32,
    pub stage: Option<StageReport>,
    pub mailbox: Option<MailboxEvidence>,
    pub wpr_locked_observed: bool,
    pub final_evidence: HardwareEvidence,
    pub resources_retained: bool,
}

impl BringupReport {
    pub open spec fn spec_is_online(self) -> bool {
        self.manifold.spec_is_online() && self.fault is None
    }

    pub fn is_online(&self) -> (b: bool)
        ensures
            b == self.spec_is_online(),
    {
        self.manifold.is_online() && self.fault.is_none()
    }

    pub fn phase(&self) -> (p: HermesPhase)
        ensures
            p == self.manifold.phase,
    {
        self.manifold.phase
    }
}

/// Platform resources retained after an Online bring-up.
#[derive(Clone, Copy, Debug)]
pub struct RetainedResources {
    pub domain: u32,
    pub bar: MmioWindow,
    pub dma: DmaRegion,
}

/// Outcome of bring-up that may hand back live DMA and BAR to the session path.
pub struct BringupOutcome {
    pub report: BringupReport,
    pub retained: Option<RetainedResources>,
}

/// The platform holds what it held before, and the resources of `extra`
/// besides, none of which it held before.
pub open spec fn holds_with<P: HermesPlatform>(before: P, after: P, extra: Set<HeldResource>) -> bool {
    &&& forall|x: HeldResource| #[trigger] after.holds(x) == (before.holds(x) || extra.contains(x))
    &&& forall|x: HeldResource| extra.contains(x) ==> !#[trigger] before.holds(x)
}

/// The domain, window and region of one bring-up.
pub open spec fn spec_resources(domain: u32, bar: MmioWindow, dma: DmaRegion) -> Set<HeldResource> {
    set![
        HeldResource::Domain(domain),
        HeldResource::Window(bar.handle),
        HeldResource::Region(dma.handle),
    ]
}

fn release_all<P: HermesPlatform>(platform: &mut P, domain: u32, bar: MmioWindow, dma: DmaRegion)
    ensures
        forall|x: HeldResource| #[trigger] final(platform).holds(x) == (old(platform).holds(x)
            && !spec_resources(domain, bar, dma).contains(x)),
        final(platform).isolation_log() == old(platform).isolation_log(),
        final(platform).mmio_log() == old(platform).mmio_log(),
        final(platform).dma_log() == old(platform).dma_log(),
        final(platform).refusal_log() == old(platform).refusal_log(),
{
    platform.release_dma(dma);
    platform.unmap_bar(bar);
    platform.release_domain(domain);
}

impl BringupOutcome {
    /// Releases any retained resources and returns the report, marked as holding none.
    pub fn release<P: HermesPlatform>(self, platform: &mut P) -> (r: BringupReport)
        ensures
            r == (BringupReport { resources_retained: false, ..self.report }),
            self.retained is None ==> *final(platform) == *old(platform),
            self.retained matches Some(res) ==> forall|x: HeldResource| #[trigger] final(platform).holds(x)
                == (old(platform).holds(x) && !spec_resources(res.domain, res.bar, res.dma).contains(x)),
            final(platform).isolation_log() == old(platform).isolation_log(),
            final(platform).mmio_log() == old(platform).mmio_log(),
            final(platform).dma_log() == old(platform).dma_log(),
            final(platform).refusal_log() == old(platform).refusal_log(),
    {
        if let Some(res) = self.retained {
            release_all(platform, res.domain, res.bar, res.dma);
        }
        let mut report = self.report;
        report.resources_retained = false;
        report
    }
}

fn fail(report: BringupReport) -> (o: BringupOutcome)
    ensures
        o.report == report,
        o.retained is None,
{
    BringupOutcome { report, retained: None }
}

/// The nonzero token of an isolation domain.
pub open spec fn spec_domain_token(domain: u32) -> u32 {
    if domain == 0 {
        1
    } else {
        domain
    }
}

fn domain_token(domain: u32) -> (t: u32)
    ensures
        t == spec_domain_token(domain),
{
    if domain == 0 {
        1
    } else {
        domain
    }
}

/// The host preflight, when facts were supplied, found no fault.
pub open spec fn preflight_passes(request: BringupRequest) -> bool {
    match request.host_facts {
        Some(f) => spec_host_preflight_fault(f) is None,
        None => true,
    }
}

/// Every check that does not touch the platform passes.
pub open spec fn gates_pass(request: BringupRequest) -> bool {
    &&& preflight_passes(request)
    &&& spec_admit_display(request.identity) is Ok
    &&& spec_admit(request.firmware_authority.allow(), request.identity.device_id, request.gsp_rm_image@)
        is Ok
    &&& !(request.require_bootstrap && request.bootstrap is None)
    &&& match request.bootstrap {
        Some(m) => spec_check_artifacts(m.artifacts(), 0) is Ok,
        None => true,
    }
}

/// A fresh report: dark manifold, nothing observed.
pub open spec fn spec_fresh_report(generation: u32) -> BringupReport {
    BringupReport {
        admitted: None,
        firmware: None,
        bootstrap: None,
        manifold: HermesManifold {
            generation,
            phase: HermesPhase::Offline,
            evidence: crate::manifold::no_evidence(),
        },
        fault: None,
        domain_id: 0,
        stage: None,
        mailbox: None,
        wpr_locked_observed: false,
        final_evidence: HardwareEvidence {
            wpr_locked: false,
            boot_mailbox_ok: false,
            ready_queue_observed: false,
        },
        resources_retained: false,
    }
}

/// Preflight, admission, firmware measurement and bootstrap verification: the
/// gates that run before any platform call.
fn run_gates(request: &BringupRequest, report: &mut BringupReport) -> (ok: bool)
    requires
        *old(report) == spec_fresh_report(request.generation),
    ensures
        ok == gates_pass(*request),
        final(report).manifold.wf(),
        final(report).manifold.generation == request.generation,
        final(report).domain_id == 0,
        final(report).stage is None,
        final(report).mailbox is None,
        !final(report).wpr_locked_observed,
        !final(report).resources_retained,
        request.host_facts matches Some(f) ==> spec_host_preflight_fault(f) matches Some(x) ==> {
            &&& final(report).fault == Some(BringupFault::Hermes(x))
            &&& final(report).manifold.phase == HermesPhase::Offline
        },
        preflight_passes(*request) ==> match spec_admit_display(request.identity) {
            Ok(a) => final(report).admitted == Some(a),
            Err(e) => final(report).fault == Some(BringupFault::Admission(e))
                && final(report).manifold.phase == HermesPhase::Offline,
        },
        preflight_passes(*request) && spec_admit_display(request.identity) is Ok ==> match spec_admit(
            request.firmware_authority.allow(),
            request.identity.device_id,
            request.gsp_rm_image@,
        ) {
            Ok(fw) => final(report).firmware == Some(fw) && final(report).manifold.phase
                == HermesPhase::Firmwared,
            Err(e) => final(report).fault == Some(BringupFault::Hermes(e))
                && final(report).manifold.phase == HermesPhase::Probed,
        },
        preflight_passes(*request) && spec_admit_display(request.identity) is Ok && spec_admit(
            request.firmware_authority.allow(),
            request.identity.device_id,
            request.gsp_rm_image@,
        ) is Ok ==> {
            &&& request.require_bootstrap && request.bootstrap is None ==> final(report).fault
                == Some(BringupFault::BootstrapRequired)
            &&& request.bootstrap matches Some(m) ==> spec_check_artifacts(m.artifacts(), 0) matches Err(
                e,
            ) ==> final(report).fault == Some(BringupFault::Hermes(e))
        },
        ok ==> final(report).fault is None && final(report).manifold.phase == HermesPhase::Firmwared,
        !ok ==> final(report).fault is Some,
        !preflight_passes(*request) || spec_admit_display(request.identity) is Err ==> final(report).admitted is None
            && final(report).firmware is None,
{
    if let Some(facts) = request.host_facts {
        if let Some(fault) = host_preflight_fault(&facts) {
            report.fault = Some(BringupFault::Hermes(fault));
            return false;
        }
    }
    let admitted = match admit_display_device(&request.identity) {
        Ok(a) => a,
        Err(e) => {
            report.fault = Some(BringupFault::Admission(e));
            return false;
        },
    };
    report.admitted = Some(admitted);
    if let Err(e) = report.manifold.observe_probe(true) {
        report.fault = Some(BringupFault::Manifold(e));
        return false;
    }
    let firmware = match request.firmware_authority.admit_image(
        request.identity.device_id,
        request.gsp_rm_image,
    ) {
        Ok(fw) => fw,
        Err(e) => {
            report.fault = Some(BringupFault::Hermes(e));
            return false;
        },
    };
    report.firmware = Some(firmware);
    if let Err(e) = report.manifold.observe_firmware(true) {
        report.fault = Some(BringupFault::Manifold(e));
        return false;
    }
    if request.require_bootstrap && request.bootstrap.is_none() {
        report.fault = Some(BringupFault::BootstrapRequired);
        return false;
    }
    if let Some(material) = request.bootstrap {
        match material.verify_t1000_610_43_03() {
            Ok(v) => report.bootstrap = Some(v),
            Err(e) => {
                report.fault = Some(BringupFault::Hermes(e));
                return false;
            },
        }
    }
    true
}

/// Everything the Online verdict of a bring-up rests on.
pub open spec fn online_justified(request: BringupRequest, report: BringupReport) -> bool {
    &&& gates_pass(request)
    &&& report.admitted == Some(spec_admit_display(request.identity)->Ok_0)
    &&& report.firmware == Some(
        spec_admit(
            request.firmware_authority.allow(),
            request.identity.device_id,
            request.gsp_rm_image@,
        )->Ok_0,
    )
    &&& report.manifold.spec_is_online()
    &&& report.manifold.generation == request.generation
    &&& report.domain_id != 0
    &&& report.manifold.evidence.dma_domain == report.domain_id
    &&& report.manifold.evidence.features == request.features
    &&& report.stage matches Some(s) && s.bytes_staged == request.gsp_rm_image@.len()
        && s.staged_sha256@ == report.firmware->0.sha256@
    &&& request.hardware.wpr_locked
    &&& request.hardware.boot_mailbox_ok
    &&& request.hardware.ready_queue_observed
    &&& report.final_evidence == request.hardware
    &&& request.drive_mailbox ==> (report.mailbox matches Some(ev) && ev.mailbox_ok && ev.ready_ok)
    &&& request.drive_wpr ==> report.wpr_locked_observed
}

/// A request on which only the platform can keep the bring-up from Online:
/// every gate passes, the hardware evidence is full, nothing is driven live
/// and the features include the required ones.
pub open spec fn online_owed(request: BringupRequest) -> bool {
    &&& gates_pass(request)
    &&& request.hardware == (HardwareEvidence {
        wpr_locked: true,
        boot_mailbox_ok: true,
        ready_queue_observed: true,
    })
    &&& !request.drive_mailbox
    &&& !request.drive_wpr
    &&& request.features & FEATURE_REQUIRED == FEATURE_REQUIRED
}

/// The platform refused a call between `before` and `after`: its log of
/// refusals grew.
pub open spec fn platform_refused<P: HermesPlatform>(before: P, after: P) -> bool {
    after.refusal_log().len() > before.refusal_log().len()
}

/// Extended bring-up: may retain domain, BAR and DMA when Online and asked to.
#[verifier::rlimit(60)]
pub fn run_bringup_ex<P: HermesPlatform>(platform: &mut P, request: &BringupRequest) -> (out:
    BringupOutcome)
    ensures
        out.report.manifold.wf(),
        out.report.manifold.generation == request.generation,
        request.host_facts matches Some(f) ==> spec_host_preflight_fault(f) matches Some(x) ==> {
            &&& out.report.fault == Some(BringupFault::Hermes(x))
            &&& out.report.manifold.phase == HermesPhase::Offline
        },
        preflight_passes(*request) ==> match spec_admit_display(request.identity) {
            Ok(a) => out.report.admitted == Some(a),
            Err(e) => out.report.fault == Some(BringupFault::Admission(e))
                && out.report.manifold.phase == HermesPhase::Offline,
        },
        preflight_passes(*request) && spec_admit_display(request.identity) is Ok ==> match spec_admit(
            request.firmware_authority.allow(),
            request.identity.device_id,
            request.gsp_rm_image@,
        ) {
            Ok(fw) => out.report.firmware == Some(fw),
            Err(e) => out.report.fault == Some(BringupFault::Hermes(e))
                && out.report.manifold.phase == HermesPhase::Probed,
        },
        preflight_passes(*request) && spec_admit_display(request.identity) is Ok && spec_admit(
            request.firmware_authority.allow(),
            request.identity.device_id,
            request.gsp_rm_image@,
        ) is Ok ==> {
            &&& request.require_bootstrap && request.bootstrap is None ==> out.report.fault
                == Some(BringupFault::BootstrapRequired)
            &&& request.bootstrap matches Some(m) ==> spec_check_artifacts(m.artifacts(), 0) matches Err(
                e,
            ) ==> out.report.fault == Some(BringupFault::Hermes(e))
        },
        out.report.spec_is_online() ==> online_justified(*request, out.report),
        out.retained is Some <==> (out.report.spec_is_online() && request.retain_on_online),
        out.report.resources_retained == out.retained is Some,
        out.retained matches Some(res) ==> res.dma.device_address == out.report.stage->0.last_device_address
            && spec_domain_token(res.domain) == out.report.domain_id,
        !preflight_passes(*request) || spec_admit_display(request.identity) is Err ==> out.report.admitted is None
            && out.report.firmware is None,
        !gates_pass(*request) ==> *final(platform) == *old(platform),
        gates_pass(*request) ==> final(platform).isolation_log() == old(platform).isolation_log().push(
            request.identity,
        ),
        out.report.stage is Some ==> exists|h: u32|
            #![trigger spec_stage_ops(h, request.gsp_rm_image@, STAGE_CHUNK_BYTES as int, 0)]
            final(platform).dma_log() == old(platform).dma_log() + spec_stage_ops(
                h,
                request.gsp_rm_image@,
                STAGE_CHUNK_BYTES as int,
                0,
            ) && spec_published(spec_stage_ops(h, request.gsp_rm_image@, STAGE_CHUNK_BYTES as int, 0))
                == request.gsp_rm_image@,
        online_owed(*request) ==> out.report.spec_is_online() || platform_refused(
            *old(platform),
            *final(platform),
        ),
        gates_pass(*request) && !request.drive_wpr ==> (out.report.fault matches Some(
            BringupFault::Hermes(e),
        ) ==> final(platform).refusal_log() == old(platform).refusal_log().push(e)),
        out.retained is None ==> holds_unchanged(*old(platform), *final(platform)),
        out.retained matches Some(res) ==> holds_with(
            *old(platform),
            *final(platform),
            spec_resources(res.domain, res.bar, res.dma),
        ),
{
    let ghost p0 = *platform;
    let mut report = BringupReport {
        admitted: None,
        firmware: None,
        bootstrap: None,
        manifold: HermesManifold::dark(request.generation),
        fault: None,
        domain_id: 0,
        stage: None,
        mailbox: None,
        wpr_locked_observed: false,
        final_evidence: HardwareEvidence::none(),
        resources_retained: false,
    };
    if !run_gates(request, &mut report) {
        return fail(report);
    }
    let admitted_digest = match report.firmware {
        Some(fw) => fw.sha256,
        None => {
            return fail(report);
        },
    };
    let domain = match platform.isolate_device(request.identity) {
        Ok(d) => d,
        Err(e) => {
            report.fault = Some(BringupFault::Hermes(e));
            return fail(report);
        },
    };
    let domain_id = domain_token(domain);
    report.domain_id = domain_id;
    let bar = match platform.map_bar(domain, 0, 0x20_0000) {
        Ok(w) => w,
        Err(e) => {
            platform.release_domain(domain);
            report.fault = Some(BringupFault::Hermes(e));
            return fail(report);
        },
    };
    if let Err(e) = platform.read32(bar, 0) {
        platform.unmap_bar(bar);
        platform.release_domain(domain);
        report.fault = Some(BringupFault::Hermes(e));
        return fail(report);
    }
    let (stage_rep, dma) = match stage_gsp_rm_image(
        platform,
        domain,
        request.gsp_rm_image,
        STAGE_CHUNK_BYTES,
    ) {
        Ok(v) => v,
        Err(StageError::EmptyImage) => {
            platform.unmap_bar(bar);
            platform.release_domain(domain);
            report.fault = Some(BringupFault::Hermes(HermesFault::FirmwareMissing));
            return fail(report);
        },
        Err(StageError::Platform(e)) => {
            platform.unmap_bar(bar);
            platform.release_domain(domain);
            report.fault = Some(BringupFault::Hermes(e));
            return fail(report);
        },
        Err(StageError::DigestMismatch) => {
            platform.unmap_bar(bar);
            platform.release_domain(domain);
            report.fault = Some(BringupFault::StageDigestMismatch);
            return fail(report);
        },
    };
    report.stage = Some(stage_rep);
    let ghost dh = dma.handle;
    proof {
        assert(spec_published(spec_stage_ops(dh, request.gsp_rm_image@, STAGE_CHUNK_BYTES as int, 0))
            == request.gsp_rm_image@);
    }
    proof {
        crate::firmware::lemma_admitted_digest(
            request.firmware_authority.allow(),
            request.identity.device_id,
            request.gsp_rm_image@,
        );
    }
    if !stage_matches_admit(&stage_rep.staged_sha256, &admitted_digest) {
        release_all(platform, domain, bar, dma);
        report.fault = Some(BringupFault::StageDigestMismatch);
        return fail(report);
    }
    let mut evidence = request.hardware;
    if request.drive_mailbox {
        match boot_handshake(platform, bar, 64) {
            Ok(ev) => {
                report.mailbox = Some(ev);
                evidence = evidence.and(
                    HardwareEvidence {
                        wpr_locked: true,
                        boot_mailbox_ok: ev.mailbox_ok,
                        ready_queue_observed: ev.ready_ok,
                    },
                );
                if !ev.mailbox_ok || !ev.ready_ok {
                    evidence.boot_mailbox_ok = false;
                    evidence.ready_queue_observed = false;
                }
            },
            Err(_) => {
                evidence.boot_mailbox_ok = false;
                evidence.ready_queue_observed = false;
                report.fault = Some(BringupFault::MailboxFailed);
                release_all(platform, domain, bar, dma);
                report.final_evidence = evidence;
                return fail(report);
            },
        }
    }
    if request.drive_wpr {
        let fb = match request.wpr_framebuffer {
            Some(f) => f,
            None => {
                report.fault = Some(BringupFault::WprInputsMissing);
                release_all(platform, domain, bar, dma);
                report.final_evidence = evidence;
                return fail(report);
            },
        };
        let boot_off = match request.wpr_boot_offsets {
            Some(b) => b,
            None => {
                report.fault = Some(BringupFault::WprInputsMissing);
                release_all(platform, domain, bar, dma);
                report.final_evidence = evidence;
                return fail(report);
            },
        };
        let boot_bin = match request.gsp_boot_binary_address {
            Some(a) => a,
            None => 0x1_0200_0000,
        };
        let meta_addr = boot_bin.wrapping_add(T1000_GSP_BOOT_BINARY_BYTES).wrapping_add(4095)
            & !4095u64;
        let gsp_rm_iova = if stage_rep.last_device_address != 0 && stage_rep.last_device_address
            % 4096 == 0 {
            stage_rep.last_device_address
        } else {
            0x1_0000_0000
        };
        let dma_in = TuringGspDmaInputs {
            gsp_rm_address: gsp_rm_iova,
            gsp_rm_bytes: stage_rep.bytes_staged,
            gsp_boot_binary_address: boot_bin,
            metadata_address: meta_addr,
        };
        let plan = match TuringWprPlan::build(fb, dma_in, boot_off) {
            Ok(p) => p,
            Err(e) => {
                report.fault = Some(BringupFault::Hermes(e));
                release_all(platform, domain, bar, dma);
                report.final_evidence = evidence;
                return fail(report);
            },
        };
        let load = match plan.booter_load(meta_addr) {
            Ok(l) => l,
            Err(e) => {
                report.fault = Some(BringupFault::Hermes(e));
                release_all(platform, domain, bar, dma);
                report.final_evidence = evidence;
                return fail(report);
            },
        };
        let (lo, hi) = load.mailbox_words();
        if platform.write32(bar, 0x0011_0040, lo).is_err() || platform.write32(
            bar,
            0x0011_0044,
            hi,
        ).is_err() {
            evidence.wpr_locked = false;
            report.fault = Some(BringupFault::WprFailed);
            release_all(platform, domain, bar, dma);
            report.final_evidence = evidence;
            return fail(report);
        }
        let _ = platform.io_fence();
        let mb0 = match platform.read32(bar, 0x0011_0040) {
            Ok(v) => v,
            Err(_) => 0xffff_ffff,
        };
        match load.complete(mb0, request.hardware.wpr_locked) {
            Ok(()) => {
                report.wpr_locked_observed = true;
                evidence = evidence.and(HardwareEvidence::full());
            },
            Err(_) => {
                evidence.wpr_locked = false;
                report.wpr_locked_observed = false;
            },
        }
    }
    report.final_evidence = evidence;
    if let Err(e) = report.manifold.arm_queues(true, domain_id) {
        release_all(platform, domain, bar, dma);
        report.fault = Some(BringupFault::Manifold(e));
        return fail(report);
    }
    if let Err(e) = report.manifold.negotiate(request.features) {
        release_all(platform, domain, bar, dma);
        report.fault = Some(BringupFault::Manifold(e));
        return fail(report);
    }
    if let Err(e) = report.manifold.ignite(
        evidence.wpr_locked,
        evidence.boot_mailbox_ok,
        evidence.ready_queue_observed,
    ) {
        report.fault = Some(BringupFault::Manifold(e));
        release_all(platform, domain, bar, dma);
        return fail(report);
    }
    if request.retain_on_online {
        report.resources_retained = true;
        BringupOutcome { report, retained: Some(RetainedResources { domain, bar, dma }) }
    } else {
        release_all(platform, domain, bar, dma);
        fail(report)
    }
}

/// Bring-up that always releases domain, BAR and DMA before returning.
pub fn run_bringup<P: HermesPlatform>(platform: &mut P, request: &BringupRequest) -> (r:
    BringupReport)
    ensures
        !r.resources_retained,
        holds_unchanged(*old(platform), *final(platform)),
        !gates_pass(*request) ==> *final(platform) == *old(platform),
        online_owed(*request) ==> r.spec_is_online() || platform_refused(
            *old(platform),
            *final(platform),
        ),
        gates_pass(*request) && !request.drive_wpr ==> (r.fault matches Some(BringupFault::Hermes(e))
            ==> final(platform).refusal_log() == old(platform).refusal_log().push(e)),
        gates_pass(*request) ==> final(platform).isolation_log() == old(platform).isolation_log().push(
            request.identity,
        ),
        r.stage is Some ==> exists|h: u32|
            #![trigger spec_stage_ops(h, request.gsp_rm_image@, STAGE_CHUNK_BYTES as int, 0)]
            final(platform).dma_log() == old(platform).dma_log() + spec_stage_ops(
                h,
                request.gsp_rm_image@,
                STAGE_CHUNK_BYTES as int,
                0,
            ) && spec_published(spec_stage_ops(h, request.gsp_rm_image@, STAGE_CHUNK_BYTES as int, 0))
                == request.gsp_rm_image@,
        !preflight_passes(*request) || spec_admit_display(request.identity) is Err ==> r.admitted is None
            && r.firmware is None,
        r.spec_is_online() ==> online_justified(*request, r),
        r.manifold.wf(),
        r.manifold.generation == request.generation,
        request.host_facts matches Some(f) ==> spec_host_preflight_fault(f) matches Some(x) ==> r.fault
            == Some(BringupFault::Hermes(x)) && r.manifold.phase == HermesPhase::Offline,
        preflight_passes(*request) ==> match spec_admit_display(request.identity) {
            Ok(a) => r.admitted == Some(a),
            Err(e) => r.fault == Some(BringupFault::Admission(e)) && r.manifold.phase
                == HermesPhase::Offline,
        },
        preflight_passes(*request) && spec_admit_display(request.identity) is Ok ==> match spec_admit(
            request.firmware_authority.allow(),
            request.identity.device_id,
            request.gsp_rm_image@,
        ) {
            Ok(fw) => r.firmware == Some(fw),
            Err(e) => r.fault == Some(BringupFault::Hermes(e)) && r.manifold.phase
                == HermesPhase::Probed,
        },
        preflight_passes(*request) && spec_admit_display(request.identity) is Ok && spec_admit(
            request.firmware_authority.allow(),
            request.identity.device_id,
            request.gsp_rm_image@,
        ) is Ok ==> {
            &&& request.require_bootstrap && request.bootstrap is None ==> r.fault
                == Some(BringupFault::BootstrapRequired)
            &&& request.bootstrap matches Some(m) ==> spec_check_artifacts(m.artifacts(), 0) matches Err(
                e,
            ) ==> r.fault == Some(BringupFault::Hermes(e))
        },
{
    let outcome = run_bringup_ex(platform, request);
    outcome.release(platform)
}

/// A framebuffer sample that `TuringWprPlan::build` accepts: 4 GiB usable, the
/// VGA workspace in the top 2 MiB, no MMU lock, 64 MiB WPR heap, 8 MiB non-WPR heap.
pub fn sample_turing_wpr_framebuffer() -> (fb: TuringFramebufferEvidence)
    ensures
        fb == (TuringFramebufferEvidence {
            usable_bytes: 0x1_0000_0000,
            vga_workspace_offset: 0xffe0_0000,
            vga_workspace_bytes: 0x20_0000,
            mmu_lock: TuringMmuLock::NotPresent,
            wpr_end_margin: 0,
            wpr_heap_bytes: 0x400_0000,
            non_wpr_heap_bytes: 0x80_0000,
        }),
{
    TuringFramebufferEvidence {
        usable_bytes: 4 * 1024 * 1024 * 1024,
        vga_workspace_offset: 4 * 1024 * 1024 * 1024 - 2 * 1024 * 1024,
        vga_workspace_bytes: 2 * 1024 * 1024,
        mmu_lock: TuringMmuLock::NotPresent,
        wpr_end_margin: 0,
        wpr_heap_bytes: 64 * 1024 * 1024,
        non_wpr_heap_bytes: 8 * 1024 * 1024,
    }
}

/// Boot offsets with every monitor and manifest offset zero.
pub fn sample_turing_boot_offsets() -> (b: TuringRiscvBootOffsets)
    ensures
        b == (TuringRiscvBootOffsets {
            monitor_code_offset: 0,
            monitor_data_offset: 0,
            manifest_offset: 0,
        }),
{
    TuringRiscvBootOffsets { monitor_code_offset: 0, monitor_data_offset: 0, manifest_offset: 0 }
}

} // verus!
