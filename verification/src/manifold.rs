//! The Hermes phase manifold: the only route to Online is the ordered chain
//! probe → firmware → queues → features → ignition, each step carrying its
//! evidence token. A refused step leaves the manifold exactly as it was.
use vstd::prelude::*;

verus! {

/// Feature bits negotiated with GSP-RM.
pub const FEATURE_BOOT_RPC: u64 = 0x1;
pub const FEATURE_COMMAND_RING: u64 = 0x2;
pub const FEATURE_EVENT_RING: u64 = 0x4;
pub const FEATURE_RECOVERY: u64 = 0x8;
pub const FEATURE_DISPLAY: u64 = 0x10;
pub const FEATURE_COPY_ENGINE: u64 = 0x20;
pub const FEATURE_TELEMETRY: u64 = 0x40;
pub const FEATURE_POWER: u64 = 0x80;
pub const FEATURE_MEMORY_MANAGEMENT: u64 = 0x100;
pub const FEATURE_COMPUTE: u64 = 0x200;
/// Features without which no session may be negotiated.
pub const FEATURE_REQUIRED: u64 = 0x7;

/// Lifecycle phase of one GPU's GSP session.
#[derive(Clone, Copy, Debug, PartialEq, Eq, Structural)]
pub enum HermesPhase {
    Offline,
    Probed,
    Firmwared,
    Queued,
    Negotiated,
    Online,
    Recovering,
    Quarantined,
}

pub open spec fn spec_phase_code(p: HermesPhase) -> u32 {
    match p {
        HermesPhase::Offline => 0,
        HermesPhase::Probed => 1,
        HermesPhase::Firmwared => 2,
        HermesPhase::Queued => 3,
        HermesPhase::Negotiated => 4,
        HermesPhase::Online => 5,
        HermesPhase::Recovering => 6,
        HermesPhase::Quarantined => 7,
    }
}

impl HermesPhase {
    /// Numeric phase code used by the control uAPI.
    pub fn code(self) -> (c: u32)
        ensures
            c == spec_phase_code(self),
    {
        match self {
            HermesPhase::Offline => 0,
            HermesPhase::Probed => 1,
            HermesPhase::Firmwared => 2,
            HermesPhase::Queued => 3,
            HermesPhase::Negotiated => 4,
            HermesPhase::Online => 5,
            HermesPhase::Recovering => 6,
            HermesPhase::Quarantined => 7,
        }
    }

    /// Operator-facing label (same spelling as the control uAPI).
    pub fn label(self) -> (s: &'static str)
        ensures
            s@ == (match self {
                HermesPhase::Offline => "OFFLINE"@,
                HermesPhase::Probed => "PROBED"@,
                HermesPhase::Firmwared => "FIRMWARED"@,
                HermesPhase::Queued => "QUEUED"@,
                HermesPhase::Negotiated => "NEGOTIATED"@,
                HermesPhase::Online => "ONLINE"@,
                HermesPhase::Recovering => "RECOVERING"@,
                HermesPhase::Quarantined => "QUARANTINED"@,
            }),
    {
        match self {
            HermesPhase::Offline => "OFFLINE",
            HermesPhase::Probed => "PROBED",
            HermesPhase::Firmwared => "FIRMWARED",
            HermesPhase::Queued => "QUEUED",
            HermesPhase::Negotiated => "NEGOTIATED",
            HermesPhase::Online => "ONLINE",
            HermesPhase::Recovering => "RECOVERING",
            HermesPhase::Quarantined => "QUARANTINED",
        }
    }
}

/// Evidence tokens published by each activation step.
#[derive(Clone, Copy, Debug, PartialEq, Eq, Structural)]
pub struct HermesEvidence {
    pub probed: bool,
    pub firmware_measured: bool,
    pub iommu_isolated: bool,
    pub dma_domain: u32,
    pub features: u64,
    pub wpr_locked: bool,
    pub boot_mailbox_ok: bool,
    pub ready_queue_observed: bool,
}

/// Why a manifold step was refused.
#[derive(Clone, Copy, Debug, PartialEq, Eq, Structural)]
pub enum ManifoldFault {
    OutOfOrder,
    ProbeFailed,
    FirmwareUnmeasured,
    IsolationMissing,
    InvalidDomain,
    RequiredFeatureMissing,
    MissingWpr,
    MissingMailbox,
    MissingReady,
    CertificateMissing,
}

/// One GPU's phase plus the evidence that justified it.
#[derive(Clone, Copy, Debug, PartialEq, Eq, Structural)]
pub struct HermesManifold {
    pub generation: u32,
    pub phase: HermesPhase,
    pub evidence: HermesEvidence,
}

pub open spec fn no_evidence() -> HermesEvidence {
    HermesEvidence {
        probed: false,
        firmware_measured: false,
        iommu_isolated: false,
        dma_domain: 0,
        features: 0,
        wpr_locked: false,
        boot_mailbox_ok: false,
        ready_queue_observed: false,
    }
}

/// The complete Online certificate: every evidence token is present.
pub open spec fn online_certificate(e: HermesEvidence) -> bool {
    &&& e.probed
    &&& e.firmware_measured
    &&& e.iommu_isolated
    &&& e.dma_domain != 0
    &&& e.features & FEATURE_REQUIRED == FEATURE_REQUIRED
    &&& e.wpr_locked
    &&& e.boot_mailbox_ok
    &&& e.ready_queue_observed
}

impl HermesManifold {
    /// Evidence agrees with the phase: each reached step has its token, no later token exists.
    pub open spec fn wf(self) -> bool {
        let e = self.evidence;
        let k = spec_phase_code(self.phase);
        &&& k <= 5
        &&& e.probed == (k >= 1)
        &&& e.firmware_measured == (k >= 2)
        &&& e.iommu_isolated == (k >= 3)
        &&& (k >= 3) == (e.dma_domain != 0)
        &&& (k >= 4) ==> e.features & FEATURE_REQUIRED == FEATURE_REQUIRED
        &&& (k < 4) ==> e.features == 0
        &&& e.wpr_locked == (k >= 5)
        &&& e.boot_mailbox_ok == (k >= 5)
        &&& e.ready_queue_observed == (k >= 5)
    }

    pub open spec fn spec_is_online(self) -> bool {
        self.phase == HermesPhase::Online && online_certificate(self.evidence)
    }

    /// A fresh manifold: Offline with no evidence.
    pub fn dark(generation: u32) -> (m: Self)
        ensures
            m == (HermesManifold { generation, phase: HermesPhase::Offline, evidence: no_evidence() }),
            m.wf(),
    {
        HermesManifold {
            generation,
            phase: HermesPhase::Offline,
            evidence: HermesEvidence {
                probed: false,
                firmware_measured: false,
                iommu_isolated: false,
                dma_domain: 0,
                features: 0,
                wpr_locked: false,
                boot_mailbox_ok: false,
                ready_queue_observed: false,
            },
        }
    }

    /// Online only with the Online phase and the complete certificate.
    pub fn is_online(&self) -> (b: bool)
        ensures
            b == self.spec_is_online(),
    {
        let e = &self.evidence;
        self.phase == HermesPhase::Online && e.probed && e.firmware_measured && e.iommu_isolated
            && e.dma_domain != 0 && e.features & FEATURE_REQUIRED == FEATURE_REQUIRED
            && e.wpr_locked && e.boot_mailbox_ok && e.ready_queue_observed
    }

    /// Offline → Probed on a successful PCI probe.
    pub fn observe_probe(&mut self, ok: bool) -> (r: Result<(), ManifoldFault>)
        ensures
            old(self).phase != HermesPhase::Offline ==> r == Err::<(), ManifoldFault>(
                ManifoldFault::OutOfOrder),
            old(self).phase == HermesPhase::Offline && !ok ==> r == Err::<(), ManifoldFault>(
                ManifoldFault::ProbeFailed),
            r is Ok <==> (old(self).phase == HermesPhase::Offline && ok),
            r is Ok ==> *final(self) == (HermesManifold {
                phase: HermesPhase::Probed,
                evidence: HermesEvidence { probed: true, ..old(self).evidence },
                ..*old(self)
            }),
            r is Err ==> *final(self) == *old(self),
    {
        if self.phase != HermesPhase::Offline {
            return Err(ManifoldFault::OutOfOrder);
        }
        if !ok {
            return Err(ManifoldFault::ProbeFailed);
        }
        self.evidence.probed = true;
        self.phase = HermesPhase::Probed;
        Ok(())
    }

    /// Probed → Firmwared once measured firmware was admitted.
    pub fn observe_firmware(&mut self, measured: bool) -> (r: Result<(), ManifoldFault>)
        ensures
            old(self).phase != HermesPhase::Probed ==> r == Err::<(), ManifoldFault>(
                ManifoldFault::OutOfOrder),
            old(self).phase == HermesPhase::Probed && !measured ==> r == Err::<(), ManifoldFault>(
                ManifoldFault::FirmwareUnmeasured),
            r is Ok <==> (old(self).phase == HermesPhase::Probed && measured),
            r is Ok ==> *final(self) == (HermesManifold {
                phase: HermesPhase::Firmwared,
                evidence: HermesEvidence { firmware_measured: true, ..old(self).evidence },
                ..*old(self)
            }),
            r is Err ==> *final(self) == *old(self),
    {
        if self.phase != HermesPhase::Probed {
            return Err(ManifoldFault::OutOfOrder);
        }
        if !measured {
            return Err(ManifoldFault::FirmwareUnmeasured);
        }
        self.evidence.firmware_measured = true;
        self.phase = HermesPhase::Firmwared;
        Ok(())
    }

    /// Firmwared → Queued once the device is isolated in a nonzero DMA domain.
    pub fn arm_queues(&mut self, isolated: bool, dma_domain: u32) -> (r: Result<(), ManifoldFault>)
        ensures
            old(self).phase != HermesPhase::Firmwared ==> r == Err::<(), ManifoldFault>(
                ManifoldFault::OutOfOrder),
            old(self).phase == HermesPhase::Firmwared && !isolated ==> r == Err::<
                (),
                ManifoldFault,
            >(ManifoldFault::IsolationMissing),
            old(self).phase == HermesPhase::Firmwared && isolated && dma_domain == 0 ==> r
                == Err::<(), ManifoldFault>(ManifoldFault::InvalidDomain),
            r is Ok <==> (old(self).phase == HermesPhase::Firmwared && isolated && dma_domain
                != 0),
            r is Ok ==> *final(self) == (HermesManifold {
                phase: HermesPhase::Queued,
                evidence: HermesEvidence {
                    iommu_isolated: true,
                    dma_domain,
                    ..old(self).evidence
                },
                ..*old(self)
            }),
            r is Err ==> *final(self) == *old(self),
    {
        if self.phase != HermesPhase::Firmwared {
            return Err(ManifoldFault::OutOfOrder);
        }
        if !isolated {
            return Err(ManifoldFault::IsolationMissing);
        }
        if dma_domain == 0 {
            return Err(ManifoldFault::InvalidDomain);
        }
        self.evidence.iommu_isolated = true;
        self.evidence.dma_domain = dma_domain;
        self.phase = HermesPhase::Queued;
        Ok(())
    }

    /// Queued → Negotiated when the offered features include every required one.
    pub fn negotiate(&mut self, features: u64) -> (r: Result<(), ManifoldFault>)
        ensures
            old(self).phase != HermesPhase::Queued ==> r == Err::<(), ManifoldFault>(
                ManifoldFault::OutOfOrder),
            old(self).phase == HermesPhase::Queued && features & FEATURE_REQUIRED
                != FEATURE_REQUIRED ==> r == Err::<(), ManifoldFault>(
                ManifoldFault::RequiredFeatureMissing),
            r is Ok <==> (old(self).phase == HermesPhase::Queued && features & FEATURE_REQUIRED
                == FEATURE_REQUIRED),
            r is Ok ==> *final(self) == (HermesManifold {
                phase: HermesPhase::Negotiated,
                evidence: HermesEvidence { features, ..old(self).evidence },
                ..*old(self)
            }),
            r is Err ==> *final(self) == *old(self),
    {
        if self.phase != HermesPhase::Queued {
            return Err(ManifoldFault::OutOfOrder);
        }
        if features & FEATURE_REQUIRED != FEATURE_REQUIRED {
            return Err(ManifoldFault::RequiredFeatureMissing);
        }
        self.evidence.features = features;
        self.phase = HermesPhase::Negotiated;
        Ok(())
    }

    /// Negotiated → Online only with WPR lock, boot mailbox and ready-queue evidence.
    pub fn ignite(&mut self, wpr_locked: bool, boot_mailbox_ok: bool, ready_queue_observed: bool) -> (r:
        Result<(), ManifoldFault>)
        ensures
            old(self).phase != HermesPhase::Negotiated ==> r == Err::<(), ManifoldFault>(
                ManifoldFault::OutOfOrder),
            old(self).phase == HermesPhase::Negotiated && !wpr_locked ==> r == Err::<
                (),
                ManifoldFault,
            >(ManifoldFault::MissingWpr),
            old(self).phase == HermesPhase::Negotiated && wpr_locked && !boot_mailbox_ok ==> r
                == Err::<(), ManifoldFault>(ManifoldFault::MissingMailbox),
            old(self).phase == HermesPhase::Negotiated && wpr_locked && boot_mailbox_ok
                && !ready_queue_observed ==> r == Err::<(), ManifoldFault>(
                ManifoldFault::MissingReady),
            r is Ok <==> (old(self).phase == HermesPhase::Negotiated && wpr_locked
                && boot_mailbox_ok && ready_queue_observed),
            r is Ok ==> *final(self) == (HermesManifold {
                phase: HermesPhase::Online,
                evidence: HermesEvidence {
                    wpr_locked: true,
                    boot_mailbox_ok: true,
                    ready_queue_observed: true,
                    ..old(self).evidence
                },
                ..*old(self)
            }),
            r is Err ==> *final(self) == *old(self),
    {
        if self.phase != HermesPhase::Negotiated {
            return Err(ManifoldFault::OutOfOrder);
        }
        if !wpr_locked {
            return Err(ManifoldFault::MissingWpr);
        }
        if !boot_mailbox_ok {
            return Err(ManifoldFault::MissingMailbox);
        }
        if !ready_queue_observed {
            return Err(ManifoldFault::MissingReady);
        }
        self.evidence.wpr_locked = true;
        self.evidence.boot_mailbox_ok = true;
        self.evidence.ready_queue_observed = true;
        self.phase = HermesPhase::Online;
        Ok(())
    }
}

/// Online law: a manifold reports Online only when it holds every evidence token
/// (probe, measured firmware, IOMMU isolation in a nonzero domain, the required
/// features, WPR lock, boot mailbox and ready queue).
pub proof fn online_requires_every_token(m: HermesManifold)
    ensures
        m.spec_is_online() ==> {
            &&& m.phase == HermesPhase::Online
            &&& m.evidence.probed
            &&& m.evidence.firmware_measured
            &&& m.evidence.iommu_isolated
            &&& m.evidence.dma_domain != 0
            &&& m.evidence.features & FEATURE_REQUIRED == FEATURE_REQUIRED
            &&& m.evidence.wpr_locked
            &&& m.evidence.boot_mailbox_ok
            &&& m.evidence.ready_queue_observed
        },
{
}

/// Invariant law: every successful step keeps the evidence consistent with the
/// phase, and in a consistent manifold the Online phase alone implies Online.
pub proof fn steps_preserve_consistency(
    m: HermesManifold,
    probe: HermesManifold,
    firmware: HermesManifold,
    queues: HermesManifold,
    negotiated: HermesManifold,
    ignited: HermesManifold,
    ok: bool,
    domain: u32,
    features: u64,
)
    requires
        m.wf(),
    ensures
        (m.phase == HermesPhase::Offline && ok && probe == (HermesManifold {
            phase: HermesPhase::Probed,
            evidence: HermesEvidence { probed: true, ..m.evidence },
            ..m
        })) ==> probe.wf(),
        (m.phase == HermesPhase::Probed && ok && firmware == (HermesManifold {
            phase: HermesPhase::Firmwared,
            evidence: HermesEvidence { firmware_measured: true, ..m.evidence },
            ..m
        })) ==> firmware.wf(),
        (m.phase == HermesPhase::Firmwared && domain != 0 && queues == (HermesManifold {
            phase: HermesPhase::Queued,
            evidence: HermesEvidence { iommu_isolated: true, dma_domain: domain, ..m.evidence },
            ..m
        })) ==> queues.wf(),
        (m.phase == HermesPhase::Queued && features & FEATURE_REQUIRED == FEATURE_REQUIRED
            && negotiated == (HermesManifold {
            phase: HermesPhase::Negotiated,
            evidence: HermesEvidence { features, ..m.evidence },
            ..m
        })) ==> negotiated.wf(),
        (m.phase == HermesPhase::Negotiated && ignited == (HermesManifold {
            phase: HermesPhase::Online,
            evidence: HermesEvidence {
                wpr_locked: true,
                boot_mailbox_ok: true,
                ready_queue_observed: true,
                ..m.evidence
            },
            ..m
        })) ==> ignited.wf(),
        m.phase == HermesPhase::Online ==> m.spec_is_online(),
{
}

} // verus!
