//! Fail-closed activation plan: the only legal order of evidence publication,
//! and a driver that walks a manifold through it.

use vstd::prelude::*;

use crate::firmware::{FirmwareFamily, VerifiedFirmware};
use crate::manifold::{
    HermesEvidence, HermesManifold, HermesPhase, ManifoldFault, FEATURE_BOOT_RPC,
    FEATURE_COMMAND_RING, FEATURE_COMPUTE, FEATURE_COPY_ENGINE, FEATURE_DISPLAY,
    FEATURE_EVENT_RING, FEATURE_MEMORY_MANAGEMENT, FEATURE_POWER, FEATURE_RECOVERY,
    FEATURE_REQUIRED, FEATURE_TELEMETRY,
};
use crate::pci::NvidiaArchitecture;

verus! {

/// Ordered activation steps.
#[derive(Clone, Copy, Debug, PartialEq, Eq, Structural)]
pub enum ActivationStep {
    ProbePci,
    MeasureFirmware,
    IsolateIommu,
    ArmQueues,
    NegotiateFeatures,
    LockWpr,
    BootMailbox,
    ReadyQueue,
    PublishOnline,
}

/// The activation plan of one admitted, firmware-verified GPU.
#[derive(Clone, Debug, PartialEq, Eq)]
pub struct ActivationPlan {
    pub architecture: NvidiaArchitecture,
    pub firmware_family: FirmwareFamily,
    pub firmware_version: u64,
    pub steps: [ActivationStep; 9],
}

/// The legal step order, probe first and publication last.
pub open spec fn legal_step_order() -> Seq<ActivationStep> {
    seq![
        ActivationStep::ProbePci,
        ActivationStep::MeasureFirmware,
        ActivationStep::IsolateIommu,
        ActivationStep::ArmQueues,
        ActivationStep::NegotiateFeatures,
        ActivationStep::LockWpr,
        ActivationStep::BootMailbox,
        ActivationStep::ReadyQueue,
        ActivationStep::PublishOnline,
    ]
}

/// Builds the only legal activation plan for an admitted, verified GPU.
pub fn plan_activation(architecture: NvidiaArchitecture, firmware: &VerifiedFirmware) -> (plan:
    ActivationPlan)
    ensures
        plan.architecture == architecture,
        plan.firmware_family == firmware.family,
        plan.firmware_version == firmware.version,
        plan.steps@ == legal_step_order(),
{
    let plan = ActivationPlan {
        architecture,
        firmware_family: firmware.family,
        firmware_version: firmware.version,
        steps: [
            ActivationStep::ProbePci,
            ActivationStep::MeasureFirmware,
            ActivationStep::IsolateIommu,
            ActivationStep::ArmQueues,
            ActivationStep::NegotiateFeatures,
            ActivationStep::LockWpr,
            ActivationStep::BootMailbox,
            ActivationStep::ReadyQueue,
            ActivationStep::PublishOnline,
        ],
    };
    assert(plan.steps@ =~= legal_step_order());
    plan
}

/// The manifold that a complete evidence chain ends in.
pub open spec fn fully_evidenced(generation: u32, dma_domain: u32, features: u64) -> HermesManifold {
    HermesManifold {
        generation,
        phase: HermesPhase::Online,
        evidence: HermesEvidence {
            probed: true,
            firmware_measured: true,
            iommu_isolated: true,
            dma_domain,
            features,
            wpr_locked: true,
            boot_mailbox_ok: true,
            ready_queue_observed: true,
        },
    }
}

/// Drives a fresh manifold through every step with successful evidence.
/// Only the DMA domain and the offered features can make it fail.
pub fn drive_full_success(generation: u32, dma_domain: u32, features: u64) -> (r: Result<
    HermesManifold,
    ManifoldFault,
>)
    ensures
        dma_domain == 0 ==> r == Err::<HermesManifold, ManifoldFault>(
            ManifoldFault::InvalidDomain),
        dma_domain != 0 && features & FEATURE_REQUIRED != FEATURE_REQUIRED ==> r == Err::<
            HermesManifold,
            ManifoldFault,
        >(ManifoldFault::RequiredFeatureMissing),
        (dma_domain != 0 && features & FEATURE_REQUIRED == FEATURE_REQUIRED) ==> r == Ok::<
            HermesManifold,
            ManifoldFault,
        >(fully_evidenced(generation, dma_domain, features)),
        r is Ok ==> r->Ok_0.spec_is_online() && r->Ok_0.wf(),
{
    let mut m = HermesManifold::dark(generation);
    m.observe_probe(true)?;
    m.observe_firmware(true)?;
    m.arm_queues(true, dma_domain)?;
    m.negotiate(features)?;
    m.ignite(true, true, true)?;
    if !m.is_online() || m.phase != HermesPhase::Online {
        return Err(ManifoldFault::CertificateMissing);
    }
    Ok(m)
}

/// Every feature of a display and compute GSP session.
pub open spec fn spec_default_negotiated_features() -> u64 {
    FEATURE_BOOT_RPC | FEATURE_COMMAND_RING | FEATURE_EVENT_RING | FEATURE_RECOVERY
        | FEATURE_DISPLAY | FEATURE_COPY_ENGINE | FEATURE_TELEMETRY | FEATURE_POWER
        | FEATURE_MEMORY_MANAGEMENT | FEATURE_COMPUTE
}

/// The default feature set of a display and compute GSP session; it includes
/// every required feature.
pub fn default_negotiated_features() -> (f: u64)
    ensures
        f == spec_default_negotiated_features(),
        f == 0x3ff,
        f & FEATURE_REQUIRED == FEATURE_REQUIRED,
{
    let f = FEATURE_BOOT_RPC | FEATURE_COMMAND_RING | FEATURE_EVENT_RING | FEATURE_RECOVERY
        | FEATURE_DISPLAY | FEATURE_COPY_ENGINE | FEATURE_TELEMETRY | FEATURE_POWER
        | FEATURE_MEMORY_MANAGEMENT | FEATURE_COMPUTE;
    assert(0x1u64 | 0x2u64 | 0x4u64 | 0x8u64 | 0x10u64 | 0x20u64 | 0x40u64 | 0x80u64 | 0x100u64
        | 0x200u64 == 0x3ffu64 && 0x3ffu64 & 0x7u64 == 0x7u64) by (bit_vector);
    f
}

} // verus!
