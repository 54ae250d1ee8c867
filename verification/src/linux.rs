//! Linux drop-in personality for the NVIDIA open kernel module set.
//!
//! Hermes presents the module and device node names operators expect when
//! replacing `nvidia`. Exporting these names never implies the GPU is online:
//! activation goes through the shared bring-up sequencer.

pub mod devices;
pub mod modules;
pub mod userspace;

use vstd::prelude::*;

use crate::bringup::{
    gates_pass, online_justified, online_owed, platform_refused, preflight_passes, run_bringup,
    BringupFault, BringupReport, BringupRequest, HardwareEvidence,
};
use crate::bootstrap::spec_check_artifacts;
use crate::firmware::spec_admit;
use crate::host_gate::spec_host_preflight_fault;
use crate::platform::holds_unchanged;
use crate::stage::{spec_published, spec_stage_ops, STAGE_CHUNK_BYTES};
use crate::manifold::{HermesManifold, HermesPhase};
use crate::pci::{admit_display_device, spec_admit_display, AdmissionError, AdmittedDevice, HermesPciIdentity};
use crate::platform::HermesPlatform;
use crate::text::{append_decimal, append_hex, spec_decimal, spec_hex_digits};

verus! {

/// One drop-in module table entry.
#[derive(Clone, Copy, Debug, PartialEq, Eq)]
pub struct ModuleSurface {
    pub name: &'static str,
    pub replaces: &'static str,
    pub description: &'static str,
}

/// The drop-in module table: one surface per NVIDIA module, each replacing the
/// module of the same name, in the order of the NVIDIA set.
pub fn module_surfaces() -> (table: Vec<ModuleSurface>)
    ensures
        table@.len() == 5,
        forall|i: int|
            0 <= i < 5 ==> (#[trigger] table@[i]).name == modules::spec_all_nvidia_set()[i]
                && table@[i].replaces == modules::spec_all_nvidia_set()[i],
{
    let mut table: Vec<ModuleSurface> = Vec::new();
    table.push(
        ModuleSurface {
            name: modules::NVIDIA,
            replaces: modules::NVIDIA,
            description: "Hermes GSP-RM host / Resource Manager path (classic name)",
        },
    );
    table.push(
        ModuleSurface {
            name: modules::NVIDIA_MODESET,
            replaces: modules::NVIDIA_MODESET,
            description: "Display modeset broker (fail-closed until GSP online)",
        },
    );
    table.push(
        ModuleSurface {
            name: modules::NVIDIA_UVM,
            replaces: modules::NVIDIA_UVM,
            description: "Unified virtual memory personality",
        },
    );
    table.push(
        ModuleSurface {
            name: modules::NVIDIA_DRM,
            replaces: modules::NVIDIA_DRM,
            description: "DRM/KMS bridge for modesetting clients",
        },
    );
    table.push(
        ModuleSurface {
            name: modules::NVIDIA_PEERMEM,
            replaces: modules::NVIDIA_PEERMEM,
            description: "Peer memory registration bridge",
        },
    );
    table
}

/// The `ssss:bb:dd.f` PCI address of an identity: hexadecimal segment, bus and
/// slot, decimal function.
pub open spec fn spec_pci_bdf(identity: HermesPciIdentity) -> Seq<char> {
    spec_hex_digits(identity.segment as nat, 4) + seq![':'] + spec_hex_digits(identity.bus as nat, 2)
        + seq![':'] + spec_hex_digits(identity.slot as nat, 2) + seq!['.'] + spec_decimal(
        identity.function as nat,
    )
}

fn pci_bdf(identity: &HermesPciIdentity) -> (s: String)
    ensures
        s@ == spec_pci_bdf(*identity),
{
    let mut s = String::new();
    append_hex(&mut s, identity.segment as u64, 4);
    let colon = ":";
    let dot = ".";
    proof {
        reveal_strlit(":");
        reveal_strlit(".");
    }
    s.append(colon);
    append_hex(&mut s, identity.bus as u64, 2);
    s.append(colon);
    append_hex(&mut s, identity.slot as u64, 2);
    s.append(dot);
    append_decimal(&mut s, identity.function as u64);
    s
}

/// Runtime view of one GPU under the Linux personality.
#[derive(Clone, Debug)]
pub struct LinuxGpuSlot {
    pub admitted: AdmittedDevice,
    pub manifold: HermesManifold,
    pub pci_bdf: String,
}

impl LinuxGpuSlot {
    /// A dark slot for an admitted display GPU; refused exactly when display
    /// admission refuses the identity.
    pub fn from_identity(identity: HermesPciIdentity, generation: u32) -> (r: Result<
        Self,
        AdmissionError,
    >)
        ensures
            match spec_admit_display(identity) {
                Ok(a) => r matches Ok(slot) && slot.admitted == a && slot.manifold == (HermesManifold {
                    generation,
                    phase: HermesPhase::Offline,
                    evidence: crate::manifold::no_evidence(),
                }) && slot.pci_bdf@ == spec_pci_bdf(identity),
                Err(e) => r == Err::<Self, AdmissionError>(e),
            },
    {
        let admitted = match admit_display_device(&identity) {
            Ok(a) => a,
            Err(e) => {
                return Err(e);
            },
        };
        Ok(
            LinuxGpuSlot {
                admitted,
                manifold: HermesManifold::dark(generation),
                pci_bdf: pci_bdf(&identity),
            },
        )
    }

    /// Takes the manifold of a bring-up report, and its admitted device when it has one.
    pub fn apply_bringup(&mut self, report: &BringupReport)
        ensures
            final(self).manifold == report.manifold,
            final(self).admitted == match report.admitted {
                Some(a) => a,
                None => old(self).admitted,
            },
            final(self).pci_bdf@ == old(self).pci_bdf@,
    {
        self.manifold = report.manifold;
        if let Some(admitted) = report.admitted {
            self.admitted = admitted;
        }
    }

    pub fn is_online(&self) -> (b: bool)
        ensures
            b == self.manifold.spec_is_online(),
    {
        self.manifold.is_online()
    }

    pub fn phase(&self) -> (p: HermesPhase)
        ensures
            p == self.manifold.phase,
    {
        self.manifold.phase
    }

    /// The classic module name this slot answers to.
    pub fn module_provides_nvidia_name(&self) -> (name: &'static str)
        ensures
            name == modules::NVIDIA,
    {
        modules::NVIDIA
    }
}

/// The module name Hermes binds: the classic `nvidia` when preferred, else `hermes-gsp`.
pub fn drop_in_module_name(prefer_classic: bool) -> (name: &'static str)
    ensures
        name == if prefer_classic {
            modules::NVIDIA
        } else {
            modules::HERMES_GSP
        },
{
    if prefer_classic {
        modules::NVIDIA
    } else {
        modules::HERMES_GSP
    }
}

/// Linux entry: runs the shared bring-up on a platform and returns its report.
pub fn linux_bringup<P: HermesPlatform>(platform: &mut P, request: &BringupRequest) -> (r:
    BringupReport)
    ensures
        !r.resources_retained,
        r.spec_is_online() ==> online_justified(*request, r),
        r.manifold.wf(),
        r.manifold.generation == request.generation,
        holds_unchanged(*old(platform), *final(platform)),
        !gates_pass(*request) ==> *final(platform) == *old(platform),
        online_owed(*request) ==> r.spec_is_online() || platform_refused(
            *old(platform),
            *final(platform),
        ),
        gates_pass(*request) && !request.drive_wpr ==> (r.fault matches Some(BringupFault::Hermes(e))
            ==> final(platform).refusal_log() == old(platform).refusal_log().push(e)),
        gates_pass(*request) ==> final(platform).isolation_log() == old(platform).isolation_log().push(
            request.identity,
        ),
        r.stage is Some ==> exists|h: u32|
            #![trigger spec_stage_ops(h, request.gsp_rm_image@, STAGE_CHUNK_BYTES as int, 0)]
            final(platform).dma_log() == old(platform).dma_log() + spec_stage_ops(
                h,
                request.gsp_rm_image@,
                STAGE_CHUNK_BYTES as int,
                0,
            ) && spec_published(spec_stage_ops(h, request.gsp_rm_image@, STAGE_CHUNK_BYTES as int, 0))
                == request.gsp_rm_image@,
        !preflight_passes(*request) || spec_admit_display(request.identity) is Err ==> r.admitted is None
            && r.firmware is None,
        request.host_facts matches Some(f) ==> spec_host_preflight_fault(f) matches Some(x) ==> r.fault
            == Some(BringupFault::Hermes(x)) && r.manifold.phase == HermesPhase::Offline,
        preflight_passes(*request) ==> match spec_admit_display(request.identity) {
            Ok(a) => r.admitted == Some(a),
            Err(e) => r.fault == Some(BringupFault::Admission(e)) && r.manifold.phase
                == HermesPhase::Offline,
        },
        preflight_passes(*request) && spec_admit_display(request.identity) is Ok ==> match spec_admit(
            request.firmware_authority.allow(),
            request.identity.device_id,
            request.gsp_rm_image@,
        ) {
            Ok(fw) => r.firmware == Some(fw),
            Err(e) => r.fault == Some(BringupFault::Hermes(e)) && r.manifold.phase
                == HermesPhase::Probed,
        },
        preflight_passes(*request) && spec_admit_display(request.identity) is Ok && spec_admit(
            request.firmware_authority.allow(),
            request.identity.device_id,
            request.gsp_rm_image@,
        ) is Ok ==> {
            &&& request.require_bootstrap && request.bootstrap is None ==> r.fault
                == Some(BringupFault::BootstrapRequired)
            &&& request.bootstrap matches Some(m) ==> spec_check_artifacts(m.artifacts(), 0) matches Err(
                e,
            ) ==> r.fault == Some(BringupFault::Hermes(e))
        },
{
    run_bringup(platform, request)
}

/// Full hardware evidence, for simulators that model a successful SEC2/GSP boot.
pub fn sim_full_hardware() -> (e: HardwareEvidence)
    ensures
        e == (HardwareEvidence { wpr_locked: true, boot_mailbox_ok: true, ready_queue_observed: true }),
{
    HardwareEvidence::full()
}

} // verus!
