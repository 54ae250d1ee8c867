//! Capability comparison of Hermes against Nouveau (fail-closed Online).

use vstd::prelude::*;

verus! {

#[derive(Clone, Copy, Debug, PartialEq, Eq, Structural)]
pub enum Capability {
    LoadGspFirmwarePaths,
    BooterAndFmcStyles,
    RmApiR535R570,
    DrmKmsDisplay,
    MesaUserspace,
    NvidiaModuleNames,
    MeasuredSha256Admission,
    ElfStructuralAdmission,
    IommuRequiredForOnline,
    WprMailboxReadyCertificate,
    FormalIdrisAgdaAustral,
    QuarantineOnRpcFault,
}

#[derive(Clone, Copy, Debug, PartialEq, Eq, Structural)]
pub struct HermesEdge {
    pub capability: Capability,
    pub nouveau: bool,
    pub hermes: bool,
}

impl HermesEdge {
    pub open spec fn spec_advantage(self) -> bool {
        self.hermes && !self.nouveau
    }

    /// Hermes has the capability and Nouveau does not.
    pub fn hermes_advantage(self) -> (b: bool)
        ensures
            b == self.spec_advantage(),
    {
        self.hermes && !self.nouveau
    }
}

/// The comparison: the first five capabilities are shared, the last seven are
/// Hermes's alone.
pub open spec fn spec_comparison_matrix() -> Seq<HermesEdge> {
    seq![
        HermesEdge { capability: Capability::LoadGspFirmwarePaths, nouveau: true, hermes: true },
        HermesEdge { capability: Capability::BooterAndFmcStyles, nouveau: true, hermes: true },
        HermesEdge { capability: Capability::RmApiR535R570, nouveau: true, hermes: true },
        HermesEdge { capability: Capability::DrmKmsDisplay, nouveau: true, hermes: true },
        HermesEdge { capability: Capability::MesaUserspace, nouveau: true, hermes: true },
        HermesEdge { capability: Capability::NvidiaModuleNames, nouveau: false, hermes: true },
        HermesEdge { capability: Capability::MeasuredSha256Admission, nouveau: false, hermes: true },
        HermesEdge { capability: Capability::ElfStructuralAdmission, nouveau: false, hermes: true },
        HermesEdge { capability: Capability::IommuRequiredForOnline, nouveau: false, hermes: true },
        HermesEdge { capability: Capability::WprMailboxReadyCertificate, nouveau: false, hermes: true },
        HermesEdge { capability: Capability::FormalIdrisAgdaAustral, nouveau: false, hermes: true },
        HermesEdge { capability: Capability::QuarantineOnRpcFault, nouveau: false, hermes: true },
    ]
}

pub fn comparison_matrix() -> (m: Vec<HermesEdge>)
    ensures
        m@ == spec_comparison_matrix(),
{
    let m = vec![
        HermesEdge { capability: Capability::LoadGspFirmwarePaths, nouveau: true, hermes: true },
        HermesEdge { capability: Capability::BooterAndFmcStyles, nouveau: true, hermes: true },
        HermesEdge { capability: Capability::RmApiR535R570, nouveau: true, hermes: true },
        HermesEdge { capability: Capability::DrmKmsDisplay, nouveau: true, hermes: true },
        HermesEdge { capability: Capability::MesaUserspace, nouveau: true, hermes: true },
        HermesEdge { capability: Capability::NvidiaModuleNames, nouveau: false, hermes: true },
        HermesEdge { capability: Capability::MeasuredSha256Admission, nouveau: false, hermes: true },
        HermesEdge { capability: Capability::ElfStructuralAdmission, nouveau: false, hermes: true },
        HermesEdge { capability: Capability::IommuRequiredForOnline, nouveau: false, hermes: true },
        HermesEdge { capability: Capability::WprMailboxReadyCertificate, nouveau: false, hermes: true },
        HermesEdge { capability: Capability::FormalIdrisAgdaAustral, nouveau: false, hermes: true },
        HermesEdge { capability: Capability::QuarantineOnRpcFault, nouveau: false, hermes: true },
    ];
    assert(m@ =~= spec_comparison_matrix());
    m
}

/// Number of edges among the first `n` where Hermes has the advantage.
pub open spec fn spec_advantage_count(edges: Seq<HermesEdge>, n: int) -> nat
    decreases n,
{
    if n <= 0 {
        0
    } else {
        spec_advantage_count(edges, n - 1) + if edges[n - 1].spec_advantage() {
            1nat
        } else {
            0nat
        }
    }
}

/// How many capabilities Hermes has that Nouveau lacks.
pub fn hermes_exclusive_count() -> (n: usize)
    ensures
        n == spec_advantage_count(spec_comparison_matrix(), 12),
        n == 7,
{
    let m = comparison_matrix();
    let mut count: usize = 0;
    let mut i: usize = 0;
    while i < m.len()
        invariant
            i <= m@.len(),
            m@ == spec_comparison_matrix(),
            count == spec_advantage_count(m@, i as int),
            count <= i,
        decreases m@.len() - i,
    {
        if m[i].hermes_advantage() {
            count = count + 1;
        }
        i = i + 1;
    }
    assert(spec_advantage_count(spec_comparison_matrix(), 12) == 7) by {
        reveal_with_fuel(spec_advantage_count, 13);
    }
    count
}

} // verus!
