//! NVKM object hierarchy: device, subdevices and engines, GSP.

use vstd::prelude::*;

use crate::pci::HermesPciIdentity;

verus! {

/// NVKM subdevice classes used by GSP interrupt routing tables.
#[derive(Clone, Copy, Debug, PartialEq, Eq, PartialOrd, Ord, Structural)]
pub enum SubdevType {
    Gsp,
    Fb,
    Bar,
    Mmu,
    Mc,
    Bus,
    Timer,
    Instmem,
    Ltc,
    Fault,
    Sec2,
    Fsp,
}

impl SubdevType {
    /// Class identifier of the subdevice.
    pub fn class_id(self) -> (id: u16)
        ensures
            1 <= id <= 12,
            id == match self {
                SubdevType::Gsp => 1u16,
                SubdevType::Fb => 2,
                SubdevType::Bar => 3,
                SubdevType::Mmu => 4,
                SubdevType::Mc => 5,
                SubdevType::Bus => 6,
                SubdevType::Timer => 7,
                SubdevType::Instmem => 8,
                SubdevType::Ltc => 9,
                SubdevType::Fault => 10,
                SubdevType::Sec2 => 11,
                SubdevType::Fsp => 12,
            },
    {
        match self {
            SubdevType::Gsp => 1,
            SubdevType::Fb => 2,
            SubdevType::Bar => 3,
            SubdevType::Mmu => 4,
            SubdevType::Mc => 5,
            SubdevType::Bus => 6,
            SubdevType::Timer => 7,
            SubdevType::Instmem => 8,
            SubdevType::Ltc => 9,
            SubdevType::Fault => 10,
            SubdevType::Sec2 => 11,
            SubdevType::Fsp => 12,
        }
    }
}

/// Engine classes relevant to GSP-RM engine tables.
#[derive(Clone, Copy, Debug, PartialEq, Eq, PartialOrd, Ord, Structural)]
pub enum EngineType {
    Gr,
    Ce,
    Nvdec,
    Nvenc,
    Nvjpg,
    Ofa,
    Fifo,
    Disp,
    Sw,
}

impl EngineType {
    /// Class identifier of the engine.
    pub fn class_id(self) -> (id: u16)
        ensures
            1 <= id <= 9,
            id == match self {
                EngineType::Gr => 1u16,
                EngineType::Ce => 2,
                EngineType::Nvdec => 3,
                EngineType::Nvenc => 4,
                EngineType::Nvjpg => 5,
                EngineType::Ofa => 6,
                EngineType::Fifo => 7,
                EngineType::Disp => 8,
                EngineType::Sw => 9,
            },
    {
        match self {
            EngineType::Gr => 1,
            EngineType::Ce => 2,
            EngineType::Nvdec => 3,
            EngineType::Nvenc => 4,
            EngineType::Nvjpg => 5,
            EngineType::Ofa => 6,
            EngineType::Fifo => 7,
            EngineType::Disp => 8,
            EngineType::Sw => 9,
        }
    }
}

#[derive(Clone, Copy, Debug, PartialEq, Eq, Structural)]
pub struct ObjectHandle {
    pub client: u32,
    pub parent: u32,
    pub object: u32,
    pub class_id: u32,
}

impl ObjectHandle {
    /// The root object of a client: its own object, no parent, class 0.
    pub fn root_client(client: u32) -> (h: Self)
        ensures
            h == (ObjectHandle { client, parent: 0, object: client, class_id: 0 }),
    {
        ObjectHandle { client, parent: 0, object: client, class_id: 0 }
    }
}

/// Device construction record: PCI identity and chip name.
#[derive(Clone, Copy, Debug, PartialEq, Eq)]
pub struct NvkmDevice {
    pub identity: HermesPciIdentity,
    pub chip_name: &'static str,
    pub cfg_nv_gsp_rm: bool,
}

impl NvkmDevice {
    /// A device with GSP-RM enabled, as Nouveau defaults; Online still needs
    /// every measured gate.
    pub fn new(identity: HermesPciIdentity, chip_name: &'static str) -> (d: Self)
        ensures
            d.identity == identity,
            d.chip_name == chip_name,
            d.cfg_nv_gsp_rm,
    {
        NvkmDevice { identity, chip_name, cfg_nv_gsp_rm: true }
    }
}

/// Subdevice lifecycle phase.
#[derive(Clone, Copy, Debug, PartialEq, Eq, PartialOrd, Ord, Structural)]
pub enum SubdevPhase {
    Constructed,
    OneInit,
    Init,
    Running,
    Fini,
    Destructed,
}

#[derive(Clone, Copy, Debug, PartialEq, Eq, Structural)]
pub enum NvkmError {
    NoFirmware,
    GspDisabled,
    LoadFailed,
    BooterFailed,
    WprInactive,
    RpcTimeout,
    InvalidState,
    UnsupportedChip,
}

} // verus!
