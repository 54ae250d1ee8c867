//! PCI identity, NVIDIA architecture bands and Turing+ device admission.
use vstd::prelude::*;

use crate::fault::HermesFault;

verus! {

/// PCI vendor ID for NVIDIA Corporation.
pub const NVIDIA_VENDOR_ID: u16 = 0x10de;
/// PCI base class of display controllers.
pub const PCI_CLASS_DISPLAY: u8 = 0x03;

/// Present on every recognized Turing-or-newer device.
pub const NVIDIA_ARCHITECTURE_TURING_OR_NEWER: u32 = 1;
pub const NVIDIA_ARCHITECTURE_TURING: u32 = 0x100;
pub const NVIDIA_ARCHITECTURE_AMPERE: u32 = 0x200;
pub const NVIDIA_ARCHITECTURE_HOPPER: u32 = 0x400;
pub const NVIDIA_ARCHITECTURE_ADA: u32 = 0x800;
pub const NVIDIA_ARCHITECTURE_BLACKWELL: u32 = 0x1000;

/// PCI configuration identity of one function.
#[derive(Clone, Copy, Debug, PartialEq, Eq, Structural)]
pub struct HermesPciIdentity {
    pub segment: u16,
    pub bus: u8,
    pub slot: u8,
    pub function: u8,
    pub revision: u8,
    pub vendor_id: u16,
    pub device_id: u16,
    pub subsystem_vendor_id: u16,
    pub subsystem_device_id: u16,
    pub class_code: u8,
    pub subclass: u8,
    pub programming_interface: u8,
    pub reserved: u8,
}

/// Named architecture family for GSP firmware line selection.
#[derive(Clone, Copy, Debug, PartialEq, Eq, Structural)]
pub enum NvidiaArchitecture {
    Turing,
    Ampere,
    Hopper,
    Ada,
    Blackwell,
}

/// Device-ID bands of each Turing-or-newer generation; anything else is unknown.
pub open spec fn spec_nvidia_architecture(device_id: u16) -> Option<NvidiaArchitecture> {
    if (0x1e00 <= device_id <= 0x1fff) || (0x2180 <= device_id <= 0x21ff) {
        Some(NvidiaArchitecture::Turing)
    } else if (0x2000 <= device_id <= 0x20ff) || (0x2200 <= device_id <= 0x22ff) || (0x2400
        <= device_id <= 0x25ff) {
        Some(NvidiaArchitecture::Ampere)
    } else if 0x2300 <= device_id <= 0x23ff {
        Some(NvidiaArchitecture::Hopper)
    } else if 0x2600 <= device_id <= 0x28ff {
        Some(NvidiaArchitecture::Ada)
    } else if 0x2900 <= device_id <= 0x2fff {
        Some(NvidiaArchitecture::Blackwell)
    } else {
        None
    }
}

pub open spec fn spec_hint_bits(arch: NvidiaArchitecture) -> u32 {
    match arch {
        NvidiaArchitecture::Turing => 0x101,
        NvidiaArchitecture::Ampere => 0x201,
        NvidiaArchitecture::Hopper => 0x401,
        NvidiaArchitecture::Ada => 0x801,
        NvidiaArchitecture::Blackwell => 0x1001,
    }
}

impl NvidiaArchitecture {
    pub fn as_str(self) -> (s: &'static str)
        ensures
            s@ == (match self {
                NvidiaArchitecture::Turing => "Turing"@,
                NvidiaArchitecture::Ampere => "Ampere"@,
                NvidiaArchitecture::Hopper => "Hopper"@,
                NvidiaArchitecture::Ada => "Ada"@,
                NvidiaArchitecture::Blackwell => "Blackwell"@,
            }),
    {
        match self {
            NvidiaArchitecture::Turing => "Turing",
            NvidiaArchitecture::Ampere => "Ampere",
            NvidiaArchitecture::Hopper => "Hopper",
            NvidiaArchitecture::Ada => "Ada",
            NvidiaArchitecture::Blackwell => "Blackwell",
        }
    }

    pub fn hint_bits(self) -> (bits: u32)
        ensures
            bits == spec_hint_bits(self),
    {
        proof {
            lemma_hint_bit_values();
        }
        match self {
            NvidiaArchitecture::Turing => NVIDIA_ARCHITECTURE_TURING_OR_NEWER
                | NVIDIA_ARCHITECTURE_TURING,
            NvidiaArchitecture::Ampere => NVIDIA_ARCHITECTURE_TURING_OR_NEWER
                | NVIDIA_ARCHITECTURE_AMPERE,
            NvidiaArchitecture::Hopper => NVIDIA_ARCHITECTURE_TURING_OR_NEWER
                | NVIDIA_ARCHITECTURE_HOPPER,
            NvidiaArchitecture::Ada => NVIDIA_ARCHITECTURE_TURING_OR_NEWER | NVIDIA_ARCHITECTURE_ADA,
            NvidiaArchitecture::Blackwell => NVIDIA_ARCHITECTURE_TURING_OR_NEWER
                | NVIDIA_ARCHITECTURE_BLACKWELL,
        }
    }
}

/// Classifies only PCI device-ID bands whose NVIDIA architecture is known.
pub fn nvidia_architecture(device_id: u16) -> (arch: Option<NvidiaArchitecture>)
    ensures
        arch == spec_nvidia_architecture(device_id),
{
    if (0x1e00 <= device_id && device_id <= 0x1fff) || (0x2180 <= device_id && device_id
        <= 0x21ff) {
        Some(NvidiaArchitecture::Turing)
    } else if (0x2000 <= device_id && device_id <= 0x20ff) || (0x2200 <= device_id && device_id
        <= 0x22ff) || (0x2400 <= device_id && device_id <= 0x25ff) {
        Some(NvidiaArchitecture::Ampere)
    } else if 0x2300 <= device_id && device_id <= 0x23ff {
        Some(NvidiaArchitecture::Hopper)
    } else if 0x2600 <= device_id && device_id <= 0x28ff {
        Some(NvidiaArchitecture::Ada)
    } else if 0x2900 <= device_id && device_id <= 0x2fff {
        Some(NvidiaArchitecture::Blackwell)
    } else {
        None
    }
}

proof fn lemma_hint_bit_values()
    by (bit_vector)
    ensures
        1u32 | 0x100u32 == 0x101u32,
        1u32 | 0x200u32 == 0x201u32,
        1u32 | 0x400u32 == 0x401u32,
        1u32 | 0x800u32 == 0x801u32,
        1u32 | 0x1000u32 == 0x1001u32,
{
}

pub open spec fn spec_nvidia_architecture_hint(device_id: u16) -> u32 {
    match spec_nvidia_architecture(device_id) {
        Some(arch) => spec_hint_bits(arch),
        None => 0,
    }
}

/// Architecture hint bits of a device ID (0 for unknown IDs).
pub fn nvidia_architecture_hint(device_id: u16) -> (bits: u32)
    ensures
        bits == spec_nvidia_architecture_hint(device_id),
{
    match nvidia_architecture(device_id) {
        Some(arch) => arch.hint_bits(),
        None => 0,
    }
}

/// True exactly for device IDs of a known Turing-or-newer band.
pub fn is_nvidia_turing_or_newer(device_id: u16) -> (b: bool)
    ensures
        b == spec_nvidia_architecture(device_id).is_some(),
{
    nvidia_architecture(device_id).is_some()
}

/// Why a PCI function was refused by admission.
#[derive(Clone, Copy, Debug, PartialEq, Eq, Structural)]
pub enum AdmissionError {
    NotNvidia,
    NotDisplayController,
    UnsupportedArchitecture,
    InvalidIdentity,
}

pub open spec fn spec_admission_fault(e: AdmissionError) -> HermesFault {
    match e {
        AdmissionError::NotNvidia => HermesFault::NotNvidia,
        AdmissionError::NotDisplayController => HermesFault::NotDisplayController,
        AdmissionError::UnsupportedArchitecture => HermesFault::UnsupportedArchitecture,
        AdmissionError::InvalidIdentity => HermesFault::CompatibilityRejected,
    }
}

impl From<AdmissionError> for HermesFault {
    fn from(value: AdmissionError) -> (r: Self) {
        match value {
            AdmissionError::NotNvidia => HermesFault::NotNvidia,
            AdmissionError::NotDisplayController => HermesFault::NotDisplayController,
            AdmissionError::UnsupportedArchitecture => HermesFault::UnsupportedArchitecture,
            AdmissionError::InvalidIdentity => HermesFault::CompatibilityRejected,
        }
    }
}

impl vstd::std_specs::convert::FromSpecImpl<AdmissionError> for HermesFault {
    open spec fn obeys_from_spec() -> bool {
        true
    }

    open spec fn from_spec(v: AdmissionError) -> Self {
        spec_admission_fault(v)
    }
}

/// A device that has passed structural PCI + Turing+ gates (not yet online).
#[derive(Clone, Copy, Debug, PartialEq, Eq, Structural)]
pub struct AdmittedDevice {
    pub identity: HermesPciIdentity,
    pub architecture: NvidiaArchitecture,
}

/// The outcome of generic NVIDIA admission, in the order the gates are applied.
pub open spec fn spec_admit_nvidia(identity: HermesPciIdentity) -> Result<
    AdmittedDevice,
    AdmissionError,
> {
    if identity.vendor_id == 0 || identity.vendor_id == 0xffff || identity.device_id == 0xffff {
        Err(AdmissionError::InvalidIdentity)
    } else if identity.vendor_id != NVIDIA_VENDOR_ID {
        Err(AdmissionError::NotNvidia)
    } else {
        match spec_nvidia_architecture(identity.device_id) {
            Some(arch) => Ok(AdmittedDevice { identity, architecture: arch }),
            None => Err(AdmissionError::UnsupportedArchitecture),
        }
    }
}

/// Display admission: generic admission, then the display-class gate.
pub open spec fn spec_admit_display(identity: HermesPciIdentity) -> Result<
    AdmittedDevice,
    AdmissionError,
> {
    match spec_admit_nvidia(identity) {
        Ok(a) => if identity.class_code != PCI_CLASS_DISPLAY {
            Err(AdmissionError::NotDisplayController)
        } else {
            Ok(a)
        },
        Err(e) => Err(e),
    }
}

fn validate_identity(identity: &HermesPciIdentity) -> (r: Result<(), AdmissionError>)
    ensures
        r is Err <==> (identity.vendor_id == 0 || identity.vendor_id == 0xffff
            || identity.device_id == 0xffff),
        r is Err ==> r == Err::<(), AdmissionError>(AdmissionError::InvalidIdentity),
{
    if identity.vendor_id == 0 || identity.vendor_id == 0xffff {
        return Err(AdmissionError::InvalidIdentity);
    }
    if identity.device_id == 0xffff {
        return Err(AdmissionError::InvalidIdentity);
    }
    Ok(())
}

/// Admit any NVIDIA Turing+ device (display class preferred for graphics path).
pub fn admit_nvidia_device(identity: &HermesPciIdentity) -> (r: Result<
    AdmittedDevice,
    AdmissionError,
>)
    ensures
        r == spec_admit_nvidia(*identity),
{
    validate_identity(identity)?;
    if identity.vendor_id != NVIDIA_VENDOR_ID {
        return Err(AdmissionError::NotNvidia);
    }
    let architecture = match nvidia_architecture(identity.device_id) {
        Some(a) => a,
        None => return Err(AdmissionError::UnsupportedArchitecture),
    };
    if !is_nvidia_turing_or_newer(identity.device_id) {
        return Err(AdmissionError::UnsupportedArchitecture);
    }
    Ok(AdmittedDevice { identity: *identity, architecture })
}

/// Admit an NVIDIA Turing+ display controller (class 0x03).
pub fn admit_display_device(identity: &HermesPciIdentity) -> (r: Result<
    AdmittedDevice,
    AdmissionError,
>)
    ensures
        r == spec_admit_display(*identity),
{
    let admitted = admit_nvidia_device(identity)?;
    if identity.class_code != PCI_CLASS_DISPLAY {
        return Err(AdmissionError::NotDisplayController);
    }
    Ok(admitted)
}

/// Build a HermesPciIdentity with the given IDs and every other field zero.
pub fn pci_identity(vendor_id: u16, device_id: u16, class_code: u8, subclass: u8) -> (id:
    HermesPciIdentity)
    ensures
        id == (HermesPciIdentity {
            segment: 0,
            bus: 0,
            slot: 0,
            function: 0,
            revision: 0,
            vendor_id,
            device_id,
            subsystem_vendor_id: 0,
            subsystem_device_id: 0,
            class_code,
            subclass,
            programming_interface: 0,
            reserved: 0,
        }),
{
    HermesPciIdentity {
        segment: 0,
        bus: 0,
        slot: 0,
        function: 0,
        revision: 0,
        vendor_id,
        device_id,
        subsystem_vendor_id: 0,
        subsystem_device_id: 0,
        class_code,
        subclass,
        programming_interface: 0,
        reserved: 0,
    }
}

/// Admission law: every admitted device is an NVIDIA Turing-or-newer function whose
/// recorded architecture is the one its device ID band names, and display admission
/// additionally guarantees the display class.
pub proof fn admission_only_turing_plus_nvidia(identity: HermesPciIdentity)
    ensures
        spec_admit_nvidia(identity) matches Ok(a) ==> {
            &&& a.identity == identity
            &&& identity.vendor_id == NVIDIA_VENDOR_ID
            &&& spec_nvidia_architecture(identity.device_id) == Some(a.architecture)
        },
        spec_admit_display(identity) is Ok ==> identity.class_code == PCI_CLASS_DISPLAY
            && spec_admit_nvidia(identity) == spec_admit_display(identity),
{
}


/// Generation law: a device ID is classified by the band it lies in, and only
/// by it: 0x1e00-0x1fff and 0x2180-0x21ff are Turing (hint bits 0x101);
/// 0x2000-0x20ff, 0x2200-0x22ff and 0x2400-0x25ff are Ampere (0x201);
/// 0x2300-0x23ff is Hopper (0x401); 0x2600-0x28ff is Ada (0x801);
/// 0x2900-0x2fff is Blackwell (0x1001); every other ID is unknown, with no
/// hint bits.
pub proof fn architecture_bands(device_id: u16)
    ensures
        spec_nvidia_architecture(device_id) == Some(NvidiaArchitecture::Turing) <==> (0x1e00
            <= device_id <= 0x1fff || 0x2180 <= device_id <= 0x21ff),
        spec_nvidia_architecture(device_id) == Some(NvidiaArchitecture::Ampere) <==> (0x2000
            <= device_id <= 0x20ff || 0x2200 <= device_id <= 0x22ff || 0x2400 <= device_id
            <= 0x25ff),
        spec_nvidia_architecture(device_id) == Some(NvidiaArchitecture::Hopper) <==> 0x2300
            <= device_id <= 0x23ff,
        spec_nvidia_architecture(device_id) == Some(NvidiaArchitecture::Ada) <==> 0x2600
            <= device_id <= 0x28ff,
        spec_nvidia_architecture(device_id) == Some(NvidiaArchitecture::Blackwell) <==> 0x2900
            <= device_id <= 0x2fff,
        spec_nvidia_architecture(device_id) is None <==> !(0x1e00 <= device_id <= 0x2fff) || (
        0x2100 <= device_id <= 0x217f),
        0x1e00 <= device_id <= 0x1fff || 0x2180 <= device_id <= 0x21ff
            ==> spec_nvidia_architecture_hint(device_id) == 0x101,
        0x2000 <= device_id <= 0x20ff || 0x2200 <= device_id <= 0x22ff || 0x2400 <= device_id
            <= 0x25ff ==> spec_nvidia_architecture_hint(device_id) == 0x201,
        0x2300 <= device_id <= 0x23ff ==> spec_nvidia_architecture_hint(device_id) == 0x401,
        0x2600 <= device_id <= 0x28ff ==> spec_nvidia_architecture_hint(device_id) == 0x801,
        0x2900 <= device_id <= 0x2fff ==> spec_nvidia_architecture_hint(device_id) == 0x1001,
        spec_nvidia_architecture(device_id) is None ==> spec_nvidia_architecture_hint(device_id)
            == 0,
{
    lemma_hint_bit_values();
}

} // verus!
