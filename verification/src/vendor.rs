//! GPU architecture classification by vendor and PCI device id, for the
//! vendors a host census can meet besides NVIDIA.

use vstd::prelude::*;

use crate::pci::NvidiaArchitecture;

verus! {

pub const AMD_VENDOR_ID: u16 = 0x1002;

pub const INTEL_VENDOR_ID: u16 = 0x8086;

#[derive(Clone, Copy, Debug, PartialEq, Eq, Structural)]
pub enum AmdArchitecture {
    RDNA,
    RDNA2,
    RDNA3,
    CDNA,
    CDNA2,
    CDNA3,
}

#[derive(Clone, Copy, Debug, PartialEq, Eq, Structural)]
pub enum IntelArchitecture {
    Gen9,
    Gen11,
    Gen12,
    Xe,
    Arc,
}

/// AMD device-id bands of each architecture; anything else is unknown.
pub open spec fn spec_amd_architecture(device_id: u16) -> Option<AmdArchitecture> {
    if (0x7310 <= device_id <= 0x731f) || (0x7340 <= device_id <= 0x734f) {
        Some(AmdArchitecture::RDNA)
    } else if 0x73a0 <= device_id <= 0x73df {
        Some(AmdArchitecture::RDNA2)
    } else if 0x7440 <= device_id <= 0x749f {
        Some(AmdArchitecture::RDNA3)
    } else if 0x7380 <= device_id <= 0x739f {
        Some(AmdArchitecture::CDNA)
    } else if 0x7400 <= device_id <= 0x743f {
        Some(AmdArchitecture::CDNA2)
    } else if 0x74a0 <= device_id <= 0x74df {
        Some(AmdArchitecture::CDNA3)
    } else {
        None
    }
}

pub fn amd_architecture(device_id: u16) -> (a: Option<AmdArchitecture>)
    ensures
        a == spec_amd_architecture(device_id),
{
    if (0x7310 <= device_id && device_id <= 0x731f) || (0x7340 <= device_id && device_id <= 0x734f) {
        Some(AmdArchitecture::RDNA)
    } else if 0x73a0 <= device_id && device_id <= 0x73df {
        Some(AmdArchitecture::RDNA2)
    } else if 0x7440 <= device_id && device_id <= 0x749f {
        Some(AmdArchitecture::RDNA3)
    } else if 0x7380 <= device_id && device_id <= 0x739f {
        Some(AmdArchitecture::CDNA)
    } else if 0x7400 <= device_id && device_id <= 0x743f {
        Some(AmdArchitecture::CDNA2)
    } else if 0x74a0 <= device_id && device_id <= 0x74df {
        Some(AmdArchitecture::CDNA3)
    } else {
        None
    }
}

/// Intel device-id bands of each architecture; anything else is unknown.
pub open spec fn spec_intel_architecture(device_id: u16) -> Option<IntelArchitecture> {
    if 0x3e00 <= device_id <= 0x3eff {
        Some(IntelArchitecture::Gen9)
    } else if 0x8a00 <= device_id <= 0x8aff {
        Some(IntelArchitecture::Gen11)
    } else if 0x4600 <= device_id <= 0x46ff {
        Some(IntelArchitecture::Gen12)
    } else if 0x4f00 <= device_id <= 0x4fff {
        Some(IntelArchitecture::Xe)
    } else if 0x5600 <= device_id <= 0x56ff {
        Some(IntelArchitecture::Arc)
    } else {
        None
    }
}

pub fn intel_architecture(device_id: u16) -> (a: Option<IntelArchitecture>)
    ensures
        a == spec_intel_architecture(device_id),
{
    if 0x3e00 <= device_id && device_id <= 0x3eff {
        Some(IntelArchitecture::Gen9)
    } else if 0x8a00 <= device_id && device_id <= 0x8aff {
        Some(IntelArchitecture::Gen11)
    } else if 0x4600 <= device_id && device_id <= 0x46ff {
        Some(IntelArchitecture::Gen12)
    } else if 0x4f00 <= device_id && device_id <= 0x4fff {
        Some(IntelArchitecture::Xe)
    } else if 0x5600 <= device_id && device_id <= 0x56ff {
        Some(IntelArchitecture::Arc)
    } else {
        None
    }
}

/// An architecture of any of the three vendors.
#[derive(Clone, Copy, Debug, PartialEq, Eq, Structural)]
pub enum VendorArchitecture {
    Nvidia(NvidiaArchitecture),
    Amd(AmdArchitecture),
    Intel(IntelArchitecture),
}

impl VendorArchitecture {
    pub fn as_str(self) -> (s: &'static str)
        ensures
            s@ == match self {
                VendorArchitecture::Nvidia(a) => match a {
                    NvidiaArchitecture::Turing => "Turing"@,
                    NvidiaArchitecture::Ampere => "Ampere"@,
                    NvidiaArchitecture::Hopper => "Hopper"@,
                    NvidiaArchitecture::Ada => "Ada"@,
                    NvidiaArchitecture::Blackwell => "Blackwell"@,
                },
                VendorArchitecture::Amd(a) => match a {
                    AmdArchitecture::RDNA => "RDNA"@,
                    AmdArchitecture::RDNA2 => "RDNA2"@,
                    AmdArchitecture::RDNA3 => "RDNA3"@,
                    AmdArchitecture::CDNA => "CDNA"@,
                    AmdArchitecture::CDNA2 => "CDNA2"@,
                    AmdArchitecture::CDNA3 => "CDNA3"@,
                },
                VendorArchitecture::Intel(a) => match a {
                    IntelArchitecture::Gen9 => "Gen9"@,
                    IntelArchitecture::Gen11 => "Gen11"@,
                    IntelArchitecture::Gen12 => "Gen12"@,
                    IntelArchitecture::Xe => "Xe"@,
                    IntelArchitecture::Arc => "Arc"@,
                },
            },
    {
        match self {
            VendorArchitecture::Nvidia(a) => a.as_str(),
            VendorArchitecture::Amd(a) => match a {
                AmdArchitecture::RDNA => "RDNA",
                AmdArchitecture::RDNA2 => "RDNA2",
                AmdArchitecture::RDNA3 => "RDNA3",
                AmdArchitecture::CDNA => "CDNA",
                AmdArchitecture::CDNA2 => "CDNA2",
                AmdArchitecture::CDNA3 => "CDNA3",
            },
            VendorArchitecture::Intel(a) => match a {
                IntelArchitecture::Gen9 => "Gen9",
                IntelArchitecture::Gen11 => "Gen11",
                IntelArchitecture::Gen12 => "Gen12",
                IntelArchitecture::Xe => "Xe",
                IntelArchitecture::Arc => "Arc",
            },
        }
    }
}

} // verus!
