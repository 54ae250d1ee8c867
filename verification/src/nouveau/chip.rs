//! Nouveau chip identities mapped onto Hermes architecture families.

use vstd::prelude::*;

use crate::firmware::{firmware_family_for_device, spec_firmware_family, FirmwareFamily};
use crate::pci::{nvidia_architecture, spec_nvidia_architecture, NvidiaArchitecture};
use crate::text::str_eq;

verus! {

/// Chip directory names of Nouveau's GSP firmware tables.
#[derive(Clone, Copy, Debug, PartialEq, Eq, PartialOrd, Ord, Structural)]
pub enum NouveauChip {
    Tu102,
    Tu104,
    Tu106,
    Tu116,
    Tu117,
    Ga100,
    Ga102,
    Ga103,
    Ga104,
    Ga106,
    Ga107,
    Ad102,
    Ad103,
    Ad104,
    Ad106,
    Ad107,
    Gh100,
    Gb100,
    Gb102,
    Gb202,
    Gb203,
    Gb205,
    Gb206,
    Gb207,
}

/// The directory name of a chip.
pub open spec fn spec_chip_name(c: NouveauChip) -> Seq<char> {
    match c {
        NouveauChip::Tu102 => "tu102"@,
        NouveauChip::Tu104 => "tu104"@,
        NouveauChip::Tu106 => "tu106"@,
        NouveauChip::Tu116 => "tu116"@,
        NouveauChip::Tu117 => "tu117"@,
        NouveauChip::Ga100 => "ga100"@,
        NouveauChip::Ga102 => "ga102"@,
        NouveauChip::Ga103 => "ga103"@,
        NouveauChip::Ga104 => "ga104"@,
        NouveauChip::Ga106 => "ga106"@,
        NouveauChip::Ga107 => "ga107"@,
        NouveauChip::Ad102 => "ad102"@,
        NouveauChip::Ad103 => "ad103"@,
        NouveauChip::Ad104 => "ad104"@,
        NouveauChip::Ad106 => "ad106"@,
        NouveauChip::Ad107 => "ad107"@,
        NouveauChip::Gh100 => "gh100"@,
        NouveauChip::Gb100 => "gb100"@,
        NouveauChip::Gb102 => "gb102"@,
        NouveauChip::Gb202 => "gb202"@,
        NouveauChip::Gb203 => "gb203"@,
        NouveauChip::Gb205 => "gb205"@,
        NouveauChip::Gb206 => "gb206"@,
        NouveauChip::Gb207 => "gb207"@,
    }
}

/// The chip named `name`, if any.
pub open spec fn spec_chip_from_name(name: Seq<char>) -> Option<NouveauChip> {
    if name == "tu102"@ {
        Some(NouveauChip::Tu102)
    }
    else if name == "tu104"@ {
        Some(NouveauChip::Tu104)
    }
    else if name == "tu106"@ {
        Some(NouveauChip::Tu106)
    }
    else if name == "tu116"@ {
        Some(NouveauChip::Tu116)
    }
    else if name == "tu117"@ {
        Some(NouveauChip::Tu117)
    }
    else if name == "ga100"@ {
        Some(NouveauChip::Ga100)
    }
    else if name == "ga102"@ {
        Some(NouveauChip::Ga102)
    }
    else if name == "ga103"@ {
        Some(NouveauChip::Ga103)
    }
    else if name == "ga104"@ {
        Some(NouveauChip::Ga104)
    }
    else if name == "ga106"@ {
        Some(NouveauChip::Ga106)
    }
    else if name == "ga107"@ {
        Some(NouveauChip::Ga107)
    }
    else if name == "ad102"@ {
        Some(NouveauChip::Ad102)
    }
    else if name == "ad103"@ {
        Some(NouveauChip::Ad103)
    }
    else if name == "ad104"@ {
        Some(NouveauChip::Ad104)
    }
    else if name == "ad106"@ {
        Some(NouveauChip::Ad106)
    }
    else if name == "ad107"@ {
        Some(NouveauChip::Ad107)
    }
    else if name == "gh100"@ {
        Some(NouveauChip::Gh100)
    }
    else if name == "gb100"@ {
        Some(NouveauChip::Gb100)
    }
    else if name == "gb102"@ {
        Some(NouveauChip::Gb102)
    }
    else if name == "gb202"@ {
        Some(NouveauChip::Gb202)
    }
    else if name == "gb203"@ {
        Some(NouveauChip::Gb203)
    }
    else if name == "gb205"@ {
        Some(NouveauChip::Gb205)
    }
    else if name == "gb206"@ {
        Some(NouveauChip::Gb206)
    }
    else if name == "gb207"@ {
        Some(NouveauChip::Gb207)
    }
 else {
        None
    }
}

/// The chip that stores the GSP files of `c` after the firmware aliases.
pub open spec fn spec_firmware_canonical(c: NouveauChip) -> NouveauChip {
    match c {
        NouveauChip::Tu104 | NouveauChip::Tu106 => NouveauChip::Tu102,
        NouveauChip::Tu117 => NouveauChip::Tu116,
        NouveauChip::Ga103 | NouveauChip::Ga104 | NouveauChip::Ga106 | NouveauChip::Ga107 => NouveauChip::Ga102,
        NouveauChip::Ad103 | NouveauChip::Ad104 | NouveauChip::Ad106 | NouveauChip::Ad107 => NouveauChip::Ad102,
        NouveauChip::Gb102 => NouveauChip::Gb100,
        NouveauChip::Gb203 | NouveauChip::Gb205 | NouveauChip::Gb206 | NouveauChip::Gb207 => NouveauChip::Gb202,
        other => other,
    }
}

pub open spec fn spec_chip_family(c: NouveauChip) -> ChipFamily {
    match spec_firmware_canonical(c) {
        NouveauChip::Tu102 | NouveauChip::Tu116 => ChipFamily::Turing,
        NouveauChip::Ga100 => ChipFamily::AmpereGa100,
        NouveauChip::Ga102 => ChipFamily::AmpereGa10x,
        NouveauChip::Ad102 => ChipFamily::Ada,
        NouveauChip::Gh100 => ChipFamily::Hopper,
        NouveauChip::Gb100 | NouveauChip::Gb202 => ChipFamily::Blackwell,
        _ => ChipFamily::Turing,
    }
}

impl NouveauChip {
    pub fn as_str(self) -> (s: &'static str)
        ensures
            s@ == spec_chip_name(self),
    {
        match self {
            NouveauChip::Tu102 => "tu102",
            NouveauChip::Tu104 => "tu104",
            NouveauChip::Tu106 => "tu106",
            NouveauChip::Tu116 => "tu116",
            NouveauChip::Tu117 => "tu117",
            NouveauChip::Ga100 => "ga100",
            NouveauChip::Ga102 => "ga102",
            NouveauChip::Ga103 => "ga103",
            NouveauChip::Ga104 => "ga104",
            NouveauChip::Ga106 => "ga106",
            NouveauChip::Ga107 => "ga107",
            NouveauChip::Ad102 => "ad102",
            NouveauChip::Ad103 => "ad103",
            NouveauChip::Ad104 => "ad104",
            NouveauChip::Ad106 => "ad106",
            NouveauChip::Ad107 => "ad107",
            NouveauChip::Gh100 => "gh100",
            NouveauChip::Gb100 => "gb100",
            NouveauChip::Gb102 => "gb102",
            NouveauChip::Gb202 => "gb202",
            NouveauChip::Gb203 => "gb203",
            NouveauChip::Gb205 => "gb205",
            NouveauChip::Gb206 => "gb206",
            NouveauChip::Gb207 => "gb207",
        }
    }

    /// The chip of a directory name; any other name is none.
    pub fn from_str_name(name: &str) -> (c: Option<Self>)
        ensures
            c == spec_chip_from_name(name@),
    {
        if str_eq(name, "tu102") {
            return Some(NouveauChip::Tu102);
        }
        if str_eq(name, "tu104") {
            return Some(NouveauChip::Tu104);
        }
        if str_eq(name, "tu106") {
            return Some(NouveauChip::Tu106);
        }
        if str_eq(name, "tu116") {
            return Some(NouveauChip::Tu116);
        }
        if str_eq(name, "tu117") {
            return Some(NouveauChip::Tu117);
        }
        if str_eq(name, "ga100") {
            return Some(NouveauChip::Ga100);
        }
        if str_eq(name, "ga102") {
            return Some(NouveauChip::Ga102);
        }
        if str_eq(name, "ga103") {
            return Some(NouveauChip::Ga103);
        }
        if str_eq(name, "ga104") {
            return Some(NouveauChip::Ga104);
        }
        if str_eq(name, "ga106") {
            return Some(NouveauChip::Ga106);
        }
        if str_eq(name, "ga107") {
            return Some(NouveauChip::Ga107);
        }
        if str_eq(name, "ad102") {
            return Some(NouveauChip::Ad102);
        }
        if str_eq(name, "ad103") {
            return Some(NouveauChip::Ad103);
        }
        if str_eq(name, "ad104") {
            return Some(NouveauChip::Ad104);
        }
        if str_eq(name, "ad106") {
            return Some(NouveauChip::Ad106);
        }
        if str_eq(name, "ad107") {
            return Some(NouveauChip::Ad107);
        }
        if str_eq(name, "gh100") {
            return Some(NouveauChip::Gh100);
        }
        if str_eq(name, "gb100") {
            return Some(NouveauChip::Gb100);
        }
        if str_eq(name, "gb102") {
            return Some(NouveauChip::Gb102);
        }
        if str_eq(name, "gb202") {
            return Some(NouveauChip::Gb202);
        }
        if str_eq(name, "gb203") {
            return Some(NouveauChip::Gb203);
        }
        if str_eq(name, "gb205") {
            return Some(NouveauChip::Gb205);
        }
        if str_eq(name, "gb206") {
            return Some(NouveauChip::Gb206);
        }
        if str_eq(name, "gb207") {
            return Some(NouveauChip::Gb207);
        }
        None
    }

    /// The chip whose directory holds this chip's GSP files.
    pub fn firmware_canonical(self) -> (c: Self)
        ensures
            c == spec_firmware_canonical(self),
    {
        match self {
            NouveauChip::Tu104 | NouveauChip::Tu106 => NouveauChip::Tu102,
            NouveauChip::Tu117 => NouveauChip::Tu116,
            NouveauChip::Ga103 | NouveauChip::Ga104 | NouveauChip::Ga106 | NouveauChip::Ga107 => NouveauChip::Ga102,
            NouveauChip::Ad103 | NouveauChip::Ad104 | NouveauChip::Ad106 | NouveauChip::Ad107 => NouveauChip::Ad102,
            NouveauChip::Gb102 => NouveauChip::Gb100,
            NouveauChip::Gb203 | NouveauChip::Gb205 | NouveauChip::Gb206 | NouveauChip::Gb207 => NouveauChip::Gb202,
            other => other,
        }
    }

    pub fn family(self) -> (f: ChipFamily)
        ensures
            f == spec_chip_family(self),
    {
        match self.firmware_canonical() {
            NouveauChip::Tu102 | NouveauChip::Tu116 => ChipFamily::Turing,
            NouveauChip::Ga100 => ChipFamily::AmpereGa100,
            NouveauChip::Ga102 => ChipFamily::AmpereGa10x,
            NouveauChip::Ad102 => ChipFamily::Ada,
            NouveauChip::Gh100 => ChipFamily::Hopper,
            NouveauChip::Gb100 | NouveauChip::Gb202 => ChipFamily::Blackwell,
            _ => ChipFamily::Turing,
        }
    }

    /// Hopper and Blackwell chips boot through FMC.
    pub fn uses_fmc(self) -> (b: bool)
        ensures
            b == (spec_firmware_canonical(self) == NouveauChip::Gh100 || spec_firmware_canonical(
                self,
            ) == NouveauChip::Gb100 || spec_firmware_canonical(self) == NouveauChip::Gb202),
    {
        match self.firmware_canonical() {
            NouveauChip::Gh100 | NouveauChip::Gb100 | NouveauChip::Gb202 => true,
            _ => false,
        }
    }
}

/// The canonical chip of a canonical chip is itself.
pub proof fn firmware_canonical_is_idempotent(c: NouveauChip)
    ensures
        spec_firmware_canonical(spec_firmware_canonical(c)) == spec_firmware_canonical(c),
        spec_chip_family(spec_firmware_canonical(c)) == spec_chip_family(c),
{
}

#[derive(Clone, Copy, Debug, PartialEq, Eq, Structural)]
pub enum ChipFamily {
    Turing,
    AmpereGa100,
    AmpereGa10x,
    Ada,
    Hopper,
    Blackwell,
}

impl ChipFamily {
    pub fn hermes_architecture(self) -> (a: NvidiaArchitecture)
        ensures
            a == match self {
                ChipFamily::Turing => NvidiaArchitecture::Turing,
                ChipFamily::AmpereGa100 | ChipFamily::AmpereGa10x => NvidiaArchitecture::Ampere,
                ChipFamily::Ada => NvidiaArchitecture::Ada,
                ChipFamily::Hopper => NvidiaArchitecture::Hopper,
                ChipFamily::Blackwell => NvidiaArchitecture::Blackwell,
            },
    {
        match self {
            ChipFamily::Turing => NvidiaArchitecture::Turing,
            ChipFamily::AmpereGa100 | ChipFamily::AmpereGa10x => NvidiaArchitecture::Ampere,
            ChipFamily::Ada => NvidiaArchitecture::Ada,
            ChipFamily::Hopper => NvidiaArchitecture::Hopper,
            ChipFamily::Blackwell => NvidiaArchitecture::Blackwell,
        }
    }

    /// Turing and GA100 run the TU10x GSP-RM image, every later family GA10x.
    pub fn gsp_rm_family(self) -> (f: FirmwareFamily)
        ensures
            f == match self {
                ChipFamily::Turing | ChipFamily::AmpereGa100 => FirmwareFamily::Tu10x,
                _ => FirmwareFamily::Ga10x,
            },
    {
        match self {
            ChipFamily::Turing | ChipFamily::AmpereGa100 => FirmwareFamily::Tu10x,
            _ => FirmwareFamily::Ga10x,
        }
    }
}

/// Best-effort chip of a PCI device id from the Hermes architecture bands.
pub open spec fn spec_chip_hint(device_id: u16) -> Option<NouveauChip> {
    match spec_nvidia_architecture(device_id) {
        None => None,
        Some(arch) => if spec_firmware_family(device_id) is None {
            None
        } else {
            Some(
                match arch {
                    NvidiaArchitecture::Turing => NouveauChip::Tu102,
                    NvidiaArchitecture::Ampere => if 0x2000 <= device_id <= 0x20ff {
                        NouveauChip::Ga100
                    } else {
                        NouveauChip::Ga102
                    },
                    NvidiaArchitecture::Hopper => NouveauChip::Gh100,
                    NvidiaArchitecture::Ada => NouveauChip::Ad102,
                    NvidiaArchitecture::Blackwell => NouveauChip::Gb202,
                },
            )
        },
    }
}

pub fn chip_hint_from_device_id(device_id: u16) -> (c: Option<NouveauChip>)
    ensures
        c == spec_chip_hint(device_id),
{
    let arch = match nvidia_architecture(device_id) {
        Some(a) => a,
        None => {
            return None;
        },
    };
    if firmware_family_for_device(device_id).is_none() {
        return None;
    }
    Some(
        match arch {
            NvidiaArchitecture::Turing => NouveauChip::Tu102,
            NvidiaArchitecture::Ampere => if 0x2000 <= device_id && device_id <= 0x20ff {
                NouveauChip::Ga100
            } else {
                NouveauChip::Ga102
            },
            NvidiaArchitecture::Hopper => NouveauChip::Gh100,
            NvidiaArchitecture::Ada => NouveauChip::Ad102,
            NvidiaArchitecture::Blackwell => NouveauChip::Gb202,
        },
    )
}


} // verus!

