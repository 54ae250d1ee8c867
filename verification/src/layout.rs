//! linux-firmware / OpenRM path layout for GSP artifacts:
//! versioned OpenRM `nvidia/<ver>/gsp_{tu10x,ga10x}.bin` and the chip tree
//! `nvidia/<chip>/gsp/gsp-<driver>.bin` with WHENCE aliases.
use vstd::prelude::*;
use vstd::string::*;

use crate::firmware::FirmwareFamily;
use crate::pci::NvidiaArchitecture;

verus! {

/// Chip directory names used under `/lib/firmware/nvidia/`.
#[derive(Clone, Copy, Debug, PartialEq, Eq, Structural)]
pub enum NvidiaChipDir {
    Tu102,
    Tu104,
    Tu106,
    Tu116,
    Tu117,
    Ga100,
    Ga102,
    Ga103,
    Ga104,
    Ga106,
    Ga107,
    Ad102,
    Gh100,
    Gb100,
    Gb202,
}

pub open spec fn spec_chip_name(c: NvidiaChipDir) -> Seq<char> {
    match c {
        NvidiaChipDir::Tu102 => "tu102"@,
        NvidiaChipDir::Tu104 => "tu104"@,
        NvidiaChipDir::Tu106 => "tu106"@,
        NvidiaChipDir::Tu116 => "tu116"@,
        NvidiaChipDir::Tu117 => "tu117"@,
        NvidiaChipDir::Ga100 => "ga100"@,
        NvidiaChipDir::Ga102 => "ga102"@,
        NvidiaChipDir::Ga103 => "ga103"@,
        NvidiaChipDir::Ga104 => "ga104"@,
        NvidiaChipDir::Ga106 => "ga106"@,
        NvidiaChipDir::Ga107 => "ga107"@,
        NvidiaChipDir::Ad102 => "ad102"@,
        NvidiaChipDir::Gh100 => "gh100"@,
        NvidiaChipDir::Gb100 => "gb100"@,
        NvidiaChipDir::Gb202 => "gb202"@,
    }
}

pub open spec fn spec_gsp_canonical(c: NvidiaChipDir) -> NvidiaChipDir {
    match c {
        NvidiaChipDir::Tu104 | NvidiaChipDir::Tu106 => NvidiaChipDir::Tu102,
        NvidiaChipDir::Tu117 => NvidiaChipDir::Tu116,
        NvidiaChipDir::Ga103 | NvidiaChipDir::Ga104 | NvidiaChipDir::Ga106 | NvidiaChipDir::Ga107 =>
            NvidiaChipDir::Ga102,
        other => other,
    }
}

pub open spec fn spec_chip_family(c: NvidiaChipDir) -> FirmwareFamily {
    match spec_gsp_canonical(c) {
        NvidiaChipDir::Tu102 | NvidiaChipDir::Tu116 | NvidiaChipDir::Ga100 => FirmwareFamily::Tu10x,
        _ => FirmwareFamily::Ga10x,
    }
}

impl NvidiaChipDir {
    pub fn as_str(self) -> (s: &'static str)
        ensures
            s@ == spec_chip_name(self),
    {
        match self {
            NvidiaChipDir::Tu102 => "tu102",
            NvidiaChipDir::Tu104 => "tu104",
            NvidiaChipDir::Tu106 => "tu106",
            NvidiaChipDir::Tu116 => "tu116",
            NvidiaChipDir::Tu117 => "tu117",
            NvidiaChipDir::Ga100 => "ga100",
            NvidiaChipDir::Ga102 => "ga102",
            NvidiaChipDir::Ga103 => "ga103",
            NvidiaChipDir::Ga104 => "ga104",
            NvidiaChipDir::Ga106 => "ga106",
            NvidiaChipDir::Ga107 => "ga107",
            NvidiaChipDir::Ad102 => "ad102",
            NvidiaChipDir::Gh100 => "gh100",
            NvidiaChipDir::Gb100 => "gb100",
            NvidiaChipDir::Gb202 => "gb202",
        }
    }

    /// WHENCE-resolved chip that actually holds the GSP files (after symlink).
    pub fn gsp_canonical(self) -> (c: Self)
        ensures
            c == spec_gsp_canonical(self),
    {
        match self {
            NvidiaChipDir::Tu104 | NvidiaChipDir::Tu106 => NvidiaChipDir::Tu102,
            NvidiaChipDir::Tu117 => NvidiaChipDir::Tu116,
            NvidiaChipDir::Ga103 | NvidiaChipDir::Ga104 | NvidiaChipDir::Ga106
            | NvidiaChipDir::Ga107 => NvidiaChipDir::Ga102,
            other => other,
        }
    }

    pub fn firmware_family(self) -> (f: FirmwareFamily)
        ensures
            f == spec_chip_family(self),
    {
        match self.gsp_canonical() {
            NvidiaChipDir::Tu102 | NvidiaChipDir::Tu116 | NvidiaChipDir::Ga100 =>
                FirmwareFamily::Tu10x,
            _ => FirmwareFamily::Ga10x,
        }
    }
}

/// Canonical chips are fixed points of the WHENCE alias map.
pub proof fn canonical_is_idempotent(c: NvidiaChipDir)
    ensures
        spec_gsp_canonical(spec_gsp_canonical(c)) == spec_gsp_canonical(c),
        spec_chip_family(spec_gsp_canonical(c)) == spec_chip_family(c),
{
}

pub open spec fn spec_chip_for_architecture(arch: NvidiaArchitecture) -> NvidiaChipDir {
    match arch {
        NvidiaArchitecture::Turing => NvidiaChipDir::Tu102,
        NvidiaArchitecture::Ampere => NvidiaChipDir::Ga102,
        NvidiaArchitecture::Hopper => NvidiaChipDir::Gh100,
        NvidiaArchitecture::Ada => NvidiaChipDir::Ad102,
        NvidiaArchitecture::Blackwell => NvidiaChipDir::Gb202,
    }
}

/// Map architecture class to a representative chip directory for firmware lookup.
pub fn chip_for_architecture(arch: NvidiaArchitecture) -> (c: NvidiaChipDir)
    ensures
        c == spec_chip_for_architecture(arch),
{
    match arch {
        NvidiaArchitecture::Turing => NvidiaChipDir::Tu102,
        NvidiaArchitecture::Ampere => NvidiaChipDir::Ga102,
        NvidiaArchitecture::Hopper => NvidiaChipDir::Gh100,
        NvidiaArchitecture::Ada => NvidiaChipDir::Ad102,
        NvidiaArchitecture::Blackwell => NvidiaChipDir::Gb202,
    }
}

pub open spec fn spec_gsp_basename(family: FirmwareFamily) -> Seq<char> {
    match family {
        FirmwareFamily::Tu10x => "gsp_tu10x.bin"@,
        FirmwareFamily::Ga10x => "gsp_ga10x.bin"@,
    }
}

/// OpenRM GSP-RM file name for a firmware line.
pub fn openrm_gsp_basename(family: FirmwareFamily) -> (s: &'static str)
    ensures
        s@ == spec_gsp_basename(family),
{
    match family {
        FirmwareFamily::Tu10x => "gsp_tu10x.bin",
        FirmwareFamily::Ga10x => "gsp_ga10x.bin",
    }
}

/// Relative path: `nvidia/<version>/gsp_tu10x.bin`.
pub fn openrm_gsp_relative(version: &str, family: FirmwareFamily) -> (s: String)
    ensures
        s@ == "nvidia/"@ + version@ + "/"@ + spec_gsp_basename(family),
{
    let mut s = String::from_str("nvidia/");
    s.append(version);
    s.append("/");
    s.append(openrm_gsp_basename(family));
    s
}

/// Chip-tree relative path: `nvidia/<canonical chip>/gsp/gsp-<driver>.bin`.
pub fn chip_gsp_relative(chip: NvidiaChipDir, driver: &str) -> (s: String)
    ensures
        s@ == "nvidia/"@ + spec_chip_name(spec_gsp_canonical(chip)) + "/gsp/gsp-"@ + driver@
            + ".bin"@,
{
    let canon = chip.gsp_canonical();
    let mut s = String::from_str("nvidia/");
    s.append(canon.as_str());
    s.append("/gsp/gsp-");
    s.append(driver);
    s.append(".bin");
    s
}

/// Auxiliary bootstrap image kinds.
#[derive(Clone, Copy, Debug, PartialEq, Eq, Structural)]
pub enum BootstrapArtifactKind {
    BooterLoad,
    BooterUnload,
    Bootloader,
    GenBootloader,
    Fmc,
    Scrubber,
}

impl BootstrapArtifactKind {
    pub fn prefix(self) -> (s: &'static str)
        ensures
            s@ == (match self {
                BootstrapArtifactKind::BooterLoad => "booter_load-"@,
                BootstrapArtifactKind::BooterUnload => "booter_unload-"@,
                BootstrapArtifactKind::Bootloader => "bootloader-"@,
                BootstrapArtifactKind::GenBootloader => "gen_bootloader-"@,
                BootstrapArtifactKind::Fmc => "fmc-"@,
                BootstrapArtifactKind::Scrubber => "scrubber-"@,
            }),
    {
        match self {
            BootstrapArtifactKind::BooterLoad => "booter_load-",
            BootstrapArtifactKind::BooterUnload => "booter_unload-",
            BootstrapArtifactKind::Bootloader => "bootloader-",
            BootstrapArtifactKind::GenBootloader => "gen_bootloader-",
            BootstrapArtifactKind::Fmc => "fmc-",
            BootstrapArtifactKind::Scrubber => "scrubber-",
        }
    }
}

/// Turing bootstrap artifacts in load order.
pub fn turing_bootstrap_kinds() -> (v: Vec<BootstrapArtifactKind>)
    ensures
        v@ == seq![
            BootstrapArtifactKind::GenBootloader,
            BootstrapArtifactKind::Bootloader,
            BootstrapArtifactKind::BooterLoad,
            BootstrapArtifactKind::BooterUnload,
        ],
{
    let v = vec![
        BootstrapArtifactKind::GenBootloader,
        BootstrapArtifactKind::Bootloader,
        BootstrapArtifactKind::BooterLoad,
        BootstrapArtifactKind::BooterUnload,
    ];
    assert(v@ =~= seq![
        BootstrapArtifactKind::GenBootloader,
        BootstrapArtifactKind::Bootloader,
        BootstrapArtifactKind::BooterLoad,
        BootstrapArtifactKind::BooterUnload,
    ]);
    v
}

} // verus!
