//! Structural admission of NVIDIA GSP-RM ELF images (RISC-V relocatable):
//! ELF64 little-endian, ET_REL, EM_RISCV, a `.fwimage` PROGBITS section, a
//! bounded `.fwversion` section, and optional `.fwsignature*` sections.
use vstd::prelude::*;

use crate::fault::HermesFault;

verus! {

/// Structural facts extracted from a GSP-RM ELF image.
#[derive(Clone, Copy, Debug, PartialEq, Eq, Structural)]
pub struct GspElfEvidence {
    pub fwimage_offset: u64,
    pub fwimage_size: u64,
    pub fwversion_offset: u64,
    pub fwversion_size: u16,
    pub signature_sections: u8,
    pub machine: u16,
}

pub open spec fn le16(s: Seq<u8>, at: int) -> int {
    s[at] + s[at + 1] * 256
}

pub open spec fn le32(s: Seq<u8>, at: int) -> int {
    le16(s, at) + le16(s, at + 2) * 65536
}

pub open spec fn le64(s: Seq<u8>, at: int) -> int {
    le32(s, at) + le32(s, at + 4) * 4294967296
}

fn read_le16(b: &[u8], at: usize) -> (v: u16)
    requires
        at + 2 <= b@.len(),
    ensures
        v == le16(b@, at as int),
{
    b[at] as u16 + (b[at + 1] as u16) * 256
}

fn read_le32(b: &[u8], at: usize) -> (v: u32)
    requires
        at + 4 <= b.len(),
    ensures
        v == le32(b@, at as int),
{
    read_le16(b, at) as u32 + (read_le16(b, at + 2) as u32) * 65536
}

fn read_le64(b: &[u8], at: usize) -> (v: u64)
    requires
        at + 8 <= b.len(),
    ensures
        v == le64(b@, at as int),
{
    read_le32(b, at) as u64 + (read_le32(b, at + 4) as u64) * 4294967296
}

/// The section header fields the structural check reads.
#[derive(Clone, Copy, Debug, PartialEq, Eq, Structural)]
pub struct SectionHeader {
    pub sh_name: u32,
    pub sh_type: u32,
    pub sh_offset: u64,
    pub sh_size: u64,
}

pub open spec fn spec_section_at(s: Seq<u8>, off: int) -> SectionHeader {
    SectionHeader {
        sh_name: le32(s, off) as u32,
        sh_type: le32(s, off + 4) as u32,
        sh_offset: le64(s, off + 24) as u64,
        sh_size: le64(s, off + 32) as u64,
    }
}

/// The section header at `index`, when its 64-byte record lies inside the image.
pub open spec fn spec_section_header(s: Seq<u8>, shoff: u64, shentsize: u64, index: u64) -> Option<
    SectionHeader,
> {
    let prod = (index as usize) * (shentsize as usize);
    let off = (shoff as usize) + prod;
    if prod > usize::MAX || off > usize::MAX || off + 64 > s.len() {
        None
    } else {
        Some(spec_section_at(s, off))
    }
}

fn section_header(image: &[u8], shoff: u64, shentsize: u64, index: u64) -> (r: Result<
    SectionHeader,
    HermesFault,
>)
    ensures
        r is Ok <==> spec_section_header(image@, shoff, shentsize, index) is Some,
        r is Ok ==> r->Ok_0 == spec_section_header(image@, shoff, shentsize, index)->Some_0,
        r is Err ==> r == Err::<SectionHeader, HermesFault>(HermesFault::FirmwareRejected),
{
    let prod = match (index as usize).checked_mul(shentsize as usize) {
        Some(p) => p,
        None => return Err(HermesFault::FirmwareRejected),
    };
    let off = match (shoff as usize).checked_add(prod) {
        Some(o) => o,
        None => return Err(HermesFault::FirmwareRejected),
    };
    if off > image.len() || image.len() - off < 64 {
        return Err(HermesFault::FirmwareRejected);
    }
    let sh_name = read_le32(image, off);
    let sh_type = read_le32(image, off + 4);
    let sh_offset = read_le64(image, off + 24);
    let sh_size = read_le64(image, off + 32);
    Ok(SectionHeader { sh_name, sh_type, sh_offset, sh_size })
}

/// Index of the first NUL in `s[from..end)`, or `end` when there is none.
pub open spec fn spec_nul_from(s: Seq<u8>, from: int, end: int) -> int
    decreases end - from,
{
    if from >= end {
        end
    } else if s[from] == 0 {
        from
    } else {
        spec_nul_from(s, from + 1, end)
    }
}

proof fn lemma_nul_from_bounds(s: Seq<u8>, from: int, end: int)
    requires
        from <= end,
    ensures
        from <= spec_nul_from(s, from, end) <= end,
        spec_nul_from(s, from, end) < end ==> s[spec_nul_from(s, from, end)] == 0,
        forall|k: int| from <= k < spec_nul_from(s, from, end) ==> s[k] != 0,
    decreases end - from,
{
    if from < end && s[from] != 0 {
        lemma_nul_from_bounds(s, from + 1, end);
    }
}

/// Name of a section as an image range `[start, end)` inside the string table `[so, se)`.
pub open spec fn spec_section_name(s: Seq<u8>, so: int, se: int, name_off: u32) -> Option<(int, int)> {
    if name_off >= se - so {
        None
    } else {
        Some((so + name_off, spec_nul_from(s, so + name_off, se)))
    }
}

fn section_name(image: &[u8], so: usize, se: usize, name_off: u32) -> (r: Result<
    (usize, usize),
    HermesFault,
>)
    requires
        so <= se <= image@.len(),
    ensures
        r is Ok <==> spec_section_name(image@, so as int, se as int, name_off) is Some,
        r matches Ok((a, b)) ==> (a as int, b as int) == spec_section_name(
            image@,
            so as int,
            se as int,
            name_off,
        )->Some_0,
        r is Err ==> r == Err::<(usize, usize), HermesFault>(HermesFault::FirmwareRejected),
{
    if name_off as usize >= se - so {
        return Err(HermesFault::FirmwareRejected);
    }
    let start = so + name_off as usize;
    let mut end = start;
    while end < se && image[end] != 0
        invariant
            so <= start <= end <= se <= image@.len(),
            spec_nul_from(image@, start as int, se as int) == spec_nul_from(
                image@,
                end as int,
                se as int,
            ),
        decreases se - end,
    {
        end = end + 1;
    }
    Ok((start, end))
}

pub open spec fn fwimage_name() -> Seq<u8> {
    seq![0x2eu8, 0x66, 0x77, 0x69, 0x6d, 0x61, 0x67, 0x65]
}

pub open spec fn fwversion_name() -> Seq<u8> {
    seq![0x2eu8, 0x66, 0x77, 0x76, 0x65, 0x72, 0x73, 0x69, 0x6f, 0x6e]
}

pub open spec fn fwsignature_prefix() -> Seq<u8> {
    seq![0x2eu8, 0x66, 0x77, 0x73, 0x69, 0x67, 0x6e, 0x61, 0x74, 0x75, 0x72, 0x65]
}

/// `s[a..b)` equals `pat` exactly.
fn range_eq(s: &[u8], a: usize, b: usize, pat: &[u8]) -> (r: bool)
    requires
        a <= b <= s@.len(),
    ensures
        r == (s@.subrange(a as int, b as int) == pat@),
{
    if b - a != pat.len() {
        assert(s@.subrange(a as int, b as int).len() != pat@.len());
        return false;
    }
    let mut i: usize = 0;
    while i < pat.len()
        invariant
            a <= b <= s@.len(),
            b - a == pat@.len(),
            i <= pat@.len(),
            forall|k: int| 0 <= k < i ==> s@[a + k] == pat@[k],
        decreases pat@.len() - i,
    {
        if s[a + i] != pat[i] {
            assert(s@.subrange(a as int, b as int)[i as int] != pat@[i as int]);
            return false;
        }
        i = i + 1;
    }
    assert(s@.subrange(a as int, b as int) =~= pat@);
    true
}

/// `s[a..b)` begins with `pat`.
fn range_starts_with(s: &[u8], a: usize, b: usize, pat: &[u8]) -> (r: bool)
    requires
        a <= b <= s@.len(),
    ensures
        r == (pat@.len() <= b - a && s@.subrange(a as int, b as int).subrange(0, pat@.len() as int)
            == pat@),
{
    if b - a < pat.len() {
        return false;
    }
    let r = range_eq(s, a, a + pat.len(), pat);
    assert(s@.subrange(a as int, b as int).subrange(0, pat@.len() as int) =~= s@.subrange(
        a as int,
        a + pat@.len(),
    ));
    r
}

/// Partial results of the section scan.
#[derive(Clone, Copy, Debug, PartialEq, Eq, Structural)]
pub struct ScanState {
    pub fwimage_offset: u64,
    pub fwimage_size: u64,
    pub fwversion_offset: u64,
    pub fwversion_size: u16,
    pub signature_sections: u8,
}

pub open spec fn sat_inc(v: u8) -> u8 {
    if v == 255 {
        255
    } else {
        (v + 1) as u8
    }
}

/// Effect of one section header on the scan.
pub open spec fn spec_scan_step(
    s: Seq<u8>,
    shoff: u64,
    shent: u64,
    so: int,
    se: int,
    i: u64,
    st: ScanState,
) -> Option<ScanState> {
    match spec_section_header(s, shoff, shent, i) {
        None => None,
        Some(h) => match spec_section_name(s, so, se, h.sh_name) {
            None => None,
            Some((a, b)) => {
                let name = s.subrange(a, b);
                if name == fwimage_name() {
                    if h.sh_type != 1 || h.sh_size == 0 {
                        None
                    } else {
                        Some(ScanState { fwimage_offset: h.sh_offset, fwimage_size: h.sh_size, ..st })
                    }
                } else if name == fwversion_name() {
                    if h.sh_size == 0 || h.sh_size > 32 {
                        None
                    } else {
                        Some(
                            ScanState {
                                fwversion_offset: h.sh_offset,
                                fwversion_size: h.sh_size as u16,
                                ..st
                            },
                        )
                    }
                } else if 12 <= name.len() && name.subrange(0, 12) == fwsignature_prefix() {
                    Some(ScanState { signature_sections: sat_inc(st.signature_sections), ..st })
                } else {
                    Some(st)
                }
            },
        },
    }
}

/// Scan of section headers `i..n`, stopping at the first refusal.
pub open spec fn spec_scan(
    s: Seq<u8>,
    shoff: u64,
    shent: u64,
    so: int,
    se: int,
    i: u64,
    n: u64,
    st: ScanState,
) -> Option<ScanState>
    decreases n - i,
{
    if i >= n {
        Some(st)
    } else {
        match spec_scan_step(s, shoff, shent, so, se, i, st) {
            None => None,
            Some(next) => spec_scan(s, shoff, shent, so, se, (i + 1) as u64, n, next),
        }
    }
}

pub open spec fn empty_scan() -> ScanState {
    ScanState {
        fwimage_offset: 0,
        fwimage_size: 0,
        fwversion_offset: 0,
        fwversion_size: 0,
        signature_sections: 0,
    }
}

pub open spec fn spec_elf_magic(s: Seq<u8>) -> bool {
    4 <= s.len() && s[0] == 0x7f && s[1] == 0x45 && s[2] == 0x4c && s[3] == 0x46
}

/// The full structural contract of a GSP-RM ELF, or `None` when the image breaks it.
pub open spec fn spec_parse_gsp_rm_elf(s: Seq<u8>) -> Option<GspElfEvidence> {
    if s.len() < 64 || !spec_elf_magic(s) || s[4] != 2 || s[5] != 1 {
        None
    } else if le16(s, 16) != 1 || le16(s, 18) != 243 {
        None
    } else {
        let shoff = le64(s, 40) as u64;
        let shent = le16(s, 58) as u64;
        let shnum = le16(s, 60) as u64;
        let shstrndx = le16(s, 62) as u64;
        if shent < 64 || shnum == 0 || shstrndx >= shnum {
            None
        } else if shoff + shnum * shent > u64::MAX || shoff + shnum * shent > s.len() {
            None
        } else {
            match spec_section_header(s, shoff, shent, shstrndx) {
                None => None,
                Some(strh) => {
                    let so = (strh.sh_offset as usize) as int;
                    let se = so + (strh.sh_size as usize);
                    if se > usize::MAX || se > s.len() {
                        None
                    } else {
                        match spec_scan(s, shoff, shent, so, se, 0, shnum, empty_scan()) {
                            None => None,
                            Some(st) => {
                                let ver_end = (st.fwversion_offset as usize)
                                    + st.fwversion_size;
                                if st.fwimage_size == 0 || st.fwversion_size == 0 {
                                    None
                                } else if ver_end > usize::MAX || ver_end > s.len() {
                                    None
                                } else {
                                    Some(
                                        GspElfEvidence {
                                            fwimage_offset: st.fwimage_offset,
                                            fwimage_size: st.fwimage_size,
                                            fwversion_offset: st.fwversion_offset,
                                            fwversion_size: st.fwversion_size,
                                            signature_sections: st.signature_sections,
                                            machine: 243,
                                        },
                                    )
                                }
                            },
                        }
                    }
                },
            }
        }
    }
}

fn scan_sections(image: &[u8], shoff: u64, shent: u64, so: usize, se: usize, shnum: u64) -> (r:
    Result<ScanState, HermesFault>)
    requires
        so <= se <= image@.len(),
    ensures
        r is Ok <==> spec_scan(image@, shoff, shent, so as int, se as int, 0, shnum, empty_scan())
            is Some,
        r is Ok ==> r->Ok_0 == spec_scan(
            image@,
            shoff,
            shent,
            so as int,
            se as int,
            0,
            shnum,
            empty_scan(),
        )->Some_0,
        r is Err ==> r == Err::<ScanState, HermesFault>(HermesFault::FirmwareRejected),
{
    let fwimage: [u8; 8] = [0x2e, 0x66, 0x77, 0x69, 0x6d, 0x61, 0x67, 0x65];
    let fwversion: [u8; 10] = [0x2e, 0x66, 0x77, 0x76, 0x65, 0x72, 0x73, 0x69, 0x6f, 0x6e];
    let fwsig: [u8; 12] = [0x2e, 0x66, 0x77, 0x73, 0x69, 0x67, 0x6e, 0x61, 0x74, 0x75, 0x72, 0x65];
    assert(fwimage@ =~= fwimage_name());
    assert(fwversion@ =~= fwversion_name());
    assert(fwsig@ =~= fwsignature_prefix());
    let mut st = ScanState {
        fwimage_offset: 0,
        fwimage_size: 0,
        fwversion_offset: 0,
        fwversion_size: 0,
        signature_sections: 0,
    };
    let mut i: u64 = 0;
    while i < shnum
        invariant
            so <= se <= image@.len(),
            i <= shnum,
            fwimage@ == fwimage_name(),
            fwversion@ == fwversion_name(),
            fwsig@ == fwsignature_prefix(),
            spec_scan(image@, shoff, shent, so as int, se as int, 0, shnum, empty_scan())
                == spec_scan(image@, shoff, shent, so as int, se as int, i, shnum, st),
        decreases shnum - i,
    {
        let hdr = section_header(image, shoff, shent, i)?;
        let (a, b) = section_name(image, so, se, hdr.sh_name)?;
        proof {
            lemma_nul_from_bounds(image@, a as int, se as int);
        }
        if range_eq(image, a, b, fwimage.as_slice()) {
            if hdr.sh_type != 1 || hdr.sh_size == 0 {
                return Err(HermesFault::FirmwareRejected);
            }
            st.fwimage_offset = hdr.sh_offset;
            st.fwimage_size = hdr.sh_size;
        } else if range_eq(image, a, b, fwversion.as_slice()) {
            if hdr.sh_size == 0 || hdr.sh_size > 32 {
                return Err(HermesFault::FirmwareRejected);
            }
            st.fwversion_offset = hdr.sh_offset;
            st.fwversion_size = hdr.sh_size as u16;
        } else if range_starts_with(image, a, b, fwsig.as_slice()) {
            st.signature_sections = if st.signature_sections == 255 {
                255
            } else {
                st.signature_sections + 1
            };
        }
        i = i + 1;
    }
    Ok(st)
}

/// Parse a GSP-RM blob and require the structural contract of a redistributable
/// NVIDIA GSP ELF. Does not prove cryptographic authenticity.
pub fn parse_gsp_rm_elf(image: &[u8]) -> (r: Result<GspElfEvidence, HermesFault>)
    ensures
        r is Ok <==> spec_parse_gsp_rm_elf(image@) is Some,
        r is Ok ==> r->Ok_0 == spec_parse_gsp_rm_elf(image@)->Some_0,
        r is Err ==> r == Err::<GspElfEvidence, HermesFault>(HermesFault::FirmwareRejected),
{
    if image.len() < 64 {
        return Err(HermesFault::FirmwareRejected);
    }
    if image[0] != 0x7f || image[1] != 0x45 || image[2] != 0x4c || image[3] != 0x46 {
        return Err(HermesFault::FirmwareRejected);
    }
    if image[4] != 2 || image[5] != 1 {
        return Err(HermesFault::FirmwareRejected);
    }
    let e_type = read_le16(image, 16);
    let e_machine = read_le16(image, 18);
    if e_type != 1 || e_machine != 243 {
        return Err(HermesFault::FirmwareRejected);
    }
    let e_shoff = read_le64(image, 40);
    let e_shentsize = read_le16(image, 58) as u64;
    let e_shnum = read_le16(image, 60) as u64;
    let e_shstrndx = read_le16(image, 62) as u64;
    if e_shentsize < 64 || e_shnum == 0 || e_shstrndx >= e_shnum {
        return Err(HermesFault::FirmwareRejected);
    }
    assert(e_shnum * e_shentsize <= 65535 * 65535) by (nonlinear_arith)
        requires
            e_shnum <= 65535,
            e_shentsize <= 65535,
    ;
    let prod = e_shnum * e_shentsize;
    let table_end = match e_shoff.checked_add(prod) {
        Some(t) => t,
        None => return Err(HermesFault::FirmwareRejected),
    };
    if table_end > image.len() as u64 {
        return Err(HermesFault::FirmwareRejected);
    }
    let str_hdr = section_header(image, e_shoff, e_shentsize, e_shstrndx)?;
    let str_off = str_hdr.sh_offset as usize;
    let str_end = match str_off.checked_add(str_hdr.sh_size as usize) {
        Some(e) => e,
        None => return Err(HermesFault::FirmwareRejected),
    };
    if str_end > image.len() {
        return Err(HermesFault::FirmwareRejected);
    }
    let st = scan_sections(image, e_shoff, e_shentsize, str_off, str_end, e_shnum)?;
    if st.fwimage_size == 0 || st.fwversion_size == 0 {
        return Err(HermesFault::FirmwareRejected);
    }
    let ver_end = match (st.fwversion_offset as usize).checked_add(st.fwversion_size as usize) {
        Some(e) => e,
        None => return Err(HermesFault::FirmwareRejected),
    };
    if ver_end > image.len() {
        return Err(HermesFault::FirmwareRejected);
    }
    Ok(
        GspElfEvidence {
            fwimage_offset: st.fwimage_offset,
            fwimage_size: st.fwimage_size,
            fwversion_offset: st.fwversion_offset,
            fwversion_size: st.fwversion_size,
            signature_sections: st.signature_sections,
            machine: e_machine,
        },
    )
}

/// The `.fwversion` bytes up to (not including) the first NUL, when they lie in the image.
pub open spec fn spec_fwversion_bytes(s: Seq<u8>, e: GspElfEvidence) -> Option<Seq<u8>> {
    let start = (e.fwversion_offset as usize) as int;
    let end = start + e.fwversion_size;
    if end > usize::MAX || end > s.len() {
        None
    } else {
        Some(s.subrange(start, spec_nul_from(s, start, end)))
    }
}

/// Extract the ASCII version string from `.fwversion` (NUL-trimmed).
pub fn fwversion_bytes<'a>(image: &'a [u8], evidence: &GspElfEvidence) -> (r: Result<
    &'a [u8],
    HermesFault,
>)
    ensures
        r is Ok <==> spec_fwversion_bytes(image@, *evidence) is Some,
        r is Ok ==> r->Ok_0@ == spec_fwversion_bytes(image@, *evidence)->Some_0,
        r is Err ==> r == Err::<&'a [u8], HermesFault>(HermesFault::FirmwareRejected),
{
    let start = evidence.fwversion_offset as usize;
    let end = match start.checked_add(evidence.fwversion_size as usize) {
        Some(e) => e,
        None => return Err(HermesFault::FirmwareRejected),
    };
    if end > image.len() {
        return Err(HermesFault::FirmwareRejected);
    }
    let mut cut = start;
    while cut < end && image[cut] != 0
        invariant
            start <= cut <= end <= image@.len(),
            spec_nul_from(image@, start as int, end as int) == spec_nul_from(
                image@,
                cut as int,
                end as int,
            ),
        decreases end - cut,
    {
        cut = cut + 1;
    }
    Ok(vstd::slice::slice_subrange(image, start, cut))
}

/// An accepted image always carries both firmware sections, its version lies
/// inside the image, and it really is a little-endian ELF64 RISC-V object.
pub proof fn parsed_elf_is_structurally_sound(s: Seq<u8>)
    ensures
        spec_parse_gsp_rm_elf(s) matches Some(e) ==> {
            &&& s.len() >= 64
            &&& spec_elf_magic(s)
            &&& s[4] == 2 && s[5] == 1
            &&& le16(s, 16) == 1 && le16(s, 18) == 243
            &&& e.fwimage_size != 0
            &&& 1 <= e.fwversion_size <= 32
            &&& (e.fwversion_offset as usize) + e.fwversion_size <= s.len()
            &&& e.machine == 243
            &&& spec_fwversion_bytes(s, e) is Some
        },
{
    if let Some(e) = spec_parse_gsp_rm_elf(s) {
        let shoff = le64(s, 40) as u64;
        let shent = le16(s, 58) as u64;
        let shnum = le16(s, 60) as u64;
        let strh = spec_section_header(s, shoff, shent, le16(s, 62) as u64)->Some_0;
        lemma_scan_version_bounded(
            s,
            shoff,
            shent,
            (strh.sh_offset as usize) as int,
            (strh.sh_offset as usize) + (strh.sh_size as usize),
            0,
            shnum,
            empty_scan(),
        );
    }
}

proof fn lemma_scan_version_bounded(
    s: Seq<u8>,
    shoff: u64,
    shent: u64,
    so: int,
    se: int,
    i: u64,
    n: u64,
    st: ScanState,
)
    requires
        st.fwversion_size <= 32,
    ensures
        spec_scan(s, shoff, shent, so, se, i, n, st) matches Some(r) ==> r.fwversion_size <= 32,
    decreases n - i,
{
    if i < n {
        if let Some(next) = spec_scan_step(s, shoff, shent, so, se, i, st) {
            lemma_scan_version_bounded(s, shoff, shent, so, se, (i + 1) as u64, n, next);
        }
    }
}


/// Signature law: a section whose name begins with ".fwsignature" (such as
/// ".fwsignature_tu10x") adds one to the count of signature sections, which
/// stops at 255, and changes nothing else; a section whose name is none of
/// ".fwimage", ".fwversion" or a ".fwsignature" name leaves the scan as it was.
pub proof fn signature_sections_are_counted(
    s: Seq<u8>,
    shoff: u64,
    shent: u64,
    so: int,
    se: int,
    i: u64,
    st: ScanState,
    h: SectionHeader,
    a: int,
    b: int,
)
    requires
        0 <= so <= se <= s.len(),
        spec_section_header(s, shoff, shent, i) == Some(h),
        spec_section_name(s, so, se, h.sh_name) == Some((a, b)),
    ensures
        b - a >= 12 && s.subrange(a, a + 12) == seq![
            0x2eu8, 0x66, 0x77, 0x73, 0x69, 0x67, 0x6e, 0x61, 0x74, 0x75, 0x72, 0x65,
        ] ==> spec_scan_step(s, shoff, shent, so, se, i, st) == Some(
            ScanState {
                signature_sections: if st.signature_sections == 255 {
                    255u8
                } else {
                    (st.signature_sections + 1) as u8
                },
                ..st
            },
        ),
        s.subrange(a, b) != seq![0x2eu8, 0x66, 0x77, 0x69, 0x6d, 0x61, 0x67, 0x65] && s.subrange(a, b)
            != seq![0x2eu8, 0x66, 0x77, 0x76, 0x65, 0x72, 0x73, 0x69, 0x6f, 0x6e] && !(b - a >= 12
            && s.subrange(a, a + 12) == seq![
            0x2eu8, 0x66, 0x77, 0x73, 0x69, 0x67, 0x6e, 0x61, 0x74, 0x75, 0x72, 0x65,
        ]) ==> spec_scan_step(s, shoff, shent, so, se, i, st) == Some(st),
{
    lemma_nul_from_bounds(s, a, se);
    let name = s.subrange(a, b);
    if b - a >= 12 {
        assert(name.subrange(0, 12) =~= s.subrange(a, a + 12));
    }
    assert(fwimage_name().len() == 8);
    assert(fwversion_name().len() == 10);
}

} // verus!
