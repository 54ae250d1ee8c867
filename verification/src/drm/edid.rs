//! Synthetic base EDID for virtual connectors: a 128-byte block with a valid
//! checksum whose first detailed timing descriptor is the given mode.

use vstd::prelude::*;
use vstd::string::StringSliceAdditionalSpecFns;

use crate::ctl_uapi::{block_checksum, spec_block_checksum_ok, spec_byte_sum};
use crate::drm::mode::DisplayMode;

verus! {

pub open spec fn sat_sub(a: u16, b: u16) -> int {
    if a >= b {
        a - b
    } else {
        0
    }
}

/// The 18-byte detailed timing descriptor of a mode (600 x 340 mm, progressive,
/// digital separate sync, both polarities positive).
pub open spec fn spec_dtd(m: DisplayMode) -> Seq<u8> {
    let clk = (m.clock_khz / 10) as int % 0x1_0000;
    let ha = m.hdisplay as int;
    let hb = sat_sub(m.htotal, m.hdisplay);
    let va = m.vdisplay as int;
    let vb = sat_sub(m.vtotal, m.vdisplay);
    let hso = sat_sub(m.hsync_start, m.hdisplay);
    let hspw = sat_sub(m.hsync_end, m.hsync_start);
    let vso = sat_sub(m.vsync_start, m.vdisplay);
    let vspw = sat_sub(m.vsync_end, m.vsync_start);
    seq![
        (clk % 256) as u8,
        (clk / 256) as u8,
        (ha % 256) as u8,
        (hb % 256) as u8,
        ((ha / 256 % 16) * 16 + hb / 256 % 16) as u8,
        (va % 256) as u8,
        (vb % 256) as u8,
        ((va / 256 % 16) * 16 + vb / 256 % 16) as u8,
        (hso % 256) as u8,
        (hspw % 256) as u8,
        ((vso % 16) * 16 + vspw % 16) as u8,
        ((hso / 256 % 4) * 64 + (hspw / 256 % 4) * 16 + (vso / 16 % 4) * 4 + vspw / 16 % 4) as u8,
        88u8,
        84u8,
        0u8,
        0u8,
        0u8,
        0x1eu8,
    ]
}

/// The 18-byte monitor name descriptor: tag 0xfc, up to 13 name bytes, a
/// newline after a shorter name, zero padding.
pub open spec fn spec_name_descriptor(name: Seq<u8>) -> Seq<u8> {
    let n = if name.len() < 13 {
        name.len() as int
    } else {
        13
    };
    Seq::new(
        18,
        |i: int|
            if i == 3 {
                0xfcu8
            } else if 5 <= i < 5 + n {
                name[i - 5]
            } else if n < 13 && i == 5 + n {
                0x0au8
            } else {
                0u8
            },
    )
}

/// Header, vendor "HRS", product 1, serial 1, week 1 of 2024, EDID 1.4,
/// digital input, 60 x 34 cm, gamma 2.2, features 0x0a.
pub open spec fn spec_edid_header() -> Seq<u8> {
    seq![
        0x00u8,
        0xff,
        0xff,
        0xff,
        0xff,
        0xff,
        0xff,
        0x00,
        0x22,
        0x53,
        0x01,
        0x00,
        0x01,
        0x00,
        0x00,
        0x00,
        1,
        34,
        1,
        4,
        0x80,
        60,
        34,
        120,
        0x0a,
    ]
}

/// Range-limits descriptor start: 30-75 Hz vertical, 30-100 kHz horizontal, 160 MHz.
pub open spec fn spec_range_limits() -> Seq<u8> {
    seq![0u8, 0, 0, 0xfd, 0, 30, 75, 30, 100, 16]
}

/// The first 127 bytes of the base EDID.
pub open spec fn spec_edid_body(m: DisplayMode, name: Seq<u8>) -> Seq<u8> {
    spec_edid_header() + Seq::new(29, |i: int| 0u8) + spec_dtd(m) + spec_name_descriptor(name)
        + spec_range_limits() + Seq::new(27, |i: int| 0u8)
}

/// The whole base EDID: the body and the byte that makes the block sum to zero.
pub open spec fn spec_base_edid(m: DisplayMode, name: Seq<u8>) -> Seq<u8> {
    let body = spec_edid_body(m, name);
    body.push(((256 - spec_byte_sum(body, 127) % 256) % 256) as u8)
}

fn push_all(e: &mut Vec<u8>, bytes: &[u8])
    ensures
        final(e)@ == old(e)@ + bytes@,
{
    let mut i: usize = 0;
    while i < bytes.len()
        invariant
            i <= bytes@.len(),
            e@ == old(e)@ + bytes@.subrange(0, i as int),
        decreases bytes@.len() - i,
    {
        e.push(bytes[i]);
        i = i + 1;
        assert(e@ =~= old(e)@ + bytes@.subrange(0, i as int));
    }
    assert(bytes@.subrange(0, bytes@.len() as int) =~= bytes@);
}

fn push_zeros(e: &mut Vec<u8>, n: usize)
    ensures
        final(e)@ == old(e)@ + Seq::new(n as nat, |i: int| 0u8),
{
    let mut i: usize = 0;
    while i < n
        invariant
            i <= n,
            e@ == old(e)@ + Seq::new(i as nat, |k: int| 0u8),
        decreases n - i,
    {
        e.push(0u8);
        i = i + 1;
        assert(e@ =~= old(e)@ + Seq::new(i as nat, |k: int| 0u8));
    }
}

fn sat_sub_u16(a: u16, b: u16) -> (r: u16)
    ensures
        r == sat_sub(a, b),
{
    if a >= b {
        a - b
    } else {
        0
    }
}

fn push_dtd(e: &mut Vec<u8>, m: DisplayMode)
    ensures
        final(e)@ == old(e)@ + spec_dtd(m),
{
    let clk: u32 = m.clock_khz / 10 % 0x1_0000;
    let ha = m.hdisplay;
    let hb = sat_sub_u16(m.htotal, m.hdisplay);
    let va = m.vdisplay;
    let vb = sat_sub_u16(m.vtotal, m.vdisplay);
    let hso = sat_sub_u16(m.hsync_start, m.hdisplay);
    let hspw = sat_sub_u16(m.hsync_end, m.hsync_start);
    let vso = sat_sub_u16(m.vsync_start, m.vdisplay);
    let vspw = sat_sub_u16(m.vsync_end, m.vsync_start);
    let d: [u8; 18] = [
        (clk % 256) as u8,
        (clk / 256) as u8,
        (ha % 256) as u8,
        (hb % 256) as u8,
        ((ha / 256 % 16) * 16 + hb / 256 % 16) as u8,
        (va % 256) as u8,
        (vb % 256) as u8,
        ((va / 256 % 16) * 16 + vb / 256 % 16) as u8,
        (hso % 256) as u8,
        (hspw % 256) as u8,
        ((vso % 16) * 16 + vspw % 16) as u8,
        ((hso / 256 % 4) * 64 + (hspw / 256 % 4) * 16 + (vso / 16 % 4) * 4 + vspw / 16 % 4) as u8,
        88u8,
        84u8,
        0u8,
        0u8,
        0u8,
        0x1eu8,
    ];
    assert(d@ =~= spec_dtd(m));
    push_all(e, &d);
}

fn push_name_descriptor(e: &mut Vec<u8>, name: &str)
    ensures
        final(e)@ == old(e)@ + spec_name_descriptor(name.spec_bytes()),
{
    let bytes = name.as_bytes();
    let n: usize = if bytes.len() < 13 {
        bytes.len()
    } else {
        13
    };
    let mut d: [u8; 18] = [0u8; 18];
    d[3] = 0xfc;
    let mut i: usize = 0;
    while i < n
        invariant
            i <= n,
            n <= 13,
            n <= bytes@.len(),
            n == if bytes@.len() < 13 {
                bytes@.len() as int
            } else {
                13
            },
            d@.len() == 18,
            d@[3] == 0xfcu8,
            forall|k: int| 5 <= k < 5 + i ==> #[trigger] d@[k] == bytes@[k - 5],
            forall|k: int| 0 <= k < 18 && k != 3 && !(5 <= k < 5 + i) ==> #[trigger] d@[k] == 0u8,
        decreases n - i,
    {
        d[5 + i] = bytes[i];
        i = i + 1;
    }
    if n < 13 {
        d[5 + n] = 0x0a;
    }
    assert(d@ =~= spec_name_descriptor(name.spec_bytes()));
    push_all(e, &d);
}

/// Builds the 128-byte base EDID for `mode`, named `name`.
pub fn build_base_edid(mode: DisplayMode, name: &str) -> (e: Vec<u8>)
    ensures
        e@ == spec_base_edid(mode, name.spec_bytes()),
{
    let mut e: Vec<u8> = Vec::new();
    let header: [u8; 25] = [
        0x00,
        0xff,
        0xff,
        0xff,
        0xff,
        0xff,
        0xff,
        0x00,
        0x22,
        0x53,
        0x01,
        0x00,
        0x01,
        0x00,
        0x00,
        0x00,
        1,
        34,
        1,
        4,
        0x80,
        60,
        34,
        120,
        0x0a,
    ];
    assert(header@ =~= spec_edid_header());
    push_all(&mut e, &header);
    push_zeros(&mut e, 29);
    push_dtd(&mut e, mode);
    push_name_descriptor(&mut e, name);
    let range: [u8; 10] = [0, 0, 0, 0xfd, 0, 30, 75, 30, 100, 16];
    assert(range@ =~= spec_range_limits());
    push_all(&mut e, &range);
    push_zeros(&mut e, 27);
    assert(e@ =~= spec_edid_body(mode, name.spec_bytes()));
    let mut sum: u32 = 0;
    let mut i: usize = 0;
    while i < 127
        invariant
            i <= 127,
            e@.len() == 127,
            sum == spec_byte_sum(e@, i as int),
            sum <= 255 * i,
        decreases 127 - i,
    {
        sum = sum + e[i] as u32;
        i = i + 1;
    }
    let check: u8 = ((256 - sum % 256) % 256) as u8;
    e.push(check);
    e
}

/// All 128 bytes sum to zero modulo 256.
pub fn edid_checksum_ok(edid: &[u8]) -> (b: bool)
    ensures
        b == (edid@.len() >= 128 && spec_block_checksum_ok(edid@)),
{
    if edid.len() < 128 {
        return false;
    }
    block_checksum(edid) == 0
}

/// Preferred size from the first detailed timing descriptor: none for a short
/// or headerless block, an empty descriptor, or a zero dimension.
pub open spec fn spec_preferred_size(edid: Seq<u8>) -> Option<(u16, u16)> {
    if edid.len() < 72 || edid[0] != 0 || edid[1] != 0xff {
        None
    } else if edid[54] == 0 && edid[55] == 0 {
        None
    } else {
        let ha = edid[56] + (edid[58] / 16) * 256;
        let va = edid[59] + (edid[61] / 16) * 256;
        if ha == 0 || va == 0 {
            None
        } else {
            Some((ha as u16, va as u16))
        }
    }
}

pub fn edid_preferred_size(edid: &[u8]) -> (r: Option<(u16, u16)>)
    ensures
        r == spec_preferred_size(edid@),
{
    if edid.len() < 72 || edid[0] != 0x00 || edid[1] != 0xff {
        return None;
    }
    if edid[54] == 0 && edid[55] == 0 {
        return None;
    }
    let ha: u16 = edid[56] as u16 + (edid[58] / 16) as u16 * 256;
    let va: u16 = edid[59] as u16 + (edid[61] / 16) as u16 * 256;
    if ha == 0 || va == 0 {
        None
    } else {
        Some((ha, va))
    }
}

proof fn lemma_sum_prefix(a: Seq<u8>, b: Seq<u8>, n: int)
    requires
        0 <= n <= a.len(),
        n <= b.len(),
        forall|i: int| 0 <= i < n ==> a[i] == b[i],
    ensures
        spec_byte_sum(a, n) == spec_byte_sum(b, n),
    decreases n,
{
    if n > 0 {
        lemma_sum_prefix(a, b, n - 1);
    }
}

/// Every synthetic EDID block passes the checksum.
pub proof fn base_edid_checksum_is_valid(m: DisplayMode, name: Seq<u8>)
    ensures
        spec_base_edid(m, name).len() == 128,
        spec_block_checksum_ok(spec_base_edid(m, name)),
{
    let body = spec_edid_body(m, name);
    let full = spec_base_edid(m, name);
    assert(body.len() == 127);
    lemma_sum_prefix(full, body, 127);
}

/// Round trip: the preferred size read back from a synthetic EDID is the mode's
/// active size, for sizes below 4096 and a pixel clock the descriptor can hold.
pub proof fn base_edid_preferred_size_round_trip(m: DisplayMode, name: Seq<u8>)
    requires
        0 < m.hdisplay < 4096,
        0 < m.vdisplay < 4096,
        (m.clock_khz / 10) as int % 0x1_0000 != 0,
    ensures
        spec_preferred_size(spec_base_edid(m, name)) == Some((m.hdisplay, m.vdisplay)),
{
    let full = spec_base_edid(m, name);
    let d = spec_dtd(m);
    assert(full[54] == d[0] && full[55] == d[1]);
    assert(full[56] == d[2] && full[58] == d[4] && full[59] == d[5] && full[61] == d[7]);
    let hb = sat_sub(m.htotal, m.hdisplay);
    let vb = sat_sub(m.vtotal, m.vdisplay);
    assert(d[4] / 16 == m.hdisplay / 256);
    assert(d[7] / 16 == m.vdisplay / 256);
}


proof fn lemma_dtd_in_edid(m: DisplayMode, name: Seq<u8>)
    ensures
        forall|k: int| 0 <= k < 18 ==> #[trigger] spec_base_edid(m, name)[54 + k] == spec_dtd(m)[k],
{
    let body = spec_edid_body(m, name);
    let head = spec_edid_header() + Seq::new(29, |i: int| 0u8);
    assert(head.len() == 54);
    assert forall|k: int| 0 <= k < 18 implies #[trigger] spec_base_edid(m, name)[54 + k] == spec_dtd(m)[k] by {
        assert(body[54 + k] == spec_dtd(m)[k]);
    }
}

proof fn lemma_low_high(v: int, hi: int)
    by (nonlinear_arith)
    requires
        0 <= v < hi * 256,
        1 <= hi <= 16,
    ensures
        v % 256 + (v / 256 % 16) * 256 == v,
        v / 256 < hi,
{
}

proof fn lemma_nibbles(p: int, q: int)
    by (nonlinear_arith)
    requires
        0 <= p < 16,
        0 <= q < 16,
    ensures
        (p * 16 + q) % 16 == q,
        (p * 16 + q) / 16 == p,
{
}

proof fn lemma_crumbs(a: int, b: int, c: int, d: int)
    by (nonlinear_arith)
    requires
        0 <= a < 4,
        0 <= b < 4,
        0 <= c < 4,
        0 <= d < 4,
    ensures
        (a * 64 + b * 16 + c * 4 + d) / 64 == a,
        (a * 64 + b * 16 + c * 4 + d) / 16 % 4 == b,
        (a * 64 + b * 16 + c * 4 + d) / 4 % 4 == c,
        (a * 64 + b * 16 + c * 4 + d) % 4 == d,
{
}

/// Sync law: the first detailed timing of a synthetic EDID (bytes 54..72)
/// decodes back to the mode's timing: the horizontal blanking is
/// `htotal - hdisplay`, the sync offset `hsync_start - hdisplay` and the sync
/// pulse width `hsync_end - hsync_start`, so offset plus width never exceed
/// the blanking; the same holds vertically. This is for modes whose timings
/// are ordered and fit the descriptor's fields (12-bit blanking, 10-bit
/// horizontal and 6-bit vertical sync fields).
pub proof fn base_edid_sync_round_trip(m: DisplayMode, name: Seq<u8>)
    requires
        m.hdisplay <= m.hsync_start <= m.hsync_end <= m.htotal,
        m.vdisplay <= m.vsync_start <= m.vsync_end <= m.vtotal,
        m.htotal - m.hdisplay < 4096,
        m.vtotal - m.vdisplay < 4096,
        m.hsync_start - m.hdisplay < 1024,
        m.hsync_end - m.hsync_start < 1024,
        m.vsync_start - m.vdisplay < 64,
        m.vsync_end - m.vsync_start < 64,
    ensures
        ({
            let e = spec_base_edid(m, name);
            let hblank = e[57] + (e[58] % 16) * 256;
            let hoff = e[62] + (e[65] / 64) * 256;
            let hwidth = e[63] + (e[65] / 16 % 4) * 256;
            let vblank = e[60] + (e[61] % 16) * 256;
            let voff = e[64] / 16 + (e[65] / 4 % 4) * 16;
            let vwidth = e[64] % 16 + (e[65] % 4) * 16;
            &&& hblank == m.htotal - m.hdisplay
            &&& hoff == m.hsync_start - m.hdisplay
            &&& hwidth == m.hsync_end - m.hsync_start
            &&& hoff + hwidth <= hblank
            &&& vblank == m.vtotal - m.vdisplay
            &&& voff == m.vsync_start - m.vdisplay
            &&& vwidth == m.vsync_end - m.vsync_start
            &&& voff + vwidth <= vblank
        }),
{
    let e = spec_base_edid(m, name);
    let d = spec_dtd(m);
    lemma_dtd_in_edid(m, name);
    assert(e[57] == d[3] && e[58] == d[4] && e[60] == d[6] && e[61] == d[7]);
    assert(e[62] == d[8] && e[63] == d[9] && e[64] == d[10] && e[65] == d[11]);
    let ha = m.hdisplay as int;
    let hb = m.htotal - m.hdisplay;
    let va = m.vdisplay as int;
    let vb = m.vtotal - m.vdisplay;
    let hso = m.hsync_start - m.hdisplay;
    let hspw = m.hsync_end - m.hsync_start;
    let vso = m.vsync_start - m.vdisplay;
    let vspw = m.vsync_end - m.vsync_start;
    assert(sat_sub(m.htotal, m.hdisplay) == hb);
    assert(sat_sub(m.vtotal, m.vdisplay) == vb);
    assert(sat_sub(m.hsync_start, m.hdisplay) == hso);
    assert(sat_sub(m.hsync_end, m.hsync_start) == hspw);
    assert(sat_sub(m.vsync_start, m.vdisplay) == vso);
    assert(sat_sub(m.vsync_end, m.vsync_start) == vspw);
    lemma_low_high(hb, 16);
    lemma_low_high(vb, 16);
    lemma_low_high(hso, 4);
    lemma_low_high(hspw, 4);
    lemma_nibbles(ha / 256 % 16, hb / 256 % 16);
    lemma_nibbles(va / 256 % 16, vb / 256 % 16);
    lemma_nibbles(vso % 16, vspw % 16);
    lemma_crumbs(hso / 256 % 4, hspw / 256 % 4, vso / 16 % 4, vspw / 16 % 4);
    assert(d[3] == hb % 256);
    assert(d[4] == (ha / 256 % 16) * 16 + hb / 256 % 16);
    assert(d[6] == vb % 256);
    assert(d[7] == (va / 256 % 16) * 16 + vb / 256 % 16);
    assert(d[8] == hso % 256);
    assert(d[9] == hspw % 256);
    assert(d[10] == (vso % 16) * 16 + vspw % 16);
    assert(d[11] == (hso / 256 % 4) * 64 + (hspw / 256 % 4) * 16 + (vso / 16 % 4) * 4 + vspw / 16 % 4);
    assert(vso % 16 + (vso / 16 % 4) * 16 == vso);
    assert(vspw % 16 + (vspw / 16 % 4) * 16 == vspw);
}

} // verus!
