//! Display timings.

use vstd::prelude::*;

verus! {

pub const FLAG_PHSYNC: u32 = 0x1;

pub const FLAG_NHSYNC: u32 = 0x2;

pub const FLAG_PVSYNC: u32 = 0x4;

pub const FLAG_NVSYNC: u32 = 0x8;

pub const FLAG_INTERLACE: u32 = 0x10;

/// A display mode: pixel clock and horizontal/vertical timings.
#[derive(Clone, Copy, Debug, PartialEq, Eq, Structural)]
pub struct DisplayMode {
    pub clock_khz: u32,
    pub hdisplay: u16,
    pub hsync_start: u16,
    pub hsync_end: u16,
    pub htotal: u16,
    pub vdisplay: u16,
    pub vsync_start: u16,
    pub vsync_end: u16,
    pub vtotal: u16,
    pub flags: u32,
}

/// 1920x1080 at 60 Hz (CEA-861 timing).
pub open spec fn spec_fhd_60() -> DisplayMode {
    DisplayMode {
        clock_khz: 148_500,
        hdisplay: 1920,
        hsync_start: 2008,
        hsync_end: 2052,
        htotal: 2200,
        vdisplay: 1080,
        vsync_start: 1084,
        vsync_end: 1089,
        vtotal: 1125,
        flags: FLAG_PHSYNC | FLAG_PVSYNC,
    }
}

/// 1280x720 at 60 Hz (CEA-861 timing).
pub open spec fn spec_hd_60() -> DisplayMode {
    DisplayMode {
        clock_khz: 74_250,
        hdisplay: 1280,
        hsync_start: 1390,
        hsync_end: 1430,
        htotal: 1650,
        vdisplay: 720,
        vsync_start: 725,
        vsync_end: 730,
        vtotal: 750,
        flags: FLAG_PHSYNC | FLAG_PVSYNC,
    }
}

impl DisplayMode {
    /// Timings are ordered: active ≤ sync start ≤ sync end ≤ total, nonzero
    /// active area and pixel clock.
    pub open spec fn spec_valid(self) -> bool {
        &&& self.hdisplay > 0
        &&& self.vdisplay > 0
        &&& self.htotal >= self.hsync_end
        &&& self.hsync_end >= self.hsync_start
        &&& self.hsync_start >= self.hdisplay
        &&& self.vtotal >= self.vsync_end
        &&& self.vsync_end >= self.vsync_start
        &&& self.vsync_start >= self.vdisplay
        &&& self.clock_khz > 0
    }

    pub fn fhd_60() -> (m: Self)
        ensures
            m == spec_fhd_60(),
    {
        DisplayMode {
            clock_khz: 148_500,
            hdisplay: 1920,
            hsync_start: 2008,
            hsync_end: 2052,
            htotal: 2200,
            vdisplay: 1080,
            vsync_start: 1084,
            vsync_end: 1089,
            vtotal: 1125,
            flags: FLAG_PHSYNC | FLAG_PVSYNC,
        }
    }

    pub fn hd_60() -> (m: Self)
        ensures
            m == spec_hd_60(),
    {
        DisplayMode {
            clock_khz: 74_250,
            hdisplay: 1280,
            hsync_start: 1390,
            hsync_end: 1430,
            htotal: 1650,
            vdisplay: 720,
            vsync_start: 725,
            vsync_end: 730,
            vtotal: 750,
            flags: FLAG_PHSYNC | FLAG_PVSYNC,
        }
    }

    pub fn valid(self) -> (b: bool)
        ensures
            b == self.spec_valid(),
    {
        self.hdisplay > 0 && self.vdisplay > 0 && self.htotal >= self.hsync_end && self.hsync_end
            >= self.hsync_start && self.hsync_start >= self.hdisplay && self.vtotal >= self.vsync_end
            && self.vsync_end >= self.vsync_start && self.vsync_start >= self.vdisplay
            && self.clock_khz > 0
    }

    /// Refresh rate in whole hertz: pixel clock over frame size, 0 for an empty frame.
    pub fn refresh_hz_approx(self) -> (hz: u32)
        ensures
            hz == if self.htotal == 0 || self.vtotal == 0 {
                0
            } else {
                ((self.clock_khz * 1000) / (self.htotal * self.vtotal)) as u32
            },
    {
        if self.htotal == 0 || self.vtotal == 0 {
            return 0;
        }
        let ht = self.htotal as u64;
        let vt = self.vtotal as u64;
        assert(0 < ht * vt <= 0xffff * 0xffff) by (nonlinear_arith)
            requires
                0 < ht <= 0xffff,
                0 < vt <= 0xffff,
        ;
        let denom = ht * vt;
        let num = (self.clock_khz as u64) * 1000;
        (#[verifier::truncate] ((num / denom) as u32))
    }
}

/// Both standard modes are valid.
pub proof fn standard_modes_are_valid()
    ensures
        spec_fhd_60().spec_valid(),
        spec_hd_60().spec_valid(),
{
}

} // verus!
