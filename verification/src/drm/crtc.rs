//! CRTCs (scanout pipes).

use vstd::prelude::*;

use crate::drm::mode::DisplayMode;

verus! {

#[derive(Clone, Copy, Debug, PartialEq, Eq, Structural)]
pub struct Crtc {
    pub id: u32,
    pub primary_plane_id: u32,
    pub active: bool,
    pub mode: Option<DisplayMode>,
    pub fb_id: Option<u32>,
    pub x: u32,
    pub y: u32,
}

impl Crtc {
    /// An inactive CRTC with no mode and no framebuffer.
    pub fn new(id: u32, primary_plane_id: u32) -> (c: Self)
        ensures
            c == (Crtc { id, primary_plane_id, active: false, mode: None, fb_id: None, x: 0, y: 0 }),
    {
        Crtc { id, primary_plane_id, active: false, mode: None, fb_id: None, x: 0, y: 0 }
    }
}

} // verus!
