//! Software present: scans a 1080p framebuffer out through the atomic modeset.

use vstd::prelude::*;

use crate::drm::atomic::{
    lemma_first_is, spec_commit_refusal, spec_first, AtomicCommit, AtomicRequest, CommitError,
};
use crate::drm::connector::Connector;
use crate::drm::crtc::Crtc;
use crate::drm::device::DrmDevice;
use crate::drm::framebuffer::{Framebuffer, PixelFormat};
use crate::drm::mode::{spec_fhd_60, standard_modes_are_valid, DisplayMode};
use crate::drm::plane::Plane;
use crate::mesa::{spec_desktop_shape, MesaState, PRESENT_FB_ID};

verus! {

#[derive(Clone, Copy, Debug, PartialEq, Eq, Structural)]
pub enum PresentError {
    Offline,
    Modeset(CommitError),
    NoDrm,
}

/// What a present answers: refused while the GSP is offline; otherwise the
/// sequence number of a fresh commit, which is always the first.
pub open spec fn spec_present_outcome(state: MesaState) -> Result<u64, PresentError> {
    if !state.online() {
        Err(PresentError::Offline)
    } else {
        Ok(1u64)
    }
}

/// The request the present path commits: connector, CRTC and plane 1 showing
/// the present framebuffer at 1080p60.
pub open spec fn spec_present_request() -> AtomicRequest {
    AtomicRequest {
        connector_id: 1,
        crtc_id: 1,
        plane_id: 1,
        fb_id: PRESENT_FB_ID,
        mode: spec_fhd_60(),
        active: true,
    }
}

/// The state after a present on an online surface: the Vulkan and GL counts
/// unchanged, and a DRM device that is online, holds the present framebuffer
/// alone, and scans it out at 1080p60 on CRTC 0 through plane 0.
pub open spec fn spec_presented(before: MesaState, after: MesaState) -> bool {
    &&& after.online() == before.online()
    &&& after.instances_created() == before.instances_created()
    &&& after.live_vk_instances() == before.live_vk_instances()
    &&& after.gl_context_count() == before.gl_context_count()
    &&& after.drm_device() matches Some(d)
    &&& d.gsp_online
    &&& d.framebuffers@.len() == 1
    &&& d.framebuffers@[0].id == PRESENT_FB_ID
    &&& d.crtcs@[0].active
    &&& d.crtcs@[0].fb_id == Some(PRESENT_FB_ID)
    &&& d.crtcs@[0].mode == Some(spec_fhd_60())
    &&& d.planes@[0].crtc_id == Some(1u32)
    &&& d.planes@[0].fb_id == Some(PRESENT_FB_ID)
}

/// Brings the display online (making it if there is none), gives it the
/// present framebuffer if it has none, and commits 1080p60 on its one head.
pub fn present_solid(state: &mut MesaState) -> (r: Result<u64, PresentError>)
    ensures
        r == spec_present_outcome(*old(state)),
        !old(state).online() ==> *final(state) == *old(state),
        old(state).online() ==> spec_presented(*old(state), *final(state)),
{
    proof {
        use_type_invariant(&*state);
    }
    if !state.gsp_online {
        return Err(PresentError::Offline);
    }
    let mut slot: Option<DrmDevice> = None;
    std::mem::swap(&mut slot, &mut state.drm);
    let mut drm = match slot {
        Some(d) => d,
        None => DrmDevice::virtual_desktop(true),
    };
    drm.set_gsp_online(true);
    if drm.framebuffers.len() == 0 {
        match Framebuffer::new(PRESENT_FB_ID, 1920, 1080, PixelFormat::Xrgb8888, 0x2000) {
            Ok(fb) => drm.framebuffers.push(fb),
            Err(_) => {
                state.drm = Some(drm);
                return Err(PresentError::NoDrm);
            },
        }
    }
    let req = AtomicRequest {
        connector_id: 1,
        crtc_id: 1,
        plane_id: 1,
        fb_id: PRESENT_FB_ID,
        mode: DisplayMode::fhd_60(),
        active: true,
    };
    proof {
        let d = drm;
        assert(spec_desktop_shape(d));
        standard_modes_are_valid();
        lemma_first_is(d.connectors@, |c: Connector| c.id == req.connector_id, 0, 0);
        lemma_first_is(d.crtcs@, |c: Crtc| c.id == req.crtc_id, 0, 0);
        lemma_first_is(d.planes@, |p: Plane| p.id == req.plane_id, 0, 0);
        lemma_first_is(d.framebuffers@, |f: Framebuffer| f.id == req.fb_id, 0, 0);
        assert(1u32 & (1u32 << 0u32) != 0) by (bit_vector);
        assert(spec_commit_refusal(d, req) is None);
    }
    let mut atom = AtomicCommit::new();
    let r = atom.commit(&mut drm, &req);
    state.drm = Some(drm);
    match r {
        Ok(res) => Ok(res.sequence),
        Err(e) => Err(PresentError::Modeset(e)),
    }
}

} // verus!
