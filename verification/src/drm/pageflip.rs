//! Page flips onto active CRTCs and software vblank sequencing.

use vstd::prelude::*;

use crate::drm::atomic::{
    find_crtc, find_framebuffer, spec_first, spec_first_from, AtomicCommit, AtomicRequest,
    CommitError, CommitResult,
};
use crate::drm::connector::Connector;
use crate::drm::crtc::Crtc;
use crate::drm::device::DrmDevice;
use crate::drm::framebuffer::Framebuffer;
use crate::drm::mode::{spec_fhd_60, DisplayMode};
use crate::drm::plane::Plane;

verus! {

#[derive(Clone, Copy, Debug, PartialEq, Eq, Structural)]
pub enum FlipError {
    GspOffline,
    InvalidCrtc,
    InvalidFramebuffer,
    NotActive,
    Modeset(CommitError),
}

pub const FLIP_FLAG_EVENT: u32 = 0x1;

pub const FLIP_FLAG_ASYNC: u32 = 0x2;

#[derive(Clone, Copy, Debug, PartialEq, Eq, Structural)]
pub struct PageFlipRequest {
    pub crtc_id: u32,
    pub fb_id: u32,
    pub flags: u32,
}

#[derive(Clone, Copy, Debug, PartialEq, Eq, Structural)]
pub struct VblankEvent {
    pub crtc_id: u32,
    pub sequence: u64,
    pub timestamp_ns: u64,
    pub fb_id: u32,
}

/// Software vblank clock and its queue of undelivered events.
#[derive(Clone, Debug)]
pub struct VblankState {
    pub sequence: u64,
    pub timestamp_ns: u64,
    pub pending_events: Vec<VblankEvent>,
    /// Host-side service quantum for page-flip queue turns, in microseconds. It
    /// never changes the vblank period or grants display authority.
    pub service_quantum_us: u32,
}

impl VblankState {
    pub fn new() -> (v: Self)
        ensures
            v.sequence == 0,
            v.timestamp_ns == 0,
            v.pending_events@ == Seq::<VblankEvent>::empty(),
            v.service_quantum_us == 1,
    {
        VblankState { sequence: 0, timestamp_ns: 0, pending_events: Vec::new(), service_quantum_us: 1 }
    }

    /// Sets the host service quantum chosen by the caller's scheduler.
    pub fn set_service_quantum(&mut self, quantum_us: u32)
        ensures
            final(self).service_quantum_us == quantum_us,
            final(self).sequence == old(self).sequence,
            final(self).timestamp_ns == old(self).timestamp_ns,
            final(self).pending_events@ == old(self).pending_events@,
    {
        self.service_quantum_us = quantum_us;
    }

    /// Advances the vblank clock by one period and queues the event for it.
    pub fn tick(&mut self, crtc_id: u32, fb_id: u32, period_ns: u64) -> (ev: VblankEvent)
        ensures
            ev == (VblankEvent {
                crtc_id,
                sequence: old(self).sequence.wrapping_add(1),
                timestamp_ns: old(self).timestamp_ns.wrapping_add(period_ns),
                fb_id,
            }),
            final(self).sequence == ev.sequence,
            final(self).timestamp_ns == ev.timestamp_ns,
            final(self).pending_events@ == old(self).pending_events@.push(ev),
            final(self).service_quantum_us == old(self).service_quantum_us,
    {
        self.sequence = self.sequence.wrapping_add(1);
        self.timestamp_ns = self.timestamp_ns.wrapping_add(period_ns);
        let ev = VblankEvent {
            crtc_id,
            sequence: self.sequence,
            timestamp_ns: self.timestamp_ns,
            fb_id,
        };
        self.pending_events.push(ev);
        ev
    }

    /// Takes the oldest pending event.
    pub fn pop_event(&mut self) -> (ev: Option<VblankEvent>)
        ensures
            old(self).pending_events@.len() == 0 ==> ev is None && final(self).pending_events@
                == old(self).pending_events@,
            old(self).pending_events@.len() > 0 ==> ev == Some(old(self).pending_events@[0])
                && final(self).pending_events@ == old(self).pending_events@.drop_first(),
            final(self).sequence == old(self).sequence,
            final(self).timestamp_ns == old(self).timestamp_ns,
            final(self).service_quantum_us == old(self).service_quantum_us,
    {
        if self.pending_events.len() == 0 {
            None
        } else {
            let ev = self.pending_events.remove(0);
            assert(self.pending_events@ =~= old(self).pending_events@.drop_first());
            Some(ev)
        }
    }
}

/// The vblank period of the software clock: about 60 Hz.
pub const VBLANK_PERIOD_NS: u64 = 16_666_667;

/// The atomic request a flip turns into: the CRTC's mode (1080p60 when it has
/// none), the first connector bound to it (else 1), and the first plane bound to
/// it or usable on any CRTC (else 1).
pub open spec fn spec_flip_request(device: DrmDevice, req: PageFlipRequest, crtc: Crtc) -> AtomicRequest {
    AtomicRequest {
        connector_id: match spec_first(device.connectors@, |c: Connector| c.crtc_id == Some(req.crtc_id)) {
            Some(i) => device.connectors@[i].id,
            None => 1,
        },
        crtc_id: req.crtc_id,
        plane_id: match spec_first(
            device.planes@,
            |p: Plane| p.crtc_id == Some(req.crtc_id) || p.possible_crtcs != 0,
        ) {
            Some(i) => device.planes@[i].id,
            None => 1,
        },
        fb_id: req.fb_id,
        mode: match crtc.mode {
            Some(m) => m,
            None => spec_fhd_60(),
        },
        active: true,
    }
}

/// Flips an active CRTC to another existing framebuffer: an atomic rebind, then
/// one vblank event.
pub fn page_flip(atom: &mut AtomicCommit, device: &mut DrmDevice, req: &PageFlipRequest) -> (r: Result<
    CommitResult,
    FlipError,
>)
    requires
        spec_first(old(device).crtcs@, |c: Crtc| c.id == req.crtc_id) matches Some(i) ==> i < 32,
    ensures
        !old(device).gsp_online ==> r == Err::<CommitResult, FlipError>(FlipError::GspOffline),
        old(device).gsp_online && spec_first(old(device).crtcs@, |c: Crtc| c.id == req.crtc_id)
            is None ==> r == Err::<CommitResult, FlipError>(FlipError::InvalidCrtc),
        old(device).gsp_online ==> (spec_first(old(device).crtcs@, |c: Crtc| c.id == req.crtc_id)
            matches Some(i) ==> {
            let crtc = old(device).crtcs@[i];
            &&& !crtc.active ==> r == Err::<CommitResult, FlipError>(FlipError::NotActive)
            &&& crtc.active && spec_first(
                old(device).framebuffers@,
                |f: Framebuffer| f.id == req.fb_id,
            ) is None ==> r == Err::<CommitResult, FlipError>(FlipError::InvalidFramebuffer)
        }),
        r is Ok ==> final(device).vblank.pending_events@.len() == old(
            device,
        ).vblank.pending_events@.len() + 1 && final(device).vblank.pending_events@.last().fb_id
            == req.fb_id && final(device).vblank.pending_events@.last().crtc_id == req.crtc_id,
        r is Ok ==> r->Ok_0.active && r->Ok_0.sequence == old(atom).sequence.wrapping_add(1),
        r is Ok ==> (spec_first(old(device).crtcs@, |c: Crtc| c.id == req.crtc_id) matches Some(i)
            && final(device).crtcs@[i].id == req.crtc_id && final(device).crtcs@[i].fb_id == Some(
            req.fb_id,
        ) && final(device).crtcs@[i].active),
        r is Err ==> final(device).vblank.pending_events@ == old(device).vblank.pending_events@,
{
    if !device.gsp_online {
        return Err(FlipError::GspOffline);
    }
    let ci = match find_crtc(&device.crtcs, req.crtc_id) {
        Some(i) => i,
        None => {
            return Err(FlipError::InvalidCrtc);
        },
    };
    let crtc = device.crtcs[ci];
    if !crtc.active {
        return Err(FlipError::NotActive);
    }
    if find_framebuffer(&device.framebuffers, req.fb_id).is_none() {
        return Err(FlipError::InvalidFramebuffer);
    }
    let mode = match crtc.mode {
        Some(m) => m,
        None => DisplayMode::fhd_60(),
    };
    let mut connector_id: u32 = 1;
    let mut k: usize = 0;
    while k < device.connectors.len()
        invariant_except_break
            k <= device.connectors@.len(),
            spec_first(device.connectors@, |c: Connector| c.crtc_id == Some(req.crtc_id))
                == spec_first_from(
                device.connectors@,
                |c: Connector| c.crtc_id == Some(req.crtc_id),
                k as int,
            ),
            connector_id == 1,
        ensures
            connector_id == match spec_first(
                device.connectors@,
                |c: Connector| c.crtc_id == Some(req.crtc_id),
            ) {
                Some(i) => device.connectors@[i].id,
                None => 1,
            },
        decreases device.connectors@.len() - k,
    {
        if device.connectors[k].crtc_id == Some(req.crtc_id) {
            connector_id = device.connectors[k].id;
            break;
        }
        k = k + 1;
    }
    let mut plane_id: u32 = 1;
    let mut p: usize = 0;
    while p < device.planes.len()
        invariant_except_break
            p <= device.planes@.len(),
            spec_first(
                device.planes@,
                |q: Plane| q.crtc_id == Some(req.crtc_id) || q.possible_crtcs != 0,
            ) == spec_first_from(
                device.planes@,
                |q: Plane| q.crtc_id == Some(req.crtc_id) || q.possible_crtcs != 0,
                p as int,
            ),
            plane_id == 1,
        ensures
            plane_id == match spec_first(
                device.planes@,
                |q: Plane| q.crtc_id == Some(req.crtc_id) || q.possible_crtcs != 0,
            ) {
                Some(i) => device.planes@[i].id,
                None => 1,
            },
        decreases device.planes@.len() - p,
    {
        let plane = device.planes[p];
        if plane.crtc_id == Some(req.crtc_id) || plane.possible_crtcs != 0 {
            plane_id = plane.id;
            break;
        }
        p = p + 1;
    }
    let atomic_req = AtomicRequest {
        connector_id,
        crtc_id: req.crtc_id,
        plane_id,
        fb_id: req.fb_id,
        mode,
        active: true,
    };
    let result = match atom.commit(device, &atomic_req) {
        Ok(res) => res,
        Err(e) => {
            return Err(FlipError::Modeset(e));
        },
    };
    let _ev = device.vblank.tick(req.crtc_id, req.fb_id, VBLANK_PERIOD_NS);
    Ok(result)
}

} // verus!
