//! Atomic modeset commits, gated on the GSP being online.

use vstd::prelude::*;

use crate::drm::connector::{Connector, ConnectorStatus};
use crate::drm::crtc::Crtc;
use crate::drm::device::{spec_same_layout, DrmDevice};
use crate::drm::framebuffer::Framebuffer;
use crate::drm::mode::DisplayMode;
use crate::drm::plane::Plane;

verus! {

#[derive(Clone, Copy, Debug, PartialEq, Eq, Structural)]
pub enum CommitError {
    GspOffline,
    InvalidConnector,
    InvalidCrtc,
    InvalidPlane,
    InvalidFramebuffer,
    ModeInvalid,
    PlaneNotCompatible,
    NotConnected,
}

#[derive(Clone, Copy, Debug, PartialEq, Eq, Structural)]
pub struct AtomicRequest {
    pub connector_id: u32,
    pub crtc_id: u32,
    pub plane_id: u32,
    pub fb_id: u32,
    pub mode: DisplayMode,
    pub active: bool,
}

#[derive(Clone, Copy, Debug, PartialEq, Eq, Structural)]
pub struct CommitResult {
    pub sequence: u64,
    pub active: bool,
}

/// Index of the first element of `s` from `i` on that satisfies `pred`.
pub open spec fn spec_first_from<T>(s: Seq<T>, pred: spec_fn(T) -> bool, i: int) -> Option<int>
    decreases s.len() - i,
{
    if i < 0 || i >= s.len() {
        None
    } else if pred(s[i]) {
        Some(i)
    } else {
        spec_first_from(s, pred, i + 1)
    }
}

/// Index of the first element of `s` that satisfies `pred`.
pub open spec fn spec_first<T>(s: Seq<T>, pred: spec_fn(T) -> bool) -> Option<int> {
    spec_first_from(s, pred, 0)
}

pub proof fn lemma_first_bounds<T>(s: Seq<T>, pred: spec_fn(T) -> bool, i: int)
    requires
        0 <= i,
    ensures
        spec_first_from(s, pred, i) matches Some(k) ==> i <= k < s.len() && pred(s[k]),
    decreases s.len() - i,
{
    if i < s.len() {
        lemma_first_bounds(s, pred, i + 1);
    }
}

pub proof fn lemma_first_is<T>(s: Seq<T>, pred: spec_fn(T) -> bool, j: int, i: int)
    requires
        0 <= i <= j < s.len(),
        pred(s[j]),
        forall|q: int| 0 <= q < j ==> !pred(#[trigger] s[q]),
    ensures
        spec_first_from(s, pred, i) == Some(j),
    decreases j - i,
{
    if i < j {
        lemma_first_is(s, pred, j, i + 1);
    }
}

/// Why a commit is refused, checked in this order: GSP offline, invalid mode,
/// unknown or disconnected connector, unknown CRTC, plane or framebuffer, plane
/// not usable on the CRTC.
pub open spec fn spec_commit_refusal(device: DrmDevice, req: AtomicRequest) -> Option<CommitError> {
    let conn = spec_first(device.connectors@, |c: Connector| c.id == req.connector_id);
    let crtc = spec_first(device.crtcs@, |c: Crtc| c.id == req.crtc_id);
    let plane = spec_first(device.planes@, |p: Plane| p.id == req.plane_id);
    let fb = spec_first(device.framebuffers@, |f: Framebuffer| f.id == req.fb_id);
    if !device.gsp_online {
        Some(CommitError::GspOffline)
    } else if !req.mode.spec_valid() {
        Some(CommitError::ModeInvalid)
    } else if conn is None {
        Some(CommitError::InvalidConnector)
    } else if device.connectors@[conn->0].status != ConnectorStatus::Connected {
        Some(CommitError::NotConnected)
    } else if crtc is None {
        Some(CommitError::InvalidCrtc)
    } else if plane is None {
        Some(CommitError::InvalidPlane)
    } else if fb is None {
        Some(CommitError::InvalidFramebuffer)
    } else if device.planes@[plane->0].possible_crtcs & (1u32 << (crtc->0 as u32)) == 0 {
        Some(CommitError::PlaneNotCompatible)
    } else {
        None
    }
}

/// Every check before the plane's CRTC mask passes: the GSP is online, the
/// mode is valid, the connector exists and is connected, and the CRTC, plane
/// and framebuffer exist.
pub open spec fn spec_reaches_plane_check(device: DrmDevice, req: AtomicRequest) -> bool {
    &&& device.gsp_online
    &&& req.mode.spec_valid()
    &&& spec_first(device.connectors@, |c: Connector| c.id == req.connector_id) matches Some(k)
        && device.connectors@[k].status == ConnectorStatus::Connected
    &&& spec_first(device.crtcs@, |c: Crtc| c.id == req.crtc_id) is Some
    &&& spec_first(device.planes@, |p: Plane| p.id == req.plane_id) is Some
    &&& spec_first(device.framebuffers@, |f: Framebuffer| f.id == req.fb_id) is Some
}

/// Sequencer of atomic commits.
#[derive(Clone, Copy, Debug, PartialEq, Eq, Structural)]
pub struct AtomicCommit {
    pub sequence: u64,
}

pub(crate) fn find_connector(connectors: &Vec<Connector>, id: u32) -> (r: Option<usize>)
    ensures
        r matches Some(i) ==> spec_first(connectors@, |c: Connector| c.id == id) == Some(i as int),
        r matches Some(i) ==> i < connectors@.len() && connectors@[i as int].id == id,
        r is None ==> spec_first(connectors@, |c: Connector| c.id == id) is None,
{
    let mut i: usize = 0;
    while i < connectors.len()
        invariant
            i <= connectors@.len(),
            spec_first(connectors@, |c: Connector| c.id == id) == spec_first_from(
                connectors@,
                |c: Connector| c.id == id,
                i as int,
            ),
        decreases connectors@.len() - i,
    {
        if connectors[i].id == id {
            return Some(i);
        }
        i = i + 1;
    }
    None
}

pub(crate) fn find_crtc(crtcs: &Vec<Crtc>, id: u32) -> (r: Option<usize>)
    ensures
        r matches Some(i) ==> spec_first(crtcs@, |c: Crtc| c.id == id) == Some(i as int),
        r matches Some(i) ==> i < crtcs@.len() && crtcs@[i as int].id == id,
        r is None ==> spec_first(crtcs@, |c: Crtc| c.id == id) is None,
{
    let mut i: usize = 0;
    while i < crtcs.len()
        invariant
            i <= crtcs@.len(),
            spec_first(crtcs@, |c: Crtc| c.id == id) == spec_first_from(
                crtcs@,
                |c: Crtc| c.id == id,
                i as int,
            ),
        decreases crtcs@.len() - i,
    {
        if crtcs[i].id == id {
            return Some(i);
        }
        i = i + 1;
    }
    None
}

pub(crate) fn find_plane(planes: &Vec<Plane>, id: u32) -> (r: Option<usize>)
    ensures
        r matches Some(i) ==> spec_first(planes@, |p: Plane| p.id == id) == Some(i as int),
        r matches Some(i) ==> i < planes@.len() && planes@[i as int].id == id,
        r is None ==> spec_first(planes@, |p: Plane| p.id == id) is None,
{
    let mut i: usize = 0;
    while i < planes.len()
        invariant
            i <= planes@.len(),
            spec_first(planes@, |p: Plane| p.id == id) == spec_first_from(
                planes@,
                |p: Plane| p.id == id,
                i as int,
            ),
        decreases planes@.len() - i,
    {
        if planes[i].id == id {
            return Some(i);
        }
        i = i + 1;
    }
    None
}

pub(crate) fn find_framebuffer(fbs: &Vec<Framebuffer>, id: u32) -> (r: Option<usize>)
    ensures
        r matches Some(i) ==> spec_first(fbs@, |f: Framebuffer| f.id == id) == Some(i as int),
        r matches Some(i) ==> i < fbs@.len() && fbs@[i as int].id == id,
        r is None ==> spec_first(fbs@, |f: Framebuffer| f.id == id) is None,
{
    let mut i: usize = 0;
    while i < fbs.len()
        invariant
            i <= fbs@.len(),
            spec_first(fbs@, |f: Framebuffer| f.id == id) == spec_first_from(
                fbs@,
                |f: Framebuffer| f.id == id,
                i as int,
            ),
        decreases fbs@.len() - i,
    {
        if fbs[i].id == id {
            return Some(i);
        }
        i = i + 1;
    }
    None
}

impl AtomicCommit {
    pub fn new() -> (a: Self)
        ensures
            a.sequence == 0,
    {
        AtomicCommit { sequence: 0 }
    }

    /// Checks and applies one modeset: binds plane, CRTC and connector to the
    /// framebuffer and mode, and advances the commit sequence.
    pub fn commit(&mut self, device: &mut DrmDevice, req: &AtomicRequest) -> (r: Result<
        CommitResult,
        CommitError,
    >)
        requires
            spec_reaches_plane_check(*old(device), *req) ==> (spec_first(
                old(device).crtcs@,
                |c: Crtc| c.id == req.crtc_id,
            ) matches Some(i) ==> i < 32),
        ensures
            match spec_commit_refusal(*old(device), *req) {
                Some(e) => r == Err::<CommitResult, CommitError>(e) && *final(device) == *old(device)
                    && *final(self) == *old(self),
                None => {
                    let ki = spec_first(old(device).connectors@, |c: Connector| c.id == req.connector_id)->0;
                    let ci = spec_first(old(device).crtcs@, |c: Crtc| c.id == req.crtc_id)->0;
                    let pi = spec_first(old(device).planes@, |p: Plane| p.id == req.plane_id)->0;
                    let fi = spec_first(old(device).framebuffers@, |f: Framebuffer| f.id == req.fb_id)->0;
                    let fb = old(device).framebuffers@[fi];
                    &&& r == Ok::<CommitResult, CommitError>(
                        CommitResult { sequence: old(self).sequence.wrapping_add(1), active: req.active },
                    )
                    &&& final(self).sequence == old(self).sequence.wrapping_add(1)
                    &&& final(device).crtcs@ == old(device).crtcs@.update(
                        ci,
                        Crtc {
                            active: req.active,
                            mode: Some(req.mode),
                            fb_id: Some(req.fb_id),
                            ..old(device).crtcs@[ci]
                        },
                    )
                    &&& final(device).planes@ == old(device).planes@.update(
                        pi,
                        Plane {
                            crtc_id: Some(req.crtc_id),
                            fb_id: Some(req.fb_id),
                            src_w: fb.width << 16u32,
                            src_h: fb.height << 16u32,
                            crtc_w: req.mode.hdisplay as u32,
                            crtc_h: req.mode.vdisplay as u32,
                            ..old(device).planes@[pi]
                        },
                    )
                    &&& final(device).connectors@ == old(device).connectors@.update(
                        ki,
                        Connector { crtc_id: Some(req.crtc_id), ..old(device).connectors@[ki] },
                    )
                    &&& final(device).framebuffers@ == old(device).framebuffers@
                    &&& final(device).gsp_online == old(device).gsp_online
                    &&& final(device).vblank.pending_events@ == old(device).vblank.pending_events@
                },
            },
            spec_same_layout(*old(device), *final(device)),
    {
        if !device.gsp_online {
            return Err(CommitError::GspOffline);
        }
        if !req.mode.valid() {
            return Err(CommitError::ModeInvalid);
        }
        let conn_idx = match find_connector(&device.connectors, req.connector_id) {
            Some(i) => i,
            None => {
                return Err(CommitError::InvalidConnector);
            },
        };
        if device.connectors[conn_idx].status != ConnectorStatus::Connected {
            return Err(CommitError::NotConnected);
        }
        let crtc_idx = match find_crtc(&device.crtcs, req.crtc_id) {
            Some(i) => i,
            None => {
                return Err(CommitError::InvalidCrtc);
            },
        };
        let plane_idx = match find_plane(&device.planes, req.plane_id) {
            Some(i) => i,
            None => {
                return Err(CommitError::InvalidPlane);
            },
        };
        let fb_idx = match find_framebuffer(&device.framebuffers, req.fb_id) {
            Some(i) => i,
            None => {
                return Err(CommitError::InvalidFramebuffer);
            },
        };
        let fb = device.framebuffers[fb_idx];
        let mut plane = device.planes[plane_idx];
        if plane.possible_crtcs & (1u32 << (crtc_idx as u32)) == 0 {
            return Err(CommitError::PlaneNotCompatible);
        }
        plane.crtc_id = Some(req.crtc_id);
        plane.fb_id = Some(req.fb_id);
        plane.src_w = fb.width << 16u32;
        plane.src_h = fb.height << 16u32;
        plane.crtc_w = req.mode.hdisplay as u32;
        plane.crtc_h = req.mode.vdisplay as u32;
        device.planes[plane_idx] = plane;
        let mut crtc = device.crtcs[crtc_idx];
        crtc.active = req.active;
        crtc.mode = Some(req.mode);
        crtc.fb_id = Some(req.fb_id);
        device.crtcs[crtc_idx] = crtc;
        device.connectors[conn_idx].crtc_id = Some(req.crtc_id);
        self.sequence = self.sequence.wrapping_add(1);
        Ok(CommitResult { sequence: self.sequence, active: req.active })
    }

    /// Blanks a CRTC and unbinds every plane and connector bound to it.
    pub fn disable_crtc(&mut self, device: &mut DrmDevice, crtc_id: u32) -> (r: Result<
        CommitResult,
        CommitError,
    >)
        ensures
            !old(device).gsp_online ==> r == Err::<CommitResult, CommitError>(
                CommitError::GspOffline) && *final(device) == *old(device),
            old(device).gsp_online && spec_first(old(device).crtcs@, |c: Crtc| c.id == crtc_id)
                is None ==> r == Err::<CommitResult, CommitError>(CommitError::InvalidCrtc)
                && *final(device) == *old(device),
            old(device).gsp_online ==> (spec_first(old(device).crtcs@, |c: Crtc| c.id == crtc_id)
                matches Some(ci) ==> {
                &&& r == Ok::<CommitResult, CommitError>(
                    CommitResult { sequence: old(self).sequence.wrapping_add(1), active: false },
                )
                &&& final(device).crtcs@ == old(device).crtcs@.update(
                    ci,
                    Crtc { active: false, mode: None, fb_id: None, ..old(device).crtcs@[ci] },
                )
                &&& final(device).planes@.len() == old(device).planes@.len()
                &&& forall|k: int|
                    0 <= k < old(device).planes@.len() ==> #[trigger] final(device).planes@[k]
                        == if old(device).planes@[k].crtc_id == Some(crtc_id) {
                        Plane { crtc_id: None, fb_id: None, ..old(device).planes@[k] }
                    } else {
                        old(device).planes@[k]
                    }
                &&& final(device).connectors@.len() == old(device).connectors@.len()
                &&& forall|k: int|
                    0 <= k < old(device).connectors@.len() ==> #[trigger] final(device).connectors@[k]
                        == if old(device).connectors@[k].crtc_id == Some(crtc_id) {
                        Connector { crtc_id: None, ..old(device).connectors@[k] }
                    } else {
                        old(device).connectors@[k]
                    }
                &&& final(device).framebuffers@ == old(device).framebuffers@
                &&& final(device).gsp_online == old(device).gsp_online
            }),
            r is Ok ==> final(self).sequence == old(self).sequence.wrapping_add(1),
            r is Err ==> *final(self) == *old(self),
            spec_same_layout(*old(device), *final(device)),
    {
        if !device.gsp_online {
            return Err(CommitError::GspOffline);
        }
        let crtc_idx = match find_crtc(&device.crtcs, crtc_id) {
            Some(i) => i,
            None => {
                return Err(CommitError::InvalidCrtc);
            },
        };
        let mut crtc = device.crtcs[crtc_idx];
        crtc.active = false;
        crtc.mode = None;
        crtc.fb_id = None;
        device.crtcs[crtc_idx] = crtc;
        let ghost planes_before = device.planes@;
        let ghost crtcs_after = device.crtcs@;
        let mut k: usize = 0;
        while k < device.planes.len()
            invariant
                k <= device.planes@.len(),
                device.planes@.len() == planes_before.len(),
                planes_before == old(device).planes@,
                device.crtcs@ == crtcs_after,
                device.framebuffers@ == old(device).framebuffers@,
                device.connectors@ == old(device).connectors@,
                device.gsp_online == old(device).gsp_online,
                spec_same_layout(*old(device), *device),
                forall|j: int|
                    0 <= j < k ==> #[trigger] device.planes@[j] == if planes_before[j].crtc_id == Some(
                        crtc_id,
                    ) {
                        Plane { crtc_id: None, fb_id: None, ..planes_before[j] }
                    } else {
                        planes_before[j]
                    },
                forall|j: int| k <= j < device.planes@.len() ==> #[trigger] device.planes@[j] == planes_before[j],
            decreases device.planes@.len() - k,
        {
            let mut p = device.planes[k];
            if p.crtc_id == Some(crtc_id) {
                p.crtc_id = None;
                p.fb_id = None;
                device.planes[k] = p;
            }
            k = k + 1;
        }
        let ghost conns_before = device.connectors@;
        k = 0;
        while k < device.connectors.len()
            invariant
                k <= device.connectors@.len(),
                device.connectors@.len() == conns_before.len(),
                conns_before.len() == old(device).connectors@.len(),
                device.crtcs@ == crtcs_after,
                device.framebuffers@ == old(device).framebuffers@,
                device.gsp_online == old(device).gsp_online,
                device.planes@.len() == planes_before.len(),
                planes_before == old(device).planes@,
                forall|j: int|
                    0 <= j < planes_before.len() ==> #[trigger] device.planes@[j] == if planes_before[j].crtc_id == Some(
                        crtc_id,
                    ) {
                        Plane { crtc_id: None, fb_id: None, ..planes_before[j] }
                    } else {
                        planes_before[j]
                    },
                spec_same_layout(*old(device), *device),
                conns_before == old(device).connectors@,
                forall|j: int|
                    0 <= j < k ==> #[trigger] device.connectors@[j] == if conns_before[j].crtc_id == Some(
                        crtc_id,
                    ) {
                        Connector { crtc_id: None, ..conns_before[j] }
                    } else {
                        conns_before[j]
                    },
                forall|j: int| k <= j < device.connectors@.len() ==> #[trigger] device.connectors@[j] == conns_before[j],
            decreases device.connectors@.len() - k,
        {
            if device.connectors[k].crtc_id == Some(crtc_id) {
                device.connectors[k].crtc_id = None;
            }
            k = k + 1;
        }
        self.sequence = self.sequence.wrapping_add(1);
        Ok(CommitResult { sequence: self.sequence, active: false })
    }
}

} // verus!
