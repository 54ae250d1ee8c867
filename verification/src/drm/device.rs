//! DRM device aggregate: connectors, CRTCs, planes, framebuffers, GEM objects,
//! properties and the vblank clock, all gated on the GSP being online.

use vstd::prelude::*;
use vstd::string::*;

use crate::drm::atomic::{lemma_first_bounds, lemma_first_is, spec_first};
use crate::drm::connector::{Connector, ConnectorStatus};
use crate::drm::crtc::Crtc;
use crate::drm::edid::{build_base_edid, spec_base_edid};
use crate::drm::framebuffer::{Framebuffer, FramebufferError, PixelFormat};
use crate::drm::gem::{
    spec_dumb_layout, spec_dumb_request_aligns, spec_find, spec_next_id, spec_without,
    DumbCreateRequest, DumbCreateResult, GemError, GemManager,
};
use crate::drm::mode::{spec_fhd_60, DisplayMode};
use crate::drm::pageflip::VblankState;
use crate::drm::plane::Plane;
use crate::drm::property::{PropBlob, PropType, PropertyStore};
use crate::text::{append_decimal, spec_decimal};

verus! {

#[derive(Clone, Copy, Debug, PartialEq, Eq, Structural)]
pub enum DrmError {
    GspOffline,
    NotFound,
    Busy,
    Gem(GemError),
    Framebuffer(FramebufferError),
}

#[derive(Clone, Debug)]
pub struct DrmDevice {
    pub gsp_online: bool,
    pub connectors: Vec<Connector>,
    pub crtcs: Vec<Crtc>,
    pub planes: Vec<Plane>,
    pub framebuffers: Vec<Framebuffer>,
    pub gems: GemManager,
    pub vblank: VblankState,
    pub props: PropertyStore,
    /// Property id of connector EDID blob values.
    pub edid_prop_id: Option<u32>,
    /// Id of the next framebuffer added from a GEM object.
    pub next_fb_id: u32,
}

/// The monitor name of a connector's synthetic EDID: "Hermes-" and its id.
pub open spec fn spec_edid_name(connector_id: u32) -> Seq<char> {
    seq!['H', 'e', 'r', 'm', 'e', 's', '-'] + spec_decimal(connector_id as nat)
}

fn edid_name(connector_id: u32) -> (s: String)
    ensures
        s@ == spec_edid_name(connector_id),
{
    let prefix = "Hermes-";
    proof {
        reveal_strlit("Hermes-");
    }
    let mut s = String::from_str(prefix);
    append_decimal(&mut s, connector_id as u64);
    s
}

/// `b` has the topology of `a`: the same connectors (by id and status), CRTCs
/// (by id) and planes (by id and the CRTCs they can scan out on), in order.
pub open spec fn spec_same_layout(a: DrmDevice, b: DrmDevice) -> bool {
    &&& b.connectors@.len() == a.connectors@.len()
    &&& b.crtcs@.len() == a.crtcs@.len()
    &&& b.planes@.len() == a.planes@.len()
    &&& forall|i: int|
        0 <= i < a.connectors@.len() ==> (#[trigger] b.connectors@[i]).id == a.connectors@[i].id
            && b.connectors@[i].status == a.connectors@[i].status
    &&& forall|i: int|
        0 <= i < a.crtcs@.len() ==> (#[trigger] b.crtcs@[i]).id == a.crtcs@[i].id
    &&& forall|i: int|
        0 <= i < a.planes@.len() ==> (#[trigger] b.planes@[i]).id == a.planes@[i].id
            && b.planes@[i].possible_crtcs == a.planes@[i].possible_crtcs
}

impl DrmDevice {
    /// The id the next framebuffer is given.
    pub closed spec fn next_framebuffer_id(&self) -> u32 {
        self.next_fb_id
    }

    fn topology(gsp_online: bool, heads: u32) -> (dev: Self)
        requires
            heads == 1 || heads == 2,
        ensures
            dev.gsp_online == gsp_online,
            dev.connectors@.len() == heads,
            dev.crtcs@.len() == heads,
            dev.planes@.len() == heads,
            forall|i: int|
                0 <= i < heads ==> (#[trigger] dev.crtcs@[i]) == (Crtc {
                    id: (i + 1) as u32,
                    primary_plane_id: (i + 1) as u32,
                    active: false,
                    mode: None,
                    fb_id: None,
                    x: 0,
                    y: 0,
                }),
            forall|i: int|
                0 <= i < heads ==> (#[trigger] dev.planes@[i]).id == i + 1
                    && dev.planes@[i].possible_crtcs == if heads == 1 {
                    1u32
                } else if i == 0 {
                    1u32
                } else {
                    2u32
                } && dev.planes@[i].crtc_id is None && dev.planes@[i].fb_id is None,
            forall|i: int|
                0 <= i < heads ==> (#[trigger] dev.connectors@[i]).id == i + 1
                    && dev.connectors@[i].status == ConnectorStatus::Connected
                    && dev.connectors@[i].crtc_id is None && dev.connectors@[i].edid_blob_id is None
                    && dev.connectors@[i].modes@.len() > 0 && dev.connectors@[i].modes@[0]
                    == spec_fhd_60(),
            dev.framebuffers@ == Seq::<Framebuffer>::empty(),
            dev.gems.objects() == Seq::<crate::drm::gem::GemObject>::empty(),
            dev.props.props() == Seq::<crate::drm::property::Property>::empty(),
            dev.props.blobs() == Seq::<PropBlob>::empty(),
            dev.props.next_prop_id() == 1,
            dev.props.next_blob_id() == 1,
            dev.edid_prop_id is None,
            dev.next_fb_id == 1,
            dev.vblank.pending_events@ == Seq::<crate::drm::pageflip::VblankEvent>::empty(),
    {
        let mut connectors: Vec<Connector> = Vec::new();
        let mut crtcs: Vec<Crtc> = Vec::new();
        let mut planes: Vec<Plane> = Vec::new();
        connectors.push(Connector::virtual_fhd(1));
        crtcs.push(Crtc::new(1, 1));
        if heads == 1 {
            planes.push(Plane::primary(1, 1));
        } else {
            planes.push(Plane::primary(1, 1));
            planes.push(Plane::primary(2, 2));
            connectors.push(Connector::virtual_fhd(2));
            crtcs.push(Crtc::new(2, 2));
        }
        DrmDevice {
            gsp_online,
            connectors,
            crtcs,
            planes,
            framebuffers: Vec::new(),
            gems: GemManager::new(),
            vblank: VblankState::new(),
            props: PropertyStore::new(),
            edid_prop_id: None,
            next_fb_id: 1,
        }
    }

    /// One CRTC, one primary plane, one virtual 1080p connector; EDID attached
    /// when the GSP is online.
    pub fn virtual_desktop(gsp_online: bool) -> (dev: Self)
        ensures
            dev.gsp_online == gsp_online,
            dev.connectors@.len() == 1,
            dev.crtcs@.len() == 1,
            dev.planes@.len() == 1,
            dev.crtcs@[0] == (Crtc { id: 1, primary_plane_id: 1, active: false, mode: None, fb_id: None, x: 0, y: 0 }),
            dev.planes@[0].id == 1 && dev.planes@[0].possible_crtcs == 1,
            dev.connectors@[0].id == 1 && dev.connectors@[0].status == ConnectorStatus::Connected,
            dev.framebuffers@ == Seq::<Framebuffer>::empty(),
            dev.gems.objects() == Seq::<crate::drm::gem::GemObject>::empty(),
            gsp_online <==> dev.edid_prop_id is Some,
            gsp_online ==> dev.connectors@[0].edid_blob_id is Some,
            !gsp_online ==> dev.connectors@[0].edid_blob_id is None,
    {
        let mut dev = DrmDevice::topology(gsp_online, 1);
        proof {
            let conns = dev.connectors@;
            lemma_first_is(conns, |c: Connector| c.id == conns[0].id, 0, 0);
        }
        if gsp_online {
            let _ = dev.attach_synthetic_edid();
        }
        dev
    }

    /// Two CRTCs, planes and virtual connectors; EDID attached when online.
    pub fn virtual_dual_head(gsp_online: bool) -> (dev: Self)
        ensures
            dev.gsp_online == gsp_online,
            dev.connectors@.len() == 2,
            dev.crtcs@.len() == 2,
            dev.planes@.len() == 2,
            dev.crtcs@[0] == (Crtc { id: 1, primary_plane_id: 1, active: false, mode: None, fb_id: None, x: 0, y: 0 }),
            dev.crtcs@[1] == (Crtc { id: 2, primary_plane_id: 2, active: false, mode: None, fb_id: None, x: 0, y: 0 }),
            dev.framebuffers@ == Seq::<Framebuffer>::empty(),
            gsp_online <==> dev.edid_prop_id is Some,
            gsp_online ==> dev.connectors@[0].edid_blob_id is Some && dev.connectors@[1].edid_blob_id is Some,
    {
        let mut dev = DrmDevice::topology(gsp_online, 2);
        proof {
            let conns = dev.connectors@;
            lemma_first_is(conns, |c: Connector| c.id == conns[0].id, 0, 0);
            lemma_first_is(conns, |c: Connector| c.id == conns[1].id, 1, 0);
        }
        if gsp_online {
            let _ = dev.attach_synthetic_edid();
        }
        dev
    }

    /// Attaches a synthetic EDID blob to every connector: its preferred mode
    /// (1080p60 without one), named "Hermes-<id>". Only while the GSP is online.
    pub fn attach_synthetic_edid(&mut self) -> (r: Result<(), DrmError>)
        ensures
            !old(self).gsp_online ==> r == Err::<(), DrmError>(DrmError::GspOffline) && *final(self)
                == *old(self),
            old(self).gsp_online ==> r is Ok,
            final(self).gsp_online == old(self).gsp_online,
            old(self).gsp_online ==> final(self).edid_prop_id is Some,
            old(self).edid_prop_id is Some ==> final(self).edid_prop_id == old(self).edid_prop_id,
            final(self).connectors@.len() == old(self).connectors@.len(),
            forall|i: int|
                0 <= i < old(self).connectors@.len() ==> (#[trigger] final(self).connectors@[i]).id
                    == old(self).connectors@[i].id && final(self).connectors@[i].modes@ == old(
                    self,
                ).connectors@[i].modes@ && final(self).connectors@[i].crtc_id == old(
                    self,
                ).connectors@[i].crtc_id,
            old(self).gsp_online ==> forall|i: int|
                0 <= i < old(self).connectors@.len() && spec_first(
                    old(self).connectors@,
                    |c: Connector| c.id == old(self).connectors@[i].id,
                ) == Some(i) ==> (#[trigger] final(self).connectors@[i]).edid_blob_id is Some,
            final(self).crtcs@ == old(self).crtcs@,
            final(self).planes@ == old(self).planes@,
            final(self).framebuffers@ == old(self).framebuffers@,
            final(self).gems == old(self).gems,
            final(self).next_fb_id == old(self).next_fb_id,
            spec_same_layout(*old(self), *final(self)),
    {
        if !self.gsp_online {
            return Err(DrmError::GspOffline);
        }
        let prop_id = match self.edid_prop_id {
            Some(p) => p,
            None => {
                let p = self.props.create_prop("EDID", PropType::Blob, Vec::new());
                self.edid_prop_id = Some(p);
                p
            },
        };
        let n = self.connectors.len();
        let ghost before = self.connectors@;
        let mut i: usize = 0;
        while i < n
            invariant
                i <= n,
                n == before.len(),
                self.connectors@.len() == n,
                self.gsp_online,
                self.edid_prop_id == Some(prop_id),
                self.edid_prop_id == old(self).edid_prop_id || old(self).edid_prop_id is None,
                forall|k: int|
                    0 <= k < n ==> (#[trigger] self.connectors@[k]).id == before[k].id
                        && self.connectors@[k].modes@ == before[k].modes@
                        && self.connectors@[k].crtc_id == before[k].crtc_id,
                forall|k: int|
                    0 <= k < i && spec_first(before, |c: Connector| c.id == before[k].id) == Some(k)
                        ==> (#[trigger] self.connectors@[k]).edid_blob_id is Some,
                before == old(self).connectors@,
                self.crtcs@ == old(self).crtcs@,
                self.planes@ == old(self).planes@,
                self.framebuffers@ == old(self).framebuffers@,
                self.gems == old(self).gems,
                self.next_fb_id == old(self).next_fb_id,
                spec_same_layout(*old(self), *self),
            decreases n - i,
        {
            let conn_id = self.connectors[i].id;
            let mode = match self.connectors[i].preferred_mode() {
                Some(m) => m,
                None => DisplayMode::fhd_60(),
            };
            let name = edid_name(conn_id);
            let blob = build_base_edid(mode, name.as_str());
            let blob_id = self.props.create_blob(blob);
            self.props.set(conn_id, prop_id, blob_id as u64);
            let mut j: usize = 0;
            while j < n
                invariant_except_break
                    j <= n,
                    self.connectors@.len() == n,
                    n == before.len(),
                    forall|k: int| 0 <= k < n ==> (#[trigger] self.connectors@[k]).id == before[k].id,
                    forall|q: int| 0 <= q < j ==> (#[trigger] self.connectors@[q]).id != conn_id,
                ensures
                    j <= n,
                    forall|k: int| 0 <= k < n ==> (#[trigger] self.connectors@[k]).id == before[k].id,
                    forall|q: int| 0 <= q < j ==> (#[trigger] self.connectors@[q]).id != conn_id,
                    j < n ==> self.connectors@[j as int].id == conn_id,
                    j == n ==> forall|q: int| 0 <= q < n ==> (#[trigger] self.connectors@[q]).id != conn_id,
                    self.connectors@.len() == n,
                decreases n - j,
            {
                if self.connectors[j].id == conn_id {
                    break;
                }
                j = j + 1;
            }
            let ghost mid = self.connectors@;
            if j < n {
                self.connectors[j].edid_blob_id = Some(blob_id);
            }
            proof {
                let pred = |c: Connector| c.id == conn_id;
                assert(conn_id == before[i as int].id);
                assert forall|q: int| 0 <= q < j implies !pred(#[trigger] before[q]) by {
                    assert(mid[q].id == before[q].id);
                }
                assert forall|k: int|
                    0 <= k < i + 1 && spec_first(before, |c: Connector| c.id == before[k].id) == Some(
                        k,
                    ) implies (#[trigger] self.connectors@[k]).edid_blob_id is Some by {
                    if k == i {
                        assert((|c: Connector| c.id == before[k].id) =~= pred);
                        if j < n {
                            lemma_first_is(before, pred, j as int, 0);
                        } else {
                            lemma_first_bounds(before, pred, 0);
                        }
                    }
                }
            }
            i = i + 1;
        }
        Ok(())
    }
}


/// Number of active CRTCs.
pub open spec fn spec_active_count(crtcs: Seq<Crtc>) -> nat
    decreases crtcs.len(),
{
    if crtcs.len() == 0 {
        0
    } else {
        spec_active_count(crtcs.drop_last()) + if crtcs.last().active {
            1nat
        } else {
            0nat
        }
    }
}

proof fn lemma_no_active(crtcs: Seq<Crtc>)
    requires
        forall|i: int| 0 <= i < crtcs.len() ==> !(#[trigger] crtcs[i]).active,
    ensures
        spec_active_count(crtcs) == 0,
    decreases crtcs.len(),
{
    if crtcs.len() > 0 {
        let rest = crtcs.drop_last();
        assert forall|i: int| 0 <= i < rest.len() implies !(#[trigger] rest[i]).active by {
            assert(rest[i] == crtcs[i]);
        }
        lemma_no_active(rest);
    }
}

proof fn lemma_active_count_bound(crtcs: Seq<Crtc>)
    ensures
        spec_active_count(crtcs) <= crtcs.len(),
    decreases crtcs.len(),
{
    if crtcs.len() > 0 {
        lemma_active_count_bound(crtcs.drop_last());
    }
}

impl DrmDevice {
    /// The EDID bytes attached to a connector: none for an unknown connector, a
    /// connector without EDID, or a missing blob.
    pub fn connector_edid(&self, connector_id: u32) -> (r: Option<&[u8]>)
        ensures
            match spec_first(self.connectors@, |c: Connector| c.id == connector_id) {
                None => r is None,
                Some(i) => match self.connectors@[i].edid_blob_id {
                    None => r is None,
                    Some(b) => match crate::drm::property::spec_blob_from(self.props.blobs(), b, 0) {
                        None => r is None,
                        Some(k) => r matches Some(bytes) && bytes@ == self.props.blobs()[k].data@,
                    },
                },
            },
    {
        let mut i: usize = 0;
        while i < self.connectors.len()
            invariant
                i <= self.connectors@.len(),
                spec_first(self.connectors@, |c: Connector| c.id == connector_id)
                    == crate::drm::atomic::spec_first_from(
                    self.connectors@,
                    |c: Connector| c.id == connector_id,
                    i as int,
                ),
            decreases self.connectors@.len() - i,
        {
            if self.connectors[i].id == connector_id {
                let blob_id = match self.connectors[i].edid_blob_id {
                    Some(b) => b,
                    None => {
                        return None;
                    },
                };
                return match self.props.blob(blob_id) {
                    Some(b) => Some(b.data.as_slice()),
                    None => None,
                };
            }
            i = i + 1;
        }
        None
    }

    /// Going offline tears down every binding, buffer, framebuffer, property and
    /// pending vblank; going online attaches EDID if none is attached.
    pub fn set_gsp_online(&mut self, online: bool)
        ensures
            final(self).gsp_online == online,
            final(self).connectors@.len() == old(self).connectors@.len(),
            final(self).crtcs@.len() == old(self).crtcs@.len(),
            final(self).planes@.len() == old(self).planes@.len(),
            spec_same_layout(*old(self), *final(self)),
            !online ==> {
                &&& forall|i: int|
                    0 <= i < final(self).crtcs@.len() ==> !(#[trigger] final(self).crtcs@[i]).active
                &&& forall|i: int|
                    0 <= i < final(self).planes@.len() ==> (#[trigger] final(self).planes@[i]).crtc_id
                        is None && final(self).planes@[i].fb_id is None
                &&& forall|i: int|
                    0 <= i < final(self).connectors@.len() ==> (#[trigger] final(self).connectors@[i]).crtc_id is None && final(self).connectors@[i].edid_blob_id is None
                &&& spec_active_count(final(self).crtcs@) == 0
                &&& final(self).gems.objects() == Seq::<crate::drm::gem::GemObject>::empty()
                &&& final(self).framebuffers@ == Seq::<Framebuffer>::empty()
                &&& final(self).props.blobs() == Seq::<PropBlob>::empty()
                &&& final(self).edid_prop_id is None
                &&& final(self).vblank.pending_events@ == Seq::<
                    crate::drm::pageflip::VblankEvent,
                >::empty()
            },
            online ==> final(self).edid_prop_id is Some,
            online ==> final(self).crtcs@ == old(self).crtcs@ && final(self).framebuffers@ == old(
                self,
            ).framebuffers@,
    {
        self.gsp_online = online;
        if !online {
            let n = self.crtcs.len();
            let mut i: usize = 0;
            while i < n
                invariant
                    i <= n,
                    self.crtcs@.len() == n,
                    self.gsp_online == online,
                    spec_same_layout(*old(self), *self),
                    self.planes@.len() == old(self).planes@.len(),
                    self.connectors@.len() == old(self).connectors@.len(),
                    forall|k: int| 0 <= k < i ==> !(#[trigger] self.crtcs@[k]).active,
                decreases n - i,
            {
                let mut c = self.crtcs[i];
                c.active = false;
                self.crtcs[i] = c;
                i = i + 1;
            }
            let n = self.planes.len();
            i = 0;
            while i < n
                invariant
                    i <= n,
                    self.planes@.len() == n,
                    self.gsp_online == online,
                    spec_same_layout(*old(self), *self),
                    self.crtcs@.len() == old(self).crtcs@.len(),
                    self.connectors@.len() == old(self).connectors@.len(),
                    forall|k: int| 0 <= k < self.crtcs@.len() ==> !(#[trigger] self.crtcs@[k]).active,
                    forall|k: int|
                        0 <= k < i ==> (#[trigger] self.planes@[k]).crtc_id is None
                            && self.planes@[k].fb_id is None,
                decreases n - i,
            {
                let mut p = self.planes[i];
                p.crtc_id = None;
                p.fb_id = None;
                self.planes[i] = p;
                i = i + 1;
            }
            let n = self.connectors.len();
            i = 0;
            while i < n
                invariant
                    i <= n,
                    self.connectors@.len() == n,
                    self.gsp_online == online,
                    spec_same_layout(*old(self), *self),
                    self.crtcs@.len() == old(self).crtcs@.len(),
                    self.planes@.len() == old(self).planes@.len(),
                    forall|k: int| 0 <= k < self.crtcs@.len() ==> !(#[trigger] self.crtcs@[k]).active,
                    forall|k: int|
                        0 <= k < self.planes@.len() ==> (#[trigger] self.planes@[k]).crtc_id is None
                            && self.planes@[k].fb_id is None,
                    forall|k: int|
                        0 <= k < i ==> (#[trigger] self.connectors@[k]).crtc_id is None
                            && self.connectors@[k].edid_blob_id is None,
                decreases n - i,
            {
                self.connectors[i].crtc_id = None;
                self.connectors[i].edid_blob_id = None;
                i = i + 1;
            }
            proof {
                lemma_no_active(self.crtcs@);
            }
            self.gems.clear();
            self.framebuffers.clear();
            self.props = PropertyStore::new();
            self.edid_prop_id = None;
            self.vblank = VblankState::new();
        } else if self.edid_prop_id.is_none() {
            let _ = self.attach_synthetic_edid();
        }
    }

    pub fn active_crtc_count(&self) -> (n: usize)
        ensures
            n == spec_active_count(self.crtcs@),
    {
        let mut count: usize = 0;
        let mut i: usize = 0;
        while i < self.crtcs.len()
            invariant
                i <= self.crtcs@.len(),
                count == spec_active_count(self.crtcs@.subrange(0, i as int)),
                count <= i,
            decreases self.crtcs@.len() - i,
        {
            proof {
                assert(self.crtcs@.subrange(0, i + 1).drop_last() =~= self.crtcs@.subrange(0, i as int));
            }
            if self.crtcs[i].active {
                count = count + 1;
            }
            i = i + 1;
        }
        proof {
            assert(self.crtcs@.subrange(0, i as int) =~= self.crtcs@);
        }
        count
    }

    pub fn connector_count(&self) -> (n: usize)
        ensures
            n == self.connectors@.len(),
    {
        self.connectors.len()
    }

    /// Creates a dumb buffer; only while the GSP is online.
    pub fn create_dumb(&mut self, width: u32, height: u32, bpp: u32) -> (r: Result<
        DumbCreateResult,
        DrmError,
    >)
        requires
            old(self).gsp_online ==> spec_dumb_request_aligns(DumbCreateRequest { width, height, bpp }),
        ensures
            !old(self).gsp_online ==> r == Err::<DumbCreateResult, DrmError>(
                DrmError::Gem(GemError::GspOffline)),
            old(self).gsp_online ==> match spec_dumb_layout(DumbCreateRequest { width, height, bpp }) {
                Err(e) => r == Err::<DumbCreateResult, DrmError>(DrmError::Gem(e)),
                Ok((pitch, size)) => r == Ok::<DumbCreateResult, DrmError>(
                    DumbCreateResult { handle: old(self).gems.next_handle(), pitch, size },
                ) && final(self).gems.objects().len() == old(self).gems.objects().len() + 1,
            },
            final(self).gsp_online == old(self).gsp_online,
            final(self).framebuffers@ == old(self).framebuffers@,
            final(self).crtcs@ == old(self).crtcs@,
    {
        let req = DumbCreateRequest { width, height, bpp };
        match self.gems.create_dumb(self.gsp_online, &req) {
            Ok(res) => Ok(res),
            Err(e) => Err(DrmError::Gem(e)),
        }
    }

    /// Adds a framebuffer over a GEM object under the next framebuffer id; only
    /// while the GSP is online. A refused format still consumes the id.
    pub fn add_fb_from_gem(&mut self, gem_handle: u32, format: PixelFormat) -> (r: Result<
        u32,
        DrmError,
    >)
        ensures
            !old(self).gsp_online ==> r == Err::<u32, DrmError>(DrmError::GspOffline)
                && final(self).framebuffers@ == old(self).framebuffers@,
            old(self).gsp_online && spec_find(old(self).gems.objects(), gem_handle) is None ==> r
                == Err::<u32, DrmError>(DrmError::Gem(GemError::InvalidHandle))
                && final(self).framebuffers@ == old(self).framebuffers@,
            r is Ok ==> r->Ok_0 == old(self).next_fb_id && final(self).framebuffers@.len() == old(
                self,
            ).framebuffers@.len() + 1 && final(self).framebuffers@.last().id == r->Ok_0
                && final(self).framebuffers@.last().bo_handle == gem_handle as u64
                && final(self).framebuffers@.last().format == format,
            r is Ok ==> final(self).next_fb_id == spec_next_id(old(self).next_fb_id),
            final(self).gsp_online == old(self).gsp_online,
            final(self).crtcs@ == old(self).crtcs@,
    {
        if !self.gsp_online {
            return Err(DrmError::GspOffline);
        }
        let fb = {
            let gem = match self.gems.get(gem_handle) {
                Some(g) => g,
                None => {
                    return Err(DrmError::Gem(GemError::InvalidHandle));
                },
            };
            proof {
                crate::drm::gem::lemma_find_handle(self.gems.objects(), gem_handle);
            }
            let id = self.next_fb_id;
            match Framebuffer::from_gem(id, gem, format) {
                Ok(fb) => Ok(fb),
                Err(e) => Err(e),
            }
        };
        let id = self.next_fb_id;
        self.next_fb_id = if self.next_fb_id == u32::MAX {
            1
        } else {
            self.next_fb_id + 1
        };
        let fb = match fb {
            Ok(fb) => fb,
            Err(e) => {
                return Err(DrmError::Framebuffer(e));
            },
        };
        self.framebuffers.push(fb);
        Ok(id)
    }

    /// Destroys every GEM object with `handle`.
    pub fn destroy_dumb(&mut self, handle: u32) -> (r: Result<(), DrmError>)
        ensures
            spec_find(old(self).gems.objects(), handle) is None ==> r == Err::<(), DrmError>(
                DrmError::Gem(GemError::InvalidHandle)),
            spec_find(old(self).gems.objects(), handle) is Some ==> r is Ok,
            final(self).gems.objects() == spec_without(old(self).gems.objects(), handle),
            final(self).framebuffers@ == old(self).framebuffers@,
    {
        match self.gems.destroy(handle) {
            Ok(()) => Ok(()),
            Err(e) => Err(DrmError::Gem(e)),
        }
    }
}
} // verus!
