//! Userspace graphics attach point: a Vulkan-ICD-shaped and GL-shaped surface
//! that advertises a GPU only while the GSP is online, and a software present
//! path through the DRM atomic modeset.
//!
//! The state the C entry points share lives in one [`MesaState`] value, which
//! the caller owns and hands to each operation.

pub mod icd;
pub mod present;

use vstd::prelude::*;

use crate::drm::connector::ConnectorStatus;
use crate::drm::device::DrmDevice;
use crate::mesa::icd::ICD_LIBRARY_BASENAME;

verus! {

pub type VkResult = i32;

pub const VK_SUCCESS: VkResult = 0;

pub const VK_ERROR_INITIALIZATION_FAILED: VkResult = -3;

pub const VK_ERROR_INCOMPATIBLE_DRIVER: VkResult = -9;

pub const VK_ERROR_DEVICE_LOST: VkResult = -4;

pub type GLenum = u32;

pub type GLuint = u32;

pub type GLsizei = i32;

pub const GL_NO_ERROR: GLenum = 0;

pub const GL_INVALID_OPERATION: GLenum = 0x0502;

/// Handle of the one physical device the surface reports.
pub const PHYSICAL_DEVICE_HANDLE: u64 = 1;

/// Id of the framebuffer the present path scans out.
pub const PRESENT_FB_ID: u32 = 10;

/// The display the surface drives: one connected connector, one CRTC and one
/// primary plane, each with id 1, holding no framebuffer or only the one the
/// present path adds.
pub open spec fn spec_desktop_shape(d: DrmDevice) -> bool {
    &&& d.connectors@.len() == 1
    &&& d.connectors@[0].id == 1
    &&& d.connectors@[0].status == ConnectorStatus::Connected
    &&& d.crtcs@.len() == 1
    &&& d.crtcs@[0].id == 1
    &&& d.planes@.len() == 1
    &&& d.planes@[0].id == 1
    &&& d.planes@[0].possible_crtcs == 1
    &&& (d.framebuffers@.len() == 0 || (d.framebuffers@.len() == 1 && d.framebuffers@[0].id
        == PRESENT_FB_ID))
}

/// Physical devices reported: one while the GSP is online, none otherwise.
pub open spec fn spec_physical_device_count(state: MesaState) -> u32 {
    if state.online() {
        1
    } else {
        0
    }
}

/// The GL error state: none while online, an invalid operation otherwise.
pub open spec fn spec_gl_error(state: MesaState) -> GLenum {
    if state.online() {
        GL_NO_ERROR
    } else {
        GL_INVALID_OPERATION
    }
}

/// What the Vulkan and GL entry points share: whether the GSP is online, the
/// instance counter, the display device once one is needed, and the live
/// instances and GL contexts.
pub struct MesaState {
    gsp_online: bool,
    instance_count: u32,
    drm: Option<DrmDevice>,
    vk_instances: u32,
    gl_contexts: u32,
}

impl MesaState {
    #[verifier::type_invariant]
    spec fn shaped(self) -> bool {
        match self.drm {
            Some(d) => spec_desktop_shape(d),
            None => true,
        }
    }

    pub closed spec fn online(&self) -> bool {
        self.gsp_online
    }

    /// Instances created so far; the next one gets this number plus one.
    pub closed spec fn instances_created(&self) -> u32 {
        self.instance_count
    }

    pub closed spec fn drm_device(&self) -> Option<DrmDevice> {
        self.drm
    }

    pub closed spec fn live_vk_instances(&self) -> u32 {
        self.vk_instances
    }

    pub closed spec fn gl_context_count(&self) -> u32 {
        self.gl_contexts
    }

    /// Offline, with no display device, instance or context.
    pub fn new() -> (s: Self)
        ensures
            !s.online(),
            s.instances_created() == 0,
            s.drm_device() is None,
            s.live_vk_instances() == 0,
            s.gl_context_count() == 0,
    {
        MesaState { gsp_online: false, instance_count: 0, drm: None, vk_instances: 0, gl_contexts: 0 }
    }

    /// `vkCreateInstance`: refused with `VK_ERROR_INCOMPATIBLE_DRIVER` while the
    /// GSP is offline; otherwise the next instance handle, counting from 1.
    pub fn create_vk_instance(&mut self) -> (r: Result<u64, VkResult>)
        ensures
            !old(self).online() ==> r == Err::<u64, VkResult>(VK_ERROR_INCOMPATIBLE_DRIVER)
                && *final(self) == *old(self),
            old(self).online() ==> {
                &&& r == Ok::<u64, VkResult>((old(self).instances_created() + 1) as u64)
                &&& final(self).instances_created() == old(self).instances_created().wrapping_add(1)
                &&& final(self).live_vk_instances() == old(self).live_vk_instances().saturating_add(1)
                &&& final(self).online() == old(self).online()
                &&& final(self).drm_device() == old(self).drm_device()
                &&& final(self).gl_context_count() == old(self).gl_context_count()
            },
    {
        proof {
            use_type_invariant(&*self);
        }
        if !self.gsp_online {
            return Err(VK_ERROR_INCOMPATIBLE_DRIVER);
        }
        let id = self.instance_count as u64 + 1;
        self.instance_count = self.instance_count.wrapping_add(1);
        self.vk_instances = self.vk_instances.saturating_add(1);
        Ok(id)
    }

    /// `vkDestroyInstance`: the null handle is ignored; any other retires one
    /// live instance.
    pub fn destroy_vk_instance(&mut self, instance: u64)
        ensures
            instance == 0 ==> *final(self) == *old(self),
            instance != 0 ==> {
                &&& final(self).live_vk_instances() == old(self).live_vk_instances().saturating_sub(1)
                &&& final(self).online() == old(self).online()
                &&& final(self).instances_created() == old(self).instances_created()
                &&& final(self).drm_device() == old(self).drm_device()
                &&& final(self).gl_context_count() == old(self).gl_context_count()
            },
    {
        proof {
            use_type_invariant(&*self);
        }
        if instance == 0 {
            return;
        }
        self.vk_instances = self.vk_instances.saturating_sub(1);
    }

    /// `vkEnumeratePhysicalDevices`: one device while the GSP is online, none
    /// otherwise.
    pub fn physical_device_count(&self) -> (n: u32)
        ensures
            n == spec_physical_device_count(*self),
    {
        if self.gsp_online {
            1
        } else {
            0
        }
    }

    /// `glGetError`: no error while online, an invalid operation otherwise.
    pub fn gl_error(&self) -> (e: GLenum)
        ensures
            e == spec_gl_error(*self),
    {
        if self.gsp_online {
            GL_NO_ERROR
        } else {
            GL_INVALID_OPERATION
        }
    }
}

/// Records whether the GSP is online and brings the display with it: an
/// existing device follows the flag, and one is made (online, one head) when
/// the GSP comes up without one. Going offline drops every instance and context.
pub fn hermes_mesa_set_gsp_online(state: &mut MesaState, online: bool)
    ensures
        final(state).online() == online,
        final(state).instances_created() == old(state).instances_created(),
        online ==> final(state).live_vk_instances() == old(state).live_vk_instances()
            && final(state).gl_context_count() == old(state).gl_context_count(),
        !online ==> final(state).live_vk_instances() == 0 && final(state).gl_context_count() == 0,
        old(state).drm_device() is None && !online ==> final(state).drm_device() is None,
        old(state).drm_device() is Some || online ==> (final(state).drm_device() matches Some(d)
            ==> d.gsp_online == online),
        old(state).drm_device() is Some || online ==> final(state).drm_device() is Some,
        !online ==> (final(state).drm_device() matches Some(d) ==> d.framebuffers@.len() == 0
            && d.crtcs@.len() == 1 && !d.crtcs@[0].active),
{
    proof {
        use_type_invariant(&*state);
    }
    state.gsp_online = online;
    let mut slot: Option<DrmDevice> = None;
    std::mem::swap(&mut slot, &mut state.drm);
    match slot {
        Some(mut d) => {
            d.set_gsp_online(online);
            state.drm = Some(d);
        },
        None => {
            if online {
                state.drm = Some(DrmDevice::virtual_desktop(true));
            }
        },
    }
    if !online {
        state.vk_instances = 0;
        state.gl_contexts = 0;
    }
}

pub fn hermes_mesa_gsp_online(state: &MesaState) -> (online: bool)
    ensures
        online == state.online(),
{
    state.gsp_online
}

/// Back to the state [`MesaState::new`] gives.
pub fn hermes_mesa_reset(state: &mut MesaState)
    ensures
        !final(state).online(),
        final(state).instances_created() == 0,
        final(state).drm_device() is None,
        final(state).live_vk_instances() == 0,
        final(state).gl_context_count() == 0,
{
    *state = MesaState::new();
}

/// A GL context token: `None` while offline, else the number of contexts made
/// so far, counting this one (saturating at `u32::MAX`).
pub fn hermes_gl_create_context(state: &mut MesaState) -> (token: Option<u32>)
    ensures
        !old(state).online() ==> token is None && *final(state) == *old(state),
        old(state).online() ==> {
            &&& final(state).gl_context_count() == old(state).gl_context_count().saturating_add(1)
            &&& token == Some(final(state).gl_context_count())
            &&& final(state).online() == old(state).online()
            &&& final(state).instances_created() == old(state).instances_created()
            &&& final(state).live_vk_instances() == old(state).live_vk_instances()
            &&& final(state).drm_device() == old(state).drm_device()
        },
{
    proof {
        use_type_invariant(&*state);
    }
    if !state.gsp_online {
        return None;
    }
    state.gl_contexts = state.gl_contexts.saturating_add(1);
    Some(state.gl_contexts)
}

/// Presents a solid frame through the DRM atomic path.
pub fn hermes_present_solid_frame(state: &mut MesaState) -> (r: Result<u64, present::PresentError>)
    ensures
        r == present::spec_present_outcome(*old(state)),
        !old(state).online() ==> *final(state) == *old(state),
        old(state).online() ==> present::spec_presented(*old(state), *final(state)),
{
    present::present_solid(state)
}

/// While the GSP is offline the surface advertises nothing: no physical device,
/// GL reports an invalid operation, and a present is refused as offline.
pub proof fn offline_surface_advertises_nothing(state: MesaState)
    requires
        !state.online(),
    ensures
        spec_physical_device_count(state) == 0,
        spec_gl_error(state) == GL_INVALID_OPERATION,
        present::spec_present_outcome(state) == Err::<u64, present::PresentError>(
            present::PresentError::Offline,
        ),
{
}

/// Library the ICD document points the loader at.
pub fn hermes_vulkan_icd_library_path() -> (path: &'static str)
    ensures
        path@ == ICD_LIBRARY_BASENAME@,
{
    ICD_LIBRARY_BASENAME
}

/// Vulkan 1.3 in the API's version encoding (major at bit 22, minor at bit 12).
pub fn hermes_vulkan_api_version() -> (v: u32)
    ensures
        v == (1u32 << 22u32) | (3u32 << 12u32),
        v == 0x0040_3000,
{
    let v = (1u32 << 22u32) | (3u32 << 12u32);
    assert((1u32 << 22u32) | (3u32 << 12u32) == 0x0040_3000u32) by (bit_vector);
    v
}

} // verus!
