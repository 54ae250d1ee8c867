use hermes::drm::atomic::{AtomicCommit, AtomicRequest, CommitError};
use hermes::drm::device::{DrmDevice, DrmError};
use hermes::drm::edid::{build_base_edid, edid_checksum_ok, edid_preferred_size};
use hermes::drm::framebuffer::{Framebuffer, FramebufferError, PixelFormat};
use hermes::drm::gem::{DumbCreateRequest, GemError, GemManager};
use hermes::drm::mode::DisplayMode;
use hermes::drm::pageflip::{page_flip, FlipError, PageFlipRequest, FLIP_FLAG_EVENT};
use hermes::drm::property::{PropType, PropertyStore};

fn fhd_request(fb_id: u32) -> AtomicRequest {
    AtomicRequest {
        connector_id: 1,
        crtc_id: 1,
        plane_id: 1,
        fb_id,
        mode: DisplayMode::fhd_60(),
        active: true,
    }
}

#[test]
fn offline_commit_fails() {
    let mut dev = DrmDevice::virtual_desktop(false);
    let fb = Framebuffer::new(10, 1920, 1080, PixelFormat::Xrgb8888, 1).unwrap();
    dev.framebuffers.push(fb);
    let mut atom = AtomicCommit::new();
    let req = fhd_request(10);
    assert_eq!(atom.commit(&mut dev, &req), Err(CommitError::GspOffline));
}

#[test]
fn online_commit_succeeds() {
    let mut dev = DrmDevice::virtual_desktop(true);
    let fb = Framebuffer::new(10, 1920, 1080, PixelFormat::Xrgb8888, 1).unwrap();
    dev.framebuffers.push(fb);
    let mut atom = AtomicCommit::new();
    let req = fhd_request(10);
    let r = atom.commit(&mut dev, &req).unwrap();
    assert!(r.active);
    assert_eq!(r.sequence, 1);
    assert!(dev.crtcs[0].active);
}

#[test]
fn disable_crtc_after_commit() {
    let mut dev = DrmDevice::virtual_desktop(true);
    let fb = Framebuffer::new(10, 1920, 1080, PixelFormat::Xrgb8888, 1).unwrap();
    dev.framebuffers.push(fb);
    let mut atom = AtomicCommit::new();
    let req = fhd_request(10);
    atom.commit(&mut dev, &req).unwrap();
    let r = atom.disable_crtc(&mut dev, 1).unwrap();
    assert!(!r.active);
    assert!(!dev.crtcs[0].active);
    assert!(dev.planes[0].fb_id.is_none());
}

#[test]
fn dual_head_second_output() {
    let mut dev = DrmDevice::virtual_dual_head(true);
    let fb = Framebuffer::new(20, 1280, 720, PixelFormat::Xrgb8888, 2).unwrap();
    dev.framebuffers.push(fb);
    let mut atom = AtomicCommit::new();
    let req = AtomicRequest {
        connector_id: 2,
        crtc_id: 2,
        plane_id: 2,
        fb_id: 20,
        mode: DisplayMode::hd_60(),
        active: true,
    };
    let r = atom.commit(&mut dev, &req).unwrap();
    assert!(r.active);
    assert!(dev.crtcs[1].active);
    assert!(!dev.crtcs[0].active);
}

#[test]
fn commit_rejects_unknown_objects_and_missing_framebuffer() {
    let mut dev = DrmDevice::virtual_desktop(true);
    let mut atom = AtomicCommit::new();
    assert_eq!(atom.commit(&mut dev, &fhd_request(10)), Err(CommitError::InvalidFramebuffer));
    let fb = Framebuffer::new(10, 1920, 1080, PixelFormat::Xrgb8888, 1).unwrap();
    dev.framebuffers.push(fb);
    let mut bad = fhd_request(10);
    bad.crtc_id = 9;
    assert_eq!(atom.commit(&mut dev, &bad), Err(CommitError::InvalidCrtc));
    let mut bad = fhd_request(10);
    bad.connector_id = 9;
    assert_eq!(atom.commit(&mut dev, &bad), Err(CommitError::InvalidConnector));
    let mut bad = fhd_request(10);
    bad.plane_id = 9;
    assert_eq!(atom.commit(&mut dev, &bad), Err(CommitError::InvalidPlane));
    assert_eq!(atom.sequence, 0);
    assert!(!dev.crtcs[0].active);
}

#[test]
fn virtual_desktop_has_edid_when_online() {
    let d = DrmDevice::virtual_desktop(true);
    let edid = d.connector_edid(1).expect("edid");
    assert!(edid_checksum_ok(edid));
    assert_eq!(edid_preferred_size(edid), Some((1920, 1080)));
    let off = DrmDevice::virtual_desktop(false);
    assert!(off.connector_edid(1).is_none());
}

#[test]
fn virtual_desktop_shape() {
    let d = DrmDevice::virtual_desktop(true);
    assert_eq!(d.connectors.len(), 1);
    assert_eq!(d.crtcs.len(), 1);
    assert_eq!(d.planes.len(), 1);
    assert!(d.gsp_online);
}

#[test]
fn virtual_dual_head_shape() {
    let d = DrmDevice::virtual_dual_head(true);
    assert_eq!(d.connector_count(), 2);
    assert_eq!(d.crtcs.len(), 2);
    assert_eq!(d.planes.len(), 2);
}

#[test]
fn offline_clears_active_state() {
    let mut d = DrmDevice::virtual_desktop(true);
    d.crtcs[0].active = true;
    d.set_gsp_online(false);
    assert!(!d.gsp_online);
    assert_eq!(d.active_crtc_count(), 0);
}

#[test]
fn dumb_to_fb_pipeline() {
    let mut d = DrmDevice::virtual_desktop(true);
    let dumb = d.create_dumb(1920, 1080, 32).unwrap();
    let fb_id = d.add_fb_from_gem(dumb.handle, PixelFormat::Xrgb8888).unwrap();
    assert_eq!(fb_id, 1);
    assert_eq!(d.framebuffers[0].bo_handle, dumb.handle as u64);
    d.set_gsp_online(false);
    assert_eq!(d.gems.count(), 0);
    assert!(d.framebuffers.is_empty());
}

#[test]
fn device_refuses_dumb_buffers_while_offline() {
    let mut d = DrmDevice::virtual_desktop(false);
    assert_eq!(d.create_dumb(64, 64, 32), Err(DrmError::Gem(GemError::GspOffline)));
    assert_eq!(d.add_fb_from_gem(1, PixelFormat::Xrgb8888), Err(DrmError::GspOffline));
}

#[test]
fn fhd_edid_checksum_and_size() {
    let e = build_base_edid(DisplayMode::fhd_60(), "Hermes FHD");
    assert_eq!(e.len(), 128);
    assert!(edid_checksum_ok(&e));
    assert_eq!(edid_preferred_size(&e), Some((1920, 1080)));
}

#[test]
fn hd_edid_checksum_and_size() {
    let e = build_base_edid(DisplayMode::hd_60(), "Hermes HD");
    assert_eq!(e.len(), 128);
    assert!(edid_checksum_ok(&e));
    assert_eq!(edid_preferred_size(&e), Some((1280, 720)));
    let mut broken = e.clone();
    broken[127] = broken[127].wrapping_add(1);
    assert!(!edid_checksum_ok(&broken));
    assert_eq!(edid_preferred_size(&e[..60]), None);
}

#[test]
fn fb_pitch_and_size() {
    let fb = Framebuffer::new(1, 1920, 1080, PixelFormat::Xrgb8888, 0x1000).unwrap();
    assert_eq!(fb.pitch, 1920 * 4);
    assert_eq!(fb.size_bytes(), 1920 * 1080 * 4);
}

#[test]
fn framebuffer_rejects_zero_extent() {
    assert_eq!(
        Framebuffer::new(1, 0, 1080, PixelFormat::Xrgb8888, 1),
        Err(FramebufferError::InvalidSize)
    );
    assert_eq!(
        Framebuffer::new(1, 1920, 0, PixelFormat::Argb8888, 1),
        Err(FramebufferError::InvalidSize)
    );
    let fb = Framebuffer::new(2, 640, 480, PixelFormat::Xbgr8888, 1).unwrap();
    assert_eq!(fb.pitch, 2560);
    assert_eq!(fb.size_bytes(), 640 * 480 * 4);
}

#[test]
fn dumb_create_aligns_pitch() {
    let mut m = GemManager::new();
    let r = m
        .create_dumb(true, &DumbCreateRequest { width: 1920, height: 1080, bpp: 32 })
        .unwrap();
    assert_eq!(r.handle, 1);
    assert_eq!(r.pitch % 64, 0);
    assert!(r.size >= 1920 * 1080 * 4);
    assert_eq!(m.count(), 1);
}

#[test]
fn dumb_requires_gsp() {
    let mut m = GemManager::new();
    assert_eq!(
        m.create_dumb(false, &DumbCreateRequest { width: 64, height: 64, bpp: 32 }),
        Err(GemError::GspOffline)
    );
}

#[test]
fn dumb_rejects_bad_geometry() {
    let mut m = GemManager::new();
    assert_eq!(
        m.create_dumb(true, &DumbCreateRequest { width: 0, height: 64, bpp: 32 }),
        Err(GemError::InvalidSize)
    );
    assert_eq!(
        m.create_dumb(true, &DumbCreateRequest { width: 16384, height: 16384, bpp: 32 }),
        Err(GemError::OutOfMemory)
    );
    assert_eq!(m.count(), 0);
    assert_eq!(m.destroy(7), Err(GemError::InvalidHandle));
}

#[test]
fn fill_and_destroy() {
    let mut m = GemManager::new();
    let r = m
        .create_dumb(true, &DumbCreateRequest { width: 16, height: 16, bpp: 32 })
        .unwrap();
    m.get_mut(r.handle).unwrap().fill_solid_xrgb8888(0x00ff_0000).unwrap();
    assert_eq!(m.get(r.handle).unwrap().data[0], 0x00);
    assert_eq!(m.get(r.handle).unwrap().data[2], 0xff);
    m.destroy(r.handle).unwrap();
    assert_eq!(m.count(), 0);
}

#[test]
fn fhd_mode_valid() {
    let m = DisplayMode::fhd_60();
    assert!(m.valid());
    assert!(m.refresh_hz_approx() >= 59 && m.refresh_hz_approx() <= 61);
}

#[test]
fn fhd_refresh_is_exactly_sixty() {
    assert_eq!(DisplayMode::fhd_60().refresh_hz_approx(), 60);
    assert_eq!(DisplayMode::hd_60().refresh_hz_approx(), 60);
}

#[test]
fn flip_requires_active_crtc() {
    let mut dev = DrmDevice::virtual_desktop(true);
    let fb = Framebuffer::new(10, 1920, 1080, PixelFormat::Xrgb8888, 1).unwrap();
    dev.framebuffers.push(fb);
    let mut atom = AtomicCommit::new();
    let req = PageFlipRequest { crtc_id: 1, fb_id: 10, flags: FLIP_FLAG_EVENT };
    assert_eq!(page_flip(&mut atom, &mut dev, &req), Err(FlipError::NotActive));
}

#[test]
fn flip_after_modeset_emits_vblank() {
    let mut dev = DrmDevice::virtual_desktop(true);
    let fb1 = Framebuffer::new(10, 1920, 1080, PixelFormat::Xrgb8888, 1).unwrap();
    let fb2 = Framebuffer::new(11, 1920, 1080, PixelFormat::Xrgb8888, 2).unwrap();
    dev.framebuffers.push(fb1);
    dev.framebuffers.push(fb2);
    let mut atom = AtomicCommit::new();
    atom.commit(&mut dev, &fhd_request(10)).unwrap();
    let r = page_flip(
        &mut atom,
        &mut dev,
        &PageFlipRequest { crtc_id: 1, fb_id: 11, flags: FLIP_FLAG_EVENT },
    )
    .unwrap();
    assert!(r.active);
    assert_eq!(dev.crtcs[0].fb_id, Some(11));
    let ev = dev.vblank.pop_event().unwrap();
    assert_eq!(ev.fb_id, 11);
    assert_eq!(ev.sequence, 1);
    assert!((1..=50).contains(&dev.vblank.service_quantum_us));
}

#[test]
fn flip_offline_and_bad_fb() {
    let mut dev = DrmDevice::virtual_desktop(false);
    let mut atom = AtomicCommit::new();
    let req = PageFlipRequest { crtc_id: 1, fb_id: 10, flags: FLIP_FLAG_EVENT };
    assert_eq!(page_flip(&mut atom, &mut dev, &req), Err(FlipError::GspOffline));
    let mut dev = DrmDevice::virtual_desktop(true);
    let fb = Framebuffer::new(10, 1920, 1080, PixelFormat::Xrgb8888, 1).unwrap();
    dev.framebuffers.push(fb);
    atom.commit(&mut dev, &fhd_request(10)).unwrap();
    let req = PageFlipRequest { crtc_id: 1, fb_id: 99, flags: FLIP_FLAG_EVENT };
    assert_eq!(page_flip(&mut atom, &mut dev, &req), Err(FlipError::InvalidFramebuffer));
    let req = PageFlipRequest { crtc_id: 5, fb_id: 10, flags: FLIP_FLAG_EVENT };
    assert_eq!(page_flip(&mut atom, &mut dev, &req), Err(FlipError::InvalidCrtc));
}

#[test]
fn blob_and_object_value() {
    let mut s = PropertyStore::new();
    let edid_prop = s.create_prop("EDID", PropType::Blob, Vec::new());
    let blob = s.create_blob(vec![1, 2, 3, 4]);
    s.set(1, edid_prop, blob as u64);
    assert_eq!(s.get(1, edid_prop), Some(blob as u64));
    assert_eq!(s.blob(blob).unwrap().data, &[1, 2, 3, 4]);
}

#[test]
fn property_set_overwrites_and_get_misses() {
    let mut s = PropertyStore::new();
    let p = s.create_prop("ACTIVE", PropType::Range, vec![0, 1]);
    assert_eq!(s.get(3, p), None);
    s.set(3, p, 1);
    s.set(3, p, 0);
    assert_eq!(s.get(3, p), Some(0));
    assert_eq!(s.get(4, p), None);
    assert_eq!(s.prop_count(), 1);
    assert!(s.blob(42).is_none());
}
