//! Software DRM/KMS model: modes, connectors, CRTCs, planes, framebuffers,
//! GEM dumb buffers, properties, synthetic EDID and atomic commits.

pub mod connector;
pub mod crtc;
pub mod edid;
pub mod framebuffer;
pub mod gem;
pub mod mode;
pub mod plane;
pub mod property;
pub mod atomic;
pub mod device;
pub mod pageflip;
