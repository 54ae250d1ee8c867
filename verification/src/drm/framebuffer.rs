//! Framebuffers: scanout descriptions of buffer objects.

use vstd::prelude::*;

use crate::drm::gem::GemObject;

verus! {

/// Pixel layouts, each four bytes per pixel.
#[derive(Clone, Copy, Debug, PartialEq, Eq, Structural)]
pub enum PixelFormat {
    Xrgb8888,
    Argb8888,
    Xbgr8888,
}

impl PixelFormat {
    pub fn bytes_per_pixel(self) -> (n: u32)
        ensures
            n == 4,
    {
        match self {
            PixelFormat::Xrgb8888 | PixelFormat::Argb8888 | PixelFormat::Xbgr8888 => 4,
        }
    }

    /// The format's fourcc-style tag.
    pub fn fourcc(self) -> (tag: u32)
        ensures
            tag == match self {
                PixelFormat::Xrgb8888 => 0x3432_5258u32,
                PixelFormat::Argb8888 => 0x3432_5241u32,
                PixelFormat::Xbgr8888 => 0x3432_5242u32,
            },
    {
        match self {
            PixelFormat::Xrgb8888 => 0x3432_5258,
            PixelFormat::Argb8888 => 0x3432_5241,
            PixelFormat::Xbgr8888 => 0x3432_5242,
        }
    }
}

#[derive(Clone, Copy, Debug, PartialEq, Eq, Structural)]
pub struct Framebuffer {
    pub id: u32,
    pub width: u32,
    pub height: u32,
    pub pitch: u32,
    pub format: PixelFormat,
    pub bo_handle: u64,
}

#[derive(Clone, Copy, Debug, PartialEq, Eq, Structural)]
pub enum FramebufferError {
    InvalidSize,
    FormatMismatch,
}

impl Framebuffer {
    /// A tightly packed framebuffer; refused for an empty area or a row wider
    /// than 32 bits.
    pub fn new(id: u32, width: u32, height: u32, format: PixelFormat, bo_handle: u64) -> (r: Result<
        Self,
        FramebufferError,
    >)
        ensures
            (width == 0 || height == 0 || width * 4 > u32::MAX) ==> r == Err::<
                Self,
                FramebufferError,
            >(FramebufferError::InvalidSize),
            !(width == 0 || height == 0 || width * 4 > u32::MAX) ==> r == Ok::<
                Self,
                FramebufferError,
            >(Framebuffer { id, width, height, pitch: (width * 4) as u32, format, bo_handle }),
    {
        if width == 0 || height == 0 {
            return Err(FramebufferError::InvalidSize);
        }
        let pitch = match width.checked_mul(format.bytes_per_pixel()) {
            Some(p) => p,
            None => {
                return Err(FramebufferError::InvalidSize);
            },
        };
        Ok(Framebuffer { id, width, height, pitch, format, bo_handle })
    }

    /// A framebuffer over a GEM object, taking its geometry; the object needs at
    /// least 32 bits per pixel.
    pub fn from_gem(id: u32, gem: &GemObject, format: PixelFormat) -> (r: Result<
        Self,
        FramebufferError,
    >)
        ensures
            (gem.width == 0 || gem.height == 0) ==> r == Err::<Self, FramebufferError>(
                FramebufferError::InvalidSize),
            !(gem.width == 0 || gem.height == 0) && gem.bpp < 32 ==> r == Err::<
                Self,
                FramebufferError,
            >(FramebufferError::FormatMismatch),
            !(gem.width == 0 || gem.height == 0) && gem.bpp >= 32 ==> r == Ok::<
                Self,
                FramebufferError,
            >(
                Framebuffer {
                    id,
                    width: gem.width,
                    height: gem.height,
                    pitch: gem.pitch,
                    format,
                    bo_handle: gem.handle as u64,
                },
            ),
    {
        if gem.width == 0 || gem.height == 0 {
            return Err(FramebufferError::InvalidSize);
        }
        if gem.bpp < format.bytes_per_pixel() * 8 {
            return Err(FramebufferError::FormatMismatch);
        }
        Ok(
            Framebuffer {
                id,
                width: gem.width,
                height: gem.height,
                pitch: gem.pitch,
                format,
                bo_handle: gem.handle as u64,
            },
        )
    }

    /// Bytes covered: pitch times height.
    pub fn size_bytes(self) -> (n: u64)
        ensures
            n == self.pitch * self.height,
    {
        assert((self.pitch as u64) * (self.height as u64) <= 0xffff_ffff * 0xffff_ffff) by (nonlinear_arith)
            requires
                self.pitch <= 0xffff_ffff,
                self.height <= 0xffff_ffff,
        ;
        (self.pitch as u64) * (self.height as u64)
    }
}

} // verus!
