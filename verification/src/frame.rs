//! The sizes of one frame: the viewport handed to the renderer and the
//! buffers its pixels are read back into.

use vstd::prelude::*;

verus! {

/// Bytes of colour per pixel.
pub const RGB_BYTES: u64 = 3;

/// The rectangle that is rendered into, in pixels from the lower left corner.
#[derive(Debug, Clone, Copy, PartialEq, Eq, Structural)]
pub struct Viewport {
    pub left: i32,
    pub bottom: i32,
    pub width: i32,
    pub height: i32,
}

/// The viewport of a window and the lengths of the buffers for its pixels.
#[derive(Debug, Clone, Copy, PartialEq, Eq, Structural)]
pub struct FrameLayout {
    /// The whole window.
    pub viewport: Viewport,
    /// Length of the colour buffer: three bytes a pixel.
    pub rgb_len: usize,
    /// Length of the depth buffer: one entry a pixel.
    pub depth_len: usize,
}

/// Whether a window of this size has a frame layout: each side fits the
/// renderer's signed coordinates, the pixels can be counted in 32 bits, and
/// the colour buffer can be addressed.
pub open spec fn frame_fits(width: u32, height: u32) -> bool {
    &&& width <= i32::MAX
    &&& height <= i32::MAX
    &&& width * height <= u32::MAX
    &&& width * height * RGB_BYTES <= usize::MAX
}

/// The frame layout of a window `width` by `height` pixels, where it has one.
pub fn frame_layout(width: u32, height: u32) -> (layout: Option<FrameLayout>)
    ensures
        layout.is_some() <==> frame_fits(width, height),
        layout matches Some(l) ==> {
            &&& l.viewport == (Viewport {
                left: 0,
                bottom: 0,
                width: width as i32,
                height: height as i32,
            })
            &&& l.depth_len == width * height
            &&& l.rgb_len == width * height * RGB_BYTES
        },
{
    if width > 0x7fff_ffff || height > 0x7fff_ffff {
        return None;
    }
    assert(width * height <= 0x7fff_ffff * 0x7fff_ffff) by (nonlinear_arith)
        requires
            width <= 0x7fff_ffff,
            height <= 0x7fff_ffff,
    ;
    let pixels: u64 = (width as u64) * (height as u64);
    if pixels > 0xffff_ffff {
        return None;
    }
    let bytes: u64 = pixels * RGB_BYTES;
    if bytes > usize::MAX as u64 {
        return None;
    }
    Some(
        FrameLayout {
            viewport: Viewport { left: 0, bottom: 0, width: width as i32, height: height as i32 },
            rgb_len: bytes as usize,
            depth_len: pixels as usize,
        },
    )
}

} // verus!
