//! The swapchain's fixed shape: resolution, one array layer per eye, and
//! the values derived from it that swapchain creation, composition and the
//! per-frame uniform buffer need.

use vstd::prelude::*;

verus! {

/// Size and layering of the session's swapchain images: a fixed resolution
/// and one array layer per view.
#[derive(Clone, Copy, PartialEq, Eq, Structural, Debug)]
pub struct SwapchainDescriptor {
    pub width: u32,
    pub height: u32,
    pub view_count: u32,
}

/// The creation parameters derived from a descriptor: single-sampled color
/// images at the descriptor's resolution, one face, one mip level, and one
/// array layer per view.
#[derive(Clone, Copy, PartialEq, Eq, Structural, Debug)]
pub struct SwapchainImageInfo {
    pub width: u32,
    pub height: u32,
    pub array_size: u32,
    pub sample_count: u32,
    pub face_count: u32,
    pub mip_count: u32,
}

/// Derives the swapchain creation parameters from the descriptor.
pub fn swapchain_image_info(desc: &SwapchainDescriptor) -> (info: SwapchainImageInfo)
    ensures
        info.width == desc.width,
        info.height == desc.height,
        info.array_size == desc.view_count,
        info.sample_count == 1,
        info.face_count == 1,
        info.mip_count == 1,
{
    SwapchainImageInfo {
        width: desc.width,
        height: desc.height,
        array_size: desc.view_count,
        sample_count: 1,
        face_count: 1,
        mip_count: 1,
    }
}

/// The sub-image rectangle composited for each eye: the whole image, with
/// its origin at zero.
#[derive(Clone, Copy, PartialEq, Eq, Structural, Debug)]
pub struct ImageRect {
    pub offset_x: i32,
    pub offset_y: i32,
    pub width: i32,
    pub height: i32,
}

/// The composition rectangle for one eye's sub-image: origin zero, extent
/// the full swapchain resolution.
pub fn image_rect(desc: &SwapchainDescriptor) -> (rect: ImageRect)
    requires
        desc.width <= i32::MAX,
        desc.height <= i32::MAX,
    ensures
        rect.offset_x == 0,
        rect.offset_y == 0,
        rect.width == desc.width,
        rect.height == desc.height,
{
    ImageRect {
        offset_x: 0,
        offset_y: 0,
        width: desc.width as i32,
        height: desc.height as i32,
    }
}

/// Bytes of one column-major 4-by-4 single-precision matrix.
pub const MATRIX_BYTES: u64 = 64;

/// Size of the per-frame uniform buffer: one view-projection matrix per
/// view.
pub fn uniform_buffer_size(view_count: u32) -> (size: u64)
    ensures
        size == view_count * MATRIX_BYTES,
{
    (view_count as u64) * MATRIX_BYTES
}

} // verus!
