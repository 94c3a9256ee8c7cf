//! Decision logic for a stereo VR frame loop: the session-state machine, the
//! per-frame action sequence, the swapchain sharing discipline, and the small
//! derived values (version checks, view masks, buffer sizes) that the
//! unverified runtime glue consumes.

use vstd::prelude::*;

pub mod debug_messages;
pub mod frame;
pub mod queue;
pub mod session_state;
pub mod share;
pub mod swapchain;
pub mod version;

verus! {

/// Number of eyes rendered, one array layer each.
pub const VIEW_COUNT: u32 = 2;

/// Samples per pixel of the intermediate framebuffer the multiview pass
/// renders into before resolving to the swapchain image.
pub const MSAA_SAMPLE_COUNT: u32 = 4;

/// Bit mask selecting the array layers a multiview draw renders into:
/// one bit per view, views counted from bit zero.
pub fn multiview_mask(view_count: u32) -> (mask: u32)
    requires
        1 <= view_count <= 31,
    ensures
        mask == (1u32 << view_count) - 1,
        mask >= 1,
{
    assert((1u32 << view_count) - 1 >= 1) by (bit_vector)
        requires 1 <= view_count <= 31;
    (1u32 << view_count) - 1
}

} // verus!
