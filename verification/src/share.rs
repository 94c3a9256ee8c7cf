//! Shared ownership of the runtime's swapchain handle. The swapchain images
//! are owned by the runtime; the rendering layer only wraps them. Each
//! wrapped texture therefore holds one reference to the swapchain handle,
//! released from the texture's drop hook, and the session holds one of its
//! own, so the runtime object outlives every texture that still points into
//! it and is freed exactly when the last reference goes.

use vstd::prelude::*;

verus! {

/// The reference count guarding the swapchain handle: one reference for the
/// session's own handle, one per wrapped texture.
pub struct SwapchainShare {
    session_held: bool,
    texture_refs: u64,
}

impl SwapchainShare {
    /// How many wrapped textures still hold a reference.
    pub closed spec fn textures(self) -> nat {
        self.texture_refs as nat
    }

    /// Whether the session still holds its own reference.
    pub closed spec fn session_held(self) -> bool {
        self.session_held
    }

    /// Total live references to the swapchain handle.
    pub open spec fn ref_count(self) -> nat {
        self.textures() + if self.session_held() {
            1nat
        } else {
            0nat
        }
    }

    /// The swapchain object has been released back to the runtime: nothing
    /// references it any more.
    pub open spec fn freed(self) -> bool {
        self.ref_count() == 0
    }

    /// A fresh swapchain: the session holds the only reference, no texture
    /// wraps an image yet.
    pub fn create() -> (share: Self)
        ensures
            share.session_held(),
            share.textures() == 0,
            share.ref_count() == 1,
    {
        SwapchainShare { session_held: true, texture_refs: 0 }
    }

    /// Wrapping a swapchain image in a texture adds one reference. Only a
    /// live handle can be wrapped.
    pub fn wrap_texture(&mut self)
        requires
            !old(self).freed(),
            old(self).textures() < u64::MAX,
        ensures
            final(self).textures() == old(self).textures() + 1,
            final(self).session_held() == old(self).session_held(),
            !final(self).freed(),
    {
        self.texture_refs = self.texture_refs + 1;
    }

    /// Dropping a wrapped texture gives its reference back. The handle is
    /// freed only if this was the last reference of all.
    pub fn drop_texture(&mut self)
        requires
            old(self).textures() > 0,
        ensures
            final(self).textures() == old(self).textures() - 1,
            final(self).session_held() == old(self).session_held(),
            final(self).freed() <==> old(self).ref_count() == 1,
    {
        self.texture_refs = self.texture_refs - 1;
    }

    /// Dropping the session's own handle gives its reference back; images
    /// still wrapped by textures keep the swapchain alive.
    pub fn drop_session_handle(&mut self)
        requires
            old(self).session_held(),
        ensures
            !final(self).session_held(),
            final(self).textures() == old(self).textures(),
            final(self).freed() <==> old(self).textures() == 0,
    {
        self.session_held = false;
    }

    /// How many wrapped textures still hold a reference.
    pub fn texture_count(&self) -> (n: u64)
        ensures
            n == self.textures(),
    {
        self.texture_refs
    }

    /// Whether the swapchain object has been released.
    pub fn is_freed(&self) -> (b: bool)
        ensures
            b == self.freed(),
    {
        self.texture_refs == 0 && !self.session_held
    }
}

/// While any wrapped texture still exists, the swapchain handle's reference
/// count cannot reach zero, so the runtime object stays alive under every
/// texture that points into it.
pub proof fn lemma_alive_while_textures(share: SwapchainShare)
    ensures
        share.textures() > 0 ==> !share.freed(),
{
}

} // verus!
