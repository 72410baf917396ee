//! Size tracking for render targets and the window surface.

use vstd::prelude::*;

verus! {

/// What a render target does when asked for a new size.
#[derive(Clone, Copy, Debug, PartialEq, Eq, Structural)]
pub enum ResizeAction {
    /// The size is the one it already has: nothing to do.
    Keep,
    /// The new size has a zero side: drop the texture, draw nothing.
    Release,
    /// Recreate the size-dependent textures at the new size.
    Rebuild,
}

/// The size a render target was last set to.
#[derive(Clone, Copy, Debug, PartialEq, Eq)]
pub struct Viewport {
    pub current: (u32, u32),
}

/// The action for a resize from `current` to `(width, height)`.
pub open spec fn resize_action_spec(current: (u32, u32), width: u32, height: u32) -> ResizeAction {
    if current == (width, height) {
        ResizeAction::Keep
    } else if width == 0 || height == 0 {
        ResizeAction::Release
    } else {
        ResizeAction::Rebuild
    }
}

impl Viewport {
    /// A viewport that was last set to `width` x `height`.
    pub fn new(width: u32, height: u32) -> (v: Viewport)
        ensures
            v.current == (width, height),
    {
        Viewport { current: (width, height) }
    }

    /// Records a request for `width` x `height` and says what the target has
    /// to do: keep its textures when the size is unchanged, release them when
    /// a side is zero, and rebuild them otherwise.
    pub fn resize(&mut self, width: u32, height: u32) -> (a: ResizeAction)
        ensures
            final(self).current == (width, height),
            a == resize_action_spec(old(self).current, width, height),
    {
        if self.current.0 == width && self.current.1 == height {
            return ResizeAction::Keep;
        }
        self.current = (width, height);
        if width == 0 || height == 0 {
            ResizeAction::Release
        } else {
            ResizeAction::Rebuild
        }
    }

    /// Records the size `size`; true when it differs from the previous one,
    /// in which case the size-dependent resources must be recreated.
    pub fn update(&mut self, size: (u32, u32)) -> (changed: bool)
        ensures
            final(self).current == size,
            changed == (old(self).current != size),
    {
        let changed = !(self.current.0 == size.0 && self.current.1 == size.1);
        self.current = size;
        changed
    }
}

/// Asking twice for the same size does the work once: right after a resize
/// to `width` x `height`, a second resize to it keeps everything.
pub proof fn lemma_resize_settles(current: (u32, u32), width: u32, height: u32)
    ensures
        resize_action_spec((width, height), width, height) == ResizeAction::Keep,
        resize_action_spec(current, width, height) == ResizeAction::Release ==> (width == 0
            || height == 0),
        resize_action_spec(current, width, height) == ResizeAction::Keep ==> current == (
            width,
            height,
        ),
{
}

/// A new size with a zero side always releases the textures, and a new size
/// with both sides positive always rebuilds them; only an unchanged size keeps
/// them.
pub proof fn lemma_resize_by_size(current: (u32, u32), width: u32, height: u32)
    ensures
        current != (width, height) && (width == 0 || height == 0) ==> resize_action_spec(
            current,
            width,
            height,
        ) == ResizeAction::Release,
        current != (width, height) && width > 0 && height > 0 ==> resize_action_spec(
            current,
            width,
            height,
        ) == ResizeAction::Rebuild,
        current == (width, height) <==> resize_action_spec(current, width, height)
            == ResizeAction::Keep,
{
}

/// The surface extent for a window of `width` x `height` pixels: each side
/// at least 1, as a surface cannot be configured with a zero side.
pub fn surface_extent(width: u32, height: u32) -> (e: (u32, u32))
    ensures
        e.0 == (if width == 0 { 1 } else { width }),
        e.1 == (if height == 0 { 1 } else { height }),
{
    (if width < 1 { 1 } else { width }, if height < 1 { 1 } else { height })
}

} // verus!
