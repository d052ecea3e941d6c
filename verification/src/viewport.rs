use vstd::prelude::*;

verus! {

/// A framebuffer dimension: the window's, but never 0.
pub open spec fn spec_extent(x: u32) -> u32 {
    if x == 0 { 1 } else { x }
}

/// Clamps a framebuffer or texture dimension to at least one pixel.
pub fn fb_extent(x: u32) -> (e: u32)
    ensures
        e == spec_extent(x),
        e >= 1,
{
    if x == 0 { 1 } else { x }
}

/// The framebuffer size the UI renders at, and whether a compose is forced.
#[derive(Clone, Copy, Debug, PartialEq, Eq, Structural)]
pub struct Viewport {
    pub fb_width: u32,
    pub fb_height: u32,
    pub force_compose: bool,
}

/// The viewport after the window reported its physical size, and whether the
/// runtime's viewport must be updated. `scale_differs` says whether the
/// window's scale factor differs from the one in use.
pub open spec fn spec_sync(v: Viewport, width: u32, height: u32, scale_differs: bool) -> (Viewport, bool) {
    let w = spec_extent(width);
    let h = spec_extent(height);
    if v.fb_width != w || v.fb_height != h || scale_differs {
        (Viewport { fb_width: w, fb_height: h, force_compose: true }, true)
    } else {
        (v, false)
    }
}

impl Viewport {
    /// The viewport of a fresh UI state: one pixel square, compose pending.
    pub fn new() -> (v: Self)
        ensures
            v == (Viewport { fb_width: 1, fb_height: 1, force_compose: true }),
    {
        Viewport { fb_width: 1, fb_height: 1, force_compose: true }
    }

    /// Follows the window's physical size; on any change the size is taken
    /// over and a compose is forced. The result says whether it changed.
    pub fn sync(&mut self, width: u32, height: u32, scale_differs: bool) -> (changed: bool)
        ensures
            (*final(self), changed) == spec_sync(*old(self), width, height, scale_differs),
    {
        let w = fb_extent(width);
        let h = fb_extent(height);
        if self.fb_width != w || self.fb_height != h || scale_differs {
            self.fb_width = w;
            self.fb_height = h;
            self.force_compose = true;
            true
        } else {
            false
        }
    }
}

/// Once synced to a window size, syncing to the same size again (at the same
/// scale) changes nothing; and a synced size is never zero.
pub proof fn lemma_sync_settles(v: Viewport, width: u32, height: u32, scale_differs: bool)
    ensures
        ({
            let (once, _) = spec_sync(v, width, height, scale_differs);
            &&& spec_sync(once, width, height, false) == (once, false)
        }),
        spec_sync(v, width, height, scale_differs).1 ==> spec_sync(v, width, height, scale_differs).0.fb_width >= 1
            && spec_sync(v, width, height, scale_differs).0.fb_height >= 1,
{
}

/// A framebuffer dimension is the window's, except that zero becomes one.
pub proof fn lemma_extent(x: u32)
    ensures
        spec_extent(x) >= 1,
        x >= 1 ==> spec_extent(x) == x,
        x == 0 ==> spec_extent(x) == 1,
{
}

/// After a sync the viewport has the window's size (each side at least one
/// pixel); the result is true exactly when the width, the height or the scale
/// differed, and then a compose is forced; otherwise nothing changes.
pub proof fn lemma_sync_follows_window(v: Viewport, width: u32, height: u32, scale_differs: bool)
    ensures
        ({
            let (after, changed) = spec_sync(v, width, height, scale_differs);
            let w = if width == 0 { 1u32 } else { width };
            let h = if height == 0 { 1u32 } else { height };
            &&& changed <==> (v.fb_width != w || v.fb_height != h || scale_differs)
            &&& changed ==> after == (Viewport { fb_width: w, fb_height: h, force_compose: true })
            &&& !changed ==> after == v
            &&& after.fb_width == w
            &&& after.fb_height == h
            &&& v.fb_height != h ==> changed && after.force_compose
            &&& v.fb_width != w ==> changed && after.force_compose
        }),
{
}

/// Whether the UI image must be reallocated for a `width` x `height` frame.
pub fn image_needs_realloc(image_width: u32, image_height: u32, width: u32, height: u32) -> (r: bool)
    ensures
        r == (image_width != width || image_height != height),
{
    image_width != width || image_height != height
}

/// Whether the private render target must be recreated: there is none yet,
/// or its size differs.
pub fn target_needs_recreate(current: Option<(u32, u32)>, width: u32, height: u32) -> (r: bool)
    ensures
        r == (match current {
            Some((w, h)) => w != width || h != height,
            None => true,
        }),
{
    match current {
        Some((w, h)) => w != width || h != height,
        None => true,
    }
}

/// The next frame generation number; it wraps around.
pub fn next_frame_gen(generation: u64) -> (next: u64)
    ensures
        next == (if generation == u64::MAX { 0 } else { generation + 1 }),
{
    generation.wrapping_add(1)
}

/// The multisample count used for the UI renderer: at least one.
pub fn msaa_sample_count(requested: u32) -> (n: u32)
    ensures
        n == (if requested == 0 { 1 } else { requested }),
{
    if requested == 0 { 1 } else { requested }
}

} // verus!
