//! Texture bookkeeping for one display's renderer.
//!
//! The renderer owns GPU textures sized to the last-seen frame resolution and
//! re-creates them only when the incoming resolution changes, to avoid
//! per-frame GPU resource churn.  The GPU calls themselves live in the
//! unverified shell; this module decides, and the shell obeys the returned
//! plan: re-allocate the texture when the plan says so, then upload the
//! frame's whole pixel buffer and draw one full-screen textured quad.

use vstd::prelude::*;

use crate::frame::Frame;

verus! {

/// Whether a texture sized `tw` by `th` must be re-created to hold a frame
/// sized `fw` by `fh`.
pub open spec fn needs_realloc(tw: u32, th: u32, fw: u32, fh: u32) -> bool {
    tw != fw || th != fh
}

/// What the shell must do to show one frame: re-create the texture at the
/// given size if `realloc` says so, then upload the frame's pixel buffer and
/// draw it.
#[derive(Clone, Copy, Debug, PartialEq, Eq, Structural)]
pub struct RenderPlan {
    pub realloc: bool,
    pub width: u32,
    pub height: u32,
}

/// Renderer state for one display: the dimensions its GPU texture currently
/// has.
#[derive(Clone, Copy, Debug, PartialEq, Eq, Structural)]
pub struct ImageRenderer {
    pub texture_width: u32,
    pub texture_height: u32,
}

impl ImageRenderer {
    /// A renderer whose texture starts out at the given size.
    pub fn new(width: u32, height: u32) -> (r: ImageRenderer)
        ensures
            r.texture_width == width,
            r.texture_height == height,
    {
        ImageRenderer { texture_width: width, texture_height: height }
    }

    /// Plan the rendering of one frame: the texture is re-created exactly
    /// when the frame's dimensions differ from the texture's, and afterwards
    /// the texture has the frame's dimensions.
    pub fn prepare(&mut self, frame: &Frame) -> (plan: RenderPlan)
        ensures
            (plan, *final(self)) == prepare_spec(*old(self), frame.width, frame.height),
            plan.realloc == needs_realloc(
                old(self).texture_width,
                old(self).texture_height,
                frame.width,
                frame.height,
            ),
            plan.width == frame.width,
            plan.height == frame.height,
            final(self).texture_width == frame.width,
            final(self).texture_height == frame.height,
    {
        let realloc = self.texture_width != frame.width || self.texture_height != frame.height;
        self.texture_width = frame.width;
        self.texture_height = frame.height;
        RenderPlan { realloc, width: frame.width, height: frame.height }
    }
}

/// What `prepare` does, as a transition: the plan handed to the shell and
/// the renderer state afterwards.
pub open spec fn prepare_spec(r: ImageRenderer, fw: u32, fh: u32) -> (RenderPlan, ImageRenderer) {
    (
        RenderPlan {
            realloc: needs_realloc(r.texture_width, r.texture_height, fw, fh),
            width: fw,
            height: fh,
        },
        ImageRenderer { texture_width: fw, texture_height: fh },
    )
}

/// Resolution change: whatever state the renderer starts in, when two frames
/// are prepared in a row and the second one's dimensions differ from the
/// first one's, the second preparation re-creates the texture, and the
/// texture ends up with the second frame's dimensions — so the frame's
/// uploaded buffer covers it exactly.
pub proof fn lemma_resolution_change(r: ImageRenderer, f1: Frame, f2: Frame)
    requires
        f1.width != f2.width || f1.height != f2.height,
    ensures
        ({
            let after_first = prepare_spec(r, f1.width, f1.height).1;
            let (plan, after_second) = prepare_spec(after_first, f2.width, f2.height);
            &&& plan.realloc
            &&& after_second.texture_width == f2.width
            &&& after_second.texture_height == f2.height
        }),
{
}

/// Pick the surface format for a display from the formats its surface
/// offers, given for each whether it is sRGB-capable: the first sRGB-capable
/// one, or the first offered when none is.
pub fn select_surface_format(srgb: &Vec<bool>) -> (idx: usize)
    requires
        srgb@.len() > 0,
    ensures
        idx < srgb@.len(),
        srgb@[idx as int] ==> forall|j: int| 0 <= j < idx ==> !srgb@[j],
        !srgb@[idx as int] ==> idx == 0 && forall|j: int| 0 <= j < srgb@.len() ==> !srgb@[j],
{
    let n = srgb.len();
    for i in 0..n
        invariant
            n == srgb@.len(),
            forall|j: int| 0 <= j < i ==> !srgb@[j],
    {
        if srgb[i] {
            return i;
        }
    }
    0
}

} // verus!
