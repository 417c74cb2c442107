//! The GPU work for one frame, in the order it is carried out: texture
//! uploads, one render pass that paints the primitives back to front, the
//! submission, and the texture releases deferred until after it.
use vstd::prelude::*;
use crate::frame::{FrameOutput, TextureKey};

verus! {

/// How the render pass treats its color target.
#[derive(Clone, Copy, Debug, PartialEq, Eq, Structural)]
pub struct PassSetup {
    /// Clear the target to transparent black before painting.
    pub clear_to_transparent: bool,
    /// Keep what was painted when the pass ends.
    pub store: bool,
    /// Attach a depth/stencil target.
    pub depth_stencil: bool,
}

impl PassSetup {
    pub open spec fn ui_pass() -> PassSetup {
        PassSetup { clear_to_transparent: true, store: true, depth_stencil: false }
    }
}

/// One frame's GPU work.
#[derive(Debug, PartialEq, Eq)]
pub struct SubmissionPlan {
    /// Positions in the frame's texture additions, uploaded in this order
    /// before any painting.
    pub uploads: Vec<usize>,
    /// The primitives, in the order of their draw calls.
    pub draw_order: Vec<usize>,
    pub pass: PassSetup,
    /// Textures released once the command buffer has been submitted.
    pub releases: Vec<TextureKey>,
}

/// The positions `0 .. n`, in order.
pub fn positions(n: usize) -> (r: Vec<usize>)
    ensures
        r@.len() == n,
        forall|j: int| 0 <= j < n ==> r@[j] == j,
{
    let mut r: Vec<usize> = Vec::new();
    let mut i: usize = 0;
    while i < n
        invariant
            i <= n,
            r@.len() == i,
            forall|j: int| 0 <= j < i ==> r@[j] == j,
        decreases n - i,
    {
        r.push(i);
        i = i + 1;
    }
    r
}

fn copy_primitives(v: &Vec<usize>) -> (r: Vec<usize>)
    ensures
        r@ == v@,
{
    let mut r: Vec<usize> = Vec::new();
    let mut i: usize = 0;
    while i < v.len()
        invariant
            i <= v.len(),
            r@ == v@.subrange(0, i as int),
        decreases v.len() - i,
    {
        r.push(v[i]);
        i = i + 1;
    }
    assert(v@.subrange(0, v.len() as int) =~= v@);
    r
}

fn copy_keys(v: &Vec<TextureKey>) -> (r: Vec<TextureKey>)
    ensures
        r@ == v@,
{
    let mut r: Vec<TextureKey> = Vec::new();
    let mut i: usize = 0;
    while i < v.len()
        invariant
            i <= v.len(),
            r@ == v@.subrange(0, i as int),
        decreases v.len() - i,
    {
        r.push(v[i]);
        i = i + 1;
    }
    assert(v@.subrange(0, v.len() as int) =~= v@);
    r
}

/// Plans the GPU work for a frame output: every added texture is uploaded,
/// in the delta's order; the primitives are drawn in the frame's paint
/// order in one pass that clears to transparent and stores its result; the
/// removed textures are released after submission.
pub fn plan_submission(out: &FrameOutput) -> (p: SubmissionPlan)
    ensures
        p.uploads@.len() == out.textures_set@.len(),
        forall|j: int| 0 <= j < p.uploads@.len() ==> p.uploads@[j] == j,
        p.draw_order@ == out.primitives@,
        p.pass == PassSetup::ui_pass(),
        p.releases@ == out.textures_free@,
{
    SubmissionPlan {
        uploads: positions(out.textures_set.len()),
        draw_order: copy_primitives(&out.primitives),
        pass: PassSetup { clear_to_transparent: true, store: true, depth_stencil: false },
        releases: copy_keys(&out.textures_free),
    }
}

} // verus!
