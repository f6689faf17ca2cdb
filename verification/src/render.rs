use vstd::prelude::*;

use crate::geometry::Size;
use crate::gpu::CanvasDesc;

verus! {

/// A colour, one byte per channel, alpha first.
#[derive(Clone, Copy, PartialEq, Eq, Structural, Debug)]
pub struct Color {
    pub a: u8,
    pub r: u8,
    pub g: u8,
    pub b: u8,
}

/// One command of a frame, in the order the GPU and canvas layers must see
/// them.
#[derive(Clone, Copy, PartialEq, Eq, Structural, Debug)]
pub enum RenderStep {
    /// Make the target window's context current on the dispatch thread.
    /// Required before any drawing call; only one context may be current on
    /// a thread at a time.
    MakeCurrent,
    /// Clear the canvas to a colour.
    Clear { color: Color },
    /// Draw one concentric ring of the payload.
    DrawCircle { cx: u32, cy: u32, radius: u64 },
    /// Flush recorded drawing commands and submit them to the GPU.
    FlushAndSubmit,
    /// Swap buffers: present the backing buffer.
    Present,
}

/// The numeric inputs of the drawing payload: a clear colour and a number of
/// concentric rings at a fixed radius step.
#[derive(Clone, Copy, PartialEq, Eq, Structural, Debug)]
pub struct RenderParams {
    pub clear: Color,
    pub rings: u32,
    pub ring_spacing: u32,
}

/// Radius of ring `i` of the payload, counted from zero.
pub open spec fn ring_radius(params: RenderParams, i: int) -> u64 {
    ((i + 1) * (params.ring_spacing as int)) as u64
}

/// The commands of one frame drawn at `size`: make the context current,
/// clear, draw the rings around the centre, flush and submit, present.
pub open spec fn frame_steps(params: RenderParams, size: Size) -> Seq<RenderStep> {
    seq![
        RenderStep::MakeCurrent,
        RenderStep::Clear { color: params.clear },
    ] + Seq::new(
        params.rings as nat,
        |i: int|
            RenderStep::DrawCircle {
                cx: (size.width / 2) as u32,
                cy: (size.height / 2) as u32,
                radius: ring_radius(params, i),
            },
    ) + seq![RenderStep::FlushAndSubmit, RenderStep::Present]
}

proof fn lemma_ring_radius_fits(i: int, spacing: int)
    by (nonlinear_arith)
    requires
        0 <= i < 0x1_0000_0000,
        0 <= spacing < 0x1_0000_0000,
    ensures
        0 <= (i + 1) * spacing < 0x1_0000_0000_0000_0000,
{
}

/// Builds the command list of one frame. The list is a function of the
/// payload parameters and the target size alone.
pub fn build_frame(params: RenderParams, size: Size) -> (steps: Vec<RenderStep>)
    ensures
        steps@ == frame_steps(params, size),
{
    let mut v: Vec<RenderStep> = Vec::new();
    v.push(RenderStep::MakeCurrent);
    v.push(RenderStep::Clear { color: params.clear });
    let cx: u32 = size.width / 2;
    let cy: u32 = size.height / 2;
    let mut i: u32 = 0;
    while i < params.rings
        invariant
            i <= params.rings,
            cx == size.width / 2,
            cy == size.height / 2,
            v@.len() == 2 + i,
            forall|k: int| 0 <= k < v@.len() ==> v@[k] == frame_steps(params, size)[k],
        decreases params.rings - i,
    {
        proof {
            lemma_ring_radius_fits(i as int, params.ring_spacing as int);
        }
        let radius: u64 = (i as u64 + 1) * (params.ring_spacing as u64);
        v.push(RenderStep::DrawCircle { cx, cy, radius });
        i = i + 1;
    }
    v.push(RenderStep::FlushAndSubmit);
    v.push(RenderStep::Present);
    proof {
        assert(v@ =~= frame_steps(params, size));
    }
    v
}

/// Every frame is one well-formed presentation sequence: the window's
/// context is made current before anything else and at no later point, then
/// come one clear, the shape draws, one flush-and-submit, and one present.
/// In particular, the current context never changes outside the make-current
/// step at the head of a frame.
pub proof fn lemma_frame_shape(params: RenderParams, size: Size)
    ensures
        frame_steps(params, size).len() == params.rings + 4,
        frame_steps(params, size)[0] == RenderStep::MakeCurrent,
        frame_steps(params, size)[1] == (RenderStep::Clear { color: params.clear }),
        forall|k: int|
            2 <= k < params.rings + 2 ==> (#[trigger] frame_steps(params, size)[k]) matches
                RenderStep::DrawCircle { .. },
        frame_steps(params, size)[params.rings + 2] == RenderStep::FlushAndSubmit,
        frame_steps(params, size)[params.rings + 3] == RenderStep::Present,
        forall|k: int|
            0 < k < frame_steps(params, size).len() ==> (#[trigger] frame_steps(params, size)[k])
                != RenderStep::MakeCurrent,
{
}

/// A complete, self-contained draw for one window: which window, the canvas
/// the commands apply to, and the commands themselves. Producing a plan for
/// one window leaves every other window's canvas untouched.
#[derive(Debug)]
pub struct DrawPlan {
    /// The window the configure or frame event was matched to by identity.
    pub window: usize,
    /// The canvas drawn into; its description pins the pixel dimensions.
    pub canvas: CanvasDesc,
    /// The frame's commands, in order.
    pub steps: Vec<RenderStep>,
}

} // verus!
