//! The plan of a frame, and the order in which its steps are carried out.

use crate::draw::{none_samples_copy, views, DrawCall, DrawView};
use vstd::prelude::*;

verus! {

/// Number of samples per pixel of the working target.
pub const MSAA_SAMPLES: i32 = 4;

/// The re-rendering of the bottom layer: the background first, then one
/// batch of draw calls for each entity.
pub struct BottomPass {
    pub background: Vec<DrawCall>,
    pub entities: Vec<Vec<DrawCall>>,
}

impl BottomPass {
    /// The pass that writes the bottom layer's copy does not read it:
    /// none of its draw calls samples the copy.
    pub open spec fn leaves_copy(self) -> bool {
        &&& none_samples_copy(views(self.background@))
        &&& forall|i: int|
            0 <= i < self.entities@.len() ==> none_samples_copy(
                views(#[trigger] self.entities@[i]@),
            )
    }
}

/// The plan of one frame.
///
/// Where `resize` is set both render targets are first reallocated at
/// `width` by `height`. Where `bottom` is there, it is drawn into the cleared
/// working target, which is then resolved into the bottom layer's copy.
/// Every frame then clears the working target, draws `composite` and the
/// batches of `top` into it, and resolves it to the output.
pub struct Frame {
    pub width: i32,
    pub height: i32,
    pub resize: bool,
    pub bottom: Option<BottomPass>,
    /// The bottom layer's resolved copy, drawn over the whole surface.
    pub composite: DrawCall,
    pub top: Vec<Vec<DrawCall>>,
}

/// One step of a frame, for the GPU.
pub enum FrameStep {
    /// Reallocate the bottom layer's copy and the multisampled working
    /// target, both at the given size.
    ResizeTargets { width: i32, height: i32, samples: i32 },
    /// Turn on blending of premultiplied colors.
    BlendOn,
    /// Make the working target the render target, set the viewport to the
    /// given size and clear to transparent.
    BeginPass { width: i32, height: i32 },
    /// Issue one draw call into the render target.
    Draw(DrawCall),
    /// Resolve the working target into the bottom layer's copy.
    ResolveToCache { width: i32, height: i32 },
    /// Resolve the working target to the output surface.
    ResolveToOutput { width: i32, height: i32 },
    /// Turn blending off.
    BlendOff,
}

/// A step, as contracts see it.
pub enum StepView {
    ResizeTargets { width: i32, height: i32, samples: i32 },
    BlendOn,
    BeginPass { width: i32, height: i32 },
    Draw(DrawView),
    ResolveToCache { width: i32, height: i32 },
    ResolveToOutput { width: i32, height: i32 },
    BlendOff,
}

impl View for FrameStep {
    type V = StepView;

    open spec fn view(&self) -> StepView {
        match *self {
            FrameStep::ResizeTargets { width, height, samples } => StepView::ResizeTargets {
                width,
                height,
                samples,
            },
            FrameStep::BlendOn => StepView::BlendOn,
            FrameStep::BeginPass { width, height } => StepView::BeginPass { width, height },
            FrameStep::Draw(draw) => StepView::Draw(draw@),
            FrameStep::ResolveToCache { width, height } => StepView::ResolveToCache { width, height },
            FrameStep::ResolveToOutput { width, height } => StepView::ResolveToOutput {
                width,
                height,
            },
            FrameStep::BlendOff => StepView::BlendOff,
        }
    }
}

/// The steps of a list, as contracts see them.
pub open spec fn step_views(steps: Seq<FrameStep>) -> Seq<StepView> {
    Seq::new(steps.len(), |i: int| steps[i]@)
}

/// One draw step for each draw call, in order.
pub open spec fn draw_steps(draws: Seq<DrawView>) -> Seq<StepView> {
    Seq::new(draws.len(), |i: int| StepView::Draw(draws[i]))
}

/// The draw steps of a layer: batch after batch, in entity order.
pub open spec fn layer_steps(batches: Seq<Vec<DrawCall>>) -> Seq<StepView>
    decreases batches.len(),
{
    if batches.len() == 0 {
        Seq::empty()
    } else {
        layer_steps(batches.drop_last()) + draw_steps(views(batches.last()@))
    }
}

impl Frame {
    /// The steps that reallocate the render targets, where the frame asks for it.
    pub open spec fn resize_steps(self) -> Seq<StepView> {
        if self.resize {
            seq![
                StepView::ResizeTargets {
                    width: self.width,
                    height: self.height,
                    samples: MSAA_SAMPLES,
                },
            ]
        } else {
            Seq::empty()
        }
    }

    /// The steps that render the bottom layer anew, where the frame does so:
    /// a pass of its own, which ends in the resolve into the layer's copy.
    pub open spec fn bottom_steps(self) -> Seq<StepView> {
        match self.bottom {
            Some(pass) => seq![StepView::BeginPass { width: self.width, height: self.height }]
                + draw_steps(views(pass.background@)) + layer_steps(pass.entities@)
                + seq![StepView::ResolveToCache { width: self.width, height: self.height }],
            None => Seq::empty(),
        }
    }

    /// The steps of the pass that every frame has: the bottom layer's copy,
    /// the top layer over it, and the resolve to the output.
    pub open spec fn top_steps(self) -> Seq<StepView> {
        seq![StepView::BeginPass { width: self.width, height: self.height }] + draw_steps(
            seq![self.composite@],
        ) + layer_steps(self.top@) + seq![
            StepView::ResolveToOutput { width: self.width, height: self.height },
        ]
    }

    /// All steps of the frame in the order in which they are carried out.
    /// The bottom layer is drawn and resolved before its copy is read, and
    /// the top layer is drawn before the resolve to the output.
    pub open spec fn plan(self) -> Seq<StepView> {
        self.resize_steps() + seq![StepView::BlendOn] + self.bottom_steps() + self.top_steps()
            + seq![StepView::BlendOff]
    }

    /// The steps of the frame in the order in which they are carried out.
    pub fn steps(&self) -> (steps: Vec<FrameStep>)
        ensures
            step_views(steps@) == self.plan(),
    {
        let mut steps: Vec<FrameStep> = Vec::new();
        if self.resize {
            steps.push(
                FrameStep::ResizeTargets {
                    width: self.width,
                    height: self.height,
                    samples: MSAA_SAMPLES,
                },
            );
        }
        steps.push(FrameStep::BlendOn);
        if let Some(pass) = &self.bottom {
            steps.push(FrameStep::BeginPass { width: self.width, height: self.height });
            push_batch(&mut steps, &pass.background);
            push_layer(&mut steps, &pass.entities);
            let ghost body = step_views(steps@);
            steps.push(FrameStep::ResolveToCache { width: self.width, height: self.height });
            assert(step_views(steps@) =~= body + seq![
                StepView::ResolveToCache { width: self.width, height: self.height },
            ]);
        }
        let ghost middle = step_views(steps@);
        steps.push(FrameStep::BeginPass { width: self.width, height: self.height });
        steps.push(FrameStep::Draw(self.composite.share()));
        push_layer(&mut steps, &self.top);
        let ghost body = step_views(steps@);
        steps.push(FrameStep::ResolveToOutput { width: self.width, height: self.height });
        assert(step_views(steps@) =~= body + seq![
            StepView::ResolveToOutput { width: self.width, height: self.height },
        ]);
        assert(step_views(steps@) =~= middle + self.top_steps());
        let ghost tail = step_views(steps@);
        steps.push(FrameStep::BlendOff);
        assert(step_views(steps@) =~= tail + seq![StepView::BlendOff]);
        steps
    }
}

/// Appends one draw step for each draw call of a batch.
fn push_batch(steps: &mut Vec<FrameStep>, draws: &Vec<DrawCall>)
    ensures
        step_views(final(steps)@) == step_views(old(steps)@) + draw_steps(views(draws@)),
{
    let mut i: usize = 0;
    while i < draws.len()
        invariant
            i <= draws.len(),
            step_views(steps@) == step_views(old(steps)@) + draw_steps(
                views(draws@.take(i as int)),
            ),
        decreases draws.len() - i,
    {
        let ghost before = step_views(steps@);
        steps.push(FrameStep::Draw(draws[i].share()));
        assert(step_views(steps@) =~= before + seq![StepView::Draw(draws[i as int]@)]);
        i = i + 1;
    }
}

/// Appends the draw steps of a layer, batch after batch.
fn push_layer(steps: &mut Vec<FrameStep>, batches: &Vec<Vec<DrawCall>>)
    ensures
        step_views(final(steps)@) == step_views(old(steps)@) + layer_steps(batches@),
{
    let mut i: usize = 0;
    while i < batches.len()
        invariant
            i <= batches.len(),
            step_views(steps@) == step_views(old(steps)@) + layer_steps(batches@.take(i as int)),
        decreases batches.len() - i,
    {
        assert(batches@.take(i + 1).drop_last() == batches@.take(i as int));
        push_batch(steps, &batches[i]);
        i = i + 1;
    }
    assert(batches@.take(i as int) == batches@);
}

} // verus!
