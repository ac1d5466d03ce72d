//! The steps of one submission, in the order in which they were recorded.

use crate::render_target::{ImageAccess, RenderTarget};
use crate::renderer::{DrawIndirectCommand, GraphicsPipelineCreateInfo, LoadOp, StoreOp};
use crate::triangle::Param;
use vstd::prelude::*;

verus! {

/// One recorded step.
#[derive(Copy, Clone, Debug, PartialEq, Eq, Structural)]
pub enum Step {
    /// The image passes from one use to the next.
    Transition { image: u32, from: ImageAccess, to: ImageAccess },
    /// A render pass into the image begins; `load_op` says what becomes of
    /// what the image held.
    BeginRendering { image: u32, load_op: LoadOp },
    /// One draw call.
    Draw { pipeline: GraphicsPipelineCreateInfo, command: DrawIndirectCommand, param: Param },
    /// The render pass ends; `store_op` says what becomes of what was drawn.
    EndRendering { store_op: StoreOp },
}

/// The record of a submission that is being put together. Steps are
/// recorded in the order of the calls, and only where they are in place: a
/// draw call inside a render pass, a transition of an image outside of one.
/// An image changes its use only by a step of a record.
pub struct Recording {
    steps: Vec<Step>,
    rendering: bool,
}

impl View for Recording {
    type V = Seq<Step>;

    closed spec fn view(&self) -> Seq<Step> {
        self.steps@
    }
}

impl Recording {
    /// Whether a render pass has begun and not ended.
    pub closed spec fn rendering(&self) -> bool {
        self.rendering
    }

    /// A record without steps.
    pub fn new() -> (recording: Recording)
        ensures
            recording@ == Seq::<Step>::empty(),
            !recording.rendering(),
    {
        Recording { steps: Vec::new(), rendering: false }
    }

    /// Decides `rendering`.
    pub fn is_rendering(&self) -> (rendering: bool)
        ensures
            rendering == self.rendering(),
    {
        self.rendering
    }

    /// Records that an image passes from one use to the next.
    pub(crate) fn transition(&mut self, image: u32, from: ImageAccess, to: ImageAccess)
        requires
            !old(self).rendering(),
        ensures
            !final(self).rendering(),
            final(self)@ == old(self)@.push(Step::Transition { image, from, to }),
    {
        self.steps.push(Step::Transition { image, from, to });
    }

    /// Begins a render pass into an image that is in use as the target of drawing.
    pub fn begin_rendering(&mut self, rt: &RenderTarget, load_op: LoadOp)
        requires
            !old(self).rendering(),
            rt.access() == ImageAccess::ColorAttachment,
        ensures
            final(self).rendering(),
            final(self)@ == old(self)@.push(Step::BeginRendering { image: rt.image(), load_op }),
    {
        self.steps.push(Step::BeginRendering { image: rt.image_index(), load_op });
        self.rendering = true;
    }

    /// Records one draw call in the render pass.
    pub fn draw(
        &mut self,
        pipeline: GraphicsPipelineCreateInfo,
        command: DrawIndirectCommand,
        param: Param,
    )
        requires
            old(self).rendering(),
        ensures
            final(self).rendering(),
            final(self)@ == old(self)@.push(Step::Draw { pipeline, command, param }),
    {
        self.steps.push(Step::Draw { pipeline, command, param });
    }

    /// Ends the render pass.
    pub fn end_rendering(&mut self, store_op: StoreOp)
        requires
            old(self).rendering(),
        ensures
            !final(self).rendering(),
            final(self)@ == old(self)@.push(Step::EndRendering { store_op }),
    {
        self.steps.push(Step::EndRendering { store_op });
        self.rendering = false;
    }

    /// The recorded steps, in order.
    pub fn finish(self) -> (steps: Vec<Step>)
        requires
            !self.rendering(),
        ensures
            steps@ == self@,
    {
        self.steps
    }
}

} // verus!
