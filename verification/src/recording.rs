use crate::pipeline::QUAD_INDEX_COUNT;
use vstd::prelude::*;

verus! {

/// One step of recording the command buffer of a frame.
#[derive(Clone, Copy, Debug, PartialEq, Eq, Structural)]
pub enum RecordStep {
    /// Begin the command buffer.
    Begin,
    /// Begin the render pass on the framebuffer of the image, over its
    /// whole extent, cleared to opaque black.
    BeginRenderPass { image: u32 },
    /// Bind the graphics pipeline.
    BindPipeline,
    /// Bind the vertex buffer at binding 0, from its first byte.
    BindVertexBuffer,
    /// Bind the index buffer of 16-bit indices, from its first byte.
    BindIndexBuffer,
    /// Bind the descriptor set of the image as set 0.
    BindDescriptorSet { image: u32 },
    /// Draw that many indices, from the first, that many times.
    DrawIndexed { index_count: u32, instance_count: u32 },
    /// End the render pass.
    EndRenderPass,
    /// End the command buffer.
    End,
}

/// The steps that draw the quad into the image `image`.
pub open spec fn recording_of(image: u32) -> Seq<RecordStep> {
    seq![
        RecordStep::Begin,
        RecordStep::BeginRenderPass { image },
        RecordStep::BindPipeline,
        RecordStep::BindVertexBuffer,
        RecordStep::BindIndexBuffer,
        RecordStep::BindDescriptorSet { image },
        RecordStep::DrawIndexed { index_count: QUAD_INDEX_COUNT, instance_count: 1 },
        RecordStep::EndRenderPass,
        RecordStep::End,
    ]
}

/// The step binds something that the draw reads.
pub open spec fn is_binding(step: RecordStep) -> bool {
    step is BindPipeline || step is BindVertexBuffer || step is BindIndexBuffer
        || step is BindDescriptorSet
}

/// The steps to record for a frame that draws into the image `image`:
/// one render pass on the framebuffer of that image, in it the pipeline,
/// the buffers and the descriptor set of that image bound, and one draw
/// of all the indices of the quad.
pub fn recording_steps(image: u32) -> (r: Vec<RecordStep>)
    ensures
        r@ == recording_of(image),
{
    let mut steps: Vec<RecordStep> = Vec::new();
    steps.push(RecordStep::Begin);
    steps.push(RecordStep::BeginRenderPass { image });
    steps.push(RecordStep::BindPipeline);
    steps.push(RecordStep::BindVertexBuffer);
    steps.push(RecordStep::BindIndexBuffer);
    steps.push(RecordStep::BindDescriptorSet { image });
    steps.push(RecordStep::DrawIndexed { index_count: QUAD_INDEX_COUNT, instance_count: 1 });
    steps.push(RecordStep::EndRenderPass);
    steps.push(RecordStep::End);
    steps
}

/// A recording draws once, all the indices of the quad, inside its one
/// render pass and after everything is bound; the framebuffer and the
/// descriptor set are those of the image that was acquired.
pub proof fn lemma_recording_well_ordered(image: u32)
    ensures
        ({
            let steps = recording_of(image);
            let draw = 6int;
            &&& steps.first() is Begin
            &&& steps.last() is End
            &&& steps[draw] == (RecordStep::DrawIndexed {
                index_count: QUAD_INDEX_COUNT,
                instance_count: 1,
            })
            &&& forall|i: int| 0 <= i < steps.len() && steps[i] is DrawIndexed ==> i == draw
            &&& forall|i: int|
                0 <= i < steps.len() && steps[i] is BeginRenderPass ==> i < draw && steps[i]
                    == (RecordStep::BeginRenderPass { image })
            &&& forall|i: int| 0 <= i < steps.len() && steps[i] is EndRenderPass ==> draw < i
            &&& forall|i: int|
                0 <= i < steps.len() && is_binding(steps[i]) ==> 1 < i < draw
            &&& forall|i: int|
                0 <= i < steps.len() && steps[i] is BindDescriptorSet ==> steps[i]
                    == (RecordStep::BindDescriptorSet { image })
        }),
{
}

} // verus!
