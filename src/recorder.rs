//! The commands recorded into a slot's command buffer for one frame.
//!
//! The buffer is recorded anew every frame, since the framebuffer and the
//! dynamic viewport and scissor change from frame to frame.
use vstd::prelude::*;
use crate::extent::{Extent2D, Rect2D};
use crate::scheduler::{FrameTarget, FrameTargetView};

verus! {

/// The number of vertices of the one triangle drawn each frame.
pub const TRIANGLE_VERTEX_COUNT: u32 = 3;

/// One command of a frame's recording.
#[derive(Clone, Copy, Debug, PartialEq, Eq, Structural)]
pub enum RecordCommand {
    /// Begins the slot's command buffer.
    BeginCommandBuffer { slot: usize },
    /// Begins the render pass on `framebuffer` over `render_area`, clearing
    /// the attachment to the fixed clear color.
    BeginRenderPass { framebuffer: u64, render_area: Extent2D },
    /// Binds the graphics pipeline.
    BindPipeline,
    /// Sets the dynamic viewport, at the origin with depth range 0 to 1.
    SetViewport(Extent2D),
    /// Sets the dynamic scissor rectangle.
    SetScissor(Rect2D),
    /// Draws `vertex_count` vertices without an index buffer.
    Draw { vertex_count: u32, instance_count: u32 },
    EndRenderPass,
    EndCommandBuffer,
}

/// The recording of a frame rendering to `t`.
pub open spec fn recording_of(t: FrameTargetView) -> Seq<RecordCommand> {
    seq![
        RecordCommand::BeginCommandBuffer { slot: t.slot as usize },
        RecordCommand::BeginRenderPass { framebuffer: t.framebuffer, render_area: t.render_area },
        RecordCommand::BindPipeline,
        RecordCommand::SetViewport(t.viewport),
        RecordCommand::SetScissor(t.scissor),
        RecordCommand::Draw { vertex_count: TRIANGLE_VERTEX_COUNT, instance_count: 1 },
        RecordCommand::EndRenderPass,
        RecordCommand::EndCommandBuffer,
    ]
}

/// The commands to record, in order, for the frame rendering to `target`.
pub fn record_commands(target: &FrameTarget) -> (r: Vec<RecordCommand>)
    ensures
        r@ == recording_of(target@),
{
    let v = vec![
        RecordCommand::BeginCommandBuffer { slot: target.slot() },
        RecordCommand::BeginRenderPass {
            framebuffer: target.framebuffer(),
            render_area: target.render_area(),
        },
        RecordCommand::BindPipeline,
        RecordCommand::SetViewport(target.viewport()),
        RecordCommand::SetScissor(target.scissor()),
        RecordCommand::Draw { vertex_count: TRIANGLE_VERTEX_COUNT, instance_count: 1 },
        RecordCommand::EndRenderPass,
        RecordCommand::EndCommandBuffer,
    ];
    assert(v@ =~= recording_of(target@));
    v
}

} // verus!
