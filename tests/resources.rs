use framepace::extent::Extent2D;
use framepace::negotiation::{
    SurfaceFormat, SwapchainConfig, COLOR_SPACE_SRGB_NONLINEAR, FORMAT_B8G8R8A8_SRGB,
    IMAGE_USAGE_COLOR_ATTACHMENT, PRESENT_MODE_MAILBOX,
};
use framepace::ownership::{OwnedResource, OwnershipStack, ResourceKind};
use framepace::recorder::{record_commands, RecordCommand, TRIANGLE_VERTEX_COUNT};
use framepace::scheduler::{AcquireDecision, AcquireOutcome, FrameScheduler};
use framepace::negotiation::SwapchainPolicy;
use framepace::extent::Rect2D;
use framepace::swapchain::{AssembleError, Release, SwapchainResources};

fn config(min_image_count: u32) -> SwapchainConfig {
    SwapchainConfig {
        format: SurfaceFormat { format: FORMAT_B8G8R8A8_SRGB, color_space: COLOR_SPACE_SRGB_NONLINEAR },
        present_mode: PRESENT_MODE_MAILBOX,
        extent: Extent2D::new(640, 480),
        image_usage: IMAGE_USAGE_COLOR_ATTACHMENT,
        min_image_count,
        pre_transform: 1,
    }
}

#[test]
fn assemble_rejects_mismatched_lists() {
    let r = SwapchainResources::assemble(1, config(2), vec![1, 2], vec![3], vec![4, 5]);
    assert_eq!(r.unwrap_err(), AssembleError::CountMismatch);
    let r = SwapchainResources::assemble(1, config(2), vec![1, 2], vec![3, 4], vec![5]);
    assert_eq!(r.unwrap_err(), AssembleError::CountMismatch);
}

#[test]
fn assemble_rejects_too_few_images() {
    let r = SwapchainResources::assemble(1, config(3), vec![1, 2], vec![3, 4], vec![5, 6]);
    assert_eq!(r.unwrap_err(), AssembleError::TooFewImages);
}

#[test]
fn assembled_unit_answers_lookups_and_tears_down_in_order() {
    let s = SwapchainResources::assemble(9, config(2), vec![1, 2], vec![3, 4], vec![5, 6]).unwrap();
    assert_eq!(s.image_count(), 2);
    assert_eq!(s.handle(), 9);
    assert_eq!(s.extent(), Extent2D::new(640, 480));
    assert_eq!(s.config(), config(2));
    assert_eq!(s.framebuffer_for(1), Some(6));
    assert_eq!(s.framebuffer_for(2), None);
    assert_eq!(
        s.teardown(),
        vec![
            Release::Framebuffer(5),
            Release::Framebuffer(6),
            Release::ImageView(3),
            Release::ImageView(4),
            Release::Swapchain(9),
        ]
    );
}

#[test]
fn recording_is_one_render_pass_with_one_draw() {
    let mut s = FrameScheduler::new(2, SwapchainPolicy::default_policy(), Extent2D::new(800, 600));
    let res = SwapchainResources::assemble(9, config(2), vec![1, 2], vec![3, 4], vec![5, 6]).unwrap();
    assert!(s.install(res).is_ok());
    let token = s.begin_frame().unwrap();
    let target = match s
        .image_acquired(token, AcquireOutcome::Acquired { image_index: 1, suboptimal: false })
        .unwrap()
    {
        AcquireDecision::Render(t) => t,
        AcquireDecision::Skip(_) => panic!("expected a target"),
    };
    assert_eq!(
        record_commands(&target),
        vec![
            RecordCommand::BeginCommandBuffer { slot: 0 },
            RecordCommand::BeginRenderPass { framebuffer: 6, render_area: Extent2D::new(640, 480) },
            RecordCommand::BindPipeline,
            RecordCommand::SetViewport(Extent2D::new(800, 600)),
            RecordCommand::SetScissor(Rect2D { x: 0, y: 0, extent: Extent2D::new(800, 600) }),
            RecordCommand::Draw { vertex_count: 3, instance_count: 1 },
            RecordCommand::EndRenderPass,
            RecordCommand::EndCommandBuffer,
        ]
    );
    assert_eq!(TRIANGLE_VERTEX_COUNT, 3);
}

#[test]
fn ownership_stack_releases_last_created_first() {
    let mut stack = OwnershipStack::new();
    stack.push(ResourceKind::Instance, 1);
    stack.push(ResourceKind::Surface, 2);
    stack.push(ResourceKind::Device, 3);
    stack.push(ResourceKind::CommandPool, 4);
    assert_eq!(stack.len(), 4);
    assert_eq!(
        stack.release_order(),
        vec![
            OwnedResource { kind: ResourceKind::CommandPool, handle: 4 },
            OwnedResource { kind: ResourceKind::Device, handle: 3 },
            OwnedResource { kind: ResourceKind::Surface, handle: 2 },
            OwnedResource { kind: ResourceKind::Instance, handle: 1 },
        ]
    );
}

#[test]
fn empty_ownership_stack_releases_nothing() {
    assert_eq!(OwnershipStack::new().release_order(), vec![]);
}
