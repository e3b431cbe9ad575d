use ash::vk;
use framepace::extent::{clamp_dimension, Extent2D, UNDEFINED_DIMENSION};
use framepace::negotiation::{
    NegotiationError, SurfaceCapabilities, SurfaceFormat, SwapchainConfig, SwapchainPolicy,
    COLOR_SPACE_EXTENDED_SRGB_NONLINEAR, COLOR_SPACE_SRGB_NONLINEAR, FORMAT_B8G8R8A8_SRGB,
    FORMAT_B8G8R8A8_UNORM, IMAGE_USAGE_COLOR_ATTACHMENT, PRESENT_MODE_FIFO,
    PRESENT_MODE_IMMEDIATE, PRESENT_MODE_MAILBOX,
};

fn undefined_caps() -> SurfaceCapabilities {
    SurfaceCapabilities {
        min_image_count: 2,
        max_image_count: 8,
        current_extent: Extent2D::new(UNDEFINED_DIMENSION, UNDEFINED_DIMENSION),
        min_image_extent: Extent2D::new(200, 150),
        max_image_extent: Extent2D::new(4096, 4096),
        current_transform: 1,
    }
}

fn srgb() -> SurfaceFormat {
    SurfaceFormat { format: FORMAT_B8G8R8A8_SRGB, color_space: COLOR_SPACE_SRGB_NONLINEAR }
}

#[test]
fn undefined_extent_keeps_requested_size_within_limits() {
    let policy = SwapchainPolicy::default_policy();
    let e = policy.choose_extent(&undefined_caps(), Extent2D::new(800, 600));
    assert_eq!(e, Extent2D::new(800, 600));
}

#[test]
fn undefined_extent_clamps_small_request_to_minimum() {
    let policy = SwapchainPolicy::default_policy();
    let e = policy.choose_extent(&undefined_caps(), Extent2D::new(100, 100));
    assert_eq!(e, Extent2D::new(200, 150));
}

#[test]
fn undefined_extent_clamps_large_request_to_maximum() {
    let policy = SwapchainPolicy::default_policy();
    let e = policy.choose_extent(&undefined_caps(), Extent2D::new(5000, 300));
    assert_eq!(e, Extent2D::new(4096, 300));
}

#[test]
fn defined_extent_is_used_verbatim() {
    let policy = SwapchainPolicy::default_policy();
    let mut caps = undefined_caps();
    caps.current_extent = Extent2D::new(1024, 768);
    let e = policy.choose_extent(&caps, Extent2D::new(100, 100));
    assert_eq!(e, Extent2D::new(1024, 768));
}

#[test]
fn clamp_dimension_values() {
    assert_eq!(clamp_dimension(5, 10, 20), 10);
    assert_eq!(clamp_dimension(25, 10, 20), 20);
    assert_eq!(clamp_dimension(15, 10, 20), 15);
    assert_eq!(clamp_dimension(10, 10, 10), 10);
}

#[test]
fn only_undesired_format_is_refused() {
    let policy = SwapchainPolicy::default_policy();
    let offered = vec![SurfaceFormat {
        format: FORMAT_B8G8R8A8_UNORM,
        color_space: COLOR_SPACE_SRGB_NONLINEAR,
    }];
    assert_eq!(policy.choose_format(&offered), Err(NegotiationError::NoAcceptableSurfaceFormat));
}

#[test]
fn empty_format_list_is_refused() {
    let policy = SwapchainPolicy::default_policy();
    assert_eq!(policy.choose_format(&vec![]), Err(NegotiationError::NoAcceptableSurfaceFormat));
}

#[test]
fn preferred_format_wins_over_earlier_offer() {
    let policy = SwapchainPolicy::default_policy();
    let extended = SurfaceFormat {
        format: FORMAT_B8G8R8A8_SRGB,
        color_space: COLOR_SPACE_EXTENDED_SRGB_NONLINEAR,
    };
    let offered = vec![extended, srgb()];
    assert_eq!(policy.choose_format(&offered), Ok(srgb()));
}

#[test]
fn secondary_format_is_the_fallback() {
    let policy = SwapchainPolicy::default_policy();
    let unorm = SurfaceFormat { format: FORMAT_B8G8R8A8_UNORM, color_space: COLOR_SPACE_SRGB_NONLINEAR };
    let extended = SurfaceFormat {
        format: FORMAT_B8G8R8A8_SRGB,
        color_space: COLOR_SPACE_EXTENDED_SRGB_NONLINEAR,
    };
    assert_eq!(policy.choose_format(&vec![unorm, extended]), Ok(extended));
}

#[test]
fn mailbox_preferred_fifo_fallback() {
    let policy = SwapchainPolicy::default_policy();
    assert_eq!(
        policy.choose_present_mode(&vec![PRESENT_MODE_FIFO, PRESENT_MODE_MAILBOX]),
        Ok(PRESENT_MODE_MAILBOX)
    );
    assert_eq!(
        policy.choose_present_mode(&vec![PRESENT_MODE_IMMEDIATE, PRESENT_MODE_FIFO]),
        Ok(PRESENT_MODE_FIFO)
    );
    assert_eq!(
        policy.choose_present_mode(&vec![PRESENT_MODE_IMMEDIATE]),
        Err(NegotiationError::NoAcceptablePresentMode)
    );
}

#[test]
fn negotiate_gives_whole_configuration() {
    let policy = SwapchainPolicy::default_policy();
    let r = policy.negotiate(
        &undefined_caps(),
        &vec![srgb()],
        &vec![PRESENT_MODE_FIFO],
        Extent2D::new(100, 100),
    );
    assert_eq!(
        r,
        Ok(SwapchainConfig {
            format: srgb(),
            present_mode: PRESENT_MODE_FIFO,
            extent: Extent2D::new(200, 150),
            image_usage: IMAGE_USAGE_COLOR_ATTACHMENT,
            min_image_count: 2,
            pre_transform: 1,
        })
    );
}

#[test]
fn negotiate_reports_format_before_present_mode() {
    let policy = SwapchainPolicy::default_policy();
    let r = policy.negotiate(&undefined_caps(), &vec![], &vec![], Extent2D::new(1, 1));
    assert_eq!(r, Err(NegotiationError::NoAcceptableSurfaceFormat));
    let r = policy.negotiate(&undefined_caps(), &vec![srgb()], &vec![], Extent2D::new(1, 1));
    assert_eq!(r, Err(NegotiationError::NoAcceptablePresentMode));
}

#[test]
fn custom_policy_orders_its_own_preferences() {
    let policy = SwapchainPolicy {
        preferred_formats: vec![srgb()],
        preferred_present_modes: vec![PRESENT_MODE_IMMEDIATE, PRESENT_MODE_FIFO],
        image_usage: IMAGE_USAGE_COLOR_ATTACHMENT,
    };
    assert_eq!(
        policy.choose_present_mode(&vec![PRESENT_MODE_FIFO, PRESENT_MODE_IMMEDIATE]),
        Ok(PRESENT_MODE_IMMEDIATE)
    );
}

#[test]
fn constants_match_the_graphics_api() {
    assert_eq!(FORMAT_B8G8R8A8_SRGB, vk::Format::B8G8R8A8_SRGB.as_raw());
    assert_eq!(FORMAT_B8G8R8A8_UNORM, vk::Format::B8G8R8A8_UNORM.as_raw());
    assert_eq!(COLOR_SPACE_SRGB_NONLINEAR, vk::ColorSpaceKHR::SRGB_NONLINEAR.as_raw());
    assert_eq!(
        COLOR_SPACE_EXTENDED_SRGB_NONLINEAR,
        vk::ColorSpaceKHR::EXTENDED_SRGB_NONLINEAR_EXT.as_raw()
    );
    assert_eq!(PRESENT_MODE_IMMEDIATE, vk::PresentModeKHR::IMMEDIATE.as_raw());
    assert_eq!(PRESENT_MODE_MAILBOX, vk::PresentModeKHR::MAILBOX.as_raw());
    assert_eq!(PRESENT_MODE_FIFO, vk::PresentModeKHR::FIFO.as_raw());
    assert_eq!(IMAGE_USAGE_COLOR_ATTACHMENT, vk::ImageUsageFlags::COLOR_ATTACHMENT.as_raw());
}
