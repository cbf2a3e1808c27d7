use ash::vk;
use sourcerenderer_vulkan::swapchain::{
    pick_extent, pick_format, pick_image_count, pick_present_mode, plan_swapchain, presenter_pick_format,
    presenter_pick_present_mode, presenter_pick_swap_extent, AcquireOutcome, Extent2D, SurfaceCapabilities,
    SurfaceFormat, SwapchainError, SwapchainStatus, VkSwapchainState,
};

fn caps(current: (u32, u32), min: (u32, u32), max: (u32, u32), min_images: u32, max_images: u32) -> SurfaceCapabilities {
    SurfaceCapabilities {
        min_image_count: min_images,
        max_image_count: max_images,
        current_extent: Extent2D { width: current.0, height: current.1 },
        min_image_extent: Extent2D { width: min.0, height: min.1 },
        max_image_extent: Extent2D { width: max.0, height: max.1 },
        supported_usage_flags: (vk::ImageUsageFlags::COLOR_ATTACHMENT
            | vk::ImageUsageFlags::STORAGE
            | vk::ImageUsageFlags::TRANSFER_DST)
            .as_raw(),
        supported_composite_alpha: (vk::CompositeAlphaFlagsKHR::OPAQUE | vk::CompositeAlphaFlagsKHR::INHERIT).as_raw(),
    }
}

fn bgra_srgb() -> SurfaceFormat {
    SurfaceFormat {
        format: vk::Format::B8G8R8A8_UNORM.as_raw(),
        color_space: vk::ColorSpaceKHR::SRGB_NONLINEAR.as_raw(),
    }
}

#[test]
fn extent_is_the_surface_extent_when_it_has_one() {
    let c = caps((800, 600), (1, 1), (4096, 4096), 2, 0);
    assert_eq!(pick_extent(&c, 1920, 1080), (800, 600));
}

#[test]
fn extent_is_clamped_when_the_swapchain_decides() {
    let c = caps((u32::MAX, u32::MAX), (100, 100), (1000, 800), 2, 0);
    assert_eq!(pick_extent(&c, 1920, 50), (1000, 100));
    assert_eq!(pick_extent(&c, 640, 480), (640, 480));
}

#[test]
fn format_prefers_the_first_compatible_one() {
    let formats = vec![
        SurfaceFormat { format: vk::Format::R16G16B16A16_SFLOAT.as_raw(), color_space: vk::ColorSpaceKHR::SRGB_NONLINEAR.as_raw() },
        SurfaceFormat { format: vk::Format::R8G8B8A8_UNORM.as_raw(), color_space: vk::ColorSpaceKHR::SRGB_NONLINEAR.as_raw() },
        bgra_srgb(),
    ];
    assert_eq!(pick_format(&formats), formats[1]);
}

#[test]
fn format_is_bgra_when_the_surface_leaves_it_free() {
    let formats = vec![SurfaceFormat { format: vk::Format::UNDEFINED.as_raw(), color_space: 0 }];
    assert_eq!(pick_format(&formats), bgra_srgb());
}

#[test]
fn image_count_is_one_above_the_minimum_or_three_within_the_maximum() {
    assert_eq!(pick_image_count(&caps((1, 1), (1, 1), (1, 1), 1, 0), 3), 3);
    assert_eq!(pick_image_count(&caps((1, 1), (1, 1), (1, 1), 4, 0), 3), 5);
    assert_eq!(pick_image_count(&caps((1, 1), (1, 1), (1, 1), 1, 2), 3), 2);
}

#[test]
fn present_mode_follows_vsync() {
    let modes = vec![
        vk::PresentModeKHR::FIFO.as_raw(),
        vk::PresentModeKHR::MAILBOX.as_raw(),
        vk::PresentModeKHR::IMMEDIATE.as_raw(),
    ];
    assert_eq!(pick_present_mode(true, &modes), vk::PresentModeKHR::FIFO.as_raw());
    assert_eq!(pick_present_mode(false, &modes), vk::PresentModeKHR::IMMEDIATE.as_raw());
    let no_immediate = vec![vk::PresentModeKHR::FIFO.as_raw(), vk::PresentModeKHR::MAILBOX.as_raw()];
    assert_eq!(pick_present_mode(false, &no_immediate), vk::PresentModeKHR::MAILBOX.as_raw());
    let fifo_only = vec![vk::PresentModeKHR::FIFO.as_raw()];
    assert_eq!(pick_present_mode(false, &fifo_only), vk::PresentModeKHR::FIFO.as_raw());
    let without_fifo = vec![vk::PresentModeKHR::MAILBOX.as_raw()];
    assert_eq!(pick_present_mode(false, &without_fifo), vk::PresentModeKHR::MAILBOX.as_raw());
}

#[test]
fn swapchain_plan_for_a_window() {
    let c = caps((1280, 720), (1, 1), (4096, 4096), 2, 8);
    let modes = vec![vk::PresentModeKHR::FIFO.as_raw()];
    let formats = vec![bgra_srgb()];
    let plan = plan_swapchain(true, 1920, 1080, &modes, &c, &formats).unwrap();
    assert_eq!(plan.width, 1280);
    assert_eq!(plan.height, 720);
    assert_eq!(plan.image_count, 3);
    assert_eq!(plan.format, bgra_srgb());
    assert_eq!(plan.present_mode, vk::PresentModeKHR::FIFO.as_raw());
    assert_eq!(
        plan.image_usage,
        (vk::ImageUsageFlags::COLOR_ATTACHMENT | vk::ImageUsageFlags::STORAGE | vk::ImageUsageFlags::TRANSFER_DST).as_raw()
    );
    assert_eq!(plan.pre_transform, vk::SurfaceTransformFlagsKHR::IDENTITY.as_raw());
    assert_eq!(plan.composite_alpha, vk::CompositeAlphaFlagsKHR::OPAQUE.as_raw());
}

#[test]
fn minimised_window_makes_no_swapchain() {
    let c = caps((0, 0), (0, 0), (4096, 4096), 2, 8);
    let modes = vec![vk::PresentModeKHR::FIFO.as_raw()];
    let formats = vec![bgra_srgb()];
    assert_eq!(plan_swapchain(true, 1920, 1080, &modes, &c, &formats), Err(SwapchainError::ZeroExtents));
}

#[test]
fn presenter_choices_are_fixed() {
    let modes = vec![vk::PresentModeKHR::MAILBOX.as_raw(), vk::PresentModeKHR::FIFO.as_raw()];
    assert_eq!(presenter_pick_present_mode(&modes), vk::PresentModeKHR::FIFO.as_raw());
    let formats = vec![
        SurfaceFormat { format: vk::Format::R8G8B8A8_UNORM.as_raw(), color_space: vk::ColorSpaceKHR::SRGB_NONLINEAR.as_raw() },
        bgra_srgb(),
    ];
    assert_eq!(presenter_pick_format(&formats), bgra_srgb());
    let c = caps((640, 480), (1, 1), (4096, 4096), 2, 8);
    assert_eq!(presenter_pick_swap_extent(&c), Extent2D { width: 640, height: 480 });
}

#[test]
fn acquire_semaphores_rotate() {
    let mut s = SwapchainStatus::new();
    assert_eq!(s.next_acquire_semaphore(3), 0);
    assert_eq!(s.next_acquire_semaphore(3), 1);
    assert_eq!(s.next_acquire_semaphore(3), 2);
    assert_eq!(s.next_acquire_semaphore(3), 0);
}

#[test]
fn acquire_outcomes_change_the_state() {
    let mut s = SwapchainStatus::new();
    assert_eq!(s.state(), VkSwapchainState::Okay);
    s.handle_acquire(AcquireOutcome::Acquired { image: 2, optimal: true });
    assert_eq!(s.acquired_image(), 2);
    assert_eq!(s.state(), VkSwapchainState::Okay);
    s.handle_acquire(AcquireOutcome::Acquired { image: 1, optimal: false });
    assert_eq!(s.acquired_image(), 1);
    assert_eq!(s.state(), VkSwapchainState::Okay);
    s.handle_acquire(AcquireOutcome::OutOfDate);
    assert_eq!(s.state(), VkSwapchainState::OutOfDate);
    assert_eq!(s.acquired_image(), 1);
    s.handle_acquire(AcquireOutcome::SurfaceLost);
    assert_eq!(s.state(), VkSwapchainState::Retired);
    assert!(s.surface_lost);
}

#[test]
fn retiring_for_recreation_hands_the_old_swapchain_on() {
    let mut s = SwapchainStatus::new();
    s.set_presented_image(4);
    assert_eq!(s.presented_image, 4);
    s.set_state(VkSwapchainState::Suboptimal);
    assert_eq!(s.state(), VkSwapchainState::Suboptimal);
    assert_eq!(s.retire_for_recreation(77), None);
    assert_eq!(s.state(), VkSwapchainState::Retired);
}
