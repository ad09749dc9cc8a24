use vkrs::queue_family_indices::QueueFamilyIndices;
use vkrs::swapchain::{
    Extent2D, SharingMode, SupportDetails, SurfaceCapabilities, SurfaceFormat,
    SwapchainProperties, COLOR_SPACE_SRGB_NONLINEAR, FORMAT_B8G8R8A8_SRGB, PRESENT_MODE_FIFO,
    COMPOSITE_ALPHA_OPAQUE, IMAGE_USAGE_COLOR_ATTACHMENT, PRESENT_MODE_MAILBOX, UNDEFINED_EXTENT,
};

const PREFERRED: SurfaceFormat =
    SurfaceFormat { format: FORMAT_B8G8R8A8_SRGB, color_space: COLOR_SPACE_SRGB_NONLINEAR };

fn free_capabilities() -> SurfaceCapabilities {
    SurfaceCapabilities {
        min_image_count: 2,
        max_image_count: 0,
        current_extent: Extent2D { width: UNDEFINED_EXTENT, height: UNDEFINED_EXTENT },
        min_image_extent: Extent2D { width: 100, height: 50 },
        max_image_extent: Extent2D { width: 1920, height: 1080 },
        current_transform: 1,
    }
}

fn fixed_capabilities() -> SurfaceCapabilities {
    SurfaceCapabilities {
        current_extent: Extent2D { width: 640, height: 480 },
        ..free_capabilities()
    }
}

#[test]
fn constants_are_those_of_the_driver() {
    assert_eq!(FORMAT_B8G8R8A8_SRGB, ash::vk::Format::B8G8R8A8_SRGB.as_raw());
    assert_eq!(COLOR_SPACE_SRGB_NONLINEAR, ash::vk::ColorSpaceKHR::SRGB_NONLINEAR.as_raw());
    assert_eq!(PRESENT_MODE_MAILBOX, ash::vk::PresentModeKHR::MAILBOX.as_raw());
    assert_eq!(PRESENT_MODE_FIFO, ash::vk::PresentModeKHR::FIFO.as_raw());
    assert_eq!(UNDEFINED_EXTENT, u32::MAX);
    assert_eq!(IMAGE_USAGE_COLOR_ATTACHMENT, ash::vk::ImageUsageFlags::COLOR_ATTACHMENT.as_raw());
    assert_eq!(COMPOSITE_ALPHA_OPAQUE, ash::vk::CompositeAlphaFlagsKHR::OPAQUE.as_raw());
}

#[test]
fn recreation_picks_the_same_once_the_surface_follows() {
    let window = Extent2D { width: 5000, height: 20 };
    let formats = vec![SurfaceFormat { format: 44, color_space: 0 }, PREFERRED];
    let first = SupportDetails::new(free_capabilities(), formats.clone(), vec![1, 2]);
    let picked = first.get_ideal_swapchain_properties(&window);
    assert_eq!(picked.extent, Extent2D { width: 1920, height: 50 });
    // The surface now reports the extent of the swapchain it carries.
    let followed = SurfaceCapabilities { current_extent: picked.extent, ..free_capabilities() };
    let second = SupportDetails::new(followed, formats, vec![1, 2]);
    assert_eq!(second.get_ideal_swapchain_properties(&window), picked);
}

#[test]
fn preferred_format_is_taken_where_offered() {
    let formats = vec![SurfaceFormat { format: 44, color_space: 0 }, PREFERRED];
    assert_eq!(SupportDetails::choose_swapchain_surface_format(&formats), PREFERRED);
}

#[test]
fn first_format_is_the_fallback() {
    let formats = vec![
        SurfaceFormat { format: 44, color_space: 0 },
        SurfaceFormat { format: FORMAT_B8G8R8A8_SRGB, color_space: 1000104001 },
        SurfaceFormat { format: 37, color_space: COLOR_SPACE_SRGB_NONLINEAR },
    ];
    assert_eq!(
        SupportDetails::choose_swapchain_surface_format(&formats),
        SurfaceFormat { format: 44, color_space: 0 }
    );
}

#[test]
fn mailbox_is_taken_where_offered() {
    assert_eq!(SupportDetails::choose_swapchain_present_mode(&vec![0, 2, 1, 3]), 1);
}

#[test]
fn fifo_is_the_fallback() {
    assert_eq!(SupportDetails::choose_swapchain_present_mode(&vec![0, 3]), 2);
    assert_eq!(SupportDetails::choose_swapchain_present_mode(&vec![]), 2);
}

#[test]
fn current_extent_is_taken_where_defined() {
    let window = Extent2D { width: 800, height: 600 };
    assert_eq!(
        SupportDetails::choose_swapchain_extent(fixed_capabilities(), &window),
        Extent2D { width: 640, height: 480 }
    );
}

#[test]
fn window_size_is_clamped_into_the_bounds() {
    let capabilities = free_capabilities();
    let choose = |width, height| {
        SupportDetails::choose_swapchain_extent(capabilities, &Extent2D { width, height })
    };
    assert_eq!(choose(800, 600), Extent2D { width: 800, height: 600 });
    assert_eq!(choose(10, 20), Extent2D { width: 100, height: 50 });
    assert_eq!(choose(4000, 3000), Extent2D { width: 1920, height: 1080 });
    assert_eq!(choose(50, 2000), Extent2D { width: 100, height: 1080 });
    assert_eq!(choose(100, 1080), Extent2D { width: 100, height: 1080 });
    assert_eq!(choose(0, 0), Extent2D { width: 100, height: 50 });
}

#[test]
fn extent_lies_within_the_bounds_for_many_windows() {
    let capabilities = free_capabilities();
    let mut width = 0u32;
    while width < 4000 {
        let mut height = 0u32;
        while height < 3000 {
            let extent = SupportDetails::choose_swapchain_extent(
                capabilities,
                &Extent2D { width, height },
            );
            assert!(100 <= extent.width && extent.width <= 1920);
            assert!(50 <= extent.height && extent.height <= 1080);
            height += 97;
        }
        width += 131;
    }
}

#[test]
fn image_count_is_one_above_the_minimum() {
    assert_eq!(free_capabilities().image_count(), 3);
    let bounded = SurfaceCapabilities { max_image_count: 8, ..free_capabilities() };
    assert_eq!(bounded.image_count(), 3);
    let exact = SurfaceCapabilities { max_image_count: 3, ..free_capabilities() };
    assert_eq!(exact.image_count(), 3);
}

#[test]
fn image_count_stays_below_the_maximum() {
    let tight = SurfaceCapabilities { max_image_count: 2, ..free_capabilities() };
    assert_eq!(tight.image_count(), 2);
    let full = SurfaceCapabilities {
        min_image_count: u32::MAX,
        max_image_count: u32::MAX,
        ..free_capabilities()
    };
    assert_eq!(full.image_count(), u32::MAX);
}

#[test]
fn ideal_properties_put_the_three_choices_together() {
    let details = SupportDetails::new(
        free_capabilities(),
        vec![SurfaceFormat { format: 44, color_space: 0 }, PREFERRED],
        vec![2, 1],
    );
    assert_eq!(
        details.get_ideal_swapchain_properties(&Extent2D { width: 5000, height: 600 }),
        SwapchainProperties {
            surface_format: PREFERRED,
            present_mode: PRESENT_MODE_MAILBOX,
            extent: Extent2D { width: 1920, height: 600 },
        }
    );
}

#[test]
fn choosing_twice_gives_the_same() {
    let details = SupportDetails::new(
        free_capabilities(),
        vec![SurfaceFormat { format: 44, color_space: 0 }],
        vec![2, 0],
    );
    let again = SupportDetails::new(
        free_capabilities(),
        vec![SurfaceFormat { format: 44, color_space: 0 }],
        vec![2, 0],
    );
    let window = Extent2D { width: 800, height: 600 };
    let first = details.get_ideal_swapchain_properties(&window);
    let second = again.get_ideal_swapchain_properties(&window);
    assert_eq!(first, second);
    assert_eq!(
        first,
        SwapchainProperties {
            surface_format: SurfaceFormat { format: 44, color_space: 0 },
            present_mode: PRESENT_MODE_FIFO,
            extent: window,
        }
    );
}

#[test]
fn one_family_shares_exclusively() {
    let details = SupportDetails::new(free_capabilities(), vec![PREFERRED], vec![2]);
    let indices = QueueFamilyIndices { graphics_family: Some(3), present_family: Some(3) };
    let plan = details.plan_swapchain(&Extent2D { width: 800, height: 600 }, &indices, None);
    assert_eq!(plan.sharing_mode, SharingMode::Exclusive);
    assert_eq!(plan.image_array_layers, 1);
    assert_eq!(plan.image_usage, 0x10);
    assert_eq!(plan.pre_transform, 1);
    assert_eq!(plan.composite_alpha, 0x1);
    assert!(plan.clipped);
    assert_eq!(plan.old_swapchain, None);
    assert_eq!(plan.queue_family_indices, Vec::<u32>::new());
    assert_eq!(plan.image_count, 3);
    assert_eq!(
        plan.properties,
        SwapchainProperties {
            surface_format: PREFERRED,
            present_mode: PRESENT_MODE_FIFO,
            extent: Extent2D { width: 800, height: 600 },
        }
    );
}

#[test]
fn two_families_share_concurrently() {
    let rotated = SurfaceCapabilities { current_transform: 2, ..fixed_capabilities() };
    let details = SupportDetails::new(rotated, vec![PREFERRED], vec![1]);
    let indices = QueueFamilyIndices { graphics_family: Some(0), present_family: Some(2) };
    let plan =
        details.plan_swapchain(&Extent2D { width: 800, height: 600 }, &indices, Some(77));
    assert_eq!(plan.pre_transform, 2);
    assert_eq!(plan.old_swapchain, Some(77));
    assert_eq!(plan.sharing_mode, SharingMode::Concurrent);
    assert_eq!(plan.queue_family_indices, vec![0, 2]);
    assert_eq!(plan.properties.extent, Extent2D { width: 640, height: 480 });
    assert_eq!(plan.properties.present_mode, PRESENT_MODE_MAILBOX);
}

#[test]
fn adequate_needs_a_format_and_a_present_mode() {
    assert!(SupportDetails::new(free_capabilities(), vec![PREFERRED], vec![2]).is_adequate());
    assert!(!SupportDetails::new(free_capabilities(), vec![], vec![2]).is_adequate());
    assert!(!SupportDetails::new(free_capabilities(), vec![PREFERRED], vec![]).is_adequate());
}

#[test]
fn extent_without_area_is_empty() {
    assert!(Extent2D { width: 0, height: 0 }.is_empty());
    assert!(Extent2D { width: 0, height: 600 }.is_empty());
    assert!(Extent2D { width: 800, height: 0 }.is_empty());
    assert!(!Extent2D { width: 800, height: 600 }.is_empty());
}
