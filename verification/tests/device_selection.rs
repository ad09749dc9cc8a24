use vkrs::device::{
    any_device_scores, rate_physical_device, select_physical_device, DeviceType,
    PhysicalDeviceInfo, SelectedDevice,
};
use vkrs::queue_family_indices::{QueueFamily, QueueFamilyIndices};
use vkrs::swapchain::{Extent2D, SupportDetails, SurfaceCapabilities, SurfaceFormat};

fn capabilities() -> SurfaceCapabilities {
    SurfaceCapabilities {
        min_image_count: 2,
        max_image_count: 8,
        current_extent: Extent2D { width: 800, height: 600 },
        min_image_extent: Extent2D { width: 1, height: 1 },
        max_image_extent: Extent2D { width: 4096, height: 4096 },
        current_transform: 1,
    }
}

fn support() -> SupportDetails {
    SupportDetails::new(
        capabilities(),
        vec![SurfaceFormat { format: 44, color_space: 0 }],
        vec![2],
    )
}

fn device(device_type: DeviceType, max_image_dimension2_d: u32) -> PhysicalDeviceInfo {
    PhysicalDeviceInfo {
        device_type,
        max_image_dimension2_d,
        queue_families: vec![QueueFamily { queue_flags: 1, present_support: true }],
        extensions: vec!["VK_KHR_maintenance1".to_string(), "VK_KHR_swapchain".to_string()],
        swapchain_support: support(),
    }
}

fn both_on_zero() -> QueueFamilyIndices {
    QueueFamilyIndices { graphics_family: Some(0), present_family: Some(0) }
}

#[test]
fn score_adds_bonus_and_dimension() {
    assert_eq!(
        rate_physical_device(&device(DeviceType::DiscreteGpu, 2048)),
        (3048, Some(both_on_zero()))
    );
    assert_eq!(
        rate_physical_device(&device(DeviceType::IntegratedGpu, 4096)),
        (4196, Some(both_on_zero()))
    );
    assert_eq!(
        rate_physical_device(&device(DeviceType::Other, 16384)),
        (16384, Some(both_on_zero()))
    );
}

#[test]
fn score_does_not_overflow() {
    assert_eq!(
        rate_physical_device(&device(DeviceType::DiscreteGpu, u32::MAX)),
        (4294968295, Some(both_on_zero()))
    );
}

#[test]
fn device_without_graphics_family_scores_zero() {
    let mut candidate = device(DeviceType::DiscreteGpu, 2048);
    candidate.queue_families = vec![QueueFamily { queue_flags: 2, present_support: true }];
    assert_eq!(rate_physical_device(&candidate), (0, None));
}

#[test]
fn device_without_present_family_scores_zero() {
    let mut candidate = device(DeviceType::DiscreteGpu, 2048);
    candidate.queue_families = vec![QueueFamily { queue_flags: 1, present_support: false }];
    assert_eq!(rate_physical_device(&candidate), (0, None));
}

#[test]
fn device_without_swapchain_extension_scores_zero() {
    let mut candidate = device(DeviceType::DiscreteGpu, 2048);
    candidate.extensions = vec!["VK_KHR_maintenance1".to_string()];
    assert_eq!(rate_physical_device(&candidate), (0, None));
}

#[test]
fn device_without_formats_or_present_modes_scores_zero() {
    let mut candidate = device(DeviceType::DiscreteGpu, 2048);
    candidate.swapchain_support = SupportDetails::new(capabilities(), vec![], vec![2]);
    assert_eq!(rate_physical_device(&candidate), (0, None));
    let mut candidate = device(DeviceType::DiscreteGpu, 2048);
    candidate.swapchain_support = SupportDetails::new(
        capabilities(),
        vec![SurfaceFormat { format: 44, color_space: 0 }],
        vec![],
    );
    assert_eq!(rate_physical_device(&candidate), (0, None));
}

#[test]
fn selection_follows_the_formula() {
    // Integrated: 100 + 4096 = 4196. Discrete: 1000 + 2048 = 3048. The
    // scores are added up as they are, so the integrated device is ahead.
    let devices =
        vec![device(DeviceType::IntegratedGpu, 4096), device(DeviceType::DiscreteGpu, 2048)];
    assert_eq!(rate_physical_device(&devices[0]).0, 4196);
    assert_eq!(rate_physical_device(&devices[1]).0, 3048);
    assert_eq!(
        select_physical_device(&devices),
        SelectedDevice { index: 0, score: 4196, queue_family_indices: both_on_zero() }
    );
    let devices =
        vec![device(DeviceType::DiscreteGpu, 2048), device(DeviceType::IntegratedGpu, 4096)];
    assert_eq!(
        select_physical_device(&devices),
        SelectedDevice { index: 1, score: 4196, queue_family_indices: both_on_zero() }
    );
}

#[test]
fn discrete_wins_with_equal_dimension() {
    let devices =
        vec![device(DeviceType::IntegratedGpu, 4096), device(DeviceType::DiscreteGpu, 4096)];
    assert_eq!(
        select_physical_device(&devices),
        SelectedDevice { index: 1, score: 5096, queue_family_indices: both_on_zero() }
    );
}

#[test]
fn first_of_equal_scores_is_selected() {
    let devices = vec![
        device(DeviceType::Other, 100),
        device(DeviceType::DiscreteGpu, 2048),
        device(DeviceType::DiscreteGpu, 2048),
        device(DeviceType::IntegratedGpu, 2948),
    ];
    assert_eq!(
        select_physical_device(&devices),
        SelectedDevice { index: 1, score: 3048, queue_family_indices: both_on_zero() }
    );
}

#[test]
fn unsuitable_device_is_never_selected() {
    let mut unsuitable = device(DeviceType::DiscreteGpu, 16384);
    unsuitable.extensions = vec![];
    let devices = vec![unsuitable, device(DeviceType::Other, 1)];
    assert_eq!(
        select_physical_device(&devices),
        SelectedDevice { index: 1, score: 1, queue_family_indices: both_on_zero() }
    );
}

#[test]
fn nothing_can_be_selected_where_nothing_scores() {
    assert!(!any_device_scores(&vec![]));
    let mut unsuitable = device(DeviceType::DiscreteGpu, 16384);
    unsuitable.queue_families = vec![];
    assert!(!any_device_scores(&vec![unsuitable]));
    // Suitable, but neither a bonus nor a dimension: the score is zero.
    assert!(!any_device_scores(&vec![device(DeviceType::Other, 0)]));
}

#[test]
fn selected_queue_families_are_those_of_the_device() {
    let mut second = device(DeviceType::DiscreteGpu, 2048);
    second.queue_families = vec![
        QueueFamily { queue_flags: 4, present_support: false },
        QueueFamily { queue_flags: 1, present_support: false },
        QueueFamily { queue_flags: 2, present_support: true },
    ];
    let devices = vec![device(DeviceType::Other, 5), second];
    assert_eq!(
        select_physical_device(&devices),
        SelectedDevice {
            index: 1,
            score: 3048,
            queue_family_indices: QueueFamilyIndices {
                graphics_family: Some(1),
                present_family: Some(2),
            },
        }
    );
}

#[test]
fn one_scoring_device_is_enough_to_select() {
    let mut unsuitable = device(DeviceType::DiscreteGpu, 16384);
    unsuitable.swapchain_support = SupportDetails::new(capabilities(), vec![], vec![]);
    let devices = vec![unsuitable, device(DeviceType::Other, 0), device(DeviceType::Other, 1)];
    assert!(any_device_scores(&devices));
    assert_eq!(
        select_physical_device(&devices),
        SelectedDevice { index: 2, score: 1, queue_family_indices: both_on_zero() }
    );
    assert!(any_device_scores(&vec![device(DeviceType::IntegratedGpu, 0)]));
}
