use vkrs::queue_family_indices::QueueFamilyIndices;
use vkrs::resources::{
    find_memory_type, uniform_plan, unique_queue_families, upload_plan, upload_steps, BufferPlan,
    GeometryUsage, UniformPlan, UploadPlan, UploadStep, BUFFER_USAGE_INDEX_BUFFER, BUFFER_USAGE_TRANSFER_DST,
    BUFFER_USAGE_TRANSFER_SRC, BUFFER_USAGE_UNIFORM_BUFFER, BUFFER_USAGE_VERTEX_BUFFER,
    MAX_MEMORY_TYPES, MEMORY_DEVICE_LOCAL, MEMORY_HOST_COHERENT, MEMORY_HOST_VISIBLE,
    UNIFORM_PAYLOAD_SIZE,
};
use vkrs::swapchain::{Extent2D, SurfaceFormat, SwapchainProperties};
use vkrs::swapchain_state::{ImageResources, SwapchainParts, SwapchainState};

#[test]
fn bits_are_those_of_the_driver() {
    assert_eq!(MEMORY_DEVICE_LOCAL, ash::vk::MemoryPropertyFlags::DEVICE_LOCAL.as_raw());
    assert_eq!(MEMORY_HOST_VISIBLE, ash::vk::MemoryPropertyFlags::HOST_VISIBLE.as_raw());
    assert_eq!(MEMORY_HOST_COHERENT, ash::vk::MemoryPropertyFlags::HOST_COHERENT.as_raw());
    assert_eq!(BUFFER_USAGE_TRANSFER_SRC, ash::vk::BufferUsageFlags::TRANSFER_SRC.as_raw());
    assert_eq!(BUFFER_USAGE_TRANSFER_DST, ash::vk::BufferUsageFlags::TRANSFER_DST.as_raw());
    assert_eq!(BUFFER_USAGE_UNIFORM_BUFFER, ash::vk::BufferUsageFlags::UNIFORM_BUFFER.as_raw());
    assert_eq!(BUFFER_USAGE_INDEX_BUFFER, ash::vk::BufferUsageFlags::INDEX_BUFFER.as_raw());
    assert_eq!(BUFFER_USAGE_VERTEX_BUFFER, ash::vk::BufferUsageFlags::VERTEX_BUFFER.as_raw());
    assert_eq!(MAX_MEMORY_TYPES, ash::vk::MAX_MEMORY_TYPES);
}

#[test]
fn first_fitting_memory_type_is_found() {
    let memory_types = vec![0b0001, 0b0110, 0b1110, 0b0111];
    // Host visible and coherent, every type allowed.
    assert_eq!(find_memory_type(0b1111, &memory_types, 0b0110), Some(1));
    // The second type is not allowed.
    assert_eq!(find_memory_type(0b1101, &memory_types, 0b0110), Some(2));
    // Device local.
    assert_eq!(find_memory_type(0b1111, &memory_types, 0b0001), Some(0));
    assert_eq!(find_memory_type(0b1110, &memory_types, 0b0001), Some(3));
}

#[test]
fn every_required_property_must_be_there() {
    let memory_types = vec![0b0010, 0b0100, 0b0110];
    assert_eq!(find_memory_type(0b111, &memory_types, 0b0110), Some(2));
    assert_eq!(find_memory_type(0b011, &memory_types, 0b0110), None);
    assert_eq!(find_memory_type(0b111, &memory_types, 0b1000), None);
}

#[test]
fn no_memory_type_is_found_where_none_fits() {
    assert_eq!(find_memory_type(0xFFFF_FFFF, &vec![], 0), None);
    assert_eq!(find_memory_type(0, &vec![0b111, 0b111], 0b1), None);
    // Bits of types that the device does not have do not count.
    assert_eq!(find_memory_type(0b100, &vec![0b1, 0b1], 0b1), None);
}

#[test]
fn last_memory_type_can_be_found() {
    let mut memory_types = vec![0u32; 32];
    memory_types[31] = 0b1;
    assert_eq!(find_memory_type(0x8000_0000, &memory_types, 0b1), Some(31));
    assert_eq!(find_memory_type(0xFFFF_FFFF, &memory_types, 0b1), Some(31));
    assert_eq!(find_memory_type(0x7FFF_FFFF, &memory_types, 0b1), None);
}

#[test]
fn queue_families_are_named_once() {
    let same = QueueFamilyIndices { graphics_family: Some(2), present_family: Some(2) };
    assert_eq!(unique_queue_families(&same), vec![2]);
    let different = QueueFamilyIndices { graphics_family: Some(2), present_family: Some(0) };
    assert_eq!(unique_queue_families(&different), vec![2, 0]);
}

#[test]
fn vertex_upload_goes_through_a_staging_buffer() {
    // Four vertices of 20 bytes.
    assert_eq!(
        upload_plan(20, 4, GeometryUsage::Vertex),
        Some(UploadPlan {
            staging: BufferPlan { size: 80, usage: 0x1, memory_properties: 0x6 },
            destination: BufferPlan { size: 80, usage: 0x82, memory_properties: 0x1 },
            copy_size: 80,
        })
    );
}

#[test]
fn index_upload_goes_through_a_staging_buffer() {
    // Six indices of 2 bytes.
    assert_eq!(
        upload_plan(2, 6, GeometryUsage::Index),
        Some(UploadPlan {
            staging: BufferPlan { size: 12, usage: 0x1, memory_properties: 0x6 },
            destination: BufferPlan { size: 12, usage: 0x42, memory_properties: 0x1 },
            copy_size: 12,
        })
    );
    assert_eq!(GeometryUsage::Index.bit(), 0x40);
    assert_eq!(GeometryUsage::Vertex.bit(), 0x80);
}

#[test]
fn upload_that_does_not_fit_has_no_plan() {
    assert_eq!(upload_plan(u64::MAX, 2, GeometryUsage::Vertex), None);
    assert_eq!(upload_plan(1 << 32, 1 << 32, GeometryUsage::Index), None);
    assert_eq!(
        upload_plan(u64::MAX, 1, GeometryUsage::Vertex).map(|plan| plan.copy_size),
        Some(u64::MAX)
    );
    assert_eq!(upload_plan(0, 7, GeometryUsage::Vertex).map(|plan| plan.copy_size), Some(0));
}

#[test]
fn uniform_buffers_come_one_for_each_image() {
    assert_eq!(UNIFORM_PAYLOAD_SIZE, 3 * 16 * 4);
    assert_eq!(
        uniform_plan(3),
        UniformPlan {
            buffer_count: 3,
            buffer: BufferPlan { size: 192, usage: 0x10, memory_properties: 0x6 },
            descriptor_count: 3,
            max_sets: 3,
        }
    );
}

fn properties() -> SwapchainProperties {
    SwapchainProperties {
        surface_format: SurfaceFormat { format: 50, color_space: 0 },
        present_mode: 2,
        extent: Extent2D { width: 800, height: 600 },
    }
}

fn parts(images: u64, image_views: u64, framebuffers: u64) -> SwapchainParts {
    SwapchainParts {
        images: (0..images).map(|i| 100 + i).collect(),
        image_views: (0..image_views).map(|i| 200 + i).collect(),
        framebuffers: (0..framebuffers).map(|i| 300 + i).collect(),
        uniform_buffers: (0..images).map(|i| 400 + i).collect(),
        uniform_buffer_memories: (0..images).map(|i| 500 + i).collect(),
        descriptor_sets: (0..images).map(|i| 600 + i).collect(),
    }
}

#[test]
fn swapchain_state_has_equal_counts() {
    let state = SwapchainState::new(7, properties(), parts(3, 3, 3)).unwrap();
    assert_eq!(state.image_count(), 3);
    assert_eq!(state.image_view_count(), 3);
    assert_eq!(state.framebuffer_count(), 3);
    assert_eq!(state.handle(), 7);
    assert_eq!(state.properties(), properties());
}

#[test]
fn swapchain_state_refuses_unequal_counts() {
    assert!(SwapchainState::new(7, properties(), parts(3, 2, 3)).is_none());
    assert!(SwapchainState::new(7, properties(), parts(3, 3, 4)).is_none());
    assert!(SwapchainState::new(7, properties(), parts(0, 1, 0)).is_none());
    let mut uneven = parts(3, 3, 3);
    uneven.uniform_buffers.pop();
    assert!(SwapchainState::new(7, properties(), uneven).is_none());
    let mut uneven = parts(3, 3, 3);
    uneven.uniform_buffer_memories.push(1);
    assert!(SwapchainState::new(7, properties(), uneven).is_none());
    let mut uneven = parts(3, 3, 3);
    uneven.descriptor_sets.clear();
    assert!(SwapchainState::new(7, properties(), uneven).is_none());
    assert!(SwapchainState::new(7, properties(), parts(0, 0, 0)).is_some());
}

#[test]
fn recreation_may_change_the_image_count() {
    let first = SwapchainState::new(7, properties(), parts(3, 3, 3)).unwrap();
    let second = SwapchainState::new(8, properties(), parts(2, 2, 2)).unwrap();
    assert_eq!(first.image_count(), 3);
    assert_eq!(second.image_count(), 2);
    assert_eq!(second.image_view_count(), second.framebuffer_count());
    assert_eq!(first.properties(), second.properties());
}

#[test]
fn image_resources_are_found_by_index() {
    let state = SwapchainState::new(7, properties(), parts(3, 3, 3)).unwrap();
    assert_eq!(
        state.resources(1),
        Some(ImageResources {
            image: 101,
            image_view: 201,
            framebuffer: 301,
            uniform_buffer: 401,
            uniform_buffer_memory: 501,
            descriptor_set: 601,
        })
    );
    assert_eq!(state.resources(2).map(|found| found.framebuffer), Some(302));
    assert_eq!(state.resources(3), None);
    assert_eq!(state.resources(u32::MAX), None);
}

#[test]
fn parts_come_back_unchanged() {
    let state = SwapchainState::new(7, properties(), parts(2, 2, 2)).unwrap();
    let back = state.into_parts();
    assert_eq!(back.images, vec![100, 101]);
    assert_eq!(back.image_views, vec![200, 201]);
    assert_eq!(back.framebuffers, vec![300, 301]);
    assert_eq!(back.uniform_buffers, vec![400, 401]);
    assert_eq!(back.uniform_buffer_memories, vec![500, 501]);
    assert_eq!(back.descriptor_sets, vec![600, 601]);
}

#[test]
fn staging_buffer_outlives_the_copy() {
    assert_eq!(
        upload_steps(),
        vec![
            UploadStep::CreateStagingBuffer,
            UploadStep::FillStagingBuffer,
            UploadStep::CreateDestinationBuffer,
            UploadStep::SubmitCopy,
            UploadStep::WaitQueueIdle,
            UploadStep::DestroyStagingBuffer,
        ]
    );
}
