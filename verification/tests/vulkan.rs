//! Vulkan values.

use ash::vk;
use lamco_wgpu::vulkan::{
    contains_name, find_memory_type_index, FormatFeatures, ASPECT_PLANE_0, ASPECT_PLANE_1,
    ASPECT_PLANE_2, DEVICE_TYPE_DISCRETE_GPU, FEATURE_COLOR_ATTACHMENT, FEATURE_DISJOINT,
    FEATURE_SAMPLED_IMAGE, FEATURE_TRANSFER_SRC, MEMORY_DEVICE_LOCAL, QUEUE_GRAPHICS,
    SEMAPHORE_EXPORTABLE, SEMAPHORE_IMPORTABLE, USAGE_COLOR_ATTACHMENT, USAGE_SAMPLED,
    USAGE_TRANSFER_DST, USAGE_TRANSFER_SRC,
};

#[test]
fn flags_are_those_of_vulkan() {
    assert_eq!(FEATURE_SAMPLED_IMAGE, vk::FormatFeatureFlags::SAMPLED_IMAGE.as_raw());
    assert_eq!(FEATURE_COLOR_ATTACHMENT, vk::FormatFeatureFlags::COLOR_ATTACHMENT.as_raw());
    assert_eq!(FEATURE_TRANSFER_SRC, vk::FormatFeatureFlags::TRANSFER_SRC.as_raw());
    assert_eq!(FEATURE_DISJOINT, vk::FormatFeatureFlags::DISJOINT.as_raw());
    assert_eq!(
        SEMAPHORE_EXPORTABLE,
        vk::ExternalSemaphoreFeatureFlags::EXPORTABLE.as_raw()
    );
    assert_eq!(
        SEMAPHORE_IMPORTABLE,
        vk::ExternalSemaphoreFeatureFlags::IMPORTABLE.as_raw()
    );
    assert_eq!(QUEUE_GRAPHICS, vk::QueueFlags::GRAPHICS.as_raw());
    assert_eq!(MEMORY_DEVICE_LOCAL, vk::MemoryPropertyFlags::DEVICE_LOCAL.as_raw());
    assert_eq!(ASPECT_PLANE_0, vk::ImageAspectFlags::PLANE_0.as_raw());
    assert_eq!(ASPECT_PLANE_1, vk::ImageAspectFlags::PLANE_1.as_raw());
    assert_eq!(ASPECT_PLANE_2, vk::ImageAspectFlags::PLANE_2.as_raw());
    assert_eq!(USAGE_TRANSFER_SRC, vk::ImageUsageFlags::TRANSFER_SRC.as_raw());
    assert_eq!(USAGE_TRANSFER_DST, vk::ImageUsageFlags::TRANSFER_DST.as_raw());
    assert_eq!(USAGE_SAMPLED, vk::ImageUsageFlags::SAMPLED.as_raw());
    assert_eq!(USAGE_COLOR_ATTACHMENT, vk::ImageUsageFlags::COLOR_ATTACHMENT.as_raw());
    assert_eq!(DEVICE_TYPE_DISCRETE_GPU, vk::PhysicalDeviceType::DISCRETE_GPU.as_raw());
}

#[test]
fn memory_type_is_the_first_that_suits() {
    let types = vec![1, 0, 3, 1];
    assert_eq!(find_memory_type_index(&types, 0b1111, 1), Some(0));
    assert_eq!(find_memory_type_index(&types, 0b1110, 1), Some(2));
    assert_eq!(find_memory_type_index(&types, 0b1111, 2), Some(2));
    assert_eq!(find_memory_type_index(&types, 0b0010, 1), None);
    assert_eq!(find_memory_type_index(&types, 0b0010, 0), Some(1));
    assert_eq!(find_memory_type_index(&types, 0, 0), None);
    assert_eq!(find_memory_type_index(&vec![], u32::MAX, 0), None);
    assert_eq!(find_memory_type_index(&vec![0; 32], 1 << 31, 0), Some(31));
}

#[test]
fn features_of_either_tiling_count() {
    let linear = FormatFeatures { linear: FEATURE_SAMPLED_IMAGE, optimal: 0 };
    let optimal = FormatFeatures { linear: 0, optimal: FEATURE_SAMPLED_IMAGE };
    assert!(linear.supports(FEATURE_SAMPLED_IMAGE));
    assert!(optimal.supports(FEATURE_SAMPLED_IMAGE));
    assert!(!linear.supports(FEATURE_SAMPLED_IMAGE | FEATURE_DISJOINT));
    let split = FormatFeatures { linear: FEATURE_SAMPLED_IMAGE, optimal: FEATURE_DISJOINT };
    assert!(!split.supports(FEATURE_SAMPLED_IMAGE | FEATURE_DISJOINT));
    assert!(split.supports(FEATURE_DISJOINT));
}

#[test]
fn names_are_compared_as_a_whole() {
    let names = vec!["VK_KHR_external_memory_fd".to_string()];
    assert!(contains_name(&names, "VK_KHR_external_memory_fd"));
    assert!(!contains_name(&names, "VK_KHR_external_memory"));
    assert!(!contains_name(&vec![], ""));
}
