//! DRM format modifiers.

use ash::vk;
use lamco_wgpu::modifiers::{
    drm_mod, find_modifier, is_modifier_supported, query_format_modifiers,
    ExplicitModifierCreateInfo, ModifierCapabilities, ModifierPlaneLayout, ModifierProperties,
    SubresourceLayout,
};

#[test]
fn test_modifier_describe_linear() {
    let props = ModifierProperties {
        modifier: drm_mod::LINEAR,
        plane_count: 1,
        format_features: vk::FormatFeatureFlags::SAMPLED_IMAGE.as_raw(),
    };
    assert_eq!(props.describe(), "LINEAR");
}

#[test]
fn test_modifier_describe_invalid() {
    let props = ModifierProperties {
        modifier: drm_mod::INVALID,
        plane_count: 0,
        format_features: vk::FormatFeatureFlags::empty().as_raw(),
    };
    assert_eq!(props.describe(), "INVALID");
}

#[test]
fn test_modifier_describe_vendor() {
    let props = ModifierProperties {
        modifier: drm_mod::VENDOR_INTEL | 0x1,
        plane_count: 1,
        format_features: vk::FormatFeatureFlags::SAMPLED_IMAGE.as_raw(),
    };
    assert!(props.describe().contains("Intel"));
}

#[test]
fn describe_every_vendor() {
    let vendors = [
        (drm_mod::VENDOR_NONE, "generic:0x2a"),
        (drm_mod::VENDOR_INTEL, "Intel:0x2a"),
        (drm_mod::VENDOR_AMD, "AMD:0x2a"),
        (drm_mod::VENDOR_NVIDIA, "NVIDIA:0x2a"),
        (drm_mod::VENDOR_SAMSUNG, "Samsung:0x2a"),
        (drm_mod::VENDOR_QCOM, "Qualcomm:0x2a"),
        (drm_mod::VENDOR_ARM, "ARM:0x2a"),
        (drm_mod::VENDOR_BROADCOM, "Broadcom:0x2a"),
        (0x0600_0000_0000_0000, "unknown:0x2a"),
    ];
    for (vendor, text) in vendors {
        let props =
            ModifierProperties { modifier: vendor | 0x2a, plane_count: 1, format_features: 0 };
        assert_eq!(props.describe(), text);
        assert_eq!(props.describe().split(':').last().unwrap(), format!("{:#x}", 0x2a));
    }
    let props = ModifierProperties {
        modifier: drm_mod::VENDOR_ARM | 0x00ff_ffff_ffff_ffff,
        plane_count: 1,
        format_features: 0,
    };
    assert_eq!(props.describe(), "ARM:0xffffffffffffff");
}

#[test]
fn test_modifier_supports_sampling() {
    let props = ModifierProperties {
        modifier: drm_mod::LINEAR,
        plane_count: 1,
        format_features: (vk::FormatFeatureFlags::SAMPLED_IMAGE
            | vk::FormatFeatureFlags::TRANSFER_SRC)
            .as_raw(),
    };
    assert!(props.supports_sampling());
    assert!(props.supports_transfer_src());
    assert!(!props.supports_color_attachment());
}

#[test]
fn modifier_without_features_supports_nothing() {
    let props = ModifierProperties { modifier: 1, plane_count: 1, format_features: 0 };
    assert!(!props.supports_sampling());
    assert!(!props.supports_transfer_src());
    assert!(!props.supports_color_attachment());
    let all = ModifierProperties {
        modifier: 1,
        plane_count: 1,
        format_features: vk::FormatFeatureFlags::COLOR_ATTACHMENT.as_raw(),
    };
    assert!(all.supports_color_attachment());
    assert!(!all.supports_sampling());
}

#[test]
fn test_explicit_modifier_single_plane() {
    let info = ExplicitModifierCreateInfo::single_plane(drm_mod::LINEAR, 0, 1920 * 4);
    assert_eq!(info.modifier, drm_mod::LINEAR);
    assert_eq!(info.plane_layouts.len(), 1);
    assert_eq!(info.plane_layouts[0].row_pitch, 1920 * 4);
}

#[test]
fn test_explicit_modifier_multi_plane() {
    let offsets = [0, 1920 * 1080];
    let strides = [1920, 1920];
    let info = ExplicitModifierCreateInfo::multi_plane(drm_mod::LINEAR, &offsets, &strides);
    assert_eq!(info.plane_layouts.len(), 2);
    assert_eq!(info.plane_layouts[1].offset, 1920 * 1080);
}

#[test]
fn multi_plane_of_one_is_single_plane() {
    let single = ExplicitModifierCreateInfo::single_plane(5, 64, 256);
    let multi = ExplicitModifierCreateInfo::multi_plane(5, &[64], &[256]);
    assert_eq!(single.modifier, multi.modifier);
    assert_eq!(single.plane_layouts, multi.plane_layouts);
    let none = ExplicitModifierCreateInfo::multi_plane(5, &[], &[]);
    assert!(none.plane_layouts.is_empty());
}

#[test]
fn modifiers_test_capabilities_default() {
    let caps = ModifierCapabilities::default();
    assert!(!caps.extension_available);
    assert!(!caps.extension_enabled);
    assert!(!caps.supports_modifiers());
}

#[test]
fn modifier_capabilities_of_extensions() {
    let with = vec![
        "VK_KHR_swapchain".to_string(),
        "VK_EXT_image_drm_format_modifier".to_string(),
    ];
    let caps = ModifierCapabilities::query(Some(&with));
    assert!(caps.extension_available);
    assert!(!caps.extension_enabled);
    assert!(!caps.supports_modifiers());
    assert_eq!(caps.max_planes, 4);

    let without = vec!["VK_KHR_swapchain".to_string()];
    let caps = ModifierCapabilities::query(Some(&without));
    assert!(!caps.extension_available);
    assert_eq!(caps.max_planes, 1);
    assert!(!ModifierCapabilities::check_extension_available(None));
    assert!(ModifierCapabilities::check_extension_available(Some(&with)));

    let enabled =
        ModifierCapabilities { extension_available: true, extension_enabled: true, max_planes: 4 };
    assert!(enabled.supports_modifiers());
}

#[test]
fn reported_modifiers_are_kept_in_order() {
    let props = query_format_modifiers(&vec![(7, 1, 3), (8, 2, 5)]);
    assert_eq!(
        props,
        vec![
            ModifierProperties { modifier: 7, plane_count: 1, format_features: 3 },
            ModifierProperties { modifier: 8, plane_count: 2, format_features: 5 },
        ]
    );
    assert!(query_format_modifiers(&vec![]).is_empty());
}

#[test]
fn first_of_equal_modifiers_is_found() {
    let props = query_format_modifiers(&vec![(7, 1, 3), (8, 2, 5), (8, 3, 6)]);
    assert_eq!(is_modifier_supported(&props, 8).unwrap().plane_count, 2);
    assert_eq!(find_modifier(&props, 7).unwrap().format_features, 3);
    assert!(is_modifier_supported(&props, 9).is_none());
}

#[test]
fn plane_layout_for_vulkan() {
    let layout = ModifierPlaneLayout {
        offset: 1,
        row_pitch: 2,
        size: 3,
        array_pitch: 4,
        depth_pitch: 5,
    };
    let vulkan = SubresourceLayout::from(&layout);
    assert_eq!(vulkan.offset, 1);
    assert_eq!(vulkan.row_pitch, 2);
    assert_eq!(vulkan.size, 3);
    assert_eq!(vulkan.array_pitch, 4);
    assert_eq!(vulkan.depth_pitch, 5);
    let empty = ModifierPlaneLayout::default();
    assert_eq!((empty.offset, empty.row_pitch, empty.size), (0, 0, 0));
}
