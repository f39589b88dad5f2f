//! The bridge: formats, imports and frames.

use ash::vk;
use lamco_wgpu::bridge::{
    default_supported_formats, queried_formats, query_supported_formats, AutoImport, FormatReply,
    ImportedDmabuf, PollOutcome, WgpuBridge,
};
use lamco_wgpu::dmabuf::DmabufInfo;
use lamco_wgpu::error::{BridgeError, ImportError};
use lamco_wgpu::format::{DrmFourcc, TextureFormat, VkFormat};
use lamco_wgpu::modifiers::{
    drm_mod, ExplicitModifierCreateInfo, ModifierCapabilities, ModifierProperties,
};
use lamco_wgpu::multiplanar::{MultiPlanarCapabilities, YcbcrColorspace, YcbcrModel, YcbcrRange};
use lamco_wgpu::sync::SyncCapabilities;
use lamco_wgpu::texture::WgpuTexture;
use lamco_wgpu::vulkan::{FormatFeatures, ImageTiling, Resource};

#[test]
fn test_bridge_creation() {
    let bridge = WgpuBridge::new(None);
    let formats = bridge.supported_formats();
    assert!(!formats.is_empty(), "Should have at least one supported format");
}

#[test]
fn test_format_support() {
    let bridge = WgpuBridge::new(None);
    // ARGB8888 should be universally supported
    assert!(
        bridge.supports_format(DrmFourcc::Argb8888, 0),
        "ARGB8888 should be supported"
    );
    assert!(!bridge.supports_format(DrmFourcc::Argb8888, 1));
    assert!(!bridge.supports_format(DrmFourcc::Nv12, 0));
}

#[test]
fn test_modifier_capabilities() {
    let bridge = WgpuBridge::new(None);
    let caps = bridge.modifier_capabilities();
    assert!(!caps.extension_available);
    assert!(!caps.supports_modifiers());
}

#[test]
fn test_format_modifiers() {
    let bridge = WgpuBridge::new(None);
    if let Some(modifiers) = bridge.get_format_modifiers(DrmFourcc::Argb8888) {
        // Should have at least LINEAR modifier
        let has_linear = modifiers.iter().any(|m| m.modifier == drm_mod::LINEAR);
        assert!(has_linear, "Should support LINEAR modifier for ARGB8888");
    } else {
        panic!("ARGB8888 should be supported");
    }
    assert!(bridge.get_format_modifiers(DrmFourcc::Nv12).is_none());
}

#[test]
fn test_modifier_properties_lookup() {
    let bridge = WgpuBridge::new(None);
    let props = bridge.get_modifier_properties(DrmFourcc::Argb8888, drm_mod::LINEAR).unwrap();
    assert_eq!(props.modifier, drm_mod::LINEAR);
    assert_eq!(props.plane_count, 1, "LINEAR should be single-plane");

    // INVALID modifier should not be supported
    let invalid_props = bridge.get_modifier_properties(DrmFourcc::Argb8888, drm_mod::INVALID);
    assert!(invalid_props.is_none(), "INVALID modifier should not be in supported list");
}

#[test]
fn test_supports_modifiers() {
    assert!(!WgpuBridge::new(None).supports_modifiers());
}

#[test]
fn default_formats_in_full() {
    let formats = default_supported_formats();
    let expected = [
        (DrmFourcc::Argb8888, TextureFormat::Bgra8Unorm, VkFormat::B8G8R8A8Unorm),
        (DrmFourcc::Xrgb8888, TextureFormat::Bgra8Unorm, VkFormat::B8G8R8A8Unorm),
        (DrmFourcc::Abgr8888, TextureFormat::Rgba8Unorm, VkFormat::R8G8B8A8Unorm),
        (DrmFourcc::Xbgr8888, TextureFormat::Rgba8Unorm, VkFormat::R8G8B8A8Unorm),
        (DrmFourcc::Argb2101010, TextureFormat::Rgb10a2Unorm, VkFormat::A2B10G10R10UnormPack32),
    ];
    assert_eq!(formats.len(), expected.len());
    for (format, (fourcc, wgpu_format, vk_format)) in formats.iter().zip(expected) {
        assert_eq!(format.fourcc, fourcc);
        assert_eq!(format.wgpu_format, wgpu_format);
        assert_eq!(format.vk_format, vk_format);
        assert_eq!(format.modifiers, vec![drm_mod::LINEAR]);
        assert_eq!(
            format.modifier_props,
            vec![ModifierProperties {
                modifier: drm_mod::LINEAR,
                plane_count: 1,
                format_features: vk::FormatFeatureFlags::SAMPLED_IMAGE.as_raw(),
            }]
        );
    }
}

fn replies(sampled: &[usize]) -> Vec<FormatReply> {
    (0..queried_formats().len())
        .map(|i| FormatReply {
            features: FormatFeatures { linear: 0x4000, optimal: sampled.contains(&i) as u32 },
            modifiers: vec![],
        })
        .collect()
}

#[test]
fn formats_of_a_device() {
    let mut replies = replies(&[0, 8, 9]);
    replies[8].modifiers = vec![
        ModifierProperties { modifier: 5, plane_count: 1, format_features: 1 },
        ModifierProperties { modifier: 6, plane_count: 2, format_features: 3 },
    ];
    let formats = query_supported_formats(Some(&replies));
    assert_eq!(formats.len(), 3);
    assert_eq!(formats[0].fourcc, DrmFourcc::Argb8888);
    assert_eq!(formats[0].wgpu_format, TextureFormat::Bgra8Unorm);
    assert_eq!(formats[0].modifiers, vec![drm_mod::LINEAR]);
    assert_eq!(formats[0].modifier_props[0].format_features, 0x4000);
    assert_eq!(formats[1].fourcc, DrmFourcc::Gr88);
    assert_eq!(formats[1].vk_format, VkFormat::R8G8Unorm);
    assert_eq!(formats[1].modifiers, vec![5, 6]);
    assert_eq!(formats[2].fourcc, DrmFourcc::Argb8888);
    assert_eq!(formats[2].wgpu_format, TextureFormat::Bgra8UnormSrgb);

    let bridge = WgpuBridge::new(Some(&replies));
    assert!(bridge.supports_format(DrmFourcc::Gr88, 6));
    assert!(!bridge.supports_format(DrmFourcc::Gr88, drm_mod::LINEAR));
    assert_eq!(bridge.get_modifier_properties(DrmFourcc::Gr88, 6).unwrap().plane_count, 2);
}

#[test]
fn device_without_formats_has_the_default_ones() {
    let formats = query_supported_formats(Some(&replies(&[])));
    assert_eq!(formats.len(), default_supported_formats().len());
    let all: Vec<usize> = (0..11).collect();
    assert_eq!(query_supported_formats(Some(&replies(&all))).len(), 11);
}

fn dmabuf(fourcc: DrmFourcc) -> DmabufInfo {
    DmabufInfo {
        id: 1,
        width: 64,
        height: 32,
        fourcc,
        modifier: drm_mod::INVALID,
        fds: vec![10, 11],
        offsets: vec![16, 2048],
        strides: vec![256, 128],
    }
}

#[test]
fn import_runs_through() {
    let bridge = WgpuBridge::new(None);
    let import = bridge.import_dmabuf(&dmabuf(DrmFourcc::Xbgr8888)).unwrap();
    assert_eq!(import.fd, 10);
    assert_eq!((import.offset, import.stride), (16, 256));
    assert_eq!(import.modifier, drm_mod::LINEAR);
    let image = import.fd_duplicated(20, true).unwrap();
    assert_eq!(image.import_fd, 20);
    assert_eq!(image.modifier, drm_mod::LINEAR);
    assert_eq!((image.plane_layout.offset, image.plane_layout.row_pitch), (16, 256));
    let request = image.image_request();
    assert_eq!(request.format, VkFormat::R8G8B8A8Unorm);
    assert_eq!((request.width, request.height), (64, 32));
    assert_eq!(request.tiling, ImageTiling::DrmFormatModifier(drm_mod::LINEAR));
    assert_eq!(
        request.usage,
        (vk::ImageUsageFlags::SAMPLED | vk::ImageUsageFlags::TRANSFER_SRC).as_raw()
    );
    assert!(!request.disjoint);
    let created = image.image_created(Ok(5)).unwrap();
    let allocation = created.memory_chosen(Some(&vec![0, 1, 3]), 0b111, 8192).unwrap();
    assert_eq!(allocation.request.memory_type_index, 1);
    assert_eq!(allocation.request.size, 8192);
    assert_eq!(allocation.import_fd, 20);
    let texture = allocation.allocated(Ok(6)).unwrap().bound(Ok(())).unwrap();
    assert_eq!(texture.width(), 64);
    assert_eq!(texture.height(), 32);
    assert_eq!(texture.wgpu_format(), TextureFormat::Rgba8Unorm);
    assert!(texture.is_external());
    assert!(texture.y_inverted());
}

#[test]
fn explicit_modifier_of_a_dmabuf_is_kept() {
    let bridge = WgpuBridge::new(None);
    let mut tiled = dmabuf(DrmFourcc::Argb8888);
    tiled.modifier = drm_mod::VENDOR_INTEL | 1;
    assert_eq!(bridge.import_dmabuf(&tiled).unwrap().modifier, drm_mod::VENDOR_INTEL | 1);
}

#[test]
fn dmabufs_that_cannot_be_imported() {
    let bridge = WgpuBridge::new(None);
    let mut empty = dmabuf(DrmFourcc::Argb8888);
    empty.height = 0;
    assert!(matches!(
        bridge.import_dmabuf(&empty),
        Err(ImportError::InvalidDimensions { width: 64, height: 0 })
    ));
    assert!(matches!(
        bridge.import_dmabuf(&dmabuf(DrmFourcc::Nv12)),
        Err(ImportError::MultiPlanarFormat { fourcc: DrmFourcc::Nv12, .. })
    ));
    assert!(matches!(
        bridge.import_dmabuf(&dmabuf(DrmFourcc::Other(1))),
        Err(ImportError::UnsupportedFormat(DrmFourcc::Other(1)))
    ));
    let mut planeless = dmabuf(DrmFourcc::Argb8888);
    planeless.strides.clear();
    match bridge.import_dmabuf(&planeless) {
        Err(ImportError::InvalidPlanes(text)) => assert_eq!(text, "No planes in dmabuf"),
        other => panic!("unexpected {:?}", other),
    }
}

#[test]
fn import_failures_release_what_was_created() {
    let bridge = WgpuBridge::new(None);
    let import = bridge.import_dmabuf(&dmabuf(DrmFourcc::Argb8888)).unwrap();
    match import.fd_duplicated(-1, true) {
        Err(ImportError::FdImport(text)) => assert_eq!(text, "failed to dup dmabuf fd"),
        other => panic!("unexpected {:?}", other),
    }
    assert!(matches!(import.fd_duplicated(20, false), Err(ImportError::BridgeUnavailable)));
    for fourcc in [DrmFourcc::R8, DrmFourcc::Rg88, DrmFourcc::Gr88] {
        let refused = bridge.import_dmabuf(&dmabuf(fourcc)).unwrap().fd_duplicated(20, true);
        match refused {
            Err(ImportError::UnsupportedFormat(named)) => assert_eq!(named, fourcc),
            other => panic!("unexpected {:?}", other),
        }
    }
    let image = import.fd_duplicated(20, true).unwrap();
    match image.image_created(Err(-2)) {
        Err(ImportError::ImageCreation(text)) => {
            assert_eq!(text, "vkCreateImage failed: ERROR_OUT_OF_DEVICE_MEMORY")
        }
        other => panic!("unexpected {:?}", other),
    }
    let created = image.image_created(Ok(5)).unwrap();
    let failure = created.memory_chosen(None, 1, 64).unwrap_err();
    assert!(matches!(failure.error, ImportError::BridgeUnavailable));
    assert!(failure.released.is_empty());
    let failure = created.memory_chosen(Some(&vec![0, 2]), 0b11, 64).unwrap_err();
    assert_eq!(failure.released, vec![Resource::Image(5)]);
    match failure.error {
        ImportError::MemoryAllocation(text) => assert_eq!(text, "no suitable memory type found"),
        other => panic!("unexpected {:?}", other),
    }
    let allocation = created.memory_chosen(Some(&vec![1]), 1, 64).unwrap();
    let failure = allocation.allocated(Err(-2)).unwrap_err();
    assert_eq!(failure.released, vec![Resource::Image(5)]);
    match failure.error {
        ImportError::MemoryAllocation(text) => {
            assert_eq!(text, "vkAllocateMemory failed: ERROR_OUT_OF_DEVICE_MEMORY")
        }
        other => panic!("unexpected {:?}", other),
    }
    let failure = allocation.allocated(Ok(6)).unwrap().bound(Err(-2)).unwrap_err();
    assert_eq!(failure.released, vec![Resource::Memory(6), Resource::Image(5)]);
    match failure.error {
        ImportError::MemoryAllocation(text) => {
            assert_eq!(text, "vkBindImageMemory failed: ERROR_OUT_OF_DEVICE_MEMORY")
        }
        other => panic!("unexpected {:?}", other),
    }
}

fn modifier_bridge() -> WgpuBridge {
    let mut replies = replies(&[0]);
    replies[0].modifiers =
        vec![ModifierProperties { modifier: 77, plane_count: 2, format_features: 1 }];
    let queried = ModifierCapabilities {
        extension_available: true,
        extension_enabled: false,
        max_planes: 4,
    };
    WgpuBridge::from_smithay_vulkan(1, &queried).into_bridge(
        Some(&replies),
        SyncCapabilities::default(),
        queried,
        planar_capabilities(),
    )
}

fn planar_capabilities() -> MultiPlanarCapabilities {
    MultiPlanarCapabilities {
        has_ycbcr_conversion: true,
        supported_formats: vec![DrmFourcc::Nv12],
        max_planes: 3,
    }
}

fn tiled_info() -> ExplicitModifierCreateInfo {
    ExplicitModifierCreateInfo::multi_plane(77, &[0, 4096], &[256, 64])
}

#[test]
fn import_with_modifier_runs_through() {
    let bridge = modifier_bridge();
    assert!(bridge.supports_modifiers());
    let buffer = dmabuf(DrmFourcc::Argb8888);
    let import = bridge.import_dmabuf_with_modifier(&buffer, &tiled_info(), true).unwrap();
    assert_eq!(import.fd, 10);
    assert_eq!(import.modifier, 77);
    assert_eq!(import.vk_format, VkFormat::B8G8R8A8Unorm);
    assert_eq!(import.plane_layouts.len(), 2);
    assert_eq!(import.plane_layouts[1].offset, 4096);
    assert_eq!(import.plane_layouts[1].row_pitch, 64);
    assert_eq!(import.image_request().tiling, ImageTiling::DrmFormatModifier(77));
    let created = import.image_created(Ok(5)).unwrap();
    let memory = created.memory_chosen(Some(&vec![1]), 1, 64).unwrap();
    assert_eq!(memory.fd, 10);
    let allocation = memory.fd_duplicated(20).unwrap();
    assert_eq!(allocation.import_fd, 20);
    assert_eq!(allocation.image, 5);
    let texture = allocation.allocated(Ok(6)).unwrap().bound(Ok(())).unwrap();
    assert_eq!(texture.wgpu_format(), TextureFormat::Bgra8Unorm);
}

#[test]
fn dmabuf_without_planes_and_modifier_without_planes() {
    let mut replies = replies(&[0]);
    replies[0].modifiers =
        vec![ModifierProperties { modifier: 5, plane_count: 0, format_features: 1 }];
    let bare = ExplicitModifierCreateInfo::multi_plane(5, &[], &[]);
    let mut planeless = dmabuf(DrmFourcc::Argb8888);
    planeless.fds.clear();
    let plain = WgpuBridge::new(Some(&replies));
    assert!(plain.has_modifier_plane(&planeless, &bare, true));
    assert!(matches!(
        plain.import_dmabuf_with_modifier(&planeless, &bare, true),
        Err(ImportError::UnsupportedModifier(5))
    ));
    let queried = ModifierCapabilities {
        extension_available: true,
        extension_enabled: false,
        max_planes: 4,
    };
    let bridge = WgpuBridge::from_smithay_vulkan(1, &queried).into_bridge(
        Some(&replies),
        SyncCapabilities::default(),
        queried,
        planar_capabilities(),
    );
    assert!(!bridge.has_modifier_plane(&planeless, &bare, true));
    assert!(bridge.has_modifier_plane(&dmabuf(DrmFourcc::Argb8888), &bare, true));
    assert!(matches!(
        bridge.import_dmabuf_with_modifier(&planeless, &bare, false),
        Err(ImportError::BridgeUnavailable)
    ));
}

#[test]
fn offsets_count_where_the_planes_can_be_imported() {
    let bridge = modifier_bridge();
    let mut short = dmabuf(DrmFourcc::Nv12);
    assert!(bridge.has_planar_offsets(&short, None, true));
    short.offsets.pop();
    assert!(!bridge.has_planar_offsets(&short, None, true));
    assert!(bridge.has_planar_offsets(&short, None, false));
    assert!(matches!(
        bridge.import_multiplanar_dmabuf(&short, None, false),
        Err(ImportError::BridgeUnavailable)
    ));
    short.height = 0;
    assert!(matches!(
        bridge.import_dmabuf_auto(&short, true),
        Err(ImportError::InvalidDimensions { width: 64, height: 0 })
    ));
}

#[test]
fn import_with_modifier_failures() {
    let buffer = dmabuf(DrmFourcc::Argb8888);
    let plain = WgpuBridge::new(None);
    assert!(matches!(
        plain.import_dmabuf_with_modifier(&buffer, &tiled_info(), true),
        Err(ImportError::UnsupportedModifier(77))
    ));
    let bridge = modifier_bridge();
    let mut empty = dmabuf(DrmFourcc::Argb8888);
    empty.width = 0;
    assert!(matches!(
        bridge.import_dmabuf_with_modifier(&empty, &tiled_info(), true),
        Err(ImportError::InvalidDimensions { width: 0, height: 32 })
    ));
    assert!(matches!(
        bridge.import_dmabuf_with_modifier(&dmabuf(DrmFourcc::R8), &tiled_info(), true),
        Err(ImportError::UnsupportedFormat(DrmFourcc::R8))
    ));
    let other = ExplicitModifierCreateInfo::single_plane(78, 0, 256);
    assert!(matches!(
        bridge.import_dmabuf_with_modifier(&buffer, &other, true),
        Err(ImportError::UnsupportedModifier(78))
    ));
    let short = ExplicitModifierCreateInfo::single_plane(77, 0, 256);
    match bridge.import_dmabuf_with_modifier(&buffer, &short, true) {
        Err(ImportError::InvalidPlanes(text)) => {
            assert_eq!(text, "Modifier expects 2 planes, got 1")
        }
        other => panic!("unexpected {:?}", other),
    }
    let mut one_plane = dmabuf(DrmFourcc::Argb8888);
    one_plane.offsets.truncate(1);
    match bridge.import_dmabuf_with_modifier(&one_plane, &tiled_info(), true) {
        Err(ImportError::InvalidPlanes(text)) => assert_eq!(text, "Dmabuf has 1 planes, need 2"),
        other => panic!("unexpected {:?}", other),
    }
    assert!(matches!(
        bridge.import_dmabuf_with_modifier(&buffer, &tiled_info(), false),
        Err(ImportError::BridgeUnavailable)
    ));
}

#[test]
fn import_with_modifier_releases_what_was_created() {
    let bridge = modifier_bridge();
    let buffer = dmabuf(DrmFourcc::Argb8888);
    let import = || bridge.import_dmabuf_with_modifier(&buffer, &tiled_info(), true).unwrap();
    match import().image_created(Err(-2)) {
        Err(ImportError::ImageCreation(text)) => assert_eq!(
            text,
            "vkCreateImage with modifier failed: ERROR_OUT_OF_DEVICE_MEMORY"
        ),
        other => panic!("unexpected {:?}", other),
    }
    let created = import().image_created(Ok(5)).unwrap();
    let failure = created.memory_chosen(Some(&vec![]), u32::MAX, 64).unwrap_err();
    assert_eq!(failure.released, vec![Resource::Image(5)]);
    match failure.error {
        ImportError::MemoryAllocation(text) => assert_eq!(text, "No suitable memory type found"),
        other => panic!("unexpected {:?}", other),
    }
    let failure = created.memory_chosen(None, 1, 64).unwrap_err();
    assert!(matches!(failure.error, ImportError::BridgeUnavailable));
    let memory = created.memory_chosen(Some(&vec![1]), 1, 64).unwrap();
    let failure = memory.fd_duplicated(-1).unwrap_err();
    assert_eq!(failure.released, vec![Resource::Image(5)]);
    match failure.error {
        ImportError::FdImport(text) => assert_eq!(text, "Failed to dup dmabuf fd"),
        other => panic!("unexpected {:?}", other),
    }
}

#[test]
fn planar_import_of_the_bridge() {
    let bridge = modifier_bridge();
    assert!(bridge.supports_multiplanar());
    assert!(bridge.supports_multiplanar_format(DrmFourcc::Nv12));
    assert!(!bridge.supports_multiplanar_format(DrmFourcc::P010));
    let buffer = dmabuf(DrmFourcc::Nv12);
    let import = bridge.import_multiplanar_dmabuf(&buffer, None, true).unwrap();
    assert_eq!(import.format.ycbcr_model, YcbcrModel::Bt601);
    assert_eq!(import.format.ycbcr_range, YcbcrRange::Narrow);
    assert_eq!(import.plane_fds, vec![10, 11]);
    assert_eq!(import.plane_offsets, vec![16, 2048]);
    assert_eq!((import.width, import.height), (64, 32));
    let colorspace = YcbcrColorspace::bt709();
    let import = bridge.import_multiplanar_dmabuf(&buffer, Some(colorspace), true).unwrap();
    assert_eq!(import.format.ycbcr_model, YcbcrModel::Bt709);
}

#[test]
fn planar_import_failures_of_the_bridge() {
    let buffer = dmabuf(DrmFourcc::Nv12);
    match WgpuBridge::new(None).import_multiplanar_dmabuf(&buffer, None, true) {
        Err(ImportError::ImageCreation(text)) => assert_eq!(
            text,
            "Multi-planar import requires VK_KHR_sampler_ycbcr_conversion"
        ),
        other => panic!("unexpected {:?}", other),
    }
    let bridge = modifier_bridge();
    let mut empty = dmabuf(DrmFourcc::Nv12);
    empty.width = 0;
    assert!(matches!(
        bridge.import_multiplanar_dmabuf(&empty, None, true),
        Err(ImportError::InvalidDimensions { width: 0, height: 32 })
    ));
    for fourcc in [DrmFourcc::Argb8888, DrmFourcc::P010] {
        match bridge.import_multiplanar_dmabuf(&dmabuf(fourcc), None, true) {
            Err(ImportError::UnsupportedFormat(format)) => assert_eq!(format, fourcc),
            other => panic!("unexpected {:?}", other),
        }
    }
    let mut one_plane = dmabuf(DrmFourcc::Nv12);
    one_plane.fds.truncate(1);
    match bridge.import_multiplanar_dmabuf(&one_plane, None, true) {
        Err(ImportError::InvalidPlanes(text)) => {
            assert_eq!(text, "Expected 2 planes for DrmFourcc(NV12), got 1")
        }
        other => panic!("unexpected {:?}", other),
    }
    assert!(matches!(
        bridge.import_multiplanar_dmabuf(&buffer, None, false),
        Err(ImportError::BridgeUnavailable)
    ));
}

#[test]
fn auto_import_goes_by_the_format() {
    let bridge = modifier_bridge();
    match bridge.import_dmabuf_auto(&dmabuf(DrmFourcc::Nv12), true).unwrap() {
        AutoImport::MultiPlanar(import) => assert_eq!(import.format.fourcc, DrmFourcc::Nv12),
        other => panic!("unexpected {:?}", other),
    }
    match bridge.import_dmabuf_auto(&dmabuf(DrmFourcc::Argb8888), true).unwrap() {
        AutoImport::SinglePlane(import) => assert_eq!(import.fd, 10),
        other => panic!("unexpected {:?}", other),
    }
    assert!(matches!(
        bridge.import_dmabuf_auto(&dmabuf(DrmFourcc::P010), true),
        Err(ImportError::UnsupportedFormat(DrmFourcc::P010))
    ));
    assert!(matches!(
        bridge.import_dmabuf_auto(&dmabuf(DrmFourcc::Other(3)), true),
        Err(ImportError::UnsupportedFormat(DrmFourcc::Other(3)))
    ));
}

#[test]
fn imported_dmabuf_kinds() {
    let single =
        ImportedDmabuf::SinglePlane(WgpuTexture::new(TextureFormat::Bgra8Unorm, 1, 2, true));
    assert!(single.is_single_plane());
    assert!(!single.is_multi_planar());
    assert_eq!(single.as_single_plane().unwrap().height(), 2);
    assert!(single.as_multi_planar().is_none());

    let bridge = modifier_bridge();
    let import =
        bridge.import_multiplanar_dmabuf(&dmabuf(DrmFourcc::Nv12), None, true).unwrap();
    let mut planes = import.conversion_created(Ok(1)).unwrap().image_created(Ok(2)).unwrap();
    planes.plane_imported(20, Ok(3)).unwrap();
    planes.plane_imported(21, Ok(4)).unwrap();
    let view = planes.bound(Ok(())).unwrap().view_created(Ok(5)).unwrap();
    let multi = ImportedDmabuf::MultiPlanar(view.sampler_created(Ok(6)).unwrap());
    assert!(multi.is_multi_planar());
    assert!(!multi.is_single_plane());
    assert!(multi.as_single_plane().is_none());
    assert_eq!(multi.as_multi_planar().unwrap().sampler, 6);
}

#[test]
fn frames_are_counted_and_completed() {
    let mut bridge = WgpuBridge::new(None);
    assert_eq!(bridge.current_frame(), 0);
    assert_eq!(bridge.submit_frame(), 1);
    assert_eq!(bridge.submit_frame(), 2);
    assert_eq!(bridge.current_frame(), 2);
    assert_eq!(bridge.last_completed_frame(), 0);
    match bridge.wait_for_frame(1, PollOutcome::TimedOut) {
        Err(BridgeError::Sync(text)) => assert_eq!(text, "Wait timed out"),
        other => panic!("unexpected {:?}", other),
    }
    match bridge.wait_idle(PollOutcome::Failed("lost".to_string())) {
        Err(BridgeError::Sync(text)) => assert_eq!(text, "poll error: lost"),
        other => panic!("unexpected {:?}", other),
    }
    assert_eq!(bridge.last_completed_frame(), 0);
    bridge.wait_for_frame(1, PollOutcome::Completed).unwrap();
    assert_eq!(bridge.last_completed_frame(), 2);
    bridge.submit_frame();
    bridge.wait_idle(PollOutcome::Completed).unwrap();
    assert_eq!(bridge.last_completed_frame(), 3);
}

#[test]
fn capabilities_of_a_simple_bridge() {
    let bridge = WgpuBridge::new(None);
    assert_eq!(*bridge.sync_capabilities(), SyncCapabilities::default());
    assert!(!bridge.can_export_sync_fd());
    assert!(!bridge.supports_multiplanar());
    assert!(!bridge.multiplanar_capabilities().has_ycbcr_conversion);
}
