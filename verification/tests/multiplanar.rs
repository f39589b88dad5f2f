//! Multi-planar formats and their import.

use ash::vk;
use lamco_wgpu::error::ImportError;
use lamco_wgpu::format::{DrmFourcc, VkFormat};
use lamco_wgpu::multiplanar::{
    calculate_plane_layouts, cleanup_partial_import, get_component_mapping,
    import_multiplanar_dmabuf, is_multiplanar_format, multiplanar_format,
    multiplanar_format_with_colorspace, plane_aspect, MultiPlanarCapabilities, PlanarImage,
    PlanarImport, YcbcrColorspace, YcbcrModel, YcbcrRange,
};
use lamco_wgpu::vulkan::{FormatFeatures, ImageTiling, Resource};

#[test]
fn test_nv12_format() {
    let format = multiplanar_format(DrmFourcc::Nv12).unwrap();
    assert_eq!(format.plane_count, 2);
    assert_eq!(format.chroma_subsampling, (2, 2));
    assert_eq!(format.bit_depth, 8);
}

#[test]
fn test_p010_format() {
    let format = multiplanar_format(DrmFourcc::P010).unwrap();
    assert_eq!(format.plane_count, 2);
    assert_eq!(format.bit_depth, 10);
}

#[test]
fn test_plane_layouts_nv12() {
    let format = multiplanar_format(DrmFourcc::Nv12).unwrap();
    let layouts = calculate_plane_layouts(&format, 1920, 1080);

    assert_eq!(layouts.len(), 2);

    // Y plane: 1920x1080
    assert_eq!(layouts[0].offset, 0);
    assert_eq!(layouts[0].stride, 1920);
    assert_eq!(layouts[0].width_divisor, 1);

    // UV plane: 960x540 with 2 bytes per sample (interleaved)
    assert_eq!(layouts[1].offset, 1920 * 1080);
    assert_eq!(layouts[1].stride, 1920); // 960 * 2
    assert_eq!(layouts[1].width_divisor, 2);
}

#[test]
fn test_is_multiplanar() {
    assert!(is_multiplanar_format(DrmFourcc::Nv12));
    assert!(is_multiplanar_format(DrmFourcc::P010));
    assert!(!is_multiplanar_format(DrmFourcc::Argb8888));
}

#[test]
fn plane_layouts_p010() {
    let format = multiplanar_format(DrmFourcc::P010).unwrap();
    let layouts = calculate_plane_layouts(&format, 64, 32);
    assert_eq!(layouts[0].stride, 128);
    assert_eq!(layouts[1].offset, 128 * 32);
    assert_eq!(layouts[1].stride, 128);
    assert_eq!(layouts[1].height_divisor, 2);
}

#[test]
fn plane_layouts_yuv420() {
    let format = multiplanar_format(DrmFourcc::Yuv420).unwrap();
    let layouts = calculate_plane_layouts(&format, 64, 32);
    assert_eq!(layouts.len(), 3);
    assert_eq!(layouts[0].offset, 0);
    assert_eq!(layouts[1].offset, 64 * 32);
    assert_eq!(layouts[1].stride, 32);
    assert_eq!(layouts[2].offset, 64 * 32 + 32 * 16);
    assert_eq!(layouts[2].stride, 32);
    // The frame takes one and a half bytes for each pixel.
    assert_eq!(layouts[2].offset + 32 * 16, 64 * 32 * 3 / 2);
}

#[test]
fn plane_layouts_of_other_plane_counts() {
    let mut format = multiplanar_format(DrmFourcc::Nv12).unwrap();
    format.plane_count = 1;
    assert!(calculate_plane_layouts(&format, 64, 32).is_empty());
    format.plane_count = 4;
    assert!(calculate_plane_layouts(&format, u32::MAX, u32::MAX).is_empty());
}

#[test]
fn formats_with_colorspace() {
    for (fourcc, vk_format, planes, depth) in [
        (DrmFourcc::Nv12, VkFormat::G8B8R82Plane420Unorm, 2, 8),
        (DrmFourcc::Nv21, VkFormat::G8B8R82Plane420Unorm, 2, 8),
        (DrmFourcc::P010, VkFormat::G10X6B10X6R10X62Plane420Unorm3Pack16, 2, 10),
        (DrmFourcc::Yuv420, VkFormat::G8B8R83Plane420Unorm, 3, 8),
        (DrmFourcc::Yvu420, VkFormat::G8B8R83Plane420Unorm, 3, 8),
    ] {
        let colorspace = YcbcrColorspace { model: YcbcrModel::Bt709, range: YcbcrRange::Full };
        let format = multiplanar_format_with_colorspace(fourcc, colorspace).unwrap();
        assert_eq!(format.fourcc, fourcc);
        assert_eq!(format.vk_format, vk_format);
        assert_eq!(format.plane_count, planes);
        assert_eq!(format.bit_depth, depth);
        assert_eq!(format.ycbcr_model, YcbcrModel::Bt709);
        assert_eq!(format.ycbcr_range, YcbcrRange::Full);
    }
    assert!(multiplanar_format(DrmFourcc::Other(7)).is_none());
    let default = multiplanar_format(DrmFourcc::Nv12).unwrap();
    assert_eq!(default.ycbcr_model, YcbcrModel::Bt601);
    assert_eq!(default.ycbcr_range, YcbcrRange::Narrow);
}

#[test]
fn colorspace_constructors() {
    assert_eq!(YcbcrColorspace::default(), YcbcrColorspace::bt601());
    assert_eq!(YcbcrColorspace::bt601().model, YcbcrModel::Bt601);
    assert_eq!(YcbcrColorspace::bt709().model, YcbcrModel::Bt709);
    assert_eq!(YcbcrColorspace::bt2020().model, YcbcrModel::Bt2020);
    assert_eq!(YcbcrColorspace::bt2020().range, YcbcrRange::Narrow);
}

#[test]
fn colorspace_from_resolution() {
    assert_eq!(YcbcrColorspace::from_resolution(640, 480), YcbcrColorspace::bt601());
    assert_eq!(YcbcrColorspace::from_resolution(960, 540), YcbcrColorspace::bt601());
    assert_eq!(YcbcrColorspace::from_resolution(1280, 720), YcbcrColorspace::bt709());
    assert_eq!(YcbcrColorspace::from_resolution(1920, 1080), YcbcrColorspace::bt709());
    assert_eq!(YcbcrColorspace::from_resolution(3840, 2160), YcbcrColorspace::bt2020());
    assert_eq!(YcbcrColorspace::from_resolution(65536, 65536), YcbcrColorspace::bt2020());
    assert_eq!(YcbcrColorspace::from_resolution(u32::MAX, u32::MAX), YcbcrColorspace::bt2020());
    // The boundaries: 1280x720 itself, and half of 3840x2160.
    assert_eq!(YcbcrColorspace::from_resolution(921_599, 1), YcbcrColorspace::bt601());
    assert_eq!(YcbcrColorspace::from_resolution(921_600, 1), YcbcrColorspace::bt709());
    assert_eq!(YcbcrColorspace::from_resolution(4_147_200, 1), YcbcrColorspace::bt709());
    assert_eq!(YcbcrColorspace::from_resolution(4_147_201, 1), YcbcrColorspace::bt2020());
}

#[test]
fn colorspace_from_format() {
    let p010 = YcbcrColorspace::from_format_and_resolution(DrmFourcc::P010, 640, 480);
    assert_eq!(p010, YcbcrColorspace::bt2020());
    let huge = YcbcrColorspace::from_format_and_resolution(DrmFourcc::P010, u32::MAX, u32::MAX);
    assert_eq!(huge, YcbcrColorspace::bt2020());
    let nv12 = YcbcrColorspace::from_format_and_resolution(DrmFourcc::Nv12, 1920, 1080);
    assert_eq!(nv12, YcbcrColorspace::bt709());
}

#[test]
fn models_and_ranges_are_those_of_vulkan() {
    assert_eq!(
        YcbcrModel::Bt601.to_vk(),
        vk::SamplerYcbcrModelConversion::YCBCR_601.as_raw()
    );
    assert_eq!(
        YcbcrModel::Bt709.to_vk(),
        vk::SamplerYcbcrModelConversion::YCBCR_709.as_raw()
    );
    assert_eq!(
        YcbcrModel::Bt2020.to_vk(),
        vk::SamplerYcbcrModelConversion::YCBCR_2020.as_raw()
    );
    assert_eq!(
        YcbcrModel::Identity.to_vk(),
        vk::SamplerYcbcrModelConversion::RGB_IDENTITY.as_raw()
    );
    assert_eq!(YcbcrRange::Narrow.to_vk(), vk::SamplerYcbcrRange::ITU_NARROW.as_raw());
    assert_eq!(YcbcrRange::Full.to_vk(), vk::SamplerYcbcrRange::ITU_FULL.as_raw());
    let mapping = get_component_mapping(DrmFourcc::Nv21);
    assert_eq!(mapping.r, vk::ComponentSwizzle::IDENTITY.as_raw());
    assert_eq!((mapping.r, mapping.g, mapping.b, mapping.a), (0, 0, 0, 0));
    assert_eq!(plane_aspect(0), vk::ImageAspectFlags::PLANE_0.as_raw());
    assert_eq!(plane_aspect(1), vk::ImageAspectFlags::PLANE_1.as_raw());
    assert_eq!(plane_aspect(2), vk::ImageAspectFlags::PLANE_2.as_raw());
}

fn usable() -> FormatFeatures {
    FormatFeatures {
        linear: vk::FormatFeatureFlags::SAMPLED_IMAGE.as_raw(),
        optimal: vk::FormatFeatureFlags::DISJOINT.as_raw(),
    }
}

fn unusable() -> FormatFeatures {
    FormatFeatures { linear: vk::FormatFeatureFlags::SAMPLED_IMAGE.as_raw(), optimal: 0 }
}

#[test]
fn capabilities_of_a_device() {
    let names = vec!["VK_KHR_sampler_ycbcr_conversion".to_string()];
    let features = vec![usable(), unusable(), usable(), usable()];
    let caps = MultiPlanarCapabilities::query(Some(&names), 0, &features);
    assert!(caps.has_ycbcr_conversion);
    assert_eq!(
        caps.supported_formats,
        vec![DrmFourcc::Nv12, DrmFourcc::P010, DrmFourcc::Yuv420]
    );
    assert_eq!(caps.max_planes, 3);
    assert!(caps.supports_format(DrmFourcc::P010));
    assert!(!caps.supports_format(DrmFourcc::Nv21));
    assert!(!caps.supports_format(DrmFourcc::Yvu420));
}

#[test]
fn formats_with_one_vulkan_format_go_together() {
    let names = vec!["VK_KHR_sampler_ycbcr_conversion".to_string()];
    for (reply, listed) in [(usable(), true), (unusable(), false)] {
        let features = vec![reply, reply, unusable(), unusable()];
        let caps = MultiPlanarCapabilities::query(Some(&names), 0, &features);
        assert_eq!(caps.supports_format(DrmFourcc::Nv12), listed);
        assert_eq!(caps.supports_format(DrmFourcc::Nv21), listed);
    }
}

#[test]
fn capabilities_by_version() {
    let none = vec![];
    let features = vec![unusable(); 4];
    let version = vk::make_api_version(0, 1, 1, 0);
    assert!(MultiPlanarCapabilities::query(Some(&none), version, &features).has_ycbcr_conversion);
    assert!(MultiPlanarCapabilities::converts(Some(&none), version));
    assert!(!MultiPlanarCapabilities::converts(Some(&none), version - 1));
    let old = MultiPlanarCapabilities::query(Some(&none), version - 1, &vec![]);
    assert!(!old.has_ycbcr_conversion);
    assert_eq!(old.max_planes, 0);
    assert!(!MultiPlanarCapabilities::converts(None, version));
    let unknown = MultiPlanarCapabilities::query(None, version, &vec![]);
    assert!(!unknown.has_ycbcr_conversion);
    assert!(unknown.supported_formats.is_empty());
    assert!(!MultiPlanarCapabilities::default().supports_format(DrmFourcc::Nv12));
}

#[test]
fn candidates_are_multi_planar() {
    for (fourcc, vk_format) in MultiPlanarCapabilities::candidate_formats() {
        assert_eq!(multiplanar_format(fourcc).unwrap().vk_format, vk_format);
    }
    assert_eq!(MultiPlanarCapabilities::candidate_formats().len(), 4);
}

fn nv12_import() -> PlanarImport {
    let format = multiplanar_format(DrmFourcc::Nv12).unwrap();
    import_multiplanar_dmabuf(&format, 64, 32, vec![10, 11], vec![0, 2048], &vec![64, 64]).unwrap()
}

fn nv12_image() -> PlanarImage {
    nv12_import().conversion_created(Ok(100)).unwrap().image_created(Ok(200)).unwrap()
}

#[test]
fn planar_import_runs_through() {
    let import = nv12_import();
    let request = import.conversion_request();
    assert_eq!(request.format, VkFormat::G8B8R82Plane420Unorm);
    assert_eq!(request.ycbcr_model, vk::SamplerYcbcrModelConversion::YCBCR_601.as_raw());
    assert_eq!(request.ycbcr_range, vk::SamplerYcbcrRange::ITU_NARROW.as_raw());
    assert_eq!(request.x_chroma_offset, vk::ChromaLocation::COSITED_EVEN.as_raw());
    assert_eq!(request.y_chroma_offset, vk::ChromaLocation::COSITED_EVEN.as_raw());
    assert_eq!(request.chroma_filter, vk::Filter::LINEAR.as_raw());
    assert!(!request.force_explicit_reconstruction);
    let conversion = import.conversion_created(Ok(100)).unwrap();
    let image = conversion.image_request();
    assert_eq!((image.width, image.height), (64, 32));
    assert_eq!(image.tiling, ImageTiling::Optimal);
    assert_eq!(image.usage, vk::ImageUsageFlags::SAMPLED.as_raw());
    assert!(image.disjoint);
    let mut planes = conversion.image_created(Ok(200)).unwrap();

    let first = planes.next_plane().unwrap();
    assert_eq!((first.index, first.fd), (0, 10));
    assert_eq!(first.aspect, vk::ImageAspectFlags::PLANE_0.as_raw());
    assert_eq!(planes.plane_memory_type(&vec![0, 1, 1], 0b110).unwrap(), 1);
    assert_eq!(planes.plane_fd_duplicated(20).unwrap(), 20);
    planes.plane_imported(20, Ok(300)).unwrap();

    let second = planes.next_plane().unwrap();
    assert_eq!((second.index, second.fd), (1, 11));
    assert_eq!(second.aspect, vk::ImageAspectFlags::PLANE_1.as_raw());
    planes.plane_imported(21, Ok(301)).unwrap();
    assert!(planes.next_plane().is_none());

    let bindings = planes.bindings();
    assert_eq!(bindings.len(), 2);
    assert_eq!((bindings[0].image, bindings[0].memory, bindings[0].offset), (200, 300, 0));
    assert_eq!((bindings[1].image, bindings[1].memory, bindings[1].offset), (200, 301, 2048));
    assert_eq!(bindings[1].aspect, vk::ImageAspectFlags::PLANE_1.as_raw());

    let bound = planes.bound(Ok(())).unwrap();
    let request = bound.view_request();
    assert_eq!((request.image, request.conversion), (200, 100));
    assert_eq!(request.format, VkFormat::G8B8R82Plane420Unorm);
    assert_eq!(request.view_type, vk::ImageViewType::TYPE_2D.as_raw());
    assert_eq!(request.aspect, vk::ImageAspectFlags::COLOR.as_raw());
    assert_eq!((request.base_mip_level, request.level_count), (0, 1));
    assert_eq!((request.base_array_layer, request.layer_count), (0, 1));
    let view = bound.view_created(Ok(400)).unwrap();
    let request = view.sampler_request();
    assert_eq!(request.conversion, 100);
    assert_eq!(request.mag_filter, vk::Filter::LINEAR.as_raw());
    assert_eq!(request.min_filter, vk::Filter::LINEAR.as_raw());
    assert_eq!(request.address_mode, vk::SamplerAddressMode::CLAMP_TO_EDGE.as_raw());
    assert_eq!(request.mipmap_mode, vk::SamplerMipmapMode::NEAREST.as_raw());
    assert!(!request.unnormalized_coordinates);
    let texture = view.sampler_created(Ok(500)).unwrap();
    assert_eq!(texture.image, 200);
    assert_eq!(texture.image_view, 400);
    assert_eq!(texture.ycbcr_conversion, 100);
    assert_eq!(texture.sampler, 500);
    assert_eq!(texture.plane_memories, vec![300, 301]);
    assert_eq!((texture.width, texture.height), (64, 32));
    assert_eq!(texture.format.fourcc, DrmFourcc::Nv12);
    assert_eq!(
        texture.destroy(),
        vec![
            Resource::Sampler(500),
            Resource::ImageView(400),
            Resource::Memory(300),
            Resource::Memory(301),
            Resource::Image(200),
            Resource::YcbcrConversion(100),
        ]
    );
}

#[test]
fn planar_import_needs_all_planes() {
    let format = multiplanar_format(DrmFourcc::Yuv420).unwrap();
    let error =
        import_multiplanar_dmabuf(&format, 64, 32, vec![1, 2], vec![], &vec![]).unwrap_err();
    match error {
        ImportError::InvalidPlanes(text) => assert_eq!(text, "Expected 3 planes, got 2"),
        other => panic!("unexpected {:?}", other),
    }
}

#[test]
fn planar_import_without_conversion() {
    let code = vk::Result::ERROR_OUT_OF_HOST_MEMORY;
    match nv12_import().conversion_created(Err(code.as_raw())) {
        Err(ImportError::ImageCreation(text)) => {
            assert_eq!(text, "failed to create YCbCr conversion: ERROR_OUT_OF_HOST_MEMORY")
        }
        other => panic!("unexpected {:?}", other),
    }
}

#[test]
fn planar_import_without_image() {
    let code = vk::Result::ERROR_DEVICE_LOST.as_raw();
    let failure =
        nv12_import().conversion_created(Ok(100)).unwrap().image_created(Err(code)).unwrap_err();
    assert_eq!(failure.released, vec![Resource::YcbcrConversion(100)]);
    match failure.error {
        ImportError::ImageCreation(text) => {
            assert_eq!(text, "failed to create disjoint image: ERROR_DEVICE_LOST")
        }
        other => panic!("unexpected {:?}", other),
    }
}

#[test]
fn planar_import_without_memory() {
    let mut planes = nv12_image();
    planes.plane_imported(20, Ok(300)).unwrap();
    let held =
        vec![Resource::Memory(300), Resource::Image(200), Resource::YcbcrConversion(100)];

    let failure = planes.plane_memory_type(&vec![0, 1], 0b01).unwrap_err();
    assert_eq!(failure.released, held);
    match failure.error {
        ImportError::MemoryAllocation(text) => {
            assert_eq!(text, "No suitable memory type for plane 1")
        }
        other => panic!("unexpected {:?}", other),
    }

    let failure = planes.plane_fd_duplicated(-1).unwrap_err();
    assert_eq!(failure.released, held);
    match failure.error {
        ImportError::FdImport(text) => assert_eq!(text, "Failed to dup fd for plane 1"),
        other => panic!("unexpected {:?}", other),
    }

    let code = vk::Result::ERROR_OUT_OF_DEVICE_MEMORY.as_raw();
    let failure = planes.plane_imported(21, Err(code)).unwrap_err();
    assert_eq!(failure.released[0], Resource::Fd(21));
    assert_eq!(failure.released[1..], held[..]);
    match failure.error {
        ImportError::MemoryAllocation(text) => assert_eq!(
            text,
            "Failed to import memory for plane 1: ERROR_OUT_OF_DEVICE_MEMORY"
        ),
        other => panic!("unexpected {:?}", other),
    }
}

fn nv12_complete() -> PlanarImage {
    let mut planes = nv12_image();
    planes.plane_imported(20, Ok(300)).unwrap();
    planes.plane_imported(21, Ok(301)).unwrap();
    planes
}

#[test]
fn planar_import_not_bound() {
    let held = cleanup_partial_import(200, 100, &vec![300, 301]);
    assert_eq!(held.len(), 4);
    let failure = nv12_complete().bound(Err(-3)).unwrap_err();
    assert_eq!(failure.released, held);
    match failure.error {
        ImportError::MemoryAllocation(text) => assert_eq!(
            text,
            format!("failed to bind image memory: {:?}", vk::Result::from_raw(-3))
        ),
        other => panic!("unexpected {:?}", other),
    }
}

#[test]
fn planar_import_without_view_or_sampler() {
    let held = cleanup_partial_import(200, 100, &vec![300, 301]);
    let failure = nv12_complete().bound(Ok(())).unwrap().view_created(Err(-1)).unwrap_err();
    assert_eq!(failure.released, held);
    match failure.error {
        ImportError::ImageCreation(text) => {
            assert_eq!(text, "failed to create image view: ERROR_OUT_OF_HOST_MEMORY")
        }
        other => panic!("unexpected {:?}", other),
    }
    let view = nv12_complete().bound(Ok(())).unwrap().view_created(Ok(400)).unwrap();
    let failure = view.sampler_created(Err(12345)).unwrap_err();
    assert_eq!(failure.released[0], Resource::ImageView(400));
    assert_eq!(failure.released[1..], held[..]);
    match failure.error {
        ImportError::ImageCreation(text) => {
            assert_eq!(text, "failed to create sampler: 12345")
        }
        other => panic!("unexpected {:?}", other),
    }
}
