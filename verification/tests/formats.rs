//! Formats and their codes.

use ash::vk;
use lamco_wgpu::dmabuf::{dmabuf_to_wgpu_format, wgpu_to_vk_format};
use lamco_wgpu::format::{DrmFourcc, TextureFormat, VkFormat};
use lamco_wgpu::ImportError;

fn named() -> Vec<(DrmFourcc, drm_fourcc::DrmFourcc)> {
    vec![
        (DrmFourcc::Argb8888, drm_fourcc::DrmFourcc::Argb8888),
        (DrmFourcc::Xrgb8888, drm_fourcc::DrmFourcc::Xrgb8888),
        (DrmFourcc::Abgr8888, drm_fourcc::DrmFourcc::Abgr8888),
        (DrmFourcc::Xbgr8888, drm_fourcc::DrmFourcc::Xbgr8888),
        (DrmFourcc::Rgb888, drm_fourcc::DrmFourcc::Rgb888),
        (DrmFourcc::Bgr888, drm_fourcc::DrmFourcc::Bgr888),
        (DrmFourcc::R8, drm_fourcc::DrmFourcc::R8),
        (DrmFourcc::Rg88, drm_fourcc::DrmFourcc::Rg88),
        (DrmFourcc::Gr88, drm_fourcc::DrmFourcc::Gr88),
        (DrmFourcc::Argb2101010, drm_fourcc::DrmFourcc::Argb2101010),
        (DrmFourcc::Xrgb2101010, drm_fourcc::DrmFourcc::Xrgb2101010),
        (DrmFourcc::Nv12, drm_fourcc::DrmFourcc::Nv12),
        (DrmFourcc::Nv21, drm_fourcc::DrmFourcc::Nv21),
        (DrmFourcc::P010, drm_fourcc::DrmFourcc::P010),
        (DrmFourcc::Yuv420, drm_fourcc::DrmFourcc::Yuv420),
        (DrmFourcc::Yvu420, drm_fourcc::DrmFourcc::Yvu420),
    ]
}

#[test]
fn fourcc_codes_are_those_of_drm() {
    for (ours, theirs) in named() {
        assert_eq!(ours.code(), theirs as u32);
        assert_eq!(DrmFourcc::from_code(theirs as u32), ours);
    }
}

#[test]
fn fourcc_code_round_trip() {
    for code in [0, 1, 0x3432_5241, 0x8000_0000, u32::MAX, 0x3231_564e] {
        assert_eq!(DrmFourcc::from_code(code).code(), code);
    }
    assert_eq!(DrmFourcc::from_code(7), DrmFourcc::Other(7));
}

#[test]
fn fourcc_text_is_that_of_drm() {
    for (ours, theirs) in named() {
        assert_eq!(ours.text(), format!("{:?}", theirs));
    }
    assert_eq!(DrmFourcc::Argb8888.text(), "DrmFourcc(AR24)");
    assert_eq!(DrmFourcc::R8.text(), "DrmFourcc(R8  )");
    let yuyv = drm_fourcc::DrmFourcc::Yuyv;
    assert_eq!(DrmFourcc::from_code(yuyv as u32).text(), format!("{:?}", yuyv));
}

#[test]
fn fourcc_text_of_unknown_codes() {
    assert_eq!(DrmFourcc::Other(7).text(), "DrmFourcc(7)");
    assert_eq!(DrmFourcc::Other(0).text(), "DrmFourcc(0)");
    assert_eq!(DrmFourcc::Other(0x8000_0000).text(), "DrmFourcc(2147483648)");
}

#[test]
fn vk_formats_are_those_of_vulkan() {
    let formats = [
        (VkFormat::B8G8R8A8Unorm, vk::Format::B8G8R8A8_UNORM),
        (VkFormat::B8G8R8A8Srgb, vk::Format::B8G8R8A8_SRGB),
        (VkFormat::R8G8B8A8Unorm, vk::Format::R8G8B8A8_UNORM),
        (VkFormat::R8G8B8A8Srgb, vk::Format::R8G8B8A8_SRGB),
        (VkFormat::A2B10G10R10UnormPack32, vk::Format::A2B10G10R10_UNORM_PACK32),
        (VkFormat::R8Unorm, vk::Format::R8_UNORM),
        (VkFormat::R8G8Unorm, vk::Format::R8G8_UNORM),
        (VkFormat::G8B8R82Plane420Unorm, vk::Format::G8_B8R8_2PLANE_420_UNORM),
        (
            VkFormat::G10X6B10X6R10X62Plane420Unorm3Pack16,
            vk::Format::G10X6_B10X6R10X6_2PLANE_420_UNORM_3PACK16,
        ),
        (VkFormat::G8B8R83Plane420Unorm, vk::Format::G8_B8_R8_3PLANE_420_UNORM),
    ];
    for (ours, theirs) in formats {
        assert_eq!(ours.as_raw(), theirs.as_raw());
    }
}

#[test]
fn wgpu_format_of_single_plane_formats() {
    let table = [
        (DrmFourcc::Argb8888, TextureFormat::Bgra8Unorm),
        (DrmFourcc::Xrgb8888, TextureFormat::Bgra8Unorm),
        (DrmFourcc::Abgr8888, TextureFormat::Rgba8Unorm),
        (DrmFourcc::Xbgr8888, TextureFormat::Rgba8Unorm),
        (DrmFourcc::Rgb888, TextureFormat::Rgba8Unorm),
        (DrmFourcc::Bgr888, TextureFormat::Bgra8Unorm),
        (DrmFourcc::R8, TextureFormat::R8Unorm),
        (DrmFourcc::Rg88, TextureFormat::Rg8Unorm),
        (DrmFourcc::Gr88, TextureFormat::Rg8Unorm),
        (DrmFourcc::Argb2101010, TextureFormat::Rgb10a2Unorm),
        (DrmFourcc::Xrgb2101010, TextureFormat::Rgb10a2Unorm),
    ];
    for (fourcc, format) in table {
        assert_eq!(dmabuf_to_wgpu_format(fourcc).unwrap(), format);
    }
}

#[test]
fn wgpu_format_of_other_formats() {
    match dmabuf_to_wgpu_format(DrmFourcc::Nv12) {
        Err(ImportError::MultiPlanarFormat { fourcc, hint }) => {
            assert_eq!(fourcc, DrmFourcc::Nv12);
            assert_eq!(hint, "Use import_multiplanar_dmabuf() for YUV formats");
        }
        other => panic!("unexpected {:?}", other),
    }
    assert!(matches!(
        dmabuf_to_wgpu_format(DrmFourcc::Other(7)),
        Err(ImportError::UnsupportedFormat(DrmFourcc::Other(7)))
    ));
}

#[test]
fn vk_format_of_texture_formats() {
    let of = |format| wgpu_to_vk_format(format, DrmFourcc::Argb8888).unwrap();
    assert_eq!(of(TextureFormat::Bgra8Unorm), VkFormat::B8G8R8A8Unorm);
    assert_eq!(of(TextureFormat::Bgra8UnormSrgb), VkFormat::B8G8R8A8Srgb);
    assert_eq!(of(TextureFormat::Rgba8Unorm), VkFormat::R8G8B8A8Unorm);
    assert_eq!(of(TextureFormat::Rgba8UnormSrgb), VkFormat::R8G8B8A8Srgb);
    assert_eq!(of(TextureFormat::Rgb10a2Unorm), VkFormat::A2B10G10R10UnormPack32);
    assert!(matches!(
        wgpu_to_vk_format(TextureFormat::R8Unorm, DrmFourcc::R8),
        Err(ImportError::UnsupportedFormat(DrmFourcc::R8))
    ));
    assert!(matches!(
        wgpu_to_vk_format(TextureFormat::Rg8Unorm, DrmFourcc::Gr88),
        Err(ImportError::UnsupportedFormat(DrmFourcc::Gr88))
    ));
    assert!(matches!(
        wgpu_to_vk_format(TextureFormat::Other, DrmFourcc::Other(7)),
        Err(ImportError::UnsupportedFormat(DrmFourcc::Other(7)))
    ));
}
