//! Scanout capabilities and render targets.

use ash::vk;
use lamco_wgpu::error::BridgeError;
use lamco_wgpu::format::{DrmFourcc, TextureFormat, VkFormat};
use lamco_wgpu::scanout::{
    drm_to_vk_format, drm_to_wgpu_format, format_bytes_per_pixel, RenderTarget,
    RenderTargetConfig, ScanoutCapabilities, TargetRequest,
};
use lamco_wgpu::vulkan::{ImageTiling, Resource};

#[test]
fn test_format_mapping() {
    assert_eq!(
        drm_to_vk_format(DrmFourcc::Argb8888).map(|f| f.as_raw()),
        Some(vk::Format::B8G8R8A8_UNORM.as_raw())
    );
    assert_eq!(
        drm_to_wgpu_format(DrmFourcc::Argb8888),
        Some(TextureFormat::Bgra8Unorm)
    );
}

#[test]
fn test_bytes_per_pixel() {
    assert_eq!(format_bytes_per_pixel(DrmFourcc::Argb8888), 4);
    assert_eq!(format_bytes_per_pixel(DrmFourcc::Rgb888), 3);
}

#[test]
fn target_formats_in_full() {
    for (fourcc, vk_format, wgpu_format) in [
        (DrmFourcc::Argb8888, VkFormat::B8G8R8A8Unorm, TextureFormat::Bgra8Unorm),
        (DrmFourcc::Xrgb8888, VkFormat::B8G8R8A8Unorm, TextureFormat::Bgra8Unorm),
        (DrmFourcc::Abgr8888, VkFormat::R8G8B8A8Unorm, TextureFormat::Rgba8Unorm),
        (DrmFourcc::Xbgr8888, VkFormat::R8G8B8A8Unorm, TextureFormat::Rgba8Unorm),
        (DrmFourcc::Argb2101010, VkFormat::A2B10G10R10UnormPack32, TextureFormat::Rgb10a2Unorm),
        (DrmFourcc::Xrgb2101010, VkFormat::A2B10G10R10UnormPack32, TextureFormat::Rgb10a2Unorm),
    ] {
        assert_eq!(drm_to_vk_format(fourcc), Some(vk_format));
        assert_eq!(drm_to_wgpu_format(fourcc), Some(wgpu_format));
        assert_eq!(format_bytes_per_pixel(fourcc), 4);
    }
    assert_eq!(drm_to_vk_format(DrmFourcc::R8), None);
    assert_eq!(drm_to_wgpu_format(DrmFourcc::R8), None);
    assert_eq!(format_bytes_per_pixel(DrmFourcc::R8), 4);
    assert_eq!(format_bytes_per_pixel(DrmFourcc::Bgr888), 3);
}

#[test]
fn test_scanout_capabilities_default() {
    let caps = ScanoutCapabilities::default();
    assert!(!caps.can_export_dmabuf);
    println!("Scanout capabilities (default): {:?}", caps);
}

#[test]
fn scanout_capabilities_of_extensions() {
    let both = vec![
        "VK_KHR_external_memory_fd".to_string(),
        "VK_EXT_external_memory_dma_buf".to_string(),
    ];
    let caps = ScanoutCapabilities::query(Some(&both));
    assert!(caps.external_memory_fd);
    assert!(caps.external_memory_dmabuf);
    assert!(!caps.drm_format_modifier);
    assert!(caps.can_export_dmabuf);

    let one = vec!["VK_KHR_external_memory_fd".to_string()];
    assert!(!ScanoutCapabilities::query(Some(&one)).can_export_dmabuf);
    let modifier = vec!["VK_EXT_image_drm_format_modifier".to_string()];
    assert!(ScanoutCapabilities::query(Some(&modifier)).drm_format_modifier);
    assert_eq!(ScanoutCapabilities::query(None), ScanoutCapabilities::default());
}

#[test]
fn test_render_target_config() {
    let config = RenderTargetConfig::default();
    assert_eq!(config.width, 1920);
    assert_eq!(config.height, 1080);
    assert_eq!(config.format, DrmFourcc::Argb8888);
    assert_eq!(config.modifier, 0); // LINEAR
    println!("Default render target config: {:?}", config);
}

#[test]
fn test_render_target_config_custom() {
    let config = RenderTargetConfig {
        width: 2560,
        height: 1440,
        format: DrmFourcc::Xrgb8888,
        modifier: 0,
    };
    assert_eq!(config.width, 2560);
    assert_eq!(config.height, 1440);
    println!("Custom render target config: {:?}", config);
}

#[test]
fn test_dmabuf_export_api_pattern() {
    println!("DMA-BUF Export API Pattern:");
    println!("1. RenderTarget::new(device, instance, phys_dev, config)");
    println!("2. Get texture/view for rendering into the target");
    println!("3. Render frame into the target");
    println!("4. Wait for GPU (or use sync FD)");
    println!("5. let dmabuf = target.export_dmabuf()");
    println!("6. Pass dmabuf to display output / scanout");
}

fn request() -> TargetRequest {
    RenderTarget::new(&RenderTargetConfig {
        width: 100,
        height: 50,
        format: DrmFourcc::Xbgr8888,
        modifier: 7,
    })
    .unwrap()
}

#[test]
fn render_target_runs_through() {
    let request = request();
    assert_eq!(request.wgpu_format, TextureFormat::Rgba8Unorm);
    let image = request.image_request();
    assert_eq!(image.format, VkFormat::R8G8B8A8Unorm);
    assert_eq!((image.width, image.height), (100, 50));
    assert_eq!(image.tiling, ImageTiling::DrmFormatModifier(7));
    let layout = request.plane_layout();
    assert_eq!((layout.offset, layout.row_pitch, layout.size), (0, 400, 0));
    assert_eq!(
        image.usage,
        (vk::ImageUsageFlags::COLOR_ATTACHMENT
            | vk::ImageUsageFlags::TRANSFER_SRC
            | vk::ImageUsageFlags::TRANSFER_DST)
            .as_raw()
    );
    let created = request.image_created(Ok(5)).unwrap();
    let memory = created.memory_request(20_000);
    assert_eq!((memory.size, memory.memory_type_index), (20_000, 0));
    let texture = created.allocated(Ok(6)).unwrap().bound(Ok(())).unwrap();
    assert_eq!(texture.wgpu_format, TextureFormat::Rgba8Unorm);
    let target = texture.device_opened(true).unwrap();
    assert_eq!((target.width(), target.height()), (100, 50));
    assert_eq!(target.format(), DrmFourcc::Xbgr8888);
    assert_eq!(target.owned_resources(), vec![Resource::Image(5)]);

    let dmabuf = target.export_dmabuf(Ok(33)).unwrap();
    assert_eq!(dmabuf.fd, 33);
    assert_eq!((dmabuf.width, dmabuf.height), (100, 50));
    assert_eq!(dmabuf.format, DrmFourcc::Xbgr8888);
    assert_eq!(dmabuf.modifier, 7);
    assert_eq!(dmabuf.stride, 400);
    assert_eq!(dmabuf.offset, 0);
    match target.export_dmabuf(Err(-4)) {
        Err(BridgeError::Render(text)) => {
            assert_eq!(text, "failed to export dmabuf: ERROR_DEVICE_LOST")
        }
        other => panic!("unexpected {:?}", other),
    }
}

#[test]
fn linear_render_target() {
    let config = RenderTargetConfig::default();
    assert!(config.fits());
    let request = RenderTarget::new(&config).unwrap();
    assert_eq!(request.image_request().tiling, ImageTiling::Linear);
    let binding = request.image_created(Ok(5)).unwrap().allocated(Ok(6)).unwrap();
    let target = binding.bound(Ok(())).unwrap().device_opened(true).unwrap();
    let dmabuf = target.export_dmabuf(Ok(33)).unwrap();
    assert_eq!((dmabuf.modifier, dmabuf.stride), (0, 7680));
}

#[test]
fn rows_of_render_targets_fit() {
    let mut config = RenderTargetConfig::default();
    config.width = u32::MAX / 4;
    assert!(config.fits());
    config.width += 1;
    assert!(!config.fits());
    config.format = DrmFourcc::Nv12;
    assert!(config.fits());
}

#[test]
fn render_target_of_unsupported_format() {
    let config = RenderTargetConfig {
        width: u32::MAX,
        height: 1,
        format: DrmFourcc::Nv12,
        modifier: 0,
    };
    match RenderTarget::new(&config) {
        Err(BridgeError::Render(text)) => {
            assert_eq!(text, "unsupported format: DrmFourcc(NV12)")
        }
        other => panic!("unexpected {:?}", other),
    }
}

#[test]
fn render_target_failures_release_what_was_created() {
    let failure = request().image_created(Err(-2)).unwrap_err();
    assert!(failure.released.is_empty());
    assert_eq!(
        failure.error.message(),
        "rendering error: failed to create image: ERROR_OUT_OF_DEVICE_MEMORY"
    );
    let failure = request().image_created(Ok(5)).unwrap().allocated(Err(-2)).unwrap_err();
    assert_eq!(failure.released, vec![Resource::Image(5)]);
    assert_eq!(
        failure.error.message(),
        "rendering error: failed to allocate memory: ERROR_OUT_OF_DEVICE_MEMORY"
    );
    let binding = request().image_created(Ok(5)).unwrap().allocated(Ok(6)).unwrap();
    let failure = binding.bound(Err(-2)).unwrap_err();
    assert_eq!(failure.released, vec![Resource::Memory(6), Resource::Image(5)]);
    assert_eq!(
        failure.error.message(),
        "rendering error: failed to bind memory: ERROR_OUT_OF_DEVICE_MEMORY"
    );
    let failure = binding.bound(Ok(())).unwrap().device_opened(false).unwrap_err();
    assert!(failure.released.is_empty());
    assert_eq!(failure.error.message(), "rendering error: Failed to access HAL device");
}
