//! The renderer: cache, uploads, frames and readback.

use lamco_wgpu::bridge::{PollOutcome, WgpuBridge};
use lamco_wgpu::dmabuf::DmabufInfo;
use lamco_wgpu::error::{ImportError, RenderError, Transform};
use lamco_wgpu::format::{DrmFourcc, TextureFormat};
use lamco_wgpu::pixels::pack_rows;
use lamco_wgpu::renderer::{
    buffer_mapped, can_read_texture, copy_framebuffer, copy_texture, dmabuf_formats,
    edges_are_countable, fourcc_bytes_per_pixel, fourcc_to_wgpu_format, image_size_fits,
    import_memory, import_shm_buffer, mem_formats, memory_size_fits, region_lies_within,
    shm_access_failed, shm_format_to_fourcc, shm_size_fits, shm_target, update_memory,
    update_row_fits, update_texture_region, wait, wgpu_format_to_fourcc, ClearPlan, CopyRequest, DmabufKey, MapOutcome, Region, ShmTarget,
    TextureFilter,
    WgpuFrame, WgpuFramebuffer, WgpuRenderer, COPY_BYTES_PER_ROW_ALIGNMENT, SHM_ABGR8888,
    SHM_ARGB8888, SHM_XBGR8888, SHM_XRGB8888, TEXTURE_USAGE_COPY_SRC,
};
use lamco_wgpu::texture::WgpuTexture;
use wayland_server::protocol::wl_shm::Format;

fn dmabuf(id: u64) -> DmabufInfo {
    DmabufInfo {
        id,
        width: 64,
        height: 32,
        fourcc: DrmFourcc::Argb8888,
        modifier: 0,
        fds: vec![3],
        offsets: vec![0],
        strides: vec![256],
    }
}

#[test]
fn test_renderer_creation() {
    let renderer: WgpuRenderer<u32> = WgpuRenderer::new();
    assert!(renderer.texture_cache().is_empty());
    assert_eq!(renderer.debug_flags(), 0);
    assert!(renderer.use_linear_filter(true));
    assert!(renderer.use_linear_filter(false));
}

#[test]
fn cache_finds_what_was_imported() {
    let mut renderer: WgpuRenderer<u32> = WgpuRenderer::new();
    assert!(renderer.get_or_import(&dmabuf(1)).is_none());
    renderer.dmabuf_imported(&dmabuf(1), Ok(7)).unwrap();
    assert_eq!(renderer.get_or_import(&dmabuf(1)), Some(&7));
    // Another buffer of the same size and format is not the same buffer.
    assert!(renderer.get_or_import(&dmabuf(2)).is_none());
    renderer.dmabuf_imported(&dmabuf(2), Ok(8)).unwrap();
    assert_eq!(renderer.get_or_import(&dmabuf(1)), Some(&7));
    assert_eq!(renderer.get_or_import(&dmabuf(2)), Some(&8));
    let failed = renderer.dmabuf_imported(&dmabuf(3), Err(ImportError::BridgeUnavailable));
    assert!(matches!(failed, Err(RenderError::Import(ImportError::BridgeUnavailable))));
    assert_eq!(renderer.texture_cache().len(), 2);
}

#[test]
fn cleanup_removes_unique_textures() {
    let mut renderer: WgpuRenderer<u32> = WgpuRenderer::new();
    for i in 1..4 {
        renderer.dmabuf_imported(&dmabuf(i), Ok(i as u32)).unwrap();
    }
    let references = vec![
        (DmabufKey::from(&dmabuf(1)).id, 1),
        (DmabufKey::from(&dmabuf(2)).id, 2),
        (DmabufKey::from(&dmabuf(3)).id, 1),
        (DmabufKey::from(&dmabuf(9)).id, 1),
    ];
    renderer.cleanup_texture_cache(&references);
    assert_eq!(renderer.texture_cache().len(), 1);
    assert_eq!(renderer.get_or_import(&dmabuf(2)), Some(&2));
}

#[test]
fn keys_tell_buffers_apart() {
    assert_eq!(DmabufKey::from(&dmabuf(3)).id, 3);
    assert_ne!(DmabufKey::from(&dmabuf(3)), DmabufKey::from(&dmabuf(4)));
    let mut resized = dmabuf(3);
    resized.width = 1;
    assert_eq!(DmabufKey::from(&dmabuf(3)), DmabufKey::from(&resized));
}

#[test]
fn sizes_that_fit() {
    assert!(image_size_fits(0, u32::MAX, 1));
    assert!(image_size_fits(65535, 65537, 1));
    assert!(!image_size_fits(65536, 65536, 1));
    assert!(!image_size_fits(65536, 65536, 0));
    assert!(!image_size_fits(1 << 30, 0, 4));
    assert!(!image_size_fits(1 << 20, 1 << 10, 4));
    assert!(memory_size_fits(DrmFourcc::Argb8888, 1920, 1080));
    assert!(!memory_size_fits(DrmFourcc::Argb8888, -1, 1));
    assert!(memory_size_fits(DrmFourcc::R8, -1, 1));
    assert!(memory_size_fits(DrmFourcc::Nv12, -1, -1));
}

#[test]
fn buffers_and_regions_that_fit() {
    assert!(shm_size_fits(40, SHM_ARGB8888, 4, 2, 24));
    assert!(!shm_size_fits(39, SHM_ARGB8888, 4, 2, 24));
    assert!(shm_size_fits(0, SHM_ARGB8888, 4, 0, 24));
    assert!(!shm_size_fits(usize::MAX, SHM_ARGB8888, 1, 3, i32::MIN));
    assert!(shm_size_fits(0, 99, 4, 2, 24));
    let part = Region { x: 1, y: 1, width: 2, height: 1 };
    assert!(region_lies_within(28, &part, 4, 4));
    assert!(!region_lies_within(27, &part, 4, 4));
    assert!(region_lies_within(0, &Region { x: 1, y: 1, width: 2, height: 0 }, 4, 4));
    assert!(!region_lies_within(28, &Region { x: -1, y: 1, width: 2, height: 1 }, 4, 4));
    assert!(!region_lies_within(28, &Region { x: 1, y: -1, width: 2, height: 1 }, 4, 4));
    assert!(update_row_fits(&Region { x: 0, y: 0, width: i32::MAX / 2, height: 1 }));
    assert!(!update_row_fits(&Region { x: 0, y: 0, width: i32::MAX, height: 1 }));
}

#[test]
fn copies_that_can_be_counted() {
    let outside = Region { x: 1, y: 0, width: -1, height: 1 };
    assert!(!edges_are_countable(&outside, 64));
    assert!(edges_are_countable(&Region { x: -1, y: 0, width: -1, height: 1 }, 64));
    assert!(edges_are_countable(&Region { x: 60, y: 1, width: 5, height: -1 }, 64));
    assert!(!edges_are_countable(&Region { x: 60, y: 1, width: 4, height: -1 }, 64));
    let mut request = CopyRequest {
        x: 0,
        y: 0,
        width: 65,
        height: 1,
        format: DrmFourcc::Argb8888,
        flipped: false,
    };
    assert!(request.layout_fits());
    assert_eq!(request.layout().padded_bytes_per_row, 512);
    request.height = u32::MAX / 512;
    assert!(request.layout_fits());
    request.height += 1;
    assert!(!request.layout_fits());
    request.width = u32::MAX;
    request.height = 0;
    assert!(!request.layout_fits());
}

#[test]
fn filters_and_flags() {
    let mut renderer: WgpuRenderer<u32> = WgpuRenderer::new();
    renderer.downscale_filter(TextureFilter::Nearest);
    assert!(!renderer.use_linear_filter(false));
    assert!(renderer.use_linear_filter(true));
    renderer.upscale_filter(TextureFilter::Nearest);
    assert!(!renderer.use_linear_filter(true));
    renderer.set_debug_flags(1);
    assert_eq!(renderer.debug_flags(), 1);
}

#[test]
fn dmabuf_formats_are_linear() {
    let formats = dmabuf_formats(&WgpuBridge::new(None));
    assert_eq!(
        formats,
        vec![
            (DrmFourcc::Argb8888, 0),
            (DrmFourcc::Xrgb8888, 0),
            (DrmFourcc::Abgr8888, 0),
            (DrmFourcc::Xbgr8888, 0),
            (DrmFourcc::Argb2101010, 0),
        ]
    );
}

#[test]
fn memory_formats() {
    for fourcc in mem_formats() {
        assert!(fourcc_to_wgpu_format(fourcc).is_ok());
    }
    assert_eq!(mem_formats().len(), 7);
    assert_eq!(
        fourcc_to_wgpu_format(DrmFourcc::Xrgb2101010).unwrap(),
        TextureFormat::Rgb10a2Unorm
    );
    assert_eq!(fourcc_to_wgpu_format(DrmFourcc::Gr88).unwrap(), TextureFormat::Rg8Unorm);
    match fourcc_to_wgpu_format(DrmFourcc::Rgb888) {
        Err(RenderError::InvalidFramebuffer(text)) => {
            assert_eq!(text, "Unsupported format: DrmFourcc(RG24)")
        }
        other => panic!("unexpected {:?}", other),
    }
}

#[test]
fn bytes_of_pixels() {
    assert_eq!(fourcc_bytes_per_pixel(DrmFourcc::Argb8888), 4);
    assert_eq!(fourcc_bytes_per_pixel(DrmFourcc::Xrgb2101010), 4);
    assert_eq!(fourcc_bytes_per_pixel(DrmFourcc::Bgr888), 3);
    assert_eq!(fourcc_bytes_per_pixel(DrmFourcc::Gr88), 2);
    assert_eq!(fourcc_bytes_per_pixel(DrmFourcc::R8), 1);
    assert_eq!(fourcc_bytes_per_pixel(DrmFourcc::Nv12), 4);
}

#[test]
fn drm_formats_of_texture_formats() {
    assert_eq!(wgpu_format_to_fourcc(TextureFormat::Bgra8UnormSrgb), DrmFourcc::Argb8888);
    assert_eq!(wgpu_format_to_fourcc(TextureFormat::Rgba8Unorm), DrmFourcc::Abgr8888);
    assert_eq!(wgpu_format_to_fourcc(TextureFormat::Rgb10a2Unorm), DrmFourcc::Argb2101010);
    assert_eq!(wgpu_format_to_fourcc(TextureFormat::R8Unorm), DrmFourcc::R8);
    assert_eq!(wgpu_format_to_fourcc(TextureFormat::Rg8Unorm), DrmFourcc::Rg88);
    assert_eq!(wgpu_format_to_fourcc(TextureFormat::Other), DrmFourcc::Argb8888);
    let other = WgpuTexture::from_wgpu(TextureFormat::Other, 1, 1);
    assert_eq!(other.format(), None);
    let srgb = WgpuTexture::from_wgpu(TextureFormat::Rgba8UnormSrgb, 1, 1);
    assert_eq!(srgb.format(), Some(DrmFourcc::Abgr8888));
}

#[test]
fn texture_properties() {
    let external = WgpuTexture::new(TextureFormat::R8Unorm, 3, 4, true);
    assert!(external.is_external() && external.y_inverted());
    assert_eq!((external.width(), external.height()), (3, 4));
    assert_eq!(external.wgpu_format(), TextureFormat::R8Unorm);
    let flipped = WgpuTexture::new_with_flip(TextureFormat::R8Unorm, 3, 4, false, true);
    assert!(!flipped.is_external() && flipped.y_inverted());
    let plain = WgpuTexture::from_wgpu(TextureFormat::R8Unorm, 3, 4);
    assert!(!plain.is_external() && !plain.y_inverted());
    assert!(WgpuTexture::is_unique(1));
    assert!(!WgpuTexture::is_unique(2));
}

#[test]
fn memory_import() {
    let plan = import_memory(64 * 32 * 2, DrmFourcc::Rg88, 64, 32, true).unwrap();
    assert_eq!(plan.bytes_per_row, 128);
    assert_eq!(plan.texture.wgpu_format(), TextureFormat::Rg8Unorm);
    assert_eq!((plan.texture.width(), plan.texture.height()), (64, 32));
    assert!(!plan.texture.is_external());
    assert!(plan.texture.y_inverted());
    assert!(!import_memory(4, DrmFourcc::Argb8888, 1, 1, false).unwrap().texture.y_inverted());
    match import_memory(64 * 32 * 2 - 1, DrmFourcc::Rg88, 64, 32, false) {
        Err(RenderError::InvalidFramebuffer(text)) => {
            assert_eq!(text, "Buffer too small: 4095 bytes, expected 4096")
        }
        other => panic!("unexpected {:?}", other),
    }
    match import_memory(0, DrmFourcc::Nv12, -1, -1, false) {
        Err(RenderError::InvalidFramebuffer(text)) => {
            assert_eq!(text, "Unsupported format: DrmFourcc(NV12)")
        }
        other => panic!("unexpected {:?}", other),
    }
}

#[test]
fn memory_update() {
    let plan = update_memory(&Region { x: 1, y: 2, width: 30, height: 40 });
    assert_eq!((plan.x, plan.y, plan.width, plan.height), (1, 2, 30, 40));
    assert_eq!(plan.bytes_per_row, 120);
}

#[test]
fn shm_formats() {
    assert_eq!(SHM_ARGB8888, Format::Argb8888 as u32);
    assert_eq!(SHM_XRGB8888, Format::Xrgb8888 as u32);
    assert_eq!(SHM_ABGR8888, Format::Abgr8888 as u32);
    assert_eq!(SHM_XBGR8888, Format::Xbgr8888 as u32);
    assert_eq!(shm_format_to_fourcc(SHM_ARGB8888).unwrap(), DrmFourcc::Argb8888);
    assert_eq!(shm_format_to_fourcc(SHM_XRGB8888).unwrap(), DrmFourcc::Xrgb8888);
    assert_eq!(shm_format_to_fourcc(SHM_ABGR8888).unwrap(), DrmFourcc::Abgr8888);
    assert_eq!(shm_format_to_fourcc(SHM_XBGR8888).unwrap(), DrmFourcc::Xbgr8888);
    assert!(matches!(
        shm_format_to_fourcc(Format::Rgb565 as u32),
        Err(RenderError::Import(ImportError::UnsupportedShmFormat))
    ));
    assert_eq!(
        shm_access_failed("NotMapped".to_string()).message(),
        "import error: shm buffer access failed: NotMapped"
    );
}

#[test]
fn shm_buffer_with_padding() {
    let data: Vec<u8> = (0..24).collect();
    // Two pixels a row, with two bytes of padding.
    let upload = import_shm_buffer(&data, SHM_XRGB8888, 2, 2, 10).unwrap();
    assert_eq!(upload.data, vec![0, 1, 2, 3, 4, 5, 6, 7, 10, 11, 12, 13, 14, 15, 16, 17]);
    assert_eq!(upload.plan.bytes_per_row, 8);
    assert_eq!(upload.plan.texture.wgpu_format(), TextureFormat::Bgra8Unorm);
    assert!(!upload.plan.texture.is_external() && !upload.plan.texture.y_inverted());
}

#[test]
fn shm_buffer_without_padding() {
    let data: Vec<u8> = (0..24).collect();
    let upload = import_shm_buffer(&data, SHM_ABGR8888, 2, 2, 8).unwrap();
    assert_eq!(upload.data, data[..16].to_vec());
    assert_eq!(upload.plan.texture.wgpu_format(), TextureFormat::Rgba8Unorm);
    let empty = import_shm_buffer(&data, SHM_ABGR8888, 2, 0, 8).unwrap();
    assert!(empty.data.is_empty());
    assert!(import_shm_buffer(&[], 5, -1, -1, -1).is_err());
}

#[test]
fn shm_buffers_update_a_cached_texture() {
    let damage = [region(0, 0, 1, 1), region(2, 0, 1, 1)];
    match shm_target(true, &damage) {
        ShmTarget::Cached(parts) => assert_eq!(parts, damage.to_vec()),
        other => panic!("unexpected {:?}", other),
    }
    assert!(matches!(shm_target(true, &[]), ShmTarget::New));
    assert!(matches!(shm_target(false, &damage), ShmTarget::New));
}

#[test]
fn region_of_an_image() {
    let data: Vec<u8> = (0..32).collect();
    // An image of four by four pixels with two bytes each.
    let region = Region { x: 1, y: 2, width: 2, height: 2 };
    let upload = update_texture_region(&data, &region, 4, 2);
    assert_eq!(upload.data, vec![18, 19, 20, 21, 26, 27, 28, 29]);
    assert_eq!((upload.plan.x, upload.plan.y), (1, 2));
    assert_eq!((upload.plan.width, upload.plan.height), (2, 2));
    assert_eq!(upload.plan.bytes_per_row, 4);
    let whole = Region { x: 0, y: 0, width: 4, height: 4 };
    assert_eq!(update_texture_region(&data, &whole, 4, 2).data, data);
    let none = Region { x: 0, y: 0, width: 4, height: 0 };
    assert!(update_texture_region(&data, &none, 4, 2).data.is_empty());
}

#[test]
fn rows_are_packed() {
    let data: Vec<u8> = (0..10).collect();
    assert_eq!(pack_rows(&data, 1, 3, 2, 3), vec![1, 2, 4, 5, 7, 8]);
    assert!(pack_rows(&data, 100, 3, 2, 0).is_empty());
    assert_eq!(pack_rows(&data, 0, 5, 5, 2), data);
}

#[test]
fn test_framebuffer_creation() {
    let fb = WgpuFramebuffer::new(1920, 1080);
    assert_eq!(fb.width(), 1920);
    assert_eq!(fb.height(), 1080);
    assert_eq!(fb.format(), TextureFormat::Bgra8Unorm);
    let fb = WgpuFramebuffer::with_format(8, 8, TextureFormat::Rgba8Unorm);
    assert_eq!(fb.format(), TextureFormat::Rgba8Unorm);
    assert_eq!(fb.fourcc(), DrmFourcc::Argb8888);
}

#[test]
fn test_render_frame() {
    let mut bridge = WgpuBridge::new(None);
    let mut frame = WgpuFrame::begin(Transform::Normal);
    assert_eq!(frame.transformation(), Transform::Normal);
    assert_eq!(frame.finish(&mut bridge), (true, 1));
    // What was finished is not submitted once more when the frame is dropped.
    assert!(!frame.take_commands());
}

#[test]
fn test_clear_frame() {
    let frame = WgpuFrame::begin(Transform::Normal);
    assert!(matches!(frame.clear(&[]).unwrap(), ClearPlan::Whole));
    let parts = [
        Region { x: 0, y: 0, width: 1, height: 1 },
        Region { x: 5, y: 0, width: 1, height: 1 },
    ];
    match frame.clear(&parts).unwrap() {
        ClearPlan::Parts(rects) => assert_eq!(rects, parts.to_vec()),
        other => panic!("unexpected {:?}", other),
    }
}

#[test]
fn finished_frame_takes_no_commands() {
    let mut frame = WgpuFrame::begin(Transform::Flipped);
    let renderer: WgpuRenderer<u32> = WgpuRenderer::new();
    assert!(frame.draw_solid().is_ok());
    assert!(frame.render_texture_from_to(&renderer, true).unwrap());
    assert!(frame.take_commands());
    assert!(matches!(frame.clear(&[]), Err(RenderError::FrameFinished)));
    assert!(matches!(frame.draw_solid(), Err(RenderError::FrameFinished)));
    assert!(matches!(
        frame.render_texture_from_to(&renderer, false),
        Err(RenderError::FrameFinished)
    ));
}

#[test]
fn test_multiple_frames() {
    let mut bridge = WgpuBridge::new(None);
    for i in 0..5 {
        let mut frame = WgpuFrame::begin(Transform::Normal);
        assert_eq!(frame.finish(&mut bridge), (true, i + 1));
    }
    assert!(wait(&mut bridge, PollOutcome::Completed).is_ok());
    assert_eq!(bridge.last_completed_frame(), 5);
    assert_eq!(
        wait(&mut bridge, PollOutcome::TimedOut).unwrap_err().message(),
        "bridge error: synchronization error: Wait timed out"
    );
}

fn region(x: i32, y: i32, width: i32, height: i32) -> Region {
    Region { x, y, width, height }
}

#[test]
fn test_screenshot_export_mem() {
    let fb = WgpuFramebuffer::new(64, 64);
    let request = copy_framebuffer(&fb, &region(0, 0, 64, 64), DrmFourcc::Argb8888).unwrap();
    let layout = request.layout();
    assert_eq!(layout.unpadded_bytes_per_row, 256);
    assert_eq!(layout.padded_bytes_per_row, 256);
    assert_eq!(layout.buffer_size, 64 * 256);
    let mapped = vec![9; 64 * 256];
    let mapping = request.read_back(&mapped);
    assert_eq!(mapping.width(), 64);
    assert_eq!(mapping.height(), 64);
    assert_eq!(mapping.format(), Some(DrmFourcc::Argb8888));
    assert_eq!(mapping.data().len(), 64 * 64 * 4);
    assert_eq!(mapping.data(), &mapped[..]);
    assert_eq!(mapping.stride(), 256);
    assert!(!mapping.flipped());
}

#[test]
fn test_screenshot_partial_region() {
    let fb = WgpuFramebuffer::new(100, 100);
    let request = copy_framebuffer(&fb, &region(40, 40, 20, 20), DrmFourcc::Argb8888).unwrap();
    assert_eq!((request.x, request.y), (40, 40));
    let layout = request.layout();
    assert_eq!(layout.unpadded_bytes_per_row, 80);
    assert_eq!(layout.padded_bytes_per_row, 256);
    let mapped: Vec<u8> = (0..20 * 256).map(|i| (i / 256) as u8).collect();
    let mapping = request.read_back(&mapped);
    assert_eq!(mapping.width(), 20);
    assert_eq!(mapping.height(), 20);
    assert_eq!(mapping.data().len(), 20 * 20 * 4);
    for (i, byte) in mapping.data().iter().enumerate() {
        assert_eq!(*byte as usize, i / 80);
    }
}

#[test]
fn readback_alignment() {
    assert_eq!(COPY_BYTES_PER_ROW_ALIGNMENT, wgpu_types::COPY_BYTES_PER_ROW_ALIGNMENT);
    let request = |width| CopyRequest {
        x: 0,
        y: 0,
        width,
        height: 3,
        format: DrmFourcc::R8,
        flipped: true,
    };
    for (width, padded) in [(0, 0), (1, 256), (255, 256), (256, 256), (257, 512)] {
        let layout = request(width).layout();
        assert_eq!(layout.unpadded_bytes_per_row, width);
        assert_eq!(layout.padded_bytes_per_row, padded);
        assert_eq!(layout.buffer_size, padded as u64 * 3);
    }
    let mapping = request(257).read_back(&vec![1; 3 * 512]);
    assert_eq!(mapping.data().len(), 3 * 257);
    assert!(mapping.flipped());
    // The stride is told for four bytes a pixel.
    assert_eq!(mapping.stride(), 4 * 257);
}

#[test]
fn framebuffer_copies_that_are_refused() {
    let fb = WgpuFramebuffer::new(100, 50);
    let text = |region, format| match copy_framebuffer(&fb, &region, format) {
        Err(RenderError::InvalidFramebuffer(text)) => text,
        other => panic!("unexpected {:?}", other),
    };
    assert_eq!(
        text(region(-1, 0, 1, 1), DrmFourcc::Argb8888),
        "Region has negative coordinates"
    );
    assert_eq!(
        text(region(0, -1, 1, 1), DrmFourcc::Argb8888),
        "Region has negative coordinates"
    );
    assert_eq!(
        text(region(1, 0, 100, 1), DrmFourcc::Argb8888),
        "Region exceeds framebuffer bounds"
    );
    assert_eq!(
        text(region(0, 1, 100, 50), DrmFourcc::Argb8888),
        "Region exceeds framebuffer bounds"
    );
    assert_eq!(
        text(region(0, 0, -1, 1), DrmFourcc::Argb8888),
        "Region exceeds framebuffer bounds"
    );
    assert_eq!(
        text(region(0, 0, 100, 50), DrmFourcc::Xrgb8888),
        "Format conversion not supported: requested DrmFourcc(XR24), \
         framebuffer is DrmFourcc(AR24)"
    );
    assert!(copy_framebuffer(&fb, &region(0, 0, 100, 50), DrmFourcc::Argb8888).is_ok());
}

#[test]
fn texture_copies() {
    let texture = WgpuTexture::new(TextureFormat::Rgba8Unorm, 100, 50, true);
    let request = copy_texture(&texture, &region(10, 20, 90, 30), DrmFourcc::Abgr8888).unwrap();
    assert!(request.flipped);
    assert_eq!((request.width, request.height), (90, 30));
    let text = |texture: &WgpuTexture, region, format| match copy_texture(texture, &region, format)
    {
        Err(RenderError::InvalidFramebuffer(text)) => text,
        other => panic!("unexpected {:?}", other),
    };
    assert_eq!(
        text(&texture, region(11, 20, 90, 30), DrmFourcc::Abgr8888),
        "Region exceeds texture bounds"
    );
    assert_eq!(
        text(&texture, region(-1, 20, 90, 30), DrmFourcc::Abgr8888),
        "Region has negative coordinates"
    );
    assert_eq!(
        text(&texture, region(0, 0, 1, 1), DrmFourcc::Argb8888),
        "Format conversion not supported: requested DrmFourcc(AR24), texture is DrmFourcc(AB24)"
    );
    let other = WgpuTexture::from_wgpu(TextureFormat::Other, 100, 50);
    assert_eq!(
        text(&other, region(0, 0, 1, 1), DrmFourcc::Argb8888),
        "Texture has no format"
    );
}

#[test]
fn readable_textures() {
    assert_eq!(TEXTURE_USAGE_COPY_SRC, wgpu_types::TextureUsages::COPY_SRC.bits());
    assert!(can_read_texture(
        (wgpu_types::TextureUsages::COPY_SRC | wgpu_types::TextureUsages::TEXTURE_BINDING).bits()
    ));
    assert!(!can_read_texture(wgpu_types::TextureUsages::COPY_DST.bits()));
}

#[test]
fn mapping_of_the_buffer() {
    assert!(buffer_mapped(MapOutcome::Mapped).is_ok());
    assert_eq!(
        buffer_mapped(MapOutcome::ChannelClosed).unwrap_err().message(),
        "failed to submit commands: Buffer mapping channel closed"
    );
    assert_eq!(
        buffer_mapped(MapOutcome::Failed("lost".to_string())).unwrap_err().message(),
        "failed to submit commands: buffer mapping failed: lost"
    );
}
