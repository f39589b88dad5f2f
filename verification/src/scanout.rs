//! Output scanout functionality for exporting rendered frames.
//!
//! Rendered framebuffers are exported as dmabufs for display. This completes the pipeline:
//!
//! ```text
//! client buffers (dmabuf) -> import -> render -> export -> display (dmabuf)
//! ```
use crate::error::{BridgeError, BridgeErrorView};
use crate::extensions::{EXTERNAL_MEMORY_DMA_BUF, EXTERNAL_MEMORY_FD, IMAGE_DRM_FORMAT_MODIFIER};
use crate::format::{DrmFourcc, TextureFormat, VkFormat};
use crate::modifiers::{drm_mod, SubresourceLayout};
use crate::text::{joined, vk_result_debug, with_vk_result};
use crate::vulkan::{
    contains_name, ImageRequest, ImageTiling, MemoryRequest, Resource, USAGE_COLOR_ATTACHMENT,
    USAGE_TRANSFER_DST, USAGE_TRANSFER_SRC,
};
use vstd::prelude::*;
use vstd::string::*;

verus! {

/// Capabilities for scanout/export.
#[derive(Clone, Copy, Debug, PartialEq, Eq, Structural)]
pub struct ScanoutCapabilities {
    /// `VK_KHR_external_memory_fd` is available
    pub external_memory_fd: bool,
    /// `VK_EXT_external_memory_dma_buf` is available
    pub external_memory_dmabuf: bool,
    /// `VK_EXT_image_drm_format_modifier` is available
    pub drm_format_modifier: bool,
    /// Can export render targets as dmabufs
    pub can_export_dmabuf: bool,
}

impl Default for ScanoutCapabilities {
    /// Nothing can be exported.
    fn default() -> (r: ScanoutCapabilities)
        ensures
            r == ScanoutCapabilities::of_device(None),
    {
        ScanoutCapabilities {
            external_memory_fd: false,
            external_memory_dmabuf: false,
            drm_format_modifier: false,
            can_export_dmabuf: false,
        }
    }
}

impl ScanoutCapabilities {
    /// The capabilities of a device with these extensions. A device whose extensions could not be
    /// listed has none.
    pub open spec fn of_device(extensions: Option<Seq<Seq<char>>>) -> ScanoutCapabilities {
        match extensions {
            Some(names) => ScanoutCapabilities {
                external_memory_fd: names.contains(EXTERNAL_MEMORY_FD@),
                external_memory_dmabuf: names.contains(EXTERNAL_MEMORY_DMA_BUF@),
                drm_format_modifier: names.contains(IMAGE_DRM_FORMAT_MODIFIER@),
                can_export_dmabuf: names.contains(EXTERNAL_MEMORY_FD@) && names.contains(
                    EXTERNAL_MEMORY_DMA_BUF@,
                ),
            },
            None => ScanoutCapabilities {
                external_memory_fd: false,
                external_memory_dmabuf: false,
                drm_format_modifier: false,
                can_export_dmabuf: false,
            },
        }
    }

    /// The scanout capabilities of a physical device with these extensions. `None` stands for
    /// extensions that could not be listed.
    pub fn query(extensions: Option<&Vec<String>>) -> (r: ScanoutCapabilities)
        ensures
            r == Self::of_device(crate::vulkan::listed(extensions)),
    {
        let names = match extensions {
            Some(names) => names,
            None => {
                return ScanoutCapabilities::default();
            },
        };
        let external_memory_fd = contains_name(names, EXTERNAL_MEMORY_FD);
        let external_memory_dmabuf = contains_name(names, EXTERNAL_MEMORY_DMA_BUF);
        let drm_format_modifier = contains_name(names, IMAGE_DRM_FORMAT_MODIFIER);
        ScanoutCapabilities {
            external_memory_fd,
            external_memory_dmabuf,
            drm_format_modifier,
            can_export_dmabuf: external_memory_fd && external_memory_dmabuf,
        }
    }
}

/// Configuration for creating an exportable render target.
#[derive(Clone, Copy, Debug, PartialEq, Eq, Structural)]
pub struct RenderTargetConfig {
    /// Width in pixels
    pub width: u32,
    /// Height in pixels
    pub height: u32,
    /// Desired DRM format
    pub format: DrmFourcc,
    /// Desired modifier (0 for linear)
    pub modifier: u64,
}

impl RenderTargetConfig {
    /// Whether a row of a target fits in 32 bits, where the format can be rendered to.
    pub open spec fn spec_fits(self) -> bool {
        target_formats(self.format) is Some ==> self.width * target_bytes_per_pixel(self.format)
            <= u32::MAX
    }

    /// Check that a row of a target fits in 32 bits, where the format can be rendered to.
    pub fn fits(&self) -> (r: bool)
        ensures
            r == self.spec_fits(),
    {
        if drm_to_vk_format(self.format).is_none() {
            return true;
        }
        let bytes_per_pixel: u32 = format_bytes_per_pixel(self.format);
        assert(self.width * bytes_per_pixel <= u32::MAX * 4) by (nonlinear_arith)
            requires
                self.width <= u32::MAX,
                bytes_per_pixel <= 4,
        ;
        let row: u64 = self.width as u64 * bytes_per_pixel as u64;
        row <= u32::MAX as u64
    }
}

impl Default for RenderTargetConfig {
    /// A linear full HD target with ARGB8888.
    fn default() -> (r: RenderTargetConfig)
        ensures
            r == (RenderTargetConfig {
                width: 1920,
                height: 1080,
                format: DrmFourcc::Argb8888,
                modifier: 0,
            }),
    {
        RenderTargetConfig { width: 1920, height: 1080, format: DrmFourcc::Argb8888, modifier: 0 }
    }
}

/// The Vulkan format and the wgpu format of a render target with this DRM format.
pub open spec fn target_formats(fourcc: DrmFourcc) -> Option<(VkFormat, TextureFormat)> {
    match fourcc {
        DrmFourcc::Argb8888 | DrmFourcc::Xrgb8888 => Some(
            (VkFormat::B8G8R8A8Unorm, TextureFormat::Bgra8Unorm),
        ),
        DrmFourcc::Abgr8888 | DrmFourcc::Xbgr8888 => Some(
            (VkFormat::R8G8B8A8Unorm, TextureFormat::Rgba8Unorm),
        ),
        DrmFourcc::Argb2101010 | DrmFourcc::Xrgb2101010 => Some(
            (VkFormat::A2B10G10R10UnormPack32, TextureFormat::Rgb10a2Unorm),
        ),
        _ => None,
    }
}

/// Map a DRM format to a Vulkan format.
pub fn drm_to_vk_format(fourcc: DrmFourcc) -> (r: Option<VkFormat>)
    ensures
        r == match target_formats(fourcc) {
            Some(formats) => Some(formats.0),
            None => None,
        },
{
    match fourcc {
        DrmFourcc::Argb8888 => Some(VkFormat::B8G8R8A8Unorm),
        DrmFourcc::Xrgb8888 => Some(VkFormat::B8G8R8A8Unorm),
        DrmFourcc::Abgr8888 => Some(VkFormat::R8G8B8A8Unorm),
        DrmFourcc::Xbgr8888 => Some(VkFormat::R8G8B8A8Unorm),
        DrmFourcc::Argb2101010 => Some(VkFormat::A2B10G10R10UnormPack32),
        DrmFourcc::Xrgb2101010 => Some(VkFormat::A2B10G10R10UnormPack32),
        _ => None,
    }
}

/// Map a DRM format to a wgpu format.
pub fn drm_to_wgpu_format(fourcc: DrmFourcc) -> (r: Option<TextureFormat>)
    ensures
        r == match target_formats(fourcc) {
            Some(formats) => Some(formats.1),
            None => None,
        },
{
    match fourcc {
        DrmFourcc::Argb8888 => Some(TextureFormat::Bgra8Unorm),
        DrmFourcc::Xrgb8888 => Some(TextureFormat::Bgra8Unorm),
        DrmFourcc::Abgr8888 => Some(TextureFormat::Rgba8Unorm),
        DrmFourcc::Xbgr8888 => Some(TextureFormat::Rgba8Unorm),
        DrmFourcc::Argb2101010 => Some(TextureFormat::Rgb10a2Unorm),
        DrmFourcc::Xrgb2101010 => Some(TextureFormat::Rgb10a2Unorm),
        _ => None,
    }
}

/// The bytes of a pixel of a render target: three for packed RGB, four for all others.
pub open spec fn target_bytes_per_pixel(fourcc: DrmFourcc) -> u32 {
    match fourcc {
        DrmFourcc::Rgb888 | DrmFourcc::Bgr888 => 3,
        _ => 4,
    }
}

/// Get bytes per pixel for a format.
pub fn format_bytes_per_pixel(fourcc: DrmFourcc) -> (r: u32)
    ensures
        r == target_bytes_per_pixel(fourcc),
{
    match fourcc {
        DrmFourcc::Argb8888
        | DrmFourcc::Xrgb8888
        | DrmFourcc::Abgr8888
        | DrmFourcc::Xbgr8888
        | DrmFourcc::Argb2101010
        | DrmFourcc::Xrgb2101010 => 4,
        DrmFourcc::Rgb888 | DrmFourcc::Bgr888 => 3,
        _ => 4,
    }
}

/// A step of the creation of a render target that failed.
#[derive(Debug)]
pub struct TargetFailure {
    /// Why the step failed.
    pub error: BridgeError,
    /// What was created and is to be released, in this order.
    pub released: Vec<Resource>,
}

impl TargetFailure {
    /// Whether the step failed with this rendering error and leaves these resources to release.
    pub open spec fn is(self, text: Seq<char>, released: Seq<Resource>) -> bool {
        self.error@ == BridgeErrorView::Render(text) && self.released@ =~= released
    }
}

/// A render target that is to be created. The image comes first.
#[derive(Clone, Copy, Debug, PartialEq, Eq, Structural)]
pub struct TargetRequest {
    /// What was asked for.
    pub config: RenderTargetConfig,
    /// Format of the image.
    pub vk_format: VkFormat,
    /// Format of the texture.
    pub wgpu_format: TextureFormat,
}

/// A render target that has its image. The memory comes next.
#[derive(Clone, Copy, Debug, PartialEq, Eq, Structural)]
pub struct TargetImage {
    /// What is created.
    pub request: TargetRequest,
    /// The image.
    pub image: u64,
}

/// A render target that has its memory, which is to be bound to the image.
#[derive(Clone, Copy, Debug, PartialEq, Eq, Structural)]
pub struct TargetBinding {
    /// What is created.
    pub request: TargetRequest,
    /// The image.
    pub image: u64,
    /// The memory.
    pub memory: u64,
}

/// A render target with bound memory, which is to become a texture of the device.
#[derive(Clone, Copy, Debug, PartialEq, Eq, Structural)]
pub struct TargetTexture {
    /// The render target.
    pub target: RenderTarget,
    /// Format of the texture.
    pub wgpu_format: TextureFormat,
}

/// A render target that can be exported as a dmabuf.
///
/// The target owns its image. The memory belongs to its texture, and is kept for the export.
#[derive(Clone, Copy, Debug, PartialEq, Eq, Structural)]
pub struct RenderTarget {
    /// Vulkan image
    pub vk_image: u64,
    /// Exportable device memory
    pub vk_memory: u64,
    /// Width in pixels
    pub width: u32,
    /// Height in pixels
    pub height: u32,
    /// DRM format
    pub drm_format: DrmFourcc,
    /// Format modifier
    pub modifier: u64,
    /// Stride (bytes per row)
    pub stride: u32,
}

/// Exported dmabuf from a render target.
#[derive(Clone, Copy, Debug, PartialEq, Eq, Structural)]
pub struct ExportedDmabuf {
    /// The dmabuf file descriptor
    pub fd: i32,
    /// Width in pixels
    pub width: u32,
    /// Height in pixels
    pub height: u32,
    /// DRM fourcc format
    pub format: DrmFourcc,
    /// Format modifier
    pub modifier: u64,
    /// Stride (bytes per row)
    pub stride: u32,
    /// Offset to first pixel
    pub offset: u32,
}

impl TargetRequest {
    /// Whether a row of the target fits in 32 bits.
    pub open spec fn wf(self) -> bool {
        self.config.width * target_bytes_per_pixel(self.config.format) <= u32::MAX
    }

    /// The image to create: rendered to and copied, tiled as the desired modifier says.
    pub open spec fn spec_image(self) -> ImageRequest {
        ImageRequest {
            format: self.vk_format,
            width: self.config.width,
            height: self.config.height,
            tiling: if self.config.modifier == drm_mod::LINEAR {
                ImageTiling::Linear
            } else {
                ImageTiling::DrmFormatModifier(self.config.modifier)
            },
            usage: USAGE_COLOR_ATTACHMENT | USAGE_TRANSFER_SRC | USAGE_TRANSFER_DST,
            disjoint: false,
        }
    }

    /// The bytes of a row of the target.
    pub open spec fn row_bytes(self) -> int {
        self.config.width * target_bytes_per_pixel(self.config.format)
    }

    /// The image to create. The linear modifier is had by linear tiling, and every other one by
    /// itself.
    pub fn image_request(&self) -> (r: ImageRequest)
        ensures
            r == self.spec_image(),
    {
        let tiling = if self.config.modifier == drm_mod::LINEAR {
            ImageTiling::Linear
        } else {
            ImageTiling::DrmFormatModifier(self.config.modifier)
        };
        ImageRequest {
            format: self.vk_format,
            width: self.config.width,
            height: self.config.height,
            tiling,
            usage: USAGE_COLOR_ATTACHMENT | USAGE_TRANSFER_SRC | USAGE_TRANSFER_DST,
            disjoint: false,
        }
    }

    /// The layout of the only plane of an image that is tiled as a modifier says: from the start
    /// of the memory, with rows of the stride that is exported.
    pub fn plane_layout(&self) -> (r: SubresourceLayout)
        requires
            self.wf(),
        ensures
            r == (SubresourceLayout {
                offset: 0,
                size: 0,
                row_pitch: self.row_bytes() as u64,
                array_pitch: 0,
                depth_pitch: 0,
            }),
    {
        let stride: u32 = self.config.width * format_bytes_per_pixel(self.config.format);
        SubresourceLayout {
            offset: 0,
            size: 0,
            row_pitch: stride as u64,
            array_pitch: 0,
            depth_pitch: 0,
        }
    }

    /// Go on with the image, or with the code of why it could not be created.
    pub fn image_created(self, image: Result<u64, i32>) -> (r: Result<TargetImage, TargetFailure>)
        ensures
            match image {
                Ok(handle) => r == Ok::<TargetImage, TargetFailure>(
                    TargetImage { request: self, image: handle },
                ),
                Err(code) => r matches Err(failure) && failure.is(
                    "failed to create image: "@ + vk_result_debug(code),
                    Seq::empty(),
                ),
            },
    {
        match image {
            Ok(handle) => Ok(TargetImage { request: self, image: handle }),
            Err(code) => Err(
                TargetFailure {
                    error: BridgeError::Render(with_vk_result("failed to create image: ", code)),
                    released: Vec::new(),
                },
            ),
        }
    }
}

impl TargetImage {
    /// The exportable memory to allocate for an image of this size: from the first memory type.
    pub fn memory_request(&self, size: u64) -> (r: MemoryRequest)
        ensures
            r == (MemoryRequest { size, memory_type_index: 0 }),
    {
        MemoryRequest { size, memory_type_index: 0 }
    }

    /// Go on with the memory, or with the code of why it could not be allocated.
    pub fn allocated(self, memory: Result<u64, i32>) -> (r: Result<TargetBinding, TargetFailure>)
        ensures
            match memory {
                Ok(handle) => r == Ok::<TargetBinding, TargetFailure>(
                    TargetBinding { request: self.request, image: self.image, memory: handle },
                ),
                Err(code) => r matches Err(failure) && failure.is(
                    "failed to allocate memory: "@ + vk_result_debug(code),
                    seq![Resource::Image(self.image)],
                ),
            },
    {
        match memory {
            Ok(handle) => Ok(
                TargetBinding { request: self.request, image: self.image, memory: handle },
            ),
            Err(code) => {
                let mut released: Vec<Resource> = Vec::new();
                released.push(Resource::Image(self.image));
                Err(
                    TargetFailure {
                        error: BridgeError::Render(
                            with_vk_result("failed to allocate memory: ", code),
                        ),
                        released,
                    },
                )
            },
        }
    }
}

impl TargetBinding {
    /// The render target with this image and memory.
    pub open spec fn spec_target(self) -> RenderTarget {
        RenderTarget {
            vk_image: self.image,
            vk_memory: self.memory,
            width: self.request.config.width,
            height: self.request.config.height,
            drm_format: self.request.config.format,
            modifier: self.request.config.modifier,
            stride: (self.request.config.width * target_bytes_per_pixel(
                self.request.config.format,
            )) as u32,
        }
    }

    /// Go on with the bound image, or with the code of why the memory could not be bound.
    pub fn bound(self, bound: Result<(), i32>) -> (r: Result<TargetTexture, TargetFailure>)
        requires
            self.request.wf(),
        ensures
            match bound {
                Ok(_) => r == Ok::<TargetTexture, TargetFailure>(
                    TargetTexture {
                        target: self.spec_target(),
                        wgpu_format: self.request.wgpu_format,
                    },
                ),
                Err(code) => r matches Err(failure) && failure.is(
                    "failed to bind memory: "@ + vk_result_debug(code),
                    seq![Resource::Memory(self.memory), Resource::Image(self.image)],
                ),
            },
    {
        match bound {
            Ok(_) => {
                let bytes_per_pixel: u32 = format_bytes_per_pixel(self.request.config.format);
                let stride: u32 = self.request.config.width * bytes_per_pixel;
                Ok(
                    TargetTexture {
                        target: RenderTarget {
                            vk_image: self.image,
                            vk_memory: self.memory,
                            width: self.request.config.width,
                            height: self.request.config.height,
                            drm_format: self.request.config.format,
                            modifier: self.request.config.modifier,
                            stride,
                        },
                        wgpu_format: self.request.wgpu_format,
                    },
                )
            },
            Err(code) => {
                let mut released: Vec<Resource> = Vec::new();
                released.push(Resource::Memory(self.memory));
                released.push(Resource::Image(self.image));
                Err(
                    TargetFailure {
                        error: BridgeError::Render(with_vk_result("failed to bind memory: ", code)),
                        released,
                    },
                )
            },
        }
    }
}

impl TargetTexture {
    /// Finish on a device that takes Vulkan images. On another device nothing is released.
    pub fn device_opened(self, device_available: bool) -> (r: Result<RenderTarget, TargetFailure>)
        ensures
            match r {
                Ok(target) => device_available && target == self.target,
                Err(failure) => !device_available && failure.is(
                    "Failed to access HAL device"@,
                    Seq::empty(),
                ),
            },
    {
        if device_available {
            Ok(self.target)
        } else {
            Err(
                TargetFailure {
                    error: BridgeError::Render("Failed to access HAL device".to_owned()),
                    released: Vec::new(),
                },
            )
        }
    }
}

impl RenderTarget {
    /// Create a new exportable render target: the target to go on with. It fails where the format
    /// is not one of those that can be rendered to.
    pub fn new(config: &RenderTargetConfig) -> (r: Result<TargetRequest, BridgeError>)
        requires
            config.spec_fits(),
        ensures
            match target_formats(config.format) {
                Some((vk_format, wgpu_format)) => r == Ok::<TargetRequest, BridgeError>(
                    TargetRequest { config: *config, vk_format, wgpu_format },
                ) && r->Ok_0.wf(),
                None => r matches Err(e) && e@ == BridgeErrorView::Render(
                    "unsupported format: "@ + config.format.spec_text(),
                ),
            },
    {
        match (drm_to_vk_format(config.format), drm_to_wgpu_format(config.format)) {
            (Some(vk_format), Some(wgpu_format)) => Ok(
                TargetRequest { config: *config, vk_format, wgpu_format },
            ),
            _ => Err(
                BridgeError::Render(joined("unsupported format: ", config.format.text().as_str())),
            ),
        }
    }

    /// Get the width in pixels.
    pub fn width(&self) -> (r: u32)
        ensures
            r == self.width,
    {
        self.width
    }

    /// Get the height in pixels.
    pub fn height(&self) -> (r: u32)
        ensures
            r == self.height,
    {
        self.height
    }

    /// Get the DRM format.
    pub fn format(&self) -> (r: DrmFourcc)
        ensures
            r == self.drm_format,
    {
        self.drm_format
    }

    /// The dmabuf with this file descriptor that the target is exported as.
    pub open spec fn spec_export(self, fd: i32) -> ExportedDmabuf {
        ExportedDmabuf {
            fd,
            width: self.width,
            height: self.height,
            format: self.drm_format,
            modifier: self.modifier,
            stride: self.stride,
            offset: 0,
        }
    }

    /// Export as a dmabuf: with the file descriptor of the memory, or the code of why there is
    /// none.
    pub fn export_dmabuf(&self, fd: Result<i32, i32>) -> (r: Result<ExportedDmabuf, BridgeError>)
        ensures
            match fd {
                Ok(fd) => r == Ok::<ExportedDmabuf, BridgeError>(self.spec_export(fd)),
                Err(code) => r matches Err(e) && e@ == BridgeErrorView::Render(
                    "failed to export dmabuf: "@ + vk_result_debug(code),
                ),
            },
    {
        match fd {
            Ok(fd) => Ok(
                ExportedDmabuf {
                    fd,
                    width: self.width,
                    height: self.height,
                    format: self.drm_format,
                    modifier: self.modifier,
                    stride: self.stride,
                    offset: 0,
                },
            ),
            Err(code) => Err(
                BridgeError::Render(with_vk_result("failed to export dmabuf: ", code)),
            ),
        }
    }

    /// What to release with the target: its image. The memory is freed with its texture.
    pub fn owned_resources(&self) -> (r: Vec<Resource>)
        ensures
            r@ == seq![Resource::Image(self.vk_image)],
    {
        let mut owned: Vec<Resource> = Vec::new();
        owned.push(Resource::Image(self.vk_image));
        owned
    }
}

/// A device can export dmabufs if and only if it has both extensions for it.
pub proof fn law_export_needs_both(extensions: Option<Seq<Seq<char>>>)
    ensures
        ({
            let c = ScanoutCapabilities::of_device(extensions);
            c.can_export_dmabuf <==> c.external_memory_fd && c.external_memory_dmabuf
        }),
{
}

/// The Vulkan format of a render target is the one with which its wgpu format is imported, so that
/// an exported frame can be imported again with the same formats.
pub proof fn law_target_formats_agree(fourcc: DrmFourcc)
    ensures
        target_formats(fourcc) matches Some(formats) ==> {
            &&& crate::dmabuf::import_vk_format(formats.1) == Some(formats.0)
            &&& crate::dmabuf::single_plane_format(fourcc) == Some(formats.1)
        },
{
}

/// An exported frame says what was configured: the dimensions, format and modifier of the target,
/// and rows that hold the pixels without padding.
pub proof fn law_export_matches_config(binding: TargetBinding, fd: i32)
    requires
        binding.request.wf(),
    ensures
        ({
            let dmabuf = binding.spec_target().spec_export(fd);
            let config = binding.request.config;
            &&& dmabuf.width == config.width
            &&& dmabuf.height == config.height
            &&& dmabuf.format == config.format
            &&& dmabuf.modifier == config.modifier
            &&& dmabuf.stride == binding.request.row_bytes()
        }),
{
}

/// The modifier that an exported frame tells is the one that its image was requested with. An image
/// is linear if and only if its frame tells the linear modifier.
pub proof fn law_exported_modifier_was_requested(binding: TargetBinding, fd: i32)
    ensures
        ({
            let tiling = binding.request.spec_image().tiling;
            let told = binding.spec_target().spec_export(fd).modifier;
            &&& tiling.told_modifier() == Some(told)
            &&& tiling == ImageTiling::Linear <==> told == drm_mod::LINEAR
        }),
{
}

/// A device exports dmabufs if and only if both extensions for it are listed. Each capability goes by
/// the name of its extension. A device without a list can do nothing.
pub proof fn law_scanout_by_extensions(
    names: Vec<String>,
    c: ScanoutCapabilities,
    unlisted: ScanoutCapabilities,
)
    requires
        call_ensures(ScanoutCapabilities::query, (Some(&names),), c),
        call_ensures(ScanoutCapabilities::query, (None,), unlisted),
    ensures
        ({
            let listed = crate::vulkan::texts(names@);
            &&& c.external_memory_fd == listed.contains("VK_KHR_external_memory_fd"@)
            &&& c.external_memory_dmabuf == listed.contains("VK_EXT_external_memory_dma_buf"@)
            &&& c.drm_format_modifier == listed.contains("VK_EXT_image_drm_format_modifier"@)
            &&& c.can_export_dmabuf == (c.external_memory_fd && c.external_memory_dmabuf)
        }),
        !unlisted.external_memory_fd && !unlisted.external_memory_dmabuf
            && !unlisted.drm_format_modifier && !unlisted.can_export_dmabuf,
{
}

/// A format can be rendered to if and only if it has four components in one plane, that is where its
/// pixels can be imported from memory with four bytes each. Its texture format is that of the import.
pub proof fn law_rendered_formats(
    fourcc: DrmFourcc,
    vk: Option<VkFormat>,
    wgpu: Option<TextureFormat>,
    bytes: u32,
    imported: Result<TextureFormat, crate::error::RenderError>,
    import_bytes: u32,
)
    requires
        call_ensures(drm_to_vk_format, (fourcc,), vk),
        call_ensures(drm_to_wgpu_format, (fourcc,), wgpu),
        call_ensures(format_bytes_per_pixel, (fourcc,), bytes),
        call_ensures(crate::renderer::fourcc_to_wgpu_format, (fourcc,), imported),
        call_ensures(crate::renderer::fourcc_bytes_per_pixel, (fourcc,), import_bytes),
    ensures
        wgpu is Some <==> imported is Ok && import_bytes == 4,
        vk is Some <==> wgpu is Some,
        wgpu matches Some(format) ==> imported == Ok::<TextureFormat, crate::error::RenderError>(
            format,
        ) && bytes == 4,
        vk == Some(VkFormat::B8G8R8A8Unorm) <==> wgpu == Some(TextureFormat::Bgra8Unorm),
        vk == Some(VkFormat::R8G8B8A8Unorm) <==> wgpu == Some(TextureFormat::Rgba8Unorm),
        vk == Some(VkFormat::A2B10G10R10UnormPack32) <==> wgpu == Some(TextureFormat::Rgb10a2Unorm),
        vk matches Some(format) ==> format == VkFormat::B8G8R8A8Unorm || format
            == VkFormat::R8G8B8A8Unorm || format == VkFormat::A2B10G10R10UnormPack32,
{
}

/// The image of a render target has the dimensions that were asked for, can be rendered to and copied
/// both ways and nothing else, and is tiled as the desired modifier says. The linear modifier, which
/// is zero, is had by linear tiling.
pub proof fn law_target_image(request: TargetRequest, image: ImageRequest)
    requires
        call_ensures(TargetRequest::image_request, (&request,), image),
    ensures
        image.width == request.config.width && image.height == request.config.height,
        image.format == request.vk_format,
        image.usage == 0x13,
        !image.disjoint,
        request.config.modifier == 0 ==> image.tiling == ImageTiling::Linear,
        request.config.modifier != 0 ==> image.tiling == ImageTiling::DrmFormatModifier(
            request.config.modifier,
        ),
{
    assert(0x10u32 | 0x1u32 | 0x2u32 == 0x13u32) by (bit_vector);
}

/// A render target is created where its format can be rendered to, with the formats that the DRM
/// format stands for, and keeps what was asked for.
pub proof fn law_target_request(
    config: RenderTargetConfig,
    vk: Option<VkFormat>,
    wgpu: Option<TextureFormat>,
    r: Result<TargetRequest, BridgeError>,
)
    requires
        config.spec_fits(),
        call_ensures(drm_to_vk_format, (config.format,), vk),
        call_ensures(drm_to_wgpu_format, (config.format,), wgpu),
        call_ensures(RenderTarget::new, (&config,), r),
    ensures
        r is Ok <==> wgpu is Some,
        r matches Ok(request) ==> request.config == config && vk == Some(request.vk_format) && wgpu
            == Some(request.wgpu_format),
        r matches Err(e) ==> e@ is Render,
{
}

/// A row of a render target fits if and only if four bytes for each pixel can be counted in 32 bits.
/// A format that cannot be rendered to needs no check.
pub proof fn law_target_rows_counted(config: RenderTargetConfig, wgpu: Option<TextureFormat>, r: bool)
    requires
        call_ensures(drm_to_wgpu_format, (config.format,), wgpu),
        call_ensures(RenderTargetConfig::fits, (&config,), r),
    ensures
        r <==> wgpu is None || config.width < 0x4000_0000,
{
    if wgpu is Some {
        lemma_four_bytes(config);
    }
}

/// A row of a format that can be rendered to has four bytes for each pixel.
proof fn lemma_four_bytes(config: RenderTargetConfig)
    requires
        target_formats(config.format) is Some,
    ensures
        config.width * target_bytes_per_pixel(config.format) == 4 * config.width,
{
    let bytes = target_bytes_per_pixel(config.format);
    assert(config.width * bytes == 4 * config.width) by (nonlinear_arith)
        requires
            bytes == 4,
    ;
}

/// An exported frame is what was configured: with the dimensions, the format and the modifier that
/// were asked for, four bytes for each pixel of a row, and its first pixel at the start. Its plane was
/// laid out with the same rows.
pub proof fn law_exported_frame(
    config: RenderTargetConfig,
    request: TargetRequest,
    layout: SubresourceLayout,
    image: u64,
    created: TargetImage,
    memory: u64,
    binding: TargetBinding,
    texture: TargetTexture,
    target: RenderTarget,
    fd: i32,
    dmabuf: ExportedDmabuf,
)
    requires
        config.spec_fits(),
        call_ensures(RenderTarget::new, (&config,), Ok::<TargetRequest, BridgeError>(request)),
        call_ensures(TargetRequest::plane_layout, (&request,), layout),
        call_ensures(
            TargetRequest::image_created,
            (request, Ok::<u64, i32>(image)),
            Ok::<TargetImage, TargetFailure>(created),
        ),
        call_ensures(
            TargetImage::allocated,
            (created, Ok::<u64, i32>(memory)),
            Ok::<TargetBinding, TargetFailure>(binding),
        ),
        call_ensures(
            TargetBinding::bound,
            (binding, Ok::<(), i32>(())),
            Ok::<TargetTexture, TargetFailure>(texture),
        ),
        call_ensures(
            TargetTexture::device_opened,
            (texture, true),
            Ok::<RenderTarget, TargetFailure>(target),
        ),
        call_ensures(
            RenderTarget::export_dmabuf,
            (&target, Ok::<i32, i32>(fd)),
            Ok::<ExportedDmabuf, BridgeError>(dmabuf),
        ),
    ensures
        dmabuf.fd == fd,
        dmabuf.width == config.width && dmabuf.height == config.height,
        dmabuf.format == config.format && dmabuf.modifier == config.modifier,
        dmabuf.stride == 4 * config.width,
        dmabuf.offset == 0,
        layout.offset == 0 && layout.row_pitch == dmabuf.stride,
        layout.size == 0 && layout.array_pitch == 0 && layout.depth_pitch == 0,
        target.vk_image == image && target.vk_memory == memory,
        texture.wgpu_format == request.wgpu_format,
{
    lemma_four_bytes(config);
}

/// The memory of a render target is of the size of its image and of the first type. A failed step
/// releases what the steps before it created, the memory before the image, and a target without a
/// device releases nothing.
pub proof fn law_target_memory_and_failures(
    created: TargetImage,
    size: u64,
    memory: MemoryRequest,
    code: i32,
    request: TargetRequest,
    without_image: TargetFailure,
    unallocated: TargetFailure,
    binding: TargetBinding,
    unbound: TargetFailure,
    texture: TargetTexture,
    without_device: TargetFailure,
)
    requires
        call_ensures(TargetImage::memory_request, (&created, size), memory),
        call_ensures(
            TargetRequest::image_created,
            (request, Err::<u64, i32>(code)),
            Err::<TargetImage, TargetFailure>(without_image),
        ),
        call_ensures(
            TargetImage::allocated,
            (created, Err::<u64, i32>(code)),
            Err::<TargetBinding, TargetFailure>(unallocated),
        ),
        call_ensures(
            TargetBinding::bound,
            (binding, Err::<(), i32>(code)),
            Err::<TargetTexture, TargetFailure>(unbound),
        ),
        call_ensures(
            TargetTexture::device_opened,
            (texture, false),
            Err::<RenderTarget, TargetFailure>(without_device),
        ),
    ensures
        memory.size == size && memory.memory_type_index == 0,
        without_image.released@.len() == 0,
        unallocated.released@ == seq![Resource::Image(created.image)],
        unbound.released@ == seq![Resource::Memory(binding.memory), Resource::Image(binding.image)],
        without_device.released@.len() == 0,
{
}

/// A target is exported and told as it is, and owns its image but not its memory.
pub proof fn law_target_tells(
    target: RenderTarget,
    width: u32,
    height: u32,
    format: DrmFourcc,
    owned: Vec<Resource>,
    code: i32,
    r: Result<ExportedDmabuf, BridgeError>,
)
    requires
        call_ensures(RenderTarget::width, (&target,), width),
        call_ensures(RenderTarget::height, (&target,), height),
        call_ensures(RenderTarget::format, (&target,), format),
        call_ensures(RenderTarget::owned_resources, (&target,), owned),
        call_ensures(RenderTarget::export_dmabuf, (&target, Err::<i32, i32>(code)), r),
    ensures
        width == target.width && height == target.height && format == target.drm_format,
        owned@.len() == 1 && owned@[0] == Resource::Image(target.vk_image),
        r matches Err(e) && e@ is Render,
{
}

/// A target is a linear full HD one with ARGB8888 where nothing else is asked for, and nothing can be
/// exported from a device of which nothing is known.
pub proof fn law_defaults(config: RenderTargetConfig, c: ScanoutCapabilities)
    requires
        call_ensures(<RenderTargetConfig as Default>::default, (), config),
        call_ensures(<ScanoutCapabilities as Default>::default, (), c),
    ensures
        config.width == 1920 && config.height == 1080 && config.modifier == 0,
        config.format == DrmFourcc::Argb8888,
        !c.can_export_dmabuf && !c.external_memory_fd && !c.external_memory_dmabuf
            && !c.drm_format_modifier,
{
}

} // verus!
