//! Texture types.
use crate::format::{DrmFourcc, TextureFormat};
use vstd::prelude::*;

verus! {

/// What is known of a wgpu texture.
#[derive(Clone, Copy, Debug, PartialEq, Eq, Structural)]
pub struct WgpuTexture {
    /// Texture format
    pub format: TextureFormat,
    /// Texture width in pixels
    pub width: u32,
    /// Texture height in pixels
    pub height: u32,
    /// Whether this texture was imported from external memory (dmabuf)
    pub external: bool,
    /// Whether the texture is y-inverted (flipped vertically)
    pub y_inverted: bool,
}

/// The DRM format of a texture with this format.
pub open spec fn texture_fourcc(format: TextureFormat) -> Option<DrmFourcc> {
    match format {
        TextureFormat::Bgra8Unorm | TextureFormat::Bgra8UnormSrgb => Some(DrmFourcc::Argb8888),
        TextureFormat::Rgba8Unorm | TextureFormat::Rgba8UnormSrgb => Some(DrmFourcc::Abgr8888),
        TextureFormat::Rgb10a2Unorm => Some(DrmFourcc::Argb2101010),
        TextureFormat::R8Unorm => Some(DrmFourcc::R8),
        TextureFormat::Rg8Unorm => Some(DrmFourcc::Rg88),
        TextureFormat::Other => None,
    }
}

impl WgpuTexture {
    /// A texture. External textures (dmabufs) are y-inverted.
    pub fn new(format: TextureFormat, width: u32, height: u32, external: bool) -> (r: WgpuTexture)
        ensures
            r == (WgpuTexture { format, width, height, external, y_inverted: external }),
    {
        Self::new_with_flip(format, width, height, external, external)
    }

    /// A texture with explicit y-inversion control.
    pub fn new_with_flip(
        format: TextureFormat,
        width: u32,
        height: u32,
        external: bool,
        y_inverted: bool,
    ) -> (r: WgpuTexture)
        ensures
            r == (WgpuTexture { format, width, height, external, y_inverted }),
    {
        WgpuTexture { format, width, height, external, y_inverted }
    }

    /// A texture with default settings (non-external, not flipped).
    pub fn from_wgpu(format: TextureFormat, width: u32, height: u32) -> (r: WgpuTexture)
        ensures
            r == (WgpuTexture { format, width, height, external: false, y_inverted: false }),
    {
        Self::new_with_flip(format, width, height, false, false)
    }

    /// Get the wgpu texture format.
    pub fn wgpu_format(&self) -> (r: TextureFormat)
        ensures
            r == self.format,
    {
        self.format
    }

    /// Check if this texture was imported from external memory (dmabuf).
    pub fn is_external(&self) -> (r: bool)
        ensures
            r == self.external,
    {
        self.external
    }

    /// Check if this texture is y-inverted (flipped vertically).
    ///
    /// This is typically true for textures imported from dmabufs due to different coordinate
    /// conventions between OpenGL and Vulkan/wgpu.
    pub fn y_inverted(&self) -> (r: bool)
        ensures
            r == self.y_inverted,
    {
        self.y_inverted
    }

    /// Check if a texture with this many references has only one. If so, it can be safely removed
    /// from a cache.
    pub fn is_unique(references: usize) -> (r: bool)
        ensures
            r == (references == 1),
    {
        references == 1
    }

    /// Texture width in pixels.
    pub fn width(&self) -> (r: u32)
        ensures
            r == self.width,
    {
        self.width
    }

    /// Texture height in pixels.
    pub fn height(&self) -> (r: u32)
        ensures
            r == self.height,
    {
        self.height
    }

    /// The DRM format of the texture.
    pub fn format(&self) -> (r: Option<DrmFourcc>)
        ensures
            r == texture_fourcc(self.format),
    {
        match self.format {
            TextureFormat::Bgra8Unorm => Some(DrmFourcc::Argb8888),
            TextureFormat::Bgra8UnormSrgb => Some(DrmFourcc::Argb8888),
            TextureFormat::Rgba8Unorm => Some(DrmFourcc::Abgr8888),
            TextureFormat::Rgba8UnormSrgb => Some(DrmFourcc::Abgr8888),
            TextureFormat::Rgb10a2Unorm => Some(DrmFourcc::Argb2101010),
            TextureFormat::R8Unorm => Some(DrmFourcc::R8),
            TextureFormat::Rg8Unorm => Some(DrmFourcc::Rg88),
            TextureFormat::Other => None,
        }
    }
}

/// A texture keeps the format and the dimensions that it was made with. One from a dmabuf is
/// y-inverted, one that was made otherwise is not, unless it was asked for.
pub proof fn law_texture_as_made(
    format: TextureFormat,
    width: u32,
    height: u32,
    external: bool,
    y_inverted: bool,
    usual: WgpuTexture,
    flipped: WgpuTexture,
    plain: WgpuTexture,
)
    requires
        call_ensures(WgpuTexture::new, (format, width, height, external), usual),
        call_ensures(
            WgpuTexture::new_with_flip,
            (format, width, height, external, y_inverted),
            flipped,
        ),
        call_ensures(WgpuTexture::from_wgpu, (format, width, height), plain),
    ensures
        usual.format == format && flipped.format == format && plain.format == format,
        usual.width == width && flipped.width == width && plain.width == width,
        usual.height == height && flipped.height == height && plain.height == height,
        usual.external == external && usual.y_inverted == external,
        flipped.external == external && flipped.y_inverted == y_inverted,
        !plain.external && !plain.y_inverted,
{
}

/// A texture can be removed from a cache if and only if the cache holds the only reference to it.
pub proof fn law_unique_by_references(references: usize, r: bool)
    requires
        call_ensures(WgpuTexture::is_unique, (references,), r),
    ensures
        r <==> references == 1,
{
}

/// What is told of a texture is what it holds.
pub proof fn law_texture_tells(
    texture: WgpuTexture,
    format: TextureFormat,
    width: u32,
    height: u32,
    external: bool,
    y_inverted: bool,
)
    requires
        call_ensures(WgpuTexture::wgpu_format, (&texture,), format),
        call_ensures(WgpuTexture::width, (&texture,), width),
        call_ensures(WgpuTexture::height, (&texture,), height),
        call_ensures(WgpuTexture::is_external, (&texture,), external),
        call_ensures(WgpuTexture::y_inverted, (&texture,), y_inverted),
    ensures
        texture == (WgpuTexture { format, width, height, external, y_inverted }),
{
}

/// The DRM format of a texture has the components of the texture: formats that share one have the
/// same components and differ in their encoding alone.
pub proof fn law_shared_drm_format(a: TextureFormat, b: TextureFormat)
    requires
        a != b,
        texture_fourcc(a) is Some,
    ensures
        texture_fourcc(a) == texture_fourcc(b) <==> (a == TextureFormat::Bgra8Unorm && b
            == TextureFormat::Bgra8UnormSrgb) || (a == TextureFormat::Bgra8UnormSrgb && b
            == TextureFormat::Bgra8Unorm) || (a == TextureFormat::Rgba8Unorm && b
            == TextureFormat::Rgba8UnormSrgb) || (a == TextureFormat::Rgba8UnormSrgb && b
            == TextureFormat::Rgba8Unorm),
{
}

} // verus!
