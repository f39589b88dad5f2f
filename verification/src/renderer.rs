//! Renderer state and decisions: texture cache, filters, uploads, frames and readback.
use crate::bridge::{PollOutcome, SupportedFormatView, WgpuBridge};
use crate::dmabuf::DmabufInfo;
use crate::error::{BridgeErrorView, ImportError, ImportErrorView, RenderError, RenderErrorView,
    Transform};
use crate::format::{DrmFourcc, TextureFormat};
use crate::modifiers::drm_mod;
use crate::pixels::{pack_rows, packed_rows};
use crate::text::{decimal, decimal_text, joined};
use crate::texture::{texture_fourcc, WgpuTexture};
use std::collections::HashMap;
use vstd::prelude::*;
use vstd::slice::*;
use vstd::string::*;

verus! {

broadcast use vstd::std_specs::hash::group_hash_axioms;

/// The alignment of rows in a buffer that a texture is copied to.
pub const COPY_BYTES_PER_ROW_ALIGNMENT: u32 = 256;

/// Texture usage: the texture can be copied from.
pub const TEXTURE_USAGE_COPY_SRC: u32 = 0x1;

/// Shared memory format ARGB8888.
pub const SHM_ARGB8888: u32 = 0;

/// Shared memory format XRGB8888.
pub const SHM_XRGB8888: u32 = 1;

/// Shared memory format ABGR8888.
pub const SHM_ABGR8888: u32 = 0x3432_4241;

/// Shared memory format XBGR8888.
pub const SHM_XBGR8888: u32 = 0x3432_4258;

/// How a texture is filtered when it is scaled.
#[derive(Clone, Copy, Debug, PartialEq, Eq, Structural)]
pub enum TextureFilter {
    Linear,
    Nearest,
}

/// A rectangle.
#[derive(Clone, Copy, Debug, PartialEq, Eq, Structural)]
pub struct Region {
    /// Left edge
    pub x: i32,
    /// Upper edge
    pub y: i32,
    /// Width
    pub width: i32,
    /// Height
    pub height: i32,
}

/// Key for texture cache lookup.
#[derive(Clone, Copy, Debug, PartialEq, Eq, Structural)]
pub struct DmabufKey {
    /// Unique identifier of the dmabuf
    pub id: u64,
}

impl DmabufKey {
    /// The key of a dmabuf: its identity, which no other buffer has.
    pub open spec fn of(dmabuf: DmabufInfo) -> u64 {
        dmabuf.id
    }
}

impl From<&DmabufInfo> for DmabufKey {
    fn from(dmabuf: &DmabufInfo) -> (r: DmabufKey) {
        DmabufKey { id: dmabuf.id }
    }
}

impl vstd::std_specs::convert::FromSpecImpl<&DmabufInfo> for DmabufKey {
    open spec fn obeys_from_spec() -> bool {
        true
    }

    open spec fn from_spec(dmabuf: &DmabufInfo) -> DmabufKey {
        DmabufKey { id: DmabufKey::of(*dmabuf) }
    }
}

/// The keys of the textures to which there is one reference.
pub open spec fn unique_keys(references: Seq<(u64, usize)>) -> Set<u64> {
    Set::new(|key: u64| references.contains((key, 1usize)))
}

/// The state of a renderer, with textures of type `T` in its cache.
pub struct WgpuRenderer<T> {
    /// Texture cache
    texture_cache: HashMap<u64, T>,
    /// Filter for textures that are scaled down
    downscale_filter: TextureFilter,
    /// Filter for textures that are scaled up
    upscale_filter: TextureFilter,
    /// Debug flags
    debug_flags: u32,
}

impl<T> WgpuRenderer<T> {
    /// The cached textures, by the key of their dmabuf.
    pub closed spec fn cache(self) -> Map<u64, T> {
        self.texture_cache@
    }

    /// The filter for textures that are scaled down.
    pub closed spec fn downscale(self) -> TextureFilter {
        self.downscale_filter
    }

    /// The filter for textures that are scaled up.
    pub closed spec fn upscale(self) -> TextureFilter {
        self.upscale_filter
    }

    /// The debug flags.
    pub closed spec fn flags(self) -> u32 {
        self.debug_flags
    }

    /// Whether two renderers differ in their cached textures alone.
    pub open spec fn same_settings(self, other: WgpuRenderer<T>) -> bool {
        &&& self.downscale() == other.downscale()
        &&& self.upscale() == other.upscale()
        &&& self.flags() == other.flags()
    }

    /// A renderer with an empty cache and linear filters.
    pub fn new() -> (r: WgpuRenderer<T>)
        ensures
            r.cache() == Map::<u64, T>::empty(),
            r.downscale() == TextureFilter::Linear,
            r.upscale() == TextureFilter::Linear,
            r.flags() == 0,
    {
        WgpuRenderer {
            texture_cache: HashMap::new(),
            downscale_filter: TextureFilter::Linear,
            upscale_filter: TextureFilter::Linear,
            debug_flags: 0,
        }
    }

    /// Get the cached texture of a dmabuf. Where there is none, the dmabuf is to be imported.
    pub fn get_or_import(&self, dmabuf: &DmabufInfo) -> (r: Option<&T>)
        ensures
            ({
                let key = DmabufKey::of(*dmabuf);
                match r {
                    Some(texture) => self.cache().contains_key(key) && *texture == self.cache()[key],
                    None => !self.cache().contains_key(key),
                }
            }),
    {
        let key = DmabufKey::from(dmabuf);
        self.texture_cache.get(&key.id)
    }

    /// Go on with the imported texture of a dmabuf, which enters the cache, or with why it could
    /// not be imported.
    pub fn dmabuf_imported(&mut self, dmabuf: &DmabufInfo, texture: Result<T, ImportError>) -> (r:
        Result<(), RenderError>)
        ensures
            final(self).same_settings(*old(self)),
            match texture {
                Ok(texture) => r is Ok && final(self).cache() == old(self).cache().insert(
                    DmabufKey::of(*dmabuf),
                    texture,
                ),
                Err(e) => r == Err::<(), RenderError>(RenderError::Import(e)) && final(self).cache() == old(self).cache(),
            },
    {
        match texture {
            Ok(texture) => {
                let key = DmabufKey::from(dmabuf);
                self.texture_cache.insert(key.id, texture);
                Ok(())
            },
            Err(e) => Err(RenderError::from(e)),
        }
    }

    /// The cached textures, by the key of their dmabuf.
    pub fn texture_cache(&self) -> (r: &HashMap<u64, T>)
        ensures
            r@ == self.cache(),
    {
        &self.texture_cache
    }

    /// Remove from the cache the textures that nobody else refers to. `references` holds the number
    /// of references to cached textures, each with the key of its texture.
    pub fn cleanup_texture_cache(&mut self, references: &Vec<(u64, usize)>)
        ensures
            final(self).cache() == old(self).cache().remove_keys(unique_keys(references@)),
            final(self).same_settings(*old(self)),
    {
        let ghost before = self.cache();
        let mut i: usize = 0;
        assert(before.remove_keys(unique_keys(references@.take(0))) =~= before);
        while i < references.len()
            invariant
                i <= references@.len(),
                self.cache() == before.remove_keys(unique_keys(references@.take(i as int))),
                before == old(self).cache(),
                self.same_settings(*old(self)),
            decreases references@.len() - i,
        {
            let (key, count) = references[i];
            let unique = WgpuTexture::is_unique(count);
            if unique {
                self.texture_cache.remove(&key);
            }
            proof {
                let taken = references@.take(i as int);
                let more = references@.take(i + 1);
                assert(more =~= taken.push((key, count)));
                assert forall|k: u64|
                    unique_keys(more).contains(k) == (unique_keys(taken).contains(k) || (unique && k
                        == key)) by {
                    if taken.contains((k, 1usize)) {
                        let j = choose|j: int| 0 <= j < taken.len() && taken[j] == (k, 1usize);
                        assert(more[j] == (k, 1usize));
                    }
                    if unique && k == key {
                        assert(more[i as int] == (k, 1usize));
                    }
                    if more.contains((k, 1usize)) {
                        let j = choose|j: int| 0 <= j < more.len() && more[j] == (k, 1usize);
                        if j < i {
                            assert(taken[j] == (k, 1usize));
                        }
                    }
                }
                assert(self.cache() =~= before.remove_keys(unique_keys(more)));
            }
            i = i + 1;
        }
        assert(references@.take(i as int) =~= references@);
    }

    /// Whether a texture is filtered linearly when it is scaled.
    pub open spec fn spec_linear(self, scaling_up: bool) -> bool {
        if scaling_up {
            self.upscale() == TextureFilter::Linear
        } else {
            self.downscale() == TextureFilter::Linear
        }
    }

    /// Whether a texture is filtered linearly when it is scaled up or down.
    pub fn use_linear_filter(&self, scaling_up: bool) -> (r: bool)
        ensures
            r == self.spec_linear(scaling_up),
    {
        let filter = if scaling_up {
            self.upscale_filter
        } else {
            self.downscale_filter
        };
        match filter {
            TextureFilter::Linear => true,
            TextureFilter::Nearest => false,
        }
    }

    /// Set the filter for textures that are scaled down.
    pub fn downscale_filter(&mut self, filter: TextureFilter)
        ensures
            final(self).downscale() == filter,
            final(self).upscale() == old(self).upscale(),
            final(self).flags() == old(self).flags(),
            final(self).cache() == old(self).cache(),
    {
        self.downscale_filter = filter;
    }

    /// Set the filter for textures that are scaled up.
    pub fn upscale_filter(&mut self, filter: TextureFilter)
        ensures
            final(self).upscale() == filter,
            final(self).downscale() == old(self).downscale(),
            final(self).flags() == old(self).flags(),
            final(self).cache() == old(self).cache(),
    {
        self.upscale_filter = filter;
    }

    /// Set the debug flags.
    pub fn set_debug_flags(&mut self, flags: u32)
        ensures
            final(self).flags() == flags,
            final(self).downscale() == old(self).downscale(),
            final(self).upscale() == old(self).upscale(),
            final(self).cache() == old(self).cache(),
    {
        self.debug_flags = flags;
    }

    /// Get the debug flags.
    pub fn debug_flags(&self) -> (r: u32)
        ensures
            r == self.flags(),
    {
        self.debug_flags
    }
}

/// The dmabuf formats of a renderer: those of its bridge, each with the linear modifier.
pub open spec fn linear_formats(formats: Seq<SupportedFormatView>) -> Seq<(DrmFourcc, u64)> {
    Seq::new(formats.len(), |i: int| (formats[i].fourcc, drm_mod::LINEAR))
}

/// The dmabuf formats of a renderer, as DRM formats with a modifier.
pub fn dmabuf_formats(bridge: &WgpuBridge) -> (r: Vec<(DrmFourcc, u64)>)
    ensures
        r@ == linear_formats(bridge.formats()),
{
    let supported = bridge.supported_formats();
    let mut formats: Vec<(DrmFourcc, u64)> = Vec::new();
    let mut i: usize = 0;
    while i < supported.len()
        invariant
            i <= supported@.len(),
            crate::bridge::format_views(supported@) == bridge.formats(),
            formats@ == Seq::new(
                i as nat,
                |j: int| (bridge.formats()[j].fourcc, drm_mod::LINEAR),
            ),
        decreases supported@.len() - i,
    {
        assert(bridge.formats()[i as int] == supported@[i as int]@);
        formats.push((supported[i].fourcc, drm_mod::LINEAR));
        i = i + 1;
    }
    formats
}

/// The texture format of pixels in memory.
pub open spec fn memory_format(fourcc: DrmFourcc) -> Option<TextureFormat> {
    match fourcc {
        DrmFourcc::Argb8888 | DrmFourcc::Xrgb8888 => Some(TextureFormat::Bgra8Unorm),
        DrmFourcc::Abgr8888 | DrmFourcc::Xbgr8888 => Some(TextureFormat::Rgba8Unorm),
        DrmFourcc::Argb2101010 | DrmFourcc::Xrgb2101010 => Some(TextureFormat::Rgb10a2Unorm),
        DrmFourcc::R8 => Some(TextureFormat::R8Unorm),
        DrmFourcc::Rg88 | DrmFourcc::Gr88 => Some(TextureFormat::Rg8Unorm),
        _ => None,
    }
}

/// The error of a format that pixels in memory cannot have.
pub open spec fn unsupported_memory_format(fourcc: DrmFourcc) -> RenderErrorView {
    RenderErrorView::InvalidFramebuffer("Unsupported format: "@ + fourcc.spec_text())
}

/// Convert a DRM format to the texture format of pixels in memory.
pub fn fourcc_to_wgpu_format(fourcc: DrmFourcc) -> (r: Result<TextureFormat, RenderError>)
    ensures
        match memory_format(fourcc) {
            Some(format) => r == Ok::<TextureFormat, RenderError>(format),
            None => r matches Err(e) && e@ == unsupported_memory_format(fourcc),
        },
{
    match fourcc {
        DrmFourcc::Argb8888 | DrmFourcc::Xrgb8888 => Ok(TextureFormat::Bgra8Unorm),
        DrmFourcc::Abgr8888 | DrmFourcc::Xbgr8888 => Ok(TextureFormat::Rgba8Unorm),
        DrmFourcc::Argb2101010 | DrmFourcc::Xrgb2101010 => Ok(TextureFormat::Rgb10a2Unorm),
        DrmFourcc::R8 => Ok(TextureFormat::R8Unorm),
        DrmFourcc::Rg88 | DrmFourcc::Gr88 => Ok(TextureFormat::Rg8Unorm),
        _ => Err(
            RenderError::InvalidFramebuffer(
                joined("Unsupported format: ", fourcc.text().as_str()),
            ),
        ),
    }
}

/// The bytes of a pixel: four where nothing else is known.
pub open spec fn pixel_bytes(fourcc: DrmFourcc) -> u32 {
    match fourcc {
        DrmFourcc::R8 => 1,
        DrmFourcc::Rg88 | DrmFourcc::Gr88 => 2,
        DrmFourcc::Rgb888 | DrmFourcc::Bgr888 => 3,
        _ => 4,
    }
}

/// Get bytes per pixel for a DRM format.
pub fn fourcc_bytes_per_pixel(fourcc: DrmFourcc) -> (r: u32)
    ensures
        r == pixel_bytes(fourcc),
{
    match fourcc {
        DrmFourcc::Argb8888
        | DrmFourcc::Xrgb8888
        | DrmFourcc::Abgr8888
        | DrmFourcc::Xbgr8888
        | DrmFourcc::Argb2101010
        | DrmFourcc::Xrgb2101010 => 4,
        DrmFourcc::Rgb888 | DrmFourcc::Bgr888 => 3,
        DrmFourcc::Rg88 | DrmFourcc::Gr88 => 2,
        DrmFourcc::R8 => 1,
        _ => 4,
    }
}

/// Convert a texture format to a DRM format. A format without one is taken for ARGB8888.
pub fn wgpu_format_to_fourcc(format: TextureFormat) -> (r: DrmFourcc)
    ensures
        r == match texture_fourcc(format) {
            Some(fourcc) => fourcc,
            None => DrmFourcc::Argb8888,
        },
{
    match format {
        TextureFormat::Bgra8Unorm | TextureFormat::Bgra8UnormSrgb => DrmFourcc::Argb8888,
        TextureFormat::Rgba8Unorm | TextureFormat::Rgba8UnormSrgb => DrmFourcc::Abgr8888,
        TextureFormat::Rgb10a2Unorm => DrmFourcc::Argb2101010,
        TextureFormat::R8Unorm => DrmFourcc::R8,
        TextureFormat::Rg8Unorm => DrmFourcc::Rg88,
        TextureFormat::Other => DrmFourcc::Argb8888,
    }
}

/// The DRM format of a shared memory format.
pub open spec fn shm_fourcc(format: u32) -> Option<DrmFourcc> {
    if format == SHM_ARGB8888 {
        Some(DrmFourcc::Argb8888)
    } else if format == SHM_XRGB8888 {
        Some(DrmFourcc::Xrgb8888)
    } else if format == SHM_ABGR8888 {
        Some(DrmFourcc::Abgr8888)
    } else if format == SHM_XBGR8888 {
        Some(DrmFourcc::Xbgr8888)
    } else {
        None
    }
}

/// Convert a shared memory format to a DRM format.
pub fn shm_format_to_fourcc(format: u32) -> (r: Result<DrmFourcc, RenderError>)
    ensures
        match shm_fourcc(format) {
            Some(fourcc) => r == Ok::<DrmFourcc, RenderError>(fourcc),
            None => r matches Err(e) && e@ == RenderErrorView::Import(
                ImportErrorView::UnsupportedShmFormat,
            ),
        },
{
    if format == SHM_ARGB8888 {
        Ok(DrmFourcc::Argb8888)
    } else if format == SHM_XRGB8888 {
        Ok(DrmFourcc::Xrgb8888)
    } else if format == SHM_ABGR8888 {
        Ok(DrmFourcc::Abgr8888)
    } else if format == SHM_XBGR8888 {
        Ok(DrmFourcc::Xbgr8888)
    } else {
        Err(RenderError::Import(ImportError::UnsupportedShmFormat))
    }
}

/// The error of a shared memory buffer that could not be accessed, with a text that says why.
pub fn shm_access_failed(text: String) -> (r: RenderError)
    ensures
        r@ == RenderErrorView::Import(ImportErrorView::ShmAccess(text@)),
{
    RenderError::Import(ImportError::ShmAccess(text))
}

/// The formats of pixels in memory that are offered to clients.
pub open spec fn offered_formats() -> Seq<DrmFourcc> {
    seq![
        DrmFourcc::Argb8888,
        DrmFourcc::Xrgb8888,
        DrmFourcc::Abgr8888,
        DrmFourcc::Xbgr8888,
        DrmFourcc::R8,
        DrmFourcc::Rg88,
        DrmFourcc::Gr88,
    ]
}

/// The formats of pixels in memory that are offered to clients.
pub fn mem_formats() -> (r: Vec<DrmFourcc>)
    ensures
        r@ == offered_formats(),
{
    let mut formats: Vec<DrmFourcc> = Vec::new();
    formats.push(DrmFourcc::Argb8888);
    formats.push(DrmFourcc::Xrgb8888);
    formats.push(DrmFourcc::Abgr8888);
    formats.push(DrmFourcc::Xbgr8888);
    formats.push(DrmFourcc::R8);
    formats.push(DrmFourcc::Rg88);
    formats.push(DrmFourcc::Gr88);
    formats
}

/// Whether the bytes of an image, and those of one of its rows, fit in 32 bits.
pub open spec fn image_fits(width: u32, height: u32, bpp: u32) -> bool {
    &&& width * height <= u32::MAX
    &&& width * height * bpp <= u32::MAX
    &&& width * bpp <= u32::MAX
}

/// Check that the bytes of an image can be counted in 32 bits.
pub fn image_size_fits(width: u32, height: u32, bpp: u32) -> (r: bool)
    ensures
        r == image_fits(width, height, bpp),
{
    let limit: u64 = u32::MAX as u64;
    proof {
        lemma_product_fits(width as int, height as int);
        lemma_product_fits(width as int, bpp as int);
    }
    let pixels: u64 = width as u64 * height as u64;
    if pixels > limit {
        return false;
    }
    proof {
        lemma_product_fits(pixels as int, bpp as int);
    }
    let bytes: u64 = pixels * bpp as u64;
    let row: u64 = width as u64 * bpp as u64;
    bytes <= limit && row <= limit
}

/// The product of two numbers of 32 bits fits in 64 bits, with room for a third such number.
proof fn lemma_product_fits(a: int, b: int)
    requires
        0 <= a <= u32::MAX,
        0 <= b <= u32::MAX,
    ensures
        0 <= a * b <= u64::MAX - u32::MAX,
{
    assert(0 <= a * b <= u32::MAX * u32::MAX) by (nonlinear_arith)
        requires
            0 <= a <= u32::MAX,
            0 <= b <= u32::MAX,
    ;
}

/// Check that pixels of this size and format can be imported from memory, where the format can.
pub fn memory_size_fits(format: DrmFourcc, width: i32, height: i32) -> (r: bool)
    ensures
        r == (memory_format(format) is Some ==> image_fits(
            width as u32,
            height as u32,
            pixel_bytes(format),
        )),
{
    if fourcc_to_wgpu_format(format).is_err() {
        return true;
    }
    image_size_fits(width as u32, height as u32, fourcc_bytes_per_pixel(format))
}

/// Pixels to be written to a new texture.
#[derive(Clone, Copy, Debug, PartialEq, Eq, Structural)]
pub struct UploadPlan {
    /// The texture to create.
    pub texture: WgpuTexture,
    /// Bytes of a row of the pixels.
    pub bytes_per_row: u32,
}

/// Import pixels from memory: the texture to create and to write them to.
///
/// The texture is not external, and is y-inverted where the pixels are flipped. There have to be
/// enough pixels.
pub fn import_memory(
    data_len: usize,
    format: DrmFourcc,
    width: i32,
    height: i32,
    flipped: bool,
) -> (r: Result<UploadPlan, RenderError>)
    requires
        memory_format(format) is Some ==> image_fits(
            width as u32,
            height as u32,
            pixel_bytes(format),
        ),
    ensures
        ({
            let w = width as u32;
            let h = height as u32;
            let expected = w * h * pixel_bytes(format);
            match memory_format(format) {
                None => r matches Err(e) && e@ == unsupported_memory_format(format),
                Some(wgpu_format) => match r {
                    Ok(plan) => data_len >= expected && plan == (UploadPlan {
                        texture: WgpuTexture {
                            format: wgpu_format,
                            width: w,
                            height: h,
                            external: false,
                            y_inverted: flipped,
                        },
                        bytes_per_row: (w * pixel_bytes(format)) as u32,
                    }),
                    Err(e) => data_len < expected && e@ == RenderErrorView::InvalidFramebuffer(
                        "Buffer too small: "@ + decimal_text(data_len as nat)
                            + " bytes, expected "@ + decimal_text(expected as nat),
                    ),
                },
            }
        }),
{
    let w: u32 = width as u32;
    let h: u32 = height as u32;
    let wgpu_format = match fourcc_to_wgpu_format(format) {
        Ok(wgpu_format) => wgpu_format,
        Err(e) => {
            return Err(e);
        },
    };
    let bytes_per_pixel: u32 = fourcc_bytes_per_pixel(format);
    let expected: u32 = w * h * bytes_per_pixel;
    if data_len < expected as usize {
        let mut text = joined("Buffer too small: ", decimal(data_len as u64).as_str());
        text.append(" bytes, expected ");
        text.append(decimal(expected as u64).as_str());
        return Err(RenderError::InvalidFramebuffer(text));
    }
    Ok(
        UploadPlan {
            texture: WgpuTexture::new_with_flip(wgpu_format, w, h, false, flipped),
            bytes_per_row: w * bytes_per_pixel,
        },
    )
}

/// Pixels to be written to a part of a texture.
#[derive(Clone, Copy, Debug, PartialEq, Eq, Structural)]
pub struct UpdatePlan {
    /// Left edge of the part.
    pub x: u32,
    /// Upper edge of the part.
    pub y: u32,
    /// Width of the part.
    pub width: u32,
    /// Height of the part.
    pub height: u32,
    /// Bytes of a row of the pixels.
    pub bytes_per_row: u32,
}

/// Whether the bytes of a row of a part can be counted in 32 bits. Pixels have four bytes.
pub open spec fn update_fits(region: Region) -> bool {
    region.width as u32 * 4 <= u32::MAX
}

/// Check that the bytes of a row of a part can be counted in 32 bits.
pub fn update_row_fits(region: &Region) -> (r: bool)
    ensures
        r == update_fits(*region),
{
    region.width as u32 as u64 * 4 <= u32::MAX as u64
}

/// Update a part of a texture from memory: where to write the pixels. Each has four bytes.
pub fn update_memory(region: &Region) -> (r: UpdatePlan)
    requires
        update_fits(*region),
    ensures
        r == (UpdatePlan {
            x: region.x as u32,
            y: region.y as u32,
            width: region.width as u32,
            height: region.height as u32,
            bytes_per_row: (region.width as u32 * 4) as u32,
        }),
{
    let width: u32 = region.width as u32;
    UpdatePlan {
        x: region.x as u32,
        y: region.y as u32,
        width,
        height: region.height as u32,
        bytes_per_row: width * 4,
    }
}

/// Pixels of a shared memory buffer, packed, to be written to a new texture.
#[derive(Debug)]
pub struct ShmUpload {
    /// The pixels, row after row.
    pub data: Vec<u8>,
    /// The texture to create.
    pub plan: UploadPlan,
}

/// Whether a shared memory buffer of so many bytes holds all its rows, with offsets in 32 bits.
pub open spec fn shm_fits(len: int, width: u32, height: u32, stride: u32) -> bool {
    &&& image_fits(width, height, 4)
    &&& height > 0 ==> (height - 1) * stride + width * 4 <= len && (height - 1) * stride <= u32::MAX
}

/// Check that a shared memory buffer of so many bytes holds all its rows, where its format can be
/// imported.
pub fn shm_size_fits(len: usize, format: u32, width: i32, height: i32, stride: i32) -> (r: bool)
    ensures
        r == (shm_fourcc(format) is Some ==> shm_fits(
            len as int,
            width as u32,
            height as u32,
            stride as u32,
        )),
{
    if shm_format_to_fourcc(format).is_err() {
        return true;
    }
    let w: u32 = width as u32;
    let h: u32 = height as u32;
    if !image_size_fits(w, h, 4) {
        return false;
    }
    if h == 0 {
        return true;
    }
    proof {
        lemma_product_fits(h - 1, stride as u32 as int);
    }
    let last: u64 = (h - 1) as u64 * (stride as u32) as u64;
    last <= u32::MAX as u64 && last + w as u64 * 4 <= len as u64
}

/// Import a shared memory buffer: its pixels without the padding of the rows, and the texture to
/// create. All shared memory formats have four bytes for each pixel.
pub fn import_shm_buffer(data: &[u8], format: u32, width: i32, height: i32, stride: i32) -> (r:
    Result<ShmUpload, RenderError>)
    requires
        shm_fourcc(format) is Some ==> shm_fits(
            data@.len() as int,
            width as u32,
            height as u32,
            stride as u32,
        ),
    ensures
        match shm_fourcc(format) {
            None => r matches Err(e) && e@ == RenderErrorView::Import(
                ImportErrorView::UnsupportedShmFormat,
            ),
            Some(fourcc) => r matches Ok(upload) && upload.data@ == packed_rows(
                data@,
                0,
                stride as u32 as int,
                width as u32 * 4,
                height as u32 as int,
            ) && upload.plan == (UploadPlan {
                texture: WgpuTexture {
                    format: memory_format(fourcc).unwrap(),
                    width: width as u32,
                    height: height as u32,
                    external: false,
                    y_inverted: false,
                },
                bytes_per_row: (width as u32 * 4) as u32,
            }),
        },
{
    let w: u32 = width as u32;
    let h: u32 = height as u32;
    let row_stride: u32 = stride as u32;
    let fourcc = match shm_format_to_fourcc(format) {
        Ok(fourcc) => fourcc,
        Err(e) => {
            return Err(e);
        },
    };
    let wgpu_format = match fourcc_to_wgpu_format(fourcc) {
        Ok(wgpu_format) => wgpu_format,
        Err(e) => {
            return Err(e);
        },
    };
    let bpp: u32 = fourcc_bytes_per_pixel(fourcc);
    let expected_stride: u32 = w * bpp;
    let packed: Vec<u8> = if row_stride == expected_stride {
        proof {
            assert(w * h * bpp == h * expected_stride) by (nonlinear_arith)
                requires
                    expected_stride == w * bpp,
            ;
            assert(h > 0 ==> (h - 1) * row_stride + expected_stride == h * expected_stride)
                by (nonlinear_arith)
                requires
                    row_stride == expected_stride,
            ;
            assert(h == 0 ==> h * expected_stride == 0) by (nonlinear_arith);
            crate::pixels::law_tight_rows(data@, expected_stride as int, h as int);
        }
        slice_to_vec(slice_subrange(data, 0, (w * h * bpp) as usize))
    } else {
        pack_rows(data, 0, row_stride as usize, expected_stride as usize, h as usize)
    };
    Ok(
        ShmUpload {
            data: packed,
            plan: UploadPlan {
                texture: WgpuTexture::new(wgpu_format, w, h, false),
                bytes_per_row: expected_stride,
            },
        },
    )
}

/// Where the pixels of a shared memory buffer go.
#[derive(Debug)]
pub enum ShmTarget {
    /// To these parts of the texture that is cached for the surface.
    Cached(Vec<Region>),
    /// To a new texture.
    New,
}

/// Where the pixels of a shared memory buffer go: where a texture is cached for the surface, the
/// damaged parts are updated. Without damage, or without a cached texture, there is a new one.
pub fn shm_target(cached: bool, damage: &[Region]) -> (r: ShmTarget)
    ensures
        match r {
            ShmTarget::Cached(parts) => cached && damage@.len() > 0 && parts@ == damage@,
            ShmTarget::New => !cached || damage@.len() == 0,
        },
{
    if cached && damage.len() > 0 {
        ShmTarget::Cached(slice_to_vec(damage))
    } else {
        ShmTarget::New
    }
}

/// A part of the pixels of an image, packed, to be written to the same part of a texture.
#[derive(Debug)]
pub struct RegionUpload {
    /// The pixels, row after row.
    pub data: Vec<u8>,
    /// Where to write them.
    pub plan: UpdatePlan,
}

/// Whether a part of an image lies within its data, with offsets in 32 bits.
pub open spec fn region_fits(len: int, x: u32, y: u32, w: u32, h: u32, full_width: u32, bpp: u32) -> bool {
    &&& y + h <= u32::MAX
    &&& image_fits(w, h, bpp)
    &&& h > 0 ==> (y + h - 1) * full_width + x <= u32::MAX
    &&& h > 0 ==> ((y + h - 1) * full_width + x) * bpp <= u32::MAX
    &&& h > 0 ==> ((y + h - 1) * full_width + x) * bpp + w * bpp <= len
}

/// Check that a part of an image lies within its data, with offsets in 32 bits.
pub fn region_lies_within(len: usize, region: &Region, full_width: u32, bpp: u32) -> (r: bool)
    ensures
        r == region_fits(
            len as int,
            region.x as u32,
            region.y as u32,
            region.width as u32,
            region.height as u32,
            full_width,
            bpp,
        ),
{
    let limit: u64 = u32::MAX as u64;
    let w: u32 = region.width as u32;
    let h: u32 = region.height as u32;
    let bottom: u64 = region.y as u32 as u64 + h as u64;
    if bottom > limit || !image_size_fits(w, h, bpp) {
        return false;
    }
    if h == 0 {
        return true;
    }
    proof {
        lemma_product_fits(bottom - 1, full_width as int);
    }
    let last: u64 = (bottom - 1) * full_width as u64 + region.x as u32 as u64;
    if last > limit {
        return false;
    }
    proof {
        lemma_product_fits(last as int, bpp as int);
        lemma_product_fits(w as int, bpp as int);
    }
    let start: u64 = last * bpp as u64;
    start <= limit && start + w as u64 * bpp as u64 <= len as u64
}

/// Update a part of a texture out of the packed pixels of a whole image of the given width.
pub fn update_texture_region(data: &[u8], region: &Region, full_width: u32, bpp: u32) -> (r:
    RegionUpload)
    requires
        region_fits(
            data@.len() as int,
            region.x as u32,
            region.y as u32,
            region.width as u32,
            region.height as u32,
            full_width,
            bpp,
        ),
    ensures
        r.data@ == packed_rows(
            data@,
            (region.y as u32 * full_width + region.x as u32) * bpp,
            full_width * bpp,
            region.width as u32 * bpp,
            region.height as u32 as int,
        ),
        r.plan == (UpdatePlan {
            x: region.x as u32,
            y: region.y as u32,
            width: region.width as u32,
            height: region.height as u32,
            bytes_per_row: (region.width as u32 * bpp) as u32,
        }),
{
    let x: u32 = region.x as u32;
    let y: u32 = region.y as u32;
    let w: u32 = region.width as u32;
    let h: u32 = region.height as u32;
    let bytes_per_row: u32 = w * bpp;
    let plan = UpdatePlan { x, y, width: w, height: h, bytes_per_row };
    let mut packed: Vec<u8> = Vec::new();
    let mut i: u32 = 0;
    let ghost start = (y * full_width + x) * bpp;
    let ghost stride = full_width * bpp;
    while i < h
        invariant
            i <= h,
            start == (y * full_width + x) * bpp,
            stride == full_width * bpp,
            bytes_per_row == w * bpp,
            region_fits(data@.len() as int, x, y, w, h, full_width, bpp),
            packed@ == packed_rows(data@, start, stride, bytes_per_row as int, i as int),
        decreases h - i,
    {
        let row: u32 = y + i;
        proof {
            assert(row * full_width + x <= (y + h - 1) * full_width + x) by (nonlinear_arith)
                requires
                    row <= y + h - 1,
                    0 <= full_width,
            ;
            assert(0 <= row * full_width) by (nonlinear_arith);
            assert((row * full_width + x) * bpp <= ((y + h - 1) * full_width + x) * bpp)
                by (nonlinear_arith)
                requires
                    row * full_width + x <= (y + h - 1) * full_width + x,
                    0 <= bpp,
            ;
            assert(0 <= (row * full_width + x) * bpp) by (nonlinear_arith)
                requires
                    0 <= row * full_width,
                    0 <= x,
                    0 <= bpp,
            ;
            assert((row * full_width + x) * bpp == start + i * stride) by (nonlinear_arith)
                requires
                    row == y + i,
                    start == (y * full_width + x) * bpp,
                    stride == full_width * bpp,
            ;
        }
        let begin: usize = ((row * full_width + x) * bpp) as usize;
        assert(data@.len() <= usize::MAX) by {
            assert(data.len() <= usize::MAX);
        }
        let line = slice_subrange(data, begin, begin + bytes_per_row as usize);
        packed.extend_from_slice(line);
        assert(packed@ =~= packed_rows(data@, start, stride, bytes_per_row as int, i + 1));
        i = i + 1;
    }
    RegionUpload { data: packed, plan }
}

/// A framebuffer.
#[derive(Clone, Copy, Debug, PartialEq, Eq, Structural)]
pub struct WgpuFramebuffer {
    /// Width in pixels
    pub width: u32,
    /// Height in pixels
    pub height: u32,
    /// Texture format
    pub format: TextureFormat,
}

impl WgpuFramebuffer {
    /// A framebuffer with the usual format.
    pub fn new(width: u32, height: u32) -> (r: WgpuFramebuffer)
        ensures
            r == (WgpuFramebuffer { width, height, format: TextureFormat::Bgra8Unorm }),
    {
        Self::with_format(width, height, TextureFormat::Bgra8Unorm)
    }

    /// A framebuffer with a given format.
    pub fn with_format(width: u32, height: u32, format: TextureFormat) -> (r: WgpuFramebuffer)
        ensures
            r == (WgpuFramebuffer { width, height, format }),
    {
        WgpuFramebuffer { width, height, format }
    }

    /// Get the texture format.
    pub fn format(&self) -> (r: TextureFormat)
        ensures
            r == self.format,
    {
        self.format
    }

    /// Width in pixels.
    pub fn width(&self) -> (r: u32)
        ensures
            r == self.width,
    {
        self.width
    }

    /// Height in pixels.
    pub fn height(&self) -> (r: u32)
        ensures
            r == self.height,
    {
        self.height
    }

    /// The DRM format that is told of a framebuffer, whatever its texture format.
    pub fn fourcc(&self) -> (r: DrmFourcc)
        ensures
            r == DrmFourcc::Argb8888,
    {
        DrmFourcc::Argb8888
    }
}

/// How a frame is cleared.
#[derive(Debug)]
pub enum ClearPlan {
    /// The whole frame at once.
    Whole,
    /// These parts, each as a solid.
    Parts(Vec<Region>),
}

/// An in-progress rendering frame.
#[derive(Debug)]
pub struct WgpuFrame {
    /// Whether commands can still be recorded
    recording: bool,
    /// Output transformation
    transform: Transform,
}

impl WgpuFrame {
    /// Whether commands can still be recorded.
    pub closed spec fn is_recording(self) -> bool {
        self.recording
    }

    /// The output transformation.
    pub closed spec fn spec_transform(self) -> Transform {
        self.transform
    }

    /// Begin a frame.
    pub fn begin(transform: Transform) -> (r: WgpuFrame)
        ensures
            r.is_recording(),
            r.spec_transform() == transform,
    {
        WgpuFrame { recording: true, transform }
    }

    /// Fail where the frame is finished.
    fn require_recording(&self) -> (r: Result<(), RenderError>)
        ensures
            match r {
                Ok(_) => self.is_recording(),
                Err(e) => !self.is_recording() && e@ == RenderErrorView::FrameFinished,
            },
    {
        if self.recording {
            Ok(())
        } else {
            Err(RenderError::FrameFinished)
        }
    }

    /// Clear parts of the frame, or the whole of it where no part is given: how to do so.
    pub fn clear(&self, at: &[Region]) -> (r: Result<ClearPlan, RenderError>)
        ensures
            match r {
                Ok(ClearPlan::Whole) => self.is_recording() && at@.len() == 0,
                Ok(ClearPlan::Parts(parts)) => self.is_recording() && at@.len() > 0 && parts@
                    == at@,
                Err(e) => !self.is_recording() && e@ == RenderErrorView::FrameFinished,
            },
    {
        self.require_recording()?;
        if at.len() == 0 {
            Ok(ClearPlan::Whole)
        } else {
            Ok(ClearPlan::Parts(slice_to_vec(at)))
        }
    }

    /// Draw a solid: possible while the frame is not finished.
    pub fn draw_solid(&self) -> (r: Result<(), RenderError>)
        ensures
            match r {
                Ok(_) => self.is_recording(),
                Err(e) => !self.is_recording() && e@ == RenderErrorView::FrameFinished,
            },
    {
        self.require_recording()
    }

    /// Render a texture: whether it is filtered linearly. Possible while the frame is not finished.
    pub fn render_texture_from_to<T>(&self, renderer: &WgpuRenderer<T>, scaling_up: bool) -> (r:
        Result<bool, RenderError>)
        ensures
            match r {
                Ok(linear) => self.is_recording() && linear == renderer.spec_linear(scaling_up),
                Err(e) => !self.is_recording() && e@ == RenderErrorView::FrameFinished,
            },
    {
        self.require_recording()?;
        Ok(renderer.use_linear_filter(scaling_up))
    }

    /// Get the output transformation.
    pub fn transformation(&self) -> (r: Transform)
        ensures
            r == self.spec_transform(),
    {
        self.transform
    }

    /// Take the recorded commands: whether there are any to submit. There are none a second time.
    /// This is also what happens to a frame that is dropped.
    pub fn take_commands(&mut self) -> (r: bool)
        ensures
            r == old(self).is_recording(),
            !final(self).is_recording(),
            final(self).spec_transform() == old(self).spec_transform(),
    {
        let recorded = self.recording;
        self.recording = false;
        recorded
    }

    /// Finish the frame: whether there are commands to submit, and the number of the frame.
    pub fn finish(&mut self, bridge: &mut WgpuBridge) -> (r: (bool, u64))
        requires
            old(bridge).submitted() < u64::MAX,
        ensures
            r.0 == old(self).is_recording(),
            !final(self).is_recording(),
            final(self).spec_transform() == old(self).spec_transform(),
            r.1 == old(bridge).submitted() + 1,
            final(bridge).submitted() == r.1,
            final(bridge).completed() == old(bridge).completed(),
            final(bridge).same_device(*old(bridge)),
    {
        let recorded = self.take_commands();
        let frame: u64 = bridge.submit_frame();
        (recorded, frame)
    }
}

/// Wait until all submitted work is complete: how waiting for the device ended.
pub fn wait(bridge: &mut WgpuBridge, outcome: PollOutcome) -> (r: Result<(), RenderError>)
    ensures
        final(bridge).submitted() == old(bridge).submitted(),
        final(bridge).same_device(*old(bridge)),
        match outcome {
            PollOutcome::Completed => r is Ok && final(bridge).completed() == old(
                bridge,
            ).submitted(),
            PollOutcome::TimedOut => final(bridge).completed() == old(bridge).completed() && (
            r matches Err(e) && e@ == RenderErrorView::Bridge(
                BridgeErrorView::Sync("Wait timed out"@),
            )),
            PollOutcome::Failed(text) => final(bridge).completed() == old(bridge).completed() && (
            r matches Err(e) && e@ == RenderErrorView::Bridge(
                BridgeErrorView::Sync("poll error: "@ + text@),
            )),
        },
{
    match bridge.wait_idle(outcome) {
        Ok(_) => Ok(()),
        Err(e) => Err(RenderError::from(e)),
    }
}

/// A part of a texture to be copied to memory.
#[derive(Clone, Copy, Debug, PartialEq, Eq, Structural)]
pub struct CopyRequest {
    /// Left edge of the part.
    pub x: u32,
    /// Upper edge of the part.
    pub y: u32,
    /// Width of the part.
    pub width: u32,
    /// Height of the part.
    pub height: u32,
    /// Format of the pixels.
    pub format: DrmFourcc,
    /// Whether the image is flipped vertically.
    pub flipped: bool,
}

/// Whether the edges of a part can be compared with those of an image of this width.
pub open spec fn edges_fit(region: Region, width: u32) -> bool {
    region.x >= 0 && region.y >= 0 ==> {
        &&& region.x + region.width as u32 <= u32::MAX
        &&& region.x + region.width as u32 <= width ==> region.y + region.height as u32 <= u32::MAX
    }
}

/// Check that the edges of a part of an image of this width can be counted in 32 bits.
pub fn edges_are_countable(region: &Region, width: u32) -> (r: bool)
    ensures
        r == edges_fit(*region, width),
{
    if region.x < 0 || region.y < 0 {
        return true;
    }
    let limit: u64 = u32::MAX as u64;
    let right: u64 = region.x as u64 + region.width as u32 as u64;
    let lower: u64 = region.y as u64 + region.height as u32 as u64;
    right <= limit && (right > width as u64 || lower <= limit)
}

/// The part of an image that is copied, or why it cannot be: it begins outside, it ends outside, or
/// its format is not that of the image. The texts say so in the words of the kind of image.
pub open spec fn spec_copy(
    region: Region,
    format: DrmFourcc,
    width: u32,
    height: u32,
    native: Option<DrmFourcc>,
    flipped: bool,
    outside: Seq<char>,
    kind: Seq<char>,
) -> Result<CopyRequest, RenderErrorView> {
    let w = region.width as u32;
    let h = region.height as u32;
    if region.x < 0 || region.y < 0 {
        Err(RenderErrorView::InvalidFramebuffer("Region has negative coordinates"@))
    } else if region.x + w > width || region.y + h > height {
        Err(RenderErrorView::InvalidFramebuffer(outside))
    } else {
        match native {
            None => Err(RenderErrorView::InvalidFramebuffer("Texture has no format"@)),
            Some(native) => if format != native {
                Err(
                    RenderErrorView::InvalidFramebuffer(
                        "Format conversion not supported: requested "@ + format.spec_text() + kind
                            + native.spec_text(),
                    ),
                )
            } else {
                Ok(
                    CopyRequest {
                        x: region.x as u32,
                        y: region.y as u32,
                        width: w,
                        height: h,
                        format,
                        flipped,
                    },
                )
            },
        }
    }
}

/// A result with what its error says.
pub open spec fn told_copy(r: Result<CopyRequest, RenderError>) -> Result<
    CopyRequest,
    RenderErrorView,
> {
    match r {
        Ok(request) => Ok(request),
        Err(e) => Err(e@),
    }
}

/// The part of an image that is copied.
fn copy_request(
    region: &Region,
    format: DrmFourcc,
    width: u32,
    height: u32,
    native: Option<DrmFourcc>,
    flipped: bool,
    outside: &str,
    kind: &str,
) -> (r: Result<CopyRequest, RenderError>)
    requires
        edges_fit(*region, width),
    ensures
        told_copy(r) == spec_copy(*region, format, width, height, native, flipped, outside@, kind@),
{
    if region.x < 0 || region.y < 0 {
        return Err(RenderError::InvalidFramebuffer("Region has negative coordinates".to_owned()));
    }
    let x: u32 = region.x as u32;
    let y: u32 = region.y as u32;
    let w: u32 = region.width as u32;
    let h: u32 = region.height as u32;
    if x + w > width || y + h > height {
        return Err(RenderError::InvalidFramebuffer(outside.to_owned()));
    }
    let native = match native {
        Some(native) => native,
        None => {
            return Err(RenderError::InvalidFramebuffer("Texture has no format".to_owned()));
        },
    };
    if format != native {
        let mut text = joined(
            "Format conversion not supported: requested ",
            format.text().as_str(),
        );
        text.append(kind);
        text.append(native.text().as_str());
        return Err(RenderError::InvalidFramebuffer(text));
    }
    Ok(CopyRequest { x, y, width: w, height: h, format, flipped })
}

/// Copy a part of a framebuffer to memory: the part to copy. Only the framebuffer's own format can
/// be had.
pub fn copy_framebuffer(target: &WgpuFramebuffer, region: &Region, format: DrmFourcc) -> (r: Result<
    CopyRequest,
    RenderError,
>)
    requires
        edges_fit(*region, target.width),
    ensures
        told_copy(r) == spec_copy(
            *region,
            format,
            target.width,
            target.height,
            Some(
                match texture_fourcc(target.format) {
                    Some(fourcc) => fourcc,
                    None => DrmFourcc::Argb8888,
                },
            ),
            false,
            "Region exceeds framebuffer bounds"@,
            ", framebuffer is "@,
        ),
{
    let native = wgpu_format_to_fourcc(target.format);
    copy_request(
        region,
        format,
        target.width,
        target.height,
        Some(native),
        false,
        "Region exceeds framebuffer bounds",
        ", framebuffer is ",
    )
}

/// Copy a part of a texture to memory: the part to copy. Only the texture's own format can be had.
pub fn copy_texture(texture: &WgpuTexture, region: &Region, format: DrmFourcc) -> (r: Result<
    CopyRequest,
    RenderError,
>)
    requires
        edges_fit(*region, texture.width),
    ensures
        told_copy(r) == spec_copy(
            *region,
            format,
            texture.width,
            texture.height,
            texture_fourcc(texture.format),
            texture.y_inverted,
            "Region exceeds texture bounds"@,
            ", texture is "@,
        ),
{
    copy_request(
        region,
        format,
        texture.width,
        texture.height,
        texture.format(),
        texture.y_inverted,
        "Region exceeds texture bounds",
        ", texture is ",
    )
}

/// Whether a texture with these usage flags can be copied to memory.
pub fn can_read_texture(usage: u32) -> (r: bool)
    ensures
        r == crate::vulkan::has_flags(usage, TEXTURE_USAGE_COPY_SRC),
{
    (usage & TEXTURE_USAGE_COPY_SRC) == TEXTURE_USAGE_COPY_SRC
}

/// The next multiple of the alignment of rows.
pub open spec fn aligned_row(bytes: int) -> int {
    (bytes + COPY_BYTES_PER_ROW_ALIGNMENT - 1) / COPY_BYTES_PER_ROW_ALIGNMENT as int
        * COPY_BYTES_PER_ROW_ALIGNMENT
}

/// The buffer that a part of a texture is copied to.
#[derive(Clone, Copy, Debug, PartialEq, Eq, Structural)]
pub struct ReadbackLayout {
    /// Bytes of the pixels of a row.
    pub unpadded_bytes_per_row: u32,
    /// Bytes of a row with its padding.
    pub padded_bytes_per_row: u32,
    /// Bytes of the buffer.
    pub buffer_size: u64,
}

/// How the buffer became accessible.
#[derive(Debug)]
pub enum MapOutcome {
    /// It is mapped.
    Mapped,
    /// Nobody said so.
    ChannelClosed,
    /// It could not be mapped, with a text that says why.
    Failed(String),
}

/// A texture mapping that holds pixel data downloaded from the GPU.
#[derive(Debug)]
pub struct WgpuTextureMapping {
    /// The pixel data
    pub data: Vec<u8>,
    /// Width in pixels
    pub width: u32,
    /// Height in pixels
    pub height: u32,
    /// Format of the data
    pub format: DrmFourcc,
    /// Whether the image is flipped vertically
    pub flipped: bool,
}

impl CopyRequest {
    /// The bytes of the pixels of a row.
    pub open spec fn row_bytes(self) -> int {
        self.width * pixel_bytes(self.format)
    }

    /// Whether the buffer fits in 32 bits.
    pub open spec fn fits(self) -> bool {
        aligned_row(self.row_bytes()) <= u32::MAX && aligned_row(self.row_bytes()) * self.height
            <= u32::MAX
    }

    /// Check that the buffer to copy to can be counted in 32 bits.
    pub fn layout_fits(&self) -> (r: bool)
        ensures
            r == self.fits(),
    {
        let limit: u64 = u32::MAX as u64;
        let bytes_per_pixel: u32 = fourcc_bytes_per_pixel(self.format);
        proof {
            lemma_product_fits(self.width as int, bytes_per_pixel as int);
        }
        let row: u64 = self.width as u64 * bytes_per_pixel as u64;
        if row > limit {
            proof {
                lemma_aligned_row(self.row_bytes());
            }
            return false;
        }
        let align: u64 = COPY_BYTES_PER_ROW_ALIGNMENT as u64;
        let padded: u64 = (row + align - 1) / align * align;
        if padded > limit {
            return false;
        }
        proof {
            lemma_product_fits(padded as int, self.height as int);
        }
        padded * self.height as u64 <= limit
    }

    /// The buffer to copy to. Its rows are aligned.
    pub fn layout(&self) -> (r: ReadbackLayout)
        requires
            self.fits(),
        ensures
            r.unpadded_bytes_per_row == self.row_bytes(),
            r.padded_bytes_per_row == aligned_row(self.row_bytes()),
            r.buffer_size == aligned_row(self.row_bytes()) * self.height,
    {
        let bytes_per_pixel: u32 = fourcc_bytes_per_pixel(self.format);
        proof {
            lemma_aligned_row(self.row_bytes());
            assert(0 <= self.width * bytes_per_pixel) by (nonlinear_arith);
        }
        let unpadded: u32 = self.width * bytes_per_pixel;
        let align: u32 = COPY_BYTES_PER_ROW_ALIGNMENT;
        let blocks: u32 = if unpadded % align == 0 {
            unpadded / align
        } else {
            unpadded / align + 1
        };
        let padded: u32 = blocks * align;
        ReadbackLayout {
            unpadded_bytes_per_row: unpadded,
            padded_bytes_per_row: padded,
            buffer_size: (padded * self.height) as u64,
        }
    }

    /// Finish with the mapped buffer: its pixels without the padding of the rows.
    pub fn read_back(self, mapped: &[u8]) -> (r: WgpuTextureMapping)
        requires
            self.fits(),
            mapped@.len() == aligned_row(self.row_bytes()) * self.height,
        ensures
            r.data@ == packed_rows(
                mapped@,
                0,
                aligned_row(self.row_bytes()),
                self.row_bytes(),
                self.height as int,
            ),
            r.width == self.width,
            r.height == self.height,
            r.format == self.format,
            r.flipped == self.flipped,
    {
        let layout = self.layout();
        let unpadded: u32 = layout.unpadded_bytes_per_row;
        let padded: u32 = layout.padded_bytes_per_row;
        let height: u32 = self.height;
        proof {
            lemma_aligned_row(self.row_bytes());
            assert(padded * height == height * padded) by (nonlinear_arith);
            assert(height > 0 ==> (height - 1) * padded + padded == height * padded)
                by (nonlinear_arith);
        }
        let data: Vec<u8> = if padded == unpadded {
            proof {
                crate::pixels::law_tight_rows(mapped@, unpadded as int, height as int);
                assert(mapped@.take(height * unpadded) =~= mapped@);
            }
            slice_to_vec(mapped)
        } else {
            pack_rows(mapped, 0, padded as usize, unpadded as usize, height as usize)
        };
        WgpuTextureMapping {
            data,
            width: self.width,
            height: self.height,
            format: self.format,
            flipped: self.flipped,
        }
    }
}

/// The next multiple of the alignment is the least one that is not smaller.
proof fn lemma_aligned_row(bytes: int)
    requires
        0 <= bytes,
    ensures
        bytes <= aligned_row(bytes) < bytes + COPY_BYTES_PER_ROW_ALIGNMENT,
        aligned_row(bytes) == if bytes % 256 == 0 {
            bytes / 256 * 256
        } else {
            (bytes / 256 + 1) * 256
        },
{
}

/// What became of the mapping of the buffer.
pub fn buffer_mapped(outcome: MapOutcome) -> (r: Result<(), RenderError>)
    ensures
        match outcome {
            MapOutcome::Mapped => r is Ok,
            MapOutcome::ChannelClosed => r matches Err(e) && e@ == RenderErrorView::Submit(
                "Buffer mapping channel closed"@,
            ),
            MapOutcome::Failed(text) => r matches Err(e) && e@ == RenderErrorView::Submit(
                "buffer mapping failed: "@ + text@,
            ),
        },
{
    match outcome {
        MapOutcome::Mapped => Ok(()),
        MapOutcome::ChannelClosed => Err(
            RenderError::Submit("Buffer mapping channel closed".to_owned()),
        ),
        MapOutcome::Failed(text) => Err(
            RenderError::Submit(joined("buffer mapping failed: ", text.as_str())),
        ),
    }
}

impl WgpuTextureMapping {
    /// The pixel data.
    pub fn data(&self) -> (r: &[u8])
        ensures
            r@ == self.data@,
    {
        self.data.as_slice()
    }

    /// The stride of the data, taken for four bytes a pixel whatever the format.
    pub fn stride(&self) -> (r: u32)
        requires
            self.width * 4 <= u32::MAX,
        ensures
            r == self.width * 4,
    {
        self.width * 4
    }

    /// Width in pixels.
    pub fn width(&self) -> (r: u32)
        ensures
            r == self.width,
    {
        self.width
    }

    /// Height in pixels.
    pub fn height(&self) -> (r: u32)
        ensures
            r == self.height,
    {
        self.height
    }

    /// Format of the data.
    pub fn format(&self) -> (r: Option<DrmFourcc>)
        ensures
            r == Some(self.format),
    {
        Some(self.format)
    }

    /// Whether the image is flipped vertically.
    pub fn flipped(&self) -> (r: bool)
        ensures
            r == self.flipped,
    {
        self.flipped
    }
}

/// Every format that is offered to clients can be imported, and so can every shared memory format.
pub proof fn law_offered_formats_importable(format: u32)
    ensures
        forall|i: int|
            0 <= i < offered_formats().len() ==> memory_format(
                #[trigger] offered_formats()[i],
            ) is Some,
        shm_fourcc(format) matches Some(fourcc) ==> memory_format(fourcc) is Some
            && offered_formats().contains(fourcc) && pixel_bytes(fourcc) == 4,
{
    let offered = offered_formats();
    assert(offered[0] == DrmFourcc::Argb8888);
    assert(offered[1] == DrmFourcc::Xrgb8888);
    assert(offered[2] == DrmFourcc::Abgr8888);
    assert(offered[3] == DrmFourcc::Xbgr8888);
}

/// A texture format that pixels in memory have is told by its DRM format: a texture that was
/// imported from memory can be read back in a format of the same size of pixels.
pub proof fn law_memory_format_told(fourcc: DrmFourcc)
    ensures
        memory_format(fourcc) matches Some(format) ==> (texture_fourcc(format) matches Some(
            native,
        ) && memory_format(native) == Some(format) && pixel_bytes(native) == pixel_bytes(fourcc)),
{
}

/// The DRM format of a texture leads back to the format of the texture, except for the sRGB
/// variants, which share the DRM format of the linear ones.
pub proof fn law_texture_format_round_trip(format: TextureFormat)
    ensures
        texture_fourcc(format) matches Some(fourcc) ==> memory_format(fourcc) == Some(
            match format {
                TextureFormat::Bgra8UnormSrgb => TextureFormat::Bgra8Unorm,
                TextureFormat::Rgba8UnormSrgb => TextureFormat::Rgba8Unorm,
                other => other,
            },
        ),
{
}

/// Different dmabufs have different keys, whatever they have in common: their size, their format or
/// their planes.
pub proof fn law_key_is_unique(a: DmabufInfo, b: DmabufInfo)
    ensures
        DmabufKey::of(a) == DmabufKey::of(b) <==> a.id == b.id,
{
}

/// A dmabuf that was imported is found in the cache until it is removed. Its texture is handed out
/// for no other dmabuf: what the cache holds for another one stays as it was.
pub proof fn law_cache_keeps_imports<T>(
    cache: Map<u64, T>,
    dmabuf: DmabufInfo,
    texture: T,
    other: DmabufInfo,
)
    requires
        other.id != dmabuf.id,
    ensures
        ({
            let after = cache.insert(DmabufKey::of(dmabuf), texture);
            let key = DmabufKey::of(other);
            &&& after.contains_key(DmabufKey::of(dmabuf))
            &&& after[DmabufKey::of(dmabuf)] == texture
            &&& after.contains_key(key) == cache.contains_key(key)
            &&& cache.contains_key(key) ==> after[key] == cache[key]
        }),
{
}

/// Cleaning the cache removes the textures that nobody else refers to, and no others.
pub proof fn law_cleanup_keeps_shared<T>(
    cache: Map<u64, T>,
    references: Seq<(u64, usize)>,
    key: u64,
)
    ensures
        cache.remove_keys(unique_keys(references)).contains_key(key) <==> cache.contains_key(key)
            && !references.contains((key, 1usize)),
        cache.contains_key(key) && !references.contains((key, 1usize)) ==> cache.remove_keys(
            unique_keys(references),
        )[key] == cache[key],
{
}

/// A part of an image that may be copied lies within it.
pub proof fn law_copy_within_bounds(
    region: Region,
    format: DrmFourcc,
    width: u32,
    height: u32,
    native: Option<DrmFourcc>,
    flipped: bool,
    outside: Seq<char>,
    kind: Seq<char>,
)
    ensures
        spec_copy(region, format, width, height, native, flipped, outside, kind) matches Ok(request)
            ==> {
            &&& request.x + request.width <= width
            &&& request.y + request.height <= height
            &&& native == Some(request.format)
        },
{
}

/// What is read back holds as many bytes as its pixels have, whatever the padding of the rows.
pub proof fn law_read_back_size(request: CopyRequest, mapped: Seq<u8>)
    requires
        mapped.len() == aligned_row(request.row_bytes()) * request.height,
    ensures
        packed_rows(
            mapped,
            0,
            aligned_row(request.row_bytes()),
            request.row_bytes(),
            request.height as int,
        ).len() == request.height * request.row_bytes(),
{
    assert(0 <= request.width * pixel_bytes(request.format)) by (nonlinear_arith);
    lemma_aligned_row(request.row_bytes());
    let padded = aligned_row(request.row_bytes());
    let height = request.height as int;
    assert(padded * height == height * padded) by (nonlinear_arith);
    assert(height > 0 ==> (height - 1) * padded + padded == height * padded) by (nonlinear_arith);
    crate::pixels::lemma_packed_len(mapped, 0, padded, request.row_bytes(), height);
}

/// Reading back gives what was rendered: where the rows of a copied part stand in the mapped buffer,
/// each at the start of an aligned row, the data that is read back is exactly these pixels.
pub proof fn law_read_back_gives_pixels(request: CopyRequest, pixels: Seq<u8>, mapped: Seq<u8>)
    requires
        mapped.len() == aligned_row(request.row_bytes()) * request.height,
        pixels.len() == request.height * request.row_bytes(),
        forall|i: int, k: int|
            #![trigger pixels[i * request.row_bytes() + k]]
            0 <= i < request.height && 0 <= k < request.row_bytes() ==> mapped[i * aligned_row(
                request.row_bytes(),
            ) + k] == pixels[i * request.row_bytes() + k],
    ensures
        packed_rows(
            mapped,
            0,
            aligned_row(request.row_bytes()),
            request.row_bytes(),
            request.height as int,
        ) == pixels,
{
    let row = request.row_bytes();
    let padded = aligned_row(row);
    let height = request.height as int;
    assert(0 <= request.width * pixel_bytes(request.format)) by (nonlinear_arith);
    lemma_aligned_row(row);
    law_read_back_size(request, mapped);
    if row == 0 {
        assert(height * row == 0) by (nonlinear_arith)
            requires
                row == 0,
        ;
        assert(packed_rows(mapped, 0, padded, row, height) =~= pixels);
    } else {
        assert(padded * height == height * padded) by (nonlinear_arith);
        assert(height > 0 ==> (height - 1) * padded + padded == height * padded)
            by (nonlinear_arith);
        crate::pixels::law_packing_undoes_padding(pixels, mapped, 0, padded, row, height);
    }
}

/// The pixels of a part that is updated are those of the image at the same place: byte `k` of row
/// `i` of the part stands in row `y + i` of the image, behind its first `x` pixels.
pub proof fn law_region_pixels(
    data: Seq<u8>,
    x: u32,
    y: u32,
    w: u32,
    h: u32,
    full_width: u32,
    bpp: u32,
    i: int,
    k: int,
)
    requires
        region_fits(data.len() as int, x, y, w, h, full_width, bpp),
        0 <= i < h,
        0 <= k < w * bpp,
    ensures
        packed_rows(data, (y * full_width + x) * bpp, full_width * bpp, w * bpp, h as int)[i * (w
            * bpp) + k] == data[((y + i) * full_width + x) * bpp + k],
{
    let start = (y * full_width + x) * bpp;
    let stride = full_width * bpp;
    assert(0 <= start && 0 <= stride) by (nonlinear_arith)
        requires
            start == (y * full_width + x) * bpp,
            stride == full_width * bpp,
    ;
    assert(((y + h - 1) * full_width + x) * bpp == start + (h - 1) * stride) by (nonlinear_arith)
        requires
            start == (y * full_width + x) * bpp,
            stride == full_width * bpp,
    ;
    assert(((y + i) * full_width + x) * bpp == start + i * stride) by (nonlinear_arith)
        requires
            start == (y * full_width + x) * bpp,
            stride == full_width * bpp,
    ;
    crate::pixels::law_packed_bytes(data, start, stride, w * bpp, h as int, i, k);
}

/// A copy of a part of a texture that is granted is that of exactly the region that was asked for: it
/// begins where the region begins and is as large. It is granted if and only if the region has no
/// negative corner, ends within the texture, and is asked for in the texture's own format.
pub proof fn law_texture_copy_is_the_region(
    texture: WgpuTexture,
    region: Region,
    format: DrmFourcc,
    r: Result<CopyRequest, RenderError>,
)
    requires
        call_ensures(copy_texture, (&texture, &region, format), r),
    ensures
        r matches Ok(request) ==> {
            &&& request.x == region.x
            &&& request.y == region.y
            &&& region.width >= 0 ==> request.width == region.width
            &&& region.height >= 0 ==> request.height == region.height
            &&& request.width == region.width as u32 && request.height == region.height as u32
            &&& request.format == format
            &&& request.flipped == texture.y_inverted
        },
        r is Ok <==> region.x >= 0 && region.y >= 0 && region.x + region.width as u32
            <= texture.width && region.y + region.height as u32 <= texture.height && texture_fourcc(
            texture.format,
        ) == Some(format),
        r matches Err(e) ==> e@ == RenderErrorView::InvalidFramebuffer(
            if region.x < 0 || region.y < 0 {
                "Region has negative coordinates"@
            } else if region.x + region.width as u32 > texture.width || region.y
                + region.height as u32 > texture.height {
                "Region exceeds texture bounds"@
            } else if texture.format == TextureFormat::Other {
                "Texture has no format"@
            } else {
                "Format conversion not supported: requested "@ + format.spec_text()
                    + ", texture is "@ + texture_fourcc(texture.format).unwrap().spec_text()
            },
        ),
{
}

/// A copy of a part of a framebuffer that is granted is that of exactly the region that was asked
/// for, and never flipped. It is granted if and only if the region has no negative corner, ends
/// within the framebuffer, and is asked for in the framebuffer's own format.
pub proof fn law_framebuffer_copy_is_the_region(
    target: WgpuFramebuffer,
    region: Region,
    format: DrmFourcc,
    native: DrmFourcc,
    r: Result<CopyRequest, RenderError>,
)
    requires
        call_ensures(wgpu_format_to_fourcc, (target.format,), native),
        call_ensures(copy_framebuffer, (&target, &region, format), r),
    ensures
        r matches Ok(request) ==> {
            &&& request.x == region.x
            &&& request.y == region.y
            &&& region.width >= 0 ==> request.width == region.width
            &&& region.height >= 0 ==> request.height == region.height
            &&& request.width == region.width as u32 && request.height == region.height as u32
            &&& request.format == format
            &&& !request.flipped
        },
        r is Ok <==> region.x >= 0 && region.y >= 0 && region.x + region.width as u32 <= target.width
            && region.y + region.height as u32 <= target.height && format == native,
        r matches Err(e) ==> e@ == RenderErrorView::InvalidFramebuffer(
            if region.x < 0 || region.y < 0 {
                "Region has negative coordinates"@
            } else if region.x + region.width as u32 > target.width || region.y
                + region.height as u32 > target.height {
                "Region exceeds framebuffer bounds"@
            } else {
                "Format conversion not supported: requested "@ + format.spec_text()
                    + ", framebuffer is "@ + native.spec_text()
            },
        ),
{
}

/// The edges of a region can be counted wherever the region lies within the image, and wherever it
/// begins outside: such regions can always be asked for.
pub proof fn law_inner_regions_are_countable(region: Region, width: u32, height: u32, r: bool)
    requires
        call_ensures(edges_are_countable, (&region, width), r),
    ensures
        region.x < 0 || region.y < 0 ==> r,
        region.x + region.width as u32 <= width && region.y + region.height as u32 <= height ==> r,
        region.width >= 0 && region.height >= 0 ==> r,
        r && region.x >= 0 && region.y >= 0 ==> region.x + region.width as u32 <= u32::MAX,
{
    if region.width >= 0 {
        assert(region.width as u32 == region.width);
    }
    if region.height >= 0 {
        assert(region.height as u32 == region.height);
    }
}

/// The texture format of pixels in memory is that of the order of their bytes. Wherever a format can
/// be imported from memory, a dmabuf with the same DRM format is imported with the same texture
/// format.
pub proof fn law_memory_format_is_that_of_dmabufs(
    fourcc: DrmFourcc,
    r: Result<TextureFormat, RenderError>,
    dmabuf: Result<TextureFormat, ImportError>,
)
    requires
        call_ensures(fourcc_to_wgpu_format, (fourcc,), r),
        call_ensures(crate::dmabuf::dmabuf_to_wgpu_format, (fourcc,), dmabuf),
    ensures
        r matches Ok(format) ==> dmabuf == Ok::<TextureFormat, ImportError>(format),
        r is Ok <==> dmabuf is Ok && fourcc != DrmFourcc::Rgb888 && fourcc != DrmFourcc::Bgr888,
{
}

/// Formats that differ only in whether the fourth byte is alpha or unused have the same texture
/// format in memory: their codes differ in the first letter alone, which is `A` or `X`. Formats with
/// the colors in the opposite order have another one.
pub proof fn law_unused_byte_makes_no_difference(
    f: DrmFourcc,
    g: DrmFourcc,
    of_f: Result<TextureFormat, RenderError>,
    of_g: Result<TextureFormat, RenderError>,
)
    requires
        f !is Other,
        g !is Other,
        call_ensures(fourcc_to_wgpu_format, (f,), of_f),
        call_ensures(fourcc_to_wgpu_format, (g,), of_g),
        ({
            let letter = |h: DrmFourcc, i: int| crate::format::code_byte(h.spec_code(), i) as char;
            &&& letter(f, 0) == 'A' || letter(f, 0) == 'X'
            &&& letter(g, 0) == 'A' || letter(g, 0) == 'X'
        }),
    ensures
        ({
            let letter = |h: DrmFourcc, i: int| crate::format::code_byte(h.spec_code(), i) as char;
            &&& of_f is Ok && of_g is Ok
            &&& of_f == of_g <==> letter(f, 1) == letter(g, 1) && letter(f, 2) == letter(g, 2)
            &&& letter(f, 1) == 'B' ==> of_f == Ok::<TextureFormat, RenderError>(
                TextureFormat::Rgba8Unorm,
            )
            &&& letter(f, 1) == 'R' && letter(f, 2) == '2' ==> of_f == Ok::<
                TextureFormat,
                RenderError,
            >(TextureFormat::Bgra8Unorm)
        }),
{
}

/// The bytes of a pixel are those of its texture format: one for one component, two for two, and four
/// for four. Packed RGB, which memory cannot be imported from, has three.
pub proof fn law_pixel_bytes_by_components(
    fourcc: DrmFourcc,
    bytes: u32,
    r: Result<TextureFormat, RenderError>,
    target_bytes: u32,
)
    requires
        call_ensures(fourcc_bytes_per_pixel, (fourcc,), bytes),
        call_ensures(fourcc_to_wgpu_format, (fourcc,), r),
        call_ensures(crate::scanout::format_bytes_per_pixel, (fourcc,), target_bytes),
    ensures
        r matches Ok(format) ==> {
            &&& format == TextureFormat::R8Unorm <==> bytes == 1
            &&& format == TextureFormat::Rg8Unorm <==> bytes == 2
            &&& format != TextureFormat::R8Unorm && format != TextureFormat::Rg8Unorm <==> bytes == 4
        },
        fourcc == DrmFourcc::Rgb888 || fourcc == DrmFourcc::Bgr888 <==> bytes == 3,
        r is Err && bytes != 3 ==> bytes == 4,
        bytes >= 3 ==> target_bytes == bytes,
        bytes < 3 ==> target_bytes == 4,
{
}

/// The DRM format that is told of a texture format has alpha where the texture has four components,
/// and names red first where it has fewer. It is imported from memory with the same components.
pub proof fn law_told_format_has_alpha(format: TextureFormat, fourcc: DrmFourcc)
    requires
        format != TextureFormat::Other,
        call_ensures(wgpu_format_to_fourcc, (format,), fourcc),
    ensures
        ({
            let letter = |i: int| crate::format::code_byte(fourcc.spec_code(), i) as char;
            &&& format == TextureFormat::R8Unorm || format == TextureFormat::Rg8Unorm <==> letter(0)
                == 'R'
            &&& format != TextureFormat::R8Unorm && format != TextureFormat::Rg8Unorm <==> letter(0)
                == 'A'
            &&& format == TextureFormat::Rgba8Unorm || format == TextureFormat::Rgba8UnormSrgb
                <==> letter(1) == 'B'
            &&& format == TextureFormat::Rgb10a2Unorm <==> letter(2) == '3'
        }),
        texture_fourcc(format) == Some(fourcc),
        fourcc !is Other,
{
}

/// The DRM format of a texture is the one that is told of its texture format, and a texture with an
/// unknown format has none.
pub proof fn law_texture_tells_its_format(
    texture: WgpuTexture,
    r: Option<DrmFourcc>,
    fourcc: DrmFourcc,
)
    requires
        call_ensures(WgpuTexture::format, (&texture,), r),
        call_ensures(wgpu_format_to_fourcc, (texture.format,), fourcc),
    ensures
        r is None <==> texture.format == TextureFormat::Other,
        r is Some ==> r == Some(fourcc),
        r is None ==> fourcc == DrmFourcc::Argb8888,
{
}

/// A shared memory format is the code of the DRM format that it stands for, except for the two that
/// Wayland numbers zero and one. No other shared memory format is taken.
pub proof fn law_shm_format_is_the_code(format: u32, r: Result<DrmFourcc, RenderError>)
    requires
        call_ensures(shm_format_to_fourcc, (format,), r),
    ensures
        r matches Ok(fourcc) ==> {
            &&& format == 0 <==> fourcc == DrmFourcc::Argb8888
            &&& format == 1 <==> fourcc == DrmFourcc::Xrgb8888
            &&& format > 1 ==> fourcc.spec_code() == format
        },
        r is Ok <==> format == 0 || format == 1 || format == DrmFourcc::Abgr8888.spec_code()
            || format == DrmFourcc::Xbgr8888.spec_code(),
        r matches Err(e) ==> e@ == RenderErrorView::Import(ImportErrorView::UnsupportedShmFormat),
{
}

/// The formats that are offered to clients are those that can be imported from memory with eight bits
/// for each component, each once.
pub proof fn law_offered_are_importable(
    offered: Vec<DrmFourcc>,
    fourcc: DrmFourcc,
    r: Result<TextureFormat, RenderError>,
)
    requires
        call_ensures(mem_formats, (), offered),
        call_ensures(fourcc_to_wgpu_format, (fourcc,), r),
    ensures
        offered@.contains(fourcc) <==> r is Ok && r != Ok::<TextureFormat, RenderError>(
            TextureFormat::Rgb10a2Unorm,
        ),
        offered@.no_duplicates(),
{
    assert(offered@[0] == DrmFourcc::Argb8888);
    assert(offered@[1] == DrmFourcc::Xrgb8888);
    assert(offered@[2] == DrmFourcc::Abgr8888);
    assert(offered@[3] == DrmFourcc::Xbgr8888);
    assert(offered@[4] == DrmFourcc::R8);
    assert(offered@[5] == DrmFourcc::Rg88);
    assert(offered@[6] == DrmFourcc::Gr88);
}

/// An image with pixels can be counted if and only if all its bytes can be counted in 32 bits.
pub proof fn law_image_counted_by_bytes(width: u32, height: u32, bpp: u32, r: bool)
    requires
        width > 0,
        height > 0,
        bpp > 0,
        call_ensures(image_size_fits, (width, height, bpp), r),
    ensures
        r <==> width * height * bpp <= 0xffff_ffff,
{
    assert(width * height <= width * height * bpp && width * bpp <= width * height * bpp)
        by (nonlinear_arith)
        requires
            width > 0,
            height > 0,
            bpp > 0,
    ;
}

/// Pixels are imported from memory if and only if their format can be imported and there are enough
/// of them. The texture has their dimensions and format, is not external, and is y-inverted where
/// they are flipped. Their rows stand without padding.
pub proof fn law_memory_import(
    data_len: usize,
    format: DrmFourcc,
    width: i32,
    height: i32,
    flipped: bool,
    texture_format: Result<TextureFormat, RenderError>,
    bytes: u32,
    r: Result<UploadPlan, RenderError>,
)
    requires
        image_fits(width as u32, height as u32, bytes),
        call_ensures(fourcc_to_wgpu_format, (format,), texture_format),
        call_ensures(fourcc_bytes_per_pixel, (format,), bytes),
        call_ensures(import_memory, (data_len, format, width, height, flipped), r),
    ensures
        r is Ok <==> texture_format is Ok && data_len >= width as u32 * height as u32 * bytes,
        r matches Ok(plan) ==> {
            &&& plan.texture.width == width as u32 && plan.texture.height == height as u32
            &&& texture_format == Ok::<TextureFormat, RenderError>(plan.texture.format)
            &&& !plan.texture.external
            &&& plan.texture.y_inverted == flipped
            &&& plan.bytes_per_row == plan.texture.width * bytes
        },
        r matches Err(e) ==> e@ == RenderErrorView::InvalidFramebuffer(
            if texture_format is Err {
                "Unsupported format: "@ + format.spec_text()
            } else {
                "Buffer too small: "@ + decimal_text(data_len as nat) + " bytes, expected "@
                    + decimal_text((width as u32 * height as u32 * bytes) as nat)
            },
        ),
{
}

/// Pixels of a format that cannot be imported need no check of their size, and all others can be
/// imported exactly where their bytes can be counted.
pub proof fn law_memory_size_checked(
    format: DrmFourcc,
    width: i32,
    height: i32,
    texture_format: Result<TextureFormat, RenderError>,
    bytes: u32,
    r: bool,
    counted: bool,
)
    requires
        call_ensures(fourcc_to_wgpu_format, (format,), texture_format),
        call_ensures(fourcc_bytes_per_pixel, (format,), bytes),
        call_ensures(memory_size_fits, (format, width, height), r),
        call_ensures(image_size_fits, (width as u32, height as u32, bytes), counted),
    ensures
        r <==> texture_format is Err || counted,
{
}

/// An update goes to the region that was asked for, with rows of four bytes a pixel.
pub proof fn law_update_goes_to_region(region: Region, fits: bool, plan: UpdatePlan)
    requires
        call_ensures(update_row_fits, (&region,), fits),
        fits,
        call_ensures(update_memory, (&region,), plan),
    ensures
        region.x >= 0 ==> plan.x == region.x,
        region.y >= 0 ==> plan.y == region.y,
        region.width >= 0 ==> plan.width == region.width,
        region.height >= 0 ==> plan.height == region.height,
        plan.x == region.x as u32 && plan.y == region.y as u32,
        plan.width == region.width as u32 && plan.height == region.height as u32,
        plan.bytes_per_row == 4 * plan.width,
{
}

/// The rows of a region can be counted if and only if four bytes for each of its pixels can.
pub proof fn law_update_rows_counted(region: Region, fits: bool)
    requires
        call_ensures(update_row_fits, (&region,), fits),
    ensures
        fits <==> (region.width as u32) < 0x4000_0000,
{
}

/// The pixels of a shared memory buffer are taken without the padding of its rows: byte `k` of row
/// `i` of the upload is byte `k` of row `i` of the buffer, where rows begin every `stride` bytes. The
/// texture has the dimensions of the buffer and the format of its pixels. It is neither external nor
/// flipped.
pub proof fn law_shm_pixels(
    data: &[u8],
    format: u32,
    width: i32,
    height: i32,
    stride: i32,
    fits: bool,
    fourcc: DrmFourcc,
    texture_format: TextureFormat,
    r: Result<ShmUpload, RenderError>,
    i: int,
    k: int,
)
    requires
        width > 0,
        height > 0,
        stride >= 0,
        call_ensures(shm_format_to_fourcc, (format,), Ok::<DrmFourcc, RenderError>(fourcc)),
        call_ensures(
            fourcc_to_wgpu_format,
            (fourcc,),
            Ok::<TextureFormat, RenderError>(texture_format),
        ),
        call_ensures(shm_size_fits, (data@.len() as usize, format, width, height, stride), fits),
        data@.len() <= usize::MAX,
        fits,
        call_ensures(import_shm_buffer, (data, format, width, height, stride), r),
        0 <= i < height,
        0 <= k < 4 * width,
    ensures
        r matches Ok(upload) && {
            &&& upload.data@.len() == height * (4 * width)
            &&& upload.data@[i * (4 * width) + k] == data@[i * stride + k]
            &&& upload.plan.texture.width == width && upload.plan.texture.height == height
            &&& upload.plan.texture.format == texture_format
            &&& !upload.plan.texture.external && !upload.plan.texture.y_inverted
            &&& upload.plan.bytes_per_row == 4 * width
        },
{
    crate::pixels::law_packed_bytes(
        data@,
        0,
        stride as int,
        width * 4,
        height as int,
        i,
        k,
    );
    crate::pixels::lemma_packed_len(data@, 0, stride as int, width * 4, height as int);
    assert(height * (4 * width) == height * (width * 4)) by (nonlinear_arith);
}

/// A shared memory format that cannot be imported is refused, whatever the buffer holds.
pub proof fn law_unknown_shm_format_is_refused(
    data: &[u8],
    format: u32,
    width: i32,
    height: i32,
    stride: i32,
    error: RenderError,
    r: Result<ShmUpload, RenderError>,
)
    requires
        call_ensures(shm_format_to_fourcc, (format,), Err::<DrmFourcc, RenderError>(error)),
        call_ensures(import_shm_buffer, (data, format, width, height, stride), r),
    ensures
        r matches Err(e) && e@ == error@,
{
}

/// A shared memory buffer with pixels fits if and only if its bytes can be counted and each of its
/// rows ends within it: the last one is the one that counts.
pub proof fn law_shm_fits_by_last_row(
    len: usize,
    format: u32,
    width: i32,
    height: i32,
    stride: i32,
    fits: bool,
)
    requires
        width > 0,
        height > 0,
        stride >= 0,
        call_ensures(shm_size_fits, (len, format, width, height, stride), fits),
    ensures
        fits && (format == 0 || format == 1) ==> forall|i: int|
            #![trigger i * stride]
            0 <= i < height ==> i * stride + 4 * width <= len,
        (height - 1) * stride + 4 * width <= len && width * height * 4 <= u32::MAX && (height - 1)
            * stride <= u32::MAX ==> fits,
{
    assert forall|i: int|
        #![trigger i * stride]
        0 <= i < height && (height - 1) * stride + 4 * width <= len implies i * stride + 4 * width
        <= len by {
        assert(i * stride <= (height - 1) * stride) by (nonlinear_arith)
            requires
                i <= height - 1,
                stride >= 0,
        ;
    }
    assert(width * height <= width * height * 4 && width * 4 <= width * height * 4)
        by (nonlinear_arith)
        requires
            width > 0,
            height > 0,
    ;
}

/// Damaged parts of a surface whose texture is cached are updated, all of them and no others. In all
/// other cases there is a new texture.
pub proof fn law_damage_updates_cached(cached: bool, damage: &[Region], r: ShmTarget)
    requires
        call_ensures(shm_target, (cached, damage), r),
    ensures
        r is New <==> !cached || damage@.len() == 0,
        r matches ShmTarget::Cached(parts) ==> parts@ == damage@,
{
}

/// A part of an image that is updated goes to its own place, with exactly the pixels that the image
/// has there: byte `k` of row `i` stands in row `y + i` of the image, behind its first `x` pixels.
pub proof fn law_region_upload(
    data: &[u8],
    region: Region,
    full_width: u32,
    bpp: u32,
    fits: bool,
    upload: RegionUpload,
    i: int,
    k: int,
)
    requires
        region.x >= 0 && region.y >= 0 && region.width >= 0 && region.height >= 0,
        data@.len() <= usize::MAX,
        call_ensures(
            region_lies_within,
            (data@.len() as usize, &region, full_width, bpp),
            fits,
        ),
        fits,
        call_ensures(update_texture_region, (data, &region, full_width, bpp), upload),
        0 <= i < region.height,
        0 <= k < region.width * bpp,
    ensures
        upload.plan.x == region.x && upload.plan.y == region.y,
        upload.plan.width == region.width && upload.plan.height == region.height,
        upload.plan.bytes_per_row == region.width * bpp,
        upload.data@[i * (region.width * bpp) + k] == data@[((region.y + i) * full_width + region.x)
            * bpp + k],
{
    law_region_pixels(
        data@,
        region.x as u32,
        region.y as u32,
        region.width as u32,
        region.height as u32,
        full_width,
        bpp,
        i,
        k,
    );
}

/// The buffer that a part of a texture is copied to has rows that begin at multiples of 256 bytes,
/// with the least padding that allows for it. It holds as many rows as the part.
pub proof fn law_rows_are_aligned(
    request: CopyRequest,
    bytes: u32,
    fits: bool,
    layout: ReadbackLayout,
)
    requires
        call_ensures(fourcc_bytes_per_pixel, (request.format,), bytes),
        call_ensures(CopyRequest::layout_fits, (&request,), fits),
        fits,
        call_ensures(CopyRequest::layout, (&request,), layout),
    ensures
        layout.unpadded_bytes_per_row == request.width * bytes,
        layout.padded_bytes_per_row % 256 == 0,
        layout.unpadded_bytes_per_row <= layout.padded_bytes_per_row
            < layout.unpadded_bytes_per_row + 256,
        layout.buffer_size == layout.padded_bytes_per_row * request.height,
{
    assert(0 <= request.width * bytes) by (nonlinear_arith);
    lemma_aligned_row(request.row_bytes());
}

/// The next aligned number of bytes is the least multiple of 256 that is not smaller.
pub proof fn law_alignment_is_least(bytes: int, multiple: int)
    requires
        0 <= bytes,
        multiple % 256 == 0,
        bytes <= multiple,
    ensures
        aligned_row(bytes) % 256 == 0,
        bytes <= aligned_row(bytes) <= multiple,
{
    lemma_aligned_row(bytes);
}

/// What is read back is what stands in the mapped buffer: byte `k` of row `i` is byte `k` of the
/// aligned row `i`. It has the dimensions, the format and the orientation of the copied part.
pub proof fn law_read_back_byte_by_byte(
    request: CopyRequest,
    layout: ReadbackLayout,
    mapped: &[u8],
    mapping: WgpuTextureMapping,
    i: int,
    k: int,
)
    requires
        request.fits(),
        call_ensures(CopyRequest::layout, (&request,), layout),
        mapped@.len() == layout.buffer_size,
        call_ensures(CopyRequest::read_back, (request, mapped), mapping),
        0 <= i < request.height,
        0 <= k < layout.unpadded_bytes_per_row,
    ensures
        mapping.data@[i * layout.unpadded_bytes_per_row + k] == mapped@[i
            * layout.padded_bytes_per_row + k],
        mapping.data@.len() == request.height * layout.unpadded_bytes_per_row,
        mapping.width == request.width && mapping.height == request.height,
        mapping.format == request.format && mapping.flipped == request.flipped,
{
    let row = request.row_bytes();
    let padded = aligned_row(row);
    let height = request.height as int;
    assert(0 <= request.width * pixel_bytes(request.format)) by (nonlinear_arith);
    lemma_aligned_row(row);
    assert(padded * height == height * padded) by (nonlinear_arith);
    assert(height > 0 ==> (height - 1) * padded + padded == height * padded) by (nonlinear_arith);
    crate::pixels::law_packed_bytes(mapped@, 0, padded, row, height, i, k);
}

/// A texture can be read if and only if the lowest usage bit is set. A mapping tells four bytes for
/// each pixel of a row, and the format that was asked for.
pub proof fn law_reading(
    usage: u32,
    r: bool,
    mapping: WgpuTextureMapping,
    stride: u32,
    format: Option<DrmFourcc>,
)
    requires
        call_ensures(can_read_texture, (usage,), r),
        call_ensures(WgpuTextureMapping::stride, (&mapping,), stride),
        call_ensures(WgpuTextureMapping::format, (&mapping,), format),
    ensures
        r <==> usage & 0x1 == 0x1,
        stride == 4 * mapping.width,
        format == Some(mapping.format),
{
}

/// The dmabuf formats of a renderer are the formats of its bridge, in their order, each with the
/// linear modifier.
pub proof fn law_renderer_formats_are_linear(bridge: WgpuBridge, r: Vec<(DrmFourcc, u64)>, i: int)
    requires
        call_ensures(dmabuf_formats, (&bridge,), r),
        0 <= i < bridge.formats().len(),
    ensures
        r@.len() == bridge.formats().len(),
        r@[i].0 == bridge.formats()[i].fourcc,
        r@[i].1 == 0,
{
}

/// A dmabuf whose texture has entered the cache is found there with that texture. For every other
/// dmabuf the cache gives what it gave before.
pub proof fn law_import_is_found<T>(
    renderer: &mut WgpuRenderer<T>,
    dmabuf: DmabufInfo,
    texture: T,
    r: Result<(), RenderError>,
    found: Option<&T>,
    other: DmabufInfo,
    before: Option<&T>,
    after: Option<&T>,
)
    requires
        other.id != dmabuf.id,
        call_ensures(WgpuRenderer::<T>::get_or_import, (old(renderer), &other), before),
        call_ensures(
            WgpuRenderer::<T>::dmabuf_imported,
            (renderer, &dmabuf, Ok::<T, ImportError>(texture)),
            r,
        ),
        call_ensures(WgpuRenderer::<T>::get_or_import, (final(renderer), &dmabuf), found),
        call_ensures(WgpuRenderer::<T>::get_or_import, (final(renderer), &other), after),
    ensures
        r is Ok,
        found == Some(&texture),
        after == before,
        final(renderer).downscale() == old(renderer).downscale(),
        final(renderer).upscale() == old(renderer).upscale(),
        final(renderer).flags() == old(renderer).flags(),
{
}

/// A dmabuf that could not be imported leaves the cache as it was, and its error is told.
pub proof fn law_failed_import_not_cached<T>(
    renderer: &mut WgpuRenderer<T>,
    dmabuf: DmabufInfo,
    error: ImportError,
    r: Result<(), RenderError>,
)
    requires
        call_ensures(
            WgpuRenderer::<T>::dmabuf_imported,
            (renderer, &dmabuf, Err::<T, ImportError>(error)),
            r,
        ),
    ensures
        final(renderer).cache() == old(renderer).cache(),
        r matches Err(e) && e@ == RenderErrorView::Import(error@),
{
}

/// Cleaning removes exactly the textures to which one reference was counted, and changes no setting.
pub proof fn law_cleanup_removes_unique<T>(
    renderer: &mut WgpuRenderer<T>,
    references: Vec<(u64, usize)>,
    key: u64,
)
    requires
        call_ensures(WgpuRenderer::<T>::cleanup_texture_cache, (renderer, &references), ()),
    ensures
        final(renderer).cache().contains_key(key) <==> old(renderer).cache().contains_key(key)
            && forall|i: int|
            0 <= i < references@.len() && (#[trigger] references@[i]).0 == key ==> references@[i].1
                != 1,
        final(renderer).cache().contains_key(key) ==> final(renderer).cache()[key] == old(
            renderer,
        ).cache()[key],
        final(renderer).downscale() == old(renderer).downscale(),
        final(renderer).upscale() == old(renderer).upscale(),
        final(renderer).flags() == old(renderer).flags(),
{
    law_cleanup_keeps_shared(old(renderer).cache(), references@, key);
    if references@.contains((key, 1usize)) {
        let i = choose|i: int| 0 <= i < references@.len() && references@[i] == (key, 1usize);
        assert(references@[i].0 == key);
    } else {
        assert forall|i: int|
            0 <= i < references@.len() && (#[trigger] references@[i]).0 == key implies references@[i].1
            != 1 by {
            if references@[i].1 == 1 {
                assert(references@[i] == (key, 1usize));
            }
        }
    }
}

/// The filter that was set for one direction of scaling is used for that direction, and the other
/// direction keeps its own.
pub proof fn law_filters_by_direction<T>(
    renderer: &mut WgpuRenderer<T>,
    filter: TextureFilter,
    up_before: bool,
    up: bool,
    down: bool,
)
    requires
        call_ensures(WgpuRenderer::<T>::use_linear_filter, (old(renderer), true), up_before),
        call_ensures(WgpuRenderer::<T>::downscale_filter, (renderer, filter), ()),
        call_ensures(WgpuRenderer::<T>::use_linear_filter, (final(renderer), true), up),
        call_ensures(WgpuRenderer::<T>::use_linear_filter, (final(renderer), false), down),
    ensures
        down <==> filter == TextureFilter::Linear,
        up == up_before,
        final(renderer).cache() == old(renderer).cache(),
        final(renderer).flags() == old(renderer).flags(),
{
}

/// The filter that was set for scaling up is used for scaling up alone.
pub proof fn law_upscale_filter_is_used<T>(
    renderer: &mut WgpuRenderer<T>,
    filter: TextureFilter,
    down_before: bool,
    up: bool,
    down: bool,
)
    requires
        call_ensures(WgpuRenderer::<T>::use_linear_filter, (old(renderer), false), down_before),
        call_ensures(WgpuRenderer::<T>::upscale_filter, (renderer, filter), ()),
        call_ensures(WgpuRenderer::<T>::use_linear_filter, (final(renderer), true), up),
        call_ensures(WgpuRenderer::<T>::use_linear_filter, (final(renderer), false), down),
    ensures
        up <==> filter == TextureFilter::Linear,
        down == down_before,
        final(renderer).cache() == old(renderer).cache(),
        final(renderer).flags() == old(renderer).flags(),
{
}

/// Debug flags that were set are the ones that are told, and a new renderer has none, filters
/// linearly and has nothing in its cache.
pub proof fn law_flags_and_new_renderer<T>(
    renderer: &mut WgpuRenderer<T>,
    flags: u32,
    told: u32,
    fresh: WgpuRenderer<T>,
    dmabuf: DmabufInfo,
    found: Option<&T>,
    scaling_up: bool,
    linear: bool,
)
    requires
        call_ensures(WgpuRenderer::<T>::set_debug_flags, (renderer, flags), ()),
        call_ensures(WgpuRenderer::<T>::debug_flags, (final(renderer),), told),
        call_ensures(WgpuRenderer::<T>::new, (), fresh),
        call_ensures(WgpuRenderer::<T>::get_or_import, (&fresh, &dmabuf), found),
        call_ensures(WgpuRenderer::<T>::use_linear_filter, (&fresh, scaling_up), linear),
    ensures
        told == flags,
        final(renderer).cache() == old(renderer).cache(),
        final(renderer).upscale() == old(renderer).upscale(),
        final(renderer).downscale() == old(renderer).downscale(),
        found is None,
        linear,
        fresh.flags() == 0,
{
}

/// A finished frame takes no more commands: whatever is drawn, cleared or rendered afterwards fails,
/// and a second finish finds nothing to submit. While a frame is recorded all of this works.
pub proof fn law_finished_frame_is_closed<T>(
    frame: &mut WgpuFrame,
    bridge: &mut WgpuBridge,
    first: (bool, u64),
    renderer: WgpuRenderer<T>,
    scaling_up: bool,
    at: &[Region],
    solid: Result<(), RenderError>,
    cleared: Result<ClearPlan, RenderError>,
    rendered: Result<bool, RenderError>,
)
    requires
        call_ensures(WgpuFrame::finish, (frame, bridge), first),
        call_ensures(WgpuFrame::draw_solid, (final(frame),), solid),
        call_ensures(WgpuFrame::clear, (final(frame), at), cleared),
        call_ensures(
            WgpuFrame::render_texture_from_to::<T>,
            (final(frame), &renderer, scaling_up),
            rendered,
        ),
    ensures
        solid matches Err(e) && e@ == RenderErrorView::FrameFinished,
        cleared matches Err(e) && e@ == RenderErrorView::FrameFinished,
        rendered matches Err(e) && e@ == RenderErrorView::FrameFinished,
        first.0 == old(frame).is_recording(),
        first.1 == old(bridge).submitted() + 1,
        final(bridge).submitted() == first.1 && final(bridge).completed() == old(bridge).completed(),
        final(frame).spec_transform() == old(frame).spec_transform(),
{
}

/// A frame that was begun can be drawn to, and is cleared as a whole where no part is given, else in
/// the given parts. A texture is rendered with the filter of the renderer for its direction.
pub proof fn law_begun_frame_is_open<T>(
    transform: Transform,
    frame: WgpuFrame,
    told: Transform,
    renderer: WgpuRenderer<T>,
    scaling_up: bool,
    linear: bool,
    at: &[Region],
    solid: Result<(), RenderError>,
    cleared: Result<ClearPlan, RenderError>,
    rendered: Result<bool, RenderError>,
)
    requires
        call_ensures(WgpuFrame::begin, (transform,), frame),
        call_ensures(WgpuFrame::transformation, (&frame,), told),
        call_ensures(WgpuRenderer::<T>::use_linear_filter, (&renderer, scaling_up), linear),
        call_ensures(WgpuFrame::draw_solid, (&frame,), solid),
        call_ensures(WgpuFrame::clear, (&frame, at), cleared),
        call_ensures(
            WgpuFrame::render_texture_from_to::<T>,
            (&frame, &renderer, scaling_up),
            rendered,
        ),
    ensures
        told == transform,
        solid is Ok,
        rendered == Ok::<bool, RenderError>(linear),
        at@.len() == 0 ==> (cleared matches Ok(plan) && plan is Whole),
        at@.len() > 0 ==> (cleared matches Ok(ClearPlan::Parts(parts)) && parts@ == at@),
{
}

/// Commands are taken once: a second time there are none.
pub proof fn law_commands_taken_once(
    frame: &mut WgpuFrame,
    later: &mut WgpuFrame,
    r: bool,
    again: bool,
)
    requires
        call_ensures(WgpuFrame::take_commands, (frame,), r),
        *old(later) == *final(frame),
        call_ensures(WgpuFrame::take_commands, (later,), again),
    ensures
        r == old(frame).is_recording(),
        !again,
        final(later).spec_transform() == old(frame).spec_transform(),
{
}

/// Waiting that ended well leaves no frame incomplete. Waiting that did not leaves the last completed
/// frame as it was, and fails.
pub proof fn law_waiting_completes_all(
    bridge: &mut WgpuBridge,
    outcome: PollOutcome,
    r: Result<(), RenderError>,
)
    requires
        call_ensures(wait, (bridge, outcome), r),
    ensures
        r is Ok <==> outcome is Completed,
        r is Ok ==> final(bridge).completed() == old(bridge).submitted(),
        r is Err ==> final(bridge).completed() == old(bridge).completed(),
        final(bridge).submitted() == old(bridge).submitted(),
        r matches Err(e) ==> e@ is Bridge,
{
}

/// A framebuffer has the dimensions that it was made with, and the common format unless another was
/// asked for. It is told as ARGB8888.
pub proof fn law_framebuffer_as_made(
    width: u32,
    height: u32,
    format: TextureFormat,
    usual: WgpuFramebuffer,
    other: WgpuFramebuffer,
    fourcc: DrmFourcc,
)
    requires
        call_ensures(WgpuFramebuffer::new, (width, height), usual),
        call_ensures(WgpuFramebuffer::with_format, (width, height, format), other),
        call_ensures(WgpuFramebuffer::fourcc, (&other,), fourcc),
    ensures
        usual.width == width && usual.height == height && usual.format == TextureFormat::Bgra8Unorm,
        other.width == width && other.height == height && other.format == format,
        fourcc == DrmFourcc::Argb8888,
{
}

/// A part that lies within an image lies within its data, wherever the bytes of the image can be
/// counted.
pub proof fn law_inner_regions_fit(
    len: usize,
    region: Region,
    full_width: u32,
    full_height: u32,
    bpp: u32,
    r: bool,
)
    requires
        region.x >= 0 && region.y >= 0 && region.width > 0 && region.height > 0,
        region.x + region.width <= full_width,
        region.y + region.height <= full_height,
        bpp > 0,
        full_width * full_height * bpp <= u32::MAX,
        full_width * full_height * bpp <= len,
        call_ensures(region_lies_within, (len, &region, full_width, bpp), r),
    ensures
        r,
{
    let x = region.x as int;
    let y = region.y as int;
    let w = region.width as int;
    let h = region.height as int;
    let last = (y + h - 1) * full_width + x;
    assert(0 <= last && last + w <= full_width * full_height) by (nonlinear_arith)
        requires
            last == (y + h - 1) * full_width + x,
            0 <= x,
            0 <= y,
            0 < w,
            0 < h,
            x + w <= full_width,
            y + h <= full_height,
    ;
    assert((last + w) * bpp <= full_width * full_height * bpp) by (nonlinear_arith)
        requires
            last + w <= full_width * full_height,
            bpp > 0,
    ;
    assert(last * bpp + w * bpp == (last + w) * bpp) by (nonlinear_arith);
    assert(last <= last * bpp && 0 <= w * bpp) by (nonlinear_arith)
        requires
            bpp > 0,
            0 <= last,
            0 < w,
    ;
    assert(w * h <= full_width * full_height) by (nonlinear_arith)
        requires
            0 < w <= full_width,
            0 < h <= full_height,
    ;
    assert(w * h * bpp <= full_width * full_height * bpp) by (nonlinear_arith)
        requires
            w * h <= full_width * full_height,
            bpp > 0,
    ;
    assert(w * h <= w * h * bpp && w * bpp <= w * h * bpp) by (nonlinear_arith)
        requires
            w > 0,
            h > 0,
            bpp > 0,
    ;
}

/// The buffer that a part is copied to can be counted if and only if all its aligned rows can be
/// counted in 32 bits. Where there are none, one of them has to be.
pub proof fn law_buffer_counted(request: CopyRequest, bytes: u32, padded: int, r: bool)
    requires
        call_ensures(fourcc_bytes_per_pixel, (request.format,), bytes),
        padded % 256 == 0,
        request.width * bytes <= padded < request.width * bytes + 256,
        call_ensures(CopyRequest::layout_fits, (&request,), r),
    ensures
        request.height > 0 ==> (r <==> padded * request.height <= 0xffff_ffff),
        request.height == 0 ==> (r <==> padded <= 0xffff_ffff),
{
    assert(0 <= request.width * bytes) by (nonlinear_arith);
    lemma_aligned_row(request.row_bytes());
    assert(padded == aligned_row(request.row_bytes()));
    let height = request.height as int;
    if height > 0 {
        assert(padded <= padded * height) by (nonlinear_arith)
            requires
                height > 0,
                0 <= padded,
        ;
    }
}

/// A buffer that was mapped can be read. One that was not is an error of the submission, with the
/// reason that was given.
pub proof fn law_buffer_mapping(
    outcome: MapOutcome,
    r: Result<(), RenderError>,
    reason: String,
    denied: RenderError,
)
    requires
        call_ensures(buffer_mapped, (outcome,), r),
        call_ensures(shm_access_failed, (reason,), denied),
    ensures
        r is Ok <==> outcome is Mapped,
        outcome is ChannelClosed ==> (r matches Err(e) && e@ == RenderErrorView::Submit(
            "Buffer mapping channel closed"@,
        )),
        outcome matches MapOutcome::Failed(text) ==> (r matches Err(e) && e@
            == RenderErrorView::Submit("buffer mapping failed: "@ + text@)),
        denied@ == RenderErrorView::Import(ImportErrorView::ShmAccess(reason@)),
{
}

/// What is told of a mapping and of a framebuffer is what they hold.
pub proof fn law_mappings_tell(
    mapping: WgpuTextureMapping,
    data: &[u8],
    width: u32,
    height: u32,
    flipped: bool,
    target: WgpuFramebuffer,
    target_width: u32,
    target_height: u32,
    target_format: TextureFormat,
)
    requires
        call_ensures(WgpuTextureMapping::data, (&mapping,), data),
        call_ensures(WgpuTextureMapping::width, (&mapping,), width),
        call_ensures(WgpuTextureMapping::height, (&mapping,), height),
        call_ensures(WgpuTextureMapping::flipped, (&mapping,), flipped),
        call_ensures(WgpuFramebuffer::width, (&target,), target_width),
        call_ensures(WgpuFramebuffer::height, (&target,), target_height),
        call_ensures(WgpuFramebuffer::format, (&target,), target_format),
    ensures
        data@ == mapping.data@,
        width == mapping.width && height == mapping.height && flipped == mapping.flipped,
        target_width == target.width && target_height == target.height,
        target_format == target.format,
{
}

/// An image without pixels, and a part of an image without rows, can be counted wherever a row of it
/// can. A buffer without rows needs no bytes.
pub proof fn law_empty_images_counted(
    width: u32,
    height: u32,
    bpp: u32,
    image: bool,
    len: usize,
    format: u32,
    w: i32,
    stride: i32,
    buffer: bool,
    region: Region,
    full_width: u32,
    part: bool,
)
    requires
        width == 0 || height == 0,
        call_ensures(image_size_fits, (width, height, bpp), image),
        0 <= w < 0x4000_0000,
        call_ensures(shm_size_fits, (len, format, w, 0i32, stride), buffer),
        region.y >= 0 && region.width >= 0 && region.height == 0,
        region.width * bpp <= u32::MAX,
        call_ensures(region_lies_within, (len, &region, full_width, bpp), part),
    ensures
        image <==> width * bpp <= u32::MAX,
        buffer,
        part,
{
    assert(width * height == 0) by (nonlinear_arith)
        requires
            width == 0 || height == 0,
    ;
    assert(width * height * bpp == 0) by (nonlinear_arith)
        requires
            width * height == 0,
    ;
    assert(w * 0 == 0 && region.width * 0 == 0);
    assert(region.width * 0 * bpp == 0) by (nonlinear_arith);
}

} // verus!
