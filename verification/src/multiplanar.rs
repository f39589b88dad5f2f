//! Multi-planar format support for video textures (NV12, P010, etc.)
//!
//! Multi-planar YUV formats need special Vulkan extensions and an import of their own:
//!
//! 1. Create a YCbCr conversion for the color space.
//! 2. Create a disjoint image with memory of its own for each plane.
//! 3. Import the memory of each dmabuf plane.
//! 4. Bind the memories to the planes of the image.
//! 5. Create an image view and a sampler with the conversion.
//!
//! The steps stand here as a chain of values. Each holds what was created so far, says what to
//! create next, and takes what came of it. A failed step tells the error and what to release.
//!
//! | Format | Description | Planes | Bit depth |
//! |--------|-------------|--------|-----------|
//! | NV12   | Y + interleaved UV | 2 | 8-bit |
//! | NV21   | Y + interleaved VU | 2 | 8-bit |
//! | P010   | Y + interleaved UV | 2 | 10-bit |
//! | YUV420 | Y + U + V separate | 3 | 8-bit |
use crate::error::{ImportError, ImportErrorView, ImportFailure};
use crate::extensions::SAMPLER_YCBCR_CONVERSION;
use crate::format::{DrmFourcc, VkFormat};
use crate::text::{decimal, decimal_text, joined, vk_result_debug, vk_result_text, with_vk_result};
use crate::vulkan::{
    api_version, contains_name, find_memory_type_index, FormatFeatures, ImageRequest, ImageTiling,
    Resource, ADDRESS_CLAMP_TO_EDGE, ASPECT_COLOR, ASPECT_PLANE_0, ASPECT_PLANE_1, ASPECT_PLANE_2,
    CHROMA_COSITED_EVEN, FEATURE_DISJOINT, FEATURE_SAMPLED_IMAGE, FILTER_LINEAR,
    MEMORY_DEVICE_LOCAL, MIPMAP_NEAREST, USAGE_SAMPLED, VIEW_TYPE_2D,
};
use vstd::prelude::*;
use vstd::string::*;

verus! {

/// YCbCr color model/matrix.
#[derive(Clone, Copy, Debug, PartialEq, Eq, Structural)]
pub enum YcbcrModel {
    /// ITU-R BT.601 (SDTV)
    Bt601,
    /// ITU-R BT.709 (HDTV)
    Bt709,
    /// ITU-R BT.2020 (UHDTV)
    Bt2020,
    /// Identity (RGB passthrough)
    Identity,
}

/// YCbCr value range.
#[derive(Clone, Copy, Debug, PartialEq, Eq, Structural)]
pub enum YcbcrRange {
    /// ITU narrow range (Y: 16-235, Cb/Cr: 16-240)
    Narrow,
    /// Full range (0-255 for 8-bit, 0-1023 for 10-bit)
    Full,
}

/// Colorspace metadata for YCbCr content.
///
/// The color information needed to convert YUV content to RGB. Where it can be had, it comes from
/// the metadata of a video container, from stream headers or from the Wayland protocol.
#[derive(Clone, Copy, Debug, PartialEq, Eq, Structural)]
pub struct YcbcrColorspace {
    /// Color model/matrix
    pub model: YcbcrModel,
    /// Value range
    pub range: YcbcrRange,
}

/// Multi-planar format descriptor.
#[derive(Clone, Copy, Debug)]
pub struct MultiPlanarFormat {
    /// DRM fourcc code
    pub fourcc: DrmFourcc,
    /// Vulkan format for this planar type
    pub vk_format: VkFormat,
    /// Number of planes
    pub plane_count: u32,
    /// Chroma subsampling factors (horizontal, vertical)
    pub chroma_subsampling: (u32, u32),
    /// Bit depth per component
    pub bit_depth: u32,
    /// YCbCr model (BT.601, BT.709, etc.)
    pub ycbcr_model: YcbcrModel,
    /// YCbCr range (narrow/full)
    pub ycbcr_range: YcbcrRange,
}

/// Plane layout information for a single plane.
#[derive(Clone, Copy, Debug, PartialEq, Eq, Structural)]
pub struct PlaneLayout {
    /// Offset within the buffer
    pub offset: u64,
    /// Row stride in bytes
    pub stride: u32,
    /// Width divisor (1 for Y, 2 for UV in 4:2:0)
    pub width_divisor: u32,
    /// Height divisor (1 for Y, 2 for UV in 4:2:0)
    pub height_divisor: u32,
}

/// Capabilities for multi-planar format support.
#[derive(Clone, Debug)]
pub struct MultiPlanarCapabilities {
    /// Whether `VK_KHR_sampler_ycbcr_conversion` is supported
    pub has_ycbcr_conversion: bool,
    /// Supported multi-planar formats
    pub supported_formats: Vec<DrmFourcc>,
    /// Maximum number of planes supported
    pub max_planes: u32,
}

impl YcbcrModel {
    /// The value of the model in the Vulkan API.
    pub open spec fn spec_vk(self) -> i32 {
        match self {
            YcbcrModel::Identity => 0,
            YcbcrModel::Bt709 => 2,
            YcbcrModel::Bt601 => 3,
            YcbcrModel::Bt2020 => 4,
        }
    }

    /// Convert to the value of a Vulkan sampler YCbCr model.
    pub fn to_vk(self) -> (r: i32)
        ensures
            r == self.spec_vk(),
    {
        match self {
            YcbcrModel::Bt601 => 3,
            YcbcrModel::Bt709 => 2,
            YcbcrModel::Bt2020 => 4,
            YcbcrModel::Identity => 0,
        }
    }
}

impl YcbcrRange {
    /// The value of the range in the Vulkan API.
    pub open spec fn spec_vk(self) -> i32 {
        match self {
            YcbcrRange::Full => 0,
            YcbcrRange::Narrow => 1,
        }
    }

    /// Convert to the value of a Vulkan sampler YCbCr range.
    pub fn to_vk(self) -> (r: i32)
        ensures
            r == self.spec_vk(),
    {
        match self {
            YcbcrRange::Narrow => 1,
            YcbcrRange::Full => 0,
        }
    }
}

impl Default for YcbcrColorspace {
    /// BT.601 narrow range, the most common for video.
    fn default() -> (r: YcbcrColorspace)
        ensures
            r == YcbcrColorspace::narrow(YcbcrModel::Bt601),
    {
        YcbcrColorspace { model: YcbcrModel::Bt601, range: YcbcrRange::Narrow }
    }
}

impl YcbcrColorspace {
    /// A model with the narrow range.
    pub open spec fn narrow(model: YcbcrModel) -> YcbcrColorspace {
        YcbcrColorspace { model, range: YcbcrRange::Narrow }
    }

    /// The colorspace that the number of pixels suggests.
    pub open spec fn for_pixels(pixels: int) -> YcbcrColorspace {
        if pixels > 3840 * 2160 / 2 {
            YcbcrColorspace::narrow(YcbcrModel::Bt2020)
        } else if pixels >= 1280 * 720 {
            YcbcrColorspace::narrow(YcbcrModel::Bt709)
        } else {
            YcbcrColorspace::narrow(YcbcrModel::Bt601)
        }
    }

    /// Create BT.601 colorspace (SDTV standard).
    pub fn bt601() -> (r: YcbcrColorspace)
        ensures
            r == YcbcrColorspace::narrow(YcbcrModel::Bt601),
    {
        YcbcrColorspace { model: YcbcrModel::Bt601, range: YcbcrRange::Narrow }
    }

    /// Create BT.709 colorspace (HDTV standard).
    pub fn bt709() -> (r: YcbcrColorspace)
        ensures
            r == YcbcrColorspace::narrow(YcbcrModel::Bt709),
    {
        YcbcrColorspace { model: YcbcrModel::Bt709, range: YcbcrRange::Narrow }
    }

    /// Create BT.2020 colorspace (UHDTV standard).
    pub fn bt2020() -> (r: YcbcrColorspace)
        ensures
            r == YcbcrColorspace::narrow(YcbcrModel::Bt2020),
    {
        YcbcrColorspace { model: YcbcrModel::Bt2020, range: YcbcrRange::Narrow }
    }

    /// Infer colorspace from video resolution.
    ///
    /// A heuristic for content without metadata. SD content, with fewer pixels than 720p, is
    /// BT.601. HD content, from 720p on, is BT.709. UHD content is BT.2020: 4K and above, and
    /// what has more than half of the pixels of a 3840x2160 frame. Prefer explicit metadata
    /// where there is any.
    pub fn from_resolution(width: u32, height: u32) -> (r: YcbcrColorspace)
        ensures
            r == YcbcrColorspace::for_pixels(width * height),
    {
        proof {
            assert(0 <= width * height <= u32::MAX * u32::MAX) by (nonlinear_arith)
                requires
                    0 <= width <= u32::MAX,
                    0 <= height <= u32::MAX,
            ;
        }
        let pixels: u64 = width as u64 * height as u64;
        if pixels > 3840 * 2160 / 2 {
            Self::bt2020()
        } else if pixels >= 1280 * 720 {
            Self::bt709()
        } else {
            Self::bt601()
        }
    }

    /// Infer colorspace from format and resolution.
    ///
    /// P010 (10-bit) is typically BT.2020 for HDR content. Other formats go by the resolution.
    pub fn from_format_and_resolution(fourcc: DrmFourcc, width: u32, height: u32) -> (r:
        YcbcrColorspace)
        ensures
            r == if fourcc == DrmFourcc::P010 {
                YcbcrColorspace::narrow(YcbcrModel::Bt2020)
            } else {
                YcbcrColorspace::for_pixels(width * height)
            },
    {
        match fourcc {
            DrmFourcc::P010 => Self::bt2020(),
            _ => Self::from_resolution(width, height),
        }
    }
}

/// The Vulkan format of a multi-planar DRM format, its number of planes and its bit depth.
pub open spec fn planar_layout(fourcc: DrmFourcc) -> Option<(VkFormat, u32, u32)> {
    match fourcc {
        DrmFourcc::Nv12 | DrmFourcc::Nv21 => Some((VkFormat::G8B8R82Plane420Unorm, 2, 8)),
        DrmFourcc::P010 => Some((VkFormat::G10X6B10X6R10X62Plane420Unorm3Pack16, 2, 10)),
        DrmFourcc::Yuv420 | DrmFourcc::Yvu420 => Some((VkFormat::G8B8R83Plane420Unorm, 3, 8)),
        _ => None,
    }
}

/// The descriptor of a multi-planar DRM format. All of them have 4:2:0 subsampling.
pub open spec fn planar_format(fourcc: DrmFourcc, colorspace: YcbcrColorspace) -> Option<
    MultiPlanarFormat,
> {
    match planar_layout(fourcc) {
        Some((vk_format, plane_count, bit_depth)) => Some(
            MultiPlanarFormat {
                fourcc,
                vk_format,
                plane_count,
                chroma_subsampling: (2, 2),
                bit_depth,
                ycbcr_model: colorspace.model,
                ycbcr_range: colorspace.range,
            },
        ),
        None => None,
    }
}

/// Get format descriptor for a multi-planar DRM format with the default colorspace.
///
/// For explicit colorspace control, use [`multiplanar_format_with_colorspace`].
pub fn multiplanar_format(fourcc: DrmFourcc) -> (r: Option<MultiPlanarFormat>)
    ensures
        r == planar_format(fourcc, YcbcrColorspace::narrow(YcbcrModel::Bt601)),
{
    multiplanar_format_with_colorspace(fourcc, YcbcrColorspace::default())
}

/// Get format descriptor for a multi-planar DRM format with explicit colorspace.
pub fn multiplanar_format_with_colorspace(fourcc: DrmFourcc, colorspace: YcbcrColorspace) -> (r:
    Option<MultiPlanarFormat>)
    ensures
        r == planar_format(fourcc, colorspace),
{
    let (vk_format, plane_count, bit_depth): (VkFormat, u32, u32) = match fourcc {
        DrmFourcc::Nv12 => (VkFormat::G8B8R82Plane420Unorm, 2, 8),
        DrmFourcc::Nv21 => (VkFormat::G8B8R82Plane420Unorm, 2, 8),
        DrmFourcc::P010 => (VkFormat::G10X6B10X6R10X62Plane420Unorm3Pack16, 2, 10),
        DrmFourcc::Yuv420 => (VkFormat::G8B8R83Plane420Unorm, 3, 8),
        DrmFourcc::Yvu420 => (VkFormat::G8B8R83Plane420Unorm, 3, 8),
        _ => {
            return None;
        },
    };
    Some(
        MultiPlanarFormat {
            fourcc,
            vk_format,
            plane_count,
            chroma_subsampling: (2, 2),
            bit_depth,
            ycbcr_model: colorspace.model,
            ycbcr_range: colorspace.range,
        },
    )
}

/// Check if a DRM format is multi-planar.
pub fn is_multiplanar_format(fourcc: DrmFourcc) -> (r: bool)
    ensures
        r == (planar_layout(fourcc) is Some),
{
    multiplanar_format(fourcc).is_some()
}

/// The bytes of one sample of a plane.
pub open spec fn bytes_per_sample(format: MultiPlanarFormat) -> int {
    if format.bit_depth > 8 {
        2
    } else {
        1
    }
}

/// The bytes of a row of a plane. The second plane of two holds two interleaved components.
pub open spec fn plane_stride(format: MultiPlanarFormat, width: u32, plane: int) -> int {
    if plane == 0 {
        width * bytes_per_sample(format)
    } else if format.plane_count == 2 {
        (width as int / format.chroma_subsampling.0 as int) * 2 * bytes_per_sample(format)
    } else {
        (width as int / format.chroma_subsampling.0 as int) * bytes_per_sample(format)
    }
}

/// The rows of a plane.
pub open spec fn plane_rows(format: MultiPlanarFormat, height: u32, plane: int) -> int {
    if plane == 0 {
        height as int
    } else {
        height as int / format.chroma_subsampling.1 as int
    }
}

/// The start of a plane: the planes lie one behind the other.
pub open spec fn plane_offset(format: MultiPlanarFormat, width: u32, height: u32, plane: int) -> int
    decreases plane,
{
    if plane <= 0 {
        0
    } else {
        plane_offset(format, width, height, plane - 1) + plane_stride(format, width, plane - 1)
            * plane_rows(format, height, plane - 1)
    }
}

/// The layout of a plane.
pub open spec fn is_plane_layout(
    layout: PlaneLayout,
    format: MultiPlanarFormat,
    width: u32,
    height: u32,
    plane: int,
) -> bool {
    &&& layout.offset == plane_offset(format, width, height, plane)
    &&& layout.stride == plane_stride(format, width, plane)
    &&& layout.width_divisor == if plane == 0 {
        1
    } else {
        format.chroma_subsampling.0
    }
    &&& layout.height_divisor == if plane == 0 {
        1
    } else {
        format.chroma_subsampling.1
    }
}

/// Whether the layout of a format with two or three planes fits in 32 bits.
pub open spec fn layout_fits(format: MultiPlanarFormat, width: u32, height: u32) -> bool {
    &&& format.chroma_subsampling.0 > 0
    &&& format.chroma_subsampling.1 > 0
    &&& width * bytes_per_sample(format) <= u32::MAX
    &&& width * bytes_per_sample(format) * height <= u32::MAX
    &&& plane_stride(format, width, 1) <= u32::MAX
}

/// Calculate plane layouts for a multi-planar format. There are none for a format with other than
/// two or three planes.
pub fn calculate_plane_layouts(format: &MultiPlanarFormat, width: u32, height: u32) -> (r: Vec<
    PlaneLayout,
>)
    requires
        format.plane_count == 2 || format.plane_count == 3 ==> layout_fits(*format, width, height),
    ensures
        r@.len() == if format.plane_count == 2 || format.plane_count == 3 {
            format.plane_count as nat
        } else {
            0
        },
        forall|i: int|
            0 <= i < r@.len() ==> is_plane_layout(#[trigger] r@[i], *format, width, height, i),
{
    let mut layouts: Vec<PlaneLayout> = Vec::new();
    if format.plane_count != 2 && format.plane_count != 3 {
        return layouts;
    }
    let bytes_per_sample: u32 = if format.bit_depth > 8 {
        2
    } else {
        1
    };
    reveal_with_fuel(plane_offset, 4);

    let y_stride: u32 = width * bytes_per_sample;
    layouts.push(PlaneLayout { offset: 0, stride: y_stride, width_divisor: 1, height_divisor: 1 });
    let y_size: u32 = y_stride * height;

    let chroma_width: u32 = width / format.chroma_subsampling.0;
    let chroma_height: u32 = height / format.chroma_subsampling.1;
    if format.plane_count == 2 {
        proof {
            lemma_chroma_fits(*format, width, height);
        }
        let uv_stride: u32 = chroma_width * 2 * bytes_per_sample;
        layouts.push(
            PlaneLayout {
                offset: y_size as u64,
                stride: uv_stride,
                width_divisor: format.chroma_subsampling.0,
                height_divisor: format.chroma_subsampling.1,
            },
        );
    } else {
        proof {
            lemma_chroma_fits(*format, width, height);
        }
        let u_stride: u32 = chroma_width * bytes_per_sample;
        layouts.push(
            PlaneLayout {
                offset: y_size as u64,
                stride: u_stride,
                width_divisor: format.chroma_subsampling.0,
                height_divisor: format.chroma_subsampling.1,
            },
        );
        let u_size: u32 = u_stride * chroma_height;
        layouts.push(
            PlaneLayout {
                offset: y_size as u64 + u_size as u64,
                stride: u_stride,
                width_divisor: format.chroma_subsampling.0,
                height_divisor: format.chroma_subsampling.1,
            },
        );
    }
    layouts
}

/// A chroma plane is no larger than the luma plane, so it fits in 32 bits where that does.
proof fn lemma_chroma_fits(format: MultiPlanarFormat, width: u32, height: u32)
    requires
        layout_fits(format, width, height),
    ensures
        ({
            let w = width as int / format.chroma_subsampling.0 as int;
            let h = height as int / format.chroma_subsampling.1 as int;
            &&& 0 <= w <= width
            &&& 0 <= h <= height
            &&& 0 <= w * bytes_per_sample(format) <= u32::MAX
            &&& 0 <= w * bytes_per_sample(format) * h <= u32::MAX
            &&& format.plane_count == 2 ==> 0 <= w * 2 <= u32::MAX
        }),
{
    let w = width as int / format.chroma_subsampling.0 as int;
    let h = height as int / format.chroma_subsampling.1 as int;
    let b = bytes_per_sample(format);
    vstd::arithmetic::div_mod::lemma_div_is_ordered_by_denominator(
        width as int,
        1,
        format.chroma_subsampling.0 as int,
    );
    vstd::arithmetic::div_mod::lemma_div_is_ordered_by_denominator(
        height as int,
        1,
        format.chroma_subsampling.1 as int,
    );
    vstd::arithmetic::div_mod::lemma_div_pos_is_pos(
        width as int,
        format.chroma_subsampling.0 as int,
    );
    vstd::arithmetic::div_mod::lemma_div_pos_is_pos(
        height as int,
        format.chroma_subsampling.1 as int,
    );
    assert(0 <= w <= width && 0 <= h <= height);
    assert(0 <= w * b <= width * b) by (nonlinear_arith)
        requires
            0 <= w <= width,
            0 <= b,
    ;
    assert(0 <= w * b * h <= width * b * height) by (nonlinear_arith)
        requires
            0 <= w * b <= width * b,
            0 <= h <= height,
    ;
}

impl Default for MultiPlanarCapabilities {
    /// No multi-planar support.
    fn default() -> (r: MultiPlanarCapabilities)
        ensures
            r.is_none(),
    {
        MultiPlanarCapabilities {
            has_ycbcr_conversion: false,
            supported_formats: Vec::new(),
            max_planes: 0,
        }
    }
}

/// The multi-planar formats that are looked for on a device.
pub open spec fn planar_candidates() -> Seq<(DrmFourcc, VkFormat)> {
    seq![
        (DrmFourcc::Nv12, VkFormat::G8B8R82Plane420Unorm),
        (DrmFourcc::Nv21, VkFormat::G8B8R82Plane420Unorm),
        (DrmFourcc::P010, VkFormat::G10X6B10X6R10X62Plane420Unorm3Pack16),
        (DrmFourcc::Yuv420, VkFormat::G8B8R83Plane420Unorm),
    ]
}

/// Whether images of a multi-planar format can be sampled and have memory of their own for each
/// plane.
pub open spec fn planar_usable(features: FormatFeatures) -> bool {
    features.spec_supports(FEATURE_SAMPLED_IMAGE) && features.spec_supports(FEATURE_DISJOINT)
}

/// The usable ones of the first `n` formats, in order.
pub open spec fn usable_formats(
    candidates: Seq<(DrmFourcc, VkFormat)>,
    features: Seq<FormatFeatures>,
    n: int,
) -> Seq<DrmFourcc>
    decreases n,
{
    if n <= 0 {
        Seq::empty()
    } else if planar_usable(features[n - 1]) {
        usable_formats(candidates, features, n - 1).push(candidates[n - 1].0)
    } else {
        usable_formats(candidates, features, n - 1)
    }
}

impl MultiPlanarCapabilities {
    /// Whether there is no multi-planar support.
    pub open spec fn is_none(self) -> bool {
        !self.has_ycbcr_conversion && self.supported_formats@ == Seq::<DrmFourcc>::empty()
            && self.max_planes == 0
    }

    /// Whether a device with these extensions and this API version converts YCbCr: it has the
    /// extension, or Vulkan 1.1, of which it is a part.
    pub open spec fn spec_converts(extensions: Option<Seq<Seq<char>>>, api_version: u32) -> bool {
        extensions matches Some(names) && (names.contains(SAMPLER_YCBCR_CONVERSION@) || api_version
            >= crate::vulkan::packed_version(0, 1, 1, 0))
    }

    /// The formats whose features [`MultiPlanarCapabilities::query`] wants to know, in order.
    pub fn candidate_formats() -> (r: Vec<(DrmFourcc, VkFormat)>)
        ensures
            r@ == planar_candidates(),
    {
        let mut candidates: Vec<(DrmFourcc, VkFormat)> = Vec::new();
        candidates.push((DrmFourcc::Nv12, VkFormat::G8B8R82Plane420Unorm));
        candidates.push((DrmFourcc::Nv21, VkFormat::G8B8R82Plane420Unorm));
        candidates.push((DrmFourcc::P010, VkFormat::G10X6B10X6R10X62Plane420Unorm3Pack16));
        candidates.push((DrmFourcc::Yuv420, VkFormat::G8B8R83Plane420Unorm));
        candidates
    }

    /// Whether a device with these extensions and this API version converts YCbCr. `None` stands
    /// for extensions that could not be listed.
    pub fn converts(extensions: Option<&Vec<String>>, device_version: u32) -> (r: bool)
        ensures
            r == Self::spec_converts(crate::vulkan::listed(extensions), device_version),
    {
        match extensions {
            Some(names) => contains_name(names, SAMPLER_YCBCR_CONVERSION) || device_version
                >= api_version(0, 1, 1, 0),
            None => false,
        }
    }

    /// The capabilities of a physical device with these extensions and this API version, of which
    /// the features of the candidate formats are known. `None` stands for extensions that could
    /// not be listed.
    pub fn query(
        extensions: Option<&Vec<String>>,
        device_version: u32,
        features: &Vec<FormatFeatures>,
    ) -> (r: MultiPlanarCapabilities)
        requires
            Self::spec_converts(crate::vulkan::listed(extensions), device_version)
                ==> features@.len() == planar_candidates().len(),
        ensures
            if Self::spec_converts(crate::vulkan::listed(extensions), device_version) {
                &&& r.has_ycbcr_conversion
                &&& r.supported_formats@ == usable_formats(planar_candidates(), features@, 4)
                &&& r.max_planes == 3
            } else {
                r.is_none()
            },
    {
        if !Self::converts(extensions, device_version) {
            return MultiPlanarCapabilities::default();
        }
        let candidates = Self::candidate_formats();
        let mut supported_formats: Vec<DrmFourcc> = Vec::new();
        let mut i: usize = 0;
        while i < candidates.len()
            invariant
                i <= candidates@.len(),
                candidates@ == planar_candidates(),
                features@.len() == candidates@.len(),
                supported_formats@ == usable_formats(candidates@, features@, i as int),
            decreases candidates@.len() - i,
        {
            let can_sample = features[i].supports(FEATURE_SAMPLED_IMAGE);
            let has_disjoint = features[i].supports(FEATURE_DISJOINT);
            if can_sample && has_disjoint {
                supported_formats.push(candidates[i].0);
            }
            i = i + 1;
        }
        MultiPlanarCapabilities { has_ycbcr_conversion: true, supported_formats, max_planes: 3 }
    }

    /// Whether a specific format is supported.
    pub open spec fn spec_supports(self, fourcc: DrmFourcc) -> bool {
        self.has_ycbcr_conversion && self.supported_formats@.contains(fourcc)
    }

    /// Check if a specific format is supported.
    pub fn supports_format(&self, fourcc: DrmFourcc) -> (r: bool)
        ensures
            r == self.spec_supports(fourcc),
    {
        if !self.has_ycbcr_conversion {
            return false;
        }
        let mut i: usize = 0;
        while i < self.supported_formats.len()
            invariant
                i <= self.supported_formats@.len(),
                self.has_ycbcr_conversion,
                forall|j: int| 0 <= j < i ==> self.supported_formats@[j] != fourcc,
            decreases self.supported_formats@.len() - i,
        {
            if self.supported_formats[i] == fourcc {
                return true;
            }
            i = i + 1;
        }
        false
    }
}

/// How the components of an image are rearranged, each as a value of the Vulkan API.
#[derive(Clone, Copy, Debug, PartialEq, Eq, Structural)]
pub struct ComponentMapping {
    pub r: i32,
    pub g: i32,
    pub b: i32,
    pub a: i32,
}

/// The mapping that leaves every component where it is.
pub open spec fn identity_mapping() -> ComponentMapping {
    ComponentMapping { r: 0, g: 0, b: 0, a: 0 }
}

/// Get component mapping for a format: the identity for every one, NV21 and YVU420 among them.
pub fn get_component_mapping(fourcc: DrmFourcc) -> (r: ComponentMapping)
    ensures
        r == identity_mapping(),
{
    match fourcc {
        DrmFourcc::Nv21 => ComponentMapping { r: 0, g: 0, b: 0, a: 0 },
        DrmFourcc::Yvu420 => ComponentMapping { r: 0, g: 0, b: 0, a: 0 },
        _ => ComponentMapping { r: 0, g: 0, b: 0, a: 0 },
    }
}

/// A YCbCr conversion to be created.
#[derive(Clone, Copy, Debug, PartialEq, Eq, Structural)]
pub struct ConversionRequest {
    /// Format of the images.
    pub format: VkFormat,
    /// Value of the color model.
    pub ycbcr_model: i32,
    /// Value of the range.
    pub ycbcr_range: i32,
    /// Mapping of the components.
    pub components: ComponentMapping,
    /// Horizontal place of the chroma samples.
    pub x_chroma_offset: i32,
    /// Vertical place of the chroma samples.
    pub y_chroma_offset: i32,
    /// How chroma samples are filtered.
    pub chroma_filter: i32,
    /// Whether chroma samples are reconstructed explicitly.
    pub force_explicit_reconstruction: bool,
}

/// The view of an image to be created: of the whole image, through its YCbCr conversion.
#[derive(Clone, Copy, Debug, PartialEq, Eq, Structural)]
pub struct ViewRequest {
    /// The image.
    pub image: u64,
    /// Format of the image.
    pub format: VkFormat,
    /// The YCbCr conversion.
    pub conversion: u64,
    /// Type of the view.
    pub view_type: i32,
    /// Aspects of the image.
    pub aspect: u32,
    /// First mip level.
    pub base_mip_level: u32,
    /// Number of mip levels.
    pub level_count: u32,
    /// First layer.
    pub base_array_layer: u32,
    /// Number of layers.
    pub layer_count: u32,
}

/// The sampler of an image to be created, with the YCbCr conversion of the image.
#[derive(Clone, Copy, Debug, PartialEq, Eq, Structural)]
pub struct SamplerRequest {
    /// The YCbCr conversion.
    pub conversion: u64,
    /// Filter for images that are scaled up.
    pub mag_filter: i32,
    /// Filter for images that are scaled down.
    pub min_filter: i32,
    /// What lies beside the image, in all directions.
    pub address_mode: i32,
    /// How mip levels are chosen.
    pub mipmap_mode: i32,
    /// Whether coordinates are those of texels.
    pub unnormalized_coordinates: bool,
}

/// A plane of a multi-planar image whose memory is to be imported next.
#[derive(Clone, Copy, Debug, PartialEq, Eq, Structural)]
pub struct PlaneRequest {
    /// Index of the plane.
    pub index: u32,
    /// Aspect flag of the plane.
    pub aspect: u32,
    /// File descriptor of the dmabuf plane, to be duplicated.
    pub fd: i32,
}

/// Memory to be bound to a plane of an image.
#[derive(Clone, Copy, Debug, PartialEq, Eq, Structural)]
pub struct PlaneBinding {
    /// The image.
    pub image: u64,
    /// The memory of the plane.
    pub memory: u64,
    /// Offset of the plane within the memory.
    pub offset: u64,
    /// Aspect flag of the plane.
    pub aspect: u32,
}

/// A multi-planar dmabuf that is to be imported. The YCbCr conversion comes first.
#[derive(Debug)]
pub struct PlanarImport {
    /// Format of the texture.
    pub format: MultiPlanarFormat,
    /// Width in pixels.
    pub width: u32,
    /// Height in pixels.
    pub height: u32,
    /// File descriptors of the planes.
    pub plane_fds: Vec<i32>,
    /// Offsets of the planes.
    pub plane_offsets: Vec<u32>,
}

/// An import that has its YCbCr conversion. The image comes next.
#[derive(Debug)]
pub struct PlanarConversion {
    /// What is imported.
    pub import: PlanarImport,
    /// The YCbCr conversion.
    pub conversion: u64,
}

/// An import that has its image. The memories of the planes come next.
#[derive(Debug)]
pub struct PlanarImage {
    /// What is imported.
    pub import: PlanarImport,
    /// The YCbCr conversion.
    pub conversion: u64,
    /// The disjoint image.
    pub image: u64,
    /// The memories of the planes imported so far.
    pub plane_memories: Vec<u64>,
}

/// An import with memory bound to all planes. The image view comes next.
#[derive(Debug)]
pub struct BoundPlanes {
    /// What was bound.
    pub planes: PlanarImage,
}

/// An import that has its image view. The sampler comes next.
#[derive(Debug)]
pub struct PlanarView {
    /// What was bound.
    pub planes: PlanarImage,
    /// The image view.
    pub image_view: u64,
}

/// Imported multi-planar texture with YCbCr conversion.
///
/// All the Vulkan resources needed to sample a multi-planar texture.
#[derive(Debug)]
pub struct MultiPlanarTexture {
    /// The Vulkan image
    pub image: u64,
    /// Image view with YCbCr conversion
    pub image_view: u64,
    /// YCbCr conversion object
    pub ycbcr_conversion: u64,
    /// Sampler with YCbCr conversion
    pub sampler: u64,
    /// Memory allocations for each plane
    pub plane_memories: Vec<u64>,
    /// Texture width
    pub width: u32,
    /// Texture height
    pub height: u32,
    /// Format information
    pub format: MultiPlanarFormat,
}

/// The aspect flag of a plane.
pub open spec fn spec_plane_aspect(index: int) -> u32 {
    if index == 0 {
        ASPECT_PLANE_0
    } else if index == 1 {
        ASPECT_PLANE_1
    } else {
        ASPECT_PLANE_2
    }
}

/// The aspect flag of a plane.
pub fn plane_aspect(index: u32) -> (r: u32)
    requires
        index < 3,
    ensures
        r == spec_plane_aspect(index as int),
{
    match index {
        0 => ASPECT_PLANE_0,
        1 => ASPECT_PLANE_1,
        _ => ASPECT_PLANE_2,
    }
}

/// The memories of some planes as resources.
pub open spec fn memory_resources(memories: Seq<u64>) -> Seq<Resource> {
    memories.map_values(|m: u64| Resource::Memory(m))
}

/// What a failed import of planes releases: the memories, the image and the conversion.
pub open spec fn partial_import(image: u64, conversion: u64, memories: Seq<u64>) -> Seq<Resource> {
    memory_resources(memories) + seq![
        Resource::Image(image),
        Resource::YcbcrConversion(conversion),
    ]
}

/// Cleanup for partial import failures: what is to be released, in order.
pub fn cleanup_partial_import(image: u64, conversion: u64, memories: &Vec<u64>) -> (r: Vec<
    Resource,
>)
    ensures
        r@ == partial_import(image, conversion, memories@),
{
    let mut released: Vec<Resource> = Vec::new();
    push_memories(&mut released, memories);
    released.push(Resource::Image(image));
    released.push(Resource::YcbcrConversion(conversion));
    assert(released@ =~= partial_import(image, conversion, memories@));
    released
}

/// Append memories to a list of resources.
fn push_memories(released: &mut Vec<Resource>, memories: &Vec<u64>)
    ensures
        final(released)@ == old(released)@ + memory_resources(memories@),
{
    let ghost before = released@;
    let mut i: usize = 0;
    while i < memories.len()
        invariant
            i <= memories@.len(),
            released@ == before + memory_resources(memories@.take(i as int)),
        decreases memories@.len() - i,
    {
        released.push(Resource::Memory(memories[i]));
        assert(memory_resources(memories@.take(i + 1)) =~= memory_resources(
            memories@.take(i as int),
        ).push(Resource::Memory(memories@[i as int])));
        assert(released@ =~= before + memory_resources(memories@.take(i + 1)));
        i = i + 1;
    }
    assert(memories@.take(i as int) =~= memories@);
}

/// Start the import of a multi-planar dmabuf.
///
/// It needs a file descriptor for every plane of the format. `plane_strides` tell nothing that
/// the import needs. The offset of a plane is read when the memories are bound.
pub fn import_multiplanar_dmabuf(
    format: &MultiPlanarFormat,
    width: u32,
    height: u32,
    plane_fds: Vec<i32>,
    plane_offsets: Vec<u32>,
    plane_strides: &Vec<u32>,
) -> (r: Result<PlanarImport, ImportError>)
    requires
        plane_fds@.len() >= format.plane_count ==> format.plane_count <= 3 && plane_offsets@.len()
            >= format.plane_count,
    ensures
        match r {
            Ok(import) => plane_fds@.len() >= format.plane_count && import == (PlanarImport {
                format: *format,
                width,
                height,
                plane_fds,
                plane_offsets,
            }) && import.wf(),
            Err(e) => plane_fds@.len() < format.plane_count && e@ == ImportErrorView::InvalidPlanes(
                "Expected "@ + decimal_text(format.plane_count as nat) + " planes, got "@
                    + decimal_text(plane_fds@.len()),
            ),
        },
{
    if plane_fds.len() < format.plane_count as usize {
        let mut text = joined("Expected ", decimal(format.plane_count as u64).as_str());
        text.append(" planes, got ");
        text.append(decimal(plane_fds.len() as u64).as_str());
        return Err(ImportError::InvalidPlanes(text));
    }
    Ok(PlanarImport { format: *format, width, height, plane_fds, plane_offsets })
}

impl PlanarImport {
    /// Whether there is a file descriptor and an offset for each of up to three planes.
    pub open spec fn wf(self) -> bool {
        &&& self.format.plane_count <= 3
        &&& self.plane_fds@.len() >= self.format.plane_count
        &&& self.plane_offsets@.len() >= self.format.plane_count
    }

    /// The YCbCr conversion to create. Chroma samples are cosited with even luma samples and
    /// filtered linearly, without forced reconstruction.
    pub fn conversion_request(&self) -> (r: ConversionRequest)
        ensures
            r == (ConversionRequest {
                format: self.format.vk_format,
                ycbcr_model: self.format.ycbcr_model.spec_vk(),
                ycbcr_range: self.format.ycbcr_range.spec_vk(),
                components: identity_mapping(),
                x_chroma_offset: CHROMA_COSITED_EVEN,
                y_chroma_offset: CHROMA_COSITED_EVEN,
                chroma_filter: FILTER_LINEAR,
                force_explicit_reconstruction: false,
            }),
    {
        ConversionRequest {
            format: self.format.vk_format,
            ycbcr_model: self.format.ycbcr_model.to_vk(),
            ycbcr_range: self.format.ycbcr_range.to_vk(),
            components: get_component_mapping(self.format.fourcc),
            x_chroma_offset: CHROMA_COSITED_EVEN,
            y_chroma_offset: CHROMA_COSITED_EVEN,
            chroma_filter: FILTER_LINEAR,
            force_explicit_reconstruction: false,
        }
    }

    /// Go on with the YCbCr conversion, or with the code of why it could not be created.
    pub fn conversion_created(self, conversion: Result<u64, i32>) -> (r: Result<
        PlanarConversion,
        ImportError,
    >)
        ensures
            match conversion {
                Ok(handle) => r == Ok::<PlanarConversion, ImportError>(
                    PlanarConversion { import: self, conversion: handle },
                ),
                Err(code) => r matches Err(e) && e@ == ImportErrorView::ImageCreation(
                    "failed to create YCbCr conversion: "@ + vk_result_debug(code),
                ),
            },
    {
        match conversion {
            Ok(handle) => Ok(PlanarConversion { import: self, conversion: handle }),
            Err(code) => Err(
                ImportError::ImageCreation(
                    with_vk_result("failed to create YCbCr conversion: ", code),
                ),
            ),
        }
    }
}

impl PlanarConversion {
    /// The disjoint image to create: each plane has memory of its own.
    pub fn image_request(&self) -> (r: ImageRequest)
        ensures
            r == (ImageRequest {
                format: self.import.format.vk_format,
                width: self.import.width,
                height: self.import.height,
                tiling: ImageTiling::Optimal,
                usage: USAGE_SAMPLED,
                disjoint: true,
            }),
    {
        ImageRequest {
            format: self.import.format.vk_format,
            width: self.import.width,
            height: self.import.height,
            tiling: ImageTiling::Optimal,
            usage: USAGE_SAMPLED,
            disjoint: true,
        }
    }

    /// Go on with the image, or with the code of why it could not be created.
    pub fn image_created(self, image: Result<u64, i32>) -> (r: Result<PlanarImage, ImportFailure>)
        ensures
            match image {
                Ok(handle) => r matches Ok(planes) && planes.import == self.import
                    && planes.conversion == self.conversion && planes.image == handle
                    && planes.plane_memories@ == Seq::<u64>::empty(),
                Err(code) => r matches Err(failure) && failure.is(
                    ImportErrorView::ImageCreation(
                        "failed to create disjoint image: "@ + vk_result_debug(code),
                    ),
                    seq![Resource::YcbcrConversion(self.conversion)],
                ),
            },
    {
        match image {
            Ok(handle) => Ok(
                PlanarImage {
                    import: self.import,
                    conversion: self.conversion,
                    image: handle,
                    plane_memories: Vec::new(),
                },
            ),
            Err(code) => {
                let mut released: Vec<Resource> = Vec::new();
                released.push(Resource::YcbcrConversion(self.conversion));
                Err(
                    ImportFailure {
                        error: ImportError::ImageCreation(
                            with_vk_result("failed to create disjoint image: ", code),
                        ),
                        released,
                    },
                )
            },
        }
    }
}

impl PlanarImage {
    /// Whether the import is valid and no more than all planes have memory.
    pub open spec fn wf(self) -> bool {
        self.import.wf() && self.plane_memories@.len() <= self.import.format.plane_count
    }

    /// Whether all planes have memory.
    pub open spec fn complete(self) -> bool {
        self.plane_memories@.len() == self.import.format.plane_count
    }

    /// All that the import has created so far.
    pub open spec fn held(self) -> Seq<Resource> {
        partial_import(self.image, self.conversion, self.plane_memories@)
    }

    /// The plane whose memory is to be imported next. `None` where all planes have memory.
    pub fn next_plane(&self) -> (r: Option<PlaneRequest>)
        requires
            self.wf(),
        ensures
            r == if self.complete() {
                None
            } else {
                Some(
                    PlaneRequest {
                        index: self.plane_memories@.len() as u32,
                        aspect: spec_plane_aspect(self.plane_memories@.len() as int),
                        fd: self.import.plane_fds@[self.plane_memories@.len() as int],
                    },
                )
            },
    {
        let index: usize = self.plane_memories.len();
        if index < self.import.format.plane_count as usize {
            Some(
                PlaneRequest {
                    index: index as u32,
                    aspect: plane_aspect(index as u32),
                    fd: self.import.plane_fds[index],
                },
            )
        } else {
            None
        }
    }

    /// The memory type for the next plane, among those that its requirements allow.
    pub fn plane_memory_type(&self, types: &Vec<u32>, type_bits: u32) -> (r: Result<
        u32,
        ImportFailure,
    >)
        requires
            types@.len() <= 32,
        ensures
            match r {
                Ok(i) => crate::vulkan::is_first_memory_type(
                    Some(i),
                    types@,
                    type_bits,
                    MEMORY_DEVICE_LOCAL,
                ),
                Err(failure) => crate::vulkan::is_first_memory_type(
                    None,
                    types@,
                    type_bits,
                    MEMORY_DEVICE_LOCAL,
                ) && failure.is(
                    ImportErrorView::MemoryAllocation(
                        "No suitable memory type for plane "@ + decimal_text(
                            self.plane_memories@.len(),
                        ),
                    ),
                    self.held(),
                ),
            },
    {
        match find_memory_type_index(types, type_bits, MEMORY_DEVICE_LOCAL) {
            Some(i) => Ok(i),
            None => Err(
                self.plane_failure(
                    ImportError::MemoryAllocation(
                        joined(
                            "No suitable memory type for plane ",
                            decimal(self.plane_memories.len() as u64).as_str(),
                        ),
                    ),
                ),
            ),
        }
    }

    /// Go on with the duplicated file descriptor of the next plane. A negative one says that it
    /// could not be duplicated.
    pub fn plane_fd_duplicated(&self, duplicate: i32) -> (r: Result<i32, ImportFailure>)
        ensures
            match r {
                Ok(fd) => duplicate >= 0 && fd == duplicate,
                Err(failure) => duplicate < 0 && failure.is(
                    ImportErrorView::FdImport(
                        "Failed to dup fd for plane "@ + decimal_text(self.plane_memories@.len()),
                    ),
                    self.held(),
                ),
            },
    {
        if duplicate < 0 {
            return Err(
                self.plane_failure(
                    ImportError::FdImport(
                        joined(
                            "Failed to dup fd for plane ",
                            decimal(self.plane_memories.len() as u64).as_str(),
                        ),
                    ),
                ),
            );
        }
        Ok(duplicate)
    }

    /// Go on with the memory of the next plane, or with the code of why it could not be imported.
    /// Memory that was imported owns the duplicated file descriptor. Where there is none, the
    /// file descriptor is closed.
    pub fn plane_imported(&mut self, fd: i32, memory: Result<u64, i32>) -> (r: Result<
        (),
        ImportFailure,
    >)
        requires
            old(self).wf(),
            !old(self).complete(),
        ensures
            final(self).wf(),
            final(self).import == old(self).import,
            final(self).conversion == old(self).conversion,
            final(self).image == old(self).image,
            match memory {
                Ok(handle) => r is Ok && final(self).plane_memories@ == old(
                    self,
                ).plane_memories@.push(handle),
                Err(code) => final(self).plane_memories@ == old(self).plane_memories@ && (
                r matches Err(failure) && failure.is(
                    ImportErrorView::MemoryAllocation(
                        "Failed to import memory for plane "@ + decimal_text(
                            old(self).plane_memories@.len(),
                        ) + ": "@ + vk_result_debug(code),
                    ),
                    seq![Resource::Fd(fd)] + old(self).held(),
                )),
            },
    {
        match memory {
            Ok(handle) => {
                self.plane_memories.push(handle);
                Ok(())
            },
            Err(code) => {
                let mut text = joined(
                    "Failed to import memory for plane ",
                    decimal(self.plane_memories.len() as u64).as_str(),
                );
                text.append(": ");
                text.append(vk_result_text(code).as_str());
                let mut released: Vec<Resource> = Vec::new();
                released.push(Resource::Fd(fd));
                push_memories(&mut released, &self.plane_memories);
                released.push(Resource::Image(self.image));
                released.push(Resource::YcbcrConversion(self.conversion));
                assert(released@ =~= seq![Resource::Fd(fd)] + old(self).held());
                Err(ImportFailure { error: ImportError::MemoryAllocation(text), released })
            },
        }
    }

    /// A failure that releases all that the import has created so far.
    fn plane_failure(&self, error: ImportError) -> (r: ImportFailure)
        ensures
            r.error == error,
            r.released@ == self.held(),
    {
        ImportFailure {
            error,
            released: cleanup_partial_import(self.image, self.conversion, &self.plane_memories),
        }
    }

    /// The memory to bind to each plane.
    pub fn bindings(&self) -> (r: Vec<PlaneBinding>)
        requires
            self.wf(),
            self.complete(),
        ensures
            r@ == Seq::new(
                self.import.format.plane_count as nat,
                |i: int|
                    PlaneBinding {
                        image: self.image,
                        memory: self.plane_memories@[i],
                        offset: self.import.plane_offsets@[i] as u64,
                        aspect: spec_plane_aspect(i),
                    },
            ),
    {
        let mut bindings: Vec<PlaneBinding> = Vec::new();
        let mut i: usize = 0;
        while i < self.plane_memories.len()
            invariant
                i <= self.plane_memories@.len(),
                self.wf(),
                self.complete(),
                bindings@ == Seq::new(
                    i as nat,
                    |j: int|
                        PlaneBinding {
                            image: self.image,
                            memory: self.plane_memories@[j],
                            offset: self.import.plane_offsets@[j] as u64,
                            aspect: spec_plane_aspect(j),
                        },
                ),
            decreases self.plane_memories@.len() - i,
        {
            bindings.push(
                PlaneBinding {
                    image: self.image,
                    memory: self.plane_memories[i],
                    offset: self.import.plane_offsets[i] as u64,
                    aspect: plane_aspect(i as u32),
                },
            );
            i = i + 1;
        }
        bindings
    }

    /// Go on with bound planes, or with the code of why the memory could not be bound.
    pub fn bound(self, bound: Result<(), i32>) -> (r: Result<BoundPlanes, ImportFailure>)
        ensures
            match bound {
                Ok(_) => r matches Ok(next) && next.planes == self,
                Err(code) => r matches Err(failure) && failure.is(
                    ImportErrorView::MemoryAllocation(
                        "failed to bind image memory: "@ + vk_result_debug(code),
                    ),
                    self.held(),
                ),
            },
    {
        match bound {
            Ok(_) => Ok(BoundPlanes { planes: self }),
            Err(code) => Err(
                self.plane_failure(
                    ImportError::MemoryAllocation(
                        with_vk_result("failed to bind image memory: ", code),
                    ),
                ),
            ),
        }
    }
}

impl BoundPlanes {
    /// The image view to create: two-dimensional, of the only level and layer of the image, with
    /// its conversion.
    pub fn view_request(&self) -> (r: ViewRequest)
        ensures
            r == (ViewRequest {
                image: self.planes.image,
                format: self.planes.import.format.vk_format,
                conversion: self.planes.conversion,
                view_type: VIEW_TYPE_2D,
                aspect: ASPECT_COLOR,
                base_mip_level: 0,
                level_count: 1,
                base_array_layer: 0,
                layer_count: 1,
            }),
    {
        ViewRequest {
            image: self.planes.image,
            format: self.planes.import.format.vk_format,
            conversion: self.planes.conversion,
            view_type: VIEW_TYPE_2D,
            aspect: ASPECT_COLOR,
            base_mip_level: 0,
            level_count: 1,
            base_array_layer: 0,
            layer_count: 1,
        }
    }

    /// Go on with the image view, or with the code of why it could not be created.
    pub fn view_created(self, view: Result<u64, i32>) -> (r: Result<PlanarView, ImportFailure>)
        ensures
            match view {
                Ok(handle) => r matches Ok(next) && next.planes == self.planes && next.image_view
                    == handle,
                Err(code) => r matches Err(failure) && failure.is(
                    ImportErrorView::ImageCreation(
                        "failed to create image view: "@ + vk_result_debug(code),
                    ),
                    self.planes.held(),
                ),
            },
    {
        match view {
            Ok(handle) => Ok(PlanarView { planes: self.planes, image_view: handle }),
            Err(code) => Err(
                self.planes.plane_failure(
                    ImportError::ImageCreation(with_vk_result("failed to create image view: ", code)),
                ),
            ),
        }
    }
}

impl PlanarView {
    /// The sampler to create: linear, clamped to the edges, with the conversion of the view.
    pub fn sampler_request(&self) -> (r: SamplerRequest)
        ensures
            r == (SamplerRequest {
                conversion: self.planes.conversion,
                mag_filter: FILTER_LINEAR,
                min_filter: FILTER_LINEAR,
                address_mode: ADDRESS_CLAMP_TO_EDGE,
                mipmap_mode: MIPMAP_NEAREST,
                unnormalized_coordinates: false,
            }),
    {
        SamplerRequest {
            conversion: self.planes.conversion,
            mag_filter: FILTER_LINEAR,
            min_filter: FILTER_LINEAR,
            address_mode: ADDRESS_CLAMP_TO_EDGE,
            mipmap_mode: MIPMAP_NEAREST,
            unnormalized_coordinates: false,
        }
    }

    /// Finish with the sampler, or with the code of why it could not be created.
    pub fn sampler_created(self, sampler: Result<u64, i32>) -> (r: Result<
        MultiPlanarTexture,
        ImportFailure,
    >)
        ensures
            match sampler {
                Ok(handle) => r == Ok::<MultiPlanarTexture, ImportFailure>(
                    MultiPlanarTexture {
                        image: self.planes.image,
                        image_view: self.image_view,
                        ycbcr_conversion: self.planes.conversion,
                        sampler: handle,
                        plane_memories: self.planes.plane_memories,
                        width: self.planes.import.width,
                        height: self.planes.import.height,
                        format: self.planes.import.format,
                    },
                ),
                Err(code) => r matches Err(failure) && failure.is(
                    ImportErrorView::ImageCreation(
                        "failed to create sampler: "@ + vk_result_debug(code),
                    ),
                    seq![Resource::ImageView(self.image_view)] + self.planes.held(),
                ),
            },
    {
        match sampler {
            Ok(handle) => Ok(
                MultiPlanarTexture {
                    image: self.planes.image,
                    image_view: self.image_view,
                    ycbcr_conversion: self.planes.conversion,
                    sampler: handle,
                    width: self.planes.import.width,
                    height: self.planes.import.height,
                    format: self.planes.import.format,
                    plane_memories: self.planes.plane_memories,
                },
            ),
            Err(code) => {
                let mut released: Vec<Resource> = Vec::new();
                released.push(Resource::ImageView(self.image_view));
                push_memories(&mut released, &self.planes.plane_memories);
                released.push(Resource::Image(self.planes.image));
                released.push(Resource::YcbcrConversion(self.planes.conversion));
                assert(released@ =~= seq![Resource::ImageView(self.image_view)]
                    + self.planes.held());
                Err(
                    ImportFailure {
                        error: ImportError::ImageCreation(
                            with_vk_result("failed to create sampler: ", code),
                        ),
                        released,
                    },
                )
            },
        }
    }
}

impl MultiPlanarTexture {
    /// All that the texture holds, in the order in which it is destroyed.
    pub open spec fn held(self) -> Seq<Resource> {
        seq![Resource::Sampler(self.sampler), Resource::ImageView(self.image_view)]
            + partial_import(self.image, self.ycbcr_conversion, self.plane_memories@)
    }

    /// Destroy all Vulkan resources: what is to be released, in order.
    pub fn destroy(&self) -> (r: Vec<Resource>)
        ensures
            r@ == self.held(),
    {
        let mut released: Vec<Resource> = Vec::new();
        released.push(Resource::Sampler(self.sampler));
        released.push(Resource::ImageView(self.image_view));
        push_memories(&mut released, &self.plane_memories);
        released.push(Resource::Image(self.image));
        released.push(Resource::YcbcrConversion(self.ycbcr_conversion));
        assert(released@ =~= self.held());
        released
    }
}

/// Inferred colorspaces have the narrow range, and more pixels never lead to an older standard.
pub proof fn law_inferred_colorspace(fewer: int, more: int)
    requires
        fewer <= more,
    ensures
        YcbcrColorspace::for_pixels(fewer).range == YcbcrRange::Narrow,
        YcbcrColorspace::for_pixels(fewer).model == YcbcrModel::Bt2020
            ==> YcbcrColorspace::for_pixels(more).model == YcbcrModel::Bt2020,
        YcbcrColorspace::for_pixels(more).model == YcbcrModel::Bt601
            ==> YcbcrColorspace::for_pixels(fewer).model == YcbcrModel::Bt601,
{
}

/// The planes of a format do not overlap: each ends where the next begins, and so before every
/// later one.
pub proof fn law_planes_disjoint(
    format: MultiPlanarFormat,
    width: u32,
    height: u32,
    earlier: int,
    later: int,
)
    requires
        layout_fits(format, width, height),
        0 <= earlier < later,
    ensures
        plane_offset(format, width, height, earlier) + plane_stride(format, width, earlier)
            * plane_rows(format, height, earlier) <= plane_offset(format, width, height, later),
        later == earlier + 1 ==> plane_offset(format, width, height, earlier) + plane_stride(
            format,
            width,
            earlier,
        ) * plane_rows(format, height, earlier) == plane_offset(format, width, height, later),
    decreases later,
{
    if earlier + 1 < later {
        law_planes_disjoint(format, width, height, earlier, later - 1);
        lemma_chroma_fits(format, width, height);
        let stride = plane_stride(format, width, later - 1);
        let rows = plane_rows(format, height, later - 1);
        vstd::arithmetic::div_mod::lemma_div_pos_is_pos(
            height as int,
            format.chroma_subsampling.1 as int,
        );
        vstd::arithmetic::div_mod::lemma_div_pos_is_pos(
            width as int,
            format.chroma_subsampling.0 as int,
        );
        assert(stride * rows >= 0) by (nonlinear_arith)
            requires
                stride >= 0,
                rows >= 0,
        ;
    }
}

/// A frame of a multi-planar format with even dimensions takes one and a half samples for each
/// pixel, as 4:2:0 subsampling has it.
pub proof fn law_420_frame_size(
    fourcc: DrmFourcc,
    colorspace: YcbcrColorspace,
    width: u32,
    height: u32,
)
    requires
        planar_format(fourcc, colorspace) is Some,
        width % 2 == 0,
        height % 2 == 0,
    ensures
        ({
            let format = planar_format(fourcc, colorspace).unwrap();
            2 * plane_offset(format, width, height, format.plane_count as int) == 3 * (width
                * height * bytes_per_sample(format))
        }),
{
    let format = planar_format(fourcc, colorspace).unwrap();
    let b = bytes_per_sample(format);
    let w = width as int / 2;
    let h = height as int / 2;
    reveal_with_fuel(plane_offset, 4);
    assert(2 * (2 * w * b * (2 * h) + w * 2 * b * h) == 3 * (2 * w * (2 * h) * b))
        by (nonlinear_arith);
    assert(2 * (2 * w * b * (2 * h) + w * b * h + w * b * h) == 3 * (2 * w * (2 * h) * b))
        by (nonlinear_arith);
}

/// The formats that a query finds are multi-planar and occur once each.
pub proof fn law_found_formats_are_planar(features: Seq<FormatFeatures>, n: int)
    requires
        0 <= n <= planar_candidates().len(),
        features.len() == planar_candidates().len(),
    ensures
        forall|i: int|
            0 <= i < usable_formats(planar_candidates(), features, n).len() ==> planar_layout(
                #[trigger] usable_formats(planar_candidates(), features, n)[i],
            ) is Some,
        usable_formats(planar_candidates(), features, n).no_duplicates(),
        forall|i: int|
            0 <= i < usable_formats(planar_candidates(), features, n).len() ==> exists|k: int|
                0 <= k < n && planar_candidates()[k].0 == #[trigger] usable_formats(
                    planar_candidates(),
                    features,
                    n,
                )[i],
    decreases n,
{
    if n > 0 {
        law_found_formats_are_planar(features, n - 1);
        let candidates = planar_candidates();
        let before = usable_formats(candidates, features, n - 1);
        let found = usable_formats(candidates, features, n);
        assert forall|i: int| 0 <= i < found.len() implies exists|k: int|
            0 <= k < n && candidates[k].0 == #[trigger] found[i] by {
            if i < before.len() {
                assert(found[i] == before[i]);
                let k = choose|k: int| 0 <= k < n - 1 && candidates[k].0 == before[i];
                assert(candidates[k].0 == found[i]);
            } else {
                assert(candidates[n - 1].0 == found[i]);
            }
        }
        if planar_usable(features[n - 1]) {
            assert forall|i: int| 0 <= i < before.len() implies before[i] != candidates[n - 1].0 by {
                let k = choose|k: int| 0 <= k < n - 1 && candidates[k].0 == before[i];
                assert(candidates[k].0 != candidates[n - 1].0);
            }
        }
    }
}

/// NV12 and NV21 have one Vulkan format. A device that replies the same about both supports both or
/// neither.
pub proof fn law_nv12_nv21_together(features: Seq<FormatFeatures>)
    requires
        features.len() == planar_candidates().len(),
        features[0] == features[1],
    ensures
        planar_layout(DrmFourcc::Nv12) == planar_layout(DrmFourcc::Nv21),
        usable_formats(planar_candidates(), features, 4).contains(DrmFourcc::Nv12)
            <==> usable_formats(planar_candidates(), features, 4).contains(DrmFourcc::Nv21),
{
    lemma_usable(features, 4, 0);
    lemma_usable(features, 4, 1);
}

/// A candidate is found if and only if it is usable.
proof fn lemma_usable(features: Seq<FormatFeatures>, n: int, k: int)
    requires
        0 <= k < n <= planar_candidates().len(),
    ensures
        usable_formats(planar_candidates(), features, n).contains(planar_candidates()[k].0)
            <==> planar_usable(features[k]),
    decreases n,
{
    let candidates = planar_candidates();
    let before = usable_formats(candidates, features, n - 1);
    let found = usable_formats(candidates, features, n);
    let wanted = candidates[k].0;
    if k < n - 1 {
        lemma_usable(features, n - 1, k);
        assert(candidates[n - 1].0 != wanted);
        if before.contains(wanted) {
            let i = choose|i: int| 0 <= i < before.len() && before[i] == wanted;
            assert(found[i] == wanted);
        }
        if found.contains(wanted) {
            let i = choose|i: int| 0 <= i < found.len() && found[i] == wanted;
            assert(i < before.len());
            assert(before[i] == wanted);
        }
    } else {
        lemma_not_usable(features, k, wanted);
        if planar_usable(features[k]) {
            assert(found[before.len() as int] == wanted);
        }
    }
}

/// No format is found before its place among the candidates.
proof fn lemma_not_usable(features: Seq<FormatFeatures>, n: int, wanted: DrmFourcc)
    requires
        0 <= n <= planar_candidates().len(),
        forall|j: int| 0 <= j < n ==> (#[trigger] planar_candidates()[j]).0 != wanted,
    ensures
        !usable_formats(planar_candidates(), features, n).contains(wanted),
    decreases n,
{
    if n > 0 {
        lemma_not_usable(features, n - 1, wanted);
        let before = usable_formats(planar_candidates(), features, n - 1);
        let found = usable_formats(planar_candidates(), features, n);
        assert(planar_candidates()[n - 1].0 != wanted);
        assert forall|i: int| 0 <= i < found.len() implies found[i] != wanted by {
            if i < before.len() {
                assert(found[i] == before[i]);
                assert(before.contains(before[i]));
            }
        }
    }
}

/// Destroying a texture releases all that its import created: the sampler, the view, and what was
/// held before them.
pub proof fn law_destroy_releases_import(view: PlanarView, sampler: u64, texture: MultiPlanarTexture)
    requires
        texture.sampler == sampler,
        texture.image_view == view.image_view,
        texture.image == view.planes.image,
        texture.ycbcr_conversion == view.planes.conversion,
        texture.plane_memories@ == view.planes.plane_memories@,
    ensures
        texture.held() == seq![Resource::Sampler(sampler), Resource::ImageView(view.image_view)]
            + view.planes.held(),
{
}

/// Nothing is released twice: where the memories differ from each other, so do all resources that
/// a failed step or a destroyed texture releases.
pub proof fn law_released_once(image: u64, conversion: u64, memories: Seq<u64>)
    requires
        memories.no_duplicates(),
    ensures
        partial_import(image, conversion, memories).no_duplicates(),
{
    let all = partial_import(image, conversion, memories);
    let n = memories.len() as int;
    assert forall|i: int, j: int| 0 <= i < all.len() && 0 <= j < all.len() && i != j implies all[i]
        != all[j] by {
        if i < n {
            assert(all[i] == Resource::Memory(memories[i]));
        }
        if j < n {
            assert(all[j] == Resource::Memory(memories[j]));
        }
    }
}

/// A candidate format is listed for a device that converts YCbCr if and only if its images can be
/// sampled and can be disjoint, each with linear or with optimal tiling. Features of optimal tiling
/// alone suffice, and so do features of linear tiling alone.
pub proof fn law_format_listed_by_features(
    names: Vec<String>,
    device_version: u32,
    features: Vec<FormatFeatures>,
    c: MultiPlanarCapabilities,
    k: int,
)
    requires
        features@.len() == 4,
        crate::vulkan::texts(names@).contains("VK_KHR_sampler_ycbcr_conversion"@),
        call_ensures(
            MultiPlanarCapabilities::query,
            (Some(&names), device_version, &features),
            c,
        ),
        0 <= k < 4,
    ensures
        ({
            let candidate = if k == 0 {
                DrmFourcc::Nv12
            } else if k == 1 {
                DrmFourcc::Nv21
            } else if k == 2 {
                DrmFourcc::P010
            } else {
                DrmFourcc::Yuv420
            };
            let f = features@[k];
            let sampled = f.linear & 0x1 == 0x1 || f.optimal & 0x1 == 0x1;
            let disjoint = f.linear & 0x40_0000 == 0x40_0000 || f.optimal & 0x40_0000 == 0x40_0000;
            c.supported_formats@.contains(candidate) <==> sampled && disjoint
        }),
        c.has_ycbcr_conversion,
        c.max_planes == 3,
        forall|i: int|
            0 <= i < c.supported_formats@.len() ==> {
                let f = #[trigger] c.supported_formats@[i];
                f == DrmFourcc::Nv12 || f == DrmFourcc::Nv21 || f == DrmFourcc::P010 || f
                    == DrmFourcc::Yuv420
            },
{
    lemma_usable(features@, 4, k);
    law_found_formats_are_planar(features@, 4);
    assert forall|i: int| 0 <= i < c.supported_formats@.len() implies {
        let f = #[trigger] c.supported_formats@[i];
        f == DrmFourcc::Nv12 || f == DrmFourcc::Nv21 || f == DrmFourcc::P010 || f
            == DrmFourcc::Yuv420
    } by {
        let found = usable_formats(planar_candidates(), features@, 4);
        assert(c.supported_formats@[i] == found[i]);
        let j = choose|j: int| 0 <= j < 4 && planar_candidates()[j].0 == found[i];
        assert(planar_candidates()[j].0 == found[i]);
    }
}

/// The tilings count alike: a device that reports for linear tiling what another one reports for
/// optimal tiling, and the other way round, supports the same formats.
pub proof fn law_tilings_count_alike(features: Seq<FormatFeatures>, swapped: Seq<FormatFeatures>)
    requires
        features.len() == 4,
        swapped.len() == 4,
        forall|i: int|
            0 <= i < 4 ==> (#[trigger] features[i]).linear == swapped[i].optimal
                && features[i].optimal == swapped[i].linear,
    ensures
        usable_formats(planar_candidates(), features, 4) == usable_formats(
            planar_candidates(),
            swapped,
            4,
        ),
{
    reveal_with_fuel(usable_formats, 5);
    assert(features[0].linear == swapped[0].optimal);
    assert(features[1].linear == swapped[1].optimal);
    assert(features[2].linear == swapped[2].optimal);
    assert(features[3].linear == swapped[3].optimal);
}

/// Formats are listed in the order NV12, NV21, P010, YUV420.
pub proof fn law_formats_listed_in_order(features: Seq<FormatFeatures>, i: int, j: int)
    requires
        features.len() == 4,
        0 <= i < j < usable_formats(planar_candidates(), features, 4).len(),
    ensures
        ({
            let found = usable_formats(planar_candidates(), features, 4);
            &&& found[j] != DrmFourcc::Nv12
            &&& found[i] != DrmFourcc::Yuv420
            &&& found[j] == DrmFourcc::Nv21 ==> found[i] == DrmFourcc::Nv12
            &&& found[i] == DrmFourcc::P010 ==> found[j] == DrmFourcc::Yuv420
        }),
{
    reveal_with_fuel(usable_formats, 5);
}

/// YCbCr is converted by a device with the extension, and from Vulkan 1.1 on without it. Nothing is
/// supported where the extensions could not be listed or YCbCr is not converted.
pub proof fn law_conversion_from_version(
    names: Vec<String>,
    device_version: u32,
    features: Vec<FormatFeatures>,
    converts: bool,
    unlisted: bool,
    c: MultiPlanarCapabilities,
)
    requires
        call_ensures(MultiPlanarCapabilities::converts, (Some(&names), device_version), converts),
        call_ensures(MultiPlanarCapabilities::converts, (None, device_version), unlisted),
        call_ensures(
            MultiPlanarCapabilities::query,
            (Some(&names), device_version, &features),
            c,
        ),
    ensures
        converts <==> crate::vulkan::texts(names@).contains("VK_KHR_sampler_ycbcr_conversion"@)
            || device_version as int / 4096 >= 1024 + 1,
        !unlisted,
        c.has_ycbcr_conversion == converts,
        !converts ==> c.supported_formats@.len() == 0 && c.max_planes == 0,
{
}

/// A format is supported if and only if it is listed and YCbCr is converted.
pub proof fn law_supported_when_listed(c: MultiPlanarCapabilities, fourcc: DrmFourcc, r: bool)
    requires
        call_ensures(MultiPlanarCapabilities::supports_format, (&c, fourcc), r),
    ensures
        r <==> c.has_ycbcr_conversion && exists|i: int|
            0 <= i < c.supported_formats@.len() && #[trigger] c.supported_formats@[i] == fourcc,
{
}

/// The values that Vulkan has for color models and ranges: the identity is zero and the narrow range
/// is one. No model has the value of an unconverted YCbCr image, which is one.
pub proof fn law_color_values(model: YcbcrModel, m: i32, range: YcbcrRange, n: i32)
    requires
        call_ensures(YcbcrModel::to_vk, (model,), m),
        call_ensures(YcbcrRange::to_vk, (range,), n),
    ensures
        m == 0 <==> model == YcbcrModel::Identity,
        m == 2 <==> model == YcbcrModel::Bt709,
        m == 3 <==> model == YcbcrModel::Bt601,
        m == 4 <==> model == YcbcrModel::Bt2020,
        n == 0 <==> range == YcbcrRange::Full,
        n == 1 <==> range == YcbcrRange::Narrow,
{
}

/// The colorspace that a resolution suggests: below 720p it is that of standard definition, and above
/// half of a 4K frame that of ultra high definition. Only the number of pixels counts, so that a
/// frame that stands upright has the colorspace of one that lies.
pub proof fn law_colorspace_by_pixels(
    width: u32,
    height: u32,
    c: YcbcrColorspace,
    turned: YcbcrColorspace,
)
    requires
        call_ensures(YcbcrColorspace::from_resolution, (width, height), c),
        call_ensures(YcbcrColorspace::from_resolution, (height, width), turned),
    ensures
        c.model == YcbcrModel::Bt601 <==> width * height < 1280 * 720,
        c.model == YcbcrModel::Bt2020 <==> 2 * (width * height) > 3840 * 2160,
        c.model != YcbcrModel::Identity,
        c.range == YcbcrRange::Narrow,
        turned == c,
{
    assert(width * height == height * width) by (nonlinear_arith);
}

/// P010 is taken for BT.2020 whatever its size. Every other format goes by the resolution alone.
pub proof fn law_colorspace_of_format(
    fourcc: DrmFourcc,
    width: u32,
    height: u32,
    c: YcbcrColorspace,
    plain: YcbcrColorspace,
)
    requires
        call_ensures(YcbcrColorspace::from_format_and_resolution, (fourcc, width, height), c),
        call_ensures(YcbcrColorspace::from_resolution, (width, height), plain),
    ensures
        fourcc == DrmFourcc::P010 ==> c.model == YcbcrModel::Bt2020 && c.range == YcbcrRange::Narrow,
        fourcc != DrmFourcc::P010 ==> c == plain,
{
}

/// The named colorspaces have their own models, and all of them the narrow range.
pub proof fn law_named_colorspaces(sd: YcbcrColorspace, hd: YcbcrColorspace, uhd: YcbcrColorspace)
    requires
        call_ensures(YcbcrColorspace::bt601, (), sd),
        call_ensures(YcbcrColorspace::bt709, (), hd),
        call_ensures(YcbcrColorspace::bt2020, (), uhd),
    ensures
        sd.model == YcbcrModel::Bt601 && hd.model == YcbcrModel::Bt709 && uhd.model
            == YcbcrModel::Bt2020,
        sd.range == YcbcrRange::Narrow && hd.range == YcbcrRange::Narrow && uhd.range
            == YcbcrRange::Narrow,
{
}

/// A multi-planar format is described with its own code, 4:2:0 subsampling and the given colorspace.
/// It has three planes where its chroma components are apart, and two where they are interleaved.
/// Its bit depth is ten for P010 and eight for all others, and its Vulkan format has the same number
/// of planes and the same depth.
pub proof fn law_planar_description(
    fourcc: DrmFourcc,
    colorspace: YcbcrColorspace,
    r: Option<MultiPlanarFormat>,
    standard: Option<MultiPlanarFormat>,
    planar: bool,
)
    requires
        call_ensures(multiplanar_format_with_colorspace, (fourcc, colorspace), r),
        call_ensures(multiplanar_format, (fourcc,), standard),
        call_ensures(is_multiplanar_format, (fourcc,), planar),
    ensures
        r is Some <==> fourcc == DrmFourcc::Nv12 || fourcc == DrmFourcc::Nv21 || fourcc
            == DrmFourcc::P010 || fourcc == DrmFourcc::Yuv420 || fourcc == DrmFourcc::Yvu420,
        planar == r is Some,
        r matches Some(f) ==> {
            &&& f.fourcc == fourcc
            &&& f.chroma_subsampling == (2u32, 2u32)
            &&& f.ycbcr_model == colorspace.model && f.ycbcr_range == colorspace.range
            &&& f.plane_count == 2 || f.plane_count == 3
            &&& f.plane_count == 3 <==> fourcc == DrmFourcc::Yuv420 || fourcc == DrmFourcc::Yvu420
            &&& f.plane_count == 3 <==> f.vk_format == VkFormat::G8B8R83Plane420Unorm
            &&& f.bit_depth == 8 || f.bit_depth == 10
            &&& f.bit_depth == 10 <==> fourcc == DrmFourcc::P010
            &&& f.bit_depth == 10 <==> f.vk_format
                == VkFormat::G10X6B10X6R10X62Plane420Unorm3Pack16
            &&& f.plane_count == 2 && f.bit_depth == 8 ==> f.vk_format
                == VkFormat::G8B8R82Plane420Unorm
        },
        standard is Some <==> r is Some,
        standard matches Some(f) ==> f.ycbcr_model == YcbcrModel::Bt601 && f.ycbcr_range
            == YcbcrRange::Narrow && f.plane_count == r->0.plane_count && f.vk_format
            == r->0.vk_format && f.bit_depth == r->0.bit_depth,
{
}

/// The formats that a device is asked about are described with the Vulkan formats that it is asked
/// for.
pub proof fn law_candidates_are_described(
    candidates: Vec<(DrmFourcc, VkFormat)>,
    i: int,
    format: MultiPlanarFormat,
)
    requires
        call_ensures(MultiPlanarCapabilities::candidate_formats, (), candidates),
        0 <= i < candidates@.len(),
        call_ensures(multiplanar_format, (candidates@[i].0,), Some(format)),
    ensures
        candidates@.len() == 4,
        format.vk_format == candidates@[i].1,
{
}

/// The luma plane comes first, with as many samples in a row as the image is wide. The chroma planes
/// follow without a gap, with half as many samples in each direction, rounded down: two for each
/// place where the components are interleaved, and one where each has a plane of its own.
pub proof fn law_planes_laid_out(
    fourcc: DrmFourcc,
    colorspace: YcbcrColorspace,
    format: MultiPlanarFormat,
    width: u32,
    height: u32,
    layouts: Vec<PlaneLayout>,
)
    requires
        call_ensures(multiplanar_format_with_colorspace, (fourcc, colorspace), Some(format)),
        layout_fits(format, width, height),
        call_ensures(calculate_plane_layouts, (&format, width, height), layouts),
    ensures
        ({
            let sample: int = if fourcc == DrmFourcc::P010 {
                2
            } else {
                1
            };
            let columns = width as int / 2;
            let rows = height as int / 2;
            let l = layouts@;
            &&& l[0].offset == 0 && l[0].stride == width * sample
            &&& l[0].width_divisor == 1 && l[0].height_divisor == 1
            &&& l[1].offset == l[0].stride * height
            &&& l[1].width_divisor == 2 && l[1].height_divisor == 2
            &&& fourcc == DrmFourcc::Yuv420 || fourcc == DrmFourcc::Yvu420 ==> {
                &&& l.len() == 3
                &&& l[1].stride == columns && l[2].stride == columns
                &&& l[2].offset == l[1].offset + columns * rows
                &&& l[2].width_divisor == 2 && l[2].height_divisor == 2
            }
            &&& fourcc != DrmFourcc::Yuv420 && fourcc != DrmFourcc::Yvu420 ==> {
                &&& l.len() == 2
                &&& l[1].stride == columns * 2 * sample
            }
        }),
{
    reveal_with_fuel(plane_offset, 4);
    let l = layouts@;
    assert(is_plane_layout(l[0], format, width, height, 0));
    assert(is_plane_layout(l[1], format, width, height, 1));
    assert(plane_stride(format, width, 0) == l[0].stride);
    if format.plane_count == 3 {
        assert(is_plane_layout(l[2], format, width, height, 2));
    }
}

/// The aspect flags of the planes are neighbouring bits, from the fifth one on.
pub proof fn law_plane_aspects(index: u32, aspect: u32)
    requires
        index < 3,
        call_ensures(plane_aspect, (index,), aspect),
    ensures
        index == 0 ==> aspect == 16,
        index == 1 ==> aspect == 32,
        index == 2 ==> aspect == 64,
{
}

/// Planes are imported one after the other, each from its own file descriptor and with its own
/// aspect, until each has memory.
pub proof fn law_next_plane_is_its_own(planes: PlanarImage, r: Option<PlaneRequest>)
    requires
        planes.wf(),
        call_ensures(PlanarImage::next_plane, (&planes,), r),
    ensures
        r is Some <==> planes.plane_memories@.len() < planes.import.format.plane_count,
        r matches Some(plane) ==> {
            &&& plane.index == planes.plane_memories@.len()
            &&& plane.fd == planes.import.plane_fds@[plane.index as int]
            &&& plane.index == 0 ==> plane.aspect == 16
            &&& plane.index == 1 ==> plane.aspect == 32
            &&& plane.index == 2 ==> plane.aspect == 64
        },
{
}

/// Memory that was imported belongs to the next plane, behind that of the planes before it. A plane
/// whose memory could not be imported leaves the import as it was, closes its own file descriptor
/// first, and releases all that was created before.
pub proof fn law_plane_memory_is_kept(
    planes: &mut PlanarImage,
    fd: i32,
    memory: Result<u64, i32>,
    r: Result<(), ImportFailure>,
)
    requires
        call_ensures(PlanarImage::plane_imported, (planes, fd, memory), r),
    ensures
        final(planes).image == old(planes).image && final(planes).conversion == old(
            planes,
        ).conversion && final(planes).import == old(planes).import,
        memory matches Ok(handle) ==> r is Ok && final(planes).plane_memories@ == old(
            planes,
        ).plane_memories@.push(handle),
        memory is Err ==> (r matches Err(failure) && {
            let released = failure.released@;
            let n = old(planes).plane_memories@.len() as int;
            &&& final(planes).plane_memories@ == old(planes).plane_memories@
            &&& released.len() == n + 3
            &&& released[0] == Resource::Fd(fd)
            &&& released[n + 1] == Resource::Image(old(planes).image)
            &&& released[n + 2] == Resource::YcbcrConversion(old(planes).conversion)
            &&& forall|i: int|
                0 <= i < n ==> released[i + 1] == Resource::Memory(
                    #[trigger] old(planes).plane_memories@[i],
                )
        }),
{
    if let Err(failure) = r {
        let n = old(planes).plane_memories@.len() as int;
        if memory is Err {
            let held = old(planes).held();
            assert(failure.released@ =~= seq![Resource::Fd(fd)] + held);
            assert forall|i: int| 0 <= i < n implies failure.released@[i + 1] == Resource::Memory(
                #[trigger] old(planes).plane_memories@[i],
            ) by {
                assert(held[i] == Resource::Memory(old(planes).plane_memories@[i]));
            }
        }
    }
}

/// The memory of each plane is bound to the one image, at the offset of that plane and with the
/// aspect of that plane.
pub proof fn law_bindings_plane_by_plane(planes: PlanarImage, bindings: Vec<PlaneBinding>, i: int)
    requires
        planes.wf(),
        planes.complete(),
        call_ensures(PlanarImage::bindings, (&planes,), bindings),
        0 <= i < planes.import.format.plane_count,
    ensures
        bindings@.len() == planes.import.format.plane_count,
        bindings@[i].image == planes.image,
        bindings@[i].memory == planes.plane_memories@[i],
        bindings@[i].offset == planes.import.plane_offsets@[i],
        i == 0 ==> bindings@[i].aspect == 16,
        i == 1 ==> bindings@[i].aspect == 32,
        i == 2 ==> bindings@[i].aspect == 64,
{
}

/// The memory of a plane is of the first type that its requirements allow and that is local to the
/// device. Where there is none, all that was created is released.
pub proof fn law_plane_memory_choice(
    planes: PlanarImage,
    types: Vec<u32>,
    type_bits: u32,
    r: Result<u32, ImportFailure>,
    j: int,
)
    requires
        types@.len() <= 32,
        call_ensures(PlanarImage::plane_memory_type, (&planes, &types, type_bits), r),
        0 <= j < types@.len(),
    ensures
        r matches Ok(i) ==> i < types@.len() && (type_bits >> i) & 1 == 1 && types@[i as int] & 1
            == 1,
        (type_bits >> (j as u32)) & 1 == 1 && types@[j] & 1 == 1 ==> (r matches Ok(i) && i <= j),
        r matches Err(failure) ==> failure.released@ == planes.held()
            && failure.error@ is MemoryAllocation,
{
    if let Ok(i) = r {
        crate::vulkan::lemma_type_bit(type_bits, i);
    }
    crate::vulkan::lemma_type_bit(type_bits, j as u32);
    assert(crate::vulkan::memory_type_suits(types@, type_bits, MEMORY_DEVICE_LOCAL, j) == ((type_bits
        >> (j as u32)) & 1 == 1 && types@[j] & 1 == 1));
}

/// The conversion that is created for an import has the format and the colors of the import, leaves
/// the components where they are, and filters chroma samples that lie on even luma samples linearly.
pub proof fn law_conversion_has_colors(import: PlanarImport, request: ConversionRequest)
    requires
        call_ensures(PlanarImport::conversion_request, (&import,), request),
    ensures
        request.format == import.format.vk_format,
        import.format.ycbcr_model == YcbcrModel::Bt709 ==> request.ycbcr_model == 2,
        import.format.ycbcr_model == YcbcrModel::Bt601 ==> request.ycbcr_model == 3,
        import.format.ycbcr_model == YcbcrModel::Bt2020 ==> request.ycbcr_model == 4,
        import.format.ycbcr_model == YcbcrModel::Identity ==> request.ycbcr_model == 0,
        request.ycbcr_range == 1 <==> import.format.ycbcr_range == YcbcrRange::Narrow,
        request.ycbcr_range == 0 <==> import.format.ycbcr_range == YcbcrRange::Full,
        request.components.r == 0 && request.components.g == 0 && request.components.b == 0
            && request.components.a == 0,
        request.x_chroma_offset == 0 && request.y_chroma_offset == 0 && request.chroma_filter == 1,
        !request.force_explicit_reconstruction,
{
}

/// The image, the view and the sampler of an import share its conversion. The image is disjoint, has
/// the dimensions of the import and is sampled only; the view shows all colors of its only level and
/// layer; the sampler is linear and clamps at the edges.
pub proof fn law_image_view_and_sampler(
    conversion: PlanarConversion,
    image: ImageRequest,
    bound: BoundPlanes,
    view: ViewRequest,
    viewed: PlanarView,
    sampler: SamplerRequest,
)
    requires
        call_ensures(PlanarConversion::image_request, (&conversion,), image),
        call_ensures(BoundPlanes::view_request, (&bound,), view),
        call_ensures(PlanarView::sampler_request, (&viewed,), sampler),
    ensures
        image.format == conversion.import.format.vk_format,
        image.width == conversion.import.width && image.height == conversion.import.height,
        image.tiling == ImageTiling::Optimal && image.usage == 4 && image.disjoint,
        view.image == bound.planes.image && view.conversion == bound.planes.conversion,
        view.format == bound.planes.import.format.vk_format,
        view.view_type == 1 && view.aspect == 1,
        view.base_mip_level == 0 && view.level_count == 1,
        view.base_array_layer == 0 && view.layer_count == 1,
        sampler.conversion == viewed.planes.conversion,
        sampler.mag_filter == 1 && sampler.min_filter == 1 && sampler.mipmap_mode == 0,
        sampler.address_mode == 2 && !sampler.unnormalized_coordinates,
{
}

/// The import of a multi-planar dmabuf takes a file descriptor for every plane of its format, and
/// keeps all that it was given.
pub proof fn law_planar_import_needs_planes(
    format: MultiPlanarFormat,
    width: u32,
    height: u32,
    fds: Vec<i32>,
    offsets: Vec<u32>,
    strides: Vec<u32>,
    r: Result<PlanarImport, ImportError>,
)
    requires
        call_ensures(
            import_multiplanar_dmabuf,
            (&format, width, height, fds, offsets, &strides),
            r,
        ),
    ensures
        r is Ok <==> fds@.len() >= format.plane_count,
        r matches Ok(import) ==> import.width == width && import.height == height && import.plane_fds
            == fds && import.plane_offsets == offsets && import.format == format,
        r matches Err(e) ==> e@ is InvalidPlanes,
{
}

/// The texture that an import ends with holds what each step created, and its destruction releases
/// the sampler, the view, the memories, the image and the conversion, in this order and nothing else.
pub proof fn law_texture_holds_all_steps(
    view: PlanarView,
    sampler: u64,
    texture: MultiPlanarTexture,
    released: Vec<Resource>,
)
    requires
        call_ensures(
            PlanarView::sampler_created,
            (view, Ok::<u64, i32>(sampler)),
            Ok::<MultiPlanarTexture, ImportFailure>(texture),
        ),
        call_ensures(MultiPlanarTexture::destroy, (&texture,), released),
    ensures
        texture.width == view.planes.import.width && texture.height == view.planes.import.height,
        texture.format == view.planes.import.format,
        ({
            let n = view.planes.plane_memories@.len() as int;
            &&& released@.len() == n + 4
            &&& released@[0] == Resource::Sampler(sampler)
            &&& released@[1] == Resource::ImageView(view.image_view)
            &&& released@[n + 2] == Resource::Image(view.planes.image)
            &&& released@[n + 3] == Resource::YcbcrConversion(view.planes.conversion)
            &&& forall|i: int|
                0 <= i < n ==> released@[i + 2] == Resource::Memory(
                    #[trigger] view.planes.plane_memories@[i],
                )
        }),
{
    let memories = view.planes.plane_memories@;
    let rest = partial_import(texture.image, texture.ycbcr_conversion, memories);
    assert(released@ =~= seq![
        Resource::Sampler(sampler),
        Resource::ImageView(view.image_view),
    ] + rest);
    assert forall|i: int| 0 <= i < memories.len() implies released@[i + 2] == Resource::Memory(
        #[trigger] memories[i],
    ) by {
        assert(rest[i] == Resource::Memory(memories[i]));
    }
}

/// A step that fails releases all that the steps before it created: the conversion alone before there
/// is an image, and the memories, the image and the conversion after that. A failed sampler releases
/// the view first.
pub proof fn law_failed_steps_release(
    conversion: PlanarConversion,
    code: i32,
    without_image: ImportFailure,
    planes: PlanarImage,
    unbound: ImportFailure,
    bound: BoundPlanes,
    without_view: ImportFailure,
    view: PlanarView,
    without_sampler: ImportFailure,
)
    requires
        call_ensures(
            PlanarConversion::image_created,
            (conversion, Err::<u64, i32>(code)),
            Err::<PlanarImage, ImportFailure>(without_image),
        ),
        call_ensures(
            PlanarImage::bound,
            (planes, Err::<(), i32>(code)),
            Err::<BoundPlanes, ImportFailure>(unbound),
        ),
        call_ensures(
            BoundPlanes::view_created,
            (bound, Err::<u64, i32>(code)),
            Err::<PlanarView, ImportFailure>(without_view),
        ),
        call_ensures(
            PlanarView::sampler_created,
            (view, Err::<u64, i32>(code)),
            Err::<MultiPlanarTexture, ImportFailure>(without_sampler),
        ),
    ensures
        without_image.released@ == seq![Resource::YcbcrConversion(conversion.conversion)],
        unbound.released@ == planes.held(),
        without_view.released@ == bound.planes.held(),
        without_sampler.released@ == seq![Resource::ImageView(view.image_view)]
            + view.planes.held(),
        planes.held().len() == planes.plane_memories@.len() + 2,
        planes.held()[planes.plane_memories@.len() as int] == Resource::Image(planes.image),
        planes.held().last() == Resource::YcbcrConversion(planes.conversion),
{
}

/// The planes of a multi-planar format can be laid out if and only if the rows and the bytes of its
/// luma plane can be counted in 32 bits: the chroma planes are never wider.
pub proof fn law_layout_counted_by_luma(
    fourcc: DrmFourcc,
    colorspace: YcbcrColorspace,
    format: MultiPlanarFormat,
    width: u32,
    height: u32,
)
    requires
        call_ensures(multiplanar_format_with_colorspace, (fourcc, colorspace), Some(format)),
        height > 0,
    ensures
        fourcc == DrmFourcc::P010 ==> (layout_fits(format, width, height) <==> 2 * (width * height)
            <= 0xffff_ffff),
        fourcc != DrmFourcc::P010 ==> (layout_fits(format, width, height) <==> width * height
            <= 0xffff_ffff),
{
    let b = bytes_per_sample(format);
    assert(width * b * height == b * (width * height)) by (nonlinear_arith);
    assert(width * b <= width * b * height) by (nonlinear_arith)
        requires
            height > 0,
            b > 0,
    ;
    assert((width as int / 2) * 2 <= width);
    assert(b == 2 ==> b * (width * height) == 2 * (width * height)) by (nonlinear_arith);
    assert(b == 2 ==> width * b == 2 * width) by (nonlinear_arith);
    assert(b == 1 ==> width * b == width && b * (width * height) == width * height)
        by (nonlinear_arith);
}

/// Without metadata a video is taken for BT.601 with the narrow range. A device of which nothing is
/// known has no multi-planar support.
pub proof fn law_defaults(colorspace: YcbcrColorspace, c: MultiPlanarCapabilities)
    requires
        call_ensures(<YcbcrColorspace as Default>::default, (), colorspace),
        call_ensures(<MultiPlanarCapabilities as Default>::default, (), c),
    ensures
        colorspace.model == YcbcrModel::Bt601 && colorspace.range == YcbcrRange::Narrow,
        !c.has_ycbcr_conversion && c.supported_formats@.len() == 0 && c.max_planes == 0,
{
}

/// No format has its components rearranged: each of them stays where it is.
pub proof fn law_components_stay(fourcc: DrmFourcc, mapping: ComponentMapping)
    requires
        call_ensures(get_component_mapping, (fourcc,), mapping),
    ensures
        mapping.r == 0 && mapping.g == 0 && mapping.b == 0 && mapping.a == 0,
{
}

/// The planes of any format of two or three planes follow each other without a gap. The first has a
/// sample for each pixel. The others have as many samples in a row, and as many rows, as the
/// subsampling of the format leaves, with two samples for each place where there is one such plane.
/// A sample of more than eight bits takes two bytes. Formats with other numbers of planes have none.
pub proof fn law_planes_of_any_format(
    format: MultiPlanarFormat,
    width: u32,
    height: u32,
    layouts: Vec<PlaneLayout>,
)
    requires
        format.plane_count == 2 || format.plane_count == 3 ==> layout_fits(format, width, height),
        call_ensures(calculate_plane_layouts, (&format, width, height), layouts),
    ensures
        ({
            let sample: int = if format.bit_depth <= 8 {
                1
            } else {
                2
            };
            let columns = width as int / format.chroma_subsampling.0 as int;
            let rows = height as int / format.chroma_subsampling.1 as int;
            let l = layouts@;
            &&& format.plane_count != 2 && format.plane_count != 3 ==> l.len() == 0
            &&& format.plane_count == 2 || format.plane_count == 3 ==> {
                &&& l.len() == format.plane_count
                &&& l[0].offset == 0 && l[0].stride == width * sample
                &&& l[0].width_divisor == 1 && l[0].height_divisor == 1
                &&& l[1].offset == l[0].stride * height
                &&& l[1].width_divisor == format.chroma_subsampling.0
                &&& l[1].height_divisor == format.chroma_subsampling.1
            }
            &&& format.plane_count == 2 ==> l[1].stride == columns * 2 * sample
            &&& format.plane_count == 3 ==> {
                &&& l[1].stride == columns * sample && l[2].stride == l[1].stride
                &&& l[2].offset == l[1].offset + l[1].stride * rows
                &&& l[2].width_divisor == format.chroma_subsampling.0
                &&& l[2].height_divisor == format.chroma_subsampling.1
            }
        }),
{
    reveal_with_fuel(plane_offset, 4);
    let l = layouts@;
    if format.plane_count == 2 || format.plane_count == 3 {
        assert(is_plane_layout(l[0], format, width, height, 0));
        assert(is_plane_layout(l[1], format, width, height, 1));
        assert(plane_stride(format, width, 0) == l[0].stride);
        assert(plane_stride(format, width, 1) == l[1].stride);
    }
    if format.plane_count == 3 {
        assert(is_plane_layout(l[2], format, width, height, 2));
    }
}

} // verus!
