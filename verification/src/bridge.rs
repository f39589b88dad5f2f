//! Core bridge functionality for connecting a compositor's Vulkan context and wgpu.
//!
//! The `WgpuBridge` knows the formats and capabilities of a device, decides how dmabufs are
//! imported, and counts frames.
use crate::dmabuf::{
    subresource_layouts, subresources, told, wgpu_to_vk_format, DmabufInfo, ModifierImage,
    SinglePlaneImport,
};
use crate::error::{BridgeError, BridgeErrorView, ImportError, ImportErrorView};
use crate::format::{DrmFourcc, TextureFormat, VkFormat};
use crate::modifiers::{
    drm_mod, find_modifier, ExplicitModifierCreateInfo, ModifierCapabilities, ModifierProperties,
};
use crate::multiplanar::{
    is_multiplanar_format, multiplanar_format_with_colorspace, MultiPlanarCapabilities,
    MultiPlanarTexture, PlanarImport, YcbcrColorspace,
};
use crate::sync::SyncCapabilities;
use crate::text::{decimal, decimal_text, joined};
use crate::texture::WgpuTexture;
use crate::vulkan::{FormatFeatures, FEATURE_SAMPLED_IMAGE};
use vstd::prelude::*;
use vstd::string::*;

verus! {

/// A supported dmabuf format with its modifiers.
#[derive(Clone, Debug)]
pub struct SupportedFormat {
    /// DRM fourcc format code
    pub fourcc: DrmFourcc,
    /// Supported modifiers for this format (with detailed properties)
    pub modifier_props: Vec<ModifierProperties>,
    /// Supported modifier values (for quick lookup)
    pub modifiers: Vec<u64>,
    /// Corresponding wgpu texture format
    pub wgpu_format: TextureFormat,
    /// Corresponding Vulkan format
    pub vk_format: VkFormat,
}

/// What a [`SupportedFormat`] holds.
pub struct SupportedFormatView {
    pub fourcc: DrmFourcc,
    pub modifier_props: Seq<ModifierProperties>,
    pub modifiers: Seq<u64>,
    pub wgpu_format: TextureFormat,
    pub vk_format: VkFormat,
}

impl View for SupportedFormat {
    type V = SupportedFormatView;

    open spec fn view(&self) -> SupportedFormatView {
        SupportedFormatView {
            fourcc: self.fourcc,
            modifier_props: self.modifier_props@,
            modifiers: self.modifiers@,
            wgpu_format: self.wgpu_format,
            vk_format: self.vk_format,
        }
    }
}

/// What a list of formats holds.
pub open spec fn format_views(formats: Seq<SupportedFormat>) -> Seq<SupportedFormatView> {
    Seq::new(formats.len(), |i: int| formats[i]@)
}

/// What a physical device reports of a format.
#[derive(Debug)]
pub struct FormatReply {
    /// Features of the format.
    pub features: FormatFeatures,
    /// Modifiers of the format. They need not be asked for where images cannot be sampled.
    pub modifiers: Vec<ModifierProperties>,
}

/// The formats that are looked for on a device, with the Vulkan and the wgpu format of each.
pub open spec fn format_mappings() -> Seq<(DrmFourcc, VkFormat, TextureFormat)> {
    seq![
        (DrmFourcc::Argb8888, VkFormat::B8G8R8A8Unorm, TextureFormat::Bgra8Unorm),
        (DrmFourcc::Xrgb8888, VkFormat::B8G8R8A8Unorm, TextureFormat::Bgra8Unorm),
        (DrmFourcc::Abgr8888, VkFormat::R8G8B8A8Unorm, TextureFormat::Rgba8Unorm),
        (DrmFourcc::Xbgr8888, VkFormat::R8G8B8A8Unorm, TextureFormat::Rgba8Unorm),
        (DrmFourcc::Argb2101010, VkFormat::A2B10G10R10UnormPack32, TextureFormat::Rgb10a2Unorm),
        (DrmFourcc::Xrgb2101010, VkFormat::A2B10G10R10UnormPack32, TextureFormat::Rgb10a2Unorm),
        (DrmFourcc::R8, VkFormat::R8Unorm, TextureFormat::R8Unorm),
        (DrmFourcc::Rg88, VkFormat::R8G8Unorm, TextureFormat::Rg8Unorm),
        (DrmFourcc::Gr88, VkFormat::R8G8Unorm, TextureFormat::Rg8Unorm),
        (DrmFourcc::Argb8888, VkFormat::B8G8R8A8Srgb, TextureFormat::Bgra8UnormSrgb),
        (DrmFourcc::Abgr8888, VkFormat::R8G8B8A8Srgb, TextureFormat::Rgba8UnormSrgb),
    ]
}

/// The values of some modifiers.
pub open spec fn modifier_values(props: Seq<ModifierProperties>) -> Seq<u64> {
    Seq::new(props.len(), |i: int| props[i].modifier)
}

/// A format with its modifiers. Where none were reported, the linear one stands in, with the
/// features of linear tiling.
pub open spec fn supported_format(
    mapping: (DrmFourcc, VkFormat, TextureFormat),
    linear_features: u32,
    reported: Seq<ModifierProperties>,
) -> SupportedFormatView {
    let props = if reported.len() == 0 {
        seq![
            ModifierProperties {
                modifier: drm_mod::LINEAR,
                plane_count: 1,
                format_features: linear_features,
            },
        ]
    } else {
        reported
    };
    SupportedFormatView {
        fourcc: mapping.0,
        modifier_props: props,
        modifiers: modifier_values(props),
        wgpu_format: mapping.2,
        vk_format: mapping.1,
    }
}

/// The formats whose images can be sampled, among the first `n`, in order.
pub open spec fn sampled_formats(replies: Seq<FormatReply>, n: int) -> Seq<SupportedFormatView>
    decreases n,
{
    if n <= 0 {
        Seq::empty()
    } else if replies[n - 1].features.spec_supports(FEATURE_SAMPLED_IMAGE) {
        sampled_formats(replies, n - 1).push(
            supported_format(
                format_mappings()[n - 1],
                replies[n - 1].features.linear,
                replies[n - 1].modifiers@,
            ),
        )
    } else {
        sampled_formats(replies, n - 1)
    }
}

/// A format with the linear modifier alone.
pub open spec fn linear_format(mapping: (DrmFourcc, VkFormat, TextureFormat)) -> SupportedFormatView {
    supported_format(mapping, FEATURE_SAMPLED_IMAGE, Seq::empty())
}

/// The formats of a device of which nothing is known.
pub open spec fn default_formats() -> Seq<SupportedFormatView> {
    Seq::new(5, |i: int| linear_format(format_mappings()[i]))
}

/// The formats of a device that replied so, or did not reply at all.
pub open spec fn device_formats(replies: Option<Seq<FormatReply>>) -> Seq<SupportedFormatView> {
    match replies {
        Some(replies) => {
            let found = sampled_formats(replies, format_mappings().len() as int);
            if found.len() == 0 {
                default_formats()
            } else {
                found
            }
        },
        None => default_formats(),
    }
}

/// The first of some formats with this fourcc.
pub open spec fn first_format(formats: Seq<SupportedFormatView>, fourcc: DrmFourcc) -> Option<
    SupportedFormatView,
>
    decreases formats.len(),
{
    if formats.len() == 0 {
        None
    } else if formats[0].fourcc == fourcc {
        Some(formats[0])
    } else {
        first_format(formats.skip(1), fourcc)
    }
}

/// Formats with another fourcc do not change which is the first behind them.
proof fn lemma_skip_formats(formats: Seq<SupportedFormatView>, fourcc: DrmFourcc, i: int)
    requires
        0 <= i <= formats.len(),
        forall|j: int| 0 <= j < i ==> (#[trigger] formats[j]).fourcc != fourcc,
    ensures
        first_format(formats, fourcc) == first_format(formats.skip(i), fourcc),
    decreases i,
{
    if i > 0 {
        lemma_skip_formats(formats, fourcc, i - 1);
        let rest = formats.skip(i - 1);
        assert(rest[0] == formats[i - 1]);
        assert(rest.skip(1) =~= formats.skip(i));
    } else {
        assert(formats.skip(0) =~= formats);
    }
}

/// The formats to ask a device about, in order.
pub fn queried_formats() -> (r: Vec<(DrmFourcc, VkFormat, TextureFormat)>)
    ensures
        r@ == format_mappings(),
{
    let mut m: Vec<(DrmFourcc, VkFormat, TextureFormat)> = Vec::new();
    m.push((DrmFourcc::Argb8888, VkFormat::B8G8R8A8Unorm, TextureFormat::Bgra8Unorm));
    m.push((DrmFourcc::Xrgb8888, VkFormat::B8G8R8A8Unorm, TextureFormat::Bgra8Unorm));
    m.push((DrmFourcc::Abgr8888, VkFormat::R8G8B8A8Unorm, TextureFormat::Rgba8Unorm));
    m.push((DrmFourcc::Xbgr8888, VkFormat::R8G8B8A8Unorm, TextureFormat::Rgba8Unorm));
    m.push((DrmFourcc::Argb2101010, VkFormat::A2B10G10R10UnormPack32, TextureFormat::Rgb10a2Unorm));
    m.push((DrmFourcc::Xrgb2101010, VkFormat::A2B10G10R10UnormPack32, TextureFormat::Rgb10a2Unorm));
    m.push((DrmFourcc::R8, VkFormat::R8Unorm, TextureFormat::R8Unorm));
    m.push((DrmFourcc::Rg88, VkFormat::R8G8Unorm, TextureFormat::Rg8Unorm));
    m.push((DrmFourcc::Gr88, VkFormat::R8G8Unorm, TextureFormat::Rg8Unorm));
    m.push((DrmFourcc::Argb8888, VkFormat::B8G8R8A8Srgb, TextureFormat::Bgra8UnormSrgb));
    m.push((DrmFourcc::Abgr8888, VkFormat::R8G8B8A8Srgb, TextureFormat::Rgba8UnormSrgb));
    m
}

/// A format with its modifiers.
fn make_supported_format(
    mapping: (DrmFourcc, VkFormat, TextureFormat),
    linear_features: u32,
    reported: &Vec<ModifierProperties>,
) -> (r: SupportedFormat)
    ensures
        r@ == supported_format(mapping, linear_features, reported@),
{
    let mut modifier_props: Vec<ModifierProperties> = Vec::new();
    let mut modifiers: Vec<u64> = Vec::new();
    if reported.len() == 0 {
        modifier_props.push(
            ModifierProperties {
                modifier: drm_mod::LINEAR,
                plane_count: 1,
                format_features: linear_features,
            },
        );
        modifiers.push(drm_mod::LINEAR);
        assert(modifiers@ =~= modifier_values(modifier_props@));
    } else {
        let mut i: usize = 0;
        while i < reported.len()
            invariant
                i <= reported@.len(),
                modifier_props@ == reported@.take(i as int),
                modifiers@ == modifier_values(modifier_props@),
            decreases reported@.len() - i,
        {
            modifier_props.push(reported[i]);
            modifiers.push(reported[i].modifier);
            assert(modifier_props@ =~= reported@.take(i + 1));
            i = i + 1;
        }
        assert(modifier_props@ =~= reported@);
    }
    assert(modifier_props@ =~= supported_format(mapping, linear_features, reported@).modifier_props);
    SupportedFormat {
        fourcc: mapping.0,
        modifier_props,
        modifiers,
        wgpu_format: mapping.2,
        vk_format: mapping.1,
    }
}

/// Whether a format is among those found before.
fn already_added(formats: &Vec<SupportedFormat>, fourcc: DrmFourcc, wgpu_format: TextureFormat) -> (r:
    bool)
    ensures
        r == exists|i: int|
            0 <= i < formats@.len() && (#[trigger] formats@[i]).fourcc == fourcc
                && formats@[i].wgpu_format == wgpu_format,
{
    let mut i: usize = 0;
    while i < formats.len()
        invariant
            i <= formats@.len(),
            forall|j: int|
                0 <= j < i ==> !((#[trigger] formats@[j]).fourcc == fourcc
                    && formats@[j].wgpu_format == wgpu_format),
        decreases formats@.len() - i,
    {
        if formats[i].fourcc == fourcc && formats[i].wgpu_format == wgpu_format {
            return true;
        }
        i = i + 1;
    }
    false
}

/// No two of the formats that are looked for have both formats in common.
proof fn lemma_mappings_differ(i: int, j: int)
    requires
        0 <= i < j < format_mappings().len(),
    ensures
        format_mappings()[i].0 != format_mappings()[j].0 || format_mappings()[i].2
            != format_mappings()[j].2,
{
}

/// Each format found among the first `n` comes from one of them.
proof fn lemma_sampled_source(replies: Seq<FormatReply>, n: int, i: int) -> (k: int)
    requires
        0 <= n <= format_mappings().len(),
        0 <= i < sampled_formats(replies, n).len(),
    ensures
        0 <= k < n,
        sampled_formats(replies, n)[i].fourcc == format_mappings()[k].0,
        sampled_formats(replies, n)[i].wgpu_format == format_mappings()[k].2,
        sampled_formats(replies, n)[i].vk_format == format_mappings()[k].1,
        replies[k].features.spec_supports(FEATURE_SAMPLED_IMAGE),
        sampled_formats(replies, n)[i] == supported_format(
            format_mappings()[k],
            replies[k].features.linear,
            replies[k].modifiers@,
        ),
    decreases n,
{
    if replies[n - 1].features.spec_supports(FEATURE_SAMPLED_IMAGE) && i == sampled_formats(
        replies,
        n - 1,
    ).len() {
        n - 1
    } else {
        lemma_sampled_source(replies, n - 1, i)
    }
}

/// The formats that a device with these replies supports.
///
/// There is one reply for each of the [`queried_formats`]. A device on which nothing is found has
/// the default formats.
pub fn query_vulkan_format_support(replies: &Vec<FormatReply>) -> (r: Vec<SupportedFormat>)
    requires
        replies@.len() == format_mappings().len(),
    ensures
        format_views(r@) == device_formats(Some(replies@)),
{
    let mappings = queried_formats();
    let mut formats: Vec<SupportedFormat> = Vec::new();
    let mut i: usize = 0;
    while i < mappings.len()
        invariant
            i <= mappings@.len(),
            mappings@ == format_mappings(),
            replies@.len() == mappings@.len(),
            format_views(formats@) == sampled_formats(replies@, i as int),
        decreases mappings@.len() - i,
    {
        let (fourcc, _, wgpu_format) = mappings[i];
        if replies[i].features.supports(FEATURE_SAMPLED_IMAGE) {
            proof {
                assert forall|j: int| 0 <= j < formats@.len() implies !((
                #[trigger] formats@[j]).fourcc == fourcc && formats@[j].wgpu_format == wgpu_format) by {
                    let k = lemma_sampled_source(replies@, i as int, j);
                    assert(format_views(formats@)[j] == formats@[j]@);
                    lemma_mappings_differ(k, i as int);
                }
            }
            if !already_added(&formats, fourcc, wgpu_format) {
                let ghost before = formats@;
                formats.push(
                    make_supported_format(
                        mappings[i],
                        replies[i].features.linear,
                        &replies[i].modifiers,
                    ),
                );
                assert(format_views(formats@) =~= format_views(before).push(
                    formats@[before.len() as int]@,
                ));
            }
        }
        i = i + 1;
    }
    if formats.len() == 0 {
        return default_supported_formats();
    }
    formats
}

/// Default supported formats, where the device cannot be asked: with the linear modifier alone.
pub fn default_supported_formats() -> (r: Vec<SupportedFormat>)
    ensures
        format_views(r@) == default_formats(),
{
    let mappings = queried_formats();
    let none: Vec<ModifierProperties> = Vec::new();
    let mut formats: Vec<SupportedFormat> = Vec::new();
    let mut i: usize = 0;
    while i < 5
        invariant
            i <= 5,
            mappings@ == format_mappings(),
            none@ == Seq::<ModifierProperties>::empty(),
            format_views(formats@) == Seq::new(i as nat, |j: int| linear_format(mappings@[j])),
        decreases 5 - i,
    {
        let ghost before = formats@;
        formats.push(make_supported_format(mappings[i], FEATURE_SAMPLED_IMAGE, &none));
        assert(format_views(formats@) =~= format_views(before).push(
            formats@[before.len() as int]@,
        ));
        i = i + 1;
        assert(format_views(formats@) =~= Seq::new(i as nat, |j: int| linear_format(mappings@[j])));
    }
    formats
}

/// The supported formats of a device that replied so. `None` stands for a device that could not
/// be asked.
pub fn query_supported_formats(replies: Option<&Vec<FormatReply>>) -> (r: Vec<SupportedFormat>)
    requires
        replies matches Some(list) ==> list@.len() == format_mappings().len(),
    ensures
        format_views(r@) == device_formats(
            match replies {
                Some(list) => Some(list@),
                None => None,
            },
        ),
{
    match replies {
        Some(replies) => query_vulkan_format_support(replies),
        None => default_supported_formats(),
    }
}

/// A list of formats in which the modifier values of each format are those of its modifiers, and
/// there is at least one of each.
pub open spec fn formats_consistent(formats: Seq<SupportedFormatView>) -> bool {
    &&& formats.len() > 0
    &&& forall|i: int|
        0 <= i < formats.len() ==> (#[trigger] formats[i]).modifiers == modifier_values(
            formats[i].modifier_props,
        ) && formats[i].modifiers.len() > 0
}

/// Whether one of some formats has this fourcc and this modifier. A format without modifiers
/// takes any.
pub open spec fn format_supported(
    formats: Seq<SupportedFormatView>,
    fourcc: DrmFourcc,
    modifier: u64,
) -> bool {
    exists|i: int|
        0 <= i < formats.len() && (#[trigger] formats[i]).fourcc == fourcc && (
        formats[i].modifiers.len() == 0 || formats[i].modifiers.contains(modifier))
}

/// The properties of a modifier of a format.
pub open spec fn format_modifier(
    formats: Seq<SupportedFormatView>,
    fourcc: DrmFourcc,
    modifier: u64,
) -> Option<ModifierProperties> {
    match first_format(formats, fourcc) {
        Some(format) => crate::modifiers::supported_modifier(format.modifier_props, modifier),
        None => None,
    }
}

/// How waiting for the device ended.
#[derive(Debug)]
pub enum PollOutcome {
    /// All submitted work is complete.
    Completed,
    /// The time was up.
    TimedOut,
    /// Waiting failed, with a text that says why.
    Failed(String),
}

/// The bridge between a compositor's Vulkan infrastructure and wgpu.
#[derive(Debug)]
pub struct WgpuBridge {
    /// Supported dmabuf formats
    supported_formats: Vec<SupportedFormat>,
    /// Sync capabilities of the device
    sync_capabilities: SyncCapabilities,
    /// DRM format modifier capabilities
    modifier_capabilities: ModifierCapabilities,
    /// Multi-planar format capabilities (NV12, P010, etc.)
    multiplanar_capabilities: MultiPlanarCapabilities,
    /// Frame counter for tracking submissions
    frame_counter: u64,
    /// Last completed frame
    last_completed_frame: u64,
}

/// An imported dmabuf, of a single plane or of several.
#[derive(Debug)]
pub enum ImportedDmabuf {
    /// Single-plane texture (ARGB, XRGB, etc.) that can be used directly with wgpu
    SinglePlane(WgpuTexture),
    /// Multi-planar YUV texture (NV12, P010, etc.) with Vulkan-level resources
    MultiPlanar(MultiPlanarTexture),
}

/// The import that suits a dmabuf.
#[derive(Debug)]
pub enum AutoImport {
    /// The dmabuf is imported as a single plane.
    SinglePlane(SinglePlaneImport),
    /// The dmabuf is imported as several planes.
    MultiPlanar(PlanarImport),
}

impl ImportedDmabuf {
    /// Returns `true` if this is a single-plane texture.
    pub fn is_single_plane(&self) -> (r: bool)
        ensures
            r == (self is SinglePlane),
    {
        match self {
            ImportedDmabuf::SinglePlane(_) => true,
            _ => false,
        }
    }

    /// Returns `true` if this is a multi-planar YUV texture.
    pub fn is_multi_planar(&self) -> (r: bool)
        ensures
            r == (self is MultiPlanar),
    {
        match self {
            ImportedDmabuf::MultiPlanar(_) => true,
            _ => false,
        }
    }

    /// Get the single-plane texture, if this is one.
    pub fn as_single_plane(&self) -> (r: Option<&WgpuTexture>)
        ensures
            match *self {
                ImportedDmabuf::SinglePlane(t) => r == Some(&t),
                ImportedDmabuf::MultiPlanar(_) => r is None,
            },
    {
        match self {
            ImportedDmabuf::SinglePlane(t) => Some(t),
            _ => None,
        }
    }

    /// Get the multi-planar texture, if this is one.
    pub fn as_multi_planar(&self) -> (r: Option<&MultiPlanarTexture>)
        ensures
            match *self {
                ImportedDmabuf::MultiPlanar(t) => r == Some(&t),
                ImportedDmabuf::SinglePlane(_) => r is None,
            },
    {
        match self {
            ImportedDmabuf::MultiPlanar(t) => Some(t),
            _ => None,
        }
    }
}

/// A copy of a list.
fn copied<T: Copy>(list: &Vec<T>) -> (r: Vec<T>)
    ensures
        r@ == list@,
{
    let mut copy: Vec<T> = Vec::new();
    let mut i: usize = 0;
    while i < list.len()
        invariant
            i <= list@.len(),
            copy@ == list@.take(i as int),
        decreases list@.len() - i,
    {
        copy.push(list[i]);
        i = i + 1;
    }
    assert(copy@ =~= list@);
    copy
}

impl WgpuBridge {
    /// What holds of every bridge: there is a supported format, each format has the modifiers of
    /// its properties, and no frame completes before it was submitted.
    #[verifier::type_invariant]
    spec fn inv(self) -> bool {
        &&& formats_consistent(format_views(self.supported_formats@))
        &&& self.last_completed_frame <= self.frame_counter
    }

    /// The supported formats.
    pub closed spec fn formats(self) -> Seq<SupportedFormatView> {
        format_views(self.supported_formats@)
    }

    /// The sync capabilities.
    pub closed spec fn sync(self) -> SyncCapabilities {
        self.sync_capabilities
    }

    /// The modifier capabilities.
    pub closed spec fn modifier(self) -> ModifierCapabilities {
        self.modifier_capabilities
    }

    /// The multi-planar capabilities.
    pub closed spec fn multiplanar(self) -> MultiPlanarCapabilities {
        self.multiplanar_capabilities
    }

    /// The number of submitted frames.
    pub closed spec fn submitted(self) -> u64 {
        self.frame_counter
    }

    /// The last frame known to be complete.
    pub closed spec fn completed(self) -> u64 {
        self.last_completed_frame
    }

    /// Whether two bridges differ in their frames alone.
    pub open spec fn same_device(self, other: WgpuBridge) -> bool {
        &&& self.formats() == other.formats()
        &&& self.sync() == other.sync()
        &&& self.modifier() == other.modifier()
        &&& self.multiplanar() == other.multiplanar()
    }

    /// Create a bridge that shares no Vulkan context: without explicit sync, modifiers or
    /// multi-planar formats. The formats are those that the device replied with. `None` stands for
    /// a device that could not be asked.
    pub fn new(replies: Option<&Vec<FormatReply>>) -> (r: WgpuBridge)
        requires
            replies matches Some(list) ==> list@.len() == format_mappings().len(),
        ensures
            r.formats() == device_formats(
                match replies {
                    Some(list) => Some(list@),
                    None => None,
                },
            ),
            r.sync() == SyncCapabilities::none(),
            r.modifier() == ModifierCapabilities::unavailable(),
            r.multiplanar().is_none(),
            r.submitted() == 0,
            r.completed() == 0,
    {
        Self::with_capabilities(
            replies,
            SyncCapabilities::default(),
            ModifierCapabilities::default(),
            MultiPlanarCapabilities::default(),
        )
    }

    /// Create a bridge for a device with these capabilities.
    pub(crate) fn with_capabilities(
        replies: Option<&Vec<FormatReply>>,
        sync_capabilities: SyncCapabilities,
        modifier_capabilities: ModifierCapabilities,
        multiplanar_capabilities: MultiPlanarCapabilities,
    ) -> (r: WgpuBridge)
        requires
            replies matches Some(list) ==> list@.len() == format_mappings().len(),
        ensures
            r.formats() == device_formats(
                match replies {
                    Some(list) => Some(list@),
                    None => None,
                },
            ),
            r.sync() == sync_capabilities,
            r.modifier() == modifier_capabilities,
            r.multiplanar() == multiplanar_capabilities,
            r.submitted() == 0,
            r.completed() == 0,
    {
        let supported_formats = query_supported_formats(replies);
        proof {
            law_device_formats_consistent(
                match replies {
                    Some(list) => Some(list@),
                    None => None,
                },
            );
        }
        WgpuBridge {
            supported_formats,
            sync_capabilities,
            modifier_capabilities,
            multiplanar_capabilities,
            frame_counter: 0,
            last_completed_frame: 0,
        }
    }

    /// Import a dmabuf as a texture of a single plane: the import to go on with.
    ///
    /// It fails where the dmabuf has no pixels, no plane, or a format of several planes or of no
    /// texture.
    pub fn import_dmabuf(&self, dmabuf: &DmabufInfo) -> (r: Result<SinglePlaneImport, ImportError>)
        ensures
            told(r) == dmabuf.spec_single_plane(),
    {
        dmabuf.single_plane_import()
    }

    /// Import a dmabuf with automatic format detection: the import that suits it.
    ///
    /// Multi-planar formats (NV12, P010, YUV420, etc.) are imported as several planes, all others
    /// (ARGB, XRGB, etc.) as a single plane.
    pub fn import_dmabuf_auto(&self, dmabuf: &DmabufInfo, device_available: bool) -> (r: Result<
        AutoImport,
        ImportError,
    >)
        requires
            self.planar_offsets_suffice(*dmabuf, None, device_available),
        ensures
            if crate::multiplanar::planar_layout(dmabuf.fourcc) is Some {
                match r {
                    Ok(AutoImport::MultiPlanar(import)) => self.planar_outcome(
                        *dmabuf,
                        None,
                        device_available,
                        Ok(import),
                    ),
                    Ok(AutoImport::SinglePlane(_)) => false,
                    Err(e) => self.planar_outcome(*dmabuf, None, device_available, Err(e)),
                }
            } else {
                match r {
                    Ok(AutoImport::SinglePlane(import)) => dmabuf.spec_single_plane() == Ok::<
                        SinglePlaneImport,
                        ImportErrorView,
                    >(import),
                    Ok(AutoImport::MultiPlanar(_)) => false,
                    Err(e) => dmabuf.spec_single_plane() == Err::<
                        SinglePlaneImport,
                        ImportErrorView,
                    >(e@),
                }
            },
    {
        if is_multiplanar_format(dmabuf.fourcc) {
            match self.import_multiplanar_dmabuf(dmabuf, None, device_available) {
                Ok(import) => Ok(AutoImport::MultiPlanar(import)),
                Err(e) => Err(e),
            }
        } else {
            match self.import_dmabuf(dmabuf) {
                Ok(import) => Ok(AutoImport::SinglePlane(import)),
                Err(e) => Err(e),
            }
        }
    }

    /// The format with which a multi-planar dmabuf is imported, or why it cannot be imported.
    pub open spec fn spec_planar(
        self,
        dmabuf: DmabufInfo,
        colorspace: Option<YcbcrColorspace>,
        device_available: bool,
    ) -> Result<crate::multiplanar::MultiPlanarFormat, ImportErrorView> {
        let width = dmabuf.width as u32;
        let height = dmabuf.height as u32;
        let colors = match colorspace {
            Some(c) => c,
            None => YcbcrColorspace::narrow(crate::multiplanar::YcbcrModel::Bt601),
        };
        if !self.multiplanar().has_ycbcr_conversion {
            Err(
                ImportErrorView::ImageCreation(
                    "Multi-planar import requires VK_KHR_sampler_ycbcr_conversion"@,
                ),
            )
        } else if width == 0 || height == 0 {
            Err(ImportErrorView::InvalidDimensions { width, height })
        } else {
            match crate::multiplanar::planar_format(dmabuf.fourcc, colors) {
                None => Err(ImportErrorView::UnsupportedFormat(dmabuf.fourcc)),
                Some(format) => if !self.multiplanar().spec_supports(dmabuf.fourcc) {
                    Err(ImportErrorView::UnsupportedFormat(dmabuf.fourcc))
                } else if dmabuf.fds@.len() < format.plane_count {
                    Err(
                        ImportErrorView::InvalidPlanes(
                            "Expected "@ + decimal_text(format.plane_count as nat)
                                + " planes for "@ + dmabuf.fourcc.spec_text() + ", got "@
                                + decimal_text(dmabuf.fds@.len()),
                        ),
                    )
                } else if !device_available {
                    Err(ImportErrorView::BridgeUnavailable)
                } else {
                    Ok(format)
                },
            }
        }
    }

    /// Whether this is what the import of a multi-planar dmabuf leads to.
    pub open spec fn planar_outcome(
        self,
        dmabuf: DmabufInfo,
        colorspace: Option<YcbcrColorspace>,
        device_available: bool,
        outcome: Result<PlanarImport, ImportError>,
    ) -> bool {
        match (self.spec_planar(dmabuf, colorspace, device_available), outcome) {
            (Ok(format), Ok(import)) => {
                &&& import.format == format
                &&& import.width == dmabuf.width as u32
                &&& import.height == dmabuf.height as u32
                &&& import.plane_fds@ == dmabuf.fds@
                &&& import.plane_offsets@ == dmabuf.offsets@
                &&& import.wf()
            },
            (Err(e), Err(error)) => error@ == e,
            _ => false,
        }
    }

    /// Whether there is an offset for every plane, where the dmabuf can be imported.
    pub open spec fn planar_offsets_suffice(
        self,
        dmabuf: DmabufInfo,
        colorspace: Option<YcbcrColorspace>,
        device_available: bool,
    ) -> bool {
        self.spec_planar(dmabuf, colorspace, device_available) matches Ok(format)
            ==> dmabuf.offsets@.len() >= format.plane_count
    }

    /// Check that there is an offset for every plane, where the dmabuf can be imported.
    pub fn has_planar_offsets(
        &self,
        dmabuf: &DmabufInfo,
        colorspace: Option<YcbcrColorspace>,
        device_available: bool,
    ) -> (r: bool)
        ensures
            r == self.planar_offsets_suffice(*dmabuf, colorspace, device_available),
    {
        match self.importable_format(dmabuf, colorspace, device_available) {
            Ok(format) => dmabuf.offsets.len() >= format.plane_count as usize,
            Err(_) => true,
        }
    }

    /// The format with which a multi-planar dmabuf is imported.
    fn importable_format(
        &self,
        dmabuf: &DmabufInfo,
        colorspace: Option<YcbcrColorspace>,
        device_available: bool,
    ) -> (r: Result<crate::multiplanar::MultiPlanarFormat, ImportError>)
        ensures
            told(r) == self.spec_planar(*dmabuf, colorspace, device_available),
    {
        if !self.multiplanar_capabilities.has_ycbcr_conversion {
            return Err(
                ImportError::ImageCreation(
                    "Multi-planar import requires VK_KHR_sampler_ycbcr_conversion".to_owned(),
                ),
            );
        }
        let width: u32 = dmabuf.width as u32;
        let height: u32 = dmabuf.height as u32;
        if width == 0 || height == 0 {
            return Err(ImportError::InvalidDimensions { width, height });
        }
        let colors = match colorspace {
            Some(c) => c,
            None => YcbcrColorspace::default(),
        };
        let format = match multiplanar_format_with_colorspace(dmabuf.fourcc, colors) {
            Some(format) => format,
            None => {
                return Err(ImportError::UnsupportedFormat(dmabuf.fourcc));
            },
        };
        if !self.multiplanar_capabilities.supports_format(dmabuf.fourcc) {
            return Err(ImportError::UnsupportedFormat(dmabuf.fourcc));
        }
        if dmabuf.fds.len() < format.plane_count as usize {
            let mut text = joined("Expected ", decimal(format.plane_count as u64).as_str());
            text.append(" planes for ");
            text.append(dmabuf.fourcc.text().as_str());
            text.append(", got ");
            text.append(decimal(dmabuf.fds.len() as u64).as_str());
            return Err(ImportError::InvalidPlanes(text));
        }
        if !device_available {
            return Err(ImportError::BridgeUnavailable);
        }
        Ok(format)
    }

    /// Import a multi-planar dmabuf (NV12, P010, etc.): the import to go on with.
    ///
    /// The colorspace is the given one, or else BT.601 with the narrow range. The import needs
    /// YCbCr conversion, a supported format, a file descriptor for each plane, and a Vulkan
    /// device.
    pub fn import_multiplanar_dmabuf(
        &self,
        dmabuf: &DmabufInfo,
        colorspace: Option<YcbcrColorspace>,
        device_available: bool,
    ) -> (r: Result<PlanarImport, ImportError>)
        requires
            self.planar_offsets_suffice(*dmabuf, colorspace, device_available),
        ensures
            self.planar_outcome(*dmabuf, colorspace, device_available, r),
    {
        let format = match self.importable_format(dmabuf, colorspace, device_available) {
            Ok(format) => format,
            Err(e) => {
                return Err(e);
            },
        };
        let width: u32 = dmabuf.width as u32;
        let height: u32 = dmabuf.height as u32;
        crate::multiplanar::import_multiplanar_dmabuf(
            &format,
            width,
            height,
            copied(&dmabuf.fds),
            copied(&dmabuf.offsets),
            &dmabuf.strides,
        )
    }

    /// The texture and the Vulkan format of an import with an explicit modifier, or why it cannot
    /// be imported.
    pub open spec fn spec_with_modifier(
        self,
        dmabuf: DmabufInfo,
        info: ExplicitModifierCreateInfo,
        device_available: bool,
    ) -> Result<(crate::dmabuf::ImportTarget, VkFormat), ImportErrorView> {
        if !self.modifier().spec_supports_modifiers() {
            Err(ImportErrorView::UnsupportedModifier(info.modifier))
        } else {
            match dmabuf.spec_target() {
                Err(e) => Err(e),
                Ok(target) => match crate::dmabuf::spec_vk_format(target.format, target.fourcc) {
                    Err(e) => Err(e),
                    Ok(vk_format) => match format_modifier(
                        self.formats(),
                        dmabuf.fourcc,
                        info.modifier,
                    ) {
                        None => Err(ImportErrorView::UnsupportedModifier(info.modifier)),
                        Some(props) => if info.plane_layouts@.len() != props.plane_count {
                            Err(
                                ImportErrorView::InvalidPlanes(
                                    "Modifier expects "@ + decimal_text(props.plane_count as nat)
                                        + " planes, got "@ + decimal_text(
                                        info.plane_layouts@.len(),
                                    ),
                                ),
                            )
                        } else if dmabuf.planes() < props.plane_count {
                            Err(
                                ImportErrorView::InvalidPlanes(
                                    "Dmabuf has "@ + decimal_text(dmabuf.planes())
                                        + " planes, need "@ + decimal_text(
                                        props.plane_count as nat,
                                    ),
                                ),
                            )
                        } else if !device_available {
                            Err(ImportErrorView::BridgeUnavailable)
                        } else {
                            Ok((target, vk_format))
                        },
                    },
                },
            }
        }
    }

    /// Check that the dmabuf has a plane, where it can be imported with the modifier. Where it can,
    /// it has as many planes as the modifier, so that only a modifier without planes leaves this
    /// open.
    pub fn has_modifier_plane(
        &self,
        dmabuf: &DmabufInfo,
        info: &ExplicitModifierCreateInfo,
        device_available: bool,
    ) -> (r: bool)
        ensures
            r == (self.spec_with_modifier(*dmabuf, *info, device_available) is Ok
                ==> dmabuf.planes() > 0),
    {
        dmabuf.plane_count() > 0 || self.modifier_target(dmabuf, info, device_available).is_err()
    }

    /// The texture and the Vulkan format of an import with an explicit modifier.
    fn modifier_target(
        &self,
        dmabuf: &DmabufInfo,
        info: &ExplicitModifierCreateInfo,
        device_available: bool,
    ) -> (r: Result<(crate::dmabuf::ImportTarget, VkFormat), ImportError>)
        ensures
            told(r) == self.spec_with_modifier(*dmabuf, *info, device_available),
    {
        if !self.modifier_capabilities.supports_modifiers() {
            return Err(ImportError::UnsupportedModifier(info.modifier));
        }
        let target = match dmabuf.target() {
            Ok(target) => target,
            Err(e) => {
                return Err(e);
            },
        };
        let vk_format = match wgpu_to_vk_format(target.format, target.fourcc) {
            Ok(vk_format) => vk_format,
            Err(e) => {
                return Err(e);
            },
        };
        let expected: usize = match self.get_modifier_properties(dmabuf.fourcc, info.modifier) {
            Some(props) => props.plane_count as usize,
            None => {
                return Err(ImportError::UnsupportedModifier(info.modifier));
            },
        };
        if info.plane_layouts.len() != expected {
            let mut text = joined("Modifier expects ", decimal(expected as u64).as_str());
            text.append(" planes, got ");
            text.append(decimal(info.plane_layouts.len() as u64).as_str());
            return Err(ImportError::InvalidPlanes(text));
        }
        let planes: usize = dmabuf.plane_count();
        if planes < expected {
            let mut text = joined("Dmabuf has ", decimal(planes as u64).as_str());
            text.append(" planes, need ");
            text.append(decimal(expected as u64).as_str());
            return Err(ImportError::InvalidPlanes(text));
        }
        if !device_available {
            return Err(ImportError::BridgeUnavailable);
        }
        Ok((target, vk_format))
    }

    /// Import a dmabuf with explicit modifier support: the import to go on with.
    ///
    /// This takes dmabufs with tiled memory layouts. The modifier has to be supported for the
    /// format, with a layout for each of its planes.
    pub fn import_dmabuf_with_modifier(
        &self,
        dmabuf: &DmabufInfo,
        info: &ExplicitModifierCreateInfo,
        device_available: bool,
    ) -> (r: Result<ModifierImage, ImportError>)
        requires
            self.spec_with_modifier(*dmabuf, *info, device_available) is Ok ==> dmabuf.planes() > 0,
        ensures
            match (self.spec_with_modifier(*dmabuf, *info, device_available), r) {
                (Ok((target, vk_format)), Ok(import)) => {
                    &&& import.target == target
                    &&& import.fd == dmabuf.fds@[0]
                    &&& import.vk_format == vk_format
                    &&& import.modifier == info.modifier
                    &&& import.plane_layouts@ == subresources(info.plane_layouts@)
                },
                (Err(e), Err(error)) => error@ == e,
                _ => false,
            },
    {
        let (target, vk_format) = match self.modifier_target(dmabuf, info, device_available) {
            Ok(found) => found,
            Err(e) => {
                return Err(e);
            },
        };
        Ok(
            ModifierImage {
                target,
                fd: dmabuf.fds[0],
                vk_format,
                modifier: info.modifier,
                plane_layouts: subresource_layouts(info),
            },
        )
    }

    /// The supported formats.
    pub fn supported_formats(&self) -> (r: &Vec<SupportedFormat>)
        ensures
            format_views(r@) == self.formats(),
            formats_consistent(self.formats()),
    {
        proof {
            use_type_invariant(self);
        }
        &self.supported_formats
    }

    /// The sync capabilities of the device.
    pub fn sync_capabilities(&self) -> (r: &SyncCapabilities)
        ensures
            *r == self.sync(),
    {
        &self.sync_capabilities
    }

    /// The DRM format modifier capabilities of the device.
    pub fn modifier_capabilities(&self) -> (r: &ModifierCapabilities)
        ensures
            *r == self.modifier(),
    {
        &self.modifier_capabilities
    }

    /// The multi-planar capabilities of the device.
    pub fn multiplanar_capabilities(&self) -> (r: &MultiPlanarCapabilities)
        ensures
            *r == self.multiplanar(),
    {
        &self.multiplanar_capabilities
    }

    /// Whether multi-planar formats can be converted.
    pub fn supports_multiplanar(&self) -> (r: bool)
        ensures
            r == self.multiplanar().has_ycbcr_conversion,
    {
        self.multiplanar_capabilities.has_ycbcr_conversion
    }

    /// Whether a multi-planar format is supported.
    pub fn supports_multiplanar_format(&self, fourcc: DrmFourcc) -> (r: bool)
        ensures
            r == self.multiplanar().spec_supports(fourcc),
    {
        self.multiplanar_capabilities.supports_format(fourcc)
    }

    /// Whether modifiers are supported.
    pub fn supports_modifiers(&self) -> (r: bool)
        ensures
            r == self.modifier().spec_supports_modifiers(),
    {
        self.modifier_capabilities.supports_modifiers()
    }

    /// The first supported format with this fourcc.
    fn find_format(&self, fourcc: DrmFourcc) -> (r: Option<&SupportedFormat>)
        ensures
            match r {
                Some(format) => first_format(self.formats(), fourcc) == Some(format@),
                None => first_format(self.formats(), fourcc) is None,
            },
    {
        let mut i: usize = 0;
        while i < self.supported_formats.len()
            invariant
                i <= self.supported_formats@.len(),
                forall|j: int| 0 <= j < i ==> (#[trigger] self.formats()[j]).fourcc != fourcc,
            decreases self.supported_formats@.len() - i,
        {
            assert(self.formats()[i as int] == self.supported_formats@[i as int]@);
            if self.supported_formats[i].fourcc == fourcc {
                proof {
                    lemma_skip_formats(self.formats(), fourcc, i as int);
                }
                return Some(&self.supported_formats[i]);
            }
            i = i + 1;
        }
        proof {
            lemma_skip_formats(self.formats(), fourcc, i as int);
        }
        None
    }

    /// The modifiers of a format. `None` if the format is not supported.
    pub fn get_format_modifiers(&self, fourcc: DrmFourcc) -> (r: Option<&[ModifierProperties]>)
        ensures
            match first_format(self.formats(), fourcc) {
                Some(format) => r matches Some(props) && props@ == format.modifier_props,
                None => r is None,
            },
    {
        match self.find_format(fourcc) {
            Some(format) => Some(format.modifier_props.as_slice()),
            None => None,
        }
    }

    /// The properties of a modifier of a format.
    pub fn get_modifier_properties(&self, fourcc: DrmFourcc, modifier: u64) -> (r: Option<
        &ModifierProperties,
    >)
        ensures
            match r {
                Some(props) => format_modifier(self.formats(), fourcc, modifier) == Some(*props),
                None => format_modifier(self.formats(), fourcc, modifier) is None,
            },
    {
        match self.find_format(fourcc) {
            Some(format) => find_modifier(&format.modifier_props, modifier),
            None => None,
        }
    }

    /// Whether sync files can be exported.
    pub fn can_export_sync_fd(&self) -> (r: bool)
        ensures
            r == self.sync().can_export_sync_fd,
    {
        self.sync_capabilities.can_export_sync_fd
    }

    /// Submit a frame and return the frame number.
    ///
    /// This increments the frame counter, by which frame completion is tracked.
    pub fn submit_frame(&mut self) -> (r: u64)
        requires
            old(self).submitted() < u64::MAX,
        ensures
            r == old(self).submitted() + 1,
            final(self).submitted() == r,
            final(self).completed() == old(self).completed(),
            final(self).same_device(*old(self)),
    {
        proof {
            use_type_invariant(&*self);
        }
        self.frame_counter = self.frame_counter + 1;
        self.frame_counter
    }

    /// The number of the last submitted frame.
    pub fn current_frame(&self) -> (r: u64)
        ensures
            r == self.submitted(),
    {
        self.frame_counter
    }

    /// Wait for a specific frame to complete: how waiting for the device ended.
    ///
    /// The device is waited for as a whole, so that with any frame all those submitted before are
    /// complete.
    pub fn wait_for_frame(&mut self, _frame: u64, outcome: PollOutcome) -> (r: Result<
        (),
        BridgeError,
    >)
        ensures
            final(self).submitted() == old(self).submitted(),
            final(self).same_device(*old(self)),
            match outcome {
                PollOutcome::Completed => r is Ok && final(self).completed() == old(
                    self,
                ).submitted(),
                PollOutcome::TimedOut => final(self).completed() == old(self).completed() && (
                r matches Err(e) && e@ == BridgeErrorView::Sync("Wait timed out"@)),
                PollOutcome::Failed(text) => final(self).completed() == old(self).completed() && (
                r matches Err(e) && e@ == BridgeErrorView::Sync("poll error: "@ + text@)),
            },
    {
        proof {
            use_type_invariant(&*self);
        }
        match outcome {
            PollOutcome::Completed => {
                self.last_completed_frame = self.frame_counter;
                Ok(())
            },
            PollOutcome::TimedOut => Err(BridgeError::Sync("Wait timed out".to_owned())),
            PollOutcome::Failed(text) => Err(
                BridgeError::Sync(joined("poll error: ", text.as_str())),
            ),
        }
    }

    /// Wait for all submitted GPU work to complete: how waiting for the device ended.
    pub fn wait_idle(&mut self, outcome: PollOutcome) -> (r: Result<(), BridgeError>)
        ensures
            final(self).submitted() == old(self).submitted(),
            final(self).same_device(*old(self)),
            match outcome {
                PollOutcome::Completed => r is Ok && final(self).completed() == old(
                    self,
                ).submitted(),
                PollOutcome::TimedOut => final(self).completed() == old(self).completed() && (
                r matches Err(e) && e@ == BridgeErrorView::Sync("Wait timed out"@)),
                PollOutcome::Failed(text) => final(self).completed() == old(self).completed() && (
                r matches Err(e) && e@ == BridgeErrorView::Sync("poll error: "@ + text@)),
            },
    {
        let frame: u64 = self.current_frame();
        self.wait_for_frame(frame, outcome)
    }

    /// Get the last known completed frame number.
    pub fn last_completed_frame(&self) -> (r: u64)
        ensures
            r == self.completed(),
            r <= self.submitted(),
    {
        proof {
            use_type_invariant(self);
        }
        self.last_completed_frame
    }

    /// Check if a dmabuf format is supported.
    pub fn supports_format(&self, fourcc: DrmFourcc, modifier: u64) -> (r: bool)
        ensures
            r == format_supported(self.formats(), fourcc, modifier),
    {
        let mut i: usize = 0;
        while i < self.supported_formats.len()
            invariant
                i <= self.supported_formats@.len(),
                forall|j: int|
                    0 <= j < i ==> !((#[trigger] self.formats()[j]).fourcc == fourcc && (
                    self.formats()[j].modifiers.len() == 0
                        || self.formats()[j].modifiers.contains(modifier))),
            decreases self.supported_formats@.len() - i,
        {
            let format = &self.supported_formats[i];
            assert(self.formats()[i as int] == format@);
            if format.fourcc == fourcc && (format.modifiers.len() == 0 || contains_value(
                &format.modifiers,
                modifier,
            )) {
                return true;
            }
            i = i + 1;
        }
        false
    }
}

/// Whether a list holds a value.
fn contains_value(list: &Vec<u64>, value: u64) -> (r: bool)
    ensures
        r == list@.contains(value),
{
    let mut i: usize = 0;
    while i < list.len()
        invariant
            i <= list@.len(),
            forall|j: int| 0 <= j < i ==> list@[j] != value,
        decreases list@.len() - i,
    {
        if list[i] == value {
            return true;
        }
        i = i + 1;
    }
    false
}

/// Whatever a device replies, it has a supported format, and each supported format has the
/// modifiers of its properties and at least one.
pub proof fn law_device_formats_consistent(replies: Option<Seq<FormatReply>>)
    requires
        replies matches Some(list) ==> list.len() == format_mappings().len(),
    ensures
        formats_consistent(device_formats(replies)),
{
    let formats = device_formats(replies);
    assert forall|i: int| 0 <= i < formats.len() implies (#[trigger] formats[i]).modifiers
        == modifier_values(formats[i].modifier_props) && formats[i].modifiers.len() > 0 by {
        if let Some(list) = replies {
            if sampled_formats(list, format_mappings().len() as int).len() > 0 {
                let k = lemma_sampled_source(list, format_mappings().len() as int, i);
            }
        }
    }
}

/// No two supported formats of a device that replied have both their DRM format and their wgpu
/// format in common.
pub proof fn law_device_formats_distinct(replies: Seq<FormatReply>, n: int, i: int, j: int)
    requires
        0 <= n <= format_mappings().len(),
        0 <= i < j < sampled_formats(replies, n).len(),
    ensures
        sampled_formats(replies, n)[i].fourcc != sampled_formats(replies, n)[j].fourcc
            || sampled_formats(replies, n)[i].wgpu_format != sampled_formats(replies, n)[j].wgpu_format,
    decreases n,
{
    let before = sampled_formats(replies, n - 1);
    if replies[n - 1].features.spec_supports(FEATURE_SAMPLED_IMAGE) && j == before.len() {
        let k = lemma_sampled_source(replies, n - 1, i);
        lemma_mappings_differ(k, n - 1);
    } else {
        law_device_formats_distinct(replies, n - 1, i, j);
    }
}

/// A modifier whose properties are found for a format is supported with that format.
pub proof fn law_found_modifier_is_supported(
    formats: Seq<SupportedFormatView>,
    fourcc: DrmFourcc,
    modifier: u64,
)
    requires
        forall|i: int|
            0 <= i < formats.len() ==> (#[trigger] formats[i]).modifiers == modifier_values(
                formats[i].modifier_props,
            ),
        format_modifier(formats, fourcc, modifier) is Some,
    ensures
        format_supported(formats, fourcc, modifier),
        format_modifier(formats, fourcc, modifier).unwrap().modifier == modifier,
    decreases formats.len(),
{
    if formats[0].fourcc == fourcc {
        let props = formats[0].modifier_props;
        crate::modifiers::law_supported_modifier(props, modifier);
        let i = choose|i: int| 0 <= i < props.len() && (#[trigger] props[i]).modifier == modifier;
        assert(formats[0].modifiers[i] == modifier);
        assert(formats[0].modifiers.contains(modifier));
    } else {
        let rest = formats.skip(1);
        assert forall|i: int| 0 <= i < rest.len() implies (#[trigger] rest[i]).modifiers
            == modifier_values(rest[i].modifier_props) by {
            assert(rest[i] == formats[i + 1]);
        }
        law_found_modifier_is_supported(rest, fourcc, modifier);
        let i = choose|i: int|
            0 <= i < rest.len() && (#[trigger] rest[i]).fourcc == fourcc && (
            rest[i].modifiers.len() == 0 || rest[i].modifiers.contains(modifier));
        assert(formats[i + 1] == rest[i]);
    }
}

/// A format is found if and only if it is supported with some modifier.
pub proof fn law_format_found_iff_supported(formats: Seq<SupportedFormatView>, fourcc: DrmFourcc)
    requires
        formats_consistent(formats),
    ensures
        first_format(formats, fourcc) is Some <==> exists|m: u64|
            format_supported(formats, fourcc, m),
{
    lemma_first_format(formats, fourcc);
    if first_format(formats, fourcc) is Some {
        let i = choose|i: int| 0 <= i < formats.len() && (#[trigger] formats[i]).fourcc == fourcc;
        let m = formats[i].modifiers[0];
        assert(formats[i].modifiers.contains(m));
        assert(format_supported(formats, fourcc, m));
    }
}

/// A format is found where one has the fourcc.
proof fn lemma_first_format(formats: Seq<SupportedFormatView>, fourcc: DrmFourcc)
    ensures
        first_format(formats, fourcc) is Some <==> exists|i: int|
            0 <= i < formats.len() && (#[trigger] formats[i]).fourcc == fourcc,
    decreases formats.len(),
{
    if formats.len() > 0 && formats[0].fourcc != fourcc {
        let rest = formats.skip(1);
        lemma_first_format(rest, fourcc);
        assert forall|i: int| 0 <= i < rest.len() implies #[trigger] rest[i] == formats[i + 1] by {}
        if exists|i: int| 0 <= i < formats.len() && (#[trigger] formats[i]).fourcc == fourcc {
            let i = choose|i: int|
                0 <= i < formats.len() && (#[trigger] formats[i]).fourcc == fourcc;
            assert(rest[i - 1].fourcc == fourcc);
        }
    }
}

/// A device of which nothing is known supports the common formats with eight bits for each of four
/// components, and ARGB2101010, with the linear modifier, and nothing else.
pub proof fn law_default_formats_linear(fourcc: DrmFourcc, modifier: u64)
    ensures
        format_supported(default_formats(), fourcc, modifier) <==> modifier == drm_mod::LINEAR && (
        fourcc == DrmFourcc::Argb8888 || fourcc == DrmFourcc::Xrgb8888 || fourcc
            == DrmFourcc::Abgr8888 || fourcc == DrmFourcc::Xbgr8888 || fourcc
            == DrmFourcc::Argb2101010),
{
    let formats = default_formats();
    assert forall|i: int| 0 <= i < 5 implies (#[trigger] formats[i]).modifiers.len() == 1
        && formats[i].modifiers[0] == drm_mod::LINEAR by {}
    if modifier == drm_mod::LINEAR {
        assert forall|i: int| 0 <= i < 5 implies (#[trigger] formats[i]).modifiers.contains(
            modifier,
        ) by {
            assert(formats[i].modifiers[0] == modifier);
        }
        assert(formats[0].fourcc == DrmFourcc::Argb8888);
        assert(formats[1].fourcc == DrmFourcc::Xrgb8888);
        assert(formats[2].fourcc == DrmFourcc::Abgr8888);
        assert(formats[3].fourcc == DrmFourcc::Xbgr8888);
        assert(formats[4].fourcc == DrmFourcc::Argb2101010);
    }
}

/// The formats that a device is asked about have the texture formats with which their dmabufs are
/// imported, or the sRGB variants of these. Their Vulkan formats have the same components in the same
/// order.
pub proof fn law_queried_formats(
    queried: Vec<(DrmFourcc, VkFormat, TextureFormat)>,
    i: int,
    imported: TextureFormat,
    raw: i32,
)
    requires
        call_ensures(queried_formats, (), queried),
        0 <= i < queried@.len(),
        call_ensures(
            crate::dmabuf::dmabuf_to_wgpu_format,
            (queried@[i].0,),
            Ok::<TextureFormat, ImportError>(imported),
        ),
        call_ensures(VkFormat::as_raw, (queried@[i].1,), raw),
    ensures
        ({
            let format = queried@[i].2;
            &&& imported == format || (imported == TextureFormat::Bgra8Unorm && format
                == TextureFormat::Bgra8UnormSrgb) || (imported == TextureFormat::Rgba8Unorm && format
                == TextureFormat::Rgba8UnormSrgb)
            &&& raw == 9 <==> format == TextureFormat::R8Unorm
            &&& raw == 16 <==> format == TextureFormat::Rg8Unorm
            &&& raw == 37 <==> format == TextureFormat::Rgba8Unorm
            &&& raw == 43 <==> format == TextureFormat::Rgba8UnormSrgb
            &&& raw == 44 <==> format == TextureFormat::Bgra8Unorm
            &&& raw == 50 <==> format == TextureFormat::Bgra8UnormSrgb
            &&& raw == 64 <==> format == TextureFormat::Rgb10a2Unorm
        }),
        queried@.len() == 11,
{
}

/// Every format of a single plane is asked about with the texture format of its import, except packed
/// RGB.
pub proof fn law_single_plane_formats_queried(
    queried: Vec<(DrmFourcc, VkFormat, TextureFormat)>,
    fourcc: DrmFourcc,
    format: TextureFormat,
)
    requires
        call_ensures(queried_formats, (), queried),
        call_ensures(
            crate::dmabuf::dmabuf_to_wgpu_format,
            (fourcc,),
            Ok::<TextureFormat, ImportError>(format),
        ),
        fourcc != DrmFourcc::Rgb888 && fourcc != DrmFourcc::Bgr888,
    ensures
        exists|i: int|
            0 <= i < queried@.len() && (#[trigger] queried@[i]).0 == fourcc && queried@[i].2 == format,
{
    let q = queried@;
    assert(q[0].0 == DrmFourcc::Argb8888 && q[1].0 == DrmFourcc::Xrgb8888);
    assert(q[2].0 == DrmFourcc::Abgr8888 && q[3].0 == DrmFourcc::Xbgr8888);
    assert(q[4].0 == DrmFourcc::Argb2101010 && q[5].0 == DrmFourcc::Xrgb2101010);
    assert(q[6].0 == DrmFourcc::R8 && q[7].0 == DrmFourcc::Rg88 && q[8].0 == DrmFourcc::Gr88);
}

/// A format that was asked about is found where its images can be sampled.
proof fn lemma_sampled_found(replies: Seq<FormatReply>, n: int, k: int) -> (i: int)
    requires
        0 <= k < n <= format_mappings().len(),
        replies[k].features.spec_supports(FEATURE_SAMPLED_IMAGE),
    ensures
        0 <= i < sampled_formats(replies, n).len(),
        sampled_formats(replies, n)[i] == supported_format(
            format_mappings()[k],
            replies[k].features.linear,
            replies[k].modifiers@,
        ),
    decreases n,
{
    if k == n - 1 {
        sampled_formats(replies, n - 1).len() as int
    } else {
        lemma_sampled_found(replies, n - 1, k)
    }
}

/// A format that a device was asked about is supported if and only if its images can be sampled with
/// linear or with optimal tiling, where any format is: features of optimal tiling alone suffice. It
/// has the modifiers that were reported, and where none were, the linear one with one plane and the
/// features of linear tiling.
pub proof fn law_format_supported_by_features(
    replies: Vec<FormatReply>,
    queried: Vec<(DrmFourcc, VkFormat, TextureFormat)>,
    formats: Vec<SupportedFormat>,
    k: int,
    any: int,
)
    requires
        replies@.len() == 11,
        call_ensures(queried_formats, (), queried),
        call_ensures(query_vulkan_format_support, (&replies,), formats),
        0 <= k < 11,
        0 <= any < 11,
        replies@[any].features.linear & 0x1 == 0x1 || replies@[any].features.optimal & 0x1 == 0x1,
    ensures
        replies@[k].features.linear & 0x1 == 0x1 || replies@[k].features.optimal & 0x1 == 0x1
            <==> exists|i: int|
            0 <= i < formats@.len() && (#[trigger] formats@[i]).fourcc == queried@[k].0
                && formats@[i].wgpu_format == queried@[k].2,
        forall|i: int|
            0 <= i < formats@.len() && (#[trigger] formats@[i]).fourcc == queried@[k].0
                && formats@[i].wgpu_format == queried@[k].2 ==> {
                let f = formats@[i];
                let reported = replies@[k].modifiers@;
                &&& f.vk_format == queried@[k].1
                &&& reported.len() > 0 ==> f.modifier_props@ == reported
                &&& reported.len() == 0 ==> f.modifier_props@.len() == 1
                    && f.modifier_props@[0].modifier == 0 && f.modifier_props@[0].plane_count == 1
                    && f.modifier_props@[0].format_features == replies@[k].features.linear
                &&& f.modifiers@.len() == f.modifier_props@.len()
                &&& forall|j: int|
                    0 <= j < f.modifiers@.len() ==> #[trigger] f.modifiers@[j]
                        == f.modifier_props@[j].modifier
            },
{
    let found = sampled_formats(replies@, 11);
    let w = lemma_sampled_found(replies@, 11, any);
    assert(found.len() > 0);
    assert(format_views(formats@) == found);
    assert(formats@.len() == found.len());
    assert forall|i: int|
        0 <= i < formats@.len() && (#[trigger] formats@[i]).fourcc == queried@[k].0
            && formats@[i].wgpu_format == queried@[k].2 implies {
        let f = formats@[i];
        let reported = replies@[k].modifiers@;
        &&& f.vk_format == queried@[k].1
        &&& reported.len() > 0 ==> f.modifier_props@ == reported
        &&& reported.len() == 0 ==> f.modifier_props@.len() == 1 && f.modifier_props@[0].modifier == 0
            && f.modifier_props@[0].plane_count == 1 && f.modifier_props@[0].format_features
            == replies@[k].features.linear
        &&& f.modifiers@.len() == f.modifier_props@.len()
        &&& forall|j: int|
            0 <= j < f.modifiers@.len() ==> #[trigger] f.modifiers@[j]
                == f.modifier_props@[j].modifier
        &&& replies@[k].features.spec_supports(FEATURE_SAMPLED_IMAGE)
    } by {
        assert(format_views(formats@)[i] == formats@[i]@);
        let source = lemma_sampled_source(replies@, 11, i);
        if source < k {
            lemma_mappings_differ(source, k);
        }
        if k < source {
            lemma_mappings_differ(k, source);
        }
        assert(source == k);
    }
    if replies@[k].features.spec_supports(FEATURE_SAMPLED_IMAGE) {
        let i = lemma_sampled_found(replies@, 11, k);
        assert(format_views(formats@)[i] == formats@[i]@);
        assert(formats@[i].fourcc == queried@[k].0);
    }
}

/// A device on which no format can be sampled has the formats of one that could not be asked, and so
/// has a bridge on it.
pub proof fn law_nothing_found_is_default(
    replies: Vec<FormatReply>,
    formats: Vec<SupportedFormat>,
    standard: Vec<SupportedFormat>,
    unasked: Vec<SupportedFormat>,
)
    requires
        replies@.len() == 11,
        forall|k: int|
            0 <= k < 11 ==> (#[trigger] replies@[k]).features.linear & 0x1 != 0x1
                && replies@[k].features.optimal & 0x1 != 0x1,
        call_ensures(query_vulkan_format_support, (&replies,), formats),
        call_ensures(default_supported_formats, (), standard),
        call_ensures(query_supported_formats, (None,), unasked),
    ensures
        format_views(formats@) == format_views(standard@),
        format_views(unasked@) == format_views(standard@),
{
    lemma_none_sampled(replies@, 11);
}

/// Where no format can be sampled, none is found.
proof fn lemma_none_sampled(replies: Seq<FormatReply>, n: int)
    requires
        0 <= n <= 11,
        forall|k: int|
            0 <= k < 11 ==> (#[trigger] replies[k]).features.linear & 0x1 != 0x1
                && replies[k].features.optimal & 0x1 != 0x1,
    ensures
        sampled_formats(replies, n).len() == 0,
    decreases n,
{
    if n > 0 {
        lemma_none_sampled(replies, n - 1);
        assert(replies[n - 1].features.linear & 0x1 != 0x1);
    }
}

/// The default formats are the common ones, with their texture formats and the linear modifier of one
/// plane, which can be sampled.
pub proof fn law_default_formats(formats: Vec<SupportedFormat>, i: int, imported: TextureFormat)
    requires
        call_ensures(default_supported_formats, (), formats),
        0 <= i < formats@.len(),
        call_ensures(
            crate::dmabuf::dmabuf_to_wgpu_format,
            (formats@[i].fourcc,),
            Ok::<TextureFormat, ImportError>(imported),
        ),
    ensures
        formats@.len() == 5,
        formats@[i].wgpu_format == imported,
        formats@[i].modifiers@ == seq![0u64],
        formats@[i].modifier_props@.len() == 1,
        formats@[i].modifier_props@[0] == (ModifierProperties {
            modifier: 0,
            plane_count: 1,
            format_features: 0x1,
        }),
{
    let views = default_formats();
    assert(format_views(formats@) == views);
    assert(formats@.len() == views.len());
    assert(views[i] == formats@[i]@);
    assert(formats@[i].modifiers@ =~= seq![0u64]);
}

/// The format that is found for a fourcc is the first one with it.
proof fn lemma_first_format_place(formats: Seq<SupportedFormatView>, fourcc: DrmFourcc) -> (i: int)
    requires
        first_format(formats, fourcc) is Some,
    ensures
        0 <= i < formats.len(),
        first_format(formats, fourcc) == Some(formats[i]),
        formats[i].fourcc == fourcc,
        forall|j: int| 0 <= j < i ==> (#[trigger] formats[j]).fourcc != fourcc,
    decreases formats.len(),
{
    if formats[0].fourcc == fourcc {
        0
    } else {
        let rest = formats.skip(1);
        let k = lemma_first_format_place(rest, fourcc);
        assert forall|j: int| 0 <= j < k + 1 implies (#[trigger] formats[j]).fourcc != fourcc by {
            if j > 0 {
                assert(rest[j - 1] == formats[j]);
            }
        }
        k + 1
    }
}

/// The modifiers that a bridge tells for a format are those of the first supported format with this
/// fourcc. Where it tells none, no supported format has it.
pub proof fn law_modifiers_of_first_format(
    bridge: WgpuBridge,
    fourcc: DrmFourcc,
    r: Option<&[ModifierProperties]>,
    j: int,
)
    requires
        call_ensures(WgpuBridge::get_format_modifiers, (&bridge, fourcc), r),
        0 <= j < bridge.formats().len(),
    ensures
        r matches Some(props) ==> exists|i: int|
            0 <= i < bridge.formats().len() && (#[trigger] bridge.formats()[i]).fourcc == fourcc
                && bridge.formats()[i].modifier_props == props@ && (bridge.formats()[j].fourcc
                == fourcc ==> i <= j),
        r is None ==> bridge.formats()[j].fourcc != fourcc,
{
    lemma_first_format(bridge.formats(), fourcc);
    if first_format(bridge.formats(), fourcc) is Some {
        let i = lemma_first_format_place(bridge.formats(), fourcc);
        assert(bridge.formats()[i].fourcc == fourcc);
    }
}

/// The properties that a bridge tells for a modifier of a format have the value of the modifier and
/// are among the modifiers of that format.
pub proof fn law_properties_of_modifier(
    bridge: WgpuBridge,
    fourcc: DrmFourcc,
    modifier: u64,
    props: Option<&[ModifierProperties]>,
    r: Option<&ModifierProperties>,
)
    requires
        call_ensures(WgpuBridge::get_format_modifiers, (&bridge, fourcc), props),
        call_ensures(WgpuBridge::get_modifier_properties, (&bridge, fourcc, modifier), r),
    ensures
        r matches Some(p) ==> p.modifier == modifier && props is Some && props->0@.contains(*p),
        r is Some <==> (props matches Some(list) && exists|i: int|
            0 <= i < list@.len() && (#[trigger] list@[i]).modifier == modifier),
{
    if let Some(list) = props {
        crate::modifiers::law_supported_modifier(list@, modifier);
    }
}

/// A format is supported with a modifier if and only if one of the formats has both. A format without
/// modifiers takes any.
pub proof fn law_supported_with_modifier(
    bridge: WgpuBridge,
    fourcc: DrmFourcc,
    modifier: u64,
    r: bool,
    j: int,
)
    requires
        call_ensures(WgpuBridge::supports_format, (&bridge, fourcc, modifier), r),
        0 <= j < bridge.formats().len(),
    ensures
        bridge.formats()[j].fourcc == fourcc && (bridge.formats()[j].modifiers.len() == 0
            || bridge.formats()[j].modifiers.contains(modifier)) ==> r,
        r ==> exists|i: int|
            0 <= i < bridge.formats().len() && (#[trigger] bridge.formats()[i]).fourcc == fourcc && (
            bridge.formats()[i].modifiers.len() == 0 || bridge.formats()[i].modifiers.contains(
                modifier,
            )),
{
}

/// A multi-planar dmabuf is imported if and only if YCbCr is converted, the dmabuf has pixels, its
/// format is multi-planar and supported, it has a file descriptor for every plane, and there is a
/// Vulkan device.
pub proof fn law_planar_import_needs(
    bridge: WgpuBridge,
    dmabuf: DmabufInfo,
    colorspace: Option<YcbcrColorspace>,
    device_available: bool,
    supported: bool,
    planar: Option<crate::multiplanar::MultiPlanarFormat>,
    r: Result<PlanarImport, ImportError>,
)
    requires
        call_ensures(WgpuBridge::supports_multiplanar_format, (&bridge, dmabuf.fourcc), supported),
        call_ensures(crate::multiplanar::multiplanar_format, (dmabuf.fourcc,), planar),
        call_ensures(
            WgpuBridge::import_multiplanar_dmabuf,
            (&bridge, &dmabuf, colorspace, device_available),
            r,
        ),
    ensures
        r is Ok <==> bridge.multiplanar().has_ycbcr_conversion && supported && dmabuf.width != 0
            && dmabuf.height != 0 && device_available && (planar matches Some(f) && dmabuf.fds@.len()
            >= f.plane_count),
        !bridge.multiplanar().has_ycbcr_conversion ==> (r matches Err(e) && e@
            == ImportErrorView::ImageCreation(
            "Multi-planar import requires VK_KHR_sampler_ycbcr_conversion"@,
        )),
        bridge.multiplanar().has_ycbcr_conversion && (dmabuf.width == 0 || dmabuf.height == 0) ==> (
        r matches Err(e) && e@ == (ImportErrorView::InvalidDimensions {
            width: dmabuf.width as u32,
            height: dmabuf.height as u32,
        })),
        bridge.multiplanar().has_ycbcr_conversion && supported && dmabuf.width != 0 && dmabuf.height
            != 0 && planar is Some && r is Err ==> {
            let n = planar->0.plane_count;
            if dmabuf.fds@.len() < n {
                r->Err_0@ == ImportErrorView::InvalidPlanes(
                    "Expected "@ + decimal_text(n as nat) + " planes for "@
                        + dmabuf.fourcc.spec_text() + ", got "@ + decimal_text(dmabuf.fds@.len()),
                )
            } else {
                r->Err_0@ == ImportErrorView::BridgeUnavailable
            }
        },
        bridge.multiplanar().has_ycbcr_conversion && dmabuf.width != 0 && dmabuf.height != 0 && (
        planar is None || !supported) ==> (r matches Err(e) && e@
            == ImportErrorView::UnsupportedFormat(dmabuf.fourcc)),
{
    let w = dmabuf.width;
    let h = dmabuf.height;
    assert(w as u32 == 0u32 <==> w == 0i32) by (bit_vector);
    assert(h as u32 == 0u32 <==> h == 0i32) by (bit_vector);
}

/// The import of a multi-planar dmabuf has the dimensions, the file descriptors and the offsets of the
/// dmabuf, and the planes and the depth of its format. Its colors are the given ones, and those of
/// BT.601 with the narrow range where none are given.
pub proof fn law_planar_import_keeps(
    bridge: WgpuBridge,
    dmabuf: DmabufInfo,
    colorspace: Option<YcbcrColorspace>,
    device_available: bool,
    planar: crate::multiplanar::MultiPlanarFormat,
    import: PlanarImport,
)
    requires
        call_ensures(crate::multiplanar::multiplanar_format, (dmabuf.fourcc,), Some(planar)),
        call_ensures(
            WgpuBridge::import_multiplanar_dmabuf,
            (&bridge, &dmabuf, colorspace, device_available),
            Ok::<PlanarImport, ImportError>(import),
        ),
    ensures
        import.width == dmabuf.width as u32 && import.height == dmabuf.height as u32,
        import.plane_fds@ == dmabuf.fds@ && import.plane_offsets@ == dmabuf.offsets@,
        import.format.fourcc == dmabuf.fourcc,
        import.format.vk_format == planar.vk_format,
        import.format.plane_count == planar.plane_count,
        import.format.bit_depth == planar.bit_depth,
        import.format.chroma_subsampling == planar.chroma_subsampling,
        colorspace matches Some(c) ==> import.format.ycbcr_model == c.model
            && import.format.ycbcr_range == c.range,
        colorspace is None ==> import.format.ycbcr_model == crate::multiplanar::YcbcrModel::Bt601
            && import.format.ycbcr_range == crate::multiplanar::YcbcrRange::Narrow,
{
}

/// The import that suits a dmabuf is that of several planes where its format is multi-planar, and that
/// of a single plane for all others: it does what the import of that kind does.
pub proof fn law_auto_import_suits(
    bridge: WgpuBridge,
    dmabuf: DmabufInfo,
    device_available: bool,
    planar: bool,
    r: Result<AutoImport, ImportError>,
    single: Result<SinglePlaneImport, ImportError>,
    several: Result<PlanarImport, ImportError>,
)
    requires
        call_ensures(is_multiplanar_format, (dmabuf.fourcc,), planar),
        call_ensures(WgpuBridge::import_dmabuf_auto, (&bridge, &dmabuf, device_available), r),
        call_ensures(WgpuBridge::import_dmabuf, (&bridge, &dmabuf), single),
        call_ensures(
            WgpuBridge::import_multiplanar_dmabuf,
            (&bridge, &dmabuf, None, device_available),
            several,
        ),
    ensures
        planar ==> (r is Ok <==> several is Ok),
        !planar ==> (r is Ok <==> single is Ok),
        r matches Ok(import) ==> (import is MultiPlanar <==> planar),
        r matches Ok(AutoImport::SinglePlane(import)) ==> single == Ok::<
            SinglePlaneImport,
            ImportError,
        >(import),
        r matches Ok(AutoImport::MultiPlanar(import)) ==> (several matches Ok(other)
            && other.format == import.format && other.plane_fds@ == import.plane_fds@
            && other.plane_offsets@ == import.plane_offsets@ && other.width == import.width
            && other.height == import.height),
        r matches Err(e) ==> {
            let other = if planar {
                several->Err_0@
            } else {
                single->Err_0@
            };
            e@ == other
        },
{
}

/// A bridge imports a dmabuf as a single plane as the dmabuf itself tells.
pub proof fn law_bridge_imports_single_plane(
    bridge: WgpuBridge,
    dmabuf: DmabufInfo,
    r: Result<SinglePlaneImport, ImportError>,
    own: Result<SinglePlaneImport, ImportError>,
)
    requires
        call_ensures(WgpuBridge::import_dmabuf, (&bridge, &dmabuf), r),
        call_ensures(DmabufInfo::single_plane_import, (&dmabuf,), own),
    ensures
        told(r) == told(own),
{
}

/// A dmabuf is imported with an explicit modifier if and only if modifiers are supported, the dmabuf
/// has pixels and a format with four components, the modifier is one of that format, there is a layout
/// for each of its planes, the dmabuf has as many planes, and there is a Vulkan device.
pub proof fn law_modifier_import_needs(
    bridge: WgpuBridge,
    dmabuf: DmabufInfo,
    info: ExplicitModifierCreateInfo,
    device_available: bool,
    supported: bool,
    format: Result<TextureFormat, ImportError>,
    props: Option<&ModifierProperties>,
    planes: usize,
    r: Result<ModifierImage, ImportError>,
)
    requires
        call_ensures(WgpuBridge::supports_modifiers, (&bridge,), supported),
        call_ensures(crate::dmabuf::dmabuf_to_wgpu_format, (dmabuf.fourcc,), format),
        call_ensures(
            WgpuBridge::get_modifier_properties,
            (&bridge, dmabuf.fourcc, info.modifier),
            props,
        ),
        call_ensures(DmabufInfo::plane_count, (&dmabuf,), planes),
        call_ensures(
            WgpuBridge::import_dmabuf_with_modifier,
            (&bridge, &dmabuf, &info, device_available),
            r,
        ),
    ensures
        r is Ok <==> supported && dmabuf.width != 0 && dmabuf.height != 0 && (format matches Ok(f) && f
            != TextureFormat::R8Unorm && f != TextureFormat::Rg8Unorm) && (props matches Some(p)
            && info.plane_layouts@.len() == p.plane_count && planes >= p.plane_count)
            && device_available,
        !supported ==> (r matches Err(e) && e@ == ImportErrorView::UnsupportedModifier(
            info.modifier,
        )),
        supported && (dmabuf.width == 0 || dmabuf.height == 0) ==> (r matches Err(e) && e@ == (
        ImportErrorView::InvalidDimensions {
            width: dmabuf.width as u32,
            height: dmabuf.height as u32,
        })),
        supported && dmabuf.width != 0 && dmabuf.height != 0 && (format matches Ok(f) && f
            != TextureFormat::R8Unorm && f != TextureFormat::Rg8Unorm) && r is Err ==> match props {
            None => r->Err_0@ == ImportErrorView::UnsupportedModifier(info.modifier),
            Some(p) => if info.plane_layouts@.len() != p.plane_count {
                r->Err_0@ == ImportErrorView::InvalidPlanes(
                    "Modifier expects "@ + decimal_text(p.plane_count as nat) + " planes, got "@
                        + decimal_text(info.plane_layouts@.len()),
                )
            } else if planes < p.plane_count {
                r->Err_0@ == ImportErrorView::InvalidPlanes(
                    "Dmabuf has "@ + decimal_text(planes as nat) + " planes, need "@ + decimal_text(
                        p.plane_count as nat,
                    ),
                )
            } else {
                r->Err_0@ == ImportErrorView::BridgeUnavailable
            },
        },
{
    let w = dmabuf.width;
    let h = dmabuf.height;
    assert(w as u32 == 0u32 <==> w == 0i32) by (bit_vector);
    assert(h as u32 == 0u32 <==> h == 0i32) by (bit_vector);
}

/// The image of an import with an explicit modifier has that modifier, the dimensions of the dmabuf,
/// the Vulkan format of its texture format, and a layout for each plane just as it was given. Its
/// memory comes from the first plane.
pub proof fn law_modifier_import_keeps(
    bridge: WgpuBridge,
    dmabuf: DmabufInfo,
    info: ExplicitModifierCreateInfo,
    device_available: bool,
    import: ModifierImage,
    vk: Result<VkFormat, ImportError>,
    i: int,
)
    requires
        call_ensures(
            WgpuBridge::import_dmabuf_with_modifier,
            (&bridge, &dmabuf, &info, device_available),
            Ok::<ModifierImage, ImportError>(import),
        ),
        call_ensures(wgpu_to_vk_format, (import.target.format, dmabuf.fourcc), vk),
        0 <= i < info.plane_layouts@.len(),
    ensures
        import.modifier == info.modifier,
        import.fd == dmabuf.fds@[0],
        import.target.width == dmabuf.width as u32 && import.target.height == dmabuf.height as u32,
        import.target.fourcc == dmabuf.fourcc,
        crate::dmabuf::single_plane_format(dmabuf.fourcc) == Some(import.target.format),
        vk == Ok::<VkFormat, ImportError>(import.vk_format),
        import.plane_layouts@.len() == info.plane_layouts@.len(),
        import.plane_layouts@[i].offset == info.plane_layouts@[i].offset,
        import.plane_layouts@[i].row_pitch == info.plane_layouts@[i].row_pitch,
        import.plane_layouts@[i].size == info.plane_layouts@[i].size,
        import.plane_layouts@[i].array_pitch == info.plane_layouts@[i].array_pitch,
        import.plane_layouts@[i].depth_pitch == info.plane_layouts@[i].depth_pitch,
{
    crate::dmabuf::law_modifier_layouts_unchanged(info.plane_layouts@, i);
}

/// Frames are numbered one after the other, and submitting a frame completes none.
pub proof fn law_frames_numbered(
    bridge: &mut WgpuBridge,
    later: &mut WgpuBridge,
    first: u64,
    second: u64,
    current: u64,
    completed: u64,
)
    requires
        call_ensures(WgpuBridge::submit_frame, (bridge,), first),
        *old(later) == *final(bridge),
        call_ensures(WgpuBridge::submit_frame, (later,), second),
        call_ensures(WgpuBridge::current_frame, (final(later),), current),
        call_ensures(WgpuBridge::last_completed_frame, (final(later),), completed),
    ensures
        first == old(bridge).submitted() + 1,
        second == first + 1,
        current == second,
        completed == old(bridge).completed(),
        final(later).same_device(*old(bridge)),
{
}

/// Waiting for any frame that ended well completes all frames that were submitted. Waiting that timed
/// out or failed completes none, and is an error. Nothing else changes.
pub proof fn law_waiting_for_frames(
    bridge: &mut WgpuBridge,
    frame: u64,
    outcome: PollOutcome,
    r: Result<(), BridgeError>,
    idle: &mut WgpuBridge,
    idle_outcome: PollOutcome,
    idle_r: Result<(), BridgeError>,
)
    requires
        call_ensures(WgpuBridge::wait_for_frame, (bridge, frame, outcome), r),
        call_ensures(WgpuBridge::wait_idle, (idle, idle_outcome), idle_r),
    ensures
        r is Ok <==> outcome is Completed,
        r is Ok ==> final(bridge).completed() == old(bridge).submitted(),
        r is Err ==> final(bridge).completed() == old(bridge).completed(),
        final(bridge).submitted() == old(bridge).submitted(),
        final(bridge).same_device(*old(bridge)),
        idle_r is Ok <==> idle_outcome is Completed,
        idle_r is Ok ==> final(idle).completed() == old(idle).submitted(),
        idle_r is Err ==> final(idle).completed() == old(idle).completed(),
        final(idle).submitted() == old(idle).submitted(),
        outcome is TimedOut ==> (r matches Err(e) && e@ == BridgeErrorView::Sync("Wait timed out"@)),
{
}

/// A bridge that shares no Vulkan context has no explicit sync, no modifiers and no multi-planar
/// formats, and no frame was submitted on it. What it tells is what it holds.
pub proof fn law_plain_bridge(
    bridge: WgpuBridge,
    modifiers: bool,
    planar: bool,
    fourcc: DrmFourcc,
    format: bool,
    export: bool,
    frame: u64,
    completed: u64,
)
    requires
        call_ensures(WgpuBridge::new, (None,), bridge),
        call_ensures(WgpuBridge::supports_modifiers, (&bridge,), modifiers),
        call_ensures(WgpuBridge::supports_multiplanar, (&bridge,), planar),
        call_ensures(WgpuBridge::supports_multiplanar_format, (&bridge, fourcc), format),
        call_ensures(WgpuBridge::can_export_sync_fd, (&bridge,), export),
        call_ensures(WgpuBridge::current_frame, (&bridge,), frame),
        call_ensures(WgpuBridge::last_completed_frame, (&bridge,), completed),
    ensures
        !modifiers && !planar && !format && !export,
        frame == 0 && completed == 0,
{
}

/// An imported dmabuf is of one kind, and only the texture of that kind can be had.
pub proof fn law_imported_kind(
    imported: ImportedDmabuf,
    single: bool,
    several: bool,
    one: Option<&WgpuTexture>,
    many: Option<&MultiPlanarTexture>,
)
    requires
        call_ensures(ImportedDmabuf::is_single_plane, (&imported,), single),
        call_ensures(ImportedDmabuf::is_multi_planar, (&imported,), several),
        call_ensures(ImportedDmabuf::as_single_plane, (&imported,), one),
        call_ensures(ImportedDmabuf::as_multi_planar, (&imported,), many),
    ensures
        single != several,
        single == one is Some,
        several == many is Some,
        one matches Some(t) ==> imported == ImportedDmabuf::SinglePlane(*t),
        many matches Some(t) ==> imported == ImportedDmabuf::MultiPlanar(*t),
{
}

/// The offsets of a multi-planar dmabuf suffice unless the dmabuf can be imported and has fewer of them
/// than its format has planes.
pub proof fn law_offsets_suffice(
    bridge: WgpuBridge,
    dmabuf: DmabufInfo,
    colorspace: Option<YcbcrColorspace>,
    device_available: bool,
    supported: bool,
    planar: Option<crate::multiplanar::MultiPlanarFormat>,
    r: bool,
)
    requires
        call_ensures(WgpuBridge::supports_multiplanar_format, (&bridge, dmabuf.fourcc), supported),
        call_ensures(crate::multiplanar::multiplanar_format, (dmabuf.fourcc,), planar),
        call_ensures(
            WgpuBridge::has_planar_offsets,
            (&bridge, &dmabuf, colorspace, device_available),
            r,
        ),
    ensures
        !r <==> supported && dmabuf.width != 0 && dmabuf.height != 0 && device_available && (
        planar matches Some(f) && dmabuf.fds@.len() >= f.plane_count && dmabuf.offsets@.len()
            < f.plane_count),
{
    let w = dmabuf.width;
    let h = dmabuf.height;
    assert(w as u32 == 0u32 <==> w == 0i32) by (bit_vector);
    assert(h as u32 == 0u32 <==> h == 0i32) by (bit_vector);
}

/// A dmabuf that has a plane can be asked to be imported with any modifier. One without planes cannot
/// where a modifier of no planes would let it pass.
pub proof fn law_modifier_plane_checked(
    bridge: WgpuBridge,
    dmabuf: DmabufInfo,
    info: ExplicitModifierCreateInfo,
    device_available: bool,
    planes: usize,
    props: Option<&ModifierProperties>,
    r: bool,
)
    requires
        call_ensures(DmabufInfo::plane_count, (&dmabuf,), planes),
        call_ensures(
            WgpuBridge::get_modifier_properties,
            (&bridge, dmabuf.fourcc, info.modifier),
            props,
        ),
        call_ensures(
            WgpuBridge::has_modifier_plane,
            (&bridge, &dmabuf, &info, device_available),
            r,
        ),
    ensures
        planes > 0 ==> r,
        props matches Some(p) && p.plane_count > 0 ==> r,
        info.plane_layouts@.len() > 0 ==> r,
        !device_available ==> r,
{
}

} // verus!
