//! Vulkan values as plain integers and texts: flags, versions, extension names, handles.
use crate::format::VkFormat;
use vstd::prelude::*;
use vstd::string::*;

verus! {

/// Format feature: images can be sampled.
pub const FEATURE_SAMPLED_IMAGE: u32 = 0x1;

/// Format feature: images can be color attachments.
pub const FEATURE_COLOR_ATTACHMENT: u32 = 0x80;

/// Format feature: images can be the source of a transfer.
pub const FEATURE_TRANSFER_SRC: u32 = 0x4000;

/// Format feature: the planes of an image can have memory of their own.
pub const FEATURE_DISJOINT: u32 = 0x40_0000;

/// External semaphore feature: handles can be exported.
pub const SEMAPHORE_EXPORTABLE: u32 = 0x1;

/// External semaphore feature: handles can be imported.
pub const SEMAPHORE_IMPORTABLE: u32 = 0x2;

/// Queue flag: graphics work.
pub const QUEUE_GRAPHICS: u32 = 0x1;

/// Memory property: the memory is local to the device.
pub const MEMORY_DEVICE_LOCAL: u32 = 0x1;

/// Image aspect of the first plane.
pub const ASPECT_PLANE_0: u32 = 0x10;

/// Image aspect of the second plane.
pub const ASPECT_PLANE_1: u32 = 0x20;

/// Image aspect of the third plane.
pub const ASPECT_PLANE_2: u32 = 0x40;

/// Image aspect of all colors.
pub const ASPECT_COLOR: u32 = 0x1;

/// View type of two dimensions.
pub const VIEW_TYPE_2D: i32 = 1;

/// Chroma samples that lie on even luma samples.
pub const CHROMA_COSITED_EVEN: i32 = 0;

/// Filter between texels.
pub const FILTER_LINEAR: i32 = 1;

/// Choice of the nearest mip level.
pub const MIPMAP_NEAREST: i32 = 0;

/// The edge of an image goes on beside it.
pub const ADDRESS_CLAMP_TO_EDGE: i32 = 2;

/// Physical device type of a discrete GPU.
pub const DEVICE_TYPE_DISCRETE_GPU: i32 = 2;

/// Image usage: source of a transfer.
pub const USAGE_TRANSFER_SRC: u32 = 0x1;

/// Image usage: destination of a transfer.
pub const USAGE_TRANSFER_DST: u32 = 0x2;

/// Image usage: sampled by shaders.
pub const USAGE_SAMPLED: u32 = 0x4;

/// Image usage: color attachment.
pub const USAGE_COLOR_ATTACHMENT: u32 = 0x10;

/// How the memory of an image is tiled.
#[derive(Clone, Copy, Debug, PartialEq, Eq, Structural)]
pub enum ImageTiling {
    /// As the driver likes it.
    Optimal,
    /// Row after row.
    Linear,
    /// As this DRM format modifier says.
    DrmFormatModifier(u64),
}

impl ImageTiling {
    /// The DRM format modifier that tells the tiling, where there is one.
    pub open spec fn told_modifier(self) -> Option<u64> {
        match self {
            ImageTiling::Optimal => None,
            ImageTiling::Linear => Some(crate::modifiers::drm_mod::LINEAR),
            ImageTiling::DrmFormatModifier(modifier) => Some(modifier),
        }
    }
}

/// An image to be created: two-dimensional, with one mip level, one layer and one sample.
#[derive(Clone, Copy, Debug, PartialEq, Eq, Structural)]
pub struct ImageRequest {
    /// Format of the image.
    pub format: VkFormat,
    /// Width in pixels.
    pub width: u32,
    /// Height in pixels.
    pub height: u32,
    /// Tiling of the image.
    pub tiling: ImageTiling,
    /// Usage flags.
    pub usage: u32,
    /// Whether each plane has memory of its own.
    pub disjoint: bool,
}

/// Device memory to be allocated.
#[derive(Clone, Copy, Debug, PartialEq, Eq, Structural)]
pub struct MemoryRequest {
    /// Size in bytes.
    pub size: u64,
    /// Memory type to allocate from.
    pub memory_type_index: u32,
}

/// A Vulkan object or a file descriptor that has to be released.
#[derive(Clone, Copy, Debug, PartialEq, Eq, Structural)]
pub enum Resource {
    /// A file descriptor, to be closed.
    Fd(i32),
    /// An image, to be destroyed.
    Image(u64),
    /// Device memory, to be freed.
    Memory(u64),
    /// An image view, to be destroyed.
    ImageView(u64),
    /// A YCbCr conversion, to be destroyed.
    YcbcrConversion(u64),
    /// A sampler, to be destroyed.
    Sampler(u64),
}

/// What a physical device can do with images of a format.
#[derive(Clone, Copy, Debug, PartialEq, Eq, Structural)]
pub struct FormatFeatures {
    /// Features with linear tiling.
    pub linear: u32,
    /// Features with optimal tiling.
    pub optimal: u32,
}

/// Whether all flags of `wanted` are set in `flags`.
pub open spec fn has_flags(flags: u32, wanted: u32) -> bool {
    flags & wanted == wanted
}

/// Whether `features` holds all of `wanted`.
///
/// Trusted: `ash::vk::FormatFeatureFlags::contains`. Claimed: it tests that `wanted` is a subset
/// of `features`.
#[verifier::external_body]
pub(crate) fn format_features_contain(features: u32, wanted: u32) -> (r: bool)
    ensures
        r == has_flags(features, wanted),
{
    ash::vk::FormatFeatureFlags::from_raw(features).contains(
        ash::vk::FormatFeatureFlags::from_raw(wanted),
    )
}

/// Whether `features` holds all of `wanted`.
///
/// Trusted: `ash::vk::ExternalSemaphoreFeatureFlags::contains`. Claimed: it tests that `wanted`
/// is a subset of `features`.
#[verifier::external_body]
pub(crate) fn semaphore_features_contain(features: u32, wanted: u32) -> (r: bool)
    ensures
        r == has_flags(features, wanted),
{
    ash::vk::ExternalSemaphoreFeatureFlags::from_raw(features).contains(
        ash::vk::ExternalSemaphoreFeatureFlags::from_raw(wanted),
    )
}

/// Whether `flags` holds all of `wanted`.
///
/// Trusted: `ash::vk::QueueFlags::contains`. Claimed: it tests that `wanted` is a subset of
/// `flags`.
#[verifier::external_body]
pub(crate) fn queue_flags_contain(flags: u32, wanted: u32) -> (r: bool)
    ensures
        r == has_flags(flags, wanted),
{
    ash::vk::QueueFlags::from_raw(flags).contains(ash::vk::QueueFlags::from_raw(wanted))
}

/// A Vulkan version number: three bits of variant, seven of major, ten of minor and twelve of
/// patch version.
pub open spec fn packed_version(variant: u32, major: u32, minor: u32, patch: u32) -> int {
    variant * 0x2000_0000 + major * 0x40_0000 + minor * 0x1000 + patch
}

/// Pack a Vulkan version number.
///
/// Trusted: `ash::vk::make_api_version`. Claimed: where each part fits in its bits, the parts
/// stand beside each other.
#[verifier::external_body]
pub(crate) fn api_version(variant: u32, major: u32, minor: u32, patch: u32) -> (r: u32)
    requires
        variant < 8,
        major < 128,
        minor < 1024,
        patch < 4096,
    ensures
        r == packed_version(variant, major, minor, patch),
{
    ash::vk::make_api_version(variant, major, minor, patch)
}

impl FormatFeatures {
    /// Whether `wanted` is supported with one of the tilings.
    pub open spec fn spec_supports(self, wanted: u32) -> bool {
        has_flags(self.linear, wanted) || has_flags(self.optimal, wanted)
    }

    /// Whether `wanted` is supported with one of the tilings.
    pub fn supports(&self, wanted: u32) -> (r: bool)
        ensures
            r == self.spec_supports(wanted),
    {
        format_features_contain(self.linear, wanted) || format_features_contain(
            self.optimal,
            wanted,
        )
    }
}

/// The texts of a list of names.
pub open spec fn texts(names: Seq<String>) -> Seq<Seq<char>> {
    Seq::new(names.len(), |i: int| names[i]@)
}

/// The texts of a list of names, where there is a list.
pub open spec fn listed(names: Option<&Vec<String>>) -> Option<Seq<Seq<char>>> {
    match names {
        Some(list) => Some(texts(list@)),
        None => None,
    }
}

/// Whether a list of extension names holds `name`.
pub fn contains_name(names: &Vec<String>, name: &str) -> (r: bool)
    ensures
        r == texts(names@).contains(name@),
{
    let wanted = name.to_owned();
    let mut i: usize = 0;
    while i < names.len()
        invariant
            i <= names.len(),
            wanted@ == name@,
            forall|j: int| 0 <= j < i ==> (#[trigger] names[j])@ != name@,
        decreases names.len() - i,
    {
        if names[i] == wanted {
            assert(texts(names@)[i as int] == name@);
            return true;
        }
        i = i + 1;
    }
    assert forall|j: int| 0 <= j < texts(names@).len() implies texts(names@)[j] != name@ by {
        assert(names[j]@ != name@);
    }
    false
}

/// Whether memory type `i` is one of `type_bits` and has all of `required`.
pub open spec fn memory_type_suits(types: Seq<u32>, type_bits: u32, required: u32, i: int) -> bool {
    &&& 0 <= i < types.len()
    &&& type_bits & (1u32 << (i as u32)) != 0
    &&& has_flags(types[i], required)
}

/// Whether this is the first memory type that suits. `None` where there is none.
pub open spec fn is_first_memory_type(
    found: Option<u32>,
    types: Seq<u32>,
    type_bits: u32,
    required: u32,
) -> bool {
    match found {
        Some(i) => memory_type_suits(types, type_bits, required, i as int) && forall|j: int|
            0 <= j < i ==> !memory_type_suits(types, type_bits, required, j),
        None => forall|j: int| !memory_type_suits(types, type_bits, required, j),
    }
}

/// The first memory type that is among `type_bits` and has all of the `required` properties.
///
/// `types` holds the property flags of the memory types of a physical device, 32 at most.
pub fn find_memory_type_index(types: &Vec<u32>, type_bits: u32, required: u32) -> (r: Option<u32>)
    requires
        types@.len() <= 32,
    ensures
        is_first_memory_type(r, types@, type_bits, required),
{
    let mut i: usize = 0;
    while i < types.len()
        invariant
            i <= types.len() <= 32,
            forall|j: int| 0 <= j < i ==> !memory_type_suits(types@, type_bits, required, j),
        decreases types.len() - i,
    {
        let type_bit: u32 = 1u32 << (i as u32);
        if (type_bits & type_bit) != 0 && (types[i] & required) == required {
            return Some(i as u32);
        }
        i = i + 1;
    }
    None
}

/// A flag is set in some flags if and only if its bit is, and several flags are set if and only if
/// each of them is.
pub proof fn law_flags_are_bits(flags: u32, bit: u32, a: u32, b: u32)
    requires
        bit < 32,
    ensures
        has_flags(flags, 1u32 << bit) <==> (flags >> bit) & 1 == 1,
        has_flags(flags, a | b) <==> has_flags(flags, a) && has_flags(flags, b),
        has_flags(flags, 0),
{
    assert(flags & (1u32 << bit) == (1u32 << bit) <==> (flags >> bit) & 1 == 1) by (bit_vector)
        requires
            bit < 32,
    ;
    assert(flags & (a | b) == (a | b) <==> flags & a == a && flags & b == b) by (bit_vector);
    assert(flags & 0 == 0) by (bit_vector);
}

/// The parts of a version number can be had back from it, and a higher version has a higher number:
/// the major part counts before the minor one, and that before the patch.
pub proof fn law_version_orders(
    major: u32,
    minor: u32,
    patch: u32,
    other_major: u32,
    other_minor: u32,
    other_patch: u32,
)
    requires
        major < 128 && minor < 1024 && patch < 4096,
        other_major < 128 && other_minor < 1024 && other_patch < 4096,
    ensures
        ({
            let version = packed_version(0, major, minor, patch);
            let other = packed_version(0, other_major, other_minor, other_patch);
            &&& version / 4194304 == major
            &&& version / 4096 % 1024 == minor
            &&& version % 4096 == patch
            &&& version < other <==> major < other_major || (major == other_major && (minor
                < other_minor || (minor == other_minor && patch < other_patch)))
        }),
{
}

/// Features count with either tiling: those of optimal tiling alone suffice, and so do those of
/// linear tiling alone.
pub proof fn law_either_tiling_suffices(features: FormatFeatures, wanted: u32, r: bool)
    requires
        call_ensures(FormatFeatures::supports, (&features, wanted), r),
    ensures
        features.optimal & wanted == wanted ==> r,
        features.linear & wanted == wanted ==> r,
        r ==> features.optimal & wanted == wanted || features.linear & wanted == wanted,
{
}

/// A bit is set in a mask if and only if it remains when the mask is shifted down by its place.
pub(crate) proof fn lemma_type_bit(mask: u32, i: u32)
    requires
        i < 32,
    ensures
        mask & (1u32 << i) != 0 <==> (mask >> i) & 1 == 1,
{
    assert(mask & (1u32 << i) != 0 <==> (mask >> i) & 1 == 1) by (bit_vector)
        requires
            i < 32,
    ;
}

/// The memory type that is found has its bit set and all the required properties, and no type before
/// it has both. Where none is found, none has both.
pub proof fn law_first_memory_type(types: Vec<u32>, type_bits: u32, required: u32, r: Option<u32>)
    requires
        types@.len() <= 32,
        call_ensures(find_memory_type_index, (&types, type_bits, required), r),
    ensures
        r matches Some(i) ==> i < types@.len() && (type_bits >> i) & 1 == 1 && types@[i as int]
            & required == required,
        forall|j: int|
            0 <= j < types@.len() && (r is None || j < r->0) ==> !((type_bits >> (j as u32)) & 1 == 1
                && #[trigger] types@[j] & required == required),
{
    if let Some(i) = r {
        lemma_type_bit(type_bits, i);
    }
    assert forall|j: int| 0 <= j < types@.len() && (r is None || j < r->0) implies !((type_bits >> (
    j as u32)) & 1 == 1 && #[trigger] types@[j] & required == required) by {
        lemma_type_bit(type_bits, j as u32);
        assert(!memory_type_suits(types@, type_bits, required, j));
    }
}

/// A name is found in a list if and only if one of the names is spelled like it.
pub proof fn law_name_found_when_listed(names: Vec<String>, name: &str, r: bool)
    requires
        call_ensures(contains_name, (&names, name), r),
    ensures
        r <==> exists|i: int| 0 <= i < names@.len() && (#[trigger] names@[i])@ == name@,
{
    if r {
        let i = choose|i: int| 0 <= i < texts(names@).len() && texts(names@)[i] == name@;
        assert(names@[i]@ == name@);
    }
    if exists|i: int| 0 <= i < names@.len() && (#[trigger] names@[i])@ == name@ {
        let i = choose|i: int| 0 <= i < names@.len() && (#[trigger] names@[i])@ == name@;
        assert(texts(names@)[i] == name@);
    }
}

} // verus!
