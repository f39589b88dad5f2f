//! DRM format modifiers, by way of `VK_EXT_image_drm_format_modifier`.
//!
//! A modifier is a 64-bit number with a vendor prefix that describes how a GPU tiles the memory
//! of an image. This module describes modifiers, tells what they can be used for, and builds the
//! plane layouts with which an image of a given modifier is created.
use crate::extensions::IMAGE_DRM_FORMAT_MODIFIER;
use crate::text::{hex, hex_text};
use crate::vulkan::{
    contains_name, format_features_contain, FEATURE_COLOR_ATTACHMENT, FEATURE_SAMPLED_IMAGE,
    FEATURE_TRANSFER_SRC,
};
use vstd::prelude::*;
use vstd::string::*;

pub mod drm_mod;

verus! {

/// The number of values of a modifier without its vendor prefix.
pub open spec fn vendor_unit() -> int {
    0x100_0000_0000_0000
}

/// Capabilities for DRM format modifier support.
#[derive(Clone, Copy, Debug)]
pub struct ModifierCapabilities {
    /// Whether `VK_EXT_image_drm_format_modifier` is available.
    pub extension_available: bool,
    /// Whether the extension is enabled on the device.
    pub extension_enabled: bool,
    /// Maximum number of planes supported per image.
    pub max_planes: u32,
}

/// Properties of a single DRM format modifier.
#[derive(Clone, Copy, Debug, PartialEq, Eq, Structural)]
pub struct ModifierProperties {
    /// The DRM format modifier value.
    pub modifier: u64,
    /// Number of memory planes for this modifier.
    pub plane_count: u32,
    /// Vulkan format features supported with this modifier.
    pub format_features: u32,
}

/// Plane layout information for modifier-based image creation.
#[derive(Clone, Copy, Debug, PartialEq, Eq, Structural)]
pub struct ModifierPlaneLayout {
    /// Offset in bytes from the start of the memory allocation.
    pub offset: u64,
    /// Stride (bytes per row) for this plane.
    pub row_pitch: u64,
    /// Size in bytes of this plane.
    pub size: u64,
    /// Array pitch (for array images).
    pub array_pitch: u64,
    /// Depth pitch (for 3D images).
    pub depth_pitch: u64,
}

/// A subresource layout as Vulkan takes it.
#[derive(Clone, Copy, Debug, PartialEq, Eq, Structural)]
pub struct SubresourceLayout {
    pub offset: u64,
    pub size: u64,
    pub row_pitch: u64,
    pub array_pitch: u64,
    pub depth_pitch: u64,
}

/// The modifier and plane layouts with which an image is created.
#[derive(Debug)]
pub struct ExplicitModifierCreateInfo {
    /// The DRM format modifier to use.
    pub modifier: u64,
    /// Plane layouts (one per plane in the modifier).
    pub plane_layouts: Vec<ModifierPlaneLayout>,
}

impl Default for ModifierCapabilities {
    fn default() -> (r: ModifierCapabilities)
        ensures
            r == ModifierCapabilities::unavailable(),
    {
        ModifierCapabilities { extension_available: false, extension_enabled: false, max_planes: 1 }
    }
}

impl ModifierCapabilities {
    /// The capabilities of a device without the extension.
    pub open spec fn unavailable() -> ModifierCapabilities {
        ModifierCapabilities { extension_available: false, extension_enabled: false, max_planes: 1 }
    }

    /// Whether the extension is among those of a device. `None` where they could not be listed.
    pub open spec fn spec_available(extensions: Option<Seq<Seq<char>>>) -> bool {
        extensions matches Some(names) && names.contains(IMAGE_DRM_FORMAT_MODIFIER@)
    }

    /// Whether `VK_EXT_image_drm_format_modifier` is among the extensions of a device. `None`
    /// stands for extensions that could not be listed.
    pub fn check_extension_available(extensions: Option<&Vec<String>>) -> (r: bool)
        ensures
            r == Self::spec_available(crate::vulkan::listed(extensions)),
    {
        match extensions {
            Some(names) => contains_name(names, IMAGE_DRM_FORMAT_MODIFIER),
            None => false,
        }
    }

    /// The capabilities of a physical device with these extensions. `None` stands for extensions
    /// that could not be listed.
    ///
    /// Whether the extension is enabled is known only when the device is created.
    pub fn query(extensions: Option<&Vec<String>>) -> (r: ModifierCapabilities)
        ensures
            r == if Self::spec_available(crate::vulkan::listed(extensions)) {
                ModifierCapabilities {
                    extension_available: true,
                    extension_enabled: false,
                    max_planes: 4,
                }
            } else {
                Self::unavailable()
            },
    {
        if !Self::check_extension_available(extensions) {
            return ModifierCapabilities::default();
        }
        ModifierCapabilities { extension_available: true, extension_enabled: false, max_planes: 4 }
    }

    /// Whether modifiers are supported (extension available and enabled).
    pub open spec fn spec_supports_modifiers(self) -> bool {
        self.extension_available && self.extension_enabled
    }

    /// Check if modifiers are supported (extension available and enabled).
    pub fn supports_modifiers(&self) -> (r: bool)
        ensures
            r == self.spec_supports_modifiers(),
    {
        self.extension_available && self.extension_enabled
    }
}

/// The name of the vendor of a modifier, which its upper eight bits tell.
pub open spec fn vendor_name(modifier: u64) -> Seq<char> {
    let vendor = modifier as int / vendor_unit();
    if vendor == 0 {
        "generic"@
    } else if vendor == 1 {
        "Intel"@
    } else if vendor == 2 {
        "AMD"@
    } else if vendor == 3 {
        "NVIDIA"@
    } else if vendor == 4 {
        "Samsung"@
    } else if vendor == 5 {
        "Qualcomm"@
    } else if vendor == 8 {
        "ARM"@
    } else if vendor == 7 {
        "Broadcom"@
    } else {
        "unknown"@
    }
}

/// The description of a modifier: `LINEAR`, `INVALID`, or the vendor and the rest of the number.
pub open spec fn modifier_text(modifier: u64) -> Seq<char> {
    if modifier == drm_mod::LINEAR {
        "LINEAR"@
    } else if modifier == drm_mod::INVALID {
        "INVALID"@
    } else {
        vendor_name(modifier) + ":"@ + hex_text((modifier as int % vendor_unit()) as nat)
    }
}

/// Masking takes a modifier apart into its vendor and the rest.
proof fn lemma_vendor_mask(modifier: u64)
    ensures
        modifier & drm_mod::VENDOR_MASK == (modifier as int / vendor_unit()) * vendor_unit(),
        modifier & !drm_mod::VENDOR_MASK == modifier as int % vendor_unit(),
{
    assert(modifier & 0xff00_0000_0000_0000u64 == (modifier / 0x100_0000_0000_0000u64)
        * 0x100_0000_0000_0000u64) by (bit_vector);
    assert(modifier & !0xff00_0000_0000_0000u64 == modifier % 0x100_0000_0000_0000u64)
        by (bit_vector);
}

impl ModifierProperties {
    /// Check if this modifier supports being sampled as a texture.
    pub fn supports_sampling(&self) -> (r: bool)
        ensures
            r == crate::vulkan::has_flags(self.format_features, FEATURE_SAMPLED_IMAGE),
    {
        format_features_contain(self.format_features, FEATURE_SAMPLED_IMAGE)
    }

    /// Check if this modifier supports being used as a transfer source.
    pub fn supports_transfer_src(&self) -> (r: bool)
        ensures
            r == crate::vulkan::has_flags(self.format_features, FEATURE_TRANSFER_SRC),
    {
        format_features_contain(self.format_features, FEATURE_TRANSFER_SRC)
    }

    /// Check if this modifier supports being rendered to.
    pub fn supports_color_attachment(&self) -> (r: bool)
        ensures
            r == crate::vulkan::has_flags(self.format_features, FEATURE_COLOR_ATTACHMENT),
    {
        format_features_contain(self.format_features, FEATURE_COLOR_ATTACHMENT)
    }

    /// Get a human-readable description of this modifier.
    pub fn describe(&self) -> (r: String)
        ensures
            r@ == modifier_text(self.modifier),
    {
        proof {
            lemma_vendor_mask(self.modifier);
        }
        let vendor: u64 = self.modifier & drm_mod::VENDOR_MASK;
        let vendor_name: &str = if vendor == drm_mod::VENDOR_NONE {
            "generic"
        } else if vendor == drm_mod::VENDOR_INTEL {
            "Intel"
        } else if vendor == drm_mod::VENDOR_AMD {
            "AMD"
        } else if vendor == drm_mod::VENDOR_NVIDIA {
            "NVIDIA"
        } else if vendor == drm_mod::VENDOR_SAMSUNG {
            "Samsung"
        } else if vendor == drm_mod::VENDOR_QCOM {
            "Qualcomm"
        } else if vendor == drm_mod::VENDOR_ARM {
            "ARM"
        } else if vendor == drm_mod::VENDOR_BROADCOM {
            "Broadcom"
        } else {
            "unknown"
        };
        if self.modifier == drm_mod::LINEAR {
            "LINEAR".to_owned()
        } else if self.modifier == drm_mod::INVALID {
            "INVALID".to_owned()
        } else {
            let mut text = vendor_name.to_owned();
            text.append(":");
            text.append(hex(self.modifier & !drm_mod::VENDOR_MASK).as_str());
            text
        }
    }
}

/// The modifiers that a physical device reported for a format, each as its value, its number of
/// planes and its format features.
pub fn query_format_modifiers(reported: &Vec<(u64, u32, u32)>) -> (r: Vec<ModifierProperties>)
    ensures
        r@ == Seq::new(
            reported@.len(),
            |i: int|
                ModifierProperties {
                    modifier: reported@[i].0,
                    plane_count: reported@[i].1,
                    format_features: reported@[i].2,
                },
        ),
{
    let mut modifiers: Vec<ModifierProperties> = Vec::new();
    let mut i: usize = 0;
    while i < reported.len()
        invariant
            i <= reported.len(),
            modifiers@ == Seq::new(
                i as nat,
                |j: int|
                    ModifierProperties {
                        modifier: reported@[j].0,
                        plane_count: reported@[j].1,
                        format_features: reported@[j].2,
                    },
            ),
        decreases reported.len() - i,
    {
        let (modifier, plane_count, format_features) = reported[i];
        modifiers.push(ModifierProperties { modifier, plane_count, format_features });
        i = i + 1;
    }
    modifiers
}

/// The properties of a modifier, where it is among those of a format: the first with its value.
pub open spec fn supported_modifier(props: Seq<ModifierProperties>, modifier: u64) -> Option<
    ModifierProperties,
>
    decreases props.len(),
{
    if props.len() == 0 {
        None
    } else if props[0].modifier == modifier {
        Some(props[0])
    } else {
        supported_modifier(props.skip(1), modifier)
    }
}

/// Entries with other modifiers do not change what is found behind them.
proof fn lemma_skip_others(props: Seq<ModifierProperties>, modifier: u64, i: int)
    requires
        0 <= i <= props.len(),
        forall|j: int| 0 <= j < i ==> (#[trigger] props[j]).modifier != modifier,
    ensures
        supported_modifier(props, modifier) == supported_modifier(props.skip(i), modifier),
    decreases i,
{
    if i > 0 {
        lemma_skip_others(props, modifier, i - 1);
        let rest = props.skip(i - 1);
        assert(rest[0] == props[i - 1]);
        assert(rest.skip(1) =~= props.skip(i));
    } else {
        assert(props.skip(0) =~= props);
    }
}

/// Find a modifier among those of a format.
pub fn find_modifier(modifiers: &Vec<ModifierProperties>, modifier: u64) -> (r: Option<
    &ModifierProperties,
>)
    ensures
        match r {
            Some(props) => supported_modifier(modifiers@, modifier) == Some(*props),
            None => supported_modifier(modifiers@, modifier) is None,
        },
{
    let mut i: usize = 0;
    while i < modifiers.len()
        invariant
            i <= modifiers.len(),
            forall|j: int| 0 <= j < i ==> (#[trigger] modifiers@[j]).modifier != modifier,
        decreases modifiers.len() - i,
    {
        if modifiers[i].modifier == modifier {
            proof {
                lemma_skip_others(modifiers@, modifier, i as int);
            }
            return Some(&modifiers[i]);
        }
        i = i + 1;
    }
    proof {
        lemma_skip_others(modifiers@, modifier, i as int);
    }
    None
}

/// Check if a specific modifier is among those of a format.
pub fn is_modifier_supported(modifiers: &Vec<ModifierProperties>, modifier: u64) -> (r: Option<
    ModifierProperties,
>)
    ensures
        r == supported_modifier(modifiers@, modifier),
{
    match find_modifier(modifiers, modifier) {
        Some(props) => Some(*props),
        None => None,
    }
}

impl Default for ModifierPlaneLayout {
    fn default() -> (r: ModifierPlaneLayout)
        ensures
            r == plane_layout(0, 0),
    {
        ModifierPlaneLayout { offset: 0, row_pitch: 0, size: 0, array_pitch: 0, depth_pitch: 0 }
    }
}

/// The layout of a plane of which only the start and the stride are known. Vulkan takes no size
/// for the creation of an image.
pub open spec fn plane_layout(offset: u64, row_pitch: u64) -> ModifierPlaneLayout {
    ModifierPlaneLayout { offset, row_pitch, size: 0, array_pitch: 0, depth_pitch: 0 }
}

impl From<&ModifierPlaneLayout> for SubresourceLayout {
    fn from(layout: &ModifierPlaneLayout) -> (r: SubresourceLayout) {
        SubresourceLayout {
            offset: layout.offset,
            size: layout.size,
            row_pitch: layout.row_pitch,
            array_pitch: layout.array_pitch,
            depth_pitch: layout.depth_pitch,
        }
    }
}

impl vstd::std_specs::convert::FromSpecImpl<&ModifierPlaneLayout> for SubresourceLayout {
    open spec fn obeys_from_spec() -> bool {
        true
    }

    open spec fn from_spec(layout: &ModifierPlaneLayout) -> SubresourceLayout {
        layout.spec_subresource()
    }
}

impl ModifierPlaneLayout {
    /// The same layout as Vulkan takes it.
    pub open spec fn spec_subresource(self) -> SubresourceLayout {
        SubresourceLayout {
            offset: self.offset,
            size: self.size,
            row_pitch: self.row_pitch,
            array_pitch: self.array_pitch,
            depth_pitch: self.depth_pitch,
        }
    }
}

impl ExplicitModifierCreateInfo {
    /// Create info for a single-plane modifier.
    pub fn single_plane(modifier: u64, offset: u64, row_pitch: u64) -> (r:
        ExplicitModifierCreateInfo)
        ensures
            r.modifier == modifier,
            r.plane_layouts@ == seq![plane_layout(offset, row_pitch)],
    {
        let mut plane_layouts: Vec<ModifierPlaneLayout> = Vec::new();
        plane_layouts.push(
            ModifierPlaneLayout { offset, row_pitch, size: 0, array_pitch: 0, depth_pitch: 0 },
        );
        ExplicitModifierCreateInfo { modifier, plane_layouts }
    }

    /// Create info for a multi-plane modifier (e.g. NV12).
    pub fn multi_plane(modifier: u64, plane_offsets: &[u64], plane_strides: &[u64]) -> (r:
        ExplicitModifierCreateInfo)
        requires
            plane_offsets@.len() == plane_strides@.len(),
        ensures
            r.modifier == modifier,
            r.plane_layouts@ == Seq::new(
                plane_offsets@.len(),
                |i: int| plane_layout(plane_offsets@[i], plane_strides@[i]),
            ),
    {
        let mut plane_layouts: Vec<ModifierPlaneLayout> = Vec::new();
        let mut i: usize = 0;
        while i < plane_offsets.len()
            invariant
                i <= plane_offsets@.len(),
                plane_offsets@.len() == plane_strides@.len(),
                plane_layouts@ == Seq::new(
                    i as nat,
                    |j: int| plane_layout(plane_offsets@[j], plane_strides@[j]),
                ),
            decreases plane_offsets@.len() - i,
        {
            plane_layouts.push(
                ModifierPlaneLayout {
                    offset: plane_offsets[i],
                    row_pitch: plane_strides[i],
                    size: 0,
                    array_pitch: 0,
                    depth_pitch: 0,
                },
            );
            i = i + 1;
        }
        ExplicitModifierCreateInfo { modifier, plane_layouts }
    }
}

/// A modifier is found for a format if and only if one of the reported modifiers has its value.
pub proof fn law_supported_modifier(props: Seq<ModifierProperties>, modifier: u64)
    ensures
        supported_modifier(props, modifier) is Some <==> exists|i: int|
            0 <= i < props.len() && (#[trigger] props[i]).modifier == modifier,
        supported_modifier(props, modifier) matches Some(p) ==> p.modifier == modifier
            && props.contains(p),
    decreases props.len(),
{
    if props.len() > 0 && props[0].modifier != modifier {
        let rest = props.skip(1);
        law_supported_modifier(rest, modifier);
        assert forall|i: int| 0 <= i < rest.len() implies #[trigger] rest[i] == props[i + 1] by {}
        if exists|i: int| 0 <= i < props.len() && (#[trigger] props[i]).modifier == modifier {
            let i = choose|i: int| 0 <= i < props.len() && (#[trigger] props[i]).modifier
                == modifier;
            assert(rest[i - 1].modifier == modifier);
        }
        if let Some(p) = supported_modifier(rest, modifier) {
            let i = choose|i: int| 0 <= i < rest.len() && rest[i] == p;
            assert(props[i + 1] == p);
        }
    }
}

/// The create info of a multi-plane modifier with one plane is that of a single-plane modifier.
pub proof fn law_multi_plane_of_one(offset: u64, row_pitch: u64)
    ensures
        Seq::new(
            1,
            |i: int| plane_layout(seq![offset][i], seq![row_pitch][i]),
        ) == seq![plane_layout(offset, row_pitch)],
{
}

/// The vendor prefixes are numbers in the upper eight bits of a modifier. The linear modifier is
/// zero, and the invalid one has all bits below the prefix set.
pub proof fn law_vendor_prefixes()
    ensures
        drm_mod::LINEAR == 0,
        drm_mod::INVALID == 0x100_0000_0000_0000 - 1,
        drm_mod::VENDOR_MASK == 0xff * 0x100_0000_0000_0000,
        drm_mod::VENDOR_NONE == 0,
        drm_mod::VENDOR_INTEL == 1 * 0x100_0000_0000_0000,
        drm_mod::VENDOR_AMD == 2 * 0x100_0000_0000_0000,
        drm_mod::VENDOR_NVIDIA == 3 * 0x100_0000_0000_0000,
        drm_mod::VENDOR_SAMSUNG == 4 * 0x100_0000_0000_0000,
        drm_mod::VENDOR_QCOM == 5 * 0x100_0000_0000_0000,
        drm_mod::VENDOR_BROADCOM == 7 * 0x100_0000_0000_0000,
        drm_mod::VENDOR_ARM == 8 * 0x100_0000_0000_0000,
{
}

/// A modifier is described by the name of its vendor, which the upper eight bits tell, and by the
/// number that the other bits make. Only the linear and the invalid modifier have names of their own.
pub proof fn law_description_names_vendor(props: ModifierProperties, text: String)
    requires
        call_ensures(ModifierProperties::describe, (&props,), text),
    ensures
        ({
            let vendor = props.modifier as int / 0x100_0000_0000_0000;
            let rest = props.modifier as int % 0x100_0000_0000_0000;
            let number = hex_text(rest as nat);
            &&& props.modifier == 0 ==> text@ == "LINEAR"@
            &&& props.modifier == 0x00ff_ffff_ffff_ffff ==> text@ == "INVALID"@
            &&& vendor == 0 && rest != 0 && rest != 0xff_ffff_ffff_ffff ==> text@ == "generic"@ + ":"@
                + number
            &&& vendor == 1 ==> text@ == "Intel"@ + ":"@ + number
            &&& vendor == 2 ==> text@ == "AMD"@ + ":"@ + number
            &&& vendor == 3 ==> text@ == "NVIDIA"@ + ":"@ + number
            &&& vendor == 4 ==> text@ == "Samsung"@ + ":"@ + number
            &&& vendor == 5 ==> text@ == "Qualcomm"@ + ":"@ + number
            &&& vendor == 7 ==> text@ == "Broadcom"@ + ":"@ + number
            &&& vendor == 8 ==> text@ == "ARM"@ + ":"@ + number
            &&& vendor == 6 || vendor > 8 ==> text@ == "unknown"@ + ":"@ + number
        }),
{
}

/// What a modifier can be used for is told by its feature bits: the first for sampling, the eighth
/// for rendering, and the fifteenth for transfers.
pub proof fn law_features_by_bits(
    props: ModifierProperties,
    sampling: bool,
    rendering: bool,
    transfers: bool,
)
    requires
        call_ensures(ModifierProperties::supports_sampling, (&props,), sampling),
        call_ensures(ModifierProperties::supports_color_attachment, (&props,), rendering),
        call_ensures(ModifierProperties::supports_transfer_src, (&props,), transfers),
    ensures
        sampling <==> props.format_features & 0x1 == 0x1,
        rendering <==> props.format_features & 0x80 == 0x80,
        transfers <==> props.format_features & 0x4000 == 0x4000,
{
}

/// Modifiers are available where the extension is listed, with up to four planes, and not enabled
/// yet. Without the extension, or without a list, there is one plane and nothing to enable.
pub proof fn law_modifiers_by_extension(
    names: Vec<String>,
    c: ModifierCapabilities,
    available: bool,
    unlisted: ModifierCapabilities,
)
    requires
        call_ensures(ModifierCapabilities::query, (Some(&names),), c),
        call_ensures(ModifierCapabilities::check_extension_available, (Some(&names),), available),
        call_ensures(ModifierCapabilities::query, (None,), unlisted),
    ensures
        available <==> crate::vulkan::texts(names@).contains("VK_EXT_image_drm_format_modifier"@),
        c.extension_available == available,
        !c.extension_enabled,
        available ==> c.max_planes == 4,
        !available ==> c.max_planes == 1,
        !unlisted.extension_available && !unlisted.extension_enabled && unlisted.max_planes == 1,
{
}

/// Modifiers are supported only where the extension is both available and enabled.
pub proof fn law_support_needs_both(c: ModifierCapabilities, r: bool)
    requires
        call_ensures(ModifierCapabilities::supports_modifiers, (&c,), r),
    ensures
        r <==> c.extension_available && c.extension_enabled,
{
}

/// The modifiers of a format are those that the device reported, one for one: value, planes and
/// features.
pub proof fn law_reported_modifiers(
    reported: Vec<(u64, u32, u32)>,
    r: Vec<ModifierProperties>,
    i: int,
)
    requires
        call_ensures(query_format_modifiers, (&reported,), r),
        0 <= i < reported@.len(),
    ensures
        r@.len() == reported@.len(),
        r@[i].modifier == reported@[i].0,
        r@[i].plane_count == reported@[i].1,
        r@[i].format_features == reported@[i].2,
{
}

/// The properties that are found for a modifier are the first ones with its value. Where none are
/// found, no properties have it.
pub proof fn law_first_properties_found(
    props: Vec<ModifierProperties>,
    modifier: u64,
    r: Option<ModifierProperties>,
)
    requires
        call_ensures(is_modifier_supported, (&props, modifier), r),
    ensures
        r matches Some(p) ==> exists|i: int|
            0 <= i < props@.len() && #[trigger] props@[i] == p && p.modifier == modifier && forall|
                j: int,
            |
                0 <= j < i ==> (#[trigger] props@[j]).modifier != modifier,
        r is None ==> forall|i: int|
            0 <= i < props@.len() ==> (#[trigger] props@[i]).modifier != modifier,
{
    law_supported_modifier(props@, modifier);
    if r is Some {
        lemma_first_place(props@, modifier);
    }
}

/// What is found stands at the first place with the modifier.
proof fn lemma_first_place(props: Seq<ModifierProperties>, modifier: u64) -> (i: int)
    requires
        supported_modifier(props, modifier) is Some,
    ensures
        0 <= i < props.len(),
        Some(props[i]) == supported_modifier(props, modifier),
        props[i].modifier == modifier,
        forall|j: int| 0 <= j < i ==> (#[trigger] props[j]).modifier != modifier,
    decreases props.len(),
{
    if props[0].modifier == modifier {
        0
    } else {
        let rest = props.skip(1);
        let k = lemma_first_place(rest, modifier);
        assert forall|j: int| 0 <= j < k + 1 implies (#[trigger] props[j]).modifier != modifier by {
            if j > 0 {
                assert(rest[j - 1] == props[j]);
            }
        }
        k + 1
    }
}

/// The create info of a modifier has the given modifier, and for each plane the given offset and the
/// given stride as its row pitch. Size and pitches of other kinds are left to Vulkan.
pub proof fn law_create_info_as_given(
    modifier: u64,
    offset: u64,
    row_pitch: u64,
    single: ExplicitModifierCreateInfo,
    offsets: &[u64],
    strides: &[u64],
    several: ExplicitModifierCreateInfo,
    i: int,
)
    requires
        offsets@.len() == strides@.len(),
        call_ensures(ExplicitModifierCreateInfo::single_plane, (modifier, offset, row_pitch), single),
        call_ensures(ExplicitModifierCreateInfo::multi_plane, (modifier, offsets, strides), several),
        0 <= i < offsets@.len(),
    ensures
        single.modifier == modifier && several.modifier == modifier,
        single.plane_layouts@.len() == 1,
        single.plane_layouts@[0].offset == offset,
        single.plane_layouts@[0].row_pitch == row_pitch,
        single.plane_layouts@[0].size == 0 && single.plane_layouts@[0].array_pitch == 0
            && single.plane_layouts@[0].depth_pitch == 0,
        several.plane_layouts@.len() == offsets@.len(),
        several.plane_layouts@[i].offset == offsets@[i],
        several.plane_layouts@[i].row_pitch == strides@[i],
        several.plane_layouts@[i].size == 0 && several.plane_layouts@[i].array_pitch == 0
            && several.plane_layouts@[i].depth_pitch == 0,
{
}

/// A plane layout reaches Vulkan field for field.
pub proof fn law_subresource_keeps_fields(layout: ModifierPlaneLayout)
    ensures
        layout.spec_subresource().offset == layout.offset,
        layout.spec_subresource().row_pitch == layout.row_pitch,
        layout.spec_subresource().size == layout.size,
        layout.spec_subresource().array_pitch == layout.array_pitch,
        layout.spec_subresource().depth_pitch == layout.depth_pitch,
{
}

/// A device of which nothing is known has no modifiers, and a layout of which nothing is known begins
/// at zero.
pub proof fn law_defaults(c: ModifierCapabilities, layout: ModifierPlaneLayout)
    requires
        call_ensures(<ModifierCapabilities as Default>::default, (), c),
        call_ensures(<ModifierPlaneLayout as Default>::default, (), layout),
    ensures
        !c.extension_available && !c.extension_enabled && c.max_planes == 1,
        layout.offset == 0 && layout.row_pitch == 0 && layout.size == 0 && layout.array_pitch == 0
            && layout.depth_pitch == 0,
{
}

} // verus!
