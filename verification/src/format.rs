//! Pixel formats: DRM fourcc codes, wgpu texture formats and Vulkan formats.
use crate::text::{decimal, decimal_text};
use vstd::prelude::*;
use vstd::string::*;

verus! {

/// The code with which DRM marks a big endian format. It names no format of its own.
pub const BIG_ENDIAN_CODE: u32 = 0x8000_0000;

/// A DRM fourcc format.
///
/// The formats that this crate treats in a way of their own have a case each. `Other` holds the
/// code of any other format.
#[derive(Clone, Copy, Debug, PartialEq, Eq, Structural)]
pub enum DrmFourcc {
    Argb8888,
    Xrgb8888,
    Abgr8888,
    Xbgr8888,
    Rgb888,
    Bgr888,
    R8,
    Rg88,
    Gr88,
    Argb2101010,
    Xrgb2101010,
    Nv12,
    Nv21,
    P010,
    Yuv420,
    Yvu420,
    Other(u32),
}

/// A wgpu texture format, as far as this crate tells them apart.
#[derive(Clone, Copy, Debug, PartialEq, Eq, Structural)]
pub enum TextureFormat {
    Bgra8Unorm,
    Bgra8UnormSrgb,
    Rgba8Unorm,
    Rgba8UnormSrgb,
    Rgb10a2Unorm,
    R8Unorm,
    Rg8Unorm,
    Other,
}

/// A Vulkan image format that this crate creates images with.
#[derive(Clone, Copy, Debug, PartialEq, Eq, Structural)]
pub enum VkFormat {
    B8G8R8A8Unorm,
    B8G8R8A8Srgb,
    R8G8B8A8Unorm,
    R8G8B8A8Srgb,
    A2B10G10R10UnormPack32,
    R8Unorm,
    R8G8Unorm,
    G8B8R82Plane420Unorm,
    G10X6B10X6R10X62Plane420Unorm3Pack16,
    G8B8R83Plane420Unorm,
}

/// Whether `drm_fourcc` has a format with this code.
pub uninterp spec fn drm_fourcc_known(code: u32) -> bool;

/// Byte `i` of a fourcc code, counted from the least significant one.
pub open spec fn code_byte(code: u32, i: int) -> int {
    if i == 0 {
        code as int % 256
    } else if i == 1 {
        (code as int / 256) % 256
    } else if i == 2 {
        (code as int / 65536) % 256
    } else {
        code as int / 16777216
    }
}

/// The four characters of a fourcc code. A zero byte behind the first two stands for a space.
pub open spec fn code_chars(code: u32) -> Seq<char> {
    Seq::new(
        4,
        |i: int|
            if i >= 2 && code_byte(code, i) == 0 {
                ' '
            } else {
                code_byte(code, i) as char
            },
    )
}

/// The text with which `drm_fourcc` prints a format for debugging, such as `DrmFourcc(AR24)`.
/// `None` where it has no format with this code.
///
/// Trusted: `drm_fourcc::DrmFourcc::try_from` and the `Debug` of `DrmFourcc`. Claimed: the
/// crate's own table alone decides which codes have a format, the formats that [`DrmFourcc`]
/// names are among them, and the text holds the four characters of the code. The big endian mark
/// is left out because the outside `Debug` panics on it.
#[verifier::external_body]
fn known_fourcc_text(code: u32) -> (r: Option<String>)
    requires
        code != BIG_ENDIAN_CODE,
    ensures
        r is Some <==> drm_fourcc_known(code),
        DrmFourcc::named(code) ==> r is Some,
        r matches Some(text) ==> text@ == "DrmFourcc("@ + code_chars(code) + ")"@,
{
    match drm_fourcc::DrmFourcc::try_from(code) {
        Ok(format) => Some(format!("{:?}", format)),
        Err(_) => None,
    }
}

impl DrmFourcc {
    /// The fourcc code of this format.
    pub open spec fn spec_code(self) -> u32 {
        match self {
            DrmFourcc::Argb8888 => 0x3432_5241,
            DrmFourcc::Xrgb8888 => 0x3432_5258,
            DrmFourcc::Abgr8888 => 0x3432_4241,
            DrmFourcc::Xbgr8888 => 0x3432_4258,
            DrmFourcc::Rgb888 => 0x3432_4752,
            DrmFourcc::Bgr888 => 0x3432_4742,
            DrmFourcc::R8 => 0x2020_3852,
            DrmFourcc::Rg88 => 0x3838_4752,
            DrmFourcc::Gr88 => 0x3838_5247,
            DrmFourcc::Argb2101010 => 0x3033_5241,
            DrmFourcc::Xrgb2101010 => 0x3033_5258,
            DrmFourcc::Nv12 => 0x3231_564e,
            DrmFourcc::Nv21 => 0x3132_564e,
            DrmFourcc::P010 => 0x3031_3050,
            DrmFourcc::Yuv420 => 0x3231_5559,
            DrmFourcc::Yvu420 => 0x3231_5659,
            DrmFourcc::Other(code) => code,
        }
    }

    /// Whether one of the named formats has this code.
    pub open spec fn named(code: u32) -> bool {
        exists|f: DrmFourcc| f !is Other && #[trigger] f.spec_code() == code
    }

    /// Whether the format is the one case that stands for its code: `Other` does not hold the
    /// code of a named format.
    pub open spec fn canonical(self) -> bool {
        self matches DrmFourcc::Other(code) ==> !DrmFourcc::named(code)
    }

    /// The text with which the format is printed for debugging.
    pub open spec fn spec_text(self) -> Seq<char> {
        let code = self.spec_code();
        if code != BIG_ENDIAN_CODE && drm_fourcc_known(code) {
            "DrmFourcc("@ + code_chars(code) + ")"@
        } else {
            "DrmFourcc("@ + decimal_text(code as nat) + ")"@
        }
    }

    /// The fourcc code of this format.
    pub fn code(self) -> (r: u32)
        ensures
            r == self.spec_code(),
    {
        match self {
            DrmFourcc::Argb8888 => 0x3432_5241,
            DrmFourcc::Xrgb8888 => 0x3432_5258,
            DrmFourcc::Abgr8888 => 0x3432_4241,
            DrmFourcc::Xbgr8888 => 0x3432_4258,
            DrmFourcc::Rgb888 => 0x3432_4752,
            DrmFourcc::Bgr888 => 0x3432_4742,
            DrmFourcc::R8 => 0x2020_3852,
            DrmFourcc::Rg88 => 0x3838_4752,
            DrmFourcc::Gr88 => 0x3838_5247,
            DrmFourcc::Argb2101010 => 0x3033_5241,
            DrmFourcc::Xrgb2101010 => 0x3033_5258,
            DrmFourcc::Nv12 => 0x3231_564e,
            DrmFourcc::Nv21 => 0x3132_564e,
            DrmFourcc::P010 => 0x3031_3050,
            DrmFourcc::Yuv420 => 0x3231_5559,
            DrmFourcc::Yvu420 => 0x3231_5659,
            DrmFourcc::Other(code) => code,
        }
    }

    /// The format with this code.
    pub fn from_code(code: u32) -> (r: DrmFourcc)
        ensures
            r.spec_code() == code,
            r.canonical(),
    {
        match code {
            0x3432_5241 => DrmFourcc::Argb8888,
            0x3432_5258 => DrmFourcc::Xrgb8888,
            0x3432_4241 => DrmFourcc::Abgr8888,
            0x3432_4258 => DrmFourcc::Xbgr8888,
            0x3432_4752 => DrmFourcc::Rgb888,
            0x3432_4742 => DrmFourcc::Bgr888,
            0x2020_3852 => DrmFourcc::R8,
            0x3838_4752 => DrmFourcc::Rg88,
            0x3838_5247 => DrmFourcc::Gr88,
            0x3033_5241 => DrmFourcc::Argb2101010,
            0x3033_5258 => DrmFourcc::Xrgb2101010,
            0x3231_564e => DrmFourcc::Nv12,
            0x3132_564e => DrmFourcc::Nv21,
            0x3031_3050 => DrmFourcc::P010,
            0x3231_5559 => DrmFourcc::Yuv420,
            0x3231_5659 => DrmFourcc::Yvu420,
            _ => DrmFourcc::Other(code),
        }
    }

    /// The text with which the format is printed for debugging, such as `DrmFourcc(AR24)`. For a
    /// code that names no format it holds the code in decimal.
    pub fn text(self) -> (r: String)
        ensures
            r@ == self.spec_text(),
            self !is Other ==> r@ == "DrmFourcc("@ + code_chars(self.spec_code()) + ")"@,
    {
        let code: u32 = self.code();
        if code != BIG_ENDIAN_CODE {
            if let Some(text) = known_fourcc_text(code) {
                return text;
            }
        }
        let mut text = "DrmFourcc(".to_owned();
        text.append(decimal(code as u64).as_str());
        text.append(")");
        text
    }
}

impl VkFormat {
    /// The value of this format in the Vulkan API.
    pub open spec fn spec_raw(self) -> i32 {
        match self {
            VkFormat::R8Unorm => 9,
            VkFormat::R8G8Unorm => 16,
            VkFormat::R8G8B8A8Unorm => 37,
            VkFormat::R8G8B8A8Srgb => 43,
            VkFormat::B8G8R8A8Unorm => 44,
            VkFormat::B8G8R8A8Srgb => 50,
            VkFormat::A2B10G10R10UnormPack32 => 64,
            VkFormat::G8B8R83Plane420Unorm => 1_000_156_002,
            VkFormat::G8B8R82Plane420Unorm => 1_000_156_003,
            VkFormat::G10X6B10X6R10X62Plane420Unorm3Pack16 => 1_000_156_013,
        }
    }

    /// The value of this format in the Vulkan API.
    pub fn as_raw(self) -> (r: i32)
        ensures
            r == self.spec_raw(),
    {
        match self {
            VkFormat::R8Unorm => 9,
            VkFormat::R8G8Unorm => 16,
            VkFormat::R8G8B8A8Unorm => 37,
            VkFormat::R8G8B8A8Srgb => 43,
            VkFormat::B8G8R8A8Unorm => 44,
            VkFormat::B8G8R8A8Srgb => 50,
            VkFormat::A2B10G10R10UnormPack32 => 64,
            VkFormat::G8B8R83Plane420Unorm => 1_000_156_002,
            VkFormat::G8B8R82Plane420Unorm => 1_000_156_003,
            VkFormat::G10X6B10X6R10X62Plane420Unorm3Pack16 => 1_000_156_013,
        }
    }
}

/// The code of a format and the format with a code determine each other: two canonical formats
/// with one code are one format.
pub proof fn law_code_identifies_format(f: DrmFourcc, g: DrmFourcc)
    requires
        f.canonical(),
        g.canonical(),
        f.spec_code() == g.spec_code(),
    ensures
        f == g,
{
    if f !is Other {
        assert(DrmFourcc::named(f.spec_code()));
    }
    if g !is Other {
        assert(DrmFourcc::named(g.spec_code()));
    }
}

/// Two Vulkan formats with one value in the Vulkan API are one format.
pub proof fn law_raw_identifies_vk_format(f: VkFormat, g: VkFormat)
    requires
        f.spec_raw() == g.spec_raw(),
    ensures
        f == g,
{
}

/// The code of a named format spells its four letters, the first one in the lowest byte.
pub proof fn law_code_spells_letters(f: DrmFourcc, code: u32)
    requires
        f !is Other,
        call_ensures(DrmFourcc::code, (f,), code),
    ensures
        ({
            let spells = |a: char, b: char, c: char, d: char|
                code == a as int + b as int * 256 + c as int * 65536 + d as int * 16777216;
            &&& spells('A', 'R', '2', '4') <==> f == DrmFourcc::Argb8888
            &&& spells('X', 'R', '2', '4') <==> f == DrmFourcc::Xrgb8888
            &&& spells('A', 'B', '2', '4') <==> f == DrmFourcc::Abgr8888
            &&& spells('X', 'B', '2', '4') <==> f == DrmFourcc::Xbgr8888
            &&& spells('R', 'G', '2', '4') <==> f == DrmFourcc::Rgb888
            &&& spells('B', 'G', '2', '4') <==> f == DrmFourcc::Bgr888
            &&& spells('R', '8', ' ', ' ') <==> f == DrmFourcc::R8
            &&& spells('R', 'G', '8', '8') <==> f == DrmFourcc::Rg88
            &&& spells('G', 'R', '8', '8') <==> f == DrmFourcc::Gr88
            &&& spells('A', 'R', '3', '0') <==> f == DrmFourcc::Argb2101010
            &&& spells('X', 'R', '3', '0') <==> f == DrmFourcc::Xrgb2101010
            &&& spells('N', 'V', '1', '2') <==> f == DrmFourcc::Nv12
            &&& spells('N', 'V', '2', '1') <==> f == DrmFourcc::Nv21
            &&& spells('P', '0', '1', '0') <==> f == DrmFourcc::P010
            &&& spells('Y', 'U', '1', '2') <==> f == DrmFourcc::Yuv420
            &&& spells('Y', 'V', '1', '2') <==> f == DrmFourcc::Yvu420
        }),
{
}

/// A code and the format that it stands for lead to each other: the format of a code has that code,
/// and the format of the code of a named format is that format.
pub proof fn law_code_round_trip(code: u32, f: DrmFourcc, again: u32, g: DrmFourcc, h: DrmFourcc)
    requires
        call_ensures(DrmFourcc::from_code, (code,), f),
        call_ensures(DrmFourcc::code, (f,), again),
        g !is Other,
        call_ensures(DrmFourcc::from_code, (g.spec_code(),), h),
    ensures
        again == code,
        h == g,
        f matches DrmFourcc::Other(rest) ==> rest == code,
{
    assert(DrmFourcc::named(g.spec_code()));
    assert(g.canonical());
    law_code_identifies_format(g, h);
}

/// The bytes of a code put together are the code.
pub proof fn law_code_bytes(code: u32, i: int)
    requires
        0 <= i < 4,
    ensures
        code_byte(code, 0) + 256 * (code_byte(code, 1) + 256 * (code_byte(code, 2) + 256 * code_byte(
            code,
            3,
        ))) == code,
        0 <= code_byte(code, i) < 256,
{
}

/// A format is printed with the letters of its code in brackets where the code names a format, and
/// with the number of its code where it does not. The mark of big endian formats names none.
pub proof fn law_format_printed(f: DrmFourcc, text: String)
    requires
        call_ensures(DrmFourcc::text, (f,), text),
    ensures
        ({
            let code = f.spec_code();
            let letters = Seq::new(
                4,
                |i: int|
                    if i >= 2 && code_byte(code, i) == 0 {
                        ' '
                    } else {
                        code_byte(code, i) as char
                    },
            );
            &&& f !is Other ==> text@ == "DrmFourcc("@ + letters + ")"@
            &&& text@ == "DrmFourcc("@ + letters + ")"@ || text@ == "DrmFourcc("@ + decimal_text(
                code as nat,
            ) + ")"@
            &&& code == 0x8000_0000 ==> text@ == "DrmFourcc("@ + decimal_text(code as nat) + ")"@
        }),
{
    let code = f.spec_code();
    assert(code_chars(code) =~= Seq::new(
        4,
        |i: int|
            if i >= 2 && code_byte(code, i) == 0 {
                ' '
            } else {
                code_byte(code, i) as char
            },
    ));
}

/// The values of the image formats in the Vulkan API. An sRGB format lies six above the linear one,
/// and the formats with blue first lie seven above those with red first. Multi-planar formats lie in
/// a block of their own.
pub proof fn law_vulkan_values(f: VkFormat, raw: i32)
    requires
        call_ensures(VkFormat::as_raw, (f,), raw),
    ensures
        raw == 9 <==> f == VkFormat::R8Unorm,
        raw == 9 + 7 <==> f == VkFormat::R8G8Unorm,
        raw == 37 <==> f == VkFormat::R8G8B8A8Unorm,
        raw == 37 + 6 <==> f == VkFormat::R8G8B8A8Srgb,
        raw == 37 + 7 <==> f == VkFormat::B8G8R8A8Unorm,
        raw == 37 + 7 + 6 <==> f == VkFormat::B8G8R8A8Srgb,
        raw == 64 <==> f == VkFormat::A2B10G10R10UnormPack32,
        raw == 1_000_156_000 + 2 <==> f == VkFormat::G8B8R83Plane420Unorm,
        raw == 1_000_156_000 + 3 <==> f == VkFormat::G8B8R82Plane420Unorm,
        raw == 1_000_156_000 + 13 <==> f == VkFormat::G10X6B10X6R10X62Plane420Unorm3Pack16,
{
}

} // verus!
