//! The import of single-plane dmabufs, step by step.
//!
//! Each value of the chain holds what was created so far and what is to be created next. It takes
//! what came of it. A failed step tells the error and what to release.
use crate::error::{ImportError, ImportErrorView, ImportFailure};
use crate::format::{DrmFourcc, TextureFormat, VkFormat};
use crate::modifiers::{drm_mod, ExplicitModifierCreateInfo, ModifierPlaneLayout, SubresourceLayout};
use crate::multiplanar::{is_multiplanar_format, planar_layout};
use crate::text::{vk_result_debug, with_vk_result};
use crate::texture::WgpuTexture;
use crate::vulkan::{
    find_memory_type_index, memory_type_suits, ImageRequest, ImageTiling, MemoryRequest, Resource,
    MEMORY_DEVICE_LOCAL, USAGE_SAMPLED, USAGE_TRANSFER_SRC,
};
use vstd::prelude::*;
use vstd::string::*;

verus! {

/// A dmabuf: its identity, its size, its format, and a file descriptor, an offset and a stride for
/// each plane.
#[derive(Debug)]
pub struct DmabufInfo {
    /// Identity of the buffer: no two buffers ever have the same, whatever they have in common
    pub id: u64,
    /// Width in pixels
    pub width: i32,
    /// Height in pixels
    pub height: i32,
    /// DRM format
    pub fourcc: DrmFourcc,
    /// DRM format modifier
    pub modifier: u64,
    /// File descriptors of the planes
    pub fds: Vec<i32>,
    /// Offsets of the planes
    pub offsets: Vec<u32>,
    /// Strides of the planes
    pub strides: Vec<u32>,
}

/// The wgpu format of a single-plane DRM format.
///
/// ARGB8888 has the bytes B, G, R, A in memory, and ABGR8888 has R, G, B, A.
pub open spec fn single_plane_format(fourcc: DrmFourcc) -> Option<TextureFormat> {
    match fourcc {
        DrmFourcc::Argb8888 | DrmFourcc::Xrgb8888 | DrmFourcc::Bgr888 => Some(
            TextureFormat::Bgra8Unorm,
        ),
        DrmFourcc::Abgr8888 | DrmFourcc::Xbgr8888 | DrmFourcc::Rgb888 => Some(
            TextureFormat::Rgba8Unorm,
        ),
        DrmFourcc::R8 => Some(TextureFormat::R8Unorm),
        DrmFourcc::Rg88 | DrmFourcc::Gr88 => Some(TextureFormat::Rg8Unorm),
        DrmFourcc::Argb2101010 | DrmFourcc::Xrgb2101010 => Some(TextureFormat::Rgb10a2Unorm),
        _ => None,
    }
}

/// The wgpu format of a DRM format, or why it has none.
pub open spec fn spec_wgpu_format(fourcc: DrmFourcc) -> Result<TextureFormat, ImportErrorView> {
    match single_plane_format(fourcc) {
        Some(format) => Ok(format),
        None => if planar_layout(fourcc) is Some {
            Err(
                ImportErrorView::MultiPlanarFormat {
                    fourcc,
                    hint: "Use import_multiplanar_dmabuf() for YUV formats"@,
                },
            )
        } else {
            Err(ImportErrorView::UnsupportedFormat(fourcc))
        },
    }
}

/// A result with what its error says.
pub open spec fn told<T>(r: Result<T, ImportError>) -> Result<T, ImportErrorView> {
    match r {
        Ok(value) => Ok(value),
        Err(e) => Err(e@),
    }
}

/// Convert a DRM format to a wgpu format.
pub fn dmabuf_to_wgpu_format(fourcc: DrmFourcc) -> (r: Result<TextureFormat, ImportError>)
    ensures
        told(r) == spec_wgpu_format(fourcc),
{
    match fourcc {
        DrmFourcc::Argb8888 => Ok(TextureFormat::Bgra8Unorm),
        DrmFourcc::Xrgb8888 => Ok(TextureFormat::Bgra8Unorm),
        DrmFourcc::Abgr8888 => Ok(TextureFormat::Rgba8Unorm),
        DrmFourcc::Xbgr8888 => Ok(TextureFormat::Rgba8Unorm),
        DrmFourcc::Rgb888 => Ok(TextureFormat::Rgba8Unorm),
        DrmFourcc::Bgr888 => Ok(TextureFormat::Bgra8Unorm),
        DrmFourcc::R8 => Ok(TextureFormat::R8Unorm),
        DrmFourcc::Rg88 => Ok(TextureFormat::Rg8Unorm),
        DrmFourcc::Gr88 => Ok(TextureFormat::Rg8Unorm),
        DrmFourcc::Argb2101010 => Ok(TextureFormat::Rgb10a2Unorm),
        DrmFourcc::Xrgb2101010 => Ok(TextureFormat::Rgb10a2Unorm),
        _ => if is_multiplanar_format(fourcc) {
            Err(
                ImportError::MultiPlanarFormat {
                    fourcc,
                    hint: "Use import_multiplanar_dmabuf() for YUV formats".to_owned(),
                },
            )
        } else {
            Err(ImportError::UnsupportedFormat(fourcc))
        },
    }
}

/// The Vulkan format of a wgpu format that dmabufs are imported with.
pub open spec fn import_vk_format(format: TextureFormat) -> Option<VkFormat> {
    match format {
        TextureFormat::Bgra8Unorm => Some(VkFormat::B8G8R8A8Unorm),
        TextureFormat::Bgra8UnormSrgb => Some(VkFormat::B8G8R8A8Srgb),
        TextureFormat::Rgba8Unorm => Some(VkFormat::R8G8B8A8Unorm),
        TextureFormat::Rgba8UnormSrgb => Some(VkFormat::R8G8B8A8Srgb),
        TextureFormat::Rgb10a2Unorm => Some(VkFormat::A2B10G10R10UnormPack32),
        _ => None,
    }
}

/// The Vulkan format of the wgpu format of a dmabuf, or the error of a format without one, which
/// names the DRM format of the dmabuf.
pub open spec fn spec_vk_format(format: TextureFormat, fourcc: DrmFourcc) -> Result<
    VkFormat,
    ImportErrorView,
> {
    match import_vk_format(format) {
        Some(vk_format) => Ok(vk_format),
        None => Err(ImportErrorView::UnsupportedFormat(fourcc)),
    }
}

/// Map the wgpu format of a dmabuf with this DRM format to a Vulkan format.
pub fn wgpu_to_vk_format(format: TextureFormat, fourcc: DrmFourcc) -> (r: Result<
    VkFormat,
    ImportError,
>)
    ensures
        told(r) == spec_vk_format(format, fourcc),
{
    match format {
        TextureFormat::Bgra8Unorm => Ok(VkFormat::B8G8R8A8Unorm),
        TextureFormat::Bgra8UnormSrgb => Ok(VkFormat::B8G8R8A8Srgb),
        TextureFormat::Rgba8Unorm => Ok(VkFormat::R8G8B8A8Unorm),
        TextureFormat::Rgba8UnormSrgb => Ok(VkFormat::R8G8B8A8Srgb),
        TextureFormat::Rgb10a2Unorm => Ok(VkFormat::A2B10G10R10UnormPack32),
        _ => Err(ImportError::UnsupportedFormat(fourcc)),
    }
}

/// The texture that an import leads to.
#[derive(Clone, Copy, Debug, PartialEq, Eq, Structural)]
pub struct ImportTarget {
    /// Width in pixels
    pub width: u32,
    /// Height in pixels
    pub height: u32,
    /// Texture format
    pub format: TextureFormat,
    /// DRM format of the dmabuf
    pub fourcc: DrmFourcc,
}

/// A single-plane dmabuf that is to be imported. A duplicate of its file descriptor comes first.
#[derive(Clone, Copy, Debug, PartialEq, Eq, Structural)]
pub struct SinglePlaneImport {
    /// The texture to come.
    pub target: ImportTarget,
    /// File descriptor of the plane, to be duplicated.
    pub fd: i32,
    /// Offset of the plane.
    pub offset: u32,
    /// Stride of the plane.
    pub stride: u32,
    /// Modifier of the image. An invalid one stands for the linear one.
    pub modifier: u64,
}

/// An import with a duplicated file descriptor. The image comes next.
#[derive(Clone, Copy, Debug, PartialEq, Eq, Structural)]
pub struct PlaneImage {
    /// The texture to come.
    pub target: ImportTarget,
    /// The duplicated file descriptor.
    pub import_fd: i32,
    /// Format of the image.
    pub vk_format: VkFormat,
    /// Modifier of the image.
    pub modifier: u64,
    /// Layout of its only plane.
    pub plane_layout: SubresourceLayout,
}

/// An import that has its image. The memory comes next.
#[derive(Clone, Copy, Debug, PartialEq, Eq, Structural)]
pub struct CreatedPlaneImage {
    /// The texture to come.
    pub target: ImportTarget,
    /// The duplicated file descriptor.
    pub import_fd: i32,
    /// The image.
    pub image: u64,
}

/// An import with an explicit modifier. The image comes next.
#[derive(Debug)]
pub struct ModifierImage {
    /// The texture to come.
    pub target: ImportTarget,
    /// File descriptor of the first plane.
    pub fd: i32,
    /// Format of the image.
    pub vk_format: VkFormat,
    /// Modifier of the image.
    pub modifier: u64,
    /// Layouts of its planes.
    pub plane_layouts: Vec<SubresourceLayout>,
}

/// An import with an explicit modifier that has its image. The memory type comes next.
#[derive(Clone, Copy, Debug, PartialEq, Eq, Structural)]
pub struct CreatedModifierImage {
    /// The texture to come.
    pub target: ImportTarget,
    /// File descriptor of the first plane.
    pub fd: i32,
    /// The image.
    pub image: u64,
}

/// An import with an explicit modifier and a memory type. A duplicate of the file descriptor
/// comes next.
#[derive(Clone, Copy, Debug, PartialEq, Eq, Structural)]
pub struct ModifierMemory {
    /// The texture to come.
    pub target: ImportTarget,
    /// File descriptor of the first plane, to be duplicated.
    pub fd: i32,
    /// The image.
    pub image: u64,
    /// The memory to allocate.
    pub request: MemoryRequest,
}

/// An import whose memory is to be allocated, for its image alone.
#[derive(Clone, Copy, Debug, PartialEq, Eq, Structural)]
pub struct ImportAllocation {
    /// The texture to come.
    pub target: ImportTarget,
    /// The image.
    pub image: u64,
    /// The duplicated file descriptor, which goes over to the memory.
    pub import_fd: i32,
    /// The memory to allocate.
    pub request: MemoryRequest,
}

/// An import whose memory is to be bound to its image.
#[derive(Clone, Copy, Debug, PartialEq, Eq, Structural)]
pub struct ImportBinding {
    /// The texture to come.
    pub target: ImportTarget,
    /// The image.
    pub image: u64,
    /// The memory.
    pub memory: u64,
}

impl DmabufInfo {
    /// The number of planes of which all is known.
    pub open spec fn planes(self) -> nat {
        let fds_offsets = if self.fds@.len() <= self.offsets@.len() {
            self.fds@.len()
        } else {
            self.offsets@.len()
        };
        if fds_offsets <= self.strides@.len() {
            fds_offsets
        } else {
            self.strides@.len()
        }
    }

    /// The number of planes of which all is known.
    pub fn plane_count(&self) -> (r: usize)
        ensures
            r == self.planes(),
    {
        let fds_offsets: usize = if self.fds.len() <= self.offsets.len() {
            self.fds.len()
        } else {
            self.offsets.len()
        };
        if fds_offsets <= self.strides.len() {
            fds_offsets
        } else {
            self.strides.len()
        }
    }

    /// The texture that an import of the dmabuf leads to, or why there is none: a dimension is
    /// zero, or the format has no texture format.
    pub open spec fn spec_target(self) -> Result<ImportTarget, ImportErrorView> {
        let width = self.width as u32;
        let height = self.height as u32;
        if width == 0 || height == 0 {
            Err(ImportErrorView::InvalidDimensions { width, height })
        } else {
            match spec_wgpu_format(self.fourcc) {
                Ok(format) => Ok(ImportTarget { width, height, format, fourcc: self.fourcc }),
                Err(e) => Err(e),
            }
        }
    }

    /// The texture that an import of the dmabuf leads to.
    pub fn target(&self) -> (r: Result<ImportTarget, ImportError>)
        ensures
            told(r) == self.spec_target(),
    {
        let width: u32 = self.width as u32;
        let height: u32 = self.height as u32;
        if width == 0 || height == 0 {
            return Err(ImportError::InvalidDimensions { width, height });
        }
        match dmabuf_to_wgpu_format(self.fourcc) {
            Ok(format) => Ok(ImportTarget { width, height, format, fourcc: self.fourcc }),
            Err(e) => Err(e),
        }
    }

    /// The import of the dmabuf as a single plane, or why it cannot be imported so: there is no
    /// texture for it, or it has no plane.
    pub open spec fn spec_single_plane(self) -> Result<SinglePlaneImport, ImportErrorView> {
        match self.spec_target() {
            Ok(target) => if self.planes() == 0 {
                Err(ImportErrorView::InvalidPlanes("No planes in dmabuf"@))
            } else {
                Ok(
                    SinglePlaneImport {
                        target,
                        fd: self.fds@[0],
                        offset: self.offsets@[0],
                        stride: self.strides@[0],
                        modifier: if self.modifier == drm_mod::INVALID {
                            drm_mod::LINEAR
                        } else {
                            self.modifier
                        },
                    },
                )
            },
            Err(e) => Err(e),
        }
    }

    /// Start the import of the dmabuf as a single plane. Further planes are left aside.
    pub fn single_plane_import(&self) -> (r: Result<SinglePlaneImport, ImportError>)
        ensures
            told(r) == self.spec_single_plane(),
    {
        let target = match self.target() {
            Ok(target) => target,
            Err(e) => {
                return Err(e);
            },
        };
        if self.plane_count() == 0 {
            return Err(ImportError::InvalidPlanes("No planes in dmabuf".to_owned()));
        }
        let modifier: u64 = if self.modifier == drm_mod::INVALID {
            drm_mod::LINEAR
        } else {
            self.modifier
        };
        Ok(
            SinglePlaneImport {
                target,
                fd: self.fds[0],
                offset: self.offsets[0],
                stride: self.strides[0],
                modifier,
            },
        )
    }
}

impl SinglePlaneImport {
    /// The image of the import, or why there is none: the file descriptor could not be
    /// duplicated, there is no Vulkan device, or the format has no Vulkan format.
    pub open spec fn spec_image(self, duplicate: i32, device_available: bool) -> Result<
        PlaneImage,
        ImportErrorView,
    > {
        if duplicate < 0 {
            Err(ImportErrorView::FdImport("failed to dup dmabuf fd"@))
        } else if !device_available {
            Err(ImportErrorView::BridgeUnavailable)
        } else {
            match spec_vk_format(self.target.format, self.target.fourcc) {
                Ok(vk_format) => Ok(
                    PlaneImage {
                        target: self.target,
                        import_fd: duplicate,
                        vk_format,
                        modifier: self.modifier,
                        plane_layout: SubresourceLayout {
                            offset: self.offset as u64,
                            size: 0,
                            row_pitch: self.stride as u64,
                            array_pitch: 0,
                            depth_pitch: 0,
                        },
                    },
                ),
                Err(e) => Err(e),
            }
        }
    }

    /// Go on with the duplicated file descriptor, and whether there is a Vulkan device. A negative
    /// file descriptor says that it could not be duplicated. A failure leaves the duplicate open.
    pub fn fd_duplicated(self, duplicate: i32, device_available: bool) -> (r: Result<
        PlaneImage,
        ImportError,
    >)
        ensures
            told(r) == self.spec_image(duplicate, device_available),
    {
        if duplicate < 0 {
            return Err(ImportError::FdImport("failed to dup dmabuf fd".to_owned()));
        }
        if !device_available {
            return Err(ImportError::BridgeUnavailable);
        }
        match wgpu_to_vk_format(self.target.format, self.target.fourcc) {
            Ok(vk_format) => Ok(
                PlaneImage {
                    target: self.target,
                    import_fd: duplicate,
                    vk_format,
                    modifier: self.modifier,
                    plane_layout: SubresourceLayout {
                        offset: self.offset as u64,
                        size: 0,
                        row_pitch: self.stride as u64,
                        array_pitch: 0,
                        depth_pitch: 0,
                    },
                },
            ),
            Err(e) => Err(e),
        }
    }
}

/// The image of an imported dmabuf: sampled and copied from, tiled as its modifier says.
pub open spec fn import_image(
    target: ImportTarget,
    vk_format: VkFormat,
    modifier: u64,
) -> ImageRequest {
    ImageRequest {
        format: vk_format,
        width: target.width,
        height: target.height,
        tiling: ImageTiling::DrmFormatModifier(modifier),
        usage: USAGE_SAMPLED | USAGE_TRANSFER_SRC,
        disjoint: false,
    }
}

/// The image of an imported dmabuf.
fn image_request(target: ImportTarget, vk_format: VkFormat, modifier: u64) -> (r: ImageRequest)
    ensures
        r == import_image(target, vk_format, modifier),
{
    ImageRequest {
        format: vk_format,
        width: target.width,
        height: target.height,
        tiling: ImageTiling::DrmFormatModifier(modifier),
        usage: USAGE_SAMPLED | USAGE_TRANSFER_SRC,
        disjoint: false,
    }
}

/// A failure that releases an image.
fn image_failure(error: ImportError, image: u64) -> (r: ImportFailure)
    ensures
        r.is(error@, seq![Resource::Image(image)]),
{
    let mut released: Vec<Resource> = Vec::new();
    released.push(Resource::Image(image));
    ImportFailure { error, released }
}

/// The memory for an image of the given size that is imported as a whole: the first memory type
/// that is local to the device and allowed for the image. `None` where there is none.
pub open spec fn is_import_memory(
    request: Option<MemoryRequest>,
    types: Seq<u32>,
    type_bits: u32,
    size: u64,
) -> bool {
    match request {
        Some(m) => {
            &&& m.size == size
            &&& memory_type_suits(types, type_bits, MEMORY_DEVICE_LOCAL, m.memory_type_index as int)
            &&& forall|j: int|
                0 <= j < m.memory_type_index ==> !memory_type_suits(
                    types,
                    type_bits,
                    MEMORY_DEVICE_LOCAL,
                    j,
                )
        },
        None => forall|j: int| !memory_type_suits(types, type_bits, MEMORY_DEVICE_LOCAL, j),
    }
}

/// Choose the memory for an image of the given size.
fn import_memory(types: &Vec<u32>, type_bits: u32, size: u64) -> (r: Option<MemoryRequest>)
    requires
        types@.len() <= 32,
    ensures
        is_import_memory(r, types@, type_bits, size),
{
    match find_memory_type_index(types, type_bits, MEMORY_DEVICE_LOCAL) {
        Some(memory_type_index) => Some(MemoryRequest { size, memory_type_index }),
        None => None,
    }
}

impl PlaneImage {
    /// The image to create, with its modifier and the layout of its plane.
    pub fn image_request(&self) -> (r: ImageRequest)
        ensures
            r == import_image(self.target, self.vk_format, self.modifier),
    {
        image_request(self.target, self.vk_format, self.modifier)
    }

    /// Go on with the image, or with the code of why it could not be created.
    pub fn image_created(self, image: Result<u64, i32>) -> (r: Result<
        CreatedPlaneImage,
        ImportError,
    >)
        ensures
            match image {
                Ok(handle) => r == Ok::<CreatedPlaneImage, ImportError>(
                    CreatedPlaneImage {
                        target: self.target,
                        import_fd: self.import_fd,
                        image: handle,
                    },
                ),
                Err(code) => r matches Err(e) && e@ == ImportErrorView::ImageCreation(
                    "vkCreateImage failed: "@ + vk_result_debug(code),
                ),
            },
    {
        match image {
            Ok(handle) => Ok(
                CreatedPlaneImage {
                    target: self.target,
                    import_fd: self.import_fd,
                    image: handle,
                },
            ),
            Err(code) => Err(
                ImportError::ImageCreation(with_vk_result("vkCreateImage failed: ", code)),
            ),
        }
    }
}

impl CreatedPlaneImage {
    /// Choose the memory of the image, of which the size and the allowed types are known. `types`
    /// holds the property flags of the memory types, or `None` where there is no adapter to ask:
    /// then the image stays as it is.
    pub fn memory_chosen(self, types: Option<&Vec<u32>>, type_bits: u32, size: u64) -> (r: Result<
        ImportAllocation,
        ImportFailure,
    >)
        requires
            types matches Some(t) ==> t@.len() <= 32,
        ensures
            match types {
                Some(t) => match r {
                    Ok(a) => is_import_memory(Some(a.request), t@, type_bits, size) && a == (
                    ImportAllocation {
                        target: self.target,
                        image: self.image,
                        import_fd: self.import_fd,
                        request: a.request,
                    }),
                    Err(failure) => is_import_memory(None, t@, type_bits, size) && failure.is(
                        ImportErrorView::MemoryAllocation("no suitable memory type found"@),
                        seq![Resource::Image(self.image)],
                    ),
                },
                None => r matches Err(failure) && failure.is(
                    ImportErrorView::BridgeUnavailable,
                    Seq::empty(),
                ),
            },
    {
        let types = match types {
            Some(types) => types,
            None => {
                return Err(
                    ImportFailure { error: ImportError::BridgeUnavailable, released: Vec::new() },
                );
            },
        };
        match import_memory(types, type_bits, size) {
            Some(request) => Ok(
                ImportAllocation {
                    target: self.target,
                    image: self.image,
                    import_fd: self.import_fd,
                    request,
                },
            ),
            None => Err(
                image_failure(
                    ImportError::MemoryAllocation("no suitable memory type found".to_owned()),
                    self.image,
                ),
            ),
        }
    }
}

impl ModifierImage {
    /// The image to create, with its modifier and the layouts of its planes.
    pub fn image_request(&self) -> (r: ImageRequest)
        ensures
            r == import_image(self.target, self.vk_format, self.modifier),
    {
        image_request(self.target, self.vk_format, self.modifier)
    }

    /// Go on with the image, or with the code of why it could not be created.
    pub fn image_created(self, image: Result<u64, i32>) -> (r: Result<
        CreatedModifierImage,
        ImportError,
    >)
        ensures
            match image {
                Ok(handle) => r == Ok::<CreatedModifierImage, ImportError>(
                    CreatedModifierImage { target: self.target, fd: self.fd, image: handle },
                ),
                Err(code) => r matches Err(e) && e@ == ImportErrorView::ImageCreation(
                    "vkCreateImage with modifier failed: "@ + vk_result_debug(code),
                ),
            },
    {
        match image {
            Ok(handle) => Ok(
                CreatedModifierImage { target: self.target, fd: self.fd, image: handle },
            ),
            Err(code) => Err(
                ImportError::ImageCreation(
                    with_vk_result("vkCreateImage with modifier failed: ", code),
                ),
            ),
        }
    }
}

impl CreatedModifierImage {
    /// Choose the memory of the image, of which the size and the allowed types are known. `types`
    /// holds the property flags of the memory types, or `None` where there is no adapter to ask:
    /// then the image stays as it is.
    pub fn memory_chosen(self, types: Option<&Vec<u32>>, type_bits: u32, size: u64) -> (r: Result<
        ModifierMemory,
        ImportFailure,
    >)
        requires
            types matches Some(t) ==> t@.len() <= 32,
        ensures
            match types {
                Some(t) => match r {
                    Ok(m) => is_import_memory(Some(m.request), t@, type_bits, size) && m == (
                    ModifierMemory {
                        target: self.target,
                        fd: self.fd,
                        image: self.image,
                        request: m.request,
                    }),
                    Err(failure) => is_import_memory(None, t@, type_bits, size) && failure.is(
                        ImportErrorView::MemoryAllocation("No suitable memory type found"@),
                        seq![Resource::Image(self.image)],
                    ),
                },
                None => r matches Err(failure) && failure.is(
                    ImportErrorView::BridgeUnavailable,
                    Seq::empty(),
                ),
            },
    {
        let types = match types {
            Some(types) => types,
            None => {
                return Err(
                    ImportFailure { error: ImportError::BridgeUnavailable, released: Vec::new() },
                );
            },
        };
        match import_memory(types, type_bits, size) {
            Some(request) => Ok(
                ModifierMemory { target: self.target, fd: self.fd, image: self.image, request },
            ),
            None => Err(
                image_failure(
                    ImportError::MemoryAllocation("No suitable memory type found".to_owned()),
                    self.image,
                ),
            ),
        }
    }
}

impl ModifierMemory {
    /// Go on with the duplicated file descriptor. A negative one says that it could not be
    /// duplicated.
    pub fn fd_duplicated(self, duplicate: i32) -> (r: Result<ImportAllocation, ImportFailure>)
        ensures
            match r {
                Ok(a) => duplicate >= 0 && a == (ImportAllocation {
                    target: self.target,
                    image: self.image,
                    import_fd: duplicate,
                    request: self.request,
                }),
                Err(failure) => duplicate < 0 && failure.is(
                    ImportErrorView::FdImport("Failed to dup dmabuf fd"@),
                    seq![Resource::Image(self.image)],
                ),
            },
    {
        if duplicate < 0 {
            return Err(
                image_failure(
                    ImportError::FdImport("Failed to dup dmabuf fd".to_owned()),
                    self.image,
                ),
            );
        }
        Ok(
            ImportAllocation {
                target: self.target,
                image: self.image,
                import_fd: duplicate,
                request: self.request,
            },
        )
    }
}

impl ImportAllocation {
    /// Go on with the memory, or with the code of why it could not be allocated.
    pub fn allocated(self, memory: Result<u64, i32>) -> (r: Result<ImportBinding, ImportFailure>)
        ensures
            match memory {
                Ok(handle) => r == Ok::<ImportBinding, ImportFailure>(
                    ImportBinding { target: self.target, image: self.image, memory: handle },
                ),
                Err(code) => r matches Err(failure) && failure.is(
                    ImportErrorView::MemoryAllocation(
                        "vkAllocateMemory failed: "@ + vk_result_debug(code),
                    ),
                    seq![Resource::Image(self.image)],
                ),
            },
    {
        match memory {
            Ok(handle) => Ok(
                ImportBinding { target: self.target, image: self.image, memory: handle },
            ),
            Err(code) => Err(
                image_failure(
                    ImportError::MemoryAllocation(with_vk_result("vkAllocateMemory failed: ", code)),
                    self.image,
                ),
            ),
        }
    }
}

impl ImportBinding {
    /// Finish with the bound image, or with the code of why the memory could not be bound. The
    /// texture owns the image and the memory.
    pub fn bound(self, bound: Result<(), i32>) -> (r: Result<WgpuTexture, ImportFailure>)
        ensures
            match bound {
                Ok(_) => r == Ok::<WgpuTexture, ImportFailure>(
                    WgpuTexture {
                        format: self.target.format,
                        width: self.target.width,
                        height: self.target.height,
                        external: true,
                        y_inverted: true,
                    },
                ),
                Err(code) => r matches Err(failure) && failure.is(
                    ImportErrorView::MemoryAllocation(
                        "vkBindImageMemory failed: "@ + vk_result_debug(code),
                    ),
                    seq![Resource::Memory(self.memory), Resource::Image(self.image)],
                ),
            },
    {
        match bound {
            Ok(_) => Ok(
                WgpuTexture::new(self.target.format, self.target.width, self.target.height, true),
            ),
            Err(code) => {
                let mut released: Vec<Resource> = Vec::new();
                released.push(Resource::Memory(self.memory));
                released.push(Resource::Image(self.image));
                Err(
                    ImportFailure {
                        error: ImportError::MemoryAllocation(
                            with_vk_result("vkBindImageMemory failed: ", code),
                        ),
                        released,
                    },
                )
            },
        }
    }
}

/// The layouts of the planes of a modifier as Vulkan takes them.
pub open spec fn subresources(layouts: Seq<ModifierPlaneLayout>) -> Seq<SubresourceLayout> {
    Seq::new(layouts.len(), |i: int| layouts[i].spec_subresource())
}

/// Convert the layouts of the planes of a modifier.
pub(crate) fn subresource_layouts(info: &ExplicitModifierCreateInfo) -> (r: Vec<SubresourceLayout>)
    ensures
        r@ == subresources(info.plane_layouts@),
{
    let mut layouts: Vec<SubresourceLayout> = Vec::new();
    let mut i: usize = 0;
    while i < info.plane_layouts.len()
        invariant
            i <= info.plane_layouts@.len(),
            layouts@ == Seq::new(i as nat, |j: int| info.plane_layouts@[j].spec_subresource()),
        decreases info.plane_layouts@.len() - i,
    {
        layouts.push(SubresourceLayout::from(&info.plane_layouts[i]));
        i = i + 1;
    }
    layouts
}

/// A DRM format is imported as a single plane or as several planes, never both.
pub proof fn law_formats_disjoint(fourcc: DrmFourcc)
    ensures
        !(single_plane_format(fourcc) is Some && planar_layout(fourcc) is Some),
        spec_wgpu_format(fourcc) is Ok <==> single_plane_format(fourcc) is Some,
{
}

/// A dmabuf that was imported as a texture has the dimensions of the dmabuf, none of them zero, and
/// a format that images are created with.
pub proof fn law_import_keeps_dimensions(d: DmabufInfo, duplicate: i32, device_available: bool)
    ensures
        d.spec_single_plane() matches Ok(import) ==> (import.spec_image(
            duplicate,
            device_available,
        ) matches Ok(image) ==> image.target.width == d.width as u32 && image.target.height
            == d.height as u32 && image.target.width != 0 && image.target.height != 0
            && import_vk_format(image.target.format) == Some(image.vk_format)),
{
}

/// A dmabuf whose format has no Vulkan format is refused under the name of its own format, once its
/// file descriptor is duplicated on a Vulkan device.
pub proof fn law_refused_format_is_named(d: DmabufInfo, duplicate: i32)
    requires
        duplicate >= 0,
    ensures
        d.spec_single_plane() matches Ok(import) ==> (import_vk_format(import.target.format) is None
            ==> import.spec_image(duplicate, true) == Err::<PlaneImage, ImportErrorView>(
            ImportErrorView::UnsupportedFormat(d.fourcc),
        )),
{
}

/// A dmabuf without a modifier is imported as a linear one: the implicit modifier never reaches
/// Vulkan.
pub proof fn law_implicit_modifier_is_linear(d: DmabufInfo)
    ensures
        d.spec_single_plane() matches Ok(import) ==> import.modifier != drm_mod::INVALID && (
        d.modifier != drm_mod::INVALID ==> import.modifier == d.modifier),
{
}

/// The plane of an imported image lies where the dmabuf says: its rows are as far apart as the
/// stride of the first plane, and it begins at the offset of that plane, whatever the width and the
/// format are. The image has the modifier of the dmabuf, and the linear one where that is implicit.
pub proof fn law_plane_lies_where_told(
    d: DmabufInfo,
    import: SinglePlaneImport,
    duplicate: i32,
    device_available: bool,
    image: PlaneImage,
)
    requires
        call_ensures(
            DmabufInfo::single_plane_import,
            (&d,),
            Ok::<SinglePlaneImport, ImportError>(import),
        ),
        call_ensures(
            SinglePlaneImport::fd_duplicated,
            (import, duplicate, device_available),
            Ok::<PlaneImage, ImportError>(image),
        ),
    ensures
        image.plane_layout.row_pitch == d.strides@[0],
        image.plane_layout.offset == d.offsets@[0],
        image.plane_layout.size == 0,
        image.plane_layout.array_pitch == 0,
        image.plane_layout.depth_pitch == 0,
        import.fd == d.fds@[0],
        image.import_fd == duplicate,
        d.modifier == 0x00ff_ffff_ffff_ffff ==> image.modifier == 0,
        d.modifier != 0x00ff_ffff_ffff_ffff ==> image.modifier == d.modifier,
{
}

/// A dmabuf can be imported as a single plane if and only if it has pixels, a file descriptor, an
/// offset and a stride, and a format of a single plane. What it lacks first is the error.
pub proof fn law_single_plane_needs(d: DmabufInfo, r: Result<SinglePlaneImport, ImportError>)
    requires
        call_ensures(DmabufInfo::single_plane_import, (&d,), r),
    ensures
        r is Ok <==> d.width != 0 && d.height != 0 && d.fds@.len() > 0 && d.offsets@.len() > 0
            && d.strides@.len() > 0 && single_plane_format(d.fourcc) is Some,
        d.width == 0 || d.height == 0 ==> (r matches Err(e) && e@ == (
        ImportErrorView::InvalidDimensions { width: d.width as u32, height: d.height as u32 })),
        d.width != 0 && d.height != 0 && single_plane_format(d.fourcc) is None ==> (r matches Err(e)
            && ((e@ matches ImportErrorView::MultiPlanarFormat { fourcc, hint } && fourcc == d.fourcc)
            || e@ == ImportErrorView::UnsupportedFormat(d.fourcc))),
        r matches Err(e) ==> (e@ == ImportErrorView::InvalidPlanes("No planes in dmabuf"@)
            <==> d.width != 0 && d.height != 0 && single_plane_format(d.fourcc) is Some),
{
    lemma_no_pixels(d.width);
    lemma_no_pixels(d.height);
}

/// A dimension is zero if and only if it is so when it is taken without its sign.
proof fn lemma_no_pixels(n: i32)
    ensures
        n as u32 == 0 <==> n == 0,
{
    assert(n as u32 == 0u32 <==> n == 0i32) by (bit_vector);
}

/// An import goes on to its image if and only if the file descriptor was duplicated, there is a
/// Vulkan device, and the texture format is one of those with four components.
pub proof fn law_image_needs(
    import: SinglePlaneImport,
    duplicate: i32,
    device_available: bool,
    r: Result<PlaneImage, ImportError>,
)
    requires
        call_ensures(SinglePlaneImport::fd_duplicated, (import, duplicate, device_available), r),
    ensures
        r is Ok <==> duplicate >= 0 && device_available && import.target.format
            != TextureFormat::R8Unorm && import.target.format != TextureFormat::Rg8Unorm
            && import.target.format != TextureFormat::Other,
        duplicate < 0 ==> (r matches Err(e) && e@ == ImportErrorView::FdImport(
            "failed to dup dmabuf fd"@,
        )),
        duplicate >= 0 && !device_available ==> (r matches Err(e) && e@
            == ImportErrorView::BridgeUnavailable),
        duplicate >= 0 && device_available && r is Err ==> r->Err_0@
            == ImportErrorView::UnsupportedFormat(import.target.fourcc),
        r matches Ok(image) ==> image.target == import.target,
{
}

/// The texture format of a dmabuf is that of the order of its bytes, as the letters of its code tell
/// it. `AR24` and `XR24` have blue first in memory, `AB24` and `XB24` have red first. An alpha byte
/// and an unused byte make no difference.
pub proof fn law_texture_format_follows_code(fourcc: DrmFourcc)
    requires
        fourcc !is Other,
    ensures
        ({
            let format = single_plane_format(fourcc);
            let letter = |i: int| crate::format::code_byte(fourcc.spec_code(), i) as char;
            let alpha = letter(0) == 'A' || letter(0) == 'X';
            &&& alpha && letter(1) == 'R' && letter(2) == '2' && letter(3) == '4' ==> format == Some(
                TextureFormat::Bgra8Unorm,
            )
            &&& alpha && letter(1) == 'B' && letter(2) == '2' && letter(3) == '4' ==> format == Some(
                TextureFormat::Rgba8Unorm,
            )
            &&& alpha && letter(1) == 'R' && letter(2) == '3' && letter(3) == '0' ==> format == Some(
                TextureFormat::Rgb10a2Unorm,
            )
            &&& letter(0) == 'B' && letter(1) == 'G' ==> format == Some(TextureFormat::Bgra8Unorm)
            &&& letter(0) == 'R' && letter(1) == 'G' && letter(2) == '2' ==> format == Some(
                TextureFormat::Rgba8Unorm,
            )
            &&& letter(0) == 'R' && letter(1) == '8' ==> format == Some(TextureFormat::R8Unorm)
            &&& letter(2) == '8' && letter(3) == '8' ==> format == Some(TextureFormat::Rg8Unorm)
            &&& letter(0) == 'N' || letter(0) == 'P' || letter(0) == 'Y' ==> format is None
        }),
{
}

/// A DRM format converts to its texture format where it has a single plane. A format of several
/// planes is told apart from one that is not known at all.
pub proof fn law_dmabuf_format_told(fourcc: DrmFourcc, r: Result<TextureFormat, ImportError>)
    requires
        call_ensures(dmabuf_to_wgpu_format, (fourcc,), r),
    ensures
        r matches Ok(format) ==> single_plane_format(fourcc) == Some(format),
        r matches Err(e) ==> single_plane_format(fourcc) is None && (e@ is MultiPlanarFormat
            <==> planar_layout(fourcc) is Some),
        r matches Err(e) ==> e@ == ImportErrorView::UnsupportedFormat(fourcc) || e@ == (
        ImportErrorView::MultiPlanarFormat {
            fourcc,
            hint: "Use import_multiplanar_dmabuf() for YUV formats"@,
        }),
        fourcc is Other ==> (r matches Err(e) && e@ == ImportErrorView::UnsupportedFormat(fourcc)),
{
}

/// The image of a texture format has the Vulkan format with the same components in the same order,
/// and an sRGB format keeps its encoding: its value lies six above that of the linear one.
pub proof fn law_vk_format_matches_texture(
    format: TextureFormat,
    fourcc: DrmFourcc,
    vk_format: VkFormat,
    raw: i32,
)
    requires
        call_ensures(wgpu_to_vk_format, (format, fourcc), Ok::<VkFormat, ImportError>(vk_format)),
        call_ensures(VkFormat::as_raw, (vk_format,), raw),
    ensures
        raw == 37 <==> format == TextureFormat::Rgba8Unorm,
        raw == 37 + 6 <==> format == TextureFormat::Rgba8UnormSrgb,
        raw == 44 <==> format == TextureFormat::Bgra8Unorm,
        raw == 44 + 6 <==> format == TextureFormat::Bgra8UnormSrgb,
        raw == 64 <==> format == TextureFormat::Rgb10a2Unorm,
        raw == 37 || raw == 43 || raw == 44 || raw == 50 || raw == 64,
{
}

/// The image that is created for a dmabuf has its dimensions, can be sampled and copied from and
/// nothing else, and is tiled as the modifier of the import says, in one piece of memory.
pub proof fn law_import_image_request(
    image: PlaneImage,
    request: ImageRequest,
    explicit: ModifierImage,
    explicit_request: ImageRequest,
)
    requires
        call_ensures(PlaneImage::image_request, (&image,), request),
        call_ensures(ModifierImage::image_request, (&explicit,), explicit_request),
    ensures
        request.width == image.target.width && request.height == image.target.height,
        request.format == image.vk_format,
        request.tiling.told_modifier() == Some(image.modifier),
        request.tiling != ImageTiling::Linear,
        request.usage == 0x5,
        !request.disjoint,
        explicit_request.width == explicit.target.width,
        explicit_request.height == explicit.target.height,
        explicit_request.format == explicit.vk_format,
        explicit_request.tiling.told_modifier() == Some(explicit.modifier),
        explicit_request.tiling != ImageTiling::Linear,
        explicit_request.usage == request.usage && !explicit_request.disjoint,
{
    assert(0x4u32 | 0x1u32 == 0x5u32) by (bit_vector);
}

/// The memory of an imported image is of the size that the image needs and of the first type that
/// its requirements allow and that is local to the device. Without such a type the image is released.
pub proof fn law_import_memory_choice(
    created: CreatedPlaneImage,
    types: Vec<u32>,
    type_bits: u32,
    size: u64,
    r: Result<ImportAllocation, ImportFailure>,
)
    requires
        types@.len() <= 32,
        call_ensures(
            CreatedPlaneImage::memory_chosen,
            (created, Some(&types), type_bits, size),
            r,
        ),
    ensures
        r matches Ok(a) ==> {
            let i = a.request.memory_type_index as int;
            &&& a.request.size == size
            &&& i < types@.len()
            &&& (type_bits >> (i as u32)) & 1 == 1 && types@[i] & 1 == 1
            &&& forall|j: int|
                0 <= j < i ==> !((type_bits >> (j as u32)) & 1 == 1 && #[trigger] types@[j] & 1 == 1)
            &&& a.image == created.image && a.import_fd == created.import_fd && a.target
                == created.target
        },
        r matches Err(failure) ==> failure.released@ == seq![Resource::Image(created.image)] && (
        forall|j: int|
            0 <= j < types@.len() ==> !((type_bits >> (j as u32)) & 1 == 1 && #[trigger] types@[j] & 1
                == 1)),
{
    lemma_import_type_bits(types@, type_bits);
    if r is Err {
        assert forall|j: int| 0 <= j < types@.len() implies !((type_bits >> (j as u32)) & 1 == 1
            && #[trigger] types@[j] & 1 == 1) by {
            assert(!memory_type_suits(types@, type_bits, MEMORY_DEVICE_LOCAL, j));
        }
    } else {
        let i = r->Ok_0.request.memory_type_index as int;
        assert forall|j: int| 0 <= j < i implies !((type_bits >> (j as u32)) & 1 == 1
            && #[trigger] types@[j] & 1 == 1) by {
            assert(!memory_type_suits(types@, type_bits, MEMORY_DEVICE_LOCAL, j));
        }
    }
}

/// A memory type suits an import where its bit is set and it is local to the device.
proof fn lemma_import_type_bits(types: Seq<u32>, type_bits: u32)
    requires
        types.len() <= 32,
    ensures
        forall|i: int|
            0 <= i < types.len() ==> (#[trigger] memory_type_suits(
                types,
                type_bits,
                MEMORY_DEVICE_LOCAL,
                i,
            ) <==> (type_bits >> (i as u32)) & 1 == 1 && types[i] & 1 == 1),
{
    assert forall|i: int| 0 <= i < types.len() implies (#[trigger] memory_type_suits(
        types,
        type_bits,
        MEMORY_DEVICE_LOCAL,
        i,
    ) <==> (type_bits >> (i as u32)) & 1 == 1 && types[i] & 1 == 1) by {
        crate::vulkan::lemma_type_bit(type_bits, i as u32);
    }
}

/// The memory of an image with an explicit modifier is chosen as that of any other import.
pub proof fn law_memory_choice_is_one(
    created: CreatedPlaneImage,
    explicit: CreatedModifierImage,
    types: Vec<u32>,
    type_bits: u32,
    size: u64,
    a: ImportAllocation,
    r: Result<ModifierMemory, ImportFailure>,
)
    requires
        types@.len() <= 32,
        call_ensures(
            CreatedPlaneImage::memory_chosen,
            (created, Some(&types), type_bits, size),
            Ok::<ImportAllocation, ImportFailure>(a),
        ),
        call_ensures(
            CreatedModifierImage::memory_chosen,
            (explicit, Some(&types), type_bits, size),
            r,
        ),
    ensures
        r matches Ok(m) && m.request == a.request && m.image == explicit.image && m.fd
            == explicit.fd && m.target == explicit.target,
{
    let i = a.request.memory_type_index as int;
    assert(memory_type_suits(types@, type_bits, MEMORY_DEVICE_LOCAL, i));
    if let Ok(m) = r {
        let j = m.request.memory_type_index as int;
        assert(memory_type_suits(types@, type_bits, MEMORY_DEVICE_LOCAL, j));
        if i < j {
            assert(!memory_type_suits(types@, type_bits, MEMORY_DEVICE_LOCAL, i));
        }
        if j < i {
            assert(!memory_type_suits(types@, type_bits, MEMORY_DEVICE_LOCAL, j));
        }
    }
}

/// The texture of a dmabuf that was imported step by step has the dimensions and the format of the
/// dmabuf, is external and so y-inverted, and the memory was bound to the image that was created.
pub proof fn law_imported_texture_is_the_dmabuf(
    d: DmabufInfo,
    import: SinglePlaneImport,
    duplicate: i32,
    image: PlaneImage,
    handle: u64,
    created: CreatedPlaneImage,
    types: Vec<u32>,
    type_bits: u32,
    size: u64,
    allocation: ImportAllocation,
    memory: u64,
    binding: ImportBinding,
    texture: WgpuTexture,
)
    requires
        types@.len() <= 32,
        call_ensures(
            DmabufInfo::single_plane_import,
            (&d,),
            Ok::<SinglePlaneImport, ImportError>(import),
        ),
        call_ensures(
            SinglePlaneImport::fd_duplicated,
            (import, duplicate, true),
            Ok::<PlaneImage, ImportError>(image),
        ),
        call_ensures(
            PlaneImage::image_created,
            (image, Ok::<u64, i32>(handle)),
            Ok::<CreatedPlaneImage, ImportError>(created),
        ),
        call_ensures(
            CreatedPlaneImage::memory_chosen,
            (created, Some(&types), type_bits, size),
            Ok::<ImportAllocation, ImportFailure>(allocation),
        ),
        call_ensures(
            ImportAllocation::allocated,
            (allocation, Ok::<u64, i32>(memory)),
            Ok::<ImportBinding, ImportFailure>(binding),
        ),
        call_ensures(
            ImportBinding::bound,
            (binding, Ok::<(), i32>(())),
            Ok::<WgpuTexture, ImportFailure>(texture),
        ),
    ensures
        texture.width == d.width as u32,
        texture.height == d.height as u32,
        single_plane_format(d.fourcc) == Some(texture.format),
        texture.external && texture.y_inverted,
        binding.image == handle && binding.memory == memory,
        allocation.image == handle && allocation.import_fd == duplicate,
{
}

/// A step of an import that fails once the image exists releases the image, and the memory before it
/// where there is some. Nothing else is released.
pub proof fn law_failed_import_releases_image(
    allocation: ImportAllocation,
    code: i32,
    unallocated: ImportFailure,
    binding: ImportBinding,
    unbound: ImportFailure,
    pending: ModifierMemory,
    duplicate: i32,
    undone: ImportFailure,
)
    requires
        call_ensures(
            ImportAllocation::allocated,
            (allocation, Err::<u64, i32>(code)),
            Err::<ImportBinding, ImportFailure>(unallocated),
        ),
        call_ensures(
            ImportBinding::bound,
            (binding, Err::<(), i32>(code)),
            Err::<WgpuTexture, ImportFailure>(unbound),
        ),
        call_ensures(
            ModifierMemory::fd_duplicated,
            (pending, duplicate),
            Err::<ImportAllocation, ImportFailure>(undone),
        ),
    ensures
        unallocated.released@ == seq![Resource::Image(allocation.image)],
        unbound.released@ == seq![Resource::Memory(binding.memory), Resource::Image(binding.image)],
        undone.released@ == seq![Resource::Image(pending.image)],
        unallocated.error@ is MemoryAllocation && unbound.error@ is MemoryAllocation
            && undone.error@ is FdImport,
        duplicate < 0,
{
}

/// The duplicated file descriptor of an import with an explicit modifier goes over to its memory,
/// with the image and the memory that were chosen before.
pub proof fn law_modifier_import_goes_on(
    pending: ModifierMemory,
    duplicate: i32,
    r: Result<ImportAllocation, ImportFailure>,
    explicit: ModifierImage,
    handle: u64,
    created: CreatedModifierImage,
)
    requires
        duplicate >= 0,
        call_ensures(ModifierMemory::fd_duplicated, (pending, duplicate), r),
        call_ensures(
            ModifierImage::image_created,
            (explicit, Ok::<u64, i32>(handle)),
            Ok::<CreatedModifierImage, ImportError>(created),
        ),
    ensures
        r matches Ok(a) && a.import_fd == duplicate && a.image == pending.image && a.request
            == pending.request && a.target == pending.target,
        created.image == handle && created.fd == explicit.fd && created.target == explicit.target,
{
}

/// The layouts of the planes of an explicit modifier reach Vulkan as they were given, plane for
/// plane and field for field.
pub proof fn law_modifier_layouts_unchanged(layouts: Seq<ModifierPlaneLayout>, i: int)
    requires
        0 <= i < layouts.len(),
    ensures
        subresources(layouts).len() == layouts.len(),
        subresources(layouts)[i].offset == layouts[i].offset,
        subresources(layouts)[i].row_pitch == layouts[i].row_pitch,
        subresources(layouts)[i].size == layouts[i].size,
        subresources(layouts)[i].array_pitch == layouts[i].array_pitch,
        subresources(layouts)[i].depth_pitch == layouts[i].depth_pitch,
{
}

/// A plane counts where its file descriptor, its offset and its stride are all known: there are as
/// many as the shortest of the three lists is long.
pub proof fn law_planes_counted(d: DmabufInfo, n: usize)
    requires
        call_ensures(DmabufInfo::plane_count, (&d,), n),
    ensures
        n <= d.fds@.len() && n <= d.offsets@.len() && n <= d.strides@.len(),
        n == d.fds@.len() || n == d.offsets@.len() || n == d.strides@.len(),
{
}

} // verus!
