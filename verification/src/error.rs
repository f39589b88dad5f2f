//! Error types.
use crate::format::DrmFourcc;
use crate::text::{decimal, decimal_text, hex, hex_text, joined, quoted, str_debug};
use crate::vulkan::Resource;
use vstd::prelude::*;
use vstd::string::*;

verus! {

/// Errors that can occur when creating or using the bridge.
#[derive(Debug)]
pub enum BridgeError {
    /// Failed to create a wgpu instance from the compositor's Vulkan instance.
    InstanceCreation(String),
    /// Failed to create a wgpu adapter.
    AdapterCreation(String),
    /// Failed to create a wgpu device.
    DeviceCreation(String),
    /// The Vulkan instance does not support a required extension.
    MissingExtension(String),
    /// Failed to access raw Vulkan handles.
    HalAccess(String),
    /// Synchronization error.
    Sync(String),
    /// Rendering error.
    Render(String),
}

/// Errors that can occur when importing textures.
#[derive(Debug)]
pub enum ImportError {
    /// The dmabuf format is not supported.
    UnsupportedFormat(DrmFourcc),
    /// A multi-planar format needs an import path of its own.
    MultiPlanarFormat { fourcc: DrmFourcc, hint: String },
    /// The dmabuf modifier is not supported.
    UnsupportedModifier(u64),
    /// Failed to import the dmabuf file descriptor.
    FdImport(String),
    /// Failed to create a Vulkan image from the dmabuf.
    ImageCreation(String),
    /// Failed to allocate memory for the imported texture.
    MemoryAllocation(String),
    /// The dmabuf has an invalid plane configuration.
    InvalidPlanes(String),
    /// The texture dimensions are invalid or unsupported.
    InvalidDimensions { width: u32, height: u32 },
    /// The bridge is not initialized or has been dropped.
    BridgeUnavailable,
    /// Failed to access a shared memory buffer.
    ShmAccess(String),
    /// The shared memory format is not supported.
    UnsupportedShmFormat,
}

/// A step of an import that failed.
#[derive(Debug)]
pub struct ImportFailure {
    /// Why the step failed.
    pub error: ImportError,
    /// What the import had created and is to be released, in this order.
    pub released: Vec<Resource>,
}

/// A transformation of an output.
#[derive(Clone, Copy, Debug, PartialEq, Eq, Structural)]
pub enum Transform {
    /// No change.
    Normal,
    /// A rotation by 90 degrees.
    Rotated90,
    /// A rotation by 180 degrees.
    Rotated180,
    /// A rotation by 270 degrees.
    Rotated270,
    /// A vertical flip.
    Flipped,
    /// A vertical flip and a rotation by 90 degrees.
    Flipped90,
    /// A vertical flip and a rotation by 180 degrees.
    Flipped180,
    /// A vertical flip and a rotation by 270 degrees.
    Flipped270,
}

/// Errors that can occur during rendering.
#[derive(Debug)]
pub enum RenderError {
    /// The frame has already been finished.
    FrameFinished,
    /// Failed to begin a render pass.
    BeginRenderPass(String),
    /// Failed to submit commands.
    Submit(String),
    /// The texture belongs to another renderer context.
    ContextMismatch { expected: String, actual: String },
    /// The framebuffer is invalid or incompatible.
    InvalidFramebuffer(String),
    /// The transformation is not supported.
    UnsupportedTransform(Transform),
    /// An import failed during rendering.
    Import(ImportError),
    /// The bridge failed during rendering.
    Bridge(BridgeError),
}

/// What a [`BridgeError`] says.
pub enum BridgeErrorView {
    InstanceCreation(Seq<char>),
    AdapterCreation(Seq<char>),
    DeviceCreation(Seq<char>),
    MissingExtension(Seq<char>),
    HalAccess(Seq<char>),
    Sync(Seq<char>),
    Render(Seq<char>),
}

/// What an [`ImportError`] says.
pub enum ImportErrorView {
    UnsupportedFormat(DrmFourcc),
    MultiPlanarFormat { fourcc: DrmFourcc, hint: Seq<char> },
    UnsupportedModifier(u64),
    FdImport(Seq<char>),
    ImageCreation(Seq<char>),
    MemoryAllocation(Seq<char>),
    InvalidPlanes(Seq<char>),
    InvalidDimensions { width: u32, height: u32 },
    BridgeUnavailable,
    ShmAccess(Seq<char>),
    UnsupportedShmFormat,
}

/// What a [`RenderError`] says.
pub enum RenderErrorView {
    FrameFinished,
    BeginRenderPass(Seq<char>),
    Submit(Seq<char>),
    ContextMismatch { expected: Seq<char>, actual: Seq<char> },
    InvalidFramebuffer(Seq<char>),
    UnsupportedTransform(Transform),
    Import(ImportErrorView),
    Bridge(BridgeErrorView),
}

impl View for BridgeError {
    type V = BridgeErrorView;

    open spec fn view(&self) -> BridgeErrorView {
        match *self {
            BridgeError::InstanceCreation(s) => BridgeErrorView::InstanceCreation(s@),
            BridgeError::AdapterCreation(s) => BridgeErrorView::AdapterCreation(s@),
            BridgeError::DeviceCreation(s) => BridgeErrorView::DeviceCreation(s@),
            BridgeError::MissingExtension(s) => BridgeErrorView::MissingExtension(s@),
            BridgeError::HalAccess(s) => BridgeErrorView::HalAccess(s@),
            BridgeError::Sync(s) => BridgeErrorView::Sync(s@),
            BridgeError::Render(s) => BridgeErrorView::Render(s@),
        }
    }
}

impl View for ImportError {
    type V = ImportErrorView;

    open spec fn view(&self) -> ImportErrorView {
        match *self {
            ImportError::UnsupportedFormat(f) => ImportErrorView::UnsupportedFormat(f),
            ImportError::MultiPlanarFormat { fourcc, hint } => ImportErrorView::MultiPlanarFormat {
                fourcc,
                hint: hint@,
            },
            ImportError::UnsupportedModifier(m) => ImportErrorView::UnsupportedModifier(m),
            ImportError::FdImport(s) => ImportErrorView::FdImport(s@),
            ImportError::ImageCreation(s) => ImportErrorView::ImageCreation(s@),
            ImportError::MemoryAllocation(s) => ImportErrorView::MemoryAllocation(s@),
            ImportError::InvalidPlanes(s) => ImportErrorView::InvalidPlanes(s@),
            ImportError::InvalidDimensions { width, height } => ImportErrorView::InvalidDimensions {
                width,
                height,
            },
            ImportError::BridgeUnavailable => ImportErrorView::BridgeUnavailable,
            ImportError::ShmAccess(s) => ImportErrorView::ShmAccess(s@),
            ImportError::UnsupportedShmFormat => ImportErrorView::UnsupportedShmFormat,
        }
    }
}

impl View for RenderError {
    type V = RenderErrorView;

    open spec fn view(&self) -> RenderErrorView {
        match *self {
            RenderError::FrameFinished => RenderErrorView::FrameFinished,
            RenderError::BeginRenderPass(s) => RenderErrorView::BeginRenderPass(s@),
            RenderError::Submit(s) => RenderErrorView::Submit(s@),
            RenderError::ContextMismatch { expected, actual } => RenderErrorView::ContextMismatch {
                expected: expected@,
                actual: actual@,
            },
            RenderError::InvalidFramebuffer(s) => RenderErrorView::InvalidFramebuffer(s@),
            RenderError::UnsupportedTransform(t) => RenderErrorView::UnsupportedTransform(t),
            RenderError::Import(e) => RenderErrorView::Import(e@),
            RenderError::Bridge(e) => RenderErrorView::Bridge(e@),
        }
    }
}

impl ImportFailure {
    /// Whether the step failed with this error and leaves these resources to release.
    pub open spec fn is(self, error: ImportErrorView, released: Seq<Resource>) -> bool {
        self.error@ == error && self.released@ =~= released
    }
}

impl BridgeErrorView {
    /// The message of the error.
    pub open spec fn message(self) -> Seq<char> {
        match self {
            BridgeErrorView::InstanceCreation(s) => "failed to create wgpu instance: "@ + s,
            BridgeErrorView::AdapterCreation(s) => "failed to create wgpu adapter: "@ + s,
            BridgeErrorView::DeviceCreation(s) => "failed to create wgpu device: "@ + s,
            BridgeErrorView::MissingExtension(s) => "missing required Vulkan extension: "@ + s,
            BridgeErrorView::HalAccess(s) => "failed to access raw Vulkan handles: "@ + s,
            BridgeErrorView::Sync(s) => "synchronization error: "@ + s,
            BridgeErrorView::Render(s) => "rendering error: "@ + s,
        }
    }
}

impl ImportErrorView {
    /// The message of the error.
    pub open spec fn message(self) -> Seq<char> {
        match self {
            ImportErrorView::UnsupportedFormat(f) => "unsupported dmabuf format: "@
                + f.spec_text(),
            ImportErrorView::MultiPlanarFormat { fourcc, hint } => "multi-planar format "@
                + fourcc.spec_text() + " requires special handling: "@ + hint,
            ImportErrorView::UnsupportedModifier(m) => "unsupported dmabuf modifier: "@ + hex_text(
                m as nat,
            ),
            ImportErrorView::FdImport(s) => "failed to import dmabuf fd: "@ + s,
            ImportErrorView::ImageCreation(s) => "failed to create Vulkan image: "@ + s,
            ImportErrorView::MemoryAllocation(s) => "memory allocation failed: "@ + s,
            ImportErrorView::InvalidPlanes(s) => "invalid dmabuf plane configuration: "@ + s,
            ImportErrorView::InvalidDimensions { width, height } => "invalid texture dimensions: "@
                + decimal_text(width as nat) + "x"@ + decimal_text(height as nat),
            ImportErrorView::BridgeUnavailable => "bridge not available"@,
            ImportErrorView::ShmAccess(s) => "shm buffer access failed: "@ + s,
            ImportErrorView::UnsupportedShmFormat => "unsupported shm format"@,
        }
    }
}

impl RenderErrorView {
    /// The message of the error.
    pub open spec fn message(self) -> Seq<char> {
        match self {
            RenderErrorView::FrameFinished => "frame has already been finished"@,
            RenderErrorView::BeginRenderPass(s) => "failed to begin render pass: "@ + s,
            RenderErrorView::Submit(s) => "failed to submit commands: "@ + s,
            RenderErrorView::ContextMismatch { expected, actual } =>
                "texture context mismatch: expected "@ + str_debug(expected) + ", got "@
                + str_debug(actual),
            RenderErrorView::InvalidFramebuffer(s) => "invalid framebuffer: "@ + s,
            RenderErrorView::UnsupportedTransform(t) => "unsupported transformation: "@
                + t.spec_text(),
            RenderErrorView::Import(e) => "import error: "@ + e.message(),
            RenderErrorView::Bridge(e) => "bridge error: "@ + e.message(),
        }
    }
}

impl Transform {
    /// The name of the transformation.
    pub open spec fn spec_text(self) -> Seq<char> {
        match self {
            Transform::Normal => "Normal"@,
            Transform::Rotated90 => "_90"@,
            Transform::Rotated180 => "_180"@,
            Transform::Rotated270 => "_270"@,
            Transform::Flipped => "Flipped"@,
            Transform::Flipped90 => "Flipped90"@,
            Transform::Flipped180 => "Flipped180"@,
            Transform::Flipped270 => "Flipped270"@,
        }
    }

    /// The name of the transformation.
    pub fn text(self) -> (r: &'static str)
        ensures
            r@ == self.spec_text(),
    {
        match self {
            Transform::Normal => "Normal",
            Transform::Rotated90 => "_90",
            Transform::Rotated180 => "_180",
            Transform::Rotated270 => "_270",
            Transform::Flipped => "Flipped",
            Transform::Flipped90 => "Flipped90",
            Transform::Flipped180 => "Flipped180",
            Transform::Flipped270 => "Flipped270",
        }
    }
}

impl BridgeError {
    /// The message of the error.
    pub fn message(&self) -> (r: String)
        ensures
            r@ == self@.message(),
    {
        match self {
            BridgeError::InstanceCreation(s) => joined(
                "failed to create wgpu instance: ",
                s.as_str(),
            ),
            BridgeError::AdapterCreation(s) => joined(
                "failed to create wgpu adapter: ",
                s.as_str(),
            ),
            BridgeError::DeviceCreation(s) => joined("failed to create wgpu device: ", s.as_str()),
            BridgeError::MissingExtension(s) => joined(
                "missing required Vulkan extension: ",
                s.as_str(),
            ),
            BridgeError::HalAccess(s) => joined(
                "failed to access raw Vulkan handles: ",
                s.as_str(),
            ),
            BridgeError::Sync(s) => joined("synchronization error: ", s.as_str()),
            BridgeError::Render(s) => joined("rendering error: ", s.as_str()),
        }
    }
}

impl ImportError {
    /// The message of the error.
    pub fn message(&self) -> (r: String)
        ensures
            r@ == self@.message(),
    {
        match self {
            ImportError::UnsupportedFormat(f) => joined(
                "unsupported dmabuf format: ",
                f.text().as_str(),
            ),
            ImportError::MultiPlanarFormat { fourcc, hint } => {
                let mut text = joined("multi-planar format ", fourcc.text().as_str());
                text.append(" requires special handling: ");
                text.append(hint.as_str());
                text
            },
            ImportError::UnsupportedModifier(m) => joined(
                "unsupported dmabuf modifier: ",
                hex(*m).as_str(),
            ),
            ImportError::FdImport(s) => joined("failed to import dmabuf fd: ", s.as_str()),
            ImportError::ImageCreation(s) => joined("failed to create Vulkan image: ", s.as_str()),
            ImportError::MemoryAllocation(s) => joined("memory allocation failed: ", s.as_str()),
            ImportError::InvalidPlanes(s) => joined(
                "invalid dmabuf plane configuration: ",
                s.as_str(),
            ),
            ImportError::InvalidDimensions { width, height } => {
                let mut text = joined(
                    "invalid texture dimensions: ",
                    decimal(*width as u64).as_str(),
                );
                text.append("x");
                text.append(decimal(*height as u64).as_str());
                text
            },
            ImportError::BridgeUnavailable => "bridge not available".to_owned(),
            ImportError::ShmAccess(s) => joined("shm buffer access failed: ", s.as_str()),
            ImportError::UnsupportedShmFormat => "unsupported shm format".to_owned(),
        }
    }
}

impl RenderError {
    /// The message of the error.
    pub fn message(&self) -> (r: String)
        ensures
            r@ == self@.message(),
    {
        match self {
            RenderError::FrameFinished => "frame has already been finished".to_owned(),
            RenderError::BeginRenderPass(s) => joined("failed to begin render pass: ", s.as_str()),
            RenderError::Submit(s) => joined("failed to submit commands: ", s.as_str()),
            RenderError::ContextMismatch { expected, actual } => {
                let mut text = joined(
                    "texture context mismatch: expected ",
                    quoted(expected.as_str()).as_str(),
                );
                text.append(", got ");
                text.append(quoted(actual.as_str()).as_str());
                text
            },
            RenderError::InvalidFramebuffer(s) => joined("invalid framebuffer: ", s.as_str()),
            RenderError::UnsupportedTransform(t) => joined("unsupported transformation: ", t.text()),
            RenderError::Import(e) => joined("import error: ", e.message().as_str()),
            RenderError::Bridge(e) => joined("bridge error: ", e.message().as_str()),
        }
    }
}

impl From<ImportError> for RenderError {
    fn from(e: ImportError) -> (r: RenderError) {
        RenderError::Import(e)
    }
}

impl vstd::std_specs::convert::FromSpecImpl<ImportError> for RenderError {
    open spec fn obeys_from_spec() -> bool {
        true
    }

    open spec fn from_spec(e: ImportError) -> RenderError {
        RenderError::Import(e)
    }
}

impl From<BridgeError> for RenderError {
    fn from(e: BridgeError) -> (r: RenderError) {
        RenderError::Bridge(e)
    }
}

impl vstd::std_specs::convert::FromSpecImpl<BridgeError> for RenderError {
    open spec fn obeys_from_spec() -> bool {
        true
    }

    open spec fn from_spec(e: BridgeError) -> RenderError {
        RenderError::Bridge(e)
    }
}

/// The message of an error of the bridge ends with the reason that was given, and what stands before
/// it depends on the kind of the error alone.
pub proof fn law_bridge_message(a: BridgeError, of_a: String)
    requires
        call_ensures(BridgeError::message, (&a,), of_a),
    ensures
        ({
            let says = |kind: Seq<char>, reason: Seq<char>| of_a@ == kind + reason;
            match a {
                BridgeError::InstanceCreation(s) => says("failed to create wgpu instance: "@, s@),
                BridgeError::AdapterCreation(s) => says("failed to create wgpu adapter: "@, s@),
                BridgeError::DeviceCreation(s) => says("failed to create wgpu device: "@, s@),
                BridgeError::MissingExtension(s) => says(
                    "missing required Vulkan extension: "@,
                    s@,
                ),
                BridgeError::HalAccess(s) => says("failed to access raw Vulkan handles: "@, s@),
                BridgeError::Sync(s) => says("synchronization error: "@, s@),
                BridgeError::Render(s) => says("rendering error: "@, s@),
            }
        }),
{
}

/// The message of a failed import tells the format, the modifier or the dimensions that it failed
/// for, and else ends with the reason that was given.
pub proof fn law_import_message(
    e: ImportError,
    message: String,
    fourcc: DrmFourcc,
    format_text: String,
    number: u64,
    number_text: String,
    width: u32,
    width_text: String,
    height: u32,
    height_text: String,
)
    requires
        call_ensures(ImportError::message, (&e,), message),
        call_ensures(DrmFourcc::text, (fourcc,), format_text),
        call_ensures(hex, (number,), number_text),
        call_ensures(decimal, (width as u64,), width_text),
        call_ensures(decimal, (height as u64,), height_text),
    ensures
        e == ImportError::UnsupportedFormat(fourcc) ==> message@ == "unsupported dmabuf format: "@
            + format_text@,
        e == ImportError::UnsupportedModifier(number) ==> message@
            == "unsupported dmabuf modifier: "@ + number_text@,
        e == (ImportError::InvalidDimensions { width, height }) ==> message@
            == "invalid texture dimensions: "@ + width_text@ + "x"@ + height_text@,
        e matches ImportError::MultiPlanarFormat { fourcc: f, hint } ==> (f == fourcc ==> message@
            == "multi-planar format "@ + format_text@ + " requires special handling: "@ + hint@),
        e matches ImportError::FdImport(s) ==> message@ == "failed to import dmabuf fd: "@ + s@,
        e matches ImportError::ImageCreation(s) ==> message@ == "failed to create Vulkan image: "@
            + s@,
        e matches ImportError::MemoryAllocation(s) ==> message@ == "memory allocation failed: "@ + s@,
        e matches ImportError::InvalidPlanes(s) ==> message@
            == "invalid dmabuf plane configuration: "@ + s@,
        e matches ImportError::ShmAccess(s) ==> message@ == "shm buffer access failed: "@ + s@,
        e is BridgeUnavailable ==> message@ == "bridge not available"@,
        e is UnsupportedShmFormat ==> message@ == "unsupported shm format"@,
{
}

/// The message of an error of rendering that comes from an import or from the bridge ends with the
/// message of that error. All others end with their own reason.
pub proof fn law_render_message(
    e: RenderError,
    message: String,
    import: ImportError,
    import_message: String,
    bridge: BridgeError,
    bridge_message: String,
    transform: Transform,
    name: &'static str,
)
    requires
        call_ensures(RenderError::message, (&e,), message),
        call_ensures(ImportError::message, (&import,), import_message),
        call_ensures(BridgeError::message, (&bridge,), bridge_message),
        call_ensures(Transform::text, (transform,), name),
    ensures
        e == RenderError::Import(import) ==> message@ == "import error: "@ + import_message@,
        e == RenderError::Bridge(bridge) ==> message@ == "bridge error: "@ + bridge_message@,
        e == RenderError::UnsupportedTransform(transform) ==> message@
            == "unsupported transformation: "@ + name@,
        e matches RenderError::BeginRenderPass(s) ==> message@ == "failed to begin render pass: "@
            + s@,
        e matches RenderError::Submit(s) ==> message@ == "failed to submit commands: "@ + s@,
        e matches RenderError::InvalidFramebuffer(s) ==> message@ == "invalid framebuffer: "@ + s@,
        e matches RenderError::ContextMismatch { expected, actual } ==> message@
            == "texture context mismatch: expected "@ + str_debug(expected@) + ", got "@ + str_debug(
            actual@,
        ),
        e is FrameFinished ==> message@ == "frame has already been finished"@,
{
}

/// The name of a transformation tells whether it flips, and its angle.
pub proof fn law_transform_names(t: Transform, name: &'static str)
    requires
        call_ensures(Transform::text, (t,), name),
    ensures
        t == Transform::Normal ==> name@ == "Normal"@,
        t == Transform::Rotated90 ==> name@ == "_90"@,
        t == Transform::Rotated180 ==> name@ == "_180"@,
        t == Transform::Rotated270 ==> name@ == "_270"@,
        t == Transform::Flipped ==> name@ == "Flipped"@,
        t == Transform::Flipped90 ==> name@ == "Flipped90"@,
        t == Transform::Flipped180 ==> name@ == "Flipped180"@,
        t == Transform::Flipped270 ==> name@ == "Flipped270"@,
{
}

/// Errors of imports and of the bridge become errors of rendering without a change.
pub proof fn law_errors_are_kept(
    import: ImportError,
    bridge: BridgeError,
    of_import: RenderError,
    of_bridge: RenderError,
)
    requires
        call_ensures(<RenderError as From<ImportError>>::from, (import,), of_import),
        call_ensures(<RenderError as From<BridgeError>>::from, (bridge,), of_bridge),
    ensures
        of_import == RenderError::Import(import),
        of_bridge == RenderError::Bridge(bridge),
{
}

} // verus!
