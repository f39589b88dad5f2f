//! Bridge layer enabling wgpu as a "guest renderer" on top of a Wayland compositor's Vulkan
//! infrastructure.
//!
//! The compositor owns the Vulkan instance, imports and exports dmabufs, and manages sync
//! primitives. wgpu renders on the shared Vulkan context. This crate holds the rules between the
//! two: which formats, modifiers and extensions are used, in which steps dmabufs are imported and
//! exported and what a failed step releases, how frames and semaphores are kept account of, and
//! how pixels are packed. Every rule has a contract that is proved.
//!
//! Calls into Vulkan, wgpu and the kernel are made outside. A rule that needs one says what to
//! call, and takes what came of it.

pub mod bridge;
pub mod dmabuf;
pub mod error;
pub mod extensions;
pub mod format;
pub mod modifiers;
pub mod multiplanar;
pub mod pixels;
pub mod renderer;
pub mod scanout;
pub mod setup;
pub mod smithay_sync;
pub mod sync;
pub mod text;
pub mod texture;
pub mod vulkan;

pub use bridge::{ImportedDmabuf, SupportedFormat, WgpuBridge};
pub use dmabuf::DmabufInfo;
pub use error::{BridgeError, ImportError, RenderError};
pub use format::{DrmFourcc, TextureFormat, VkFormat};
pub use modifiers::{
    drm_mod, is_modifier_supported, query_format_modifiers, ExplicitModifierCreateInfo,
    ModifierCapabilities, ModifierPlaneLayout, ModifierProperties,
};
pub use multiplanar::{
    calculate_plane_layouts, is_multiplanar_format, multiplanar_format,
    multiplanar_format_with_colorspace, MultiPlanarCapabilities, MultiPlanarFormat,
    MultiPlanarTexture, PlaneLayout, YcbcrColorspace, YcbcrModel, YcbcrRange,
};
pub use renderer::{WgpuRenderer, WgpuTextureMapping};
pub use scanout::{ExportedDmabuf, RenderTarget, RenderTargetConfig, ScanoutCapabilities};
pub use smithay_sync::{PendingReleaseSignal, SyncBridge, SyncProcessor, SyncSurface};
pub use sync::{ExportSemaphore, ImportedSemaphore, SyncCapabilities, SyncManager, SyncPoint};
pub use texture::WgpuTexture;
