//! Names of Vulkan extensions.
use vstd::prelude::*;

verus! {

pub const GET_PHYSICAL_DEVICE_PROPERTIES2: &'static str = "VK_KHR_get_physical_device_properties2";

pub const EXTERNAL_MEMORY_CAPABILITIES: &'static str = "VK_KHR_external_memory_capabilities";

pub const EXTERNAL_SEMAPHORE_CAPABILITIES: &'static str = "VK_KHR_external_semaphore_capabilities";

pub const WAYLAND_SURFACE: &'static str = "VK_KHR_wayland_surface";

pub const SWAPCHAIN: &'static str = "VK_KHR_swapchain";

pub const MAINTENANCE1: &'static str = "VK_KHR_maintenance1";

pub const MAINTENANCE2: &'static str = "VK_KHR_maintenance2";

pub const MULTIVIEW: &'static str = "VK_KHR_multiview";

pub const CREATE_RENDERPASS2: &'static str = "VK_KHR_create_renderpass2";

pub const IMAGELESS_FRAMEBUFFER: &'static str = "VK_KHR_imageless_framebuffer";

pub const EXTERNAL_MEMORY: &'static str = "VK_KHR_external_memory";

pub const EXTERNAL_MEMORY_FD: &'static str = "VK_KHR_external_memory_fd";

pub const EXTERNAL_MEMORY_DMA_BUF: &'static str = "VK_EXT_external_memory_dma_buf";

pub const EXTERNAL_SEMAPHORE: &'static str = "VK_KHR_external_semaphore";

pub const EXTERNAL_SEMAPHORE_FD: &'static str = "VK_KHR_external_semaphore_fd";

pub const TIMELINE_SEMAPHORE: &'static str = "VK_KHR_timeline_semaphore";

pub const SAMPLER_YCBCR_CONVERSION: &'static str = "VK_KHR_sampler_ycbcr_conversion";

pub const IMAGE_DRM_FORMAT_MODIFIER: &'static str = "VK_EXT_image_drm_format_modifier";

} // verus!
