//! Setup of a bridge.

use ash::vk;
use lamco_wgpu::bridge::WgpuBridge;
use lamco_wgpu::error::BridgeError;
use lamco_wgpu::extensions;
use lamco_wgpu::modifiers::ModifierCapabilities;
use lamco_wgpu::multiplanar::MultiPlanarCapabilities;
use lamco_wgpu::setup::{
    required_device_extensions, required_instance_extensions, select_physical_device,
    select_queue_family, SetupFailure,
};
use lamco_wgpu::sync::SyncCapabilities;

fn available() -> ModifierCapabilities {
    ModifierCapabilities { extension_available: true, extension_enabled: false, max_planes: 4 }
}

fn bridge_of(context: lamco_wgpu::setup::SharedContext, caps: ModifierCapabilities) -> WgpuBridge {
    context.into_bridge(
        None,
        SyncCapabilities::default(),
        caps,
        MultiPlanarCapabilities::default(),
    )
}

#[test]
fn extension_names_are_those_of_vulkan() {
    let pairs = [
        (
            extensions::GET_PHYSICAL_DEVICE_PROPERTIES2,
            ash::khr::get_physical_device_properties2::NAME,
        ),
        (extensions::EXTERNAL_MEMORY_CAPABILITIES, ash::khr::external_memory_capabilities::NAME),
        (
            extensions::EXTERNAL_SEMAPHORE_CAPABILITIES,
            ash::khr::external_semaphore_capabilities::NAME,
        ),
        (extensions::WAYLAND_SURFACE, ash::khr::wayland_surface::NAME),
        (extensions::SWAPCHAIN, ash::khr::swapchain::NAME),
        (extensions::MAINTENANCE1, ash::khr::maintenance1::NAME),
        (extensions::MAINTENANCE2, ash::khr::maintenance2::NAME),
        (extensions::MULTIVIEW, ash::khr::multiview::NAME),
        (extensions::CREATE_RENDERPASS2, ash::khr::create_renderpass2::NAME),
        (extensions::IMAGELESS_FRAMEBUFFER, ash::khr::imageless_framebuffer::NAME),
        (extensions::EXTERNAL_MEMORY, ash::khr::external_memory::NAME),
        (extensions::EXTERNAL_MEMORY_FD, ash::khr::external_memory_fd::NAME),
        (extensions::EXTERNAL_MEMORY_DMA_BUF, ash::ext::external_memory_dma_buf::NAME),
        (extensions::EXTERNAL_SEMAPHORE, ash::khr::external_semaphore::NAME),
        (extensions::EXTERNAL_SEMAPHORE_FD, ash::khr::external_semaphore_fd::NAME),
        (extensions::TIMELINE_SEMAPHORE, ash::khr::timeline_semaphore::NAME),
        (extensions::SAMPLER_YCBCR_CONVERSION, ash::khr::sampler_ycbcr_conversion::NAME),
        (extensions::IMAGE_DRM_FORMAT_MODIFIER, ash::ext::image_drm_format_modifier::NAME),
    ];
    for (ours, theirs) in pairs {
        assert_eq!(ours, theirs.to_str().unwrap());
    }
}

#[test]
fn shared_context_with_default_extensions() {
    let context = WgpuBridge::from_smithay_vulkan(9, &ModifierCapabilities::default());
    assert_eq!(context.physical_device, 9);
    assert_eq!(context.instance_extensions, required_instance_extensions());
    assert_eq!(context.device_extensions, required_device_extensions());
    assert_eq!(context.device_extensions.len(), 12);

    let context = WgpuBridge::from_smithay_vulkan(9, &available());
    assert_eq!(context.device_extensions.len(), 13);
    assert_eq!(context.device_extensions[12], "VK_EXT_image_drm_format_modifier");
    assert!(bridge_of(context, available()).supports_modifiers());
}

#[test]
fn shared_context_with_given_extensions() {
    let instance = vec!["VK_A".to_string()];
    let device = vec!["VK_B".to_string(), "VK_C".to_string()];
    let context = WgpuBridge::from_smithay_vulkan_full(9, &instance, &device, &available());
    assert_eq!(context.instance_extensions, instance);
    assert_eq!(context.device_extensions, device);
    let bridge = bridge_of(context, available());
    assert!(bridge.modifier_capabilities().extension_available);
    assert!(!bridge.supports_modifiers());

    let device = vec!["VK_EXT_image_drm_format_modifier".to_string()];
    let context = WgpuBridge::from_smithay_vulkan_full(9, &instance, &device, &available());
    assert!(bridge_of(context, available()).supports_modifiers());
    let context = WgpuBridge::from_smithay_vulkan_full(9, &instance, &device, &available());
    let unavailable = ModifierCapabilities::default();
    assert!(!bridge_of(context, unavailable).supports_modifiers());
}

#[test]
fn adapter_of_the_physical_device() {
    let context = WgpuBridge::from_smithay_vulkan(9, &available());
    assert_eq!(context.find_adapter(&vec![3, 9, 9], "0x9").unwrap(), 1);
    match context.find_adapter(&vec![3], "0x9") {
        Err(BridgeError::AdapterCreation(text)) => assert_eq!(
            text,
            "Could not find HAL adapter matching physical device 0x9"
        ),
        other => panic!("unexpected {:?}", other),
    }
}

#[test]
fn discrete_gpus_come_first() {
    let discrete = vk::PhysicalDeviceType::DISCRETE_GPU.as_raw();
    let integrated = vk::PhysicalDeviceType::INTEGRATED_GPU.as_raw();
    assert_eq!(select_physical_device(&vec![integrated, discrete, discrete]).unwrap(), 1);
    assert_eq!(select_physical_device(&vec![integrated, integrated]).unwrap(), 0);
    match select_physical_device(&vec![]) {
        Err(BridgeError::AdapterCreation(text)) => assert_eq!(text, "No Vulkan devices found"),
        other => panic!("unexpected {:?}", other),
    }
}

#[test]
fn graphics_queue_family() {
    let graphics = vk::QueueFlags::GRAPHICS.as_raw();
    let compute = vk::QueueFlags::COMPUTE.as_raw();
    assert_eq!(select_queue_family(&vec![compute, graphics | compute, graphics]).unwrap(), 1);
    match select_queue_family(&vec![compute]) {
        Err(BridgeError::AdapterCreation(text)) => assert_eq!(text, "No graphics queue family"),
        other => panic!("unexpected {:?}", other),
    }
}

#[test]
fn context_of_its_own() {
    let instance = WgpuBridge::new_with_explicit_sync();
    assert_eq!(instance.extensions.len(), 4);
    assert_eq!(instance.extensions[3], "VK_KHR_wayland_surface");
    assert_eq!(instance.application_version, vk::make_api_version(0, 0, 1, 0));
    assert_eq!(instance.engine_version, vk::make_api_version(0, 28, 0, 0));
    assert_eq!(instance.api_version, vk::API_VERSION_1_2);
    let graphics = vk::QueueFlags::GRAPHICS.as_raw();
    let device = instance.device_selected(2, &vec![0, graphics]).unwrap();
    assert_eq!(device.device_index, 2);
    assert_eq!(device.queue_family_index, 1);
    assert_eq!(device.extensions, required_device_extensions());
    assert!(instance.device_selected(2, &vec![]).is_err());

    let context = device.device_created(4, &available());
    assert_eq!(context.physical_device, 4);
    assert_eq!(context.instance_extensions, required_instance_extensions());
    assert_eq!(context.device_extensions, required_device_extensions());
    assert!(!bridge_of(context, available()).supports_modifiers());
}

#[test]
fn setup_failures() {
    let text = "why".to_string();
    let cases = [
        (SetupFailure::RequestAdapter(text.clone()), "failed to create wgpu adapter: why"),
        (SetupFailure::RequestDevice(text.clone()), "failed to create wgpu device: why"),
        (
            SetupFailure::LoadVulkan(text.clone()),
            "failed to create wgpu instance: failed to load Vulkan: why",
        ),
        (
            SetupFailure::CreateInstance(-9),
            "failed to create wgpu instance: failed to create Vulkan instance: \
             ERROR_INCOMPATIBLE_DRIVER",
        ),
        (
            SetupFailure::EnumerateDevices(-3),
            "failed to create wgpu adapter: failed to enumerate devices: \
             ERROR_INITIALIZATION_FAILED",
        ),
        (
            SetupFailure::CreateDevice(-7),
            "failed to access raw Vulkan handles: failed to create Vulkan device: \
             ERROR_EXTENSION_NOT_PRESENT",
        ),
        (
            SetupFailure::LoadEntry(text.clone()),
            "failed to create wgpu instance: failed to load Vulkan entry: why",
        ),
        (
            SetupFailure::HalInstance(text.clone()),
            "failed to create wgpu instance: failed to create HAL instance: why",
        ),
        (
            SetupFailure::HalAdapterAccess,
            "failed to access raw Vulkan handles: Failed to access HAL adapter",
        ),
        (
            SetupFailure::HalDevice(text),
            "failed to access raw Vulkan handles: failed to create HAL device: why",
        ),
    ];
    for (failure, message) in cases {
        assert_eq!(failure.into_error().message(), message);
    }
}
