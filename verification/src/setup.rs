//! The setup of a bridge: which Vulkan device, queue and extensions it uses.
//!
//! A bridge shares the Vulkan context of a compositor, or creates one of its own with explicit
//! sync. Either way it ends with a [`SharedContext`], which becomes the bridge.
use crate::bridge::{device_formats, format_mappings, FormatReply, WgpuBridge};
use crate::error::{BridgeError, BridgeErrorView};
use crate::extensions::{
    CREATE_RENDERPASS2, EXTERNAL_MEMORY, EXTERNAL_MEMORY_CAPABILITIES, EXTERNAL_MEMORY_DMA_BUF,
    EXTERNAL_MEMORY_FD, EXTERNAL_SEMAPHORE, EXTERNAL_SEMAPHORE_CAPABILITIES, EXTERNAL_SEMAPHORE_FD,
    GET_PHYSICAL_DEVICE_PROPERTIES2, IMAGELESS_FRAMEBUFFER, IMAGE_DRM_FORMAT_MODIFIER,
    MAINTENANCE1, MAINTENANCE2, MULTIVIEW, SWAPCHAIN, TIMELINE_SEMAPHORE, WAYLAND_SURFACE,
};
use crate::modifiers::ModifierCapabilities;
use crate::multiplanar::MultiPlanarCapabilities;
use crate::sync::SyncCapabilities;
use crate::text::{joined, vk_result_debug, with_vk_result};
use crate::vulkan::{
    api_version, contains_name, has_flags, packed_version, queue_flags_contain, texts,
    DEVICE_TYPE_DISCRETE_GPU, QUEUE_GRAPHICS,
};
use vstd::prelude::*;
use vstd::string::*;

verus! {

/// A step of the setup that failed outside, with a text or a Vulkan code that says why.
#[derive(Debug)]
pub enum SetupFailure {
    /// No adapter could be had.
    RequestAdapter(String),
    /// No device could be had.
    RequestDevice(String),
    /// Vulkan could not be loaded for a context of its own.
    LoadVulkan(String),
    /// The Vulkan instance could not be created.
    CreateInstance(i32),
    /// The physical devices could not be listed.
    EnumerateDevices(i32),
    /// The Vulkan device could not be created.
    CreateDevice(i32),
    /// Vulkan could not be loaded for a shared context.
    LoadEntry(String),
    /// The shared instance was not taken.
    HalInstance(String),
    /// The adapter is no Vulkan adapter.
    HalAdapterAccess,
    /// The shared device was not taken.
    HalDevice(String),
}

impl SetupFailure {
    /// The error of a failed step.
    pub open spec fn spec_error(self) -> BridgeErrorView {
        match self {
            SetupFailure::RequestAdapter(text) => BridgeErrorView::AdapterCreation(text@),
            SetupFailure::RequestDevice(text) => BridgeErrorView::DeviceCreation(text@),
            SetupFailure::LoadVulkan(text) => BridgeErrorView::InstanceCreation(
                "failed to load Vulkan: "@ + text@,
            ),
            SetupFailure::CreateInstance(code) => BridgeErrorView::InstanceCreation(
                "failed to create Vulkan instance: "@ + vk_result_debug(code),
            ),
            SetupFailure::EnumerateDevices(code) => BridgeErrorView::AdapterCreation(
                "failed to enumerate devices: "@ + vk_result_debug(code),
            ),
            SetupFailure::CreateDevice(code) => BridgeErrorView::HalAccess(
                "failed to create Vulkan device: "@ + vk_result_debug(code),
            ),
            SetupFailure::LoadEntry(text) => BridgeErrorView::InstanceCreation(
                "failed to load Vulkan entry: "@ + text@,
            ),
            SetupFailure::HalInstance(text) => BridgeErrorView::InstanceCreation(
                "failed to create HAL instance: "@ + text@,
            ),
            SetupFailure::HalAdapterAccess => BridgeErrorView::HalAccess(
                "Failed to access HAL adapter"@,
            ),
            SetupFailure::HalDevice(text) => BridgeErrorView::HalAccess(
                "failed to create HAL device: "@ + text@,
            ),
        }
    }

    /// The error of a failed step.
    pub fn into_error(self) -> (r: BridgeError)
        ensures
            r@ == self.spec_error(),
    {
        match self {
            SetupFailure::RequestAdapter(text) => BridgeError::AdapterCreation(text),
            SetupFailure::RequestDevice(text) => BridgeError::DeviceCreation(text),
            SetupFailure::LoadVulkan(text) => BridgeError::InstanceCreation(
                joined("failed to load Vulkan: ", text.as_str()),
            ),
            SetupFailure::CreateInstance(code) => BridgeError::InstanceCreation(
                with_vk_result("failed to create Vulkan instance: ", code),
            ),
            SetupFailure::EnumerateDevices(code) => BridgeError::AdapterCreation(
                with_vk_result("failed to enumerate devices: ", code),
            ),
            SetupFailure::CreateDevice(code) => BridgeError::HalAccess(
                with_vk_result("failed to create Vulkan device: ", code),
            ),
            SetupFailure::LoadEntry(text) => BridgeError::InstanceCreation(
                joined("failed to load Vulkan entry: ", text.as_str()),
            ),
            SetupFailure::HalInstance(text) => BridgeError::InstanceCreation(
                joined("failed to create HAL instance: ", text.as_str()),
            ),
            SetupFailure::HalAdapterAccess => BridgeError::HalAccess(
                "Failed to access HAL adapter".to_owned(),
            ),
            SetupFailure::HalDevice(text) => BridgeError::HalAccess(
                joined("failed to create HAL device: ", text.as_str()),
            ),
        }
    }
}

/// The instance extensions that wgpu needs at least.
pub open spec fn required_instance_names() -> Seq<Seq<char>> {
    seq![
        GET_PHYSICAL_DEVICE_PROPERTIES2@,
        EXTERNAL_MEMORY_CAPABILITIES@,
        EXTERNAL_SEMAPHORE_CAPABILITIES@,
    ]
}

/// The device extensions that wgpu and external memory need at least.
pub open spec fn required_device_names() -> Seq<Seq<char>> {
    seq![
        SWAPCHAIN@,
        MAINTENANCE1@,
        MAINTENANCE2@,
        MULTIVIEW@,
        CREATE_RENDERPASS2@,
        IMAGELESS_FRAMEBUFFER@,
        EXTERNAL_MEMORY@,
        EXTERNAL_MEMORY_FD@,
        EXTERNAL_MEMORY_DMA_BUF@,
        EXTERNAL_SEMAPHORE@,
        EXTERNAL_SEMAPHORE_FD@,
        TIMELINE_SEMAPHORE@,
    ]
}

/// The instance extensions that wgpu needs at least.
pub fn required_instance_extensions() -> (r: Vec<String>)
    ensures
        texts(r@) == required_instance_names(),
{
    let mut names: Vec<String> = Vec::new();
    names.push(GET_PHYSICAL_DEVICE_PROPERTIES2.to_owned());
    names.push(EXTERNAL_MEMORY_CAPABILITIES.to_owned());
    names.push(EXTERNAL_SEMAPHORE_CAPABILITIES.to_owned());
    assert(texts(names@) =~= required_instance_names());
    names
}

/// The device extensions that wgpu and external memory need at least.
pub fn required_device_extensions() -> (r: Vec<String>)
    ensures
        texts(r@) == required_device_names(),
{
    let mut names: Vec<String> = Vec::new();
    names.push(SWAPCHAIN.to_owned());
    names.push(MAINTENANCE1.to_owned());
    names.push(MAINTENANCE2.to_owned());
    names.push(MULTIVIEW.to_owned());
    names.push(CREATE_RENDERPASS2.to_owned());
    names.push(IMAGELESS_FRAMEBUFFER.to_owned());
    names.push(EXTERNAL_MEMORY.to_owned());
    names.push(EXTERNAL_MEMORY_FD.to_owned());
    names.push(EXTERNAL_MEMORY_DMA_BUF.to_owned());
    names.push(EXTERNAL_SEMAPHORE.to_owned());
    names.push(EXTERNAL_SEMAPHORE_FD.to_owned());
    names.push(TIMELINE_SEMAPHORE.to_owned());
    assert(texts(names@) =~= required_device_names());
    names
}

/// A copy of a list of names.
fn copied_names(names: &Vec<String>) -> (r: Vec<String>)
    ensures
        texts(r@) == texts(names@),
{
    let mut copy: Vec<String> = Vec::new();
    let mut i: usize = 0;
    while i < names.len()
        invariant
            i <= names@.len(),
            texts(copy@) == texts(names@.take(i as int)),
        decreases names@.len() - i,
    {
        let ghost before = copy@;
        copy.push(names[i].clone());
        assert(texts(copy@) =~= texts(before).push(names@[i as int]@));
        assert(texts(names@.take(i + 1)) =~= texts(names@.take(i as int)).push(names@[i as int]@));
        i = i + 1;
    }
    assert(names@.take(i as int) =~= names@);
    copy
}

/// A Vulkan context that the bridge shares, on one physical device.
#[derive(Debug)]
pub struct SharedContext {
    /// Handle of the physical device.
    pub physical_device: u64,
    /// Instance extensions that are in use.
    pub instance_extensions: Vec<String>,
    /// Device extensions that are in use.
    pub device_extensions: Vec<String>,
}

impl SharedContext {
    /// The instance extensions in use: the given ones, or the required ones where none are given.
    pub open spec fn instance_names(enabled: Seq<Seq<char>>) -> Seq<Seq<char>> {
        if enabled.len() == 0 {
            required_instance_names()
        } else {
            enabled
        }
    }

    /// The device extensions in use: the given ones, or where none are given, the required ones
    /// and that for modifiers, where the device has it.
    pub open spec fn device_names(enabled: Seq<Seq<char>>, modifiers: bool) -> Seq<Seq<char>> {
        if enabled.len() != 0 {
            enabled
        } else if modifiers {
            required_device_names().push(IMAGE_DRM_FORMAT_MODIFIER@)
        } else {
            required_device_names()
        }
    }

    /// Find the adapter of the physical device among those of the instance, by their handles.
    /// `device_text` is the text with which the physical device is printed.
    pub fn find_adapter(&self, adapters: &Vec<u64>, device_text: &str) -> (r: Result<
        usize,
        BridgeError,
    >)
        ensures
            match r {
                Ok(i) => i < adapters@.len() && adapters@[i as int] == self.physical_device
                    && forall|j: int| 0 <= j < i ==> adapters@[j] != self.physical_device,
                Err(e) => !adapters@.contains(self.physical_device) && e@
                    == BridgeErrorView::AdapterCreation(
                    "Could not find HAL adapter matching physical device "@ + device_text@,
                ),
            },
    {
        let mut i: usize = 0;
        while i < adapters.len()
            invariant
                i <= adapters@.len(),
                forall|j: int| 0 <= j < i ==> adapters@[j] != self.physical_device,
            decreases adapters@.len() - i,
        {
            if adapters[i] == self.physical_device {
                return Ok(i);
            }
            i = i + 1;
        }
        Err(
            BridgeError::AdapterCreation(
                joined("Could not find HAL adapter matching physical device ", device_text),
            ),
        )
    }

    /// The modifier capabilities of a device that was created with these extensions: enabled where
    /// the extension is available and among them.
    pub open spec fn enabled_modifiers(
        queried: ModifierCapabilities,
        device_names: Seq<Seq<char>>,
    ) -> ModifierCapabilities {
        if queried.extension_available {
            ModifierCapabilities {
                extension_enabled: device_names.contains(IMAGE_DRM_FORMAT_MODIFIER@),
                ..queried
            }
        } else {
            queried
        }
    }

    /// The bridge on this context, with what was queried of its physical device.
    pub fn into_bridge(
        self,
        replies: Option<&Vec<FormatReply>>,
        sync: SyncCapabilities,
        modifiers: ModifierCapabilities,
        multiplanar: MultiPlanarCapabilities,
    ) -> (r: WgpuBridge)
        requires
            replies matches Some(list) ==> list@.len() == format_mappings().len(),
        ensures
            r.formats() == device_formats(
                match replies {
                    Some(list) => Some(list@),
                    None => None,
                },
            ),
            r.sync() == sync,
            r.modifier() == Self::enabled_modifiers(modifiers, texts(self.device_extensions@)),
            r.multiplanar() == multiplanar,
            r.submitted() == 0,
            r.completed() == 0,
    {
        let mut modifiers = modifiers;
        if modifiers.extension_available {
            modifiers.extension_enabled = contains_name(
                &self.device_extensions,
                IMAGE_DRM_FORMAT_MODIFIER,
            );
        }
        WgpuBridge::with_capabilities(replies, sync, modifiers, multiplanar)
    }
}

impl WgpuBridge {
    /// Create a bridge on a compositor's Vulkan context: the context to share, with the default
    /// extensions.
    pub fn from_smithay_vulkan(physical_device: u64, modifiers: &ModifierCapabilities) -> (r:
        SharedContext)
        ensures
            r.physical_device == physical_device,
            texts(r.instance_extensions@) == required_instance_names(),
            texts(r.device_extensions@) == SharedContext::device_names(
                Seq::empty(),
                modifiers.extension_available,
            ),
    {
        let none: Vec<String> = Vec::new();
        assert(texts(none@) =~= Seq::empty());
        Self::from_smithay_vulkan_full(physical_device, &none, &none, modifiers)
    }

    /// Create a bridge on a compositor's Vulkan context: the context to share, with the extensions
    /// that were enabled. An empty list stands for the default extensions.
    pub fn from_smithay_vulkan_full(
        physical_device: u64,
        enabled_instance_extensions: &Vec<String>,
        enabled_device_extensions: &Vec<String>,
        modifiers: &ModifierCapabilities,
    ) -> (r: SharedContext)
        ensures
            r.physical_device == physical_device,
            texts(r.instance_extensions@) == SharedContext::instance_names(
                texts(enabled_instance_extensions@),
            ),
            texts(r.device_extensions@) == SharedContext::device_names(
                texts(enabled_device_extensions@),
                modifiers.extension_available,
            ),
    {
        let instance_extensions = if enabled_instance_extensions.len() == 0 {
            required_instance_extensions()
        } else {
            copied_names(enabled_instance_extensions)
        };
        let device_extensions = if enabled_device_extensions.len() == 0 {
            let mut names = required_device_extensions();
            if modifiers.extension_available {
                let ghost before = names@;
                names.push(IMAGE_DRM_FORMAT_MODIFIER.to_owned());
                assert(texts(names@) =~= texts(before).push(IMAGE_DRM_FORMAT_MODIFIER@));
            }
            names
        } else {
            copied_names(enabled_device_extensions)
        };
        SharedContext { physical_device, instance_extensions, device_extensions }
    }

    /// Create a bridge on a Vulkan context of its own with explicit sync enabled: what the
    /// instance is created with.
    pub fn new_with_explicit_sync() -> (r: ExplicitSyncInstance)
        ensures
            texts(r.extensions@) == required_instance_names().push(WAYLAND_SURFACE@),
            r.application_version == packed_version(0, 0, 1, 0),
            r.engine_version == packed_version(0, 28, 0, 0),
            r.api_version == packed_version(0, 1, 2, 0),
    {
        let mut extensions = required_instance_extensions();
        let ghost before = extensions@;
        extensions.push(WAYLAND_SURFACE.to_owned());
        assert(texts(extensions@) =~= texts(before).push(WAYLAND_SURFACE@));
        ExplicitSyncInstance {
            extensions,
            application_version: api_version(0, 0, 1, 0),
            engine_version: api_version(0, 28, 0, 0),
            api_version: api_version(0, 1, 2, 0),
        }
    }
}

/// A Vulkan instance to be created for explicit sync. The API version has timeline semaphores.
#[derive(Debug)]
pub struct ExplicitSyncInstance {
    /// Instance extensions to enable.
    pub extensions: Vec<String>,
    /// Version of the application.
    pub application_version: u32,
    /// Version of the engine.
    pub engine_version: u32,
    /// Version of the API.
    pub api_version: u32,
}

/// A Vulkan device to be created for explicit sync, with one graphics queue and with the features
/// of timeline semaphores, multiview and imageless framebuffers.
#[derive(Debug)]
pub struct ExplicitSyncDevice {
    /// Position of the physical device among those listed.
    pub device_index: usize,
    /// Queue family of the queue.
    pub queue_family_index: u32,
    /// Device extensions to enable.
    pub extensions: Vec<String>,
}

/// Whether a device is the one to use: the first discrete GPU, or the first device where there is
/// no discrete GPU.
pub open spec fn is_selected_device(device_types: Seq<i32>, i: int) -> bool {
    &&& 0 <= i < device_types.len()
    &&& if device_types.contains(DEVICE_TYPE_DISCRETE_GPU) {
        device_types[i] == DEVICE_TYPE_DISCRETE_GPU && forall|j: int|
            0 <= j < i ==> device_types[j] != DEVICE_TYPE_DISCRETE_GPU
    } else {
        i == 0
    }
}

/// Select the physical device, by the types of those listed.
pub fn select_physical_device(device_types: &Vec<i32>) -> (r: Result<usize, BridgeError>)
    ensures
        match r {
            Ok(i) => is_selected_device(device_types@, i as int),
            Err(e) => device_types@.len() == 0 && e@ == BridgeErrorView::AdapterCreation(
                "No Vulkan devices found"@,
            ),
        },
{
    if device_types.len() == 0 {
        return Err(BridgeError::AdapterCreation("No Vulkan devices found".to_owned()));
    }
    let mut i: usize = 0;
    while i < device_types.len()
        invariant
            i <= device_types@.len(),
            forall|j: int| 0 <= j < i ==> device_types@[j] != DEVICE_TYPE_DISCRETE_GPU,
        decreases device_types@.len() - i,
    {
        if device_types[i] == DEVICE_TYPE_DISCRETE_GPU {
            return Ok(i);
        }
        i = i + 1;
    }
    Ok(0)
}

/// Whether this is the first queue family for graphics. `None` where there is none.
pub open spec fn is_graphics_family(found: Option<u32>, queue_flags: Seq<u32>) -> bool {
    match found {
        Some(i) => i < queue_flags.len() && has_flags(queue_flags[i as int], QUEUE_GRAPHICS)
            && forall|j: int|
            0 <= j < i ==> !has_flags(#[trigger] queue_flags[j], QUEUE_GRAPHICS),
        None => forall|j: int|
            0 <= j < queue_flags.len() ==> !has_flags(#[trigger] queue_flags[j], QUEUE_GRAPHICS),
    }
}

/// Select the queue family: the first one for graphics, by the flags of those of the device.
pub fn select_queue_family(queue_flags: &Vec<u32>) -> (r: Result<u32, BridgeError>)
    requires
        queue_flags@.len() <= u32::MAX,
    ensures
        match r {
            Ok(i) => is_graphics_family(Some(i), queue_flags@),
            Err(e) => is_graphics_family(None, queue_flags@) && e@
                == BridgeErrorView::AdapterCreation("No graphics queue family"@),
        },
{
    let mut i: usize = 0;
    while i < queue_flags.len()
        invariant
            i <= queue_flags@.len() <= u32::MAX,
            forall|j: int|
                0 <= j < i ==> !has_flags(#[trigger] queue_flags@[j], QUEUE_GRAPHICS),
        decreases queue_flags@.len() - i,
    {
        if queue_flags_contain(queue_flags[i], QUEUE_GRAPHICS) {
            return Ok(i as u32);
        }
        i = i + 1;
    }
    Err(BridgeError::AdapterCreation("No graphics queue family".to_owned()))
}

impl ExplicitSyncInstance {
    /// Go on with the physical device at `device_index` and its queue families: the device to
    /// create.
    pub fn device_selected(&self, device_index: usize, queue_flags: &Vec<u32>) -> (r: Result<
        ExplicitSyncDevice,
        BridgeError,
    >)
        requires
            queue_flags@.len() <= u32::MAX,
        ensures
            match r {
                Ok(device) => {
                    &&& device.device_index == device_index
                    &&& is_graphics_family(Some(device.queue_family_index), queue_flags@)
                    &&& texts(device.extensions@) == required_device_names()
                },
                Err(e) => is_graphics_family(None, queue_flags@) && e@
                    == BridgeErrorView::AdapterCreation("No graphics queue family"@),
            },
    {
        match select_queue_family(queue_flags) {
            Ok(queue_family_index) => Ok(
                ExplicitSyncDevice {
                    device_index,
                    queue_family_index,
                    extensions: required_device_extensions(),
                },
            ),
            Err(e) => Err(e),
        }
    }
}

impl ExplicitSyncDevice {
    /// Go on with the created device: the context to share.
    pub fn device_created(self, physical_device: u64, modifiers: &ModifierCapabilities) -> (r:
        SharedContext)
        requires
            texts(self.extensions@).len() > 0,
        ensures
            r.physical_device == physical_device,
            texts(r.instance_extensions@) == required_instance_names(),
            texts(r.device_extensions@) == texts(self.extensions@),
    {
        WgpuBridge::from_smithay_vulkan_full(
            physical_device,
            &required_instance_extensions(),
            &self.extensions,
            modifiers,
        )
    }
}

/// A bridge supports modifiers if and only if its device has the extension and was created with
/// it.
pub proof fn law_modifiers_enabled(queried: ModifierCapabilities, device_names: Seq<Seq<char>>)
    requires
        !queried.extension_enabled,
    ensures
        SharedContext::enabled_modifiers(queried, device_names).spec_supports_modifiers() <==> (
        queried.extension_available && device_names.contains(IMAGE_DRM_FORMAT_MODIFIER@)),
{
}

/// A shared context with the default extensions enables modifiers wherever the device has them.
pub proof fn law_default_context_enables_modifiers(queried: ModifierCapabilities)
    requires
        queried.extension_available,
    ensures
        SharedContext::enabled_modifiers(
            queried,
            SharedContext::device_names(Seq::empty(), queried.extension_available),
        ).spec_supports_modifiers(),
{
    let names = required_device_names().push(IMAGE_DRM_FORMAT_MODIFIER@);
    assert(names[required_device_names().len() as int] == IMAGE_DRM_FORMAT_MODIFIER@);
}

/// The required device extensions hold none for modifiers, so that a bridge with a Vulkan context
/// of its own supports no modifiers.
pub proof fn law_own_context_has_no_modifiers(queried: ModifierCapabilities)
    requires
        !queried.extension_enabled,
    ensures
        !SharedContext::enabled_modifiers(
            queried,
            required_device_names(),
        ).spec_supports_modifiers(),
{
    reveal_strlit("VK_KHR_swapchain");
    reveal_strlit("VK_KHR_maintenance1");
    reveal_strlit("VK_KHR_maintenance2");
    reveal_strlit("VK_KHR_multiview");
    reveal_strlit("VK_KHR_create_renderpass2");
    reveal_strlit("VK_KHR_imageless_framebuffer");
    reveal_strlit("VK_KHR_external_memory");
    reveal_strlit("VK_KHR_external_memory_fd");
    reveal_strlit("VK_EXT_external_memory_dma_buf");
    reveal_strlit("VK_KHR_external_semaphore");
    reveal_strlit("VK_KHR_external_semaphore_fd");
    reveal_strlit("VK_KHR_timeline_semaphore");
    reveal_strlit("VK_EXT_image_drm_format_modifier");
    let names = required_device_names();
    assert forall|i: int| 0 <= i < names.len() implies names[i] != IMAGE_DRM_FORMAT_MODIFIER@ by {
        assert(names[i][3] != IMAGE_DRM_FORMAT_MODIFIER@[3] || names[i][7]
            != IMAGE_DRM_FORMAT_MODIFIER@[7]);
    }
}

/// A shared context has the extensions that were given, unchanged. Where none were given it has the
/// required ones, and that for modifiers exactly where the device has it. The physical device is the
/// given one.
pub proof fn law_context_extensions(
    physical_device: u64,
    instance: Vec<String>,
    device: Vec<String>,
    modifiers: ModifierCapabilities,
    context: SharedContext,
    required_instance: Vec<String>,
    required_device: Vec<String>,
)
    requires
        call_ensures(
            WgpuBridge::from_smithay_vulkan_full,
            (physical_device, &instance, &device, &modifiers),
            context,
        ),
        call_ensures(required_instance_extensions, (), required_instance),
        call_ensures(required_device_extensions, (), required_device),
    ensures
        context.physical_device == physical_device,
        instance@.len() > 0 ==> texts(context.instance_extensions@) == texts(instance@),
        instance@.len() == 0 ==> texts(context.instance_extensions@) == texts(required_instance@),
        device@.len() > 0 ==> texts(context.device_extensions@) == texts(device@),
        device@.len() == 0 && !modifiers.extension_available ==> texts(context.device_extensions@)
            == texts(required_device@),
        device@.len() == 0 && modifiers.extension_available ==> texts(context.device_extensions@)
            == texts(required_device@).push("VK_EXT_image_drm_format_modifier"@),
{
}

/// A context with the default extensions is one for which none were given.
pub proof fn law_default_context(
    physical_device: u64,
    modifiers: ModifierCapabilities,
    context: SharedContext,
    none: Vec<String>,
    full: SharedContext,
)
    requires
        none@.len() == 0,
        call_ensures(WgpuBridge::from_smithay_vulkan, (physical_device, &modifiers), context),
        call_ensures(
            WgpuBridge::from_smithay_vulkan_full,
            (physical_device, &none, &none, &modifiers),
            full,
        ),
    ensures
        context.physical_device == full.physical_device,
        texts(context.instance_extensions@) == texts(full.instance_extensions@),
        texts(context.device_extensions@) == texts(full.device_extensions@),
{
    assert(texts(none@) =~= Seq::empty());
}

/// The required extensions hold all that sharing memory and semaphores needs: external memory, as
/// file descriptors and as dmabufs, external semaphores, as file descriptors, and timelines.
pub proof fn law_required_extensions(instance: Vec<String>, device: Vec<String>)
    requires
        call_ensures(required_instance_extensions, (), instance),
        call_ensures(required_device_extensions, (), device),
    ensures
        ({
            let names = texts(instance@);
            &&& names.len() == 3
            &&& names.contains("VK_KHR_get_physical_device_properties2"@)
            &&& names.contains("VK_KHR_external_memory_capabilities"@)
            &&& names.contains("VK_KHR_external_semaphore_capabilities"@)
        }),
        ({
            let names = texts(device@);
            &&& names.len() == 12
            &&& names.contains("VK_KHR_swapchain"@)
            &&& names.contains("VK_KHR_maintenance1"@)
            &&& names.contains("VK_KHR_maintenance2"@)
            &&& names.contains("VK_KHR_multiview"@)
            &&& names.contains("VK_KHR_create_renderpass2"@)
            &&& names.contains("VK_KHR_imageless_framebuffer"@)
            &&& names.contains("VK_KHR_external_memory"@)
            &&& names.contains("VK_KHR_external_memory_fd"@)
            &&& names.contains("VK_EXT_external_memory_dma_buf"@)
            &&& names.contains("VK_KHR_external_semaphore"@)
            &&& names.contains("VK_KHR_external_semaphore_fd"@)
            &&& names.contains("VK_KHR_timeline_semaphore"@)
        }),
{
    let i = texts(instance@);
    assert(i[0] == "VK_KHR_get_physical_device_properties2"@);
    assert(i[1] == "VK_KHR_external_memory_capabilities"@);
    assert(i[2] == "VK_KHR_external_semaphore_capabilities"@);
    let d = texts(device@);
    assert(d[0] == "VK_KHR_swapchain"@);
    assert(d[1] == "VK_KHR_maintenance1"@);
    assert(d[2] == "VK_KHR_maintenance2"@);
    assert(d[3] == "VK_KHR_multiview"@);
    assert(d[4] == "VK_KHR_create_renderpass2"@);
    assert(d[5] == "VK_KHR_imageless_framebuffer"@);
    assert(d[6] == "VK_KHR_external_memory"@);
    assert(d[7] == "VK_KHR_external_memory_fd"@);
    assert(d[8] == "VK_EXT_external_memory_dma_buf"@);
    assert(d[9] == "VK_KHR_external_semaphore"@);
    assert(d[10] == "VK_KHR_external_semaphore_fd"@);
    assert(d[11] == "VK_KHR_timeline_semaphore"@);
}

/// A device that was created with the required extensions and has them supports explicit sync,
/// wherever sync files can be imported.
pub proof fn law_required_extensions_give_sync(
    device: Vec<String>,
    device_version: u32,
    sync_fd_features: u32,
    opaque_fd_features: u32,
    c: SyncCapabilities,
    r: bool,
)
    requires
        call_ensures(required_device_extensions, (), device),
        call_ensures(
            SyncCapabilities::query,
            (Some(&device), device_version, sync_fd_features, opaque_fd_features),
            c,
        ),
        call_ensures(SyncCapabilities::is_supported, (&c,), r),
    ensures
        c.timeline_semaphore,
        r <==> sync_fd_features & 0x2 == 0x2,
{
    lemma_semaphore_names(device);
}

/// The names of semaphores are among the required ones.
proof fn lemma_semaphore_names(device: Vec<String>)
    requires
        texts(device@) == required_device_names(),
    ensures
        texts(device@).contains("VK_KHR_external_semaphore"@),
        texts(device@).contains("VK_KHR_external_semaphore_fd"@),
        texts(device@).contains("VK_KHR_timeline_semaphore"@),
{
    let d = texts(device@);
    assert(d[9] == "VK_KHR_external_semaphore"@);
    assert(d[10] == "VK_KHR_external_semaphore_fd"@);
    assert(d[11] == "VK_KHR_timeline_semaphore"@);
}

/// The instance of a context of its own has the required extensions and that for Wayland surfaces,
/// and asks for Vulkan 1.2, from which on there are timeline semaphores.
pub proof fn law_own_instance(instance: ExplicitSyncInstance, required: Vec<String>)
    requires
        call_ensures(WgpuBridge::new_with_explicit_sync, (), instance),
        call_ensures(required_instance_extensions, (), required),
    ensures
        texts(instance.extensions@) == texts(required@).push("VK_KHR_wayland_surface"@),
        instance.api_version == 4096 * (1024 + 2),
        instance.application_version == 4096,
        instance.engine_version == 28 * 1024 * 4096,
{
}

/// The physical device that is chosen is a discrete GPU wherever there is one, and the first of its
/// kind. Without a discrete GPU it is the first device. There is none to choose only where none is
/// listed.
pub proof fn law_discrete_gpu_preferred(types: Vec<i32>, r: Result<usize, BridgeError>, j: int)
    requires
        call_ensures(select_physical_device, (&types,), r),
        0 <= j < types@.len(),
    ensures
        r matches Ok(i) && i < types@.len() && (types@[j] == 2 ==> types@[i as int] == 2 && i <= j)
            && (types@[i as int] != 2 ==> i == 0),
{
    if types@[j] == 2 {
        assert(types@.contains(2i32));
    }
}

/// Without any device there is none to choose.
pub proof fn law_no_device(types: Vec<i32>, r: Result<usize, BridgeError>)
    requires
        types@.len() == 0,
        call_ensures(select_physical_device, (&types,), r),
    ensures
        r matches Err(e) && e@ is AdapterCreation,
{
}

/// The queue family that is chosen is the first one whose lowest flag, that of graphics, is set. There
/// is an error only where no family has it.
pub proof fn law_first_graphics_queue(flags: Vec<u32>, r: Result<u32, BridgeError>, j: int)
    requires
        call_ensures(select_queue_family, (&flags,), r),
        0 <= j < flags@.len(),
    ensures
        r matches Ok(i) ==> i < flags@.len() && flags@[i as int] & 0x1 == 0x1,
        flags@[j] & 0x1 == 0x1 ==> (r matches Ok(i) && i <= j),
        r matches Err(e) ==> e@ is AdapterCreation,
{
    assert(has_flags(flags@[j], QUEUE_GRAPHICS) == (flags@[j] & 0x1 == 0x1));
}

/// The device of a context of its own is the one that was selected, with the first graphics queue and
/// the required extensions. The context that it is shared with keeps them.
pub proof fn law_own_device(
    instance: ExplicitSyncInstance,
    device_index: usize,
    flags: Vec<u32>,
    queue: Result<u32, BridgeError>,
    r: Result<ExplicitSyncDevice, BridgeError>,
    required: Vec<String>,
    required_instance: Vec<String>,
    device: ExplicitSyncDevice,
    physical_device: u64,
    modifiers: ModifierCapabilities,
    context: SharedContext,
)
    requires
        call_ensures(select_queue_family, (&flags,), queue),
        call_ensures(
            ExplicitSyncInstance::device_selected,
            (&instance, device_index, &flags),
            r,
        ),
        call_ensures(required_device_extensions, (), required),
        call_ensures(required_instance_extensions, (), required_instance),
        call_ensures(
            ExplicitSyncDevice::device_created,
            (device, physical_device, &modifiers),
            context,
        ),
    ensures
        r matches Ok(d) ==> {
            &&& d.device_index == device_index
            &&& queue == Ok::<u32, BridgeError>(d.queue_family_index)
            &&& texts(d.extensions@) == texts(required@)
        },
        r is Ok <==> queue is Ok,
        context.physical_device == physical_device,
        texts(context.device_extensions@) == texts(device.extensions@),
        texts(context.instance_extensions@) == texts(required_instance@),
{
}

/// The adapter that is found is the first one of the physical device, and there is an error only where
/// none is of it.
pub proof fn law_adapter_of_device(
    context: SharedContext,
    adapters: Vec<u64>,
    device_text: &str,
    r: Result<usize, BridgeError>,
    j: int,
)
    requires
        call_ensures(SharedContext::find_adapter, (&context, &adapters, device_text), r),
        0 <= j < adapters@.len(),
    ensures
        r matches Ok(i) ==> i < adapters@.len() && adapters@[i as int] == context.physical_device,
        adapters@[j] == context.physical_device ==> (r matches Ok(i) && i <= j),
        r matches Err(e) ==> e@ is AdapterCreation,
{
    if adapters@[j] == context.physical_device {
        assert(adapters@.contains(context.physical_device));
    }
}

/// A bridge on a shared context knows what was queried of its device. It supports modifiers if and
/// only if the device has the extension and the context was created with it. No frame is submitted.
pub proof fn law_bridge_of_context(
    context: SharedContext,
    sync: SyncCapabilities,
    modifiers: ModifierCapabilities,
    multiplanar: MultiPlanarCapabilities,
    bridge: WgpuBridge,
    supports: bool,
)
    requires
        !modifiers.extension_enabled,
        call_ensures(SharedContext::into_bridge, (context, None, sync, modifiers, multiplanar), bridge),
        call_ensures(WgpuBridge::supports_modifiers, (&bridge,), supports),
    ensures
        supports <==> modifiers.extension_available && texts(context.device_extensions@).contains(
            "VK_EXT_image_drm_format_modifier"@,
        ),
        bridge.modifier().max_planes == modifiers.max_planes,
        bridge.modifier().extension_available == modifiers.extension_available,
        bridge.sync() == sync && bridge.multiplanar() == multiplanar,
        bridge.submitted() == 0 && bridge.completed() == 0,
{
}

/// The error of a failed step tells the step: an instance, an adapter, a device or raw handles. The
/// reason that was given stands in it.
pub proof fn law_failure_tells_step(failure: SetupFailure, error: BridgeError)
    requires
        call_ensures(SetupFailure::into_error, (failure,), error),
    ensures
        error@ is InstanceCreation <==> failure is LoadVulkan || failure is CreateInstance
            || failure is LoadEntry || failure is HalInstance,
        error@ is AdapterCreation <==> failure is RequestAdapter || failure is EnumerateDevices,
        error@ is DeviceCreation <==> failure is RequestDevice,
        error@ is HalAccess <==> failure is CreateDevice || failure is HalAdapterAccess
            || failure is HalDevice,
        failure matches SetupFailure::RequestAdapter(text) ==> error@
            == BridgeErrorView::AdapterCreation(text@),
        failure matches SetupFailure::RequestDevice(text) ==> error@
            == BridgeErrorView::DeviceCreation(text@),
        failure matches SetupFailure::LoadVulkan(text) ==> error@
            == BridgeErrorView::InstanceCreation("failed to load Vulkan: "@ + text@),
        failure matches SetupFailure::LoadEntry(text) ==> error@
            == BridgeErrorView::InstanceCreation("failed to load Vulkan entry: "@ + text@),
        failure matches SetupFailure::HalInstance(text) ==> error@
            == BridgeErrorView::InstanceCreation("failed to create HAL instance: "@ + text@),
        failure matches SetupFailure::HalDevice(text) ==> error@ == BridgeErrorView::HalAccess(
            "failed to create HAL device: "@ + text@,
        ),
        failure matches SetupFailure::CreateInstance(code) ==> error@
            == BridgeErrorView::InstanceCreation(
            "failed to create Vulkan instance: "@ + vk_result_debug(code),
        ),
        failure matches SetupFailure::EnumerateDevices(code) ==> error@
            == BridgeErrorView::AdapterCreation(
            "failed to enumerate devices: "@ + vk_result_debug(code),
        ),
        failure matches SetupFailure::CreateDevice(code) ==> error@ == BridgeErrorView::HalAccess(
            "failed to create Vulkan device: "@ + vk_result_debug(code),
        ),
{
}

} // verus!
