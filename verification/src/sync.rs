//! Synchronization primitives for Wayland explicit sync.
//!
//! Client fences come in as file descriptors and are imported as Vulkan semaphores. Semaphores
//! for release points are registered with the queue, which signals them at the next submit. The
//! manager keeps account of both. It says which semaphore to create, import, wait for or signal,
//! and takes what came of it.
use crate::error::{BridgeError, BridgeErrorView};
use crate::extensions::{EXTERNAL_SEMAPHORE, EXTERNAL_SEMAPHORE_FD, TIMELINE_SEMAPHORE};
use crate::text::{joined, vk_result_debug, with_vk_result};
use crate::vulkan::{
    api_version, contains_name, semaphore_features_contain, SEMAPHORE_EXPORTABLE,
    SEMAPHORE_IMPORTABLE,
};
use vstd::prelude::*;
use vstd::string::*;

verus! {

/// The event for which a sync file descriptor is polled: it is ready.
pub const POLL_IN: i16 = 0x1;

/// Capabilities for explicit synchronization.
#[derive(Clone, Copy, Debug, PartialEq, Eq, Structural)]
pub struct SyncCapabilities {
    /// `VK_KHR_external_semaphore` is available
    pub external_semaphore: bool,
    /// `VK_KHR_external_semaphore_fd` is available
    pub external_semaphore_fd: bool,
    /// `VK_KHR_timeline_semaphore` is available (Vulkan 1.2+)
    pub timeline_semaphore: bool,
    /// Can import a sync file
    pub can_import_sync_fd: bool,
    /// Can export a sync file
    pub can_export_sync_fd: bool,
    /// Can import an opaque file descriptor (for a DRM syncobj)
    pub can_import_opaque_fd: bool,
    /// Can export an opaque file descriptor
    pub can_export_opaque_fd: bool,
}

impl Default for SyncCapabilities {
    /// No explicit sync.
    fn default() -> (r: SyncCapabilities)
        ensures
            r == SyncCapabilities::none(),
    {
        SyncCapabilities {
            external_semaphore: false,
            external_semaphore_fd: false,
            timeline_semaphore: false,
            can_import_sync_fd: false,
            can_export_sync_fd: false,
            can_import_opaque_fd: false,
            can_export_opaque_fd: false,
        }
    }
}

impl SyncCapabilities {
    /// No explicit sync.
    pub open spec fn none() -> SyncCapabilities {
        SyncCapabilities {
            external_semaphore: false,
            external_semaphore_fd: false,
            timeline_semaphore: false,
            can_import_sync_fd: false,
            can_export_sync_fd: false,
            can_import_opaque_fd: false,
            can_export_opaque_fd: false,
        }
    }

    /// The capabilities of a device. What can be done with file descriptors is known only where
    /// the device takes semaphores as file descriptors.
    pub open spec fn of_device(
        extensions: Option<Seq<Seq<char>>>,
        device_version: u32,
        sync_fd_features: u32,
        opaque_fd_features: u32,
    ) -> SyncCapabilities {
        match extensions {
            Some(names) => {
                let fd = names.contains(EXTERNAL_SEMAPHORE_FD@);
                SyncCapabilities {
                    external_semaphore: names.contains(EXTERNAL_SEMAPHORE@),
                    external_semaphore_fd: fd,
                    timeline_semaphore: device_version >= crate::vulkan::packed_version(0, 1, 2, 0)
                        || names.contains(TIMELINE_SEMAPHORE@),
                    can_import_sync_fd: fd && crate::vulkan::has_flags(
                        sync_fd_features,
                        SEMAPHORE_IMPORTABLE,
                    ),
                    can_export_sync_fd: fd && crate::vulkan::has_flags(
                        sync_fd_features,
                        SEMAPHORE_EXPORTABLE,
                    ),
                    can_import_opaque_fd: fd && crate::vulkan::has_flags(
                        opaque_fd_features,
                        SEMAPHORE_IMPORTABLE,
                    ),
                    can_export_opaque_fd: fd && crate::vulkan::has_flags(
                        opaque_fd_features,
                        SEMAPHORE_EXPORTABLE,
                    ),
                }
            },
            None => SyncCapabilities::none(),
        }
    }

    /// Whether the features of external semaphores are to be asked for: the device takes
    /// semaphores as file descriptors.
    pub fn takes_semaphore_fds(extensions: Option<&Vec<String>>) -> (r: bool)
        ensures
            r == (crate::vulkan::listed(extensions) matches Some(names) && names.contains(
                EXTERNAL_SEMAPHORE_FD@,
            )),
    {
        match extensions {
            Some(names) => contains_name(names, EXTERNAL_SEMAPHORE_FD),
            None => false,
        }
    }

    /// The capabilities of a physical device with these extensions, this API version and these
    /// features of external semaphores: of sync files and of opaque file descriptors. `None`
    /// stands for extensions that could not be listed.
    pub fn query(
        extensions: Option<&Vec<String>>,
        device_version: u32,
        sync_fd_features: u32,
        opaque_fd_features: u32,
    ) -> (r: SyncCapabilities)
        ensures
            r == Self::of_device(
                crate::vulkan::listed(extensions),
                device_version,
                sync_fd_features,
                opaque_fd_features,
            ),
    {
        let names = match extensions {
            Some(names) => names,
            None => {
                return SyncCapabilities::default();
            },
        };
        let external_semaphore = contains_name(names, EXTERNAL_SEMAPHORE);
        let external_semaphore_fd = contains_name(names, EXTERNAL_SEMAPHORE_FD);
        let timeline_semaphore = device_version >= api_version(0, 1, 2, 0) || contains_name(
            names,
            TIMELINE_SEMAPHORE,
        );
        let (can_import_sync_fd, can_export_sync_fd, can_import_opaque_fd, can_export_opaque_fd): (
            bool,
            bool,
            bool,
            bool,
        ) = if external_semaphore_fd {
            (
                semaphore_features_contain(sync_fd_features, SEMAPHORE_IMPORTABLE),
                semaphore_features_contain(sync_fd_features, SEMAPHORE_EXPORTABLE),
                semaphore_features_contain(opaque_fd_features, SEMAPHORE_IMPORTABLE),
                semaphore_features_contain(opaque_fd_features, SEMAPHORE_EXPORTABLE),
            )
        } else {
            (false, false, false, false)
        };
        SyncCapabilities {
            external_semaphore,
            external_semaphore_fd,
            timeline_semaphore,
            can_import_sync_fd,
            can_export_sync_fd,
            can_import_opaque_fd,
            can_export_opaque_fd,
        }
    }

    /// The semaphore that a device with the capabilities creates: what it cannot do is left out.
    pub open spec fn spec_semaphore(self, timeline: bool, exportable: bool) -> SemaphoreRequest {
        SemaphoreRequest {
            timeline: timeline && self.timeline_semaphore,
            export_sync_fd: exportable && self.can_export_sync_fd,
        }
    }

    /// The semaphore to create, as far as the device can.
    pub fn semaphore(&self, timeline: bool, exportable: bool) -> (r: SemaphoreRequest)
        ensures
            r == self.spec_semaphore(timeline, exportable),
    {
        SemaphoreRequest {
            timeline: timeline && self.timeline_semaphore,
            export_sync_fd: exportable && self.can_export_sync_fd,
        }
    }

    /// Whether explicit sync is fully supported.
    pub open spec fn spec_supported(self) -> bool {
        self.external_semaphore && self.external_semaphore_fd && self.can_import_sync_fd
    }

    /// Check if explicit sync is fully supported.
    pub fn is_supported(&self) -> (r: bool)
        ensures
            r == self.spec_supported(),
    {
        self.external_semaphore && self.external_semaphore_fd && self.can_import_sync_fd
    }
}

/// A sync point representing a timeline position.
///
/// This corresponds to a point on the timeline of a DRM syncobj.
#[derive(Clone, Copy, Debug, PartialEq, Eq, Structural)]
pub struct SyncPoint {
    /// The timeline value (0 for binary semaphores)
    pub timeline_value: u64,
    /// Whether this is a timeline (vs binary) semaphore
    pub is_timeline: bool,
}

impl SyncPoint {
    /// Create a binary sync point (value = 0).
    pub fn binary() -> (r: SyncPoint)
        ensures
            r.timeline_value == 0,
            !r.is_timeline,
    {
        SyncPoint { timeline_value: 0, is_timeline: false }
    }

    /// Create a timeline sync point with a specific value.
    pub fn timeline(value: u64) -> (r: SyncPoint)
        ensures
            r.timeline_value == value,
            r.is_timeline,
    {
        SyncPoint { timeline_value: value, is_timeline: true }
    }
}

/// An imported semaphore from an external source.
#[derive(Debug)]
pub struct ImportedSemaphore {
    /// Raw Vulkan semaphore handle
    pub semaphore: u64,
    /// The sync point this represents
    pub sync_point: SyncPoint,
    /// Source file descriptor (for debugging)
    pub source_fd: Option<i32>,
}

impl ImportedSemaphore {
    /// The raw Vulkan semaphore handle.
    pub fn raw(&self) -> (r: u64)
        ensures
            r == self.semaphore,
    {
        self.semaphore
    }

    /// The sync point that the semaphore represents.
    pub fn sync_point(&self) -> (r: &SyncPoint)
        ensures
            *r == self.sync_point,
    {
        &self.sync_point
    }
}

/// An exportable semaphore that can be shared externally.
#[derive(Debug)]
pub struct ExportSemaphore {
    /// Raw Vulkan semaphore handle
    pub semaphore: u64,
    /// Whether this is a timeline semaphore
    pub is_timeline: bool,
    /// Current timeline value (for timeline semaphores)
    pub timeline_value: u64,
}

impl ExportSemaphore {
    /// The raw Vulkan semaphore handle.
    pub fn raw(&self) -> (r: u64)
        ensures
            r == self.semaphore,
    {
        self.semaphore
    }

    /// The value that the semaphore was last to be signaled with.
    pub fn current_value(&self) -> (r: u64)
        ensures
            r == self.timeline_value,
    {
        self.timeline_value
    }

    /// The value to signal the semaphore with next: one more than the last for a timeline
    /// semaphore, and always 0 for a binary one.
    pub fn next_signal_value(&mut self) -> (r: u64)
        requires
            old(self).is_timeline ==> old(self).timeline_value < u64::MAX,
        ensures
            final(self).semaphore == old(self).semaphore,
            final(self).is_timeline == old(self).is_timeline,
            if old(self).is_timeline {
                r == old(self).timeline_value + 1 && final(self).timeline_value == r
            } else {
                r == 0 && final(self).timeline_value == old(self).timeline_value
            },
    {
        if self.is_timeline {
            self.timeline_value = self.timeline_value + 1;
            self.timeline_value
        } else {
            0
        }
    }

    /// Export as a sync file: the semaphore to export, where the device has the function for it.
    pub fn export_sync_fd(&self, function_loaded: bool) -> (r: Result<u64, BridgeError>)
        ensures
            match r {
                Ok(semaphore) => function_loaded && semaphore == self.semaphore,
                Err(e) => !function_loaded && e@ == fd_extension_missing(),
            },
    {
        require_fd_function(function_loaded)?;
        Ok(self.semaphore)
    }

    /// What the export came to: the file descriptor, or the code of why there is none.
    pub fn sync_fd_exported(fd: Result<i32, i32>) -> (r: Result<i32, BridgeError>)
        ensures
            match fd {
                Ok(fd) => r == Ok::<i32, BridgeError>(fd),
                Err(code) => r matches Err(e) && e@ == BridgeErrorView::Sync(
                    "failed to export sync fd: "@ + vk_result_debug(code),
                ),
            },
    {
        match fd {
            Ok(fd) => Ok(fd),
            Err(code) => Err(BridgeError::Sync(with_vk_result("failed to export sync fd: ", code))),
        }
    }
}

/// The error of a device without the functions of `VK_KHR_external_semaphore_fd`.
pub open spec fn fd_extension_missing() -> BridgeErrorView {
    BridgeErrorView::Sync("VK_KHR_external_semaphore_fd extension not enabled on device"@)
}

/// Fail where a function of `VK_KHR_external_semaphore_fd` is not loaded.
fn require_fd_function(function_loaded: bool) -> (r: Result<(), BridgeError>)
    ensures
        match r {
            Ok(_) => function_loaded,
            Err(e) => !function_loaded && e@ == fd_extension_missing(),
        },
{
    if function_loaded {
        Ok(())
    } else {
        Err(
            BridgeError::Sync(
                "VK_KHR_external_semaphore_fd extension not enabled on device".to_owned(),
            ),
        )
    }
}

/// A semaphore to be created.
#[derive(Clone, Copy, Debug, PartialEq, Eq, Structural)]
pub struct SemaphoreRequest {
    /// Whether it has a timeline, which begins at 0.
    pub timeline: bool,
    /// Whether it can be exported as a sync file.
    pub export_sync_fd: bool,
}

/// Where a semaphore comes from.
#[derive(Clone, Copy, Debug, PartialEq, Eq, Structural)]
pub enum SemaphoreSource {
    /// It was in the pool.
    Pooled(u64),
    /// It is to be created.
    Create(SemaphoreRequest),
}

/// A semaphore to be signaled at the next submit. A binary semaphore has no value.
#[derive(Clone, Copy, Debug, PartialEq, Eq)]
pub struct SignalRequest {
    /// The semaphore.
    pub semaphore: u64,
    /// The value to signal it with.
    pub value: Option<u64>,
}

/// A value of a timeline semaphore to be waited for.
#[derive(Clone, Copy, Debug, PartialEq, Eq, Structural)]
pub struct TimelineWait {
    /// The semaphore.
    pub semaphore: u64,
    /// The value.
    pub value: u64,
    /// The timeout of the wait, in nanoseconds.
    pub timeout_ns: u64,
}

/// What a call of `poll` came to.
#[derive(Clone, Copy, Debug, PartialEq, Eq, Structural)]
pub struct PollReply {
    /// What the call returned.
    pub result: i32,
    /// The events that it reported.
    pub revents: i16,
}

/// Statistics for sync operations.
#[derive(Clone, Copy, Debug, PartialEq, Eq, Structural)]
pub struct SyncStats {
    pub semaphores_imported: u64,
    pub semaphores_exported: u64,
    pub semaphores_signaled: u64,
    pub pool_hits: u64,
    pub pool_misses: u64,
}

/// Manager for explicit synchronization primitives.
#[derive(Debug)]
pub struct SyncManager {
    /// Capabilities
    capabilities: SyncCapabilities,
    /// Pool of reusable binary semaphores
    binary_semaphore_pool: Vec<u64>,
    /// Pool of reusable timeline semaphores
    timeline_semaphore_pool: Vec<u64>,
    /// Semaphores pending signal (registered with the queue)
    pending_signals: Vec<u64>,
    /// Statistics
    stats: SyncStats,
}

/// What a [`SyncManager`] holds.
pub struct SyncManagerView {
    pub capabilities: SyncCapabilities,
    pub binary_pool: Seq<u64>,
    pub timeline_pool: Seq<u64>,
    pub pending: Seq<u64>,
    pub stats: SyncStats,
}

impl View for SyncManager {
    type V = SyncManagerView;

    closed spec fn view(&self) -> SyncManagerView {
        SyncManagerView {
            capabilities: self.capabilities,
            binary_pool: self.binary_semaphore_pool@,
            timeline_pool: self.timeline_semaphore_pool@,
            pending: self.pending_signals@,
            stats: self.stats,
        }
    }
}

/// A counter after one more event. It wraps around.
pub open spec fn counted(n: u64) -> u64 {
    if n == u64::MAX {
        0
    } else {
        (n + 1) as u64
    }
}

/// Count one more event.
fn count(n: u64) -> (r: u64)
    ensures
        r == counted(n),
{
    n.wrapping_add(1)
}

impl SyncManagerView {
    /// A manager that has done nothing yet.
    pub open spec fn fresh(capabilities: SyncCapabilities) -> SyncManagerView {
        SyncManagerView {
            capabilities,
            binary_pool: Seq::empty(),
            timeline_pool: Seq::empty(),
            pending: Seq::empty(),
            stats: SyncStats {
                semaphores_imported: 0,
                semaphores_exported: 0,
                semaphores_signaled: 0,
                pool_hits: 0,
                pool_misses: 0,
            },
        }
    }

    /// Whether explicit sync is supported, no semaphore is pooled, and none was ever taken from a
    /// pool. This is the invariant of [`SyncManager`].
    pub open spec fn valid(self) -> bool {
        &&& self.capabilities.spec_supported()
        &&& self.binary_pool.len() == 0
        &&& self.timeline_pool.len() == 0
        &&& self.stats.pool_hits == 0
        &&& self.stats.semaphores_exported == 0
    }

    /// The manager after a semaphore was looked for in the pool.
    pub open spec fn after_lookup(self, timeline: bool) -> SyncManagerView {
        let pool = if timeline {
            self.timeline_pool
        } else {
            self.binary_pool
        };
        if pool.len() == 0 {
            SyncManagerView {
                stats: SyncStats { pool_misses: counted(self.stats.pool_misses), ..self.stats },
                ..self
            }
        } else {
            SyncManagerView {
                timeline_pool: if timeline {
                    pool.drop_last()
                } else {
                    self.timeline_pool
                },
                binary_pool: if timeline {
                    self.binary_pool
                } else {
                    pool.drop_last()
                },
                stats: SyncStats { pool_hits: counted(self.stats.pool_hits), ..self.stats },
                ..self
            }
        }
    }

    /// Where a semaphore is taken from.
    pub open spec fn lookup(self, timeline: bool) -> SemaphoreSource {
        let pool = if timeline {
            self.timeline_pool
        } else {
            self.binary_pool
        };
        if pool.len() == 0 {
            SemaphoreSource::Create(self.capabilities.spec_semaphore(timeline, false))
        } else {
            SemaphoreSource::Pooled(pool.last())
        }
    }

    /// The manager after a semaphore was registered for signaling.
    pub open spec fn after_register(self, semaphore: u64) -> SyncManagerView {
        SyncManagerView {
            pending: self.pending.push(semaphore),
            stats: SyncStats {
                semaphores_signaled: counted(self.stats.semaphores_signaled),
                ..self.stats
            },
            ..self
        }
    }

    /// The manager after a semaphore was imported.
    pub open spec fn after_import(self) -> SyncManagerView {
        SyncManagerView {
            stats: SyncStats {
                semaphores_imported: counted(self.stats.semaphores_imported),
                ..self.stats
            },
            ..self
        }
    }
}

impl SyncManager {
    /// Every manager is valid.
    #[verifier::type_invariant]
    spec fn inv(self) -> bool {
        self@.valid()
    }

    /// Create a new explicit sync manager for a device with these capabilities.
    pub fn new(capabilities: SyncCapabilities) -> (r: Result<SyncManager, BridgeError>)
        ensures
            match r {
                Ok(manager) => capabilities.spec_supported() && manager@ == SyncManagerView::fresh(
                    capabilities,
                ) && manager@.valid(),
                Err(e) => !capabilities.spec_supported() && e@ == BridgeErrorView::Sync(
                    "Explicit sync not supported: missing external semaphore extensions"@,
                ),
            },
    {
        if !capabilities.is_supported() {
            return Err(
                BridgeError::Sync(
                    "Explicit sync not supported: missing external semaphore extensions".to_owned(),
                ),
            );
        }
        Ok(
            SyncManager {
                capabilities,
                binary_semaphore_pool: Vec::new(),
                timeline_semaphore_pool: Vec::new(),
                pending_signals: Vec::new(),
                stats: SyncStats {
                    semaphores_imported: 0,
                    semaphores_exported: 0,
                    semaphores_signaled: 0,
                    pool_hits: 0,
                    pool_misses: 0,
                },
            },
        )
    }

    /// Get the capabilities.
    pub fn capabilities(&self) -> (r: &SyncCapabilities)
        ensures
            *r == self@.capabilities,
            r.spec_supported(),
    {
        proof {
            use_type_invariant(self);
        }
        &self.capabilities
    }

    /// Import a sync file as a semaphore: the semaphore to import into.
    ///
    /// This is used for acquire points, on which the compositor waits before it samples buffers.
    /// The device has to have the function for it. No semaphore is pooled, so that it is always one
    /// to create.
    pub fn import_sync_fd(&mut self, function_loaded: bool, sync_point: &SyncPoint) -> (r: Result<
        SemaphoreSource,
        BridgeError,
    >)
        ensures
            match r {
                Ok(source) => function_loaded && source == old(self)@.lookup(
                    sync_point.is_timeline,
                ) && source == SemaphoreSource::Create(
                    old(self)@.capabilities.spec_semaphore(sync_point.is_timeline, false),
                ) && final(self)@ == old(self)@.after_lookup(sync_point.is_timeline),
                Err(e) => !function_loaded && e@ == fd_extension_missing() && final(self)@ == old(
                    self,
                )@,
            },
            final(self)@.valid(),
    {
        proof {
            use_type_invariant(&*self);
        }
        require_fd_function(function_loaded)?;
        Ok(self.get_or_create_semaphore(sync_point.is_timeline))
    }

    /// Go on with a created semaphore, or with the code of why it could not be created.
    pub fn semaphore_created(semaphore: Result<u64, i32>) -> (r: Result<u64, BridgeError>)
        ensures
            match semaphore {
                Ok(handle) => r == Ok::<u64, BridgeError>(handle),
                Err(code) => r matches Err(e) && e@ == BridgeErrorView::Sync(
                    "failed to create semaphore: "@ + vk_result_debug(code),
                ),
            },
    {
        match semaphore {
            Ok(handle) => Ok(handle),
            Err(code) => Err(
                BridgeError::Sync(with_vk_result("failed to create semaphore: ", code)),
            ),
        }
    }

    /// Finish the import of the sync file `fd` into a semaphore, or take the code of why it
    /// failed.
    pub fn sync_fd_imported(
        &mut self,
        semaphore: u64,
        fd: i32,
        sync_point: SyncPoint,
        imported: Result<(), i32>,
    ) -> (r: Result<ImportedSemaphore, BridgeError>)
        ensures
            match imported {
                Ok(_) => r == Ok::<ImportedSemaphore, BridgeError>(
                    ImportedSemaphore { semaphore, sync_point, source_fd: Some(fd) },
                ) && final(self)@ == old(self)@.after_import(),
                Err(code) => final(self)@ == old(self)@ && (r matches Err(e) && e@
                    == BridgeErrorView::Sync("failed to import sync fd: "@ + vk_result_debug(code))),
            },
            final(self)@.valid(),
    {
        proof {
            use_type_invariant(&*self);
        }
        match imported {
            Ok(_) => {
                self.stats.semaphores_imported = count(self.stats.semaphores_imported);
                Ok(ImportedSemaphore { semaphore, sync_point, source_fd: Some(fd) })
            },
            Err(code) => Err(BridgeError::Sync(with_vk_result("failed to import sync fd: ", code))),
        }
    }

    /// Create an exportable semaphore for release points: the semaphore to create.
    pub fn create_exportable_semaphore(&self, timeline: bool) -> (r: SemaphoreRequest)
        ensures
            r == self@.capabilities.spec_semaphore(timeline, true),
    {
        self.create_semaphore_internal(timeline, true)
    }

    /// Finish an exportable semaphore, or take the code of why it could not be created.
    pub fn exportable_semaphore_created(timeline: bool, semaphore: Result<u64, i32>) -> (r: Result<
        ExportSemaphore,
        BridgeError,
    >)
        ensures
            match semaphore {
                Ok(handle) => r == Ok::<ExportSemaphore, BridgeError>(
                    ExportSemaphore {
                        semaphore: handle,
                        is_timeline: timeline,
                        timeline_value: 0,
                    },
                ),
                Err(code) => r matches Err(e) && e@ == BridgeErrorView::Sync(
                    "failed to create semaphore: "@ + vk_result_debug(code),
                ),
            },
    {
        match Self::semaphore_created(semaphore) {
            Ok(handle) => Ok(
                ExportSemaphore { semaphore: handle, is_timeline: timeline, timeline_value: 0 },
            ),
            Err(e) => Err(e),
        }
    }

    /// Register a binary semaphore for signaling on the next queue submit, where the queue is a
    /// Vulkan queue.
    pub fn register_signal_semaphore_binary(&mut self, vulkan_queue: bool, semaphore: u64) -> (r:
        Result<SignalRequest, BridgeError>)
        ensures
            match r {
                Ok(signal) => vulkan_queue && signal == (SignalRequest { semaphore, value: None })
                    && final(self)@ == old(self)@.after_register(semaphore),
                Err(e) => !vulkan_queue && e@ == BridgeErrorView::Sync(
                    "Failed to access Vulkan queue"@,
                ) && final(self)@ == old(self)@,
            },
            final(self)@.valid(),
    {
        self.register_signal(vulkan_queue, semaphore)?;
        Ok(SignalRequest { semaphore, value: None })
    }

    /// Register a timeline semaphore for signaling on the next queue submit, where the queue is a
    /// Vulkan queue.
    pub fn register_signal_semaphore_timeline(
        &mut self,
        vulkan_queue: bool,
        semaphore: u64,
        timeline_value: u64,
    ) -> (r: Result<SignalRequest, BridgeError>)
        ensures
            match r {
                Ok(signal) => vulkan_queue && signal == (SignalRequest {
                    semaphore,
                    value: Some(timeline_value),
                }) && final(self)@ == old(self)@.after_register(semaphore),
                Err(e) => !vulkan_queue && e@ == BridgeErrorView::Sync(
                    "Failed to access Vulkan queue"@,
                ) && final(self)@ == old(self)@,
            },
            final(self)@.valid(),
    {
        self.register_signal(vulkan_queue, semaphore)?;
        Ok(SignalRequest { semaphore, value: Some(timeline_value) })
    }

    /// Keep account of a semaphore that is registered for signaling.
    fn register_signal(&mut self, vulkan_queue: bool, semaphore: u64) -> (r: Result<
        (),
        BridgeError,
    >)
        ensures
            match r {
                Ok(_) => vulkan_queue && final(self)@ == old(self)@.after_register(semaphore),
                Err(e) => !vulkan_queue && e@ == BridgeErrorView::Sync(
                    "Failed to access Vulkan queue"@,
                ) && final(self)@ == old(self)@,
            },
            final(self)@.valid(),
    {
        proof {
            use_type_invariant(&*self);
        }
        if !vulkan_queue {
            return Err(BridgeError::Sync("Failed to access Vulkan queue".to_owned()));
        }
        let mut pending: Vec<u64> = Vec::new();
        std::mem::swap(&mut pending, &mut self.pending_signals);
        pending.push(semaphore);
        self.pending_signals = pending;
        self.stats.semaphores_signaled = count(self.stats.semaphores_signaled);
        Ok(())
    }

    /// Wait on a semaphore on the CPU: what to wait for. A binary semaphore cannot be waited for
    /// in this way.
    pub fn wait_semaphore_cpu(&self, semaphore: &ImportedSemaphore, timeout_ns: u64) -> (r: Result<
        TimelineWait,
        BridgeError,
    >)
        ensures
            match r {
                Ok(wait) => semaphore.sync_point.is_timeline && wait == (TimelineWait {
                    semaphore: semaphore.semaphore,
                    value: semaphore.sync_point.timeline_value,
                    timeout_ns,
                }),
                Err(e) => !semaphore.sync_point.is_timeline && e@ == BridgeErrorView::Sync(
                    "CPU wait on binary semaphore requires sync_file fd polling"@,
                ),
            },
    {
        if semaphore.sync_point.is_timeline {
            Ok(
                TimelineWait {
                    semaphore: semaphore.semaphore,
                    value: semaphore.sync_point.timeline_value,
                    timeout_ns,
                },
            )
        } else {
            Err(
                BridgeError::Sync(
                    "CPU wait on binary semaphore requires sync_file fd polling".to_owned(),
                ),
            )
        }
    }

    /// What waiting for a timeline semaphore came to. A wait that timed out has failed too.
    pub fn semaphore_waited(waited: Result<(), i32>) -> (r: Result<(), BridgeError>)
        ensures
            match waited {
                Ok(_) => r is Ok,
                Err(code) => r matches Err(e) && e@ == BridgeErrorView::Sync(
                    "timeline semaphore wait failed: "@ + vk_result_debug(code),
                ),
            },
    {
        match waited {
            Ok(_) => Ok(()),
            Err(code) => Err(
                BridgeError::Sync(with_vk_result("timeline semaphore wait failed: ", code)),
            ),
        }
    }

    /// Wait on a sync file: what the call of `poll` on it came to. The sync file is ready where
    /// the call reported the event. `os_error` says why a call failed.
    pub fn wait_sync_fd(reply: PollReply, os_error: &str) -> (r: Result<bool, BridgeError>)
        ensures
            match r {
                Ok(ready) => reply.result >= 0 && ready == (reply.result > 0 && reply.revents
                    & POLL_IN != 0),
                Err(e) => reply.result < 0 && e@ == BridgeErrorView::Sync(
                    "poll() failed: "@ + os_error@,
                ),
            },
    {
        if reply.result < 0 {
            return Err(BridgeError::Sync(joined("poll() failed: ", os_error)));
        }
        Ok(reply.result > 0 && (reply.revents & POLL_IN) != 0)
    }

    /// Clear the pending signals.
    ///
    /// The semaphores themselves belong to those who registered them, and do not go to the pool.
    pub fn clear_pending_signals(&mut self)
        ensures
            final(self)@ == (SyncManagerView { pending: Seq::empty(), ..old(self)@ }),
            final(self)@.valid(),
    {
        proof {
            use_type_invariant(&*self);
        }
        self.pending_signals = Vec::new();
    }

    /// The semaphores that are registered and not cleared yet, in order of registration.
    pub fn pending_signals(&self) -> (r: &Vec<u64>)
        ensures
            r@ == self@.pending,
    {
        &self.pending_signals
    }

    /// Get statistics: semaphores imported, exported and signaled, pool hits and pool misses. None
    /// is counted as exported, and none as found in a pool.
    pub fn stats(&self) -> (r: (u64, u64, u64, u64, u64))
        ensures
            r == (
                self@.stats.semaphores_imported,
                self@.stats.semaphores_exported,
                self@.stats.semaphores_signaled,
                self@.stats.pool_hits,
                self@.stats.pool_misses,
            ),
            r.1 == 0,
            r.3 == 0,
    {
        proof {
            use_type_invariant(self);
        }
        (
            self.stats.semaphores_imported,
            self.stats.semaphores_exported,
            self.stats.semaphores_signaled,
            self.stats.pool_hits,
            self.stats.pool_misses,
        )
    }

    /// Get a semaphore from the pool or create a new one.
    fn get_or_create_semaphore(&mut self, timeline: bool) -> (r: SemaphoreSource)
        ensures
            r == old(self)@.lookup(timeline),
            final(self)@ == old(self)@.after_lookup(timeline),
            final(self)@.valid(),
    {
        proof {
            use_type_invariant(&*self);
        }
        let mut pool: Vec<u64> = Vec::new();
        if timeline {
            std::mem::swap(&mut pool, &mut self.timeline_semaphore_pool);
        } else {
            std::mem::swap(&mut pool, &mut self.binary_semaphore_pool);
        }
        let pooled = pool.pop();
        if timeline {
            self.timeline_semaphore_pool = pool;
        } else {
            self.binary_semaphore_pool = pool;
        }
        match pooled {
            Some(semaphore) => {
                self.stats.pool_hits = count(self.stats.pool_hits);
                SemaphoreSource::Pooled(semaphore)
            },
            None => {
                self.stats.pool_misses = count(self.stats.pool_misses);
                SemaphoreSource::Create(self.create_semaphore_internal(timeline, false))
            },
        }
    }

    /// The semaphore to create, as far as the device can.
    fn create_semaphore_internal(&self, timeline: bool, exportable: bool) -> (r: SemaphoreRequest)
        ensures
            r == self@.capabilities.spec_semaphore(timeline, exportable),
    {
        self.capabilities.semaphore(timeline, exportable)
    }

    /// The semaphores to destroy with the manager: those of the pools, which are none. Pending ones
    /// belong to those who registered them.
    pub fn owned_semaphores(&self) -> (r: Vec<u64>)
        ensures
            r@ == self@.binary_pool + self@.timeline_pool,
            r@.len() == 0,
    {
        proof {
            use_type_invariant(self);
        }
        let mut owned: Vec<u64> = Vec::new();
        let mut i: usize = 0;
        while i < self.binary_semaphore_pool.len()
            invariant
                i <= self.binary_semaphore_pool@.len(),
                owned@ == self.binary_semaphore_pool@.take(i as int),
            decreases self.binary_semaphore_pool@.len() - i,
        {
            owned.push(self.binary_semaphore_pool[i]);
            i = i + 1;
        }
        let mut j: usize = 0;
        while j < self.timeline_semaphore_pool.len()
            invariant
                j <= self.timeline_semaphore_pool@.len(),
                owned@ == self.binary_semaphore_pool@ + self.timeline_semaphore_pool@.take(
                    j as int,
                ),
            decreases self.timeline_semaphore_pool@.len() - j,
        {
            owned.push(self.timeline_semaphore_pool[j]);
            j = j + 1;
        }
        owned
    }
}

/// What can be done with semaphores as file descriptors needs the extension for them, and
/// supported explicit sync needs all three: external semaphores, semaphores as file descriptors,
/// and sync files that can be imported.
pub proof fn law_capabilities_imply_extension(
    extensions: Option<Seq<Seq<char>>>,
    device_version: u32,
    sync_fd_features: u32,
    opaque_fd_features: u32,
)
    ensures
        ({
            let c = SyncCapabilities::of_device(
                extensions,
                device_version,
                sync_fd_features,
                opaque_fd_features,
            );
            &&& c.can_import_sync_fd || c.can_export_sync_fd || c.can_import_opaque_fd
                || c.can_export_opaque_fd ==> c.external_semaphore_fd
            &&& c.spec_supported() ==> extensions is Some
            &&& !SyncCapabilities::none().spec_supported()
        }),
{
}

/// Every operation of a manager keeps it valid: explicit sync stays supported and no semaphore is
/// ever pooled, so that every semaphore to import into is created anew and the manager owns none.
pub proof fn law_manager_stays_valid(m: SyncManagerView, timeline: bool, semaphore: u64)
    requires
        m.valid(),
    ensures
        m.after_lookup(timeline).valid(),
        m.after_register(semaphore).valid(),
        m.after_import().valid(),
        (SyncManagerView { pending: Seq::empty(), ..m }).valid(),
        m.lookup(timeline) == SemaphoreSource::Create(m.capabilities.spec_semaphore(timeline, false)),
        m.binary_pool + m.timeline_pool == Seq::<u64>::empty(),
{
}

/// A registered semaphore is pending, behind those registered before it, until the pending
/// signals are cleared. Clearing changes no statistics.
pub proof fn law_registered_is_pending(m: SyncManagerView, first: u64, second: u64)
    ensures
        m.after_register(first).after_register(second).pending == m.pending + seq![first, second],
        (SyncManagerView { pending: Seq::empty(), ..m.after_register(first) }).stats
            == m.after_register(first).stats,
{
}

/// A requested semaphore has a timeline if and only if one was asked for and the device has timeline
/// semaphores, whether it is to be exported or not. It can be exported as a sync file if and only if
/// that was asked for and the device can do so, whether it has a timeline or not.
pub proof fn law_semaphore_as_asked(
    capabilities: SyncCapabilities,
    timeline: bool,
    exportable: bool,
    request: SemaphoreRequest,
)
    requires
        call_ensures(SyncCapabilities::semaphore, (&capabilities, timeline, exportable), request),
    ensures
        request.timeline <==> timeline && capabilities.timeline_semaphore,
        request.export_sync_fd <==> exportable && capabilities.can_export_sync_fd,
{
}

/// Importing a binary sync point never requests a timeline semaphore, and importing a timeline point
/// requests one wherever the device has them. A semaphore to import into is never exported. The
/// import counts as a pool miss and as nothing else, and leaves the pending signals as they were.
pub proof fn law_import_requests_the_kind_of_point(
    m: &mut SyncManager,
    function_loaded: bool,
    point: SyncPoint,
    r: Result<SemaphoreSource, BridgeError>,
)
    requires
        call_ensures(SyncManager::import_sync_fd, (m, function_loaded, &point), r),
    ensures
        r is Ok <==> function_loaded,
        r matches Ok(source) ==> (source matches SemaphoreSource::Create(request)
            && !request.export_sync_fd && (request.timeline <==> point.is_timeline && old(
            m,
        )@.capabilities.timeline_semaphore)),
        r is Ok && old(m)@.stats.pool_misses < u64::MAX ==> final(m)@.stats.pool_misses == old(
            m,
        )@.stats.pool_misses + 1,
        r is Err ==> final(m)@.stats.pool_misses == old(m)@.stats.pool_misses,
        final(m)@.stats.semaphores_imported == old(m)@.stats.semaphores_imported,
        final(m)@.stats.semaphores_signaled == old(m)@.stats.semaphores_signaled,
        final(m)@.pending == old(m)@.pending,
        final(m)@.capabilities == old(m)@.capabilities,
{
}

/// A semaphore for release points is always asked to be exportable.
pub proof fn law_release_semaphore_is_exportable(
    manager: SyncManager,
    timeline: bool,
    request: SemaphoreRequest,
)
    requires
        call_ensures(SyncManager::create_exportable_semaphore, (&manager, timeline), request),
    ensures
        request.export_sync_fd == manager@.capabilities.can_export_sync_fd,
        request.timeline <==> timeline && manager@.capabilities.timeline_semaphore,
{
}

/// A finished import counts once as imported and as nothing else. It keeps the semaphore, the point
/// and the file descriptor that were handed in. A failed one counts nowhere.
pub proof fn law_import_counted(
    m: &mut SyncManager,
    semaphore: u64,
    fd: i32,
    point: SyncPoint,
    imported: Result<(), i32>,
    r: Result<ImportedSemaphore, BridgeError>,
)
    requires
        call_ensures(SyncManager::sync_fd_imported, (m, semaphore, fd, point, imported), r),
    ensures
        r is Ok <==> imported is Ok,
        r matches Ok(s) ==> s.semaphore == semaphore && s.sync_point == point && s.source_fd == Some(
            fd,
        ),
        r is Ok && old(m)@.stats.semaphores_imported < u64::MAX
            ==> final(m)@.stats.semaphores_imported == old(m)@.stats.semaphores_imported + 1,
        r is Err ==> final(m)@.stats.semaphores_imported == old(m)@.stats.semaphores_imported,
        final(m)@.stats.semaphores_signaled == old(m)@.stats.semaphores_signaled,
        final(m)@.stats.pool_misses == old(m)@.stats.pool_misses,
        final(m)@.pending == old(m)@.pending,
        final(m)@.capabilities == old(m)@.capabilities,
{
}

/// A registered semaphore is the last of the pending ones and counts once as signaled, and as nothing
/// else. A binary semaphore is signaled without a value. Without a Vulkan queue nothing changes.
pub proof fn law_binary_registration(
    m: &mut SyncManager,
    vulkan_queue: bool,
    semaphore: u64,
    r: Result<SignalRequest, BridgeError>,
)
    requires
        call_ensures(
            SyncManager::register_signal_semaphore_binary,
            (m, vulkan_queue, semaphore),
            r,
        ),
    ensures
        r is Ok <==> vulkan_queue,
        r matches Ok(signal) ==> signal.semaphore == semaphore && signal.value is None
            && final(m)@.pending == old(m)@.pending.push(semaphore),
        r is Ok && old(m)@.stats.semaphores_signaled < u64::MAX
            ==> final(m)@.stats.semaphores_signaled == old(m)@.stats.semaphores_signaled + 1,
        r is Err ==> final(m)@.pending == old(m)@.pending && final(m)@.stats == old(m)@.stats,
        final(m)@.stats.semaphores_imported == old(m)@.stats.semaphores_imported,
        final(m)@.stats.pool_misses == old(m)@.stats.pool_misses,
        final(m)@.capabilities == old(m)@.capabilities,
{
}

/// A timeline semaphore is registered as a binary one is, and signaled with the value that was asked
/// for.
pub proof fn law_timeline_registration(
    m: &mut SyncManager,
    vulkan_queue: bool,
    semaphore: u64,
    value: u64,
    r: Result<SignalRequest, BridgeError>,
)
    requires
        call_ensures(
            SyncManager::register_signal_semaphore_timeline,
            (m, vulkan_queue, semaphore, value),
            r,
        ),
    ensures
        r is Ok <==> vulkan_queue,
        r matches Ok(signal) ==> signal.semaphore == semaphore && signal.value == Some(value)
            && final(m)@.pending == old(m)@.pending.push(semaphore),
        r is Ok && old(m)@.stats.semaphores_signaled < u64::MAX
            ==> final(m)@.stats.semaphores_signaled == old(m)@.stats.semaphores_signaled + 1,
        r is Err ==> final(m)@.pending == old(m)@.pending && final(m)@.stats == old(m)@.stats,
        final(m)@.stats.semaphores_imported == old(m)@.stats.semaphores_imported,
        final(m)@.stats.pool_misses == old(m)@.stats.pool_misses,
        final(m)@.capabilities == old(m)@.capabilities,
{
}

/// A counter goes up by one with every event and begins again at zero behind its largest value.
pub proof fn law_counter_wraps(n: u64)
    ensures
        counted(n) == (n + 1) % 0x1_0000_0000_0000_0000,
{
}

/// A new manager has counted nothing and has nothing pending, and there is one if and only if the
/// device takes external semaphores, takes them as file descriptors, and imports sync files.
pub proof fn law_new_manager(capabilities: SyncCapabilities, r: Result<SyncManager, BridgeError>)
    requires
        call_ensures(SyncManager::new, (capabilities,), r),
    ensures
        r is Ok <==> capabilities.external_semaphore && capabilities.external_semaphore_fd
            && capabilities.can_import_sync_fd,
        r matches Ok(m) ==> {
            &&& m@.capabilities == capabilities
            &&& m@.pending.len() == 0
            &&& m@.stats.semaphores_imported == 0 && m@.stats.semaphores_exported == 0
            &&& m@.stats.semaphores_signaled == 0
            &&& m@.stats.pool_hits == 0 && m@.stats.pool_misses == 0
        },
        r matches Err(e) ==> e@ is Sync,
{
}

/// Clearing the pending signals leaves none of them, and changes nothing else.
pub proof fn law_clearing_leaves_none(m: &mut SyncManager)
    requires
        call_ensures(SyncManager::clear_pending_signals, (m,), ()),
    ensures
        final(m)@.pending.len() == 0,
        final(m)@.stats == old(m)@.stats,
        final(m)@.capabilities == old(m)@.capabilities,
{
}

/// The statistics are told in the order imported, exported, signaled, hits and misses.
pub proof fn law_stats_in_order(manager: SyncManager, r: (u64, u64, u64, u64, u64))
    requires
        call_ensures(SyncManager::stats, (&manager,), r),
    ensures
        r.0 == manager@.stats.semaphores_imported,
        r.1 == 0,
        r.2 == manager@.stats.semaphores_signaled,
        r.3 == 0,
        r.4 == manager@.stats.pool_misses,
{
}

/// What a device can do with semaphores is read from its extensions, its version and the features of
/// each kind of file descriptor. Sync files go by their own features and opaque file descriptors by
/// theirs: the lowest feature bit is that of the export, the next one that of the import.
pub proof fn law_capabilities_by_bits(
    names: Vec<String>,
    device_version: u32,
    sync_fd_features: u32,
    opaque_fd_features: u32,
    c: SyncCapabilities,
)
    requires
        call_ensures(
            SyncCapabilities::query,
            (Some(&names), device_version, sync_fd_features, opaque_fd_features),
            c,
        ),
    ensures
        ({
            let listed = crate::vulkan::texts(names@);
            let fd = listed.contains("VK_KHR_external_semaphore_fd"@);
            &&& c.external_semaphore == listed.contains("VK_KHR_external_semaphore"@)
            &&& c.external_semaphore_fd == fd
            &&& c.can_export_sync_fd == (fd && sync_fd_features & 0x1 == 0x1)
            &&& c.can_import_sync_fd == (fd && sync_fd_features & 0x2 == 0x2)
            &&& c.can_export_opaque_fd == (fd && opaque_fd_features & 0x1 == 0x1)
            &&& c.can_import_opaque_fd == (fd && opaque_fd_features & 0x2 == 0x2)
        }),
{
}

/// A device has timeline semaphores from Vulkan 1.2 on, and before that by its extension. A device
/// whose extensions could not be listed has no explicit sync at all.
pub proof fn law_timelines_from_version(
    names: Vec<String>,
    device_version: u32,
    sync_fd_features: u32,
    opaque_fd_features: u32,
    c: SyncCapabilities,
    unlisted: SyncCapabilities,
)
    requires
        call_ensures(
            SyncCapabilities::query,
            (Some(&names), device_version, sync_fd_features, opaque_fd_features),
            c,
        ),
        call_ensures(
            SyncCapabilities::query,
            (None, device_version, sync_fd_features, opaque_fd_features),
            unlisted,
        ),
    ensures
        c.timeline_semaphore <==> device_version as int / 4096 >= 1024 + 2 || crate::vulkan::texts(
            names@,
        ).contains("VK_KHR_timeline_semaphore"@),
        !unlisted.external_semaphore && !unlisted.external_semaphore_fd
            && !unlisted.timeline_semaphore,
        !unlisted.can_import_sync_fd && !unlisted.can_export_sync_fd,
        !unlisted.can_import_opaque_fd && !unlisted.can_export_opaque_fd,
{
}

/// The features of external semaphores are asked for if and only if the device takes semaphores as
/// file descriptors.
pub proof fn law_features_asked_for(names: Vec<String>, asked: bool, unlisted: bool)
    requires
        call_ensures(SyncCapabilities::takes_semaphore_fds, (Some(&names),), asked),
        call_ensures(SyncCapabilities::takes_semaphore_fds, (None,), unlisted),
    ensures
        asked <==> crate::vulkan::texts(names@).contains("VK_KHR_external_semaphore_fd"@),
        !unlisted,
{
}

/// Explicit sync is supported where external semaphores can be had as file descriptors and sync files
/// can be imported. Neither exports nor timelines are needed.
pub proof fn law_support_needs_imports(c: SyncCapabilities, d: SyncCapabilities, r: bool, s: bool)
    requires
        call_ensures(SyncCapabilities::is_supported, (&c,), r),
        call_ensures(SyncCapabilities::is_supported, (&d,), s),
        c.external_semaphore == d.external_semaphore,
        c.external_semaphore_fd == d.external_semaphore_fd,
        c.can_import_sync_fd == d.can_import_sync_fd,
    ensures
        r == s,
        r <==> c.external_semaphore && c.external_semaphore_fd && c.can_import_sync_fd,
{
}

/// A timeline point keeps its value, and a binary point has the value zero.
pub proof fn law_points_keep_values(value: u64, timeline: SyncPoint, binary: SyncPoint)
    requires
        call_ensures(SyncPoint::timeline, (value,), timeline),
        call_ensures(SyncPoint::binary, (), binary),
    ensures
        timeline.is_timeline && timeline.timeline_value == value,
        !binary.is_timeline && binary.timeline_value == 0,
{
}

/// The values of a timeline semaphore rise by one with each signal, beginning at one. A binary
/// semaphore is signaled with zero, time after time.
pub proof fn law_signal_values_rise(
    timeline: bool,
    handle: u64,
    created: ExportSemaphore,
    s: &mut ExportSemaphore,
    value: u64,
)
    requires
        call_ensures(
            SyncManager::exportable_semaphore_created,
            (timeline, Ok::<u64, i32>(handle)),
            Ok::<ExportSemaphore, BridgeError>(created),
        ),
        old(s).is_timeline ==> old(s).timeline_value < u64::MAX,
        call_ensures(ExportSemaphore::next_signal_value, (s,), value),
    ensures
        created.semaphore == handle && created.is_timeline == timeline && created.timeline_value == 0,
        old(s).is_timeline ==> value == old(s).timeline_value + 1 && final(s).timeline_value == value,
        !old(s).is_timeline ==> value == 0 && final(s).timeline_value == old(s).timeline_value,
        final(s).is_timeline == old(s).is_timeline && final(s).semaphore == old(s).semaphore,
{
}

/// A semaphore is exported, and a sync file had of it, exactly where the device has the function for
/// it. What the export came to is handed on.
pub proof fn law_export_hands_on(
    s: ExportSemaphore,
    function_loaded: bool,
    r: Result<u64, BridgeError>,
    fd: Result<i32, i32>,
    exported: Result<i32, BridgeError>,
)
    requires
        call_ensures(ExportSemaphore::export_sync_fd, (&s, function_loaded), r),
        call_ensures(ExportSemaphore::sync_fd_exported, (fd,), exported),
    ensures
        r is Ok <==> function_loaded,
        r matches Ok(semaphore) ==> semaphore == s.semaphore,
        r matches Err(e) ==> e@ is Sync,
        exported is Ok <==> fd is Ok,
        exported matches Ok(file) ==> fd == Ok::<i32, i32>(file),
{
}

/// A timeline semaphore is waited for at the value of its own point and for the given time. A binary
/// one cannot be waited for in this way.
pub proof fn law_wait_for_own_point(
    manager: SyncManager,
    s: ImportedSemaphore,
    timeout_ns: u64,
    r: Result<TimelineWait, BridgeError>,
    waited: Result<(), i32>,
    ended: Result<(), BridgeError>,
)
    requires
        call_ensures(SyncManager::wait_semaphore_cpu, (&manager, &s, timeout_ns), r),
        call_ensures(SyncManager::semaphore_waited, (waited,), ended),
    ensures
        r is Ok <==> s.sync_point.is_timeline,
        r matches Ok(wait) ==> wait.semaphore == s.semaphore && wait.value
            == s.sync_point.timeline_value && wait.timeout_ns == timeout_ns,
        ended is Ok <==> waited is Ok,
{
}

/// A sync file is ready if and only if the poll reported something and the lowest event bit is among
/// it. A poll that found nothing is no error, and only a negative result is one.
pub proof fn law_ready_by_event(reply: PollReply, os_error: &str, r: Result<bool, BridgeError>)
    requires
        call_ensures(SyncManager::wait_sync_fd, (reply, os_error), r),
    ensures
        r is Err <==> reply.result < 0,
        reply.result == 0 ==> r == Ok::<bool, BridgeError>(false),
        reply.result > 0 ==> r == Ok::<bool, BridgeError>(reply.revents & 0x1 == 0x1),
{
    let revents = reply.revents;
    assert(revents & 0x1i16 != 0 <==> revents & 0x1i16 == 0x1) by (bit_vector);
}

/// The semaphores to destroy with a manager are none of the pending ones: there are none at all.
pub proof fn law_pending_are_not_owned(manager: SyncManager, owned: Vec<u64>, pending: &Vec<u64>)
    requires
        call_ensures(SyncManager::owned_semaphores, (&manager,), owned),
        call_ensures(SyncManager::pending_signals, (&manager,), pending),
    ensures
        owned@.len() == 0,
        pending@ == manager@.pending,
{
}

/// A device of which nothing is known has no explicit sync.
pub proof fn law_no_sync_by_default(c: SyncCapabilities, r: bool)
    requires
        call_ensures(<SyncCapabilities as Default>::default, (), c),
        call_ensures(SyncCapabilities::is_supported, (&c,), r),
    ensures
        !r,
        !c.timeline_semaphore && !c.can_export_sync_fd && !c.can_import_sync_fd,
        !c.can_import_opaque_fd && !c.can_export_opaque_fd,
{
}

/// The errors of a device without the functions for file descriptors, of a wait that failed, and of an
/// import or an export that failed all say so as errors of synchronization, with the code that came.
pub proof fn law_sync_errors(
    code: i32,
    waited: Result<(), BridgeError>,
    created: Result<u64, BridgeError>,
    exported: Result<i32, BridgeError>,
    reply: PollReply,
    os_error: &str,
    polled: Result<bool, BridgeError>,
    s: ExportSemaphore,
    unloaded: Result<u64, BridgeError>,
)
    requires
        reply.result < 0,
        call_ensures(SyncManager::semaphore_waited, (Err::<(), i32>(code),), waited),
        call_ensures(SyncManager::semaphore_created, (Err::<u64, i32>(code),), created),
        call_ensures(ExportSemaphore::sync_fd_exported, (Err::<i32, i32>(code),), exported),
        call_ensures(SyncManager::wait_sync_fd, (reply, os_error), polled),
        call_ensures(ExportSemaphore::export_sync_fd, (&s, false), unloaded),
    ensures
        waited matches Err(e) && e@ == BridgeErrorView::Sync(
            "timeline semaphore wait failed: "@ + vk_result_debug(code),
        ),
        created matches Err(e) && e@ == BridgeErrorView::Sync(
            "failed to create semaphore: "@ + vk_result_debug(code),
        ),
        exported matches Err(e) && e@ == BridgeErrorView::Sync(
            "failed to export sync fd: "@ + vk_result_debug(code),
        ),
        polled matches Err(e) && e@ == BridgeErrorView::Sync("poll() failed: "@ + os_error@),
        unloaded matches Err(e) && e@ == BridgeErrorView::Sync(
            "VK_KHR_external_semaphore_fd extension not enabled on device"@,
        ),
{
}

/// What is told of a semaphore is what it holds.
pub proof fn law_semaphores_tell(
    imported: ImportedSemaphore,
    handle: u64,
    point: &SyncPoint,
    exportable: ExportSemaphore,
    raw: u64,
    value: u64,
)
    requires
        call_ensures(ImportedSemaphore::raw, (&imported,), handle),
        call_ensures(ImportedSemaphore::sync_point, (&imported,), point),
        call_ensures(ExportSemaphore::raw, (&exportable,), raw),
        call_ensures(ExportSemaphore::current_value, (&exportable,), value),
    ensures
        handle == imported.semaphore && *point == imported.sync_point,
        raw == exportable.semaphore && value == exportable.timeline_value,
{
}

} // verus!
