//! Explicit sync: capabilities, semaphores and the manager.

use ash::vk;
use lamco_wgpu::error::BridgeError;
use lamco_wgpu::sync::{
    ExportSemaphore, ImportedSemaphore, PollReply, SemaphoreSource, SyncCapabilities, SyncManager,
    SyncPoint, POLL_IN,
};

#[test]
fn test_sync_point_binary() {
    let sp = SyncPoint::binary();
    assert_eq!(sp.timeline_value, 0);
    assert!(!sp.is_timeline);
}

#[test]
fn test_sync_point_timeline() {
    let sp = SyncPoint::timeline(42);
    assert_eq!(sp.timeline_value, 42);
    assert!(sp.is_timeline);
}

#[test]
fn sync_test_capabilities_default() {
    let caps = SyncCapabilities::default();
    assert!(!caps.is_supported());
}

#[test]
fn test_sync_point_creation() {
    let binary = SyncPoint::binary();
    assert_eq!(binary.timeline_value, 0);
    assert!(!binary.is_timeline);

    let timeline = SyncPoint::timeline(42);
    assert_eq!(timeline.timeline_value, 42);
    assert!(timeline.is_timeline);

    let timeline_zero = SyncPoint::timeline(0);
    assert_eq!(timeline_zero.timeline_value, 0);
    assert!(timeline_zero.is_timeline);
}

#[test]
fn test_sync_capabilities_query() {
    let caps = SyncCapabilities::default();
    assert!(!caps.can_export_sync_fd);
    println!("Sync capabilities (default): {:?}", caps);
}

#[test]
fn test_sync_fd_api_pattern() {
    println!("Sync FD Export API Pattern:");
    println!("1. FrameSyncManager::new(instance, device, capabilities)");
    println!("2. let (timeline_point, semaphore) = manager.allocate_frame_sync()");
    println!("3. Submit GPU work signaling the semaphore at timeline_point");
    println!("4. let sync_fd = manager.export_sync_fd(timeline_point)");
    println!("5. Pass sync_fd to Wayland linux-drm-syncobj-v1 protocol");
}

fn all_extensions() -> Vec<String> {
    vec![
        "VK_KHR_external_semaphore".to_string(),
        "VK_KHR_external_semaphore_fd".to_string(),
        "VK_KHR_timeline_semaphore".to_string(),
    ]
}

fn both_features() -> u32 {
    (vk::ExternalSemaphoreFeatureFlags::IMPORTABLE | vk::ExternalSemaphoreFeatureFlags::EXPORTABLE)
        .as_raw()
}

#[test]
fn sync_capabilities_of_a_device() {
    let names = all_extensions();
    let caps = SyncCapabilities::query(Some(&names), 0, both_features(), 0);
    assert!(caps.external_semaphore);
    assert!(caps.external_semaphore_fd);
    assert!(caps.timeline_semaphore);
    assert!(caps.can_import_sync_fd);
    assert!(caps.can_export_sync_fd);
    assert!(!caps.can_import_opaque_fd);
    assert!(!caps.can_export_opaque_fd);
    assert!(caps.is_supported());

    let importable = vk::ExternalSemaphoreFeatureFlags::IMPORTABLE.as_raw();
    let exportable = vk::ExternalSemaphoreFeatureFlags::EXPORTABLE.as_raw();
    let caps = SyncCapabilities::query(Some(&names), 0, importable, exportable);
    assert!(caps.can_import_sync_fd && !caps.can_export_sync_fd);
    assert!(!caps.can_import_opaque_fd && caps.can_export_opaque_fd);
}

#[test]
fn sync_capabilities_need_the_fd_extension() {
    let names = vec!["VK_KHR_external_semaphore".to_string()];
    let caps = SyncCapabilities::query(Some(&names), 0, both_features(), both_features());
    assert!(caps.external_semaphore);
    assert!(!caps.external_semaphore_fd);
    assert!(!caps.can_import_sync_fd && !caps.can_export_opaque_fd);
    assert!(!caps.is_supported());
    assert!(!SyncCapabilities::takes_semaphore_fds(Some(&names)));
    assert!(SyncCapabilities::takes_semaphore_fds(Some(&all_extensions())));
    assert!(!SyncCapabilities::takes_semaphore_fds(None));
    assert_eq!(
        SyncCapabilities::query(None, u32::MAX, both_features(), both_features()),
        SyncCapabilities::default()
    );
}

#[test]
fn timeline_semaphores_by_version() {
    let none = vec![];
    let version = vk::make_api_version(0, 1, 2, 0);
    assert!(SyncCapabilities::query(Some(&none), version, 0, 0).timeline_semaphore);
    assert!(!SyncCapabilities::query(Some(&none), version - 1, 0, 0).timeline_semaphore);
}

fn manager() -> SyncManager {
    let caps = SyncCapabilities::query(Some(&all_extensions()), 0, both_features(), 0);
    SyncManager::new(caps).unwrap()
}

#[test]
fn test_explicit_sync_manager_creation() {
    let manager = manager();
    assert!(manager.capabilities().is_supported());
    assert_eq!(manager.stats(), (0, 0, 0, 0, 0));
    assert!(manager.pending_signals().is_empty());
    assert!(manager.owned_semaphores().is_empty());
    match SyncManager::new(SyncCapabilities::default()) {
        Err(BridgeError::Sync(text)) => assert_eq!(
            text,
            "Explicit sync not supported: missing external semaphore extensions"
        ),
        other => panic!("unexpected {:?}", other),
    }
}

#[test]
fn import_creates_a_semaphore() {
    let mut manager = manager();
    let point = SyncPoint::timeline(3);
    let request = match manager.import_sync_fd(true, &point).unwrap() {
        SemaphoreSource::Create(request) => request,
        other => panic!("unexpected {:?}", other),
    };
    assert!(request.timeline);
    assert!(!request.export_sync_fd);
    let semaphore = SyncManager::semaphore_created(Ok(77)).unwrap();
    let imported = manager.sync_fd_imported(semaphore, 5, point, Ok(())).unwrap();
    assert_eq!(imported.raw(), 77);
    assert_eq!(imported.sync_point().timeline_value, 3);
    assert_eq!(imported.source_fd, Some(5));
    assert_eq!(manager.stats(), (1, 0, 0, 0, 1));
}

#[test]
fn failed_imports() {
    let mut manager = manager();
    match manager.import_sync_fd(false, &SyncPoint::binary()) {
        Err(BridgeError::Sync(text)) => {
            assert_eq!(text, "VK_KHR_external_semaphore_fd extension not enabled on device")
        }
        other => panic!("unexpected {:?}", other),
    }
    assert_eq!(manager.stats(), (0, 0, 0, 0, 0));
    match SyncManager::semaphore_created(Err(-1)) {
        Err(BridgeError::Sync(text)) => {
            assert_eq!(text, "failed to create semaphore: ERROR_OUT_OF_HOST_MEMORY")
        }
        other => panic!("unexpected {:?}", other),
    }
    match manager.sync_fd_imported(77, 5, SyncPoint::binary(), Err(-1)) {
        Err(BridgeError::Sync(text)) => {
            assert_eq!(text, "failed to import sync fd: ERROR_OUT_OF_HOST_MEMORY")
        }
        other => panic!("unexpected {:?}", other),
    }
    assert_eq!(manager.stats().0, 0);
}

#[test]
fn test_binary_semaphore_signal_flow() {
    let mut manager = manager();
    let request = manager.create_exportable_semaphore(false);
    assert!(!request.timeline);
    assert!(request.export_sync_fd);
    let semaphore = SyncManager::exportable_semaphore_created(false, Ok(9)).unwrap();
    let signal = manager.register_signal_semaphore_binary(true, semaphore.raw()).unwrap();
    assert_eq!(signal.semaphore, 9);
    assert_eq!(signal.value, None);
    let (_, _, signaled, _, _) = manager.stats();
    assert_eq!(signaled, 1, "Should have one signaled semaphore");
    assert_eq!(manager.pending_signals(), &vec![9]);
}

#[test]
fn test_timeline_semaphore_signal_flow() {
    let mut manager = manager();
    assert!(manager.create_exportable_semaphore(true).timeline);
    let mut semaphore = SyncManager::exportable_semaphore_created(true, Ok(9)).unwrap();
    assert_eq!(semaphore.current_value(), 0);
    let value = semaphore.next_signal_value();
    assert_eq!(value, 1);
    let signal =
        manager.register_signal_semaphore_timeline(true, semaphore.raw(), value).unwrap();
    assert_eq!(signal.value, Some(1));
    let (_, _, signaled, _, _) = manager.stats();
    assert_eq!(signaled, 1, "Should have one signaled semaphore");
    assert_eq!(semaphore.next_signal_value(), 2);
    assert_eq!(semaphore.current_value(), 2);
}

#[test]
fn test_semaphore_pool_reuse() {
    let mut manager = manager();
    for i in 0..3 {
        manager.register_signal_semaphore_binary(true, i).unwrap();
    }
    manager.clear_pending_signals();
    assert!(manager.pending_signals().is_empty());
    for i in 3..5 {
        manager.register_signal_semaphore_binary(true, i).unwrap();
    }
    let (_, _, signaled, hits, _) = manager.stats();
    assert_eq!(signaled, 5, "Should have 5 total signaled semaphores");
    assert_eq!(hits, 0);
    assert_eq!(manager.pending_signals(), &vec![3, 4]);
    assert!(manager.owned_semaphores().is_empty());
}

#[test]
fn registration_needs_a_vulkan_queue() {
    let mut manager = manager();
    match manager.register_signal_semaphore_binary(false, 1) {
        Err(BridgeError::Sync(text)) => assert_eq!(text, "Failed to access Vulkan queue"),
        other => panic!("unexpected {:?}", other),
    }
    match manager.register_signal_semaphore_timeline(false, 1, 2) {
        Err(BridgeError::Sync(text)) => assert_eq!(text, "Failed to access Vulkan queue"),
        other => panic!("unexpected {:?}", other),
    }
    assert_eq!(manager.stats().2, 0);
    assert!(manager.pending_signals().is_empty());
}

#[test]
fn binary_semaphores_have_no_values() {
    let mut semaphore = SyncManager::exportable_semaphore_created(false, Ok(9)).unwrap();
    assert_eq!(semaphore.next_signal_value(), 0);
    assert_eq!(semaphore.next_signal_value(), 0);
    assert_eq!(semaphore.current_value(), 0);
}

#[test]
fn exported_sync_fd() {
    let semaphore = ExportSemaphore { semaphore: 9, is_timeline: false, timeline_value: 0 };
    assert_eq!(semaphore.export_sync_fd(true).unwrap(), 9);
    match semaphore.export_sync_fd(false) {
        Err(BridgeError::Sync(text)) => {
            assert_eq!(text, "VK_KHR_external_semaphore_fd extension not enabled on device")
        }
        other => panic!("unexpected {:?}", other),
    }
    assert_eq!(ExportSemaphore::sync_fd_exported(Ok(4)).unwrap(), 4);
    match ExportSemaphore::sync_fd_exported(Err(-4)) {
        Err(BridgeError::Sync(text)) => {
            assert_eq!(text, "failed to export sync fd: ERROR_DEVICE_LOST")
        }
        other => panic!("unexpected {:?}", other),
    }
    match SyncManager::exportable_semaphore_created(true, Err(-4)) {
        Err(BridgeError::Sync(text)) => {
            assert_eq!(text, "failed to create semaphore: ERROR_DEVICE_LOST")
        }
        other => panic!("unexpected {:?}", other),
    }
}

#[test]
fn cpu_wait_needs_a_timeline() {
    let manager = manager();
    let timeline =
        ImportedSemaphore { semaphore: 1, sync_point: SyncPoint::timeline(8), source_fd: None };
    let wait = manager.wait_semaphore_cpu(&timeline, 500).unwrap();
    assert_eq!((wait.semaphore, wait.value, wait.timeout_ns), (1, 8, 500));
    let binary =
        ImportedSemaphore { semaphore: 1, sync_point: SyncPoint::binary(), source_fd: None };
    match manager.wait_semaphore_cpu(&binary, 500) {
        Err(BridgeError::Sync(text)) => {
            assert_eq!(text, "CPU wait on binary semaphore requires sync_file fd polling")
        }
        other => panic!("unexpected {:?}", other),
    }
    assert!(SyncManager::semaphore_waited(Ok(())).is_ok());
    match SyncManager::semaphore_waited(Err(vk::Result::TIMEOUT.as_raw())) {
        Err(BridgeError::Sync(text)) => {
            assert_eq!(text, "timeline semaphore wait failed: TIMEOUT")
        }
        other => panic!("unexpected {:?}", other),
    }
}

#[test]
fn test_wait_sync_fd_timeout() {
    let result = SyncManager::wait_sync_fd(PollReply { result: 0, revents: 0 }, "");
    assert!(result.is_ok());
    assert!(!result.unwrap()); // Should return false (timeout)
}

#[test]
fn test_eventfd_poll_signaled() {
    assert_eq!(POLL_IN, libc::POLLIN);
    let result = SyncManager::wait_sync_fd(PollReply { result: 1, revents: libc::POLLIN }, "");
    assert!(result.unwrap(), "Signaled eventfd should be ready");
}

#[test]
fn poll_of_another_event_or_an_error() {
    let hung_up = PollReply { result: 1, revents: libc::POLLHUP };
    assert!(!SyncManager::wait_sync_fd(hung_up, "").unwrap());
    let negative = PollReply { result: 1, revents: -1 };
    assert!(SyncManager::wait_sync_fd(negative, "").unwrap());
    match SyncManager::wait_sync_fd(PollReply { result: -1, revents: 0 }, "Bad fd") {
        Err(BridgeError::Sync(text)) => assert_eq!(text, "poll() failed: Bad fd"),
        other => panic!("unexpected {:?}", other),
    }
}
