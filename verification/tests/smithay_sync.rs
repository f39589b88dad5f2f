//! Acquire and release points.

use lamco_wgpu::error::BridgeError;
use lamco_wgpu::smithay_sync::{
    AcquireStep, DrmSyncPoint, ReleasePoll, ReleaseStep, SurfaceSync, SyncBridge, SyncProcessor,
    SyncSurface,
};
use lamco_wgpu::sync::{PollReply, SyncCapabilities, SyncManager};

fn manager(can_export: bool) -> SyncManager {
    SyncManager::new(SyncCapabilities {
        external_semaphore: true,
        external_semaphore_fd: true,
        timeline_semaphore: true,
        can_import_sync_fd: true,
        can_export_sync_fd: can_export,
        can_import_opaque_fd: false,
        can_export_opaque_fd: false,
    })
    .unwrap()
}

#[test]
fn test_sync_bridge_creation() {
    let manager = manager(true);
    let bridge = SyncBridge::new(&manager);
    assert!(bridge.prepare_release_signal().is_ok());
}

#[test]
fn acquire_point_that_needs_no_wait() {
    let bridge = SyncBridge::new(&manager(true));
    assert_eq!(bridge.wait_acquire_point(true, 0), AcquireStep::Done(true));
    assert_eq!(bridge.wait_acquire_point(true, 10), AcquireStep::Done(true));
    assert_eq!(bridge.wait_acquire_point(false, 0), AcquireStep::Done(false));
    assert_eq!(bridge.wait_acquire_point_gpu(true), AcquireStep::Done(true));
}

#[test]
fn acquire_point_that_is_polled() {
    let bridge = SyncBridge::new(&manager(true));
    let wait = match bridge.wait_acquire_point(false, 10) {
        AcquireStep::Export(wait) => wait,
        other => panic!("unexpected {:?}", other),
    };
    assert_eq!(wait.timeout_ms, 10);
    assert_eq!(wait.exported(Ok(3)).unwrap(), 3);
    assert!(wait.polled(PollReply { result: 1, revents: libc::POLLIN }, "").unwrap());
    assert!(!wait.polled(PollReply { result: 0, revents: 0 }, "").unwrap());
    assert!(wait.polled(PollReply { result: -1, revents: 0 }, "x").is_err());
    match wait.exported(Err("gone".to_string())) {
        Err(BridgeError::Sync(text)) => {
            assert_eq!(text, "failed to export acquire sync_file: gone")
        }
        other => panic!("unexpected {:?}", other),
    }
}

#[test]
fn acquire_timeouts() {
    let bridge = SyncBridge::new(&manager(true));
    match bridge.wait_acquire_point_gpu(false) {
        AcquireStep::Export(wait) => assert_eq!(wait.timeout_ms, 5000),
        other => panic!("unexpected {:?}", other),
    }
    match bridge.wait_acquire_point(false, u32::MAX) {
        AcquireStep::Export(wait) => assert_eq!(wait.timeout_ms, i32::MAX),
        other => panic!("unexpected {:?}", other),
    }
    assert!(SyncBridge::gpu_wait_done(Ok(true)).is_ok());
    assert!(SyncBridge::gpu_wait_done(Ok(false)).is_ok());
    assert!(SyncBridge::gpu_wait_done(Err(BridgeError::Sync("x".to_string()))).is_err());
}

#[test]
fn release_needs_sync_fd_export() {
    let bridge = SyncBridge::new(&manager(false));
    match bridge.prepare_release_signal() {
        Err(BridgeError::Sync(text)) => {
            assert_eq!(text, "SYNC_FD export not supported, cannot signal release points")
        }
        other => panic!("unexpected {:?}", other),
    }
}

#[test]
fn release_signal_runs_through() {
    let mut manager = manager(true);
    let bridge = SyncBridge::new(&manager);
    let request = bridge.prepare_release_signal().unwrap();
    assert!(!request.timeline);
    assert!(request.export_sync_fd);
    let pending = SyncBridge::release_semaphore_created(Ok(8)).unwrap();
    assert_eq!(pending.raw_semaphore(), 8);
    manager.register_signal_semaphore_binary(true, pending.raw_semaphore()).unwrap();
    assert_eq!(manager.pending_signals(), &vec![8]);

    let export = bridge.complete_release_signal(&pending, true).unwrap();
    assert_eq!(export.semaphore, 8);
    let first = export.exported(Ok(4)).unwrap();
    assert_eq!(first, ReleasePoll { fd: 4, timeout_ms: 0, last: false });
    let ready = PollReply { result: 1, revents: libc::POLLIN };
    assert_eq!(first.polled(ready, "").unwrap(), ReleaseStep::Signal);
    assert!(SyncBridge::release_signaled(Ok(())).is_ok());
}

#[test]
fn late_release_is_polled_once_more() {
    let first = ReleasePoll { fd: 4, timeout_ms: 0, last: false };
    let late = PollReply { result: 0, revents: 0 };
    let second = match first.polled(late, "").unwrap() {
        ReleaseStep::Poll(second) => second,
        other => panic!("unexpected {:?}", other),
    };
    assert_eq!(second, ReleasePoll { fd: 4, timeout_ms: 1000, last: true });
    let ready = PollReply { result: 1, revents: libc::POLLIN };
    assert_eq!(second.polled(ready, "").unwrap(), ReleaseStep::Signal);
    match second.polled(late, "") {
        Err(BridgeError::Sync(text)) => {
            assert_eq!(text, "Release semaphore not signaled after device poll")
        }
        other => panic!("unexpected {:?}", other),
    }
    match second.polled(PollReply { result: -1, revents: 0 }, "closed") {
        Err(BridgeError::Sync(text)) => assert_eq!(text, "poll() failed: closed"),
        other => panic!("unexpected {:?}", other),
    }
}

#[test]
fn failed_releases() {
    let bridge = SyncBridge::new(&manager(true));
    match SyncBridge::release_semaphore_created(Err(-4)) {
        Err(BridgeError::Sync(text)) => {
            assert_eq!(text, "failed to create semaphore: ERROR_DEVICE_LOST")
        }
        other => panic!("unexpected {:?}", other),
    }
    let pending = SyncBridge::release_semaphore_created(Ok(8)).unwrap();
    assert!(bridge.complete_release_signal(&pending, false).is_err());
    let export = bridge.complete_release_signal(&pending, true).unwrap();
    match export.exported(Err(-4)) {
        Err(BridgeError::Sync(text)) => {
            assert_eq!(text, "failed to export sync fd: ERROR_DEVICE_LOST")
        }
        other => panic!("unexpected {:?}", other),
    }
    match SyncBridge::release_signaled(Err("gone".to_string())) {
        Err(BridgeError::Sync(text)) => {
            assert_eq!(text, "failed to signal release point: gone")
        }
        other => panic!("unexpected {:?}", other),
    }
}

fn point(n: u64) -> DrmSyncPoint {
    DrmSyncPoint { timeline: 1, point: n }
}

fn surfaces() -> Vec<SurfaceSync> {
    vec![
        SurfaceSync { acquire_point: Some(point(1)), release_point: Some(point(2)) },
        SurfaceSync { acquire_point: None, release_point: Some(point(3)) },
        SurfaceSync { acquire_point: Some(point(4)), release_point: None },
    ]
}

#[test]
fn surfaces_with_both_points_use_explicit_sync() {
    let uses: Vec<bool> = surfaces().iter().map(|s| s.uses_explicit_sync()).collect();
    assert_eq!(uses, vec![true, false, false]);
}

#[test]
fn all_acquires_are_waited_for() {
    let processor = SyncProcessor::new(&manager(true));
    let mut queue = processor.wait_all_acquires(&surfaces());
    assert_eq!(queue.next_point(), Some(point(1)));
    queue.point_waited(Ok(true)).unwrap();
    assert_eq!(queue.next_point(), Some(point(4)));
    match queue.point_waited(Ok(false)) {
        Err(BridgeError::Sync(text)) => assert_eq!(text, "Wait timed out"),
        other => panic!("unexpected {:?}", other),
    }
    assert_eq!(queue.waited(), 1);
    assert_eq!(queue.next_point(), Some(point(4)));
    queue.point_waited(Ok(true)).unwrap();
    assert_eq!(queue.next_point(), None);
    assert_eq!(queue.waited(), 2);
}

#[test]
fn an_error_ends_the_waiting() {
    let processor = SyncProcessor::new(&manager(true));
    let mut queue = processor.wait_all_acquires(&surfaces());
    queue.point_waited(Ok(true)).unwrap();
    assert!(queue.point_waited(Err(BridgeError::Sync("x".to_string()))).is_err());
    assert_eq!(queue.waited(), 1);
    assert_eq!(queue.next_point(), Some(point(4)));
}

#[test]
fn releases_are_completed_in_order() {
    let mut processor = SyncProcessor::new(&manager(true));
    let points = processor.prepare_all_releases(&surfaces());
    assert_eq!(points, vec![point(2), point(3)]);
    for (i, point) in points.iter().enumerate() {
        let signal = SyncBridge::release_semaphore_created(Ok(10 + i as u64));
        processor.release_prepared(signal, *point).unwrap();
    }
    let failed = SyncBridge::release_semaphore_created(Err(-4));
    assert!(processor.release_prepared(failed, point(9)).is_err());
    let mut queue = processor.complete_all_releases();
    let mut pairs: Vec<(u64, u64)> = Vec::new();
    while let Some((signal, point)) = queue.next_release() {
        pairs.push((signal.raw_semaphore(), point.point));
        queue.release_completed(Ok(())).unwrap();
    }
    assert_eq!(pairs, vec![(10, 2), (11, 3)]);
    assert_eq!(queue.signaled(), 2);
    assert!(processor.complete_all_releases().next_release().is_none());
    assert!(processor.bridge().prepare_release_signal().is_ok());
}

#[test]
fn an_error_ends_the_releases() {
    let mut processor = SyncProcessor::new(&manager(true));
    for n in 0..3 {
        let signal = SyncBridge::release_semaphore_created(Ok(10 + n));
        processor.release_prepared(signal, point(n)).unwrap();
    }
    let mut queue = processor.complete_all_releases();
    queue.release_completed(Ok(())).unwrap();
    assert_eq!(queue.next_release().unwrap().1, point(1));
    match queue.release_completed(Err(BridgeError::Sync("x".to_string()))) {
        Err(BridgeError::Sync(text)) => assert_eq!(text, "x"),
        other => panic!("unexpected {:?}", other),
    }
    assert!(queue.next_release().is_none());
    assert_eq!(queue.signaled(), 1);
    assert!(processor.complete_all_releases().next_release().is_none());
}
