//! Integration of the sync manager with the points of DRM syncobj timelines.
//!
//! A surface with explicit sync has an acquire point, which is waited for before its buffer is
//! read, and a release point, which is signaled when the buffer is no longer in use. The steps
//! stand here as values: each says what to do next, and takes what came of it.
use crate::error::{BridgeError, BridgeErrorView};
use crate::sync::{ExportSemaphore, PollReply, SemaphoreRequest, SyncCapabilities, SyncManager};
use crate::text::joined;
use vstd::prelude::*;
use vstd::string::*;

verus! {

/// The time for which an acquire point is waited for on behalf of the GPU, in milliseconds.
pub const GPU_WAIT_TIMEOUT_MS: u32 = 5000;

/// The time for which a release semaphore that was late is waited for, in milliseconds.
pub const LATE_RELEASE_TIMEOUT_MS: i32 = 1000;

/// A point of a DRM syncobj timeline.
#[derive(Clone, Copy, Debug, PartialEq, Eq, Structural)]
pub struct DrmSyncPoint {
    /// The timeline
    pub timeline: u64,
    /// The point on it
    pub point: u64,
}

/// What to do about an acquire point.
#[derive(Clone, Copy, Debug, PartialEq, Eq, Structural)]
pub enum AcquireStep {
    /// Nothing: it is known whether the point is signaled.
    Done(bool),
    /// Export the point as a sync file and go on with the wait.
    Export(AcquireWait),
}

/// An acquire point that is exported as a sync file and then polled.
#[derive(Clone, Copy, Debug, PartialEq, Eq, Structural)]
pub struct AcquireWait {
    /// The timeout of the poll, in milliseconds.
    pub timeout_ms: i32,
}

/// A release semaphore that is exported as a sync file.
#[derive(Clone, Copy, Debug, PartialEq, Eq, Structural)]
pub struct ReleaseExport {
    /// The semaphore.
    pub semaphore: u64,
}

/// The sync file of a release semaphore that is polled.
#[derive(Clone, Copy, Debug, PartialEq, Eq, Structural)]
pub struct ReleasePoll {
    /// The sync file.
    pub fd: i32,
    /// The timeout of the poll, in milliseconds.
    pub timeout_ms: i32,
    /// Whether this is the last poll.
    pub last: bool,
}

/// What to do next about a release point.
#[derive(Clone, Copy, Debug, PartialEq, Eq, Structural)]
pub enum ReleaseStep {
    /// Poll the sync file.
    Poll(ReleasePoll),
    /// Signal the release point.
    Signal,
}

/// Bridge between points of DRM syncobj timelines and the sync manager.
#[derive(Clone, Copy, Debug)]
pub struct SyncBridge {
    /// The capabilities of the manager
    capabilities: SyncCapabilities,
}

/// A pending release signal that needs to be completed after the GPU work was submitted.
#[derive(Debug)]
pub struct PendingReleaseSignal {
    /// The semaphore that the GPU signals.
    pub semaphore: ExportSemaphore,
}

impl PendingReleaseSignal {
    /// The raw handle of the semaphore.
    pub fn raw_semaphore(&self) -> (r: u64)
        ensures
            r == self.semaphore.semaphore,
    {
        self.semaphore.raw()
    }
}

impl AcquireWait {
    /// Go on with the exported sync file, or with a text that says why there is none.
    pub fn exported(self, export: Result<i32, String>) -> (r: Result<i32, BridgeError>)
        ensures
            match export {
                Ok(fd) => r == Ok::<i32, BridgeError>(fd),
                Err(text) => r matches Err(e) && e@ == BridgeErrorView::Sync(
                    "failed to export acquire sync_file: "@ + text@,
                ),
            },
    {
        match export {
            Ok(fd) => Ok(fd),
            Err(text) => Err(
                BridgeError::Sync(joined("failed to export acquire sync_file: ", text.as_str())),
            ),
        }
    }

    /// Finish with what the poll of the sync file came to: whether the point is signaled.
    pub fn polled(self, reply: PollReply, os_error: &str) -> (r: Result<bool, BridgeError>)
        ensures
            match r {
                Ok(ready) => reply.result >= 0 && ready == (reply.result > 0 && reply.revents
                    & crate::sync::POLL_IN != 0),
                Err(e) => reply.result < 0 && e@ == BridgeErrorView::Sync(
                    "poll() failed: "@ + os_error@,
                ),
            },
    {
        SyncManager::wait_sync_fd(reply, os_error)
    }
}

impl ReleaseExport {
    /// Go on with the exported sync file, or with the code of why there is none. The sync file is
    /// polled without waiting at first.
    pub fn exported(self, fd: Result<i32, i32>) -> (r: Result<ReleasePoll, BridgeError>)
        ensures
            match fd {
                Ok(fd) => r == Ok::<ReleasePoll, BridgeError>(
                    ReleasePoll { fd, timeout_ms: 0, last: false },
                ),
                Err(code) => r matches Err(e) && e@ == BridgeErrorView::Sync(
                    "failed to export sync fd: "@ + crate::text::vk_result_debug(code),
                ),
            },
    {
        match ExportSemaphore::sync_fd_exported(fd) {
            Ok(fd) => Ok(ReleasePoll { fd, timeout_ms: 0, last: false }),
            Err(e) => Err(e),
        }
    }
}

impl ReleasePoll {
    /// What to do after a poll that did not fail: the point is signaled where the semaphore is
    /// ready, and a semaphore that is late is polled once more, with patience. `None` where it was
    /// not ready then either: the point must not be signaled before the work is complete.
    pub open spec fn next_step(self, ready: bool) -> Option<ReleaseStep> {
        if ready {
            Some(ReleaseStep::Signal)
        } else if self.last {
            None
        } else {
            Some(
                ReleaseStep::Poll(
                    ReleasePoll { fd: self.fd, timeout_ms: LATE_RELEASE_TIMEOUT_MS, last: true },
                ),
            )
        }
    }

    /// Go on with what the poll of the sync file came to. It fails where the poll failed, and where
    /// the semaphore was not ready at the last poll.
    pub fn polled(self, reply: PollReply, os_error: &str) -> (r: Result<ReleaseStep, BridgeError>)
        ensures
            match r {
                Ok(step) => reply.result >= 0 && self.next_step(
                    reply.result > 0 && reply.revents & crate::sync::POLL_IN != 0,
                ) == Some(step),
                Err(e) => if reply.result < 0 {
                    e@ == BridgeErrorView::Sync("poll() failed: "@ + os_error@)
                } else {
                    self.next_step(
                        reply.result > 0 && reply.revents & crate::sync::POLL_IN != 0,
                    ) is None && e@ == BridgeErrorView::Sync(
                        "Release semaphore not signaled after device poll"@,
                    )
                },
            },
    {
        match SyncManager::wait_sync_fd(reply, os_error) {
            Ok(ready) => if ready {
                Ok(ReleaseStep::Signal)
            } else if self.last {
                Err(
                    BridgeError::Sync(
                        "Release semaphore not signaled after device poll".to_owned(),
                    ),
                )
            } else {
                Ok(
                    ReleaseStep::Poll(
                        ReleasePoll {
                            fd: self.fd,
                            timeout_ms: LATE_RELEASE_TIMEOUT_MS,
                            last: true,
                        },
                    ),
                )
            },
            Err(e) => Err(e),
        }
    }
}

impl SyncBridge {
    /// The capabilities of the manager.
    pub closed spec fn caps(self) -> SyncCapabilities {
        self.capabilities
    }

    /// Create a new bridge with the given manager.
    pub fn new(manager: &SyncManager) -> (r: SyncBridge)
        ensures
            r.caps() == manager@.capabilities,
    {
        SyncBridge { capabilities: *manager.capabilities() }
    }

    /// What to do about an acquire point: nothing where it is signaled or not to be waited for.
    /// Else it is exported and polled for the given time, or for as long as `poll` can count.
    pub open spec fn spec_acquire(signaled: bool, timeout_ms: u32) -> AcquireStep {
        if signaled {
            AcquireStep::Done(true)
        } else if timeout_ms == 0 {
            AcquireStep::Done(false)
        } else {
            AcquireStep::Export(
                AcquireWait {
                    timeout_ms: if timeout_ms <= i32::MAX {
                        timeout_ms as i32
                    } else {
                        i32::MAX
                    },
                },
            )
        }
    }

    /// Wait for an acquire point before accessing a buffer. A timeout of 0 only checks whether the
    /// point is signaled.
    ///
    /// A timeout beyond the range of `poll` is cut to the longest one, so that `poll` never waits
    /// without limit.
    pub fn wait_acquire_point(&self, signaled: bool, timeout_ms: u32) -> (r: AcquireStep)
        ensures
            r == Self::spec_acquire(signaled, timeout_ms),
    {
        if signaled {
            return AcquireStep::Done(true);
        }
        if timeout_ms == 0 {
            return AcquireStep::Done(false);
        }
        let limit: u32 = i32::MAX as u32;
        let timeout: i32 = if timeout_ms <= limit {
            timeout_ms as i32
        } else {
            i32::MAX
        };
        AcquireStep::Export(AcquireWait { timeout_ms: timeout })
    }

    /// Wait for an acquire point on behalf of the GPU, for five seconds.
    pub fn wait_acquire_point_gpu(&self, signaled: bool) -> (r: AcquireStep)
        ensures
            r == Self::spec_acquire(signaled, GPU_WAIT_TIMEOUT_MS),
    {
        self.wait_acquire_point(signaled, GPU_WAIT_TIMEOUT_MS)
    }

    /// Finish waiting on behalf of the GPU. Whether the point was signaled in time makes no
    /// difference: only a wait that failed ends with an error.
    pub fn gpu_wait_done(waited: Result<bool, BridgeError>) -> (r: Result<(), BridgeError>)
        ensures
            match waited {
                Ok(_) => r is Ok,
                Err(e) => r == Err::<(), BridgeError>(e),
            },
    {
        match waited {
            Ok(_) => Ok(()),
            Err(e) => Err(e),
        }
    }

    /// Prepare a release signal: the semaphore to create. This comes before the submit.
    pub fn prepare_release_signal(&self) -> (r: Result<SemaphoreRequest, BridgeError>)
        ensures
            match r {
                Ok(request) => self.caps().can_export_sync_fd && request
                    == self.caps().spec_semaphore(false, true),
                Err(e) => !self.caps().can_export_sync_fd && e@ == BridgeErrorView::Sync(
                    "SYNC_FD export not supported, cannot signal release points"@,
                ),
            },
    {
        if !self.capabilities.can_export_sync_fd {
            return Err(
                BridgeError::Sync(
                    "SYNC_FD export not supported, cannot signal release points".to_owned(),
                ),
            );
        }
        Ok(self.capabilities.semaphore(false, true))
    }

    /// Go on with the created semaphore, or with the code of why it could not be created. The
    /// semaphore is then registered with the manager.
    pub fn release_semaphore_created(semaphore: Result<u64, i32>) -> (r: Result<
        PendingReleaseSignal,
        BridgeError,
    >)
        ensures
            match semaphore {
                Ok(handle) => r == Ok::<PendingReleaseSignal, BridgeError>(
                    PendingReleaseSignal {
                        semaphore: ExportSemaphore {
                            semaphore: handle,
                            is_timeline: false,
                            timeline_value: 0,
                        },
                    },
                ),
                Err(code) => r matches Err(e) && e@ == BridgeErrorView::Sync(
                    "failed to create semaphore: "@ + crate::text::vk_result_debug(code),
                ),
            },
    {
        match SyncManager::exportable_semaphore_created(false, semaphore) {
            Ok(semaphore) => Ok(PendingReleaseSignal { semaphore }),
            Err(e) => Err(e),
        }
    }

    /// Complete the release signal: the semaphore to export, where the device has the function for
    /// it. This comes after the submit, when the device is idle.
    pub fn complete_release_signal(
        &self,
        pending: &PendingReleaseSignal,
        function_loaded: bool,
    ) -> (r: Result<ReleaseExport, BridgeError>)
        ensures
            match r {
                Ok(export) => function_loaded && export.semaphore == pending.semaphore.semaphore,
                Err(e) => !function_loaded && e@ == crate::sync::fd_extension_missing(),
            },
    {
        match pending.semaphore.export_sync_fd(function_loaded) {
            Ok(semaphore) => Ok(ReleaseExport { semaphore }),
            Err(e) => Err(e),
        }
    }

    /// Finish with the signaled release point, or with a text that says why it was not signaled.
    pub fn release_signaled(signaled: Result<(), String>) -> (r: Result<(), BridgeError>)
        ensures
            match signaled {
                Ok(_) => r is Ok,
                Err(text) => r matches Err(e) && e@ == BridgeErrorView::Sync(
                    "failed to signal release point: "@ + text@,
                ),
            },
    {
        match signaled {
            Ok(_) => Ok(()),
            Err(text) => Err(
                BridgeError::Sync(joined("failed to signal release point: ", text.as_str())),
            ),
        }
    }
}

/// Whether waiting for the next one of several acquire points ends so: well where the point is signaled, with an error
/// where the time was up, and with the error where waiting failed.
pub open spec fn wait_ended(outcome: Result<bool, BridgeError>, r: Result<(), BridgeError>) -> bool {
    match outcome {
        Ok(ready) => if ready {
            r is Ok
        } else {
            r matches Err(e) && e@ == BridgeErrorView::Sync("Wait timed out"@)
        },
        Err(e) => r == Err::<(), BridgeError>(e),
    }
}

/// End the wait for the next one of several acquire points.
fn end_wait(outcome: Result<bool, BridgeError>) -> (r: Result<(), BridgeError>)
    ensures
        wait_ended(outcome, r),
{
    match outcome {
        Ok(ready) => if ready {
            Ok(())
        } else {
            Err(BridgeError::Sync("Wait timed out".to_owned()))
        },
        Err(e) => Err(e),
    }
}

/// A surface whose buffer may be synchronized explicitly.
///
/// This trait is implemented for the surface types of a compositor.
pub trait SyncSurface {
    /// The acquire point of this surface.
    spec fn acquire(&self) -> Option<DrmSyncPoint>;

    /// The release point of this surface.
    spec fn release(&self) -> Option<DrmSyncPoint>;

    /// Get the acquire point for this surface, if any.
    fn acquire_point(&self) -> (r: Option<&DrmSyncPoint>)
        ensures
            match r {
                Some(point) => self.acquire() == Some(*point),
                None => self.acquire() is None,
            },
    ;

    /// Get the release point for this surface, if any.
    fn release_point(&self) -> (r: Option<&DrmSyncPoint>)
        ensures
            match r {
                Some(point) => self.release() == Some(*point),
                None => self.release() is None,
            },
    ;

    /// Check if this surface uses explicit sync: it has both points.
    fn uses_explicit_sync(&self) -> (r: bool)
        ensures
            r == (self.acquire() is Some && self.release() is Some),
    {
        self.acquire_point().is_some() && self.release_point().is_some()
    }
}

/// The points of a surface.
#[derive(Clone, Copy, Debug)]
pub struct SurfaceSync {
    /// Acquire point, if any
    pub acquire_point: Option<DrmSyncPoint>,
    /// Release point, if any
    pub release_point: Option<DrmSyncPoint>,
}

impl SyncSurface for SurfaceSync {
    open spec fn acquire(&self) -> Option<DrmSyncPoint> {
        self.acquire_point
    }

    open spec fn release(&self) -> Option<DrmSyncPoint> {
        self.release_point
    }

    fn acquire_point(&self) -> (r: Option<&DrmSyncPoint>) {
        match &self.acquire_point {
            Some(point) => Some(point),
            None => None,
        }
    }

    fn release_point(&self) -> (r: Option<&DrmSyncPoint>) {
        match &self.release_point {
            Some(point) => Some(point),
            None => None,
        }
    }
}

/// The acquire points of some surfaces, in order.
pub open spec fn acquire_points<S: SyncSurface>(surfaces: Seq<S>) -> Seq<DrmSyncPoint>
    decreases surfaces.len(),
{
    if surfaces.len() == 0 {
        Seq::empty()
    } else {
        match surfaces.last().acquire() {
            Some(point) => acquire_points(surfaces.drop_last()).push(point),
            None => acquire_points(surfaces.drop_last()),
        }
    }
}

/// The release points of some surfaces, in order.
pub open spec fn release_points<S: SyncSurface>(surfaces: Seq<S>) -> Seq<DrmSyncPoint>
    decreases surfaces.len(),
{
    if surfaces.len() == 0 {
        Seq::empty()
    } else {
        match surfaces.last().release() {
            Some(point) => release_points(surfaces.drop_last()).push(point),
            None => release_points(surfaces.drop_last()),
        }
    }
}

/// Acquire points that are waited for one after the other, each until it is ready.
#[derive(Debug)]
pub struct AcquireQueue {
    /// All the points.
    points: Vec<DrmSyncPoint>,
    /// How many of them are ready.
    waited: usize,
}

impl AcquireQueue {
    /// All the points.
    pub closed spec fn points(self) -> Seq<DrmSyncPoint> {
        self.points@
    }

    /// How many of them are ready.
    pub closed spec fn spec_waited(self) -> int {
        self.waited as int
    }

    /// How many points are ready after a wait for the next one: one more where that was ready.
    pub open spec fn next_waited(waited: int, outcome: Result<bool, BridgeError>) -> int {
        if outcome == Ok::<bool, BridgeError>(true) {
            waited + 1
        } else {
            waited
        }
    }

    /// No more points were waited for than there are.
    #[verifier::type_invariant]
    spec fn inv(self) -> bool {
        self.waited <= self.points@.len()
    }

    /// The next point to wait for.
    pub fn next_point(&self) -> (r: Option<DrmSyncPoint>)
        ensures
            0 <= self.spec_waited() <= self.points().len(),
            r == if self.spec_waited() < self.points().len() {
                Some(self.points()[self.spec_waited()])
            } else {
                None
            },
    {
        proof {
            use_type_invariant(self);
        }
        if self.waited < self.points.len() {
            Some(self.points[self.waited])
        } else {
            None
        }
    }

    /// Go on with what waiting for the next point came to. An error ends the waiting, and so does a
    /// point that was not ready in time: neither counts as waited for.
    pub fn point_waited(&mut self, outcome: Result<bool, BridgeError>) -> (r: Result<
        (),
        BridgeError,
    >)
        requires
            old(self).spec_waited() < old(self).points().len(),
        ensures
            final(self).points() == old(self).points(),
            final(self).spec_waited() == Self::next_waited(old(self).spec_waited(), outcome),
            wait_ended(outcome, r),
    {
        let r = end_wait(outcome);
        if r.is_ok() {
            assert(self.waited < self.points.len());
            self.waited = self.waited + 1;
        }
        r
    }

    /// The number of points that were waited for and are ready.
    pub fn waited(&self) -> (r: usize)
        ensures
            r == self.spec_waited(),
    {
        self.waited
    }
}

/// Release signals that are completed one after the other, until one fails.
#[derive(Debug)]
pub struct ReleaseQueue {
    /// All the signals, with their points.
    releases: Vec<(PendingReleaseSignal, DrmSyncPoint)>,
    /// How many of the points are signaled.
    signaled: usize,
    /// Whether one could not be signaled.
    failed: bool,
}

impl ReleaseQueue {
    /// All the signals, with their points.
    pub closed spec fn releases(self) -> Seq<(PendingReleaseSignal, DrmSyncPoint)> {
        self.releases@
    }

    /// How many of the points are signaled, and whether one could not be signaled.
    pub closed spec fn state(self) -> (int, bool) {
        (self.signaled as int, self.failed)
    }

    /// No more points are signaled than there are.
    #[verifier::type_invariant]
    spec fn inv(self) -> bool {
        self.signaled <= self.releases@.len()
    }

    /// The signal to complete next: the first one whose point is not signaled, and none after a
    /// failure.
    pub open spec fn next_of(
        releases: Seq<(PendingReleaseSignal, DrmSyncPoint)>,
        state: (int, bool),
    ) -> Option<(PendingReleaseSignal, DrmSyncPoint)> {
        if !state.1 && state.0 < releases.len() {
            Some(releases[state.0])
        } else {
            None
        }
    }

    /// The state after the completion of the next signal.
    pub open spec fn next_state(state: (int, bool), outcome: Result<(), BridgeError>) -> (int, bool) {
        match outcome {
            Ok(_) => (state.0 + 1, state.1),
            Err(_) => (state.0, true),
        }
    }

    /// The signal to complete next.
    pub fn next_release(&self) -> (r: Option<&(PendingReleaseSignal, DrmSyncPoint)>)
        ensures
            0 <= self.state().0 <= self.releases().len(),
            match r {
                Some(release) => Self::next_of(self.releases(), self.state()) == Some(*release),
                None => Self::next_of(self.releases(), self.state()) is None,
            },
    {
        proof {
            use_type_invariant(self);
        }
        if !self.failed && self.signaled < self.releases.len() {
            Some(&self.releases[self.signaled])
        } else {
            None
        }
    }

    /// Go on with what the completion of the next signal came to. An error ends the completion: the
    /// point of that signal and all later ones stay unsignaled.
    pub fn release_completed(&mut self, outcome: Result<(), BridgeError>) -> (r: Result<
        (),
        BridgeError,
    >)
        requires
            Self::next_of(old(self).releases(), old(self).state()) is Some,
        ensures
            final(self).releases() == old(self).releases(),
            final(self).state() == Self::next_state(old(self).state(), outcome),
            match outcome {
                Ok(_) => r is Ok,
                Err(e) => r == Err::<(), BridgeError>(e),
            },
    {
        match outcome {
            Ok(_) => {
                assert(self.signaled < self.releases.len());
                self.signaled = self.signaled + 1;
                Ok(())
            },
            Err(e) => {
                proof {
                    use_type_invariant(&*self);
                }
                self.failed = true;
                Err(e)
            },
        }
    }

    /// The number of points that are signaled.
    pub fn signaled(&self) -> (r: usize)
        ensures
            r == self.state().0,
    {
        self.signaled
    }
}

/// What the completion of all pending release signals takes, and what it leaves pending.
pub open spec fn taken_releases(pending: Seq<(PendingReleaseSignal, DrmSyncPoint)>) -> (
    Seq<(PendingReleaseSignal, DrmSyncPoint)>,
    Seq<(PendingReleaseSignal, DrmSyncPoint)>,
) {
    (pending, Seq::empty())
}

/// Helper to process multiple surfaces with explicit sync.
#[derive(Debug)]
pub struct SyncProcessor {
    /// The bridge to the manager
    bridge: SyncBridge,
    /// Release signals to complete, with their points
    pending_releases: Vec<(PendingReleaseSignal, DrmSyncPoint)>,
}

impl SyncProcessor {
    /// The bridge to the manager.
    pub closed spec fn spec_bridge(self) -> SyncBridge {
        self.bridge
    }

    /// The release signals to complete, with their points.
    pub closed spec fn pending(self) -> Seq<(PendingReleaseSignal, DrmSyncPoint)> {
        self.pending_releases@
    }

    /// Create a new surface sync processor.
    pub fn new(manager: &SyncManager) -> (r: SyncProcessor)
        ensures
            r.spec_bridge().caps() == manager@.capabilities,
            r.pending() == Seq::<(PendingReleaseSignal, DrmSyncPoint)>::empty(),
    {
        SyncProcessor { bridge: SyncBridge::new(manager), pending_releases: Vec::new() }
    }

    /// The bridge to the manager.
    pub fn bridge(&self) -> (r: &SyncBridge)
        ensures
            *r == self.spec_bridge(),
    {
        &self.bridge
    }

    /// Wait for all acquire points: the points to wait for, in the order of the surfaces.
    pub fn wait_all_acquires<S: SyncSurface>(&self, surfaces: &[S]) -> (r: AcquireQueue)
        ensures
            r.points() == acquire_points(surfaces@),
            r.spec_waited() == 0,
    {
        let mut points: Vec<DrmSyncPoint> = Vec::new();
        let mut i: usize = 0;
        while i < surfaces.len()
            invariant
                i <= surfaces@.len(),
                points@ == acquire_points(surfaces@.take(i as int)),
            decreases surfaces@.len() - i,
        {
            assert(surfaces@.take(i + 1).drop_last() =~= surfaces@.take(i as int));
            if let Some(point) = surfaces[i].acquire_point() {
                points.push(*point);
            }
            i = i + 1;
        }
        assert(surfaces@.take(i as int) =~= surfaces@);
        AcquireQueue { points, waited: 0 }
    }

    /// Prepare release signals for all surfaces: the points to prepare a signal for, in the order
    /// of the surfaces. This comes before the submit.
    pub fn prepare_all_releases<S: SyncSurface>(&self, surfaces: &[S]) -> (r: Vec<DrmSyncPoint>)
        ensures
            r@ == release_points(surfaces@),
    {
        let mut points: Vec<DrmSyncPoint> = Vec::new();
        let mut i: usize = 0;
        while i < surfaces.len()
            invariant
                i <= surfaces@.len(),
                points@ == release_points(surfaces@.take(i as int)),
            decreases surfaces@.len() - i,
        {
            assert(surfaces@.take(i + 1).drop_last() =~= surfaces@.take(i as int));
            if let Some(point) = surfaces[i].release_point() {
                points.push(*point);
            }
            i = i + 1;
        }
        assert(surfaces@.take(i as int) =~= surfaces@);
        points
    }

    /// Keep a prepared release signal with its point. An error ends the preparation, and what was
    /// prepared before stays.
    pub fn release_prepared(
        &mut self,
        signal: Result<PendingReleaseSignal, BridgeError>,
        point: DrmSyncPoint,
    ) -> (r: Result<(), BridgeError>)
        ensures
            final(self).spec_bridge() == old(self).spec_bridge(),
            match signal {
                Ok(signal) => r is Ok && final(self).pending() == old(self).pending().push(
                    (signal, point),
                ),
                Err(e) => r == Err::<(), BridgeError>(e) && final(self).pending() == old(
                    self,
                ).pending(),
            },
    {
        match signal {
            Ok(signal) => {
                self.pending_releases.push((signal, point));
                Ok(())
            },
            Err(e) => Err(e),
        }
    }

    /// Complete all pending release signals: those to complete, in the order in which they were
    /// prepared. None of them is pending any more, whatever becomes of them.
    pub fn complete_all_releases(&mut self) -> (r: ReleaseQueue)
        ensures
            (r.releases(), final(self).pending()) == taken_releases(old(self).pending()),
            r.state() == (0int, false),
            final(self).spec_bridge() == old(self).spec_bridge(),
    {
        let mut taken: Vec<(PendingReleaseSignal, DrmSyncPoint)> = Vec::new();
        std::mem::swap(&mut taken, &mut self.pending_releases);
        ReleaseQueue { releases: taken, signaled: 0, failed: false }
    }
}

/// A signaled acquire point is never waited for, and a check without a timeout never waits.
pub proof fn law_acquire_without_wait(signaled: bool, timeout_ms: u32)
    ensures
        signaled ==> SyncBridge::spec_acquire(signaled, timeout_ms) == AcquireStep::Done(true),
        timeout_ms == 0 ==> SyncBridge::spec_acquire(signaled, timeout_ms) == AcquireStep::Done(
            signaled,
        ),
        SyncBridge::spec_acquire(signaled, timeout_ms) matches AcquireStep::Done(ready)
            ==> ready == signaled,
{
}

/// A timeout in the range of `poll` is handed on as it is, and a longer one as the longest that
/// `poll` can count: no wait is without limit.
pub proof fn law_acquire_timeout(timeout_ms: u32)
    requires
        0 < timeout_ms,
    ensures
        SyncBridge::spec_acquire(false, timeout_ms) matches AcquireStep::Export(wait)
            && 0 < wait.timeout_ms <= timeout_ms && (timeout_ms <= i32::MAX ==> wait.timeout_ms
            == timeout_ms),
{
}

/// How many points are ready after these waits, one after the other.
pub open spec fn waited_after(outcomes: Seq<Result<bool, BridgeError>>) -> int
    decreases outcomes.len(),
{
    if outcomes.len() == 0 {
        0
    } else {
        AcquireQueue::next_waited(waited_after(outcomes.drop_last()), outcomes.last())
    }
}

/// A finished queue had every point ready: for each point there was a wait, with the point next in
/// the queue, that found it ready.
pub proof fn law_finished_queue_was_ready(
    points: Seq<DrmSyncPoint>,
    outcomes: Seq<Result<bool, BridgeError>>,
    i: int,
)
    requires
        waited_after(outcomes) == points.len(),
        0 <= i < points.len(),
    ensures
        exists|j: int|
            0 <= j < outcomes.len() && #[trigger] outcomes[j] == Ok::<bool, BridgeError>(true)
                && waited_after(outcomes.take(j)) == i,
{
    lemma_waited_was_ready(outcomes, i);
}

/// Whatever counts as waited for was found ready.
proof fn lemma_waited_was_ready(outcomes: Seq<Result<bool, BridgeError>>, i: int)
    requires
        0 <= i < waited_after(outcomes),
    ensures
        exists|j: int|
            0 <= j < outcomes.len() && #[trigger] outcomes[j] == Ok::<bool, BridgeError>(true)
                && waited_after(outcomes.take(j)) == i,
    decreases outcomes.len(),
{
    let before = outcomes.drop_last();
    if i < waited_after(before) {
        lemma_waited_was_ready(before, i);
        let j = choose|j: int|
            0 <= j < before.len() && #[trigger] before[j] == Ok::<bool, BridgeError>(true)
                && waited_after(before.take(j)) == i;
        assert(outcomes[j] == before[j]);
        assert(outcomes.take(j) =~= before.take(j));
    } else {
        let j = outcomes.len() - 1;
        assert(outcomes[j] == outcomes.last());
        assert(outcomes.take(j) =~= before);
    }
}

/// Where each point is waited for once, the queue is finished if and only if every wait found its
/// point ready.
pub proof fn law_acquires_end_well_when_ready(outcomes: Seq<Result<bool, BridgeError>>)
    ensures
        0 <= waited_after(outcomes) <= outcomes.len(),
        waited_after(outcomes) == outcomes.len() <==> forall|i: int|
            0 <= i < outcomes.len() ==> #[trigger] outcomes[i] == Ok::<bool, BridgeError>(true),
    decreases outcomes.len(),
{
    if outcomes.len() > 0 {
        let before = outcomes.drop_last();
        law_acquires_end_well_when_ready(before);
        assert forall|i: int| 0 <= i < before.len() implies #[trigger] before[i] == outcomes[i] by {}
        assert(outcomes.last() == outcomes[outcomes.len() - 1]);
        if forall|i: int|
            0 <= i < outcomes.len() ==> #[trigger] outcomes[i] == Ok::<bool, BridgeError>(true) {
            assert forall|i: int| 0 <= i < before.len() implies #[trigger] before[i] == Ok::<
                bool,
                BridgeError,
            >(true) by {
                assert(outcomes[i] == before[i]);
            }
        }
        if waited_after(outcomes) == outcomes.len() {
            assert forall|i: int| 0 <= i < outcomes.len() implies #[trigger] outcomes[i] == Ok::<
                bool,
                BridgeError,
            >(true) by {
                if i < before.len() {
                    assert(before[i] == outcomes[i]);
                }
            }
        }
    }
}

/// The state of a release queue after these completions, one after the other.
pub open spec fn released_after(outcomes: Seq<Result<(), BridgeError>>) -> (int, bool)
    decreases outcomes.len(),
{
    if outcomes.len() == 0 {
        (0, false)
    } else {
        ReleaseQueue::next_state(released_after(outcomes.drop_last()), outcomes.last())
    }
}

/// Release points are signaled in order, each once. While all goes well, the next signal is that of
/// the next point, and there is none when all points are signaled.
pub proof fn law_releases_in_order(
    releases: Seq<(PendingReleaseSignal, DrmSyncPoint)>,
    outcomes: Seq<Result<(), BridgeError>>,
)
    requires
        outcomes.len() <= releases.len(),
        forall|j: int| 0 <= j < outcomes.len() ==> (#[trigger] outcomes[j]) is Ok,
    ensures
        released_after(outcomes) == (outcomes.len() as int, false),
        ReleaseQueue::next_of(releases, released_after(outcomes)) == if outcomes.len()
            < releases.len() {
            Some(releases[outcomes.len() as int])
        } else {
            None
        },
    decreases outcomes.len(),
{
    if outcomes.len() > 0 {
        let before = outcomes.drop_last();
        assert forall|j: int| 0 <= j < before.len() implies (#[trigger] before[j]) is Ok by {
            assert(before[j] == outcomes[j]);
        }
        law_releases_in_order(releases, before);
        assert(outcomes[outcomes.len() - 1] is Ok);
    }
}

/// An error ends the signaling: the points before it are signaled, its own and all later ones are
/// not, and no signal comes next.
pub proof fn law_error_ends_releases(
    releases: Seq<(PendingReleaseSignal, DrmSyncPoint)>,
    outcomes: Seq<Result<(), BridgeError>>,
    error: BridgeError,
)
    requires
        outcomes.len() < releases.len(),
        forall|j: int| 0 <= j < outcomes.len() ==> (#[trigger] outcomes[j]) is Ok,
    ensures
        released_after(outcomes.push(Err(error))) == (outcomes.len() as int, true),
        ReleaseQueue::next_of(releases, released_after(outcomes.push(Err(error)))) is None,
{
    law_releases_in_order(releases, outcomes);
    assert(outcomes.push(Err(error)).drop_last() =~= outcomes);
}

/// Whatever becomes of the pending release signals, nothing is left pending: a second completion has
/// no signal to complete.
pub proof fn law_second_completion_is_empty(pending: Seq<(PendingReleaseSignal, DrmSyncPoint)>)
    ensures
        taken_releases(pending).0 == pending,
        taken_releases(taken_releases(pending).1).0.len() == 0,
        ReleaseQueue::next_of(taken_releases(taken_releases(pending).1).0, (0, false)) is None,
{
}

/// As many points are waited for as there are surfaces with an acquire point, and each of these
/// points is among them.
pub proof fn law_acquires_counted<S: SyncSurface>(surfaces: Seq<S>)
    ensures
        acquire_points(surfaces).len() == surfaces.filter(|s: S| s.acquire() is Some).len(),
        acquire_points(surfaces).len() <= surfaces.len(),
        (forall|i: int| 0 <= i < surfaces.len() ==> (#[trigger] surfaces[i]).acquire() is Some)
            ==> acquire_points(surfaces).len() == surfaces.len(),
        forall|i: int|
            0 <= i < surfaces.len() ==> ((#[trigger] surfaces[i]).acquire() matches Some(p)
                ==> acquire_points(surfaces).contains(p)),
    decreases surfaces.len(),
{
    reveal(Seq::filter);
    if surfaces.len() > 0 {
        let rest = surfaces.drop_last();
        law_acquires_counted(rest);
        let points = acquire_points(surfaces);
        let before = acquire_points(rest);
        assert forall|i: int| 0 <= i < surfaces.len() implies ((
        #[trigger] surfaces[i]).acquire() matches Some(p) ==> points.contains(p)) by {
            if let Some(p) = surfaces[i].acquire() {
                if i < rest.len() {
                    assert(rest[i] == surfaces[i]);
                    let k = choose|k: int| 0 <= k < before.len() && before[k] == p;
                    assert(points[k] == p);
                } else {
                    assert(points[before.len() as int] == p);
                }
            }
        }
        if forall|i: int| 0 <= i < surfaces.len() ==> (#[trigger] surfaces[i]).acquire() is Some {
            assert forall|i: int| 0 <= i < rest.len() implies (
            #[trigger] rest[i]).acquire() is Some by {
                assert(rest[i] == surfaces[i]);
            }
            assert(surfaces[surfaces.len() - 1].acquire() is Some);
        }
    }
}

/// A release point is signaled if and only if a poll found its semaphore ready, and there are two
/// polls at most.
pub proof fn law_release_signaled_when_ready(poll: ReleasePoll, ready: bool, ready_later: bool)
    ensures
        poll.next_step(ready) == Some(ReleaseStep::Signal) <==> ready,
        poll.next_step(ready) matches Some(ReleaseStep::Poll(second)) ==> second.fd == poll.fd && (
        second.next_step(ready_later) == if ready_later {
            Some(ReleaseStep::Signal)
        } else {
            None
        }),
{
}

/// An acquire point is waited for if and only if it is not signaled and there is time to wait. The
/// wait is as long as was asked for, and never longer than `poll` can count. On behalf of the GPU it
/// is five seconds long.
pub proof fn law_acquire_steps(
    bridge: SyncBridge,
    signaled: bool,
    timeout_ms: u32,
    step: AcquireStep,
    gpu: AcquireStep,
)
    requires
        call_ensures(SyncBridge::wait_acquire_point, (&bridge, signaled, timeout_ms), step),
        call_ensures(SyncBridge::wait_acquire_point_gpu, (&bridge, signaled), gpu),
    ensures
        step is Export <==> !signaled && timeout_ms > 0,
        step matches AcquireStep::Done(ready) ==> ready == signaled,
        step matches AcquireStep::Export(wait) ==> 0 < wait.timeout_ms <= timeout_ms && (timeout_ms
            <= 0x7fff_ffff ==> wait.timeout_ms == timeout_ms) && (timeout_ms > 0x7fff_ffff
            ==> wait.timeout_ms == 0x7fff_ffff),
        signaled ==> gpu == AcquireStep::Done(true),
        !signaled ==> (gpu matches AcquireStep::Export(wait) && wait.timeout_ms == 5000),
{
}

/// The sync file of an acquire point is the one that was exported, and the point is signaled if and
/// only if the poll reported the lowest event bit. Only a failed poll is an error.
pub proof fn law_acquire_polled(
    wait: AcquireWait,
    export: Result<i32, String>,
    fd: Result<i32, BridgeError>,
    reply: PollReply,
    os_error: &str,
    r: Result<bool, BridgeError>,
)
    requires
        call_ensures(AcquireWait::exported, (wait, export), fd),
        call_ensures(AcquireWait::polled, (wait, reply, os_error), r),
    ensures
        fd is Ok <==> export is Ok,
        fd matches Ok(file) ==> export == Ok::<i32, String>(file),
        r is Err <==> reply.result < 0,
        reply.result == 0 ==> r == Ok::<bool, BridgeError>(false),
        reply.result > 0 ==> r == Ok::<bool, BridgeError>(reply.revents & 0x1 == 0x1),
{
    let revents = reply.revents;
    assert(revents & 0x1i16 != 0 <==> revents & 0x1i16 == 0x1) by (bit_vector);
}

/// Waiting on behalf of the GPU ends well unless the wait itself failed, and its error is handed on.
pub proof fn law_gpu_wait_ends(waited: Result<bool, BridgeError>, r: Result<(), BridgeError>)
    requires
        call_ensures(SyncBridge::gpu_wait_done, (waited,), r),
    ensures
        r is Ok <==> waited is Ok,
        r matches Err(e) ==> waited == Err::<bool, BridgeError>(e),
{
}

/// A release signal is prepared where sync files can be exported, with a binary semaphore that can be
/// exported, and fails elsewhere. The bridge has the capabilities of its manager.
pub proof fn law_release_is_binary(
    manager: SyncManager,
    bridge: SyncBridge,
    r: Result<SemaphoreRequest, BridgeError>,
    handle: u64,
    pending: Result<PendingReleaseSignal, BridgeError>,
)
    requires
        call_ensures(SyncBridge::new, (&manager,), bridge),
        call_ensures(SyncBridge::prepare_release_signal, (&bridge,), r),
        call_ensures(SyncBridge::release_semaphore_created, (Ok::<u64, i32>(handle),), pending),
    ensures
        r is Ok <==> manager@.capabilities.can_export_sync_fd,
        r matches Ok(request) ==> !request.timeline && request.export_sync_fd,
        pending matches Ok(signal) && signal.semaphore.semaphore == handle
            && !signal.semaphore.is_timeline && signal.semaphore.timeline_value == 0,
{
}

/// The semaphore that is exported for a release is the one that was prepared. Its sync file is polled
/// at once without waiting, and once more for a second where it was late. The point is signaled if
/// and only if a poll found it ready, and a semaphore that is late twice is an error.
pub proof fn law_release_polls(
    bridge: SyncBridge,
    pending: PendingReleaseSignal,
    function_loaded: bool,
    export: Result<ReleaseExport, BridgeError>,
    exported: ReleaseExport,
    fd: i32,
    poll: ReleasePoll,
    reply: PollReply,
    os_error: &str,
    r: Result<ReleaseStep, BridgeError>,
)
    requires
        call_ensures(
            SyncBridge::complete_release_signal,
            (&bridge, &pending, function_loaded),
            export,
        ),
        call_ensures(
            ReleaseExport::exported,
            (exported, Ok::<i32, i32>(fd)),
            Ok::<ReleasePoll, BridgeError>(poll),
        ),
        call_ensures(ReleasePoll::polled, (poll, reply, os_error), r),
    ensures
        export is Ok <==> function_loaded,
        export matches Ok(e) ==> e.semaphore == pending.semaphore.semaphore,
        poll.fd == fd && poll.timeout_ms == 0 && !poll.last,
        r is Err <==> reply.result < 0,
        r == Ok::<ReleaseStep, BridgeError>(ReleaseStep::Signal) <==> reply.result > 0
            && reply.revents & 0x1 == 0x1,
        r matches Ok(ReleaseStep::Poll(second)) ==> second.fd == fd && second.timeout_ms == 1000
            && second.last,
{
    let revents = reply.revents;
    assert(revents & 0x1i16 != 0 <==> revents & 0x1i16 == 0x1) by (bit_vector);
}

/// The last poll of a release semaphore ends with the signal of the point or with an error.
pub proof fn law_last_poll_ends(
    poll: ReleasePoll,
    reply: PollReply,
    os_error: &str,
    r: Result<ReleaseStep, BridgeError>,
)
    requires
        poll.last,
        call_ensures(ReleasePoll::polled, (poll, reply, os_error), r),
    ensures
        r matches Ok(step) ==> step == ReleaseStep::Signal,
        r is Ok <==> reply.result > 0 && reply.revents & 0x1 == 0x1,
{
    let revents = reply.revents;
    assert(revents & 0x1i16 != 0 <==> revents & 0x1i16 == 0x1) by (bit_vector);
}

/// The acquire points of some surfaces followed by others are those of the first followed by those of
/// the others: their order is kept.
pub proof fn law_acquires_in_order<S: SyncSurface>(first: Seq<S>, second: Seq<S>)
    ensures
        acquire_points(first + second) == acquire_points(first) + acquire_points(second),
    decreases second.len(),
{
    if second.len() == 0 {
        assert(first + second =~= first);
        assert(acquire_points(first) + acquire_points(second) =~= acquire_points(first));
    } else {
        let rest = second.drop_last();
        assert((first + second).drop_last() =~= first + rest);
        assert((first + second).last() == second.last());
        law_acquires_in_order(first, rest);
        assert(acquire_points(first + second) =~= acquire_points(first) + acquire_points(second));
    }
}

/// The release points of some surfaces followed by others are those of the first followed by those of
/// the others: their order is kept.
pub proof fn law_release_points_in_order<S: SyncSurface>(first: Seq<S>, second: Seq<S>)
    ensures
        release_points(first + second) == release_points(first) + release_points(second),
    decreases second.len(),
{
    if second.len() == 0 {
        assert(first + second =~= first);
        assert(release_points(first) + release_points(second) =~= release_points(first));
    } else {
        let rest = second.drop_last();
        assert((first + second).drop_last() =~= first + rest);
        assert((first + second).last() == second.last());
        law_release_points_in_order(first, rest);
        assert(release_points(first + second) =~= release_points(first) + release_points(second));
    }
}

/// A surface contributes its own point where it has one, and nothing where it has none: its acquire
/// point is waited for and its release point is prepared.
pub proof fn law_points_of_one_surface(
    processor: SyncProcessor,
    surfaces: &[SurfaceSync],
    queue: AcquireQueue,
    releases: Vec<DrmSyncPoint>,
)
    requires
        surfaces@.len() == 1,
        call_ensures(
            SyncProcessor::wait_all_acquires::<SurfaceSync>,
            (&processor, surfaces),
            queue,
        ),
        call_ensures(
            SyncProcessor::prepare_all_releases::<SurfaceSync>,
            (&processor, surfaces),
            releases,
        ),
    ensures
        surfaces@[0].acquire_point matches Some(p) ==> queue.points() == seq![p],
        surfaces@[0].acquire_point is None ==> queue.points().len() == 0,
        surfaces@[0].release_point matches Some(p) ==> releases@ == seq![p],
        surfaces@[0].release_point is None ==> releases@.len() == 0,
        queue.spec_waited() == 0,
{
    reveal_with_fuel(acquire_points, 2);
    reveal_with_fuel(release_points, 2);
    let rest = surfaces@.drop_last();
    assert(rest.len() == 0);
    assert(surfaces@.last() == surfaces@[0]);
    assert(acquire_points(rest) =~= Seq::empty());
    assert(release_points(rest) =~= Seq::empty());
    if let Some(p) = surfaces@[0].acquire_point {
        assert(queue.points() =~= seq![p]);
    }
    if let Some(p) = surfaces@[0].release_point {
        assert(releases@ =~= seq![p]);
    }
}

/// A surface without release points prepares none, and as many are prepared as there are surfaces with
/// one. Each of these points is among them.
pub proof fn law_releases_counted<S: SyncSurface>(surfaces: Seq<S>)
    ensures
        release_points(surfaces).len() == surfaces.filter(|s: S| s.release() is Some).len(),
        forall|i: int|
            0 <= i < surfaces.len() ==> ((#[trigger] surfaces[i]).release() matches Some(p)
                ==> release_points(surfaces).contains(p)),
    decreases surfaces.len(),
{
    reveal(Seq::filter);
    if surfaces.len() > 0 {
        let rest = surfaces.drop_last();
        law_releases_counted(rest);
        let points = release_points(surfaces);
        let before = release_points(rest);
        assert forall|i: int| 0 <= i < surfaces.len() implies ((
        #[trigger] surfaces[i]).release() matches Some(p) ==> points.contains(p)) by {
            if let Some(p) = surfaces[i].release() {
                if i < rest.len() {
                    assert(rest[i] == surfaces[i]);
                    let k = choose|k: int| 0 <= k < before.len() && before[k] == p;
                    assert(points[k] == p);
                } else {
                    assert(points[before.len() as int] == p);
                }
            }
        }
    }
}

/// Waiting for the next point ends well if and only if the point was ready, and goes on to the next
/// one then. A point that was not ready in time ends the waiting with an error, as a failed wait does,
/// and stays the next one.
pub proof fn law_acquire_queue_goes_on(
    queue: &mut AcquireQueue,
    next: Option<DrmSyncPoint>,
    outcome: Result<bool, BridgeError>,
    r: Result<(), BridgeError>,
    waited: usize,
)
    requires
        call_ensures(AcquireQueue::next_point, (old(queue),), next),
        next is Some,
        call_ensures(AcquireQueue::point_waited, (queue, outcome), r),
        call_ensures(AcquireQueue::waited, (final(queue),), waited),
    ensures
        next == Some(old(queue).points()[old(queue).spec_waited()]),
        final(queue).points() == old(queue).points(),
        r is Ok <==> outcome == Ok::<bool, BridgeError>(true),
        r is Ok ==> waited == old(queue).spec_waited() + 1,
        r is Err ==> waited == old(queue).spec_waited(),
        outcome matches Err(e) ==> r == Err::<(), BridgeError>(e),
        outcome == Ok::<bool, BridgeError>(false) ==> (r matches Err(e) && e@
            == BridgeErrorView::Sync("Wait timed out"@)),
{
}

/// A release whose completion went well is followed by the next one. One that failed is followed by
/// none, and its error is handed on.
pub proof fn law_release_queue_goes_on(
    queue: &mut ReleaseQueue,
    outcome: Result<(), BridgeError>,
    r: Result<(), BridgeError>,
    next: Option<&(PendingReleaseSignal, DrmSyncPoint)>,
    signaled: usize,
)
    requires
        call_ensures(ReleaseQueue::release_completed, (queue, outcome), r),
        call_ensures(ReleaseQueue::next_release, (final(queue),), next),
        call_ensures(ReleaseQueue::signaled, (final(queue),), signaled),
    ensures
        final(queue).releases() == old(queue).releases(),
        r is Ok <==> outcome is Ok,
        outcome matches Err(e) ==> r == Err::<(), BridgeError>(e),
        outcome is Ok ==> signaled == old(queue).state().0 + 1,
        outcome is Err ==> signaled == old(queue).state().0 && next is None,
        next matches Some(release) ==> *release == final(queue).releases()[signaled as int],
{
}

/// A prepared release is the last of the pending ones. Completing hands all of them out in that order
/// and leaves none pending, and a failed preparation changes nothing.
pub proof fn law_pending_releases(
    processor: &mut SyncProcessor,
    signal: PendingReleaseSignal,
    point: DrmSyncPoint,
    r: Result<(), BridgeError>,
    later: &mut SyncProcessor,
    queue: ReleaseQueue,
    failing: &mut SyncProcessor,
    error: BridgeError,
    failed: Result<(), BridgeError>,
)
    requires
        call_ensures(
            SyncProcessor::release_prepared,
            (processor, Ok::<PendingReleaseSignal, BridgeError>(signal), point),
            r,
        ),
        *old(later) == *final(processor),
        call_ensures(SyncProcessor::complete_all_releases, (later,), queue),
        call_ensures(
            SyncProcessor::release_prepared,
            (failing, Err::<PendingReleaseSignal, BridgeError>(error), point),
            failed,
        ),
    ensures
        r is Ok,
        queue.releases() == old(processor).pending().push((signal, point)),
        queue.state() == (0int, false),
        final(later).pending().len() == 0,
        failed == Err::<(), BridgeError>(error),
        final(failing).pending() == old(failing).pending(),
{
}

/// A surface uses explicit sync if and only if it has both points, and tells the points that it has.
pub proof fn law_explicit_sync_needs_both(
    surface: SurfaceSync,
    acquire: Option<&DrmSyncPoint>,
    release: Option<&DrmSyncPoint>,
    r: bool,
)
    requires
        call_ensures(SurfaceSync::acquire_point, (&surface,), acquire),
        call_ensures(SurfaceSync::release_point, (&surface,), release),
        call_ensures(SurfaceSync::uses_explicit_sync, (&surface,), r),
    ensures
        acquire is Some <==> surface.acquire_point is Some,
        acquire matches Some(p) ==> surface.acquire_point == Some(*p),
        release is Some <==> surface.release_point is Some,
        release matches Some(p) ==> surface.release_point == Some(*p),
        r <==> surface.acquire_point is Some && surface.release_point is Some,
{
}

/// A release point that was signaled ends well, and one that was not ends with the reason.
pub proof fn law_release_signal_ends(signaled: Result<(), String>, r: Result<(), BridgeError>)
    requires
        call_ensures(SyncBridge::release_signaled, (signaled,), r),
    ensures
        r is Ok <==> signaled is Ok,
        r matches Err(e) ==> e@ is Sync,
{
}

/// A processor and its bridge have the capabilities of the manager, and nothing is pending at first.
/// The semaphore that is told of a pending release is its own.
pub proof fn law_new_processor(
    manager: SyncManager,
    processor: SyncProcessor,
    bridge: &SyncBridge,
    pending: PendingReleaseSignal,
    raw: u64,
)
    requires
        call_ensures(SyncProcessor::new, (&manager,), processor),
        call_ensures(SyncProcessor::bridge, (&processor,), bridge),
        call_ensures(PendingReleaseSignal::raw_semaphore, (&pending,), raw),
    ensures
        bridge.caps() == manager@.capabilities,
        processor.pending().len() == 0,
        raw == pending.semaphore.semaphore,
{
}

} // verus!
