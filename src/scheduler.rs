//! The frame scheduler: the decisions of the presentation loop.
//!
//! The embedding program performs each device operation and reports how it
//! went; the scheduler says what comes next. One frame on the current slot:
//!
//! 1. wait for the slot's fence if [`FrameScheduler::fence_to_wait`] names it,
//!    and report it with [`FrameScheduler::fence_signaled`];
//! 2. [`FrameScheduler::begin_frame`] resets the fence and hands out a
//!    [`FrameToken`], the only way to go on;
//! 3. acquire an image, signaling the slot's image-acquired semaphore, and
//!    hand the outcome to [`FrameScheduler::image_acquired`];
//! 4. on [`AcquireDecision::Render`], record, submit and report with
//!    [`FrameScheduler::frame_submitted`], then present and report with
//!    [`FrameScheduler::presented`]; on [`AcquireDecision::Skip`], submit
//!    no work but signal the slot's fence, and rebuild the swapchain at once
//!    where the decision says so.
//!
//! A suboptimal image is still rendered and presented; the swapchain is then
//! rebuilt before the next acquisition. An out-of-date surface skips the frame
//! and the swapchain is rebuilt at once. A timeout skips the frame and nothing
//! else. A resize only records the new size: it is used by the next frame's
//! viewport and scissor, and by the next rebuild.
//!
//! A rebuild: wait for the device to go idle and report it with
//! [`FrameScheduler::device_idle`]; release what
//! [`FrameScheduler::retire_swapchain`] lists, in its order; query the
//! surface, configure with [`FrameScheduler::negotiate`], create the swapchain,
//! one view per image and one framebuffer per view, and hand them over with
//! [`FrameScheduler::install`].
use vstd::prelude::*;
use crate::extent::{Extent2D, Rect2D};
use crate::negotiation::{
    NegotiationError, SurfaceCapabilities, SurfaceFormat, SwapchainConfig, SwapchainPolicy,
    negotiation_result,
};
use crate::swapchain::{Release, SwapchainResources, SwapchainView, teardown_order};
use crate::sync::{FenceState, FrameSync, all_signaled, settle};

verus! {

/// How long an acquisition may wait for an image, in nanoseconds.
pub const ACQUIRE_TIMEOUT_NS: u64 = 300_000_000;

/// The number of frame slots the presentation loop uses.
pub const DEFAULT_FRAMES_IN_FLIGHT: usize = 2;

/// What an attempt to acquire an image gave.
#[derive(Clone, Copy, Debug, PartialEq, Eq, Structural)]
pub enum AcquireOutcome {
    /// An image was acquired; `suboptimal` when the surface has drifted from
    /// the swapchain but the image can still be presented.
    Acquired { image_index: u32, suboptimal: bool },
    /// The surface no longer matches the swapchain; no image was acquired.
    OutOfDate,
    /// No image became available in time.
    Timeout,
}

/// What presenting an image gave.
#[derive(Clone, Copy, Debug, PartialEq, Eq, Structural)]
pub enum PresentOutcome {
    Presented,
    Suboptimal,
    OutOfDate,
}

/// Why the scheduler refused a step.
#[derive(Clone, Copy, Debug, PartialEq, Eq, Structural)]
pub enum SchedulerError {
    /// There is no swapchain to render to.
    NoSwapchain,
    /// The swapchain must be rebuilt before the next acquisition.
    RecreateRequired,
    /// The slot's fence has not been seen to signal.
    FenceNotSignaled,
    /// A frame already holds the slot.
    FrameInProgress,
    /// The token or target does not belong to the frame in progress.
    StaleFrame,
    /// The acquired image index names no image of the swapchain.
    ImageOutOfRange,
    /// Some slot still holds a frame or awaits work on the device.
    DeviceBusy,
}

/// Proof that a frame began on a slot: its fence was signaled and is now reset.
/// Only [`FrameScheduler::begin_frame`] makes one.
#[derive(Debug)]
pub struct FrameToken {
    slot: usize,
}

/// What the frame on a slot renders to: the image and its framebuffer, the
/// area of the render pass, and the dynamic viewport and scissor.
/// Only [`FrameScheduler::image_acquired`] makes one.
#[derive(Debug)]
pub struct FrameTarget {
    slot: usize,
    image_index: u32,
    framebuffer: u64,
    render_area: Extent2D,
    viewport: Extent2D,
    scissor: Rect2D,
}

/// What a [`FrameTarget`] holds.
pub struct FrameTargetView {
    pub slot: nat,
    pub image_index: u32,
    pub framebuffer: u64,
    pub render_area: Extent2D,
    pub viewport: Extent2D,
    pub scissor: Rect2D,
}

/// A frame that is dropped after its fence was reset.
#[derive(Clone, Copy, Debug, PartialEq, Eq, Structural)]
pub struct SkippedFrame {
    /// The slot whose fence must be signaled by a submission without work.
    pub fence_slot: usize,
    /// Whether the swapchain must be rebuilt before anything else.
    pub recreate_now: bool,
}

/// What to do with an acquisition.
#[derive(Debug)]
pub enum AcquireDecision {
    Render(FrameTarget),
    Skip(SkippedFrame),
}

/// What an [`AcquireDecision`] holds.
pub enum DecisionView {
    Render(FrameTargetView),
    Skip(SkippedFrame),
}

/// The image to present once a frame has been submitted, and the slot whose
/// render-complete semaphore the presentation waits on.
#[derive(Clone, Copy, Debug, PartialEq, Eq, Structural)]
pub struct PresentRequest {
    pub slot: usize,
    pub image_index: u32,
}

/// The state of the presentation loop.
#[derive(Debug)]
pub struct FrameScheduler {
    sync: FrameSync,
    current: usize,
    target_extent: Extent2D,
    swapchain: Option<SwapchainResources>,
    recreate_pending: bool,
    policy: SwapchainPolicy,
}

/// What a [`FrameScheduler`] holds.
pub struct SchedulerView {
    pub fences: Seq<FenceState>,
    pub current: nat,
    pub target_extent: Extent2D,
    pub swapchain: Option<SwapchainView>,
    pub recreate_pending: bool,
    pub preferred_formats: Seq<SurfaceFormat>,
    pub preferred_present_modes: Seq<i32>,
    pub image_usage: u32,
}

impl SchedulerView {
    /// At least one slot, the current slot is one of them, and no other slot
    /// is held by a frame.
    pub open spec fn is_valid(&self) -> bool {
        &&& self.fences.len() > 0
        &&& self.current < self.fences.len()
        &&& forall|j: int|
            0 <= j < self.fences.len() && j != self.current ==> self.fences[j]
                != FenceState::Reset
    }
}

impl View for FrameToken {
    type V = nat;

    closed spec fn view(&self) -> nat {
        self.slot as nat
    }
}

impl View for FrameTarget {
    type V = FrameTargetView;

    closed spec fn view(&self) -> FrameTargetView {
        FrameTargetView {
            slot: self.slot as nat,
            image_index: self.image_index,
            framebuffer: self.framebuffer,
            render_area: self.render_area,
            viewport: self.viewport,
            scissor: self.scissor,
        }
    }
}

impl View for AcquireDecision {
    type V = DecisionView;

    open spec fn view(&self) -> DecisionView {
        match self {
            AcquireDecision::Render(t) => DecisionView::Render(t@),
            AcquireDecision::Skip(s) => DecisionView::Skip(*s),
        }
    }
}

impl View for FrameScheduler {
    type V = SchedulerView;

    closed spec fn view(&self) -> SchedulerView {
        SchedulerView {
            fences: self.sync@,
            current: self.current as nat,
            target_extent: self.target_extent,
            swapchain: match self.swapchain {
                Some(s) => Some(s@),
                None => None,
            },
            recreate_pending: self.recreate_pending,
            preferred_formats: self.policy.preferred_formats@,
            preferred_present_modes: self.policy.preferred_present_modes@,
            image_usage: self.policy.image_usage,
        }
    }
}

/// `v` with the fence of `slot` in state `f`.
pub open spec fn with_fence(v: SchedulerView, slot: nat, f: FenceState) -> SchedulerView {
    SchedulerView { fences: v.fences.update(slot as int, f), ..v }
}

/// Why a frame cannot begin now, if it cannot.
pub open spec fn begin_error(v: SchedulerView) -> Option<SchedulerError> {
    if v.swapchain is None {
        Some(SchedulerError::NoSwapchain)
    } else if v.recreate_pending {
        Some(SchedulerError::RecreateRequired)
    } else if v.fences[v.current as int] == FenceState::Pending {
        Some(SchedulerError::FenceNotSignaled)
    } else if v.fences[v.current as int] == FenceState::Reset {
        Some(SchedulerError::FrameInProgress)
    } else {
        None
    }
}

/// The state after a frame began on the current slot.
pub open spec fn after_begin(v: SchedulerView) -> SchedulerView {
    with_fence(v, v.current, FenceState::Reset)
}

/// The state after the device went idle.
pub open spec fn after_device_idle(v: SchedulerView) -> SchedulerView {
    SchedulerView { fences: settle(v.fences), ..v }
}

/// The state after the swapchain was given up.
pub open spec fn after_retire(v: SchedulerView) -> SchedulerView {
    SchedulerView { swapchain: None, ..v }
}

/// The state after `fresh` was installed as the swapchain.
pub open spec fn after_install(v: SchedulerView, fresh: SwapchainView) -> SchedulerView {
    SchedulerView { swapchain: Some(fresh), recreate_pending: false, ..v }
}

/// Whether `slot` is the slot of the frame in progress.
pub open spec fn holds_frame(v: SchedulerView, slot: nat) -> bool {
    slot == v.current && v.fences[slot as int] == FenceState::Reset
}

/// Why an acquisition for the frame on `slot` is refused, if it is.
pub open spec fn acquire_error(v: SchedulerView, slot: nat, outcome: AcquireOutcome) -> Option<
    SchedulerError,
> {
    if !holds_frame(v, slot) || v.swapchain is None {
        Some(SchedulerError::StaleFrame)
    } else {
        match outcome {
            AcquireOutcome::Acquired { image_index, .. } => if image_index
                >= v.swapchain->0.images.len() {
                Some(SchedulerError::ImageOutOfRange)
            } else {
                None
            },
            _ => None,
        }
    }
}

/// The state after an accepted acquisition.
pub open spec fn after_acquire(v: SchedulerView, outcome: AcquireOutcome) -> SchedulerView {
    match outcome {
        AcquireOutcome::Acquired { suboptimal, .. } => SchedulerView {
            recreate_pending: v.recreate_pending || suboptimal,
            ..v
        },
        AcquireOutcome::OutOfDate => SchedulerView {
            recreate_pending: true,
            ..with_fence(v, v.current, FenceState::Pending)
        },
        AcquireOutcome::Timeout => with_fence(v, v.current, FenceState::Pending),
    }
}

/// The target of a frame that renders to image `image_index`.
pub open spec fn target_of(v: SchedulerView, image_index: u32) -> FrameTargetView {
    FrameTargetView {
        slot: v.current,
        image_index,
        framebuffer: v.swapchain->0.framebuffers[image_index as int],
        render_area: v.swapchain->0.config.extent,
        viewport: v.target_extent,
        scissor: Rect2D { x: 0, y: 0, extent: v.target_extent },
    }
}

/// The decision on an accepted acquisition.
pub open spec fn decision_of(v: SchedulerView, outcome: AcquireOutcome) -> DecisionView {
    match outcome {
        AcquireOutcome::Acquired { image_index, .. } => DecisionView::Render(
            target_of(v, image_index),
        ),
        AcquireOutcome::OutOfDate => DecisionView::Skip(
            SkippedFrame { fence_slot: v.current as usize, recreate_now: true },
        ),
        AcquireOutcome::Timeout => DecisionView::Skip(
            SkippedFrame { fence_slot: v.current as usize, recreate_now: false },
        ),
    }
}

/// The state after the frame in progress was submitted: its fence awaits the
/// work, and the next slot is current.
pub open spec fn after_submit(v: SchedulerView) -> SchedulerView {
    SchedulerView {
        current: ((v.current + 1) % v.fences.len()) as nat,
        ..with_fence(v, v.current, FenceState::Pending)
    }
}

/// The state after a resize to `extent`: only the size of the target changes.
pub open spec fn resized(v: SchedulerView, extent: Extent2D) -> SchedulerView {
    SchedulerView { target_extent: extent, ..v }
}

/// Whether no slot holds a frame and no work is in flight.
pub open spec fn is_quiet(v: SchedulerView) -> bool {
    forall|j: int| 0 <= j < v.fences.len() ==> v.fences[j] == FenceState::Signaled
}

/// A frame begins only on a signaled fence and leaves it reset; once the frame
/// is submitted and the host has seen the fence signal, the slot's fence is
/// signaled again and every other fence is as it was.
pub proof fn lemma_begin_frame_fence_cycle(v: SchedulerView)
    requires
        v.is_valid(),
        begin_error(v) is None,
    ensures
        v.fences[v.current as int] == FenceState::Signaled,
        after_begin(v).fences[v.current as int] == FenceState::Reset,
        with_fence(after_submit(after_begin(v)), v.current, FenceState::Signaled).fences
            == v.fences,
{
    let w = with_fence(after_submit(after_begin(v)), v.current, FenceState::Signaled);
    assert(w.fences =~= v.fences);
}

/// While a slot's fence awaits submitted work, no frame can begin on the slot
/// and nothing can be acquired or submitted for it; a submission always
/// leaves the submitted slot in that state.
pub proof fn lemma_pending_slot_is_locked(u: SchedulerView, slot: nat, outcome: AcquireOutcome)
    requires
        u.is_valid(),
        slot < u.fences.len(),
        u.fences[slot as int] == FenceState::Pending,
    ensures
        !holds_frame(u, slot),
        acquire_error(u, slot, outcome) == Some(SchedulerError::StaleFrame),
        u.current == slot ==> begin_error(u) is Some,
        holds_frame(u, u.current) ==> after_submit(u).fences[u.current as int]
            == FenceState::Pending,
{
}

/// A resize changes the size of the target and nothing else: no fence, no
/// swapchain, no rebuild request and no refusal changes, and the next frame
/// renders with the new viewport and scissor.
pub proof fn lemma_resize_is_lazy(v: SchedulerView, extent: Extent2D, image_index: u32)
    ensures
        resized(v, extent).fences == v.fences,
        resized(v, extent).current == v.current,
        resized(v, extent).swapchain == v.swapchain,
        resized(v, extent).recreate_pending == v.recreate_pending,
        begin_error(resized(v, extent)) == begin_error(v),
        target_of(resized(v, extent), image_index).viewport == extent,
        target_of(resized(v, extent), image_index).scissor == (Rect2D {
            x: 0,
            y: 0,
            extent,
        }),
{
}

/// An out-of-date surface drops the frame without a target to render, asks
/// for a rebuild at once, and no frame begins before the rebuild.
pub proof fn lemma_out_of_date_skips_frame(v: SchedulerView)
    requires
        v.is_valid(),
        acquire_error(v, v.current, AcquireOutcome::OutOfDate) is None,
    ensures
        decision_of(v, AcquireOutcome::OutOfDate) == DecisionView::Skip(
            SkippedFrame { fence_slot: v.current as usize, recreate_now: true },
        ),
        after_acquire(v, AcquireOutcome::OutOfDate).recreate_pending,
        begin_error(after_acquire(v, AcquireOutcome::OutOfDate)) == Some(
            SchedulerError::RecreateRequired,
        ),
        !holds_frame(after_acquire(v, AcquireOutcome::OutOfDate), v.current),
{
}

/// After an out-of-date surface, the rebuild goes through: once the device is
/// idle nothing is held or in flight, and after a fresh swapchain is installed
/// the next frame begins and renders to an image of the fresh swapchain.
pub proof fn lemma_rebuild_after_out_of_date(
    v: SchedulerView,
    fresh: SwapchainView,
    image_index: u32,
)
    requires
        v.is_valid(),
        acquire_error(v, v.current, AcquireOutcome::OutOfDate) is None,
        fresh.is_consistent(),
        image_index < fresh.images.len(),
    ensures
        is_quiet(after_device_idle(after_acquire(v, AcquireOutcome::OutOfDate))),
        begin_error(
            after_install(
                after_retire(after_device_idle(after_acquire(v, AcquireOutcome::OutOfDate))),
                fresh,
            ),
        ) is None,
        acquire_error(
            after_begin(
                after_install(
                    after_retire(after_device_idle(after_acquire(v, AcquireOutcome::OutOfDate))),
                    fresh,
                ),
            ),
            v.current,
            AcquireOutcome::Acquired { image_index, suboptimal: false },
        ) is None,
        target_of(
            after_begin(
                after_install(
                    after_retire(after_device_idle(after_acquire(v, AcquireOutcome::OutOfDate))),
                    fresh,
                ),
            ),
            image_index,
        ).framebuffer == fresh.framebuffers[image_index as int],
{
}

impl FrameScheduler {
    /// A scheduler with `frames_in_flight` slots whose fences all start
    /// signaled, no swapchain yet, and a target of the window's size.
    pub fn new(frames_in_flight: usize, policy: SwapchainPolicy, window: Extent2D) -> (r:
        FrameScheduler)
        requires
            frames_in_flight > 0,
        ensures
            r@ == (SchedulerView {
                fences: all_signaled(frames_in_flight as nat),
                current: 0,
                target_extent: window,
                swapchain: None,
                recreate_pending: false,
                preferred_formats: policy.preferred_formats@,
                preferred_present_modes: policy.preferred_present_modes@,
                image_usage: policy.image_usage,
            }),
            r@.is_valid(),
    {
        let sync = FrameSync::new(frames_in_flight);
        FrameScheduler {
            sync,
            current: 0,
            target_extent: window,
            swapchain: None,
            recreate_pending: false,
            policy,
        }
    }

    pub fn frames_in_flight(&self) -> (r: usize)
        ensures
            r == self@.fences.len(),
    {
        self.sync.slot_count()
    }

    pub fn current_slot(&self) -> (r: usize)
        ensures
            r == self@.current,
    {
        self.current
    }

    pub fn fence_state(&self, slot: usize) -> (r: Option<FenceState>)
        ensures
            r == if slot < self@.fences.len() {
                Some(self@.fences[slot as int])
            } else {
                None::<FenceState>
            },
    {
        if slot < self.sync.slot_count() {
            Some(self.sync.state(slot))
        } else {
            None
        }
    }

    pub fn target_extent(&self) -> (r: Extent2D)
        ensures
            r == self@.target_extent,
    {
        self.target_extent
    }

    pub fn recreate_pending(&self) -> (r: bool)
        ensures
            r == self@.recreate_pending,
    {
        self.recreate_pending
    }

    /// Whether the swapchain must be built or rebuilt before the next frame.
    pub fn needs_swapchain(&self) -> (r: bool)
        ensures
            r == (self@.swapchain is None || self@.recreate_pending),
    {
        self.swapchain.is_none() || self.recreate_pending
    }

    pub fn swapchain_handle(&self) -> (r: Option<u64>)
        ensures
            r == match self@.swapchain {
                Some(s) => Some(s.handle),
                None => None::<u64>,
            },
    {
        match &self.swapchain {
            Some(s) => Some(s.handle()),
            None => None,
        }
    }

    pub fn swapchain_config(&self) -> (r: Option<SwapchainConfig>)
        ensures
            r == match self@.swapchain {
                Some(s) => Some(s.config),
                None => None::<SwapchainConfig>,
            },
    {
        match &self.swapchain {
            Some(s) => Some(s.config()),
            None => None,
        }
    }

    /// The number of images of the swapchain, and of its views and framebuffers.
    pub fn image_count(&self) -> (r: Option<usize>)
        ensures
            r == match self@.swapchain {
                Some(s) => Some(s.images.len() as usize),
                None => None::<usize>,
            },
            self@.swapchain matches Some(s) ==> s.is_consistent(),
    {
        match &self.swapchain {
            Some(s) => Some(s.image_count()),
            None => None,
        }
    }

    /// The slot whose fence the host must wait for before the next frame:
    /// the current one, if work signaling it is in flight.
    pub fn fence_to_wait(&self) -> (r: Option<usize>)
        requires
            self@.is_valid(),
        ensures
            r == if self@.fences[self@.current as int] == FenceState::Pending {
                Some(self@.current as usize)
            } else {
                None::<usize>
            },
    {
        if self.sync.state(self.current) == FenceState::Pending {
            Some(self.current)
        } else {
            None
        }
    }

    /// Records that the host saw the fence of `slot` signal. Reports whether
    /// the fence was awaiting work; otherwise nothing changes.
    pub fn fence_signaled(&mut self, slot: usize) -> (r: bool)
        requires
            old(self)@.is_valid(),
        ensures
            final(self)@.is_valid(),
            r == (slot < old(self)@.fences.len() && old(self)@.fences[slot as int]
                == FenceState::Pending),
            final(self)@ == if r {
                with_fence(old(self)@, slot as nat, FenceState::Signaled)
            } else {
                old(self)@
            },
    {
        if slot < self.sync.slot_count() {
            self.sync.complete(slot)
        } else {
            false
        }
    }

    /// Begins a frame on the current slot: the slot's fence must be signaled,
    /// and is reset.
    pub fn begin_frame(&mut self) -> (r: Result<FrameToken, SchedulerError>)
        requires
            old(self)@.is_valid(),
        ensures
            final(self)@.is_valid(),
            match begin_error(old(self)@) {
                Some(e) => r == Err::<FrameToken, SchedulerError>(e) && final(self)@ == old(self)@,
                None => r matches Ok(t) && t@ == old(self)@.current && old(self)@.fences[t@ as int]
                    == FenceState::Signaled && final(self)@ == after_begin(old(self)@),
            },
    {
        if self.swapchain.is_none() {
            return Err(SchedulerError::NoSwapchain);
        }
        if self.recreate_pending {
            return Err(SchedulerError::RecreateRequired);
        }
        let state = self.sync.state(self.current);
        if state == FenceState::Pending {
            return Err(SchedulerError::FenceNotSignaled);
        }
        if state == FenceState::Reset {
            return Err(SchedulerError::FrameInProgress);
        }
        let slot = self.current;
        self.sync.reset(slot);
        Ok(FrameToken { slot })
    }

    /// Decides what the frame of `token` does with its acquisition.
    ///
    /// An image is rendered to, and a suboptimal one also asks for a rebuild
    /// before the next acquisition. An out-of-date surface or a timeout drops
    /// the frame: the slot's fence is then owed a signal from a submission
    /// without work, and an out-of-date surface asks for a rebuild at once.
    /// An image index beyond the swapchain is a device fault: it is refused
    /// and the frame keeps the slot.
    pub fn image_acquired(&mut self, token: FrameToken, outcome: AcquireOutcome) -> (r: Result<
        AcquireDecision,
        SchedulerError,
    >)
        requires
            old(self)@.is_valid(),
        ensures
            final(self)@.is_valid(),
            match acquire_error(old(self)@, token@, outcome) {
                Some(e) => r == Err::<AcquireDecision, SchedulerError>(e) && final(self)@ == old(self)@,
                None => r matches Ok(d) && d@ == decision_of(old(self)@, outcome) && final(self)@
                    == after_acquire(old(self)@, outcome),
            },
    {
        let slot = token.slot;
        if slot != self.current || self.sync.state(slot) != FenceState::Reset
            || self.swapchain.is_none() {
            return Err(SchedulerError::StaleFrame);
        }
        match outcome {
            AcquireOutcome::Acquired { image_index, suboptimal } => {
                let (framebuffer, render_area) = match &self.swapchain {
                    Some(s) => match s.framebuffer_for(image_index) {
                        Some(fb) => (fb, s.extent()),
                        None => return Err(SchedulerError::ImageOutOfRange),
                    },
                    None => return Err(SchedulerError::StaleFrame),
                };
                if suboptimal {
                    self.recreate_pending = true;
                }
                let target = FrameTarget {
                    slot,
                    image_index,
                    framebuffer,
                    render_area,
                    viewport: self.target_extent,
                    scissor: Rect2D::at_origin(self.target_extent),
                };
                Ok(AcquireDecision::Render(target))
            },
            AcquireOutcome::OutOfDate => {
                self.sync.submit(slot);
                self.recreate_pending = true;
                Ok(AcquireDecision::Skip(SkippedFrame { fence_slot: slot, recreate_now: true }))
            },
            AcquireOutcome::Timeout => {
                self.sync.submit(slot);
                Ok(AcquireDecision::Skip(SkippedFrame { fence_slot: slot, recreate_now: false }))
            },
        }
    }

    /// Records that the frame of `target` was submitted with the slot's fence,
    /// and moves on to the next slot. The frame is then presented as the
    /// result says.
    pub fn frame_submitted(&mut self, target: FrameTarget) -> (r: Result<
        PresentRequest,
        SchedulerError,
    >)
        requires
            old(self)@.is_valid(),
        ensures
            final(self)@.is_valid(),
            !holds_frame(old(self)@, target@.slot) ==> r == Err::<PresentRequest, SchedulerError>(
                SchedulerError::StaleFrame,
            ) && final(self)@ == old(self)@,
            holds_frame(old(self)@, target@.slot) ==> r == Ok::<PresentRequest, SchedulerError>(
                PresentRequest {
                    slot: target@.slot as usize,
                    image_index: target@.image_index,
                },
            ) && final(self)@ == after_submit(old(self)@),
    {
        let slot = target.slot;
        if slot != self.current || self.sync.state(slot) != FenceState::Reset {
            return Err(SchedulerError::StaleFrame);
        }
        let n = self.sync.slot_count();
        self.sync.submit(slot);
        self.current = (self.current + 1) % n;
        Ok(PresentRequest { slot, image_index: target.image_index })
    }

    /// Records how a presentation went: a suboptimal or out-of-date surface
    /// asks for a rebuild before the next acquisition.
    pub fn presented(&mut self, outcome: PresentOutcome)
        requires
            old(self)@.is_valid(),
        ensures
            final(self)@.is_valid(),
            final(self)@ == (SchedulerView {
                recreate_pending: old(self)@.recreate_pending || outcome
                    != PresentOutcome::Presented,
                ..old(self)@
            }),
    {
        if outcome != PresentOutcome::Presented {
            self.recreate_pending = true;
        }
    }

    /// Records a new window size. Nothing waits and nothing is rebuilt here:
    /// the size is used by the next frame's viewport and scissor, and by the
    /// next rebuild.
    pub fn notify_resize(&mut self, width: u32, height: u32)
        requires
            old(self)@.is_valid(),
        ensures
            final(self)@.is_valid(),
            final(self)@ == resized(old(self)@, Extent2D { width, height }),
    {
        self.target_extent = Extent2D::new(width, height);
    }

    /// Records that the device went idle: all submitted work has completed.
    pub fn device_idle(&mut self)
        requires
            old(self)@.is_valid(),
        ensures
            final(self)@.is_valid(),
            final(self)@ == after_device_idle(old(self)@),
    {
        self.sync.settle_all();
    }

    /// Gives up the swapchain before a rebuild or at shutdown, and lists what
    /// the device must release, in order. Refused while any slot holds a
    /// frame or awaits work.
    pub fn retire_swapchain(&mut self) -> (r: Result<Vec<Release>, SchedulerError>)
        requires
            old(self)@.is_valid(),
        ensures
            final(self)@.is_valid(),
            !is_quiet(old(self)@) ==> r == Err::<Vec<Release>, SchedulerError>(
                SchedulerError::DeviceBusy,
            ) && final(self)@ == old(self)@,
            is_quiet(old(self)@) ==> (r matches Ok(list) && list@ == match old(self)@.swapchain {
                Some(s) => teardown_order(s),
                None => Seq::<Release>::empty(),
            }),
            is_quiet(old(self)@) ==> final(self)@ == after_retire(old(self)@),
    {
        if !self.sync.is_quiet() {
            return Err(SchedulerError::DeviceBusy);
        }
        let old_swapchain = self.swapchain.take();
        match old_swapchain {
            Some(s) => Ok(s.teardown()),
            None => Ok(Vec::new()),
        }
    }

    /// The configuration of the next swapchain on a surface with these
    /// capabilities, formats and present modes, sized for the target.
    pub fn negotiate(
        &self,
        caps: &SurfaceCapabilities,
        formats: &Vec<SurfaceFormat>,
        modes: &Vec<i32>,
    ) -> (r: Result<SwapchainConfig, NegotiationError>)
        ensures
            r == negotiation_result(
                self@.preferred_formats,
                self@.preferred_present_modes,
                self@.image_usage,
                *caps,
                formats@,
                modes@,
                self@.target_extent,
            ),
    {
        self.policy.negotiate(caps, formats, modes, self.target_extent)
    }

    /// Takes a new swapchain. Where one is still held, the new one is handed
    /// back untouched.
    pub fn install(&mut self, resources: SwapchainResources) -> (r: Result<
        (),
        SwapchainResources,
    >)
        requires
            old(self)@.is_valid(),
        ensures
            final(self)@.is_valid(),
            old(self)@.swapchain is Some ==> (r matches Err(back) && back@ == resources@),
            old(self)@.swapchain is Some ==> final(self)@ == old(self)@,
            old(self)@.swapchain is None ==> r is Ok && final(self)@ == after_install(
                old(self)@,
                resources@,
            ),
            final(self)@.swapchain matches Some(s) ==> s.is_consistent(),
    {
        proof {
            use_type_invariant(&resources);
            if let Some(s) = &self.swapchain {
                use_type_invariant(s);
            }
        }
        if self.swapchain.is_some() {
            return Err(resources);
        }
        self.swapchain = Some(resources);
        self.recreate_pending = false;
        Ok(())
    }
}

impl FrameToken {
    pub fn slot(&self) -> (r: usize)
        ensures
            r == self@,
    {
        self.slot
    }
}

impl FrameTarget {
    pub fn slot(&self) -> (r: usize)
        ensures
            r == self@.slot,
    {
        self.slot
    }

    pub fn image_index(&self) -> (r: u32)
        ensures
            r == self@.image_index,
    {
        self.image_index
    }

    pub fn framebuffer(&self) -> (r: u64)
        ensures
            r == self@.framebuffer,
    {
        self.framebuffer
    }

    pub fn render_area(&self) -> (r: Extent2D)
        ensures
            r == self@.render_area,
    {
        self.render_area
    }

    pub fn viewport(&self) -> (r: Extent2D)
        ensures
            r == self@.viewport,
    {
        self.viewport
    }

    pub fn scissor(&self) -> (r: Rect2D)
        ensures
            r == self@.scissor,
    {
        self.scissor
    }
}

} // verus!
