//! Frames that arrive as images of the producer, and what is owed for them.
//!
//! A frame waits in the presenter until it is drawn or replaced by a newer one.
//! What is owed for a frame that was drawn stays with the slot of its submission
//! until the fence of that slot signals: a release before that would let the
//! producer race the pending wait on its own semaphore.

use crate::geometry::Extent2D;
#[allow(unused_imports)]
use crate::content::ContentPresentationState;
use crate::presenter::WsiPresenter;
use crate::resources::FORMAT_UNDEFINED;
use vstd::multiset::Multiset;
use vstd::prelude::*;

verus! {

/// The images that a producer shares.
#[derive(Debug)]
pub struct DirectBinding {
    pub generation: u64,
    pub content_token: u64,
    pub presentation_config_generation: u64,
    pub images: Vec<u64>,
    /// One view per image, zero until it is needed.
    pub views: Vec<u64>,
    /// The format of the images, undefined until the first frame tells.
    pub format: i32,
    pub extent: Extent2D,
}

/// A frame that waits to be drawn.
#[derive(Clone, Copy, Debug, PartialEq, Eq, Structural)]
pub struct DirectFrame {
    pub image: u64,
    pub image_view: u64,
    pub extent: Extent2D,
    pub layout: i32,
    pub external_queue_family: u32,
    pub acquire_semaphore: u64,
    pub release_syncobj_fd: i32,
    pub buffer_generation: u64,
    pub seq: u64,
}

/// What is owed to the producer for one frame.
#[derive(Clone, Copy, Debug, PartialEq, Eq, Structural)]
pub struct DirectRelease {
    pub release_syncobj_fd: i32,
    pub buffer_generation: u64,
    pub seq: u64,
}

/// One slot of the frames that may be in flight.
#[derive(Clone, Copy, Debug, PartialEq, Eq, Structural)]
pub struct FrameContext {
    pub command_pool: u64,
    pub command_buffer: u64,
    pub image_available: u64,
    pub fence: u64,
    pub descriptor_set: u64,
    pub pending_release: Option<DirectRelease>,
}

/// How long to wait for the frames in flight before a binding is given up.
pub const RESOURCE_RETIRE_TIMEOUT_NS: u64 = 2_000_000_000;

/// A frame as the producer announces it.
#[derive(Clone, Copy, Debug, PartialEq, Eq, Structural)]
pub struct IncomingFrame {
    pub buffer_generation: u64,
    pub buffer_index: u32,
    pub seq: u64,
    /// Zero where the producer sent none.
    pub acquire_semaphore: u64,
    /// Negative where the producer sent none.
    pub release_syncobj_fd: i32,
    pub image: u64,
    pub extent: Extent2D,
    pub format: i32,
    pub layout: i32,
    pub external_queue_family: u32,
}

/// Why images of a producer are not taken over.
#[derive(Clone, Copy, Debug, PartialEq, Eq, Structural)]
pub enum BindingError {
    /// Other images are still in use.
    AlreadyBound,
    /// The images carry no content token.
    ZeroToken,
    /// The images belong to another presentation configuration.
    StaleConfig { referenced: u64, current: u64 },
}

/// Why a frame is not taken over.
#[derive(Clone, Copy, Debug, PartialEq, Eq, Structural)]
pub enum FrameError {
    /// No images are bound.
    Unbound,
    /// The frame does not belong to the bound images.
    Mismatch,
    /// The frame lacks a semaphore to wait for or a file to release it by.
    MissingSync,
    /// The frame has another format than those before it.
    FormatChanged,
}

/// What taking over a frame comes to.
#[derive(Clone, Copy, Debug, PartialEq, Eq, Structural)]
pub enum FrameStep {
    Rejected(FrameError),
    /// A view of the image is needed first.
    CreateView { image: u64, format: i32 },
    /// The frame takes the place of one that was never drawn: resolve `release`,
    /// and store `frame` once that worked.
    Supersede { release: DirectRelease, frame: DirectFrame },
    /// The frame waits to be drawn.
    Stored,
}

/// Why a release could not be resolved.
#[derive(Clone, Copy, Debug, PartialEq, Eq, Structural)]
pub enum ReleaseError {
    SignalFailed,
    AcknowledgeFailed,
}

/// What resolving a release comes to.
#[derive(Clone, Copy, Debug, PartialEq, Eq, Structural)]
pub enum ReleaseStep {
    /// Tell the producer.
    Acknowledge,
    Resolved,
    Failed(ReleaseError),
}

/// What is known of the fences of all frames.
#[derive(Clone, Copy, Debug, PartialEq, Eq, Structural)]
pub enum IdleStep {
    Query { fence: u64 },
    Busy,
    Idle,
}

/// Where a walk over the frame slots stands.
#[derive(Clone, Copy, Debug, PartialEq, Eq, Structural)]
pub struct DrainCycle {
    pub slot: usize,
    /// A release could not be resolved.
    pub failed: bool,
}

/// What the last action of the walk came to.
#[derive(Clone, Copy, Debug, PartialEq, Eq, Structural)]
pub enum DrainEvent {
    Fence(bool),
    Resolved(bool),
}

/// What the walk needs next.
#[derive(Clone, Copy, Debug, PartialEq, Eq, Structural)]
pub enum DrainAction {
    QueryFence { fence: u64 },
    Resolve(DirectRelease),
    /// The walk is over; `pending` tells whether anything is still owed.
    Done { pending: bool },
    /// The walk is over, and a release could not be resolved.
    Failed,
}

/// What giving up a binding waits for.
#[derive(Clone, Copy, Debug, PartialEq, Eq, Structural)]
pub enum RetirePhase {
    Discard,
    Frames,
    Device,
    Drain,
    Finished,
}

/// What giving up a binding remembers.
#[derive(Clone, Copy, Debug, PartialEq, Eq, Structural)]
pub struct RetireCycle {
    pub phase: RetirePhase,
    /// The frame that was never drawn could not be released.
    pub discard_failed: bool,
}

/// What the last action of giving up a binding came to.
#[derive(Clone, Copy, Debug, PartialEq, Eq, Structural)]
pub enum RetireEvent {
    Resolved(bool),
    FramesIdle(bool),
    DeviceIdle,
    Drained(bool),
}

/// What giving up a binding came to.
#[derive(Clone, Copy, Debug, PartialEq, Eq, Structural)]
pub enum RetireOutcome {
    Clean,
    DiscardFailed,
    ReleaseFailed,
}

/// What giving up a binding needs next.
#[derive(Debug)]
pub enum RetireAction {
    Resolve(DirectRelease),
    /// Wait for all of these fences, for a limited time.
    WaitFrames { fences: Vec<u64> },
    /// Wait for the whole device.
    WaitDevice,
    /// Resolve the releases of the slots.
    Drain,
    /// Destroy these views; the binding is gone.
    Done { views: Vec<u64>, outcome: RetireOutcome },
}

impl DirectBinding {
    /// There is a view, if only a null one, for each image.
    pub open spec fn wf(self) -> bool {
        self.views@.len() == self.images@.len()
    }

    /// Whether a frame belongs to the images.
    pub open spec fn holds(self, incoming: IncomingFrame) -> bool {
        &&& incoming.buffer_generation == self.generation
        &&& incoming.buffer_index < self.images@.len()
        &&& self.images@[incoming.buffer_index as int] == incoming.image
        &&& self.extent == incoming.extent
    }

    /// The frame to be drawn, seen through `image_view`.
    pub open spec fn frame(self, incoming: IncomingFrame, image_view: u64) -> DirectFrame {
        DirectFrame {
            image: incoming.image,
            image_view,
            extent: self.extent,
            layout: incoming.layout,
            external_queue_family: incoming.external_queue_family,
            acquire_semaphore: incoming.acquire_semaphore,
            release_syncobj_fd: incoming.release_syncobj_fd,
            buffer_generation: incoming.buffer_generation,
            seq: incoming.seq,
        }
    }
}

/// The first slot from `from` on that something is owed for.
pub open spec fn next_owing(frames: Seq<FrameContext>, from: int) -> Option<int>
    decreases frames.len() - from,
{
    if from < 0 || from >= frames.len() {
        None
    } else if frames[from].pending_release is Some {
        Some(from)
    } else {
        next_owing(frames, from + 1)
    }
}

/// Whether anything is owed for a slot.
pub open spec fn any_owing(frames: Seq<FrameContext>) -> bool {
    exists|slot: int| 0 <= slot < frames.len() && #[trigger] frames[slot].pending_release is Some
}

/// The slots with what is owed for one of them taken out.
pub open spec fn paid(frames: Seq<FrameContext>, slot: int) -> Seq<FrameContext> {
    frames.update(slot, FrameContext { pending_release: None, ..frames[slot] })
}

/// What is owed for the slots.
pub open spec fn owed_for(frames: Seq<FrameContext>) -> Multiset<DirectRelease>
    decreases frames.len(),
{
    if frames.len() == 0 {
        Multiset::empty()
    } else {
        match frames.last().pending_release {
            Some(release) => owed_for(frames.drop_last()).insert(release),
            None => owed_for(frames.drop_last()),
        }
    }
}

/// The views that exist.
pub open spec fn live_views(views: Seq<u64>) -> Seq<u64> {
    views.filter(|view: u64| view != 0)
}

/// What follows from signaling a release, and, where `connected` says that there is
/// a producer to tell, from telling it. Without a producer a release counts as
/// resolved, signaled or not.
pub fn resolve_direct_release(
    connected: bool,
    signaled: bool,
    acknowledged: Option<bool>,
) -> (step: ReleaseStep)
    ensures
        step == (if !connected {
            ReleaseStep::Resolved
        } else if !signaled {
            ReleaseStep::Failed(ReleaseError::SignalFailed)
        } else {
            match acknowledged {
                None => ReleaseStep::Acknowledge,
                Some(true) => ReleaseStep::Resolved,
                Some(false) => ReleaseStep::Failed(ReleaseError::AcknowledgeFailed),
            }
        }),
{
    if !signaled {
        if !connected {
            return ReleaseStep::Resolved;
        }
        return ReleaseStep::Failed(ReleaseError::SignalFailed);
    }
    if connected {
        match acknowledged {
            None => ReleaseStep::Acknowledge,
            Some(done) => if done {
                ReleaseStep::Resolved
            } else {
                ReleaseStep::Failed(ReleaseError::AcknowledgeFailed)
            },
        }
    } else {
        ReleaseStep::Resolved
    }
}

/// What has to be resolved for a frame that is turned away: nothing where the
/// producer sent no file to release it by.
pub fn discard_direct_frame(frame: &IncomingFrame) -> (release: Option<DirectRelease>)
    ensures
        release == (if frame.release_syncobj_fd < 0 {
            None
        } else {
            Some(
                DirectRelease {
                    release_syncobj_fd: frame.release_syncobj_fd,
                    buffer_generation: frame.buffer_generation,
                    seq: frame.seq,
                },
            )
        }),
{
    if frame.release_syncobj_fd < 0 {
        return None;
    }
    Some(
        DirectRelease {
            release_syncobj_fd: frame.release_syncobj_fd,
            buffer_generation: frame.buffer_generation,
            seq: frame.seq,
        },
    )
}

impl WsiPresenter {
    /// What is owed to the producer: for the frame that waits and for the slots.
    pub open spec fn owed(self) -> Multiset<DirectRelease> {
        match self.pending_direct_frame {
            Some(frame) => owed_for(self.frames@).insert(frame.owed()),
            None => owed_for(self.frames@),
        }
    }

    /// Why images with these marks are not taken over, if so.
    pub open spec fn binding_error(
        self,
        content_token: u64,
        presentation_config_generation: u64,
    ) -> Option<BindingError> {
        if self.direct_binding is Some {
            Some(BindingError::AlreadyBound)
        } else if content_token == 0 {
            Some(BindingError::ZeroToken)
        } else if presentation_config_generation != self.presentation_config_generation {
            Some(
                BindingError::StaleConfig {
                    referenced: presentation_config_generation,
                    current: self.presentation_config_generation,
                },
            )
        } else {
            None
        }
    }

    /// Why a frame is not taken over, if so.
    pub open spec fn frame_error(self, incoming: IncomingFrame) -> Option<FrameError> {
        match self.direct_binding {
            None => Some(FrameError::Unbound),
            Some(binding) => if !binding.holds(incoming) {
                Some(FrameError::Mismatch)
            } else if incoming.acquire_semaphore == 0 || incoming.release_syncobj_fd < 0 {
                Some(FrameError::MissingSync)
            } else if binding.format != FORMAT_UNDEFINED && binding.format != incoming.format {
                Some(FrameError::FormatChanged)
            } else {
                None
            },
        }
    }

    /// The presenter with the format of its images known.
    pub open spec fn with_format(self, format: i32) -> WsiPresenter {
        WsiPresenter {
            direct_binding: match self.direct_binding {
                Some(binding) => Some(DirectBinding { format, ..binding }),
                None => None,
            },
            ..self
        }
    }

    /// What follows for a frame that is accepted: one that waits makes room first.
    pub open spec fn superseded_by(self, frame: DirectFrame) -> (WsiPresenter, FrameStep) {
        match self.pending_direct_frame {
            Some(waiting) => (
                WsiPresenter { pending_direct_frame: None, ..self },
                FrameStep::Supersede { release: waiting.owed(), frame },
            ),
            None => (
                WsiPresenter { pending_direct_frame: Some(frame), ..self },
                FrameStep::Stored,
            ),
        }
    }

    /// Whether images of a producer are in use.
    pub fn has_direct_binding(&self) -> (bound: bool)
        ensures
            bound == (self.direct_binding is Some),
    {
        self.direct_binding.is_some()
    }

    /// Takes over the images of a producer. Where that calls off a change of
    /// content, its transition is dropped.
    pub fn install_direct_binding(
        &mut self,
        generation: u64,
        content_token: u64,
        presentation_config_generation: u64,
        extent: Extent2D,
        images: &[u64],
    ) -> (result: Result<(), BindingError>)
        ensures
            match old(self).binding_error(content_token, presentation_config_generation) {
                Some(error) => result == Err::<(), BindingError>(error) && *final(self) == *old(
                    self,
                ),
                None => {
                    let cancels = old(self).content_presentation.cancels(content_token);
                    &&& result is Ok
                    &&& final(self).direct_binding is Some
                    &&& final(self).direct_binding->0.wf()
                    &&& final(self).direct_binding->0.images@ == images@
                    &&& final(self).direct_binding->0.views@ == Seq::new(
                        images@.len(),
                        |index: int| 0u64,
                    )
                    &&& final(self).direct_binding->0 == (DirectBinding {
                        generation,
                        content_token,
                        presentation_config_generation,
                        images: final(self).direct_binding->0.images,
                        views: final(self).direct_binding->0.views,
                        format: FORMAT_UNDEFINED,
                        extent,
                    })
                    &&& *final(self) == (WsiPresenter {
                        direct_binding: final(self).direct_binding,
                        content_presentation: old(self).content_presentation.bound_to(
                            content_token,
                        ),
                        prepared_transition: if cancels {
                            None
                        } else {
                            old(self).prepared_transition
                        },
                        active_transition: if cancels {
                            None
                        } else {
                            old(self).active_transition
                        },
                        ..*old(self)
                    })
                },
            },
            old(self).wf() ==> final(self).wf(),
    {
        if self.direct_binding.is_some() {
            return Err(BindingError::AlreadyBound);
        }
        if content_token == 0 {
            return Err(BindingError::ZeroToken);
        }
        if presentation_config_generation != self.presentation_config_generation {
            return Err(
                BindingError::StaleConfig {
                    referenced: presentation_config_generation,
                    current: self.presentation_config_generation,
                },
            );
        }
        let mut kept: Vec<u64> = Vec::new();
        let mut views: Vec<u64> = Vec::new();
        for index in 0..images.len()
            invariant
                kept@ == images@.take(index as int),
                views@ == Seq::new(index as nat, |at: int| 0u64),
        {
            kept.push(images[index]);
            views.push(0);
            assert(kept@ =~= images@.take(index + 1));
            assert(views@ =~= Seq::new((index + 1) as nat, |at: int| 0u64));
        }
        assert(images@.take(images@.len() as int) =~= images@);
        self.direct_binding = Some(
            DirectBinding {
                generation,
                content_token,
                presentation_config_generation,
                images: kept,
                views,
                format: FORMAT_UNDEFINED,
                extent,
            },
        );
        if self.content_presentation.bind(content_token) {
            self.prepared_transition = None;
            self.active_transition = None;
        }
        Ok(())
    }

    fn supersede(&mut self, frame: DirectFrame) -> (step: FrameStep)
        ensures
            (*final(self), step) == old(self).superseded_by(frame),
            old(self).wf() ==> final(self).wf(),
    {
        match self.pending_direct_frame {
            Some(waiting) => {
                self.pending_direct_frame = None;
                FrameStep::Supersede { release: waiting.release(), frame }
            },
            None => {
                self.pending_direct_frame = Some(frame);
                FrameStep::Stored
            },
        }
    }

    /// Takes over a frame of the producer, to be drawn next. The first frame tells
    /// the format of the images.
    pub fn replace_pending_direct_frame(&mut self, incoming: &IncomingFrame) -> (step: FrameStep)
        requires
            old(self).wf(),
        ensures
            final(self).wf(),
            match old(self).frame_error(*incoming) {
                Some(error) => step == FrameStep::Rejected(error) && *final(self) == *old(self),
                None => {
                    let binding = old(self).direct_binding->0;
                    let image_view = binding.views@[incoming.buffer_index as int];
                    let formatted = old(self).with_format(incoming.format);
                    if image_view == 0 {
                        &&& step == (FrameStep::CreateView {
                            image: incoming.image,
                            format: incoming.format,
                        })
                        &&& *final(self) == formatted
                    } else {
                        (*final(self), step) == formatted.superseded_by(
                            binding.frame(*incoming, image_view),
                        )
                    }
                },
            },
    {
        let index: usize = incoming.buffer_index as usize;
        let image_view: u64;
        match &mut self.direct_binding {
            None => {
                return FrameStep::Rejected(FrameError::Unbound);
            },
            Some(binding) => {
                if incoming.buffer_generation != binding.generation || index
                    >= binding.images.len() || binding.images[index] != incoming.image
                    || binding.extent != incoming.extent {
                    return FrameStep::Rejected(FrameError::Mismatch);
                }
                if incoming.acquire_semaphore == 0 || incoming.release_syncobj_fd < 0 {
                    return FrameStep::Rejected(FrameError::MissingSync);
                }
                if binding.format == FORMAT_UNDEFINED {
                    binding.format = incoming.format;
                } else if binding.format != incoming.format {
                    return FrameStep::Rejected(FrameError::FormatChanged);
                }
                image_view = binding.views[index];
            },
        }
        if image_view == 0 {
            return FrameStep::CreateView { image: incoming.image, format: incoming.format };
        }
        let frame = Self::seen_through(incoming, image_view);
        self.supersede(frame)
    }

    fn seen_through(incoming: &IncomingFrame, image_view: u64) -> (frame: DirectFrame)
        ensures
            frame == (DirectFrame {
                image: incoming.image,
                image_view,
                extent: incoming.extent,
                layout: incoming.layout,
                external_queue_family: incoming.external_queue_family,
                acquire_semaphore: incoming.acquire_semaphore,
                release_syncobj_fd: incoming.release_syncobj_fd,
                buffer_generation: incoming.buffer_generation,
                seq: incoming.seq,
            }),
    {
        DirectFrame {
            image: incoming.image,
            image_view,
            extent: incoming.extent,
            layout: incoming.layout,
            external_queue_family: incoming.external_queue_family,
            acquire_semaphore: incoming.acquire_semaphore,
            release_syncobj_fd: incoming.release_syncobj_fd,
            buffer_generation: incoming.buffer_generation,
            seq: incoming.seq,
        }
    }

    /// Goes on with a frame once a view of its image exists. The view is kept for
    /// later frames in the same image.
    pub fn attach_direct_view(&mut self, incoming: &IncomingFrame, image_view: u64) -> (step:
        FrameStep)
        requires
            old(self).wf(),
            old(self).frame_error(*incoming) is None,
        ensures
            final(self).wf(),
            final(self).direct_binding is Some,
            final(self).direct_binding->0.views@ == old(self).direct_binding->0.views@.update(
                incoming.buffer_index as int,
                image_view,
            ),
            (*final(self), step) == (WsiPresenter {
                direct_binding: Some(
                    DirectBinding {
                        views: final(self).direct_binding->0.views,
                        ..old(self).direct_binding->0
                    },
                ),
                ..*old(self)
            }).superseded_by(old(self).direct_binding->0.frame(*incoming, image_view)),
    {
        let index: usize = incoming.buffer_index as usize;
        if let Some(binding) = &mut self.direct_binding {
            binding.views.set(index, image_view);
        }
        let frame = Self::seen_through(incoming, image_view);
        self.supersede(frame)
    }

    /// Keeps a frame whose predecessor was resolved.
    pub fn store_direct_frame(&mut self, frame: DirectFrame)
        ensures
            *final(self) == (WsiPresenter { pending_direct_frame: Some(frame), ..*old(self) }),
            old(self).wf() ==> final(self).wf(),
    {
        self.pending_direct_frame = Some(frame);
    }

    /// Gives up the frame that waits, and says what is owed for it.
    pub fn discard_pending_direct_frame(&mut self) -> (release: Option<DirectRelease>)
        ensures
            release == (match old(self).pending_direct_frame {
                Some(frame) => Some(frame.owed()),
                None => None,
            }),
            *final(self) == (WsiPresenter { pending_direct_frame: None, ..*old(self) }),
            old(self).wf() ==> final(self).wf(),
    {
        match self.pending_direct_frame {
            Some(frame) => {
                self.pending_direct_frame = None;
                Some(frame.release())
            },
            None => None,
        }
    }

    /// The fences of all slots.
    pub fn frame_fences(&self) -> (fences: Vec<u64>)
        ensures
            fences@ == self.frames@.map_values(|frame: FrameContext| frame.fence),
    {
        let mut fences: Vec<u64> = Vec::new();
        for index in 0..self.frames.len()
            invariant
                fences@ == self.frames@.take(index as int).map_values(
                    |frame: FrameContext| frame.fence,
                ),
        {
            fences.push(self.frames[index].fence);
            assert(fences@ =~= self.frames@.take(index + 1).map_values(
                |frame: FrameContext| frame.fence,
            ));
        }
        assert(self.frames@.take(self.frames@.len() as int) =~= self.frames@);
        fences
    }

    /// Whether all frames are idle, asking for one fence after the other:
    /// `signaled` holds the replies so far. The first fence that has not signaled
    /// settles it.
    pub fn frames_idle(&self, signaled: &[bool]) -> (step: IdleStep)
        requires
            signaled@.len() <= self.frames@.len(),
        ensures
            step == (if signaled@.contains(false) {
                IdleStep::Busy
            } else if signaled@.len() == self.frames@.len() {
                IdleStep::Idle
            } else {
                IdleStep::Query { fence: self.frames@[signaled@.len() as int].fence }
            }),
    {
        for index in 0..signaled.len()
            invariant
                forall|at: int| 0 <= at < index ==> signaled@[at],
        {
            if !signaled[index] {
                assert(signaled@[index as int] == false);
                return IdleStep::Busy;
            }
        }
        if signaled.len() == self.frames.len() {
            IdleStep::Idle
        } else {
            IdleStep::Query { fence: self.frames[signaled.len()].fence }
        }
    }

    /// What the walk over the slots needs at its slot.
    pub open spec fn drain_step(self, cycle: DrainCycle) -> (DrainCycle, DrainAction) {
        match next_owing(self.frames@, cycle.slot as int) {
            Some(slot) => (
                DrainCycle { slot: slot as usize, ..cycle },
                DrainAction::QueryFence { fence: self.frames@[slot].fence },
            ),
            None => (
                DrainCycle { slot: self.frames@.len() as usize, ..cycle },
                if cycle.failed {
                    DrainAction::Failed
                } else {
                    DrainAction::Done { pending: any_owing(self.frames@) }
                },
            ),
        }
    }

    fn find_owing(&self, cycle: DrainCycle) -> (step: (DrainCycle, DrainAction))
        requires
            cycle.slot <= self.frames@.len(),
        ensures
            step == self.drain_step(cycle),
            step.0.slot <= self.frames@.len(),
            step.1 is QueryFence ==> step.0.slot < self.frames@.len()
                && self.frames@[step.0.slot as int].pending_release is Some,
    {
        let mut slot: usize = cycle.slot;
        while slot < self.frames.len()
            invariant
                cycle.slot <= slot <= self.frames@.len(),
                next_owing(self.frames@, cycle.slot as int) == next_owing(
                    self.frames@,
                    slot as int,
                ),
            decreases self.frames@.len() - slot,
        {
            if self.frames[slot].pending_release.is_some() {
                return (
                    DrainCycle { slot, ..cycle },
                    DrainAction::QueryFence { fence: self.frames[slot].fence },
                );
            }
            slot += 1;
        }
        if cycle.failed {
            return (DrainCycle { slot, ..cycle }, DrainAction::Failed);
        }
        let mut pending: bool = false;
        for index in 0..self.frames.len()
            invariant
                pending == any_owing(self.frames@.take(index as int)),
        {
            let ghost before = self.frames@.take(index as int);
            let ghost after = self.frames@.take(index + 1);
            if self.frames[index].pending_release.is_some() {
                pending = true;
                assert(after[index as int].pending_release is Some);
            } else if pending {
                let ghost at = choose|slot: int|
                    0 <= slot < before.len() && #[trigger] before[slot].pending_release is Some;
                assert(after[at].pending_release is Some);
            } else {
                assert forall|slot: int| 0 <= slot < after.len() implies !(
                #[trigger] after[slot].pending_release is Some) by {
                    if slot < index {
                        assert(after[slot] == before[slot]);
                    }
                }
            }
        }
        assert(self.frames@.take(self.frames@.len() as int) =~= self.frames@);
        (DrainCycle { slot, ..cycle }, DrainAction::Done { pending })
    }

    /// Starts to walk over the slots that something is owed for.
    pub fn begin_drain(&self) -> (step: (DrainCycle, DrainAction))
        ensures
            step == self.drain_step(DrainCycle { slot: 0, failed: false }),
            step.0.slot <= self.frames@.len(),
            step.1 is QueryFence ==> step.0.slot < self.frames@.len()
                && self.frames@[step.0.slot as int].pending_release is Some,
    {
        self.find_owing(DrainCycle { slot: 0, failed: false })
    }

    /// Goes on with the walk. A slot whose fence signaled gives up what is owed for
    /// it; one that could not be resolved is remembered and does not stop the walk.
    pub fn drain_completed_releases(&mut self, cycle: DrainCycle, event: DrainEvent) -> (step: (
        DrainCycle,
        DrainAction,
    ))
        requires
            cycle.slot < old(self).frames@.len(),
            event is Fence ==> old(self).frames@[cycle.slot as int].pending_release is Some,
        ensures
            match event {
                DrainEvent::Fence(true) => {
                    &&& step == (
                        cycle,
                        DrainAction::Resolve(
                            old(self).frames@[cycle.slot as int].pending_release->0,
                        ),
                    )
                    &&& final(self).frames@ == paid(old(self).frames@, cycle.slot as int)
                    &&& *final(self) == (WsiPresenter { frames: final(self).frames, ..*old(self) })
                },
                DrainEvent::Fence(false) => {
                    &&& step == old(self).drain_step(
                        DrainCycle { slot: (cycle.slot + 1) as usize, ..cycle },
                    )
                    &&& *final(self) == *old(self)
                },
                DrainEvent::Resolved(done) => {
                    &&& step == old(self).drain_step(
                        DrainCycle {
                            slot: (cycle.slot + 1) as usize,
                            failed: cycle.failed || !done,
                        },
                    )
                    &&& *final(self) == *old(self)
                },
            },
            step.0.slot <= final(self).frames@.len(),
            step.1 is QueryFence ==> step.0.slot < final(self).frames@.len()
                && final(self).frames@[step.0.slot as int].pending_release is Some,
            old(self).wf() ==> final(self).wf(),
    {
        let count: usize = self.frames.len();
        match event {
            DrainEvent::Fence(ready) => {
                if ready {
                    let mut slot: FrameContext = self.frames[cycle.slot];
                    let release: DirectRelease = slot.pending_release.unwrap();
                    slot.pending_release = None;
                    self.frames.set(cycle.slot, slot);
                    (cycle, DrainAction::Resolve(release))
                } else {
                    self.find_owing(DrainCycle { slot: cycle.slot + 1, ..cycle })
                }
            },
            DrainEvent::Resolved(done) => self.find_owing(
                DrainCycle { slot: cycle.slot + 1, failed: cycle.failed || !done },
            ),
        }
    }

    /// Starts to give up the images of a producer: the frame that waits goes first.
    pub fn begin_retire(&mut self) -> (step: (RetireCycle, RetireAction))
        ensures
            *final(self) == (WsiPresenter { pending_direct_frame: None, ..*old(self) }),
            match old(self).pending_direct_frame {
                Some(frame) => step == (
                    RetireCycle { phase: RetirePhase::Discard, discard_failed: false },
                    RetireAction::Resolve(frame.owed()),
                ),
                None => {
                    &&& step.0 == (RetireCycle {
                        phase: RetirePhase::Frames,
                        discard_failed: false,
                    })
                    &&& step.1 is WaitFrames
                    &&& step.1->fences@ == old(self).frames@.map_values(
                        |frame: FrameContext| frame.fence,
                    )
                },
            },
            old(self).wf() ==> final(self).wf(),
    {
        match self.discard_pending_direct_frame() {
            Some(release) => (
                RetireCycle { phase: RetirePhase::Discard, discard_failed: false },
                RetireAction::Resolve(release),
            ),
            None => (
                RetireCycle { phase: RetirePhase::Frames, discard_failed: false },
                RetireAction::WaitFrames { fences: self.frame_fences() },
            ),
        }
    }

    /// Goes on with giving up the images of a producer. Frames in flight may still
    /// read them, so the views go only when those are idle; where that takes too
    /// long the whole device is waited for. Failures are reported at the end, that
    /// of the frame that waited first.
    pub fn retire_direct_binding(&mut self, cycle: RetireCycle, event: RetireEvent) -> (step: (
        RetireCycle,
        RetireAction,
    ))
        requires
            match cycle.phase {
                RetirePhase::Discard => event is Resolved,
                RetirePhase::Frames => event is FramesIdle,
                RetirePhase::Device => event is DeviceIdle,
                RetirePhase::Drain => event is Drained,
                RetirePhase::Finished => false,
            },
        ensures
            event !is Drained ==> *final(self) == *old(self),
            match event {
                RetireEvent::Resolved(done) => {
                    &&& step.0 == (RetireCycle {
                        phase: RetirePhase::Frames,
                        discard_failed: !done,
                    })
                    &&& step.1 is WaitFrames
                    &&& step.1->fences@ == old(self).frames@.map_values(
                        |frame: FrameContext| frame.fence,
                    )
                },
                RetireEvent::FramesIdle(true) => step == (
                    RetireCycle { phase: RetirePhase::Drain, ..cycle },
                    RetireAction::Drain,
                ),
                RetireEvent::FramesIdle(false) => step == (
                    RetireCycle { phase: RetirePhase::Device, ..cycle },
                    RetireAction::WaitDevice,
                ),
                RetireEvent::DeviceIdle => step == (
                    RetireCycle { phase: RetirePhase::Drain, ..cycle },
                    RetireAction::Drain,
                ),
                RetireEvent::Drained(done) => {
                    &&& step.0 == (RetireCycle { phase: RetirePhase::Finished, ..cycle })
                    &&& step.1 is Done
                    &&& step.1->views@ == (match old(self).direct_binding {
                        Some(binding) => live_views(binding.views@),
                        None => seq![],
                    })
                    &&& step.1->outcome == (if cycle.discard_failed {
                        RetireOutcome::DiscardFailed
                    } else if !done {
                        RetireOutcome::ReleaseFailed
                    } else {
                        RetireOutcome::Clean
                    })
                    &&& *final(self) == (WsiPresenter {
                        direct_binding: None,
                        content_presentation: ContentPresentationState {
                            bound: None,
                            ..old(self).content_presentation
                        },
                        ..*old(self)
                    })
                },
            },
            old(self).wf() ==> final(self).wf(),
    {
        match event {
            RetireEvent::Resolved(done) => (
                RetireCycle { phase: RetirePhase::Frames, discard_failed: !done },
                RetireAction::WaitFrames { fences: self.frame_fences() },
            ),
            RetireEvent::FramesIdle(idle) => {
                if idle {
                    (RetireCycle { phase: RetirePhase::Drain, ..cycle }, RetireAction::Drain)
                } else {
                    (RetireCycle { phase: RetirePhase::Device, ..cycle }, RetireAction::WaitDevice)
                }
            },
            RetireEvent::DeviceIdle => (
                RetireCycle { phase: RetirePhase::Drain, ..cycle },
                RetireAction::Drain,
            ),
            RetireEvent::Drained(done) => {
                let mut views: Vec<u64> = Vec::new();
                if let Some(binding) = self.direct_binding.take() {
                    let ghost live = |view: u64| view != 0;
                    for index in 0..binding.views.len()
                        invariant
                            views@ == binding.views@.take(index as int).filter(live),
                            live == (|view: u64| view != 0),
                    {
                        let image_view: u64 = binding.views[index];
                        proof {
                            let prefix = binding.views@.take(index + 1);
                            assert(prefix.drop_last() =~= binding.views@.take(index as int));
                            assert(prefix.last() == image_view);
                            reveal(Seq::filter);
                        }
                        if image_view != 0 {
                            views.push(image_view);
                        }
                    }
                    assert(binding.views@.take(binding.views@.len() as int) =~= binding.views@);
                }
                self.content_presentation.unbind();
                let outcome: RetireOutcome = if cycle.discard_failed {
                    RetireOutcome::DiscardFailed
                } else if !done {
                    RetireOutcome::ReleaseFailed
                } else {
                    RetireOutcome::Clean
                };
                (
                    RetireCycle { phase: RetirePhase::Finished, ..cycle },
                    RetireAction::Done { views, outcome },
                )
            },
        }
    }
}

/// Images are taken over exactly where none are in use, they carry a token and they
/// belong to the configuration in force. What is taken over is what was offered, with no
/// view and no format yet; nothing is taken over where they are turned down. A change of
/// content that this calls off is not animated on.
pub proof fn offered_images_are_taken_over(
    presenter: &mut WsiPresenter,
    generation: u64,
    content_token: u64,
    presentation_config_generation: u64,
    extent: Extent2D,
    images: &[u64],
    result: Result<(), BindingError>,
    index: int,
)
    requires
        call_ensures(
            WsiPresenter::install_direct_binding,
            (presenter, generation, content_token, presentation_config_generation, extent, images),
            result,
        ),
    ensures
        result is Ok <==> old(presenter).direct_binding is None && content_token != 0
            && presentation_config_generation == old(presenter).presentation_config_generation,
        result is Err ==> *final(presenter) == *old(presenter),
        old(presenter).direct_binding is Some ==> result == Err::<(), BindingError>(
            BindingError::AlreadyBound,
        ),
        result matches Err(BindingError::ZeroToken) ==> content_token == 0,
        result matches Err(BindingError::StaleConfig { referenced, current }) ==> referenced
            == presentation_config_generation && current
            == old(presenter).presentation_config_generation && referenced != current,
        result is Ok ==> {
            let binding = final(presenter).direct_binding->0;
            &&& final(presenter).direct_binding is Some
            &&& binding.generation == generation
            &&& binding.content_token == content_token
            &&& binding.presentation_config_generation == presentation_config_generation
            &&& binding.extent == extent
            &&& binding.images@ == images@
            &&& binding.views@.len() == images@.len()
            &&& 0 <= index < images@.len() ==> binding.views@[index] == 0
            &&& binding.format == 0
            &&& final(presenter).content_presentation.bound == Some(content_token)
            &&& final(presenter).content_presentation.committed
                == old(presenter).content_presentation.committed
            &&& final(presenter).pending_direct_frame == old(presenter).pending_direct_frame
            &&& final(presenter).frames@ == old(presenter).frames@
            &&& final(presenter).active_transition is Some ==> final(presenter).active_transition
                == old(presenter).active_transition
            &&& final(presenter).prepared_transition is Some ==> final(
                presenter).prepared_transition == old(presenter).prepared_transition
        },
{
}

/// Whether `frame` is the incoming frame itself.
pub open spec fn is_the_frame(frame: DirectFrame, incoming: IncomingFrame) -> bool {
    &&& frame.image == incoming.image
    &&& frame.extent == incoming.extent
    &&& frame.layout == incoming.layout
    &&& frame.external_queue_family == incoming.external_queue_family
    &&& frame.acquire_semaphore == incoming.acquire_semaphore
    &&& frame.release_syncobj_fd == incoming.release_syncobj_fd
    &&& frame.buffer_generation == incoming.buffer_generation
    &&& frame.seq == incoming.seq
}

/// Whether `release` is what is owed for the frame.
pub open spec fn is_owed_for(release: DirectRelease, frame: DirectFrame) -> bool {
    &&& release.release_syncobj_fd == frame.release_syncobj_fd
    &&& release.buffer_generation == frame.buffer_generation
    &&& release.seq == frame.seq
}

/// Whether a step leaves the incoming frame to be drawn next, seen through `image_view`,
/// and hands out what is owed for the one that waited.
pub open spec fn takes_the_place(
    before: WsiPresenter,
    after: WsiPresenter,
    incoming: IncomingFrame,
    image_view: u64,
    step: FrameStep,
) -> bool {
    match before.pending_direct_frame {
        Some(waiting) => {
            &&& step matches FrameStep::Supersede { release, frame }
            &&& is_owed_for(release, waiting)
            &&& is_the_frame(frame, incoming)
            &&& frame.image_view == image_view
            &&& after.pending_direct_frame is None
        },
        None => {
            &&& step is Stored
            &&& after.pending_direct_frame matches Some(frame)
            &&& is_the_frame(frame, incoming)
            &&& frame.image_view == image_view
        },
    }
}

/// A frame is taken over exactly where it is of the images in use: of their generation,
/// in one of them, of their size, with a semaphore to wait for and a file to release it
/// by, and of the format of those before it. It is then the next to be drawn, through
/// the view of its image, and what is owed for a frame that waited is handed out. Where
/// the image has no view yet, one of that image is asked for. A frame that is turned
/// down leaves everything as it was.
pub proof fn frames_of_the_images_are_taken_over(
    presenter: &mut WsiPresenter,
    incoming: IncomingFrame,
    step: FrameStep,
)
    requires
        old(presenter).wf(),
        call_ensures(WsiPresenter::replace_pending_direct_frame, (presenter, &incoming), step),
    ensures
        ({
            let binding = old(presenter).direct_binding->0;
            let index = incoming.buffer_index as int;
            &&& step is Rejected <==> !{
                &&& old(presenter).direct_binding is Some
                &&& incoming.buffer_generation == binding.generation
                &&& index < binding.images@.len()
                &&& incoming.image == binding.images@[index]
                &&& incoming.extent == binding.extent
                &&& incoming.acquire_semaphore != 0
                &&& incoming.release_syncobj_fd >= 0
                &&& binding.format == 0 || binding.format == incoming.format
            }
            &&& step is Rejected ==> *final(presenter) == *old(presenter)
            &&& step is Rejected && old(presenter).direct_binding is None ==> step
                == FrameStep::Rejected(FrameError::Unbound)
            &&& step == FrameStep::Rejected(FrameError::MissingSync) ==> incoming.acquire_semaphore
                == 0 || incoming.release_syncobj_fd < 0
            &&& step == FrameStep::Rejected(FrameError::FormatChanged) ==> binding.format != 0
                && binding.format != incoming.format
            &&& step == FrameStep::Rejected(FrameError::Unbound) ==> old(presenter).direct_binding
                is None
            &&& step !is Rejected ==> {
                let kept = final(presenter).direct_binding->0;
                &&& final(presenter).direct_binding is Some
                &&& kept.format == incoming.format
                &&& kept.images@ == binding.images@
                &&& kept.views@ == binding.views@
                &&& kept.generation == binding.generation
                &&& kept.extent == binding.extent
                &&& final(presenter).frames@ == old(presenter).frames@
                &&& step is CreateView <==> binding.views@[index] == 0
                &&& step is CreateView ==> step->CreateView_image == incoming.image
                    && step->CreateView_format == incoming.format && final(
                    presenter).pending_direct_frame == old(presenter).pending_direct_frame
                &&& step !is CreateView ==> takes_the_place(
                    *old(presenter),
                    *final(presenter),
                    incoming,
                    binding.views@[index],
                    step,
                )
            }
        }),
{
}

/// A view that was made is kept for its image and for no other, so that the next frame
/// in that image needs none, and the frame goes on with it.
pub proof fn made_views_are_kept(
    presenter: &mut WsiPresenter,
    incoming: IncomingFrame,
    image_view: u64,
    step: FrameStep,
    later: &mut WsiPresenter,
    next: IncomingFrame,
    next_step: FrameStep,
    other: int,
)
    requires
        old(presenter).wf(),
        old(presenter).frame_error(incoming) is None,
        image_view != 0,
        call_ensures(
            WsiPresenter::attach_direct_view,
            (presenter, &incoming, image_view),
            step,
        ),
        *old(later) == *final(presenter),
        call_ensures(WsiPresenter::replace_pending_direct_frame, (later, &next), next_step),
        next.buffer_index == incoming.buffer_index,
        next_step !is Rejected,
    ensures
        takes_the_place(*old(presenter), *final(presenter), incoming, image_view, step),
        ({
            let before = old(presenter).direct_binding->0;
            let after = final(presenter).direct_binding->0;
            &&& final(presenter).direct_binding is Some
            &&& after.views@.len() == before.views@.len()
            &&& after.views@[incoming.buffer_index as int] == image_view
            &&& 0 <= other < before.views@.len() && other != incoming.buffer_index
                ==> after.views@[other] == before.views@[other]
            &&& after.images@ == before.images@
            &&& after.format == before.format
        }),
        takes_the_place(*old(later), *final(later), next, image_view, next_step),
{
}

/// A frame that was stored is the one that waits, and giving it up hands out what is
/// owed for it, once.
pub proof fn waiting_frame_is_owed_for_once(
    storing: &mut WsiPresenter,
    frame: DirectFrame,
    giving_up: &mut WsiPresenter,
    release: Option<DirectRelease>,
    again: &mut WsiPresenter,
    nothing: Option<DirectRelease>,
)
    requires
        call_ensures(WsiPresenter::store_direct_frame, (storing, frame), ()),
        *old(giving_up) == *final(storing),
        call_ensures(WsiPresenter::discard_pending_direct_frame, (giving_up,), release),
        *old(again) == *final(giving_up),
        call_ensures(WsiPresenter::discard_pending_direct_frame, (again,), nothing),
    ensures
        final(storing).pending_direct_frame == Some(frame),
        release is Some,
        is_owed_for(release->0, frame),
        final(giving_up).pending_direct_frame is None,
        nothing is None,
        final(giving_up).frames@ == old(storing).frames@,
        final(giving_up).direct_binding == old(storing).direct_binding,
{
}

/// A frame that is turned away is released by the file that came with it, if one did.
pub proof fn turned_away_frames_are_released(
    incoming: IncomingFrame,
    release: Option<DirectRelease>,
)
    requires
        call_ensures(discard_direct_frame, (&incoming,), release),
    ensures
        release is Some <==> incoming.release_syncobj_fd >= 0,
        release matches Some(owed) ==> owed.release_syncobj_fd == incoming.release_syncobj_fd
            && owed.buffer_generation == incoming.buffer_generation && owed.seq == incoming.seq,
{
}

/// A release is resolved only where the producer was told after the signal, or there is
/// no producer to tell; the producer is told only after the signal.
pub proof fn producer_is_told_after_the_signal(
    connected: bool,
    signaled: bool,
    acknowledged: Option<bool>,
    step: ReleaseStep,
)
    requires
        call_ensures(resolve_direct_release, (connected, signaled, acknowledged), step),
    ensures
        step is Resolved <==> !connected || signaled && acknowledged == Some(true),
        step is Acknowledge <==> connected && signaled && acknowledged is None,
        step == ReleaseStep::Failed(ReleaseError::SignalFailed) <==> connected && !signaled,
        step == ReleaseStep::Failed(ReleaseError::AcknowledgeFailed) <==> connected && signaled
            && acknowledged == Some(false),
{
    if let Some(told) = acknowledged {
        assert(told || acknowledged == Some(false));
    }
}

/// All frames are idle only where every fence has signaled, and every fence is asked for
/// until one has not.
pub proof fn frames_are_idle_when_all_fences_signaled(
    presenter: WsiPresenter,
    signaled: &[bool],
    step: IdleStep,
    fences: Vec<u64>,
)
    requires
        signaled@.len() <= presenter.frames@.len(),
        call_ensures(WsiPresenter::frames_idle, (&presenter, signaled), step),
        call_ensures(WsiPresenter::frame_fences, (&presenter,), fences),
    ensures
        fences@.len() == presenter.frames@.len(),
        forall|slot: int|
            0 <= slot < presenter.frames@.len() ==> #[trigger] fences@[slot]
                == presenter.frames@[slot].fence,
        step is Idle <==> signaled@.len() == presenter.frames@.len() && forall|slot: int|
            0 <= slot < signaled@.len() ==> #[trigger] signaled@[slot],
        step is Busy <==> exists|slot: int|
            0 <= slot < signaled@.len() && !#[trigger] signaled@[slot],
        step matches IdleStep::Query { fence } ==> signaled@.len() < presenter.frames@.len()
            && fence == presenter.frames@[signaled@.len() as int].fence,
{
    if signaled@.contains(false) {
        let slot = signaled@.index_of(false);
        assert(!signaled@[slot]);
    } else {
        assert forall|slot: int| 0 <= slot < signaled@.len() implies #[trigger] signaled@[slot] by {
            assert(signaled@.contains(signaled@[slot]));
        }
    }
}

proof fn owing_slot_is_the_next(frames: Seq<FrameContext>, from: int)
    requires
        0 <= from <= frames.len(),
    ensures
        match next_owing(frames, from) {
            Some(slot) => from <= slot < frames.len() && frames[slot].pending_release is Some
                && forall|at: int|
                from <= at < slot ==> (#[trigger] frames[at]).pending_release is None,
            None => forall|at: int|
                from <= at < frames.len() ==> (#[trigger] frames[at]).pending_release is None,
        },
    decreases frames.len() - from,
{
    if from < frames.len() && frames[from].pending_release is None {
        owing_slot_is_the_next(frames, from + 1);
    }
}

/// Whether a walk stands where it has to go on: at the first slot from `from` on that
/// something is owed for, with its fence asked for, or behind all of them.
pub open spec fn goes_on_from(
    frames: Seq<FrameContext>,
    from: int,
    failed: bool,
    step: (DrainCycle, DrainAction),
) -> bool {
    &&& step.0.failed == failed
    &&& match step.1 {
        DrainAction::QueryFence { fence } => {
            let slot = step.0.slot as int;
            &&& from <= slot < frames.len()
            &&& frames[slot].pending_release is Some
            &&& fence == frames[slot].fence
            &&& forall|at: int| from <= at < slot ==> (#[trigger] frames[at]).pending_release is None
        },
        DrainAction::Resolve(_) => false,
        DrainAction::Done { pending } => {
            &&& !failed
            &&& forall|at: int|
                from <= at < frames.len() ==> (#[trigger] frames[at]).pending_release is None
            &&& pending <==> exists|at: int|
                0 <= at < frames.len() && (#[trigger] frames[at]).pending_release is Some
        },
        DrainAction::Failed => {
            &&& failed
            &&& forall|at: int|
                from <= at < frames.len() ==> (#[trigger] frames[at]).pending_release is None
        },
    }
}

/// The walk over the slots passes none that something is owed for. What is owed for a
/// slot is handed out only when its own fence has signaled, and is then owed no longer;
/// the other slots keep what is owed for them. That a release failed is known at the
/// end, and without a failure whether anything is still owed.
pub proof fn releases_wait_for_their_own_fence(
    presenter: WsiPresenter,
    begun: (DrainCycle, DrainAction),
    walking: &mut WsiPresenter,
    cycle: DrainCycle,
    event: DrainEvent,
    step: (DrainCycle, DrainAction),
    other: int,
)
    requires
        presenter.frames@.len() <= usize::MAX,
        call_ensures(WsiPresenter::begin_drain, (&presenter,), begun),
        cycle.slot < old(walking).frames@.len(),
        old(walking).frames@.len() <= usize::MAX,
        event is Fence ==> old(walking).frames@[cycle.slot as int].pending_release is Some,
        call_ensures(WsiPresenter::drain_completed_releases, (walking, cycle, event), step),
    ensures
        goes_on_from(presenter.frames@, 0, false, begun),
        step.1 is Resolve <==> event == DrainEvent::Fence(true),
        step.1 matches DrainAction::Resolve(release) ==> {
            let slot = cycle.slot as int;
            &&& old(walking).frames@[slot].pending_release == Some(release)
            &&& final(walking).frames@[slot].pending_release is None
            &&& final(walking).frames@[slot].fence == old(walking).frames@[slot].fence
            &&& final(walking).frames@.len() == old(walking).frames@.len()
            &&& 0 <= other < old(walking).frames@.len() && other != slot ==> final(
                walking).frames@[other] == old(walking).frames@[other]
            &&& step.0 == cycle
        },
        step.1 !is Resolve ==> {
            &&& *final(walking) == *old(walking)
            &&& goes_on_from(
                old(walking).frames@,
                cycle.slot + 1,
                cycle.failed || event == DrainEvent::Resolved(false),
                step,
            )
        },
{
    owing_slot_is_the_next(presenter.frames@, 0);
    owing_slot_is_the_next(old(walking).frames@, cycle.slot + 1);
    match event {
        DrainEvent::Fence(ready) => {
            assert(ready || event == DrainEvent::Fence(false));
        },
        DrainEvent::Resolved(done) => {
            assert(done || event == DrainEvent::Resolved(false));
        },
    }
}

proof fn live_views_are_the_made_ones(views: Seq<u64>, view: u64)
    ensures
        live_views(views).contains(view) <==> views.contains(view) && view != 0,
{
    broadcast use vstd::seq_lib::group_filter_ensures;

    let live = |made: u64| made != 0;
    if live_views(views).contains(view) {
        views.lemma_filter_contains_rev(live, view);
        let at = live_views(views).index_of(view);
        assert(live(views.filter(live)[at]));
    }
    if views.contains(view) && view != 0 {
        let at = views.index_of(view);
        views.lemma_filter_contains(live, at);
    }
}

/// The views of images go only after the frames in flight, or the whole device, were
/// waited for: every view that was made goes and no other, and the images are no longer
/// in use. The frame that waited is released first, and its failure is the one that is
/// told.
pub proof fn views_go_when_nothing_reads_them(
    starting: &mut WsiPresenter,
    begun: (RetireCycle, RetireAction),
    presenter: &mut WsiPresenter,
    cycle: RetireCycle,
    event: RetireEvent,
    step: (RetireCycle, RetireAction),
    slot: int,
    view: u64,
)
    requires
        call_ensures(WsiPresenter::begin_retire, (starting,), begun),
        call_ensures(WsiPresenter::retire_direct_binding, (presenter, cycle, event), step),
        match cycle.phase {
            RetirePhase::Discard => event is Resolved,
            RetirePhase::Frames => event is FramesIdle,
            RetirePhase::Device => event is DeviceIdle,
            RetirePhase::Drain => event is Drained,
            RetirePhase::Finished => false,
        },
    ensures
        final(starting).pending_direct_frame is None,
        final(starting).direct_binding == old(starting).direct_binding,
        match old(starting).pending_direct_frame {
            Some(frame) => begun.1 matches RetireAction::Resolve(release) && is_owed_for(
                release,
                frame,
            ) && begun.0.phase is Discard,
            None => begun.1 is WaitFrames && begun.0.phase is Frames,
        },
        !begun.0.discard_failed,
        begun.1 matches RetireAction::WaitFrames { fences } ==> fences@.len() == old(
            starting).frames@.len() && (0 <= slot < fences@.len() ==> fences@[slot] == old(
            starting).frames@[slot].fence),
        step.1 matches RetireAction::WaitFrames { fences } ==> fences@.len() == old(
            presenter).frames@.len() && (0 <= slot < fences@.len() ==> fences@[slot] == old(
            presenter).frames@[slot].fence),
        step.1 is WaitFrames <==> cycle.phase is Discard,
        step.1 is WaitDevice <==> event == RetireEvent::FramesIdle(false),
        step.1 is Drain <==> event == RetireEvent::FramesIdle(true) || event is DeviceIdle,
        step.1 is Done <==> cycle.phase is Drain,
        step.0.phase is Frames <==> step.1 is WaitFrames,
        step.0.phase is Device <==> step.1 is WaitDevice,
        step.0.phase is Drain <==> step.1 is Drain,
        step.0.phase is Finished <==> step.1 is Done,
        event == RetireEvent::Resolved(false) ==> step.0.discard_failed,
        event == RetireEvent::Resolved(true) ==> !step.0.discard_failed,
        event !is Resolved ==> step.0.discard_failed == cycle.discard_failed,
        step.1 !is Done ==> *final(presenter) == *old(presenter),
        step.1 matches RetireAction::Done { views, outcome } ==> {
            &&& old(presenter).direct_binding matches Some(binding) ==> (views@.contains(view)
                <==> binding.views@.contains(view) && view != 0)
            &&& old(presenter).direct_binding is None ==> views@.len() == 0
            &&& final(presenter).direct_binding is None
            &&& final(presenter).content_presentation.bound is None
            &&& final(presenter).content_presentation.committed
                == old(presenter).content_presentation.committed
            &&& outcome is Clean <==> !cycle.discard_failed && event == RetireEvent::Drained(true)
            &&& outcome is DiscardFailed <==> cycle.discard_failed
            &&& final(presenter).frames@ == old(presenter).frames@
        },
{
    if let Some(binding) = old(presenter).direct_binding {
        live_views_are_the_made_ones(binding.views@, view);
    }
    match event {
        RetireEvent::Resolved(done) => {
            assert(done || event == RetireEvent::Resolved(false));
        },
        RetireEvent::FramesIdle(idle) => {
            assert(idle || event == RetireEvent::FramesIdle(false));
        },
        RetireEvent::Drained(done) => {
            assert(done || event == RetireEvent::Drained(false));
        },
        RetireEvent::DeviceIdle => {},
    }
}

/// What happens to the images and frames of a producer changes nothing else of the
/// presenter.
pub proof fn nothing_else_changes_with_a_frame(
    binding: &mut WsiPresenter,
    generation: u64,
    content_token: u64,
    config_generation: u64,
    extent: Extent2D,
    images: &[u64],
    bound: Result<(), BindingError>,
    taking: &mut WsiPresenter,
    incoming: IncomingFrame,
    step: FrameStep,
    draining: &mut WsiPresenter,
    cycle: DrainCycle,
    event: DrainEvent,
    drained: (DrainCycle, DrainAction),
    retiring: &mut WsiPresenter,
    retire_cycle: RetireCycle,
    retire_event: RetireEvent,
    retired: (RetireCycle, RetireAction),
)
    requires
        call_ensures(
            WsiPresenter::install_direct_binding,
            (binding, generation, content_token, config_generation, extent, images),
            bound,
        ),
        call_ensures(WsiPresenter::replace_pending_direct_frame, (taking, &incoming), step),
        call_ensures(WsiPresenter::drain_completed_releases, (draining, cycle, event), drained),
        call_ensures(
            WsiPresenter::retire_direct_binding,
            (retiring, retire_cycle, retire_event),
            retired,
        ),
    ensures
        *final(binding) == (WsiPresenter {
            direct_binding: final(binding).direct_binding,
            content_presentation: final(binding).content_presentation,
            prepared_transition: final(binding).prepared_transition,
            active_transition: final(binding).active_transition,
            ..*old(binding)
        }),
        *final(taking) == (WsiPresenter {
            direct_binding: final(taking).direct_binding,
            pending_direct_frame: final(taking).pending_direct_frame,
            ..*old(taking)
        }),
        *final(draining) == (WsiPresenter { frames: final(draining).frames, ..*old(draining) }),
        *final(retiring) == (WsiPresenter {
            direct_binding: final(retiring).direct_binding,
            content_presentation: final(retiring).content_presentation,
            ..*old(retiring)
        }),
{
}

} // verus!
