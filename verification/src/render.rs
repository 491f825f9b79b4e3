//! Presenting one frame, as a dialogue with the graphics stack.
//!
//! [`WsiPresenter::begin_present`] opens the dialogue and
//! [`WsiPresenter::present`] carries it on: each call takes what the last action
//! came to and says what has to be done next, until a result or a failure ends it.

use crate::direct::{DirectFrame, FrameContext};
use crate::effects::{
    blur_mip_extent, needs_persistent_scene, needs_scene_redraw, retained_transition_sample,
    BlurSample, TransitionSample, TransitionShape, MAX_BLUR_MIP_LEVELS,
};
#[allow(unused_imports)]
use crate::effects::{blur_needs_scene, mip_dimension, retained_transition, transition_sample};
use crate::blank::BlankState;
use crate::effects::ActiveTransition;
use crate::geometry::Extent2D;
use crate::presenter::WsiPresenter;
use crate::resources::{BlurResources, TransitionResources};
use crate::single::Single;
use vstd::prelude::*;

verus! {

/// How long to wait for an image of the swapchain.
pub const SWAPCHAIN_ACQUIRE_TIMEOUT_NS: u64 = 1_000_000;

/// What an attempt to present came to.
#[derive(Clone, Copy, Debug, PartialEq, Eq, Structural)]
pub enum PresentResult {
    /// The surface is up to date; `redraw` asks for another frame soon.
    Presented { redraw: bool },
    /// Something is still busy: try again.
    Pending,
}

/// What is known when an attempt starts.
#[derive(Clone, Copy, Debug, PartialEq, Eq, Structural)]
pub struct PresentInputs {
    pub now: u64,
    /// Frames of the producer still wait to be released.
    pub release_pending: bool,
    /// The blur radius between the ends of a movement that is under way.
    pub interpolated: Single,
    /// The eased progress of a transition that is under way.
    pub eased: Single,
}

/// What the dialogue waits for.
#[derive(Clone, Copy, Debug, PartialEq, Eq, Structural)]
pub enum PresentPhase {
    /// Whether the frames are idle, to give up a scene that is needed no more.
    SceneUnneededIdle,
    /// That scene to be taken down.
    SceneUnneeded,
    /// Whether the frames are idle, to replace the swapchain.
    ResizeIdle,
    /// The new swapchain.
    Resize,
    /// Whether the frames are idle, to give up a scene of the wrong size.
    SceneOutgrownIdle,
    /// That scene to be taken down.
    SceneOutgrown,
    /// A new scene.
    SceneCreation,
    /// Targets for outgoing content.
    TargetCreation,
    /// Whether the slot of the frame is free.
    Fence,
    /// An image of the swapchain.
    Acquire,
    /// The frame to be recorded and submitted.
    Record,
    /// The compositor to take the frame.
    Queue,
    /// Nothing: the dialogue is over.
    Finished,
}

/// What the dialogue remembers from one call to the next.
#[derive(Clone, Copy, Debug)]
pub struct PresentCycle {
    pub phase: PresentPhase,
    pub now: u64,
    pub release_pending: bool,
    pub blur: BlurSample,
    pub transition: TransitionSample,
    /// The frame is drawn through the kept scene.
    pub scene_path: bool,
    pub swapchain_recreated: bool,
    pub blank_pending: bool,
    /// What is on screen of a transition.
    pub retained_transition: Option<(TransitionShape, Single)>,
    /// The frame of the producer to draw.
    pub source: Option<DirectFrame>,
    pub start_transition: bool,
    /// The target that holds the outgoing content of this frame.
    pub outgoing_target: Option<usize>,
    /// The transition to show in this frame.
    pub output_transition: Option<(TransitionShape, Single)>,
    pub frame_index: usize,
    pub image_index: u32,
    pub suboptimal: bool,
    pub rebuild_pyramid: bool,
}

/// What acquiring an image came to.
#[derive(Clone, Copy, Debug, PartialEq, Eq, Structural)]
pub enum AcquireOutcome {
    Image { index: u32, suboptimal: bool },
    OutOfDate,
    NotReady,
}

/// What handing the frame to the compositor came to.
#[derive(Clone, Copy, Debug, PartialEq, Eq, Structural)]
pub enum QueueOutcome {
    Accepted { suboptimal: bool },
    OutOfDate,
    Failed,
}

/// What the last action came to.
#[derive(Debug)]
pub enum PresentEvent {
    FramesIdle(bool),
    SceneDestroyed,
    SwapchainRecreated,
    SceneCreated(BlurResources),
    SceneFailed,
    TargetsCreated(TransitionResources),
    TargetsFailed,
    Fence(bool),
    Acquired(AcquireOutcome),
    Submitted,
    Queued(QueueOutcome),
}

/// Why an attempt to present failed.
#[derive(Clone, Copy, Debug, PartialEq, Eq, Structural)]
pub enum PresentFailure {
    /// The scene could not be created; it is not tried again.
    SceneUnavailable,
    /// The frame could not be handed to the compositor.
    QueueFailed,
}

/// What has to be done next.
#[derive(Debug)]
pub enum PresentAction {
    QueryFramesIdle,
    /// Take these down, targets first.
    DestroyScene { transitions: Option<TransitionResources>, scene: Option<BlurResources> },
    RecreateSwapchain { extent: Extent2D },
    CreateScene { render_pass: u64, format: i32, extent: Extent2D },
    CreateTargets,
    QueryFence { fence: u64 },
    AcquireImage { swapchain: u64, semaphore: u64 },
    /// Record the passes of the frame and submit it.
    RecordAndSubmit,
    QueuePresent { swapchain: u64, image_index: u32, wait: u64 },
    Done(PresentResult),
    Fail(PresentFailure),
}

/// One step of drawing a frame.
#[derive(Clone, Copy, Debug, PartialEq, Eq)]
pub enum DrawPass {
    /// Draw the mix of a running transition into a target.
    CaptureMix {
        target: usize,
        front: usize,
        shape: TransitionShape,
        progress: Single,
        blurred: bool,
        extent: Extent2D,
    },
    /// Draw the scene into a target.
    CaptureScene { target: usize, blurred: bool, extent: Extent2D },
    /// Draw the frame of the producer into the scene.
    ComposeScene { extent: Extent2D },
    /// Draw a mip level of the scene from the one above.
    Downsample { level: usize, extent: Extent2D },
    /// Draw scene and outgoing content to the surface.
    OutputTransition {
        target: usize,
        shape: TransitionShape,
        progress: Single,
        extent: Extent2D,
    },
    /// Draw the scene to the surface.
    OutputScene { extent: Extent2D },
    /// Draw the frame of the producer to the surface.
    ComposeDirect { extent: Extent2D },
    /// Clear the surface.
    Clear,
}

/// What a submission of the frame waits for, and at which stage.
#[derive(Clone, Copy, Debug, PartialEq, Eq, Structural)]
pub enum SubmitWait {
    /// Before the surface is written.
    ColorOutput { semaphore: u64 },
    /// Before the frame of the producer is read.
    FragmentShader { semaphore: u64 },
}

/// How the recorded frame is submitted.
#[derive(Debug)]
pub struct FrameSubmission {
    pub command_pool: u64,
    pub command_buffer: u64,
    pub descriptor_set: u64,
    pub fence: u64,
    pub framebuffer: u64,
    pub waits: Vec<SubmitWait>,
    pub signal: u64,
    /// The surface is cleared to opaque black.
    pub clear_black: bool,
}

/// Everything a call of the dialogue determines: the presenter, what it remembers
/// and what has to be done.
pub type Step = (WsiPresenter, PresentCycle, PresentAction);

/// Whether `event` is a reply to what the dialogue waits for.
pub open spec fn answers(phase: PresentPhase, event: PresentEvent) -> bool {
    match phase {
        PresentPhase::SceneUnneededIdle => event is FramesIdle,
        PresentPhase::SceneUnneeded => event is SceneDestroyed,
        PresentPhase::ResizeIdle => event is FramesIdle,
        PresentPhase::Resize => event is SwapchainRecreated,
        PresentPhase::SceneOutgrownIdle => event is FramesIdle,
        PresentPhase::SceneOutgrown => event is SceneDestroyed,
        PresentPhase::SceneCreation => event is SceneCreated || event is SceneFailed,
        PresentPhase::TargetCreation => event is TargetsCreated || event is TargetsFailed,
        PresentPhase::Fence => event is Fence,
        PresentPhase::Acquire => event is Acquired,
        PresentPhase::Record => event is Submitted,
        PresentPhase::Queue => event is Queued,
        PresentPhase::Finished => false,
    }
}

/// Ends the dialogue with a result.
pub open spec fn finish(
    presenter: WsiPresenter,
    cycle: PresentCycle,
    result: PresentResult,
) -> Step {
    (
        presenter,
        PresentCycle { phase: PresentPhase::Finished, ..cycle },
        PresentAction::Done(result),
    )
}

/// Asks whether all frames are idle.
pub open spec fn ask_idle(presenter: WsiPresenter, cycle: PresentCycle, phase: PresentPhase) -> Step {
    (presenter, PresentCycle { phase, ..cycle }, PresentAction::QueryFramesIdle)
}

/// Gives up the scene.
pub open spec fn give_up_scene(
    presenter: WsiPresenter,
    cycle: PresentCycle,
    phase: PresentPhase,
) -> Step {
    (
        presenter.without_scene(),
        PresentCycle { phase, ..cycle },
        PresentAction::DestroyScene {
            transitions: presenter.transition_resources,
            scene: presenter.blur_resources,
        },
    )
}

impl WsiPresenter {
    /// Whether a frame is drawn through the kept scene.
    pub open spec fn wants_scene(self, blur: BlurSample) -> bool {
        ||| blur_needs_scene(
            self.pause_blur_available,
            self.pause_presentation,
            blur,
            self.blur_resources is Some,
        )
        ||| self.transitions_supported() && (self.transition_presentation is Some
            || self.prepared_transition is Some || self.active_transition is Some
            || self.content_presentation.submitted is Some)
    }

    /// What the dialogue remembers at its start.
    pub open spec fn opening(self, inputs: PresentInputs) -> PresentCycle {
        let blur = self.blur_transition.sampled(inputs.now, inputs.interpolated);
        PresentCycle {
            phase: PresentPhase::Finished,
            now: inputs.now,
            release_pending: inputs.release_pending,
            blur,
            transition: transition_sample(self.active_transition, inputs.now, inputs.eased),
            scene_path: self.wants_scene(blur),
            swapchain_recreated: false,
            blank_pending: false,
            retained_transition: None,
            source: None,
            start_transition: false,
            outgoing_target: None,
            output_transition: None,
            frame_index: 0,
            image_index: 0,
            suboptimal: false,
            rebuild_pyramid: false,
        }
    }

    /// The first step: a scene that is needed no more goes before anything else.
    pub open spec fn opened(self, inputs: PresentInputs) -> Step {
        let cycle = self.opening(inputs);
        let sampled = WsiPresenter {
            blur_transition: self.blur_transition.after_sample(inputs.now, inputs.interpolated),
            ..self
        };
        if !cycle.scene_path && self.blur_resources is Some {
            ask_idle(sampled, cycle, PresentPhase::SceneUnneededIdle)
        } else {
            sampled.at_resize(cycle)
        }
    }

    /// A new size is taken over once all frames are idle.
    pub open spec fn at_resize(self, cycle: PresentCycle) -> Step {
        if self.recreate_extent is Some {
            ask_idle(self, cycle, PresentPhase::ResizeIdle)
        } else {
            self.at_source(cycle)
        }
    }

    /// What this frame draws: black, a frame of the producer, or the kept scene.
    pub open spec fn sourced(self, cycle: PresentCycle) -> PresentCycle {
        PresentCycle {
            blank_pending: self.blank_state is Pending,
            retained_transition: retained_transition(
                self.prepared_transition,
                cycle.transition.running,
            ),
            source: if self.blank_state is Pending {
                None
            } else {
                self.pending_direct_frame
            },
            ..cycle
        }
    }

    /// A scene of another size than the swapchain goes before a new frame is drawn.
    pub open spec fn at_source(self, cycle: PresentCycle) -> Step {
        let sourced = self.sourced(cycle);
        if sourced.scene_path && sourced.source is Some && self.blur_resources is Some
            && self.blur_resources->0.extent != self.swapchain.extent {
            ask_idle(self, sourced, PresentPhase::SceneOutgrownIdle)
        } else {
            self.at_scene(sourced)
        }
    }

    /// A frame that is drawn through the scene needs one.
    pub open spec fn at_scene(self, cycle: PresentCycle) -> Step {
        if cycle.scene_path && cycle.source is Some && self.blur_resources is None {
            (
                self,
                PresentCycle { phase: PresentPhase::SceneCreation, ..cycle },
                PresentAction::CreateScene {
                    render_pass: self.swapchain.rendering.render_pass,
                    format: self.swapchain.format,
                    extent: self.swapchain.extent,
                },
            )
        } else {
            self.at_transition(cycle)
        }
    }

    /// Whether this frame starts an animated change of content.
    pub open spec fn starts_transition(self, cycle: PresentCycle) -> bool {
        cycle.source is Some && self.transitions_supported()
            && self.content_presentation.transitions(
            self.transition_presentation is Some,
            self.scene_valid(),
        )
    }

    /// An animated change of content needs targets for the outgoing content.
    pub open spec fn at_transition(self, cycle: PresentCycle) -> Step {
        let decided = PresentCycle { start_transition: self.starts_transition(cycle), ..cycle };
        if decided.start_transition && self.transition_resources is None {
            (
                self,
                PresentCycle { phase: PresentPhase::TargetCreation, ..decided },
                PresentAction::CreateTargets,
            )
        } else {
            self.at_output(decided)
        }
    }

    /// What this frame shows. A change of content without targets is not animated;
    /// one that starts shows the outgoing content first.
    pub open spec fn composed(self, cycle: PresentCycle) -> PresentCycle {
        let start = cycle.start_transition && self.transition_resources is Some;
        PresentCycle {
            start_transition: start,
            outgoing_target: match self.transition_resources {
                Some(resources) => Some(
                    if start {
                        resources.spare() as usize
                    } else {
                        resources.front
                    },
                ),
                None => None,
            },
            output_transition: if start {
                match self.transition_presentation {
                    Some(presentation) => Some((presentation.shape, Single::zero())),
                    None => None,
                }
            } else {
                retained_transition(self.prepared_transition, cycle.transition.running)
            },
            ..cycle
        }
    }

    /// Whether the kept scene has to be drawn again without a new frame.
    pub open spec fn redraws_scene(self, cycle: PresentCycle) -> bool {
        &&& cycle.scene_path
        &&& self.scene_valid()
        &&& {
            ||| cycle.blur.animating
            ||| cycle.blur.finished
            ||| cycle.swapchain_recreated
            ||| cycle.transition.running is Some
            ||| cycle.transition.finished
            ||| self.content_presentation.submitted is Some
        }
    }

    /// Whether there is nothing to draw.
    pub open spec fn is_up_to_date(self, cycle: PresentCycle) -> bool {
        cycle.source is None && !self.redraws_scene(cycle) && !cycle.blank_pending
    }

    /// The attempt ends here where there is nothing to draw; else the slot of the
    /// next frame has to be free.
    pub open spec fn at_output(self, cycle: PresentCycle) -> Step {
        let composed = self.composed(cycle);
        if self.is_up_to_date(composed) {
            finish(self, composed, PresentResult::Presented { redraw: cycle.release_pending })
        } else {
            (
                self,
                PresentCycle {
                    phase: PresentPhase::Fence,
                    frame_index: self.frame_cursor,
                    ..composed
                },
                PresentAction::QueryFence { fence: self.frames@[self.frame_cursor as int].fence },
            )
        }
    }

    /// Whether the mip levels of the scene have to be drawn in this frame: with the
    /// first frame of a scene, and for a visible blur that they do not match.
    pub open spec fn rebuilds_pyramid(self, cycle: PresentCycle) -> bool {
        &&& cycle.scene_path
        &&& self.blur_resources is Some
        &&& {
            let resources = self.blur_resources->0;
            ||| cycle.source is Some && !resources.base_valid
            ||| cycle.blur.radius.is_visible() && (cycle.source is Some || resources.pyramid_dirty
                || !resources.pyramid_valid)
        }
    }

    /// What follows an image of the swapchain, or the lack of one.
    pub open spec fn acquired(self, cycle: PresentCycle, outcome: AcquireOutcome) -> Step {
        match outcome {
            AcquireOutcome::Image { index, suboptimal } => (
                self,
                PresentCycle {
                    phase: PresentPhase::Record,
                    image_index: index,
                    suboptimal,
                    rebuild_pyramid: self.rebuilds_pyramid(cycle),
                    ..cycle
                },
                PresentAction::RecordAndSubmit,
            ),
            AcquireOutcome::OutOfDate => finish(
                WsiPresenter { recreate_extent: Some(self.swapchain.extent), ..self },
                cycle,
                PresentResult::Pending,
            ),
            AcquireOutcome::NotReady => finish(self, cycle, PresentResult::Pending),
        }
    }

    /// The scene after a frame was submitted.
    pub open spec fn submitted_scene(self, cycle: PresentCycle) -> Option<BlurResources> {
        match self.blur_resources {
            Some(resources) if cycle.scene_path => Some(
                BlurResources {
                    base_valid: resources.base_valid || cycle.source is Some,
                    pyramid_valid: cycle.rebuild_pyramid || (resources.pyramid_valid
                        && cycle.source is None),
                    pyramid_dirty: !cycle.rebuild_pyramid && (resources.pyramid_dirty
                        || cycle.source is Some),
                    ..resources
                },
            ),
            other => other,
        }
    }

    /// The frame slots after a frame was submitted: what is owed for a frame of the
    /// producer stays with the slot until its fence signals.
    pub open spec fn submitted_frames(self, cycle: PresentCycle) -> Seq<FrameContext> {
        match cycle.source {
            Some(frame) => self.frames@.update(
                cycle.frame_index as int,
                FrameContext {
                    pending_release: Some(frame.owed()),
                    ..self.frames@[cycle.frame_index as int]
                },
            ),
            None => self.frames@,
        }
    }

    /// The presenter after a frame was submitted, with `frames` as its slots.
    pub open spec fn after_submission(
        self,
        cycle: PresentCycle,
        frames: Vec<FrameContext>,
    ) -> WsiPresenter {
        WsiPresenter {
            blur_resources: self.submitted_scene(cycle),
            transition_resources: match self.transition_resources {
                Some(resources) if cycle.start_transition && cycle.outgoing_target is Some => Some(
                    TransitionResources { front: cycle.outgoing_target->0, ..resources },
                ),
                other => other,
            },
            prepared_transition: if cycle.start_transition {
                self.transition_presentation
            } else {
                self.prepared_transition
            },
            content_presentation: if cycle.source is Some {
                self.content_presentation.after_submit()
            } else {
                self.content_presentation
            },
            pending_direct_frame: if cycle.source is Some {
                None
            } else {
                self.pending_direct_frame
            },
            frames,
            ..self
        }
    }

    /// What the dialogue remembers after a frame was submitted.
    pub open spec fn submitted_cycle(cycle: PresentCycle) -> PresentCycle {
        PresentCycle {
            phase: PresentPhase::Queue,
            release_pending: cycle.release_pending || cycle.source is Some,
            ..cycle
        }
    }

    /// The presenter after the compositor took a frame.
    pub open spec fn after_accepted(self, cycle: PresentCycle, suboptimal: bool) -> WsiPresenter {
        WsiPresenter {
            recreate_extent: if cycle.suboptimal || suboptimal {
                Some(self.swapchain.extent)
            } else {
                self.recreate_extent
            },
            content_presentation: self.content_presentation.after_accept(),
            prepared_transition: None,
            active_transition: match self.prepared_transition {
                Some(presentation) => Some(
                    ActiveTransition { presentation, started_at: cycle.now },
                ),
                None => if cycle.transition.finished {
                    None
                } else {
                    self.active_transition
                },
            },
            blank_state: if cycle.blank_pending || cycle.source is Some {
                BlankState::after_present(cycle.blank_pending)
            } else {
                self.blank_state
            },
            ..self
        }
    }

    /// The presenter after the swapchain was found out of date with a frame ready.
    pub open spec fn after_refused(self, cycle: PresentCycle) -> WsiPresenter {
        WsiPresenter {
            recreate_extent: Some(self.swapchain.extent),
            content_presentation: if cycle.scene_path {
                self.content_presentation
            } else {
                self.content_presentation.after_discard()
            },
            ..self
        }
    }

    /// The presenter with the next slot up.
    pub open spec fn with_next_frame(self) -> WsiPresenter {
        WsiPresenter {
            frame_cursor: ((self.frame_cursor + 1) % (self.frames@.len() as int)) as usize,
            ..self
        }
    }

    /// Whether another frame is wanted soon.
    pub open spec fn wants_redraw(self, cycle: PresentCycle) -> bool {
        ||| cycle.blur.animating
        ||| cycle.output_transition is Some
        ||| !self.pause_presentation.configured && cycle.blur.finished && self.blur_resources
            is Some
        ||| cycle.release_pending
        ||| self.blank_state is Pending
        ||| self.recreate_extent is Some
        ||| self.pending_direct_frame is Some
    }

    /// What follows the reply of the compositor.
    pub open spec fn queued(self, cycle: PresentCycle, outcome: QueueOutcome) -> Step {
        match outcome {
            QueueOutcome::Failed => (
                WsiPresenter {
                    content_presentation: self.content_presentation.after_discard(),
                    prepared_transition: None,
                    ..self
                },
                PresentCycle { phase: PresentPhase::Finished, ..cycle },
                PresentAction::Fail(PresentFailure::QueueFailed),
            ),
            QueueOutcome::Accepted { suboptimal } => {
                let next = self.after_accepted(cycle, suboptimal).with_next_frame();
                finish(next, cycle, PresentResult::Presented { redraw: next.wants_redraw(cycle) })
            },
            QueueOutcome::OutOfDate => {
                let next = self.after_refused(cycle).with_next_frame();
                finish(next, cycle, PresentResult::Presented { redraw: next.wants_redraw(cycle) })
            },
        }
    }

    /// What follows any reply but that a frame was submitted.
    pub open spec fn replied(self, cycle: PresentCycle, event: PresentEvent) -> Step {
        match event {
            PresentEvent::FramesIdle(idle) => if !idle {
                finish(self, cycle, PresentResult::Pending)
            } else if cycle.phase is SceneUnneededIdle {
                give_up_scene(self, cycle, PresentPhase::SceneUnneeded)
            } else if cycle.phase is SceneOutgrownIdle {
                give_up_scene(self, cycle, PresentPhase::SceneOutgrown)
            } else {
                (
                    WsiPresenter { recreate_extent: None, ..self },
                    PresentCycle { phase: PresentPhase::Resize, ..cycle },
                    PresentAction::RecreateSwapchain { extent: self.recreate_extent->0 },
                )
            },
            PresentEvent::SceneDestroyed => if cycle.phase is SceneUnneeded {
                self.at_resize(cycle)
            } else {
                self.at_scene(cycle)
            },
            PresentEvent::SwapchainRecreated => self.at_source(
                PresentCycle { swapchain_recreated: true, ..cycle },
            ),
            PresentEvent::SceneCreated(resources) => (WsiPresenter {
                blur_resources: Some(resources),
                ..self
            }).at_transition(cycle),
            PresentEvent::SceneFailed => (
                WsiPresenter { pause_blur_available: false, ..self },
                PresentCycle { phase: PresentPhase::Finished, ..cycle },
                PresentAction::Fail(PresentFailure::SceneUnavailable),
            ),
            PresentEvent::TargetsCreated(resources) => (WsiPresenter {
                transition_resources: Some(resources),
                ..self
            }).at_output(cycle),
            PresentEvent::TargetsFailed => (WsiPresenter {
                transitions_available: false,
                ..self
            }).at_output(cycle),
            PresentEvent::Fence(signaled) => if signaled {
                (
                    self,
                    PresentCycle { phase: PresentPhase::Acquire, ..cycle },
                    PresentAction::AcquireImage {
                        swapchain: self.swapchain.handle,
                        semaphore: self.frames@[cycle.frame_index as int].image_available,
                    },
                )
            } else {
                finish(self, cycle, PresentResult::Pending)
            },
            PresentEvent::Acquired(outcome) => self.acquired(cycle, outcome),
            PresentEvent::Queued(outcome) => self.queued(cycle, outcome),
            PresentEvent::Submitted => (self, cycle, PresentAction::RecordAndSubmit),
        }
    }

    /// What the dialogue remembers fits the presenter.
    pub open spec fn cycle_ok(self, cycle: PresentCycle) -> bool {
        &&& cycle.phase is ResizeIdle ==> self.recreate_extent is Some
        &&& cycle.phase is TargetCreation ==> self.blur_resources is Some
        &&& (cycle.phase is SceneOutgrownIdle || cycle.phase is SceneOutgrown || cycle.phase
            is SceneCreation || cycle.phase is TargetCreation || cycle.phase is Fence
            || cycle.phase is Acquire || cycle.phase is Record) ==> (cycle.source is Some
            ==> self.pending_direct_frame == cycle.source)
        &&& (cycle.phase is Fence || cycle.phase is Acquire || cycle.phase is Record) ==> {
            &&& cycle.frame_index == self.frame_cursor
            &&& cycle.outgoing_target is Some <==> self.transition_resources is Some
            &&& cycle.outgoing_target is Some ==> cycle.outgoing_target->0
                < self.transition_resources->0.targets@.len()
            &&& cycle.start_transition ==> self.transition_resources is Some
        }
        &&& cycle.phase is Record ==> {
            &&& cycle.scene_path ==> self.blur_resources is Some
            &&& cycle.image_index < self.swapchain.present_ready@.len()
            &&& cycle.image_index < self.swapchain.rendering.framebuffers@.len()
        }
    }

    /// What an event may bring along: resources that are complete, and an image
    /// that the swapchain has, with a scene to draw it through where one is needed.
    pub open spec fn event_ok(self, cycle: PresentCycle, event: PresentEvent) -> bool {
        match event {
            PresentEvent::SceneCreated(resources) => 1 <= resources.mip_views@.len()
                <= MAX_BLUR_MIP_LEVELS,
            PresentEvent::TargetsCreated(resources) => resources.wf(),
            PresentEvent::Acquired(AcquireOutcome::Image { index, .. }) => {
                &&& cycle.scene_path ==> self.blur_resources is Some
                &&& index < self.swapchain.present_ready@.len()
                &&& index < self.swapchain.rendering.framebuffers@.len()
            },
            _ => true,
        }
    }

    /// Opens the dialogue that presents one frame.
    pub fn begin_present(&mut self, inputs: PresentInputs) -> (step: (PresentCycle, PresentAction))
        requires
            old(self).wf(),
        ensures
            (*final(self), step.0, step.1) == old(self).opened(inputs),
            final(self).wf(),
            final(self).cycle_ok(step.0),
    {
        let blur: BlurSample = self.blur_transition.sample(inputs.now, inputs.interpolated);
        let transition: TransitionSample = self.sample_transition(inputs.now, inputs.eased);
        let blur_scene: bool = needs_persistent_scene(
            self.pause_blur_available,
            self.pause_presentation,
            &blur,
            self.blur_resources.is_some(),
        );
        let scene_path: bool = blur_scene || (self.supports_transitions() && (
        self.transition_presentation.is_some() || self.prepared_transition.is_some()
            || self.active_transition.is_some() || self.content_presentation.has_submitted()));
        let cycle = PresentCycle {
            phase: PresentPhase::Finished,
            now: inputs.now,
            release_pending: inputs.release_pending,
            blur,
            transition,
            scene_path,
            swapchain_recreated: false,
            blank_pending: false,
            retained_transition: None,
            source: None,
            start_transition: false,
            outgoing_target: None,
            output_transition: None,
            frame_index: 0,
            image_index: 0,
            suboptimal: false,
            rebuild_pyramid: false,
        };
        if !scene_path && self.blur_resources.is_some() {
            (
                PresentCycle { phase: PresentPhase::SceneUnneededIdle, ..cycle },
                PresentAction::QueryFramesIdle,
            )
        } else {
            self.continue_at_resize(cycle)
        }
    }

    fn continue_at_resize(&self, cycle: PresentCycle) -> (step: (PresentCycle, PresentAction))
        requires
            self.wf(),
        ensures
            (*self, step.0, step.1) == self.at_resize(cycle),
            self.cycle_ok(step.0),
    {
        if self.recreate_extent.is_some() {
            (
                PresentCycle { phase: PresentPhase::ResizeIdle, ..cycle },
                PresentAction::QueryFramesIdle,
            )
        } else {
            self.continue_at_source(cycle)
        }
    }

    fn continue_at_source(&self, cycle: PresentCycle) -> (step: (PresentCycle, PresentAction))
        requires
            self.wf(),
        ensures
            (*self, step.0, step.1) == self.at_source(cycle),
            self.cycle_ok(step.0),
    {
        let blank_pending: bool = self.blank_state == BlankState::Pending;
        let retained = retained_transition_sample(
            self.prepared_transition,
            cycle.transition.running,
        );
        let source: Option<DirectFrame> = if blank_pending {
            None
        } else {
            self.pending_direct_frame
        };
        let sourced = PresentCycle {
            blank_pending,
            retained_transition: retained,
            source,
            ..cycle
        };
        let extent_mismatch: bool = match &self.blur_resources {
            Some(resources) => resources.extent != self.swapchain.extent,
            None => false,
        };
        if sourced.scene_path && sourced.source.is_some() && extent_mismatch {
            (
                PresentCycle { phase: PresentPhase::SceneOutgrownIdle, ..sourced },
                PresentAction::QueryFramesIdle,
            )
        } else {
            self.continue_at_scene(sourced)
        }
    }

    fn continue_at_scene(&self, cycle: PresentCycle) -> (step: (PresentCycle, PresentAction))
        requires
            self.wf(),
            cycle.source is Some ==> self.pending_direct_frame == cycle.source,
        ensures
            (*self, step.0, step.1) == self.at_scene(cycle),
            self.cycle_ok(step.0),
    {
        if cycle.scene_path && cycle.source.is_some() && self.blur_resources.is_none() {
            (
                PresentCycle { phase: PresentPhase::SceneCreation, ..cycle },
                PresentAction::CreateScene {
                    render_pass: self.swapchain.rendering.render_pass,
                    format: self.swapchain.format,
                    extent: self.swapchain.extent,
                },
            )
        } else {
            self.continue_at_transition(cycle)
        }
    }

    fn holds_valid_scene(&self) -> (valid: bool)
        ensures
            valid == self.scene_valid(),
    {
        match &self.blur_resources {
            Some(resources) => resources.base_valid,
            None => false,
        }
    }

    fn continue_at_transition(&self, cycle: PresentCycle) -> (step: (PresentCycle, PresentAction))
        requires
            self.wf(),
            cycle.source is Some ==> self.pending_direct_frame == cycle.source,
        ensures
            (*self, step.0, step.1) == self.at_transition(cycle),
            self.cycle_ok(step.0),
    {
        let start_transition: bool = cycle.source.is_some() && self.supports_transitions()
            && self.content_presentation.should_transition(
            self.transition_presentation.is_some(),
            self.holds_valid_scene(),
        );
        let decided = PresentCycle { start_transition, ..cycle };
        if start_transition && self.transition_resources.is_none() {
            (
                PresentCycle { phase: PresentPhase::TargetCreation, ..decided },
                PresentAction::CreateTargets,
            )
        } else {
            self.continue_at_output(decided)
        }
    }

    fn continue_at_output(&self, cycle: PresentCycle) -> (step: (PresentCycle, PresentAction))
        requires
            self.wf(),
            cycle.source is Some ==> self.pending_direct_frame == cycle.source,
        ensures
            (*self, step.0, step.1) == self.at_output(cycle),
            self.cycle_ok(step.0),
    {
        let start_transition: bool = cycle.start_transition && self.transition_resources.is_some();
        let outgoing_target: Option<usize> = match &self.transition_resources {
            Some(resources) => {
                let count: usize = resources.targets.len();
                Some(
                    if start_transition {
                        (resources.front + 1) % count
                    } else {
                        resources.front
                    },
                )
            },
            None => None,
        };
        let output_transition: Option<(TransitionShape, Single)> = if start_transition {
            match self.transition_presentation {
                Some(presentation) => Some((presentation.shape, Single { bits: 0 })),
                None => None,
            }
        } else {
            retained_transition_sample(self.prepared_transition, cycle.transition.running)
        };
        let composed = PresentCycle { start_transition, outgoing_target, output_transition, ..cycle };
        let scene_valid: bool = self.holds_valid_scene();
        let blur_redraw: bool = needs_scene_redraw(
            cycle.scene_path,
            scene_valid,
            &cycle.blur,
            cycle.swapchain_recreated,
        );
        let scene_redraw: bool = blur_redraw || (cycle.scene_path && scene_valid && (
        cycle.transition.running.is_some() || cycle.transition.finished
            || self.content_presentation.has_submitted()));
        if cycle.source.is_none() && !scene_redraw && !cycle.blank_pending {
            return (
                PresentCycle { phase: PresentPhase::Finished, ..composed },
                PresentAction::Done(PresentResult::Presented { redraw: cycle.release_pending }),
            );
        }
        (
            PresentCycle {
                phase: PresentPhase::Fence,
                frame_index: self.frame_cursor,
                ..composed
            },
            PresentAction::QueryFence { fence: self.frames[self.frame_cursor].fence },
        )
    }

    fn continue_acquired(&mut self, cycle: PresentCycle, outcome: AcquireOutcome) -> (step: (
        PresentCycle,
        PresentAction,
    ))
        requires
            old(self).wf(),
            old(self).cycle_ok(cycle),
            cycle.phase is Acquire,
            old(self).event_ok(cycle, PresentEvent::Acquired(outcome)),
        ensures
            (*final(self), step.0, step.1) == old(self).acquired(cycle, outcome),
            final(self).wf(),
            final(self).cycle_ok(step.0),
    {
        match outcome {
            AcquireOutcome::Image { index, suboptimal } => {
                let rebuild_pyramid: bool = cycle.scene_path && match &self.blur_resources {
                    Some(resources) => (cycle.source.is_some() && !resources.base_valid) || (
                    cycle.blur.radius.exceeds_epsilon() && (cycle.source.is_some()
                        || resources.pyramid_dirty || !resources.pyramid_valid)),
                    None => false,
                };
                (
                    PresentCycle {
                        phase: PresentPhase::Record,
                        image_index: index,
                        suboptimal,
                        rebuild_pyramid,
                        ..cycle
                    },
                    PresentAction::RecordAndSubmit,
                )
            },
            AcquireOutcome::OutOfDate => {
                self.recreate_extent = Some(self.swapchain.extent);
                (
                    PresentCycle { phase: PresentPhase::Finished, ..cycle },
                    PresentAction::Done(PresentResult::Pending),
                )
            },
            AcquireOutcome::NotReady => (
                PresentCycle { phase: PresentPhase::Finished, ..cycle },
                PresentAction::Done(PresentResult::Pending),
            ),
        }
    }

    fn continue_submitted(&mut self, cycle: PresentCycle) -> (step: (PresentCycle, PresentAction))
        requires
            old(self).wf(),
            old(self).cycle_ok(cycle),
            cycle.phase is Record,
        ensures
            final(self).frames@ == old(self).submitted_frames(cycle),
            *final(self) == old(self).after_submission(cycle, final(self).frames),
            step.0 == WsiPresenter::submitted_cycle(cycle),
            step.1 == (PresentAction::QueuePresent {
                swapchain: old(self).swapchain.handle,
                image_index: cycle.image_index,
                wait: old(self).swapchain.present_ready@[cycle.image_index as int],
            }),
            final(self).wf(),
            final(self).cycle_ok(step.0),
    {
        let has_source: bool = cycle.source.is_some();
        if cycle.scene_path {
            if let Some(resources) = &mut self.blur_resources {
                if has_source {
                    resources.base_valid = true;
                    resources.pyramid_valid = false;
                    resources.pyramid_dirty = true;
                }
                if cycle.rebuild_pyramid {
                    resources.pyramid_valid = true;
                    resources.pyramid_dirty = false;
                }
            }
        }
        if cycle.start_transition {
            if let Some(target) = cycle.outgoing_target {
                if let Some(resources) = &mut self.transition_resources {
                    resources.front = target;
                }
            }
            self.prepared_transition = self.transition_presentation;
        }
        if let Some(frame) = cycle.source {
            self.content_presentation.mark_submitted();
            self.pending_direct_frame = None;
            let mut slot: FrameContext = self.frames[cycle.frame_index];
            slot.pending_release = Some(frame.release());
            self.frames.set(cycle.frame_index, slot);
        }
        (
            PresentCycle {
                phase: PresentPhase::Queue,
                release_pending: cycle.release_pending || has_source,
                ..cycle
            },
            PresentAction::QueuePresent {
                swapchain: self.swapchain.handle,
                image_index: cycle.image_index,
                wait: self.swapchain.present_ready[cycle.image_index as usize],
            },
        )
    }

    fn accept_frame(&mut self, cycle: PresentCycle, suboptimal: bool)
        ensures
            *final(self) == old(self).after_accepted(cycle, suboptimal),
    {
        if cycle.suboptimal || suboptimal {
            self.recreate_extent = Some(self.swapchain.extent);
        }
        self.content_presentation.present_accepted();
        if let Some(presentation) = self.prepared_transition {
            self.prepared_transition = None;
            self.active_transition = Some(
                ActiveTransition { presentation, started_at: cycle.now },
            );
        } else if cycle.transition.finished {
            self.active_transition = None;
        }
        if cycle.blank_pending || cycle.source.is_some() {
            self.blank_state.presented(cycle.blank_pending);
        }
    }

    fn refuse_frame(&mut self, cycle: PresentCycle)
        ensures
            *final(self) == old(self).after_refused(cycle),
    {
        self.recreate_extent = Some(self.swapchain.extent);
        if !cycle.scene_path {
            self.content_presentation.discard_submitted();
        }
    }

    fn finish_frame(&mut self, cycle: PresentCycle) -> (step: (PresentCycle, PresentAction))
        requires
            old(self).wf(),
        ensures
            (*final(self), step.0, step.1) == finish(
                old(self).with_next_frame(),
                cycle,
                PresentResult::Presented {
                    redraw: old(self).with_next_frame().wants_redraw(cycle),
                },
            ),
            final(self).wf(),
    {
        let count: usize = self.frames.len();
        self.frame_cursor = (self.frame_cursor + 1) % count;
        let cleanup_pending: bool = !self.pause_presentation.configured && cycle.blur.finished
            && self.blur_resources.is_some();
        let redraw: bool = cycle.blur.animating || cycle.output_transition.is_some()
            || cleanup_pending || cycle.release_pending || self.blank_state == BlankState::Pending
            || self.recreate_extent.is_some() || self.pending_direct_frame.is_some();
        (
            PresentCycle { phase: PresentPhase::Finished, ..cycle },
            PresentAction::Done(PresentResult::Presented { redraw }),
        )
    }

    fn continue_queued(&mut self, cycle: PresentCycle, outcome: QueueOutcome) -> (step: (
        PresentCycle,
        PresentAction,
    ))
        requires
            old(self).wf(),
        ensures
            (*final(self), step.0, step.1) == old(self).queued(cycle, outcome),
            final(self).wf(),
            final(self).cycle_ok(step.0),
    {
        match outcome {
            QueueOutcome::Accepted { suboptimal } => {
                self.accept_frame(cycle, suboptimal);
                self.finish_frame(cycle)
            },
            QueueOutcome::OutOfDate => {
                self.refuse_frame(cycle);
                self.finish_frame(cycle)
            },
            QueueOutcome::Failed => {
                self.content_presentation.discard_submitted();
                self.prepared_transition = None;
                (
                    PresentCycle { phase: PresentPhase::Finished, ..cycle },
                    PresentAction::Fail(PresentFailure::QueueFailed),
                )
            },
        }
    }

    /// Carries the dialogue on: `event` is what the last action came to. Queries and
    /// steps of the graphics stack that fail end it without a call.
    pub fn present(&mut self, cycle: PresentCycle, event: PresentEvent) -> (step: (
        PresentCycle,
        PresentAction,
    ))
        requires
            old(self).wf(),
            old(self).cycle_ok(cycle),
            answers(cycle.phase, event),
            old(self).event_ok(cycle, event),
        ensures
            event !is Submitted ==> (*final(self), step.0, step.1) == old(self).replied(
                cycle,
                event,
            ),
            event is Submitted ==> {
                &&& final(self).frames@ == old(self).submitted_frames(cycle)
                &&& *final(self) == old(self).after_submission(cycle, final(self).frames)
                &&& step.0 == WsiPresenter::submitted_cycle(cycle)
                &&& step.1 == (PresentAction::QueuePresent {
                    swapchain: old(self).swapchain.handle,
                    image_index: cycle.image_index,
                    wait: old(self).swapchain.present_ready@[cycle.image_index as int],
                })
            },
            final(self).wf(),
            final(self).cycle_ok(step.0),
    {
        match event {
            PresentEvent::FramesIdle(idle) => {
                if !idle {
                    return (
                        PresentCycle { phase: PresentPhase::Finished, ..cycle },
                        PresentAction::Done(PresentResult::Pending),
                    );
                }
                if cycle.phase == PresentPhase::SceneUnneededIdle {
                    let (transitions, scene) = self.take_scene();
                    (
                        PresentCycle { phase: PresentPhase::SceneUnneeded, ..cycle },
                        PresentAction::DestroyScene { transitions, scene },
                    )
                } else if cycle.phase == PresentPhase::SceneOutgrownIdle {
                    let (transitions, scene) = self.take_scene();
                    (
                        PresentCycle { phase: PresentPhase::SceneOutgrown, ..cycle },
                        PresentAction::DestroyScene { transitions, scene },
                    )
                } else {
                    let requested: Option<Extent2D> = self.recreate_extent;
                    self.recreate_extent = None;
                    (
                        PresentCycle { phase: PresentPhase::Resize, ..cycle },
                        PresentAction::RecreateSwapchain { extent: requested.unwrap() },
                    )
                }
            },
            PresentEvent::SceneDestroyed => {
                if cycle.phase == PresentPhase::SceneUnneeded {
                    self.continue_at_resize(cycle)
                } else {
                    self.continue_at_scene(cycle)
                }
            },
            PresentEvent::SwapchainRecreated => self.continue_at_source(
                PresentCycle { swapchain_recreated: true, ..cycle },
            ),
            PresentEvent::SceneCreated(resources) => {
                self.blur_resources = Some(resources);
                self.continue_at_transition(cycle)
            },
            PresentEvent::SceneFailed => {
                self.pause_blur_available = false;
                (
                    PresentCycle { phase: PresentPhase::Finished, ..cycle },
                    PresentAction::Fail(PresentFailure::SceneUnavailable),
                )
            },
            PresentEvent::TargetsCreated(resources) => {
                self.transition_resources = Some(resources);
                self.continue_at_output(cycle)
            },
            PresentEvent::TargetsFailed => {
                self.transitions_available = false;
                self.continue_at_output(cycle)
            },
            PresentEvent::Fence(signaled) => {
                if signaled {
                    (
                        PresentCycle { phase: PresentPhase::Acquire, ..cycle },
                        PresentAction::AcquireImage {
                            swapchain: self.swapchain.handle,
                            semaphore: self.frames[cycle.frame_index].image_available,
                        },
                    )
                } else {
                    (
                        PresentCycle { phase: PresentPhase::Finished, ..cycle },
                        PresentAction::Done(PresentResult::Pending),
                    )
                }
            },
            PresentEvent::Acquired(outcome) => self.continue_acquired(cycle, outcome),
            PresentEvent::Submitted => self.continue_submitted(cycle),
            PresentEvent::Queued(outcome) => self.continue_queued(cycle, outcome),
        }
    }

    /// The passes that draw the mip levels of the scene below the full size.
    pub open spec fn downsample_passes(extent: Extent2D, levels: nat) -> Seq<DrawPass> {
        Seq::new(
            (levels - 1) as nat,
            |index: int|
                DrawPass::Downsample {
                    level: (index + 1) as usize,
                    extent: Extent2D {
                        width: mip_dimension(extent.width, (index + 1) as nat) as u32,
                        height: mip_dimension(extent.height, (index + 1) as nat) as u32,
                    },
                },
        )
    }

    /// The pass that keeps what is on screen, before the new frame overwrites it.
    pub open spec fn capture_passes(self, cycle: PresentCycle) -> Seq<DrawPass> {
        let scene = self.blur_resources->0;
        let target = cycle.outgoing_target->0;
        if !cycle.start_transition {
            seq![]
        } else {
            match cycle.retained_transition {
                Some((shape, progress)) => seq![
                    DrawPass::CaptureMix {
                        target,
                        front: self.transition_resources->0.front,
                        shape,
                        progress,
                        blurred: scene.pyramid_valid,
                        extent: scene.extent,
                    },
                ],
                None => seq![
                    DrawPass::CaptureScene {
                        target,
                        blurred: scene.pyramid_valid,
                        extent: scene.extent,
                    },
                ],
            }
        }
    }

    /// The passes that draw a frame, in order.
    pub open spec fn passes(self, cycle: PresentCycle) -> Seq<DrawPass> {
        let surface = self.swapchain.extent;
        if cycle.scene_path {
            let scene = self.blur_resources->0;
            self.capture_passes(cycle) + (if cycle.source is Some {
                seq![DrawPass::ComposeScene { extent: scene.extent }]
            } else {
                seq![]
            }) + (if cycle.rebuild_pyramid {
                Self::downsample_passes(scene.extent, scene.mip_views@.len())
            } else {
                seq![]
            }) + (match (cycle.output_transition, self.transition_resources) {
                (Some((shape, progress)), Some(_)) => seq![
                    DrawPass::OutputTransition {
                        target: cycle.outgoing_target->0,
                        shape,
                        progress,
                        extent: surface,
                    },
                ],
                _ => seq![DrawPass::OutputScene { extent: surface }],
            })
        } else if cycle.source is Some {
            seq![DrawPass::ComposeDirect { extent: surface }]
        } else {
            seq![DrawPass::Clear]
        }
    }

    /// The passes that draw the frame to be recorded, in order.
    pub fn draw_passes(&self, cycle: &PresentCycle) -> (passes: Vec<DrawPass>)
        requires
            self.wf(),
            self.cycle_ok(*cycle),
            cycle.phase is Record,
        ensures
            passes@ == self.passes(*cycle),
    {
        let mut passes: Vec<DrawPass> = Vec::new();
        let surface: Extent2D = self.swapchain.extent;
        if cycle.scene_path {
            let scene = self.blur_resources.as_ref().unwrap();
            if cycle.start_transition {
                let target: usize = cycle.outgoing_target.unwrap();
                match cycle.retained_transition {
                    Some((shape, progress)) => {
                        let front: usize = self.transition_resources.as_ref().unwrap().front;
                        passes.push(
                            DrawPass::CaptureMix {
                                target,
                                front,
                                shape,
                                progress,
                                blurred: scene.pyramid_valid,
                                extent: scene.extent,
                            },
                        );
                    },
                    None => {
                        passes.push(
                            DrawPass::CaptureScene {
                                target,
                                blurred: scene.pyramid_valid,
                                extent: scene.extent,
                            },
                        );
                    },
                }
            }
            if cycle.source.is_some() {
                passes.push(DrawPass::ComposeScene { extent: scene.extent });
            }
            if cycle.rebuild_pyramid {
                let ghost before = passes@;
                let levels: usize = scene.mip_views.len();
                let ghost wanted = Self::downsample_passes(scene.extent, levels as nat);
                for level in 1..levels
                    invariant
                        levels <= MAX_BLUR_MIP_LEVELS,
                        wanted == Self::downsample_passes(scene.extent, levels as nat),
                        passes@ == before + wanted.take(level - 1),
                {
                    let extent: Extent2D = blur_mip_extent(scene.extent, level as u32);
                    passes.push(DrawPass::Downsample { level, extent });
                    assert(wanted.take(level as int) =~= wanted.take(level - 1).push(
                        wanted[level - 1],
                    ));
                }
                assert(passes@ =~= before + wanted);
            }
            match (cycle.output_transition, &self.transition_resources) {
                (Some((shape, progress)), Some(_)) => {
                    let target: usize = cycle.outgoing_target.unwrap();
                    passes.push(
                        DrawPass::OutputTransition { target, shape, progress, extent: surface },
                    );
                },
                _ => {
                    passes.push(DrawPass::OutputScene { extent: surface });
                },
            }
        } else if cycle.source.is_some() {
            passes.push(DrawPass::ComposeDirect { extent: surface });
        } else {
            passes.push(DrawPass::Clear);
        }
        assert(passes@ =~= self.passes(*cycle));
        passes
    }

    /// How the frame to be recorded is submitted: the graphics queue waits for the
    /// image of the swapchain and for the producer.
    pub fn frame_submission(&self, cycle: &PresentCycle) -> (submission: FrameSubmission)
        requires
            self.wf(),
            self.cycle_ok(*cycle),
            cycle.phase is Record,
        ensures
            ({
                let frame = self.frames@[cycle.frame_index as int];
                &&& submission.waits@ == seq![
                    SubmitWait::ColorOutput { semaphore: frame.image_available },
                ] + (match cycle.source {
                    Some(source) => seq![
                        SubmitWait::FragmentShader { semaphore: source.acquire_semaphore },
                    ],
                    None => seq![],
                })
                &&& submission == (FrameSubmission {
                    command_pool: frame.command_pool,
                    command_buffer: frame.command_buffer,
                    descriptor_set: frame.descriptor_set,
                    fence: frame.fence,
                    framebuffer: self.swapchain.rendering.framebuffers@[cycle.image_index as int],
                    waits: submission.waits,
                    signal: self.swapchain.present_ready@[cycle.image_index as int],
                    clear_black: cycle.blank_pending,
                })
            }),
    {
        let frame: FrameContext = self.frames[cycle.frame_index];
        let mut waits: Vec<SubmitWait> = Vec::new();
        waits.push(SubmitWait::ColorOutput { semaphore: frame.image_available });
        if let Some(source) = cycle.source {
            waits.push(SubmitWait::FragmentShader { semaphore: source.acquire_semaphore });
        }
        let image: usize = cycle.image_index as usize;
        FrameSubmission {
            command_pool: frame.command_pool,
            command_buffer: frame.command_buffer,
            descriptor_set: frame.descriptor_set,
            fence: frame.fence,
            framebuffer: self.swapchain.rendering.framebuffers[image],
            waits,
            signal: self.swapchain.present_ready[image],
            clear_black: cycle.blank_pending,
        }
    }
}

} // verus!
