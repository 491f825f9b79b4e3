//! What the frames that are drawn have in common: how the calls that present a frame
//! relate to each other, to what is configured and to what is on screen.

use vstd::prelude::*;

#[allow(unused_imports)]
use crate::direct::FrameContext;
#[allow(unused_imports)]
use crate::effects::{mip_dimension, BlurSample, BlurTransition, TransitionShape};
#[allow(unused_imports)]
use crate::geometry::Extent2D;
#[allow(unused_imports)]
use crate::presenter::WsiPresenter;
#[allow(unused_imports)]
use crate::render::{
    AcquireOutcome, DrawPass, FrameSubmission, PresentAction, PresentCycle, PresentEvent,
    PresentFailure, PresentInputs, PresentPhase, PresentResult, QueueOutcome, Step, SubmitWait,
};
#[allow(unused_imports)]
use crate::resources::BlurResources;
#[allow(unused_imports)]
use crate::single::{Single, EPSILON_BITS, INFINITY_BITS};

verus! {

/// What was sampled when an attempt was opened.
pub open spec fn same_samples(cycle: PresentCycle, later: PresentCycle) -> bool {
    &&& later.now == cycle.now
    &&& later.blur == cycle.blur
    &&& later.transition == cycle.transition
    &&& later.scene_path == cycle.scene_path
}

/// What an attempt draws.
pub open spec fn same_content(cycle: PresentCycle, later: PresentCycle) -> bool {
    &&& later.source == cycle.source
    &&& later.blank_pending == cycle.blank_pending
    &&& later.retained_transition == cycle.retained_transition
}

/// An attempt draws black while a black frame is due, and else the frame that waits.
/// On screen is the start of a transition that was prepared, else the one that runs.
pub open spec fn draws_what_is_due(presenter: WsiPresenter, cycle: PresentCycle) -> bool {
    &&& cycle.blank_pending <==> presenter.blank_state is Pending
    &&& cycle.blank_pending ==> cycle.source is None
    &&& !cycle.blank_pending ==> cycle.source == presenter.pending_direct_frame
    &&& presenter.prepared_transition is None ==> cycle.retained_transition
        == cycle.transition.running
    &&& presenter.prepared_transition is Some ==> cycle.retained_transition == Some(
        (presenter.prepared_transition->0.shape, Single { bits: 0 }),
    )
}

/// Whether new content replaces other content on screen and that is to be animated.
pub open spec fn content_changes_animated(presenter: WsiPresenter, cycle: PresentCycle) -> bool {
    &&& cycle.source is Some
    &&& presenter.pause_blur_available
    &&& presenter.transitions_available
    &&& presenter.transition_presentation is Some
    &&& presenter.blur_resources is Some
    &&& presenter.blur_resources->0.base_valid
    &&& presenter.content_presentation.committed is Some
    &&& presenter.content_presentation.bound is Some
    &&& presenter.content_presentation.bound != presenter.content_presentation.committed
    &&& presenter.content_presentation.bound != presenter.content_presentation.submitted
}

/// Nothing is there to be drawn: no frame, no black, and no scene that moves or was
/// not seen in this form.
pub open spec fn has_nothing_to_draw(presenter: WsiPresenter, cycle: PresentCycle) -> bool {
    &&& cycle.source is None
    &&& !cycle.blank_pending
    &&& cycle.scene_path && presenter.blur_resources is Some
        && presenter.blur_resources->0.base_valid ==> {
        &&& !cycle.swapchain_recreated
        &&& !cycle.blur.animating
        &&& !cycle.blur.finished
        &&& cycle.transition.running is None
        &&& !cycle.transition.finished
        &&& presenter.content_presentation.submitted is None
    }
}

/// The frame is drawn in the slot that is up, and shows a transition from the target
/// that holds the outgoing content: from its start where it starts with this frame,
/// into the target that is not on screen; else the one on screen as it is.
pub open spec fn shows_its_transition(presenter: WsiPresenter, cycle: PresentCycle) -> bool {
    &&& cycle.frame_index == presenter.frame_cursor
    &&& cycle.outgoing_target is Some <==> presenter.transition_resources is Some
    &&& cycle.start_transition ==> presenter.transition_resources is Some
    &&& cycle.start_transition && presenter.transition_presentation is Some
        ==> cycle.output_transition == Some(
        (presenter.transition_presentation->0.shape, Single { bits: 0 }),
    )
    &&& !cycle.start_transition && presenter.transition_resources is Some
        ==> cycle.outgoing_target == Some(presenter.transition_resources->0.front)
    &&& !cycle.start_transition && presenter.prepared_transition is Some
        ==> cycle.output_transition == Some(
        (presenter.prepared_transition->0.shape, Single { bits: 0 }),
    )
    &&& !cycle.start_transition && presenter.prepared_transition is None
        ==> cycle.output_transition == cycle.transition.running
}

/// What a step on the way to a frame may be: it changes nothing and keeps to what the
/// attempt was opened with. It ends the attempt exactly where there is nothing to
/// draw.
pub open spec fn leads_to_a_frame(presenter: WsiPresenter, cycle: PresentCycle, step: Step) -> bool {
    &&& step.0 == presenter
    &&& same_samples(cycle, step.1)
    &&& step.1.swapchain_recreated == cycle.swapchain_recreated
    &&& step.1.release_pending == cycle.release_pending
    &&& match step.2 {
        PresentAction::QueryFence { fence } => {
            &&& step.1.phase is Fence
            &&& fence == presenter.frames@[presenter.frame_cursor as int].fence
            &&& shows_its_transition(presenter, step.1)
            &&& !has_nothing_to_draw(presenter, step.1)
        },
        PresentAction::Done(result) => {
            &&& result == (PresentResult::Presented { redraw: cycle.release_pending })
            &&& has_nothing_to_draw(presenter, step.1)
        },
        PresentAction::CreateScene { render_pass, format, extent } => {
            &&& step.1.phase is SceneCreation
            &&& presenter.blur_resources is None
            &&& step.1.scene_path
            &&& step.1.source is Some
            &&& render_pass == presenter.swapchain.rendering.render_pass
            &&& format == presenter.swapchain.format
            &&& extent == presenter.swapchain.extent
        },
        PresentAction::CreateTargets => {
            &&& step.1.phase is TargetCreation
            &&& presenter.transition_resources is None
            &&& step.1.start_transition
        },
        PresentAction::QueryFramesIdle => {
            ||| step.1.phase is ResizeIdle && presenter.recreate_extent is Some
            ||| {
                &&& step.1.phase is SceneOutgrownIdle
                &&& step.1.scene_path
                &&& step.1.source is Some
                &&& presenter.blur_resources is Some
                &&& presenter.blur_resources->0.extent != presenter.swapchain.extent
            }
        },
        _ => false,
    }
}

proof fn output_leads_to_a_frame(presenter: WsiPresenter, cycle: PresentCycle)
    ensures
        leads_to_a_frame(presenter, cycle, presenter.at_output(cycle)),
        same_content(cycle, presenter.at_output(cycle).1),
        presenter.at_output(cycle).2 is QueryFence || presenter.at_output(cycle).2 is Done,
        presenter.at_output(cycle).1.start_transition == (cycle.start_transition
            && presenter.transition_resources is Some),
{
}

proof fn transition_leads_to_a_frame(presenter: WsiPresenter, cycle: PresentCycle)
    ensures
        leads_to_a_frame(presenter, cycle, presenter.at_transition(cycle)),
        same_content(cycle, presenter.at_transition(cycle).1),
        presenter.at_transition(cycle).1.start_transition == content_changes_animated(
            presenter,
            cycle,
        ),
        presenter.at_transition(cycle).2 !is CreateScene,
        presenter.at_transition(cycle).2 !is QueryFramesIdle,
{
    output_leads_to_a_frame(
        presenter,
        PresentCycle { start_transition: presenter.starts_transition(cycle), ..cycle },
    );
}

proof fn scene_leads_to_a_frame(presenter: WsiPresenter, cycle: PresentCycle)
    ensures
        leads_to_a_frame(presenter, cycle, presenter.at_scene(cycle)),
        same_content(cycle, presenter.at_scene(cycle).1),
        presenter.at_scene(cycle).2 !is CreateScene
            ==> presenter.at_scene(cycle).1.start_transition == content_changes_animated(
            presenter,
            cycle,
        ),
        cycle.scene_path && cycle.source is Some ==> (presenter.at_scene(cycle).2 is CreateScene
            <==> presenter.blur_resources is None),
        presenter.at_scene(cycle).2 !is QueryFramesIdle,
{
    transition_leads_to_a_frame(presenter, cycle);
}

proof fn source_leads_to_a_frame(presenter: WsiPresenter, cycle: PresentCycle)
    ensures
        ({
            let step = presenter.at_source(cycle);
            &&& leads_to_a_frame(presenter, cycle, step)
            &&& draws_what_is_due(presenter, step.1)
            &&& step.1.phase !is ResizeIdle
            &&& step.2 is QueryFence ==> step.1.start_transition == content_changes_animated(
                presenter,
                step.1,
            )
            &&& step.1.scene_path && step.1.source is Some && (step.2 is QueryFence || step.2
                is CreateTargets) ==> presenter.blur_resources is Some
                && presenter.blur_resources->0.extent == presenter.swapchain.extent
        }),
{
    let sourced = presenter.sourced(cycle);
    scene_leads_to_a_frame(presenter, sourced);
}

proof fn resize_leads_to_a_frame(presenter: WsiPresenter, cycle: PresentCycle)
    ensures
        leads_to_a_frame(presenter, cycle, presenter.at_resize(cycle)),
        presenter.recreate_extent is Some ==> presenter.at_resize(cycle).1.phase is ResizeIdle,
        presenter.recreate_extent is None ==> presenter.at_resize(cycle)
            == presenter.at_source(cycle),
{
    source_leads_to_a_frame(presenter, cycle);
}

/// An attempt is opened with what the blur and the transition are at the time that it
/// is given. A running transition shows in its own shape, at the given progress, until
/// its time has passed; from then on it counts as finished.
pub proof fn attempt_opens_with_the_running_transition(
    presenter: &mut WsiPresenter,
    inputs: PresentInputs,
    step: (PresentCycle, PresentAction),
)
    requires
        call_ensures(WsiPresenter::begin_present, (presenter, inputs), step),
    ensures
        step.0.now == inputs.now,
        step.0.release_pending == inputs.release_pending,
        !step.0.swapchain_recreated,
        old(presenter).active_transition is None ==> step.0.transition.running is None
            && !step.0.transition.finished,
        old(presenter).active_transition matches Some(active) ==> {
            let passed = inputs.now >= active.started_at + active.presentation.duration_ns;
            &&& active.presentation.duration_ns > 0 && !passed ==> step.0.transition.running == Some(
                (active.presentation.shape, inputs.eased),
            ) && !step.0.transition.finished
            &&& passed ==> step.0.transition.running is None && step.0.transition.finished
        },
        final(presenter).active_transition == old(presenter).active_transition,
{
    resize_leads_to_a_frame(
        WsiPresenter {
            blur_transition: old(presenter).blur_transition.after_sample(
                inputs.now,
                inputs.interpolated,
            ),
            ..*old(presenter)
        },
        old(presenter).opening(inputs),
    );
}

/// A frame goes through the kept scene where something needs it, and else goes
/// straight to the surface: a blur that is configured or shows, or a transition that
/// is configured, prepared, running, or not yet seen. Without the means to keep a scene
/// nothing goes through it. A scene that is needed no more is given up before
/// anything is drawn, and a size that was asked for is taken over before that too.
pub proof fn scene_is_kept_where_it_is_needed(
    presenter: &mut WsiPresenter,
    inputs: PresentInputs,
    step: (PresentCycle, PresentAction),
)
    requires
        call_ensures(WsiPresenter::begin_present, (presenter, inputs), step),
    ensures
        ({
            let before = *old(presenter);
            let radius = step.0.blur.radius.bits;
            let blurred = before.pause_presentation.configured || EPSILON_BITS < radius
                <= INFINITY_BITS || step.0.blur.animating;
            let last_look = step.0.blur.finished && before.blur_resources is Some;
            let changing = before.transition_presentation is Some || before.prepared_transition
                is Some || before.active_transition is Some
                || before.content_presentation.submitted is Some;
            &&& !before.pause_blur_available ==> !step.0.scene_path
            &&& before.pause_blur_available && blurred ==> step.0.scene_path
            &&& before.pause_blur_available && last_look ==> step.0.scene_path
            &&& before.pause_blur_available && before.transitions_available && changing
                ==> step.0.scene_path
            &&& !blurred && !last_look && !(before.transitions_available && changing)
                ==> !step.0.scene_path
            &&& !step.0.scene_path && before.blur_resources is Some ==> step.1 is QueryFramesIdle
                && step.0.phase is SceneUnneededIdle
            &&& before.recreate_extent is Some ==> step.1 is QueryFramesIdle && (step.0.phase
                is SceneUnneededIdle || step.0.phase is ResizeIdle)
            &&& before.recreate_extent is None && (step.0.scene_path || before.blur_resources
                is None) ==> {
                &&& leads_to_a_frame(*final(presenter), step.0, (*final(presenter), step.0, step.1))
                &&& draws_what_is_due(*final(presenter), step.0)
                &&& step.1 is QueryFence ==> step.0.start_transition == content_changes_animated(
                    *final(presenter),
                    step.0,
                )
            }
        }),
{
    let sampled = WsiPresenter {
        blur_transition: old(presenter).blur_transition.after_sample(
            inputs.now,
            inputs.interpolated,
        ),
        ..*old(presenter)
    };
    resize_leads_to_a_frame(sampled, old(presenter).opening(inputs));
    source_leads_to_a_frame(sampled, old(presenter).opening(inputs));
}

/// Every reply on the way to a frame leads on with what the attempt was opened with.
/// Resources that were created are in use from then on; without targets a change of
/// content is not animated, and is not tried again.
pub proof fn attempt_keeps_to_what_it_draws(
    presenter: &mut WsiPresenter,
    cycle: PresentCycle,
    event: PresentEvent,
    step: (PresentCycle, PresentAction),
)
    requires
        call_ensures(WsiPresenter::present, (presenter, cycle, event), step),
        event is SceneDestroyed || event is SwapchainRecreated || event is SceneCreated || event
            is TargetsCreated || event is TargetsFailed,
    ensures
        ({
            let after = *final(presenter);
            &&& leads_to_a_frame(
                after,
                PresentCycle {
                    swapchain_recreated: cycle.swapchain_recreated || event is SwapchainRecreated,
                    ..cycle
                },
                (after, step.0, step.1),
            )
            &&& event is SwapchainRecreated ==> draws_what_is_due(after, step.0)
            &&& event is SceneDestroyed && cycle.phase is SceneUnneeded && after.recreate_extent
                is None ==> draws_what_is_due(after, step.0)
            &&& event is SceneDestroyed && cycle.phase is SceneUnneeded && after.recreate_extent
                is Some ==> step.0.phase is ResizeIdle
            &&& event is SceneCreated || event is TargetsCreated || event is TargetsFailed
                ==> same_content(cycle, step.0)
            &&& event is SceneDestroyed && cycle.phase !is SceneUnneeded ==> same_content(
                cycle,
                step.0,
            )
            &&& (event is SwapchainRecreated || event is SceneCreated) && step.1 is QueryFence
                ==> step.0.start_transition == content_changes_animated(after, step.0)
            &&& event matches PresentEvent::SceneCreated(resources) ==> after == (WsiPresenter {
                blur_resources: Some(resources),
                ..*old(presenter)
            })
            &&& event matches PresentEvent::TargetsCreated(resources) ==> after == (WsiPresenter {
                transition_resources: Some(resources),
                ..*old(presenter)
            }) && step.0.start_transition == cycle.start_transition
            &&& event is TargetsFailed ==> after == (WsiPresenter {
                transitions_available: false,
                ..*old(presenter)
            }) && (after.transition_resources is None ==> !step.0.start_transition)
        }),
{
    let before = *old(presenter);
    match event {
        PresentEvent::SceneDestroyed => {
            resize_leads_to_a_frame(before, cycle);
            source_leads_to_a_frame(before, cycle);
            scene_leads_to_a_frame(before, cycle);
        },
        PresentEvent::SwapchainRecreated => source_leads_to_a_frame(
            before,
            PresentCycle { swapchain_recreated: true, ..cycle },
        ),
        PresentEvent::SceneCreated(resources) => transition_leads_to_a_frame(
            WsiPresenter { blur_resources: Some(resources), ..before },
            cycle,
        ),
        PresentEvent::TargetsCreated(resources) => output_leads_to_a_frame(
            WsiPresenter { transition_resources: Some(resources), ..before },
            cycle,
        ),
        PresentEvent::TargetsFailed => output_leads_to_a_frame(
            WsiPresenter { transitions_available: false, ..before },
            cycle,
        ),
        _ => {},
    }
}

/// A swapchain that was replaced is drawn to: an attempt that goes through a valid
/// scene never ends with the new swapchain, whether or not a new frame waits; nor does
/// one for which a frame or a black one is due.
pub proof fn replaced_swapchain_is_drawn_to(
    presenter: &mut WsiPresenter,
    cycle: PresentCycle,
    step: (PresentCycle, PresentAction),
)
    requires
        call_ensures(
            WsiPresenter::present,
            (presenter, cycle, PresentEvent::SwapchainRecreated),
            step,
        ),
        cycle.scene_path && old(presenter).blur_resources is Some && old(
            presenter,
        ).blur_resources->0.base_valid || old(presenter).pending_direct_frame is Some || old(
            presenter,
        ).blank_state is Pending,
    ensures
        step.1 !is Done,
        step.1 !is Fail,
        step.0.phase !is Finished,
{
    source_leads_to_a_frame(
        *old(presenter),
        PresentCycle { swapchain_recreated: true, ..cycle },
    );
}

/// What is drawn is given up or replaced only when no frame in flight uses it any
/// more. A scene goes with its targets, all of it, and a transition from them ends;
/// the swapchain is replaced by one of the size that was asked for.
pub proof fn busy_frames_are_waited_for(
    presenter: &mut WsiPresenter,
    cycle: PresentCycle,
    idle: bool,
    step: (PresentCycle, PresentAction),
)
    requires
        call_ensures(
            WsiPresenter::present,
            (presenter, cycle, PresentEvent::FramesIdle(idle)),
            step,
        ),
        cycle.phase is SceneUnneededIdle || cycle.phase is SceneOutgrownIdle || cycle.phase
            is ResizeIdle,
    ensures
        !idle ==> *final(presenter) == *old(presenter) && step.1 == PresentAction::Done(
            PresentResult::Pending,
        ),
        idle && cycle.phase !is ResizeIdle ==> {
            &&& step.1 == (PresentAction::DestroyScene {
                transitions: old(presenter).transition_resources,
                scene: old(presenter).blur_resources,
            })
            &&& *final(presenter) == (WsiPresenter {
                transition_resources: None,
                blur_resources: None,
                active_transition: None,
                ..*old(presenter)
            })
            &&& cycle.phase is SceneUnneededIdle ==> step.0.phase is SceneUnneeded
            &&& cycle.phase is SceneOutgrownIdle ==> step.0.phase is SceneOutgrown
        },
        idle && cycle.phase is ResizeIdle ==> {
            &&& old(presenter).recreate_extent matches Some(extent) ==> step.1 == (
            PresentAction::RecreateSwapchain { extent })
            &&& *final(presenter) == (WsiPresenter { recreate_extent: None, ..*old(presenter) })
            &&& step.0.phase is Resize
        },
        same_samples(cycle, step.0),
        same_content(cycle, step.0),
        step.0.swapchain_recreated == cycle.swapchain_recreated,
{
}

/// A new size is taken over: what is asked for last is what the swapchain is replaced
/// by, and a black frame that was accepted has to be drawn again.
pub proof fn requested_size_is_taken_over(
    presenter: &mut WsiPresenter,
    width: u32,
    height: u32,
    later: &mut WsiPresenter,
    cycle: PresentCycle,
    step: (PresentCycle, PresentAction),
)
    requires
        call_ensures(WsiPresenter::request_resize, (presenter, width, height), ()),
        *old(later) == *final(presenter),
        call_ensures(
            WsiPresenter::present,
            (later, cycle, PresentEvent::FramesIdle(true)),
            step,
        ),
        cycle.phase is ResizeIdle,
    ensures
        (width, height) != (
            old(presenter).swapchain.extent.width,
            old(presenter).swapchain.extent.height,
        ) ==> {
            &&& step.1 == (PresentAction::RecreateSwapchain { extent: Extent2D { width, height } })
            &&& final(presenter).blank_state !is Committed
            &&& old(presenter).blank_state !is Inactive ==> final(presenter).blank_state is Pending
            &&& old(presenter).blank_state is Inactive ==> final(presenter).blank_state is Inactive
        },
        (width, height) == (
            old(presenter).swapchain.extent.width,
            old(presenter).swapchain.extent.height,
        ) ==> *final(presenter) == *old(presenter),
{
}

/// The calls that present one frame belong together. The image is acquired with the
/// semaphore that the submission waits for, in the slot whose fence was asked for
/// and is signaled by the submission. The frame is drawn to the image that was
/// acquired and handed to the compositor with that image, once the semaphore that the
/// submission signals says that it is drawn. A frame of the producer is read only when
/// its own semaphore allows it.
pub proof fn frame_is_synchronized(
    at_fence: &mut WsiPresenter,
    cycle: PresentCycle,
    acquiring: (PresentCycle, PresentAction),
    at_image: &mut WsiPresenter,
    index: u32,
    suboptimal: bool,
    recording: (PresentCycle, PresentAction),
    submission: FrameSubmission,
    at_submit: &mut WsiPresenter,
    queueing: (PresentCycle, PresentAction),
)
    requires
        call_ensures(
            WsiPresenter::present,
            (at_fence, cycle, PresentEvent::Fence(true)),
            acquiring,
        ),
        *old(at_image) == *final(at_fence),
        call_ensures(
            WsiPresenter::present,
            (
                at_image,
                acquiring.0,
                PresentEvent::Acquired(AcquireOutcome::Image { index, suboptimal }),
            ),
            recording,
        ),
        call_ensures(
            WsiPresenter::frame_submission,
            (&*final(at_image), &recording.0),
            submission,
        ),
        *old(at_submit) == *final(at_image),
        call_ensures(
            WsiPresenter::present,
            (at_submit, recording.0, PresentEvent::Submitted),
            queueing,
        ),
    ensures
        *final(at_image) == *old(at_fence),
        acquiring.1 matches PresentAction::AcquireImage { swapchain, semaphore } && {
            &&& swapchain == old(at_fence).swapchain.handle
            &&& submission.waits@.len() >= 1
            &&& submission.waits@[0] == (SubmitWait::ColorOutput { semaphore })
            &&& semaphore == old(at_fence).frames@[cycle.frame_index as int].image_available
            &&& queueing.1 == (PresentAction::QueuePresent {
                swapchain,
                image_index: index,
                wait: submission.signal,
            })
        },
        recording.1 is RecordAndSubmit,
        submission.signal == old(at_fence).swapchain.present_ready@[index as int],
        submission.framebuffer == old(at_fence).swapchain.rendering.framebuffers@[index as int],
        submission.fence == old(at_fence).frames@[cycle.frame_index as int].fence,
        submission.command_pool == old(at_fence).frames@[cycle.frame_index as int].command_pool,
        submission.command_buffer == old(at_fence).frames@[cycle.frame_index as int].command_buffer,
        submission.descriptor_set == old(at_fence).frames@[cycle.frame_index as int].descriptor_set,
        submission.clear_black == cycle.blank_pending,
        cycle.source is None ==> submission.waits@.len() == 1,
        cycle.source matches Some(frame) ==> submission.waits@.len() == 2
            && submission.waits@[1] == (SubmitWait::FragmentShader {
            semaphore: frame.acquire_semaphore,
        }),
        same_samples(cycle, queueing.0),
        same_content(cycle, queueing.0),
        queueing.0.frame_index == cycle.frame_index,
        queueing.0.image_index == index,
        queueing.0.suboptimal == suboptimal,
        queueing.0.output_transition == cycle.output_transition,
        queueing.0.outgoing_target == cycle.outgoing_target,
        queueing.0.start_transition == cycle.start_transition,
{
}

/// An attempt that finds no image free, or its slot still in use, ends and changes
/// nothing; one that finds the swapchain out of date asks for it to be replaced by one
/// of the same size.
pub proof fn attempt_without_an_image_is_made_again(
    presenter: &mut WsiPresenter,
    cycle: PresentCycle,
    event: PresentEvent,
    step: (PresentCycle, PresentAction),
)
    requires
        call_ensures(WsiPresenter::present, (presenter, cycle, event), step),
        event == PresentEvent::Fence(false) || event == PresentEvent::Acquired(
            AcquireOutcome::NotReady,
        ) || event == PresentEvent::Acquired(AcquireOutcome::OutOfDate),
    ensures
        step.1 == PresentAction::Done(PresentResult::Pending),
        event == PresentEvent::Acquired(AcquireOutcome::OutOfDate) ==> *final(presenter) == (
        WsiPresenter {
            recreate_extent: Some(old(presenter).swapchain.extent),
            ..*old(presenter)
        }),
        event != PresentEvent::Acquired(AcquireOutcome::OutOfDate) ==> *final(presenter) == *old(
            presenter,
        ),
{
}

/// Whether a blur of this radius can be seen: it is more than the machine epsilon.
pub open spec fn can_be_seen(radius: Single) -> bool {
    EPSILON_BITS < radius.bits <= INFINITY_BITS
}

/// The passes draw every mip level of the scene below the full size, each from the one
/// above, after a new frame was drawn into the scene and before anything is drawn to
/// the surface.
pub open spec fn draws_all_levels(passes: Seq<DrawPass>, scene: BlurResources, start: int) -> bool {
    let levels = scene.mip_views@.len();
    &&& start + levels == passes.len()
    &&& forall|level: int|
        1 <= level < levels ==> (#[trigger] passes[start + level - 1] matches DrawPass::Downsample {
            level: drawn,
            ..
        } && drawn == level)
}

/// Whether no pass draws a mip level.
pub open spec fn draws_no_level(passes: Seq<DrawPass>) -> bool {
    forall|index: int| 0 <= index < passes.len() ==> !(#[trigger] passes[index] is Downsample)
}

/// The passes of a frame, one after the other. What is on screen is captured first,
/// where a change of content starts. A new frame is drawn into the scene, or straight
/// to the surface; the mip levels come after it; and the surface is drawn last, once,
/// in its own size.
pub proof fn passes_come_in_order(
    presenter: WsiPresenter,
    cycle: PresentCycle,
    passes: Vec<DrawPass>,
)
    requires
        call_ensures(WsiPresenter::draw_passes, (&presenter, &cycle), passes),
        cycle.scene_path ==> presenter.blur_resources is Some
            && presenter.blur_resources->0.mip_views@.len() >= 1,
    ensures
        passes@.len() >= 1,
        !cycle.scene_path ==> passes@.len() == 1,
        !cycle.scene_path && cycle.source is Some ==> passes@[0] == (DrawPass::ComposeDirect {
            extent: presenter.swapchain.extent,
        }),
        !cycle.scene_path && cycle.source is None ==> passes@[0] is Clear,
        cycle.scene_path ==> {
            let scene = presenter.blur_resources->0;
            let captured = if cycle.start_transition {
                1int
            } else {
                0int
            };
            let composed = captured + if cycle.source is Some {
                1int
            } else {
                0int
            };
            &&& cycle.start_transition ==> match cycle.retained_transition {
                Some((shape, progress)) => passes@[0] == (DrawPass::CaptureMix {
                    target: cycle.outgoing_target->0,
                    front: presenter.transition_resources->0.front,
                    shape,
                    progress,
                    blurred: scene.pyramid_valid,
                    extent: scene.extent,
                }),
                None => passes@[0] == (DrawPass::CaptureScene {
                    target: cycle.outgoing_target->0,
                    blurred: scene.pyramid_valid,
                    extent: scene.extent,
                }),
            }
            &&& cycle.source is Some ==> passes@[captured] == (DrawPass::ComposeScene {
                extent: scene.extent,
            })
            &&& cycle.rebuild_pyramid ==> draws_all_levels(passes@, scene, composed)
            &&& !cycle.rebuild_pyramid ==> passes@.len() == composed + 1 && draws_no_level(passes@)
            &&& match (cycle.output_transition, presenter.transition_resources) {
                (Some((shape, progress)), Some(_)) => passes@.last() == (
                DrawPass::OutputTransition {
                    target: cycle.outgoing_target->0,
                    shape,
                    progress,
                    extent: presenter.swapchain.extent,
                }),
                _ => passes@.last() == (DrawPass::OutputScene {
                    extent: presenter.swapchain.extent,
                }),
            }
        },
{
    if cycle.scene_path {
        let scene = presenter.blur_resources->0;
        let levels = scene.mip_views@.len();
        let drawn = WsiPresenter::downsample_passes(scene.extent, levels);
        let captured = presenter.capture_passes(cycle);
        let composed: int = captured.len() as int + if cycle.source is Some {
            1int
        } else {
            0int
        };
        assert(scene.mip_views.len() == levels);
        if cycle.rebuild_pyramid {
            assert forall|level: int| 1 <= level < levels implies (
            #[trigger] passes@[composed + level - 1] matches DrawPass::Downsample {
                level: at,
                ..
            } && at == level) by {
                assert(passes@[composed + level - 1] == drawn[level - 1]);
            }
        }
    }
}

/// Mip levels are half as large as the one above, down to one pixel: what is drawn for
/// a level has that size.
pub proof fn levels_have_their_size(
    presenter: WsiPresenter,
    cycle: PresentCycle,
    passes: Vec<DrawPass>,
    index: int,
)
    requires
        call_ensures(WsiPresenter::draw_passes, (&presenter, &cycle), passes),
        cycle.scene_path,
        presenter.blur_resources is Some,
        1 <= presenter.blur_resources->0.mip_views@.len() <= 31,
        0 <= index < passes@.len(),
        passes@[index] is Downsample,
    ensures
        ({
            let scene = presenter.blur_resources->0.extent;
            let drawn = passes@[index]->Downsample_extent;
            let level = passes@[index]->level;
            let factor = vstd::arithmetic::power2::pow2(level as nat) as int;
            &&& 1 <= level < presenter.blur_resources->0.mip_views@.len()
            &&& drawn.width >= 1 && drawn.height >= 1
            &&& drawn.width * factor <= scene.width || drawn.width == 1
            &&& scene.width < (drawn.width + 1) * factor
            &&& drawn.height * factor <= scene.height || drawn.height == 1
            &&& scene.height < (drawn.height + 1) * factor
        }),
{
    let scene = presenter.blur_resources->0;
    let levels = scene.mip_views@.len();
    let drawn = WsiPresenter::downsample_passes(scene.extent, levels);
    let captured = presenter.capture_passes(cycle);
    let composed: int = captured.len() as int + if cycle.source is Some {
        1int
    } else {
        0int
    };
    assert(cycle.rebuild_pyramid);
    assert(passes@[index] == drawn[index - composed]);
    let level = (index - composed + 1) as nat;
    let factor = vstd::arithmetic::power2::pow2(level) as int;
    vstd::arithmetic::power2::lemma_pow2_pos(level);
    level_size_bound(scene.extent.width, level);
    level_size_bound(scene.extent.height, level);
}

proof fn level_size_bound(dimension: u32, level: nat)
    ensures
        ({
            let factor = vstd::arithmetic::power2::pow2(level) as int;
            let size = mip_dimension(dimension, level);
            &&& 1 <= size <= u32::MAX
            &&& size * factor <= dimension || size == 1
            &&& dimension < (size + 1) * factor
        }),
{
    let factor = vstd::arithmetic::power2::pow2(level) as int;
    vstd::arithmetic::power2::lemma_pow2_pos(level);
    vstd::arithmetic::div_mod::lemma_fundamental_div_mod(dimension as int, factor);
    vstd::arithmetic::div_mod::lemma_div_is_ordered_by_denominator(dimension as int, 1, factor);
    let quotient = dimension as int / factor;
    let size = mip_dimension(dimension, level);
    assert(quotient * factor <= dimension < (quotient + 1) * factor) by (nonlinear_arith)
        requires
            dimension == factor * quotient + dimension as int % factor,
            0 <= dimension as int % factor < factor,
    ;
    assert((quotient + 1) * factor <= (size + 1) * factor) by (nonlinear_arith)
        requires
            quotient <= size,
            factor > 0,
    ;
}

/// A blur that can be seen is never drawn from stale mip levels. Of a frame that goes
/// through the scene with such a blur, either the levels matched what the scene shows
/// and no new frame was drawn into it, or all of them are drawn after that frame and
/// before the surface. So they match once the frame is submitted. The first frame of
/// a scene has its levels drawn too, and a frame that leaves them as they were marks
/// them as out of date.
pub proof fn visible_blur_is_never_stale(
    at_image: &mut WsiPresenter,
    cycle: PresentCycle,
    index: u32,
    suboptimal: bool,
    recording: (PresentCycle, PresentAction),
    passes: Vec<DrawPass>,
    at_submit: &mut WsiPresenter,
    queueing: (PresentCycle, PresentAction),
)
    requires
        call_ensures(
            WsiPresenter::present,
            (
                at_image,
                cycle,
                PresentEvent::Acquired(AcquireOutcome::Image { index, suboptimal }),
            ),
            recording,
        ),
        call_ensures(
            WsiPresenter::draw_passes,
            (&*final(at_image), &recording.0),
            passes,
        ),
        *old(at_submit) == *final(at_image),
        call_ensures(
            WsiPresenter::present,
            (at_submit, recording.0, PresentEvent::Submitted),
            queueing,
        ),
        cycle.scene_path,
        old(at_image).blur_resources is Some,
        old(at_image).blur_resources->0.mip_views@.len() >= 1,
    ensures
        ({
            let before = old(at_image).blur_resources->0;
            let after = final(at_submit).blur_resources->0;
            let first = (if cycle.start_transition {
                1int
            } else {
                0int
            }) + if cycle.source is Some {
                1int
            } else {
                0int
            };
            let matched = before.pyramid_valid && !before.pyramid_dirty && cycle.source is None;
            &&& final(at_submit).blur_resources is Some
            &&& cycle.source is Some ==> passes@[first - 1] is ComposeScene
            &&& can_be_seen(cycle.blur.radius) ==> {
                &&& after.pyramid_valid
                &&& !after.pyramid_dirty
                &&& matched || draws_all_levels(passes@, before, first)
            }
            &&& cycle.source is Some && !before.base_valid ==> after.pyramid_valid
                && !after.pyramid_dirty && draws_all_levels(passes@, before, first)
            &&& matched ==> draws_no_level(passes@)
            &&& cycle.source is Some && draws_no_level(passes@) && before.mip_views@.len() > 1
                ==> !after.pyramid_valid && after.pyramid_dirty
            &&& cycle.source is None && draws_no_level(passes@) && before.mip_views@.len() > 1
                ==> after.pyramid_valid == before.pyramid_valid && after.pyramid_dirty
                == before.pyramid_dirty
            &&& after.base_valid == (before.base_valid || cycle.source is Some)
        }),
{
    passes_come_in_order(*final(at_image), recording.0, passes);
    let before = old(at_image).blur_resources->0;
    let first: int = (if cycle.start_transition {
        1int
    } else {
        0int
    }) + if cycle.source is Some {
        1int
    } else {
        0int
    };
    if recording.0.rebuild_pyramid && before.mip_views@.len() > 1 {
        assert(passes@[first + 1 - 1] is Downsample);
    }
}

/// A transition is shown in its own shape. As long as its time has not passed, a frame
/// that starts no other one is drawn through the scene, from the target with the
/// outgoing content, in the shape that was configured for it and at the given
/// progress; one that was prepared and not seen yet is drawn from its start.
pub proof fn transition_is_shown_in_its_shape(
    opened: &mut WsiPresenter,
    inputs: PresentInputs,
    opening: (PresentCycle, PresentAction),
    presenter: WsiPresenter,
    cycle: PresentCycle,
    passes: Vec<DrawPass>,
)
    requires
        call_ensures(WsiPresenter::begin_present, (opened, inputs), opening),
        same_samples(opening.0, cycle),
        shows_its_transition(presenter, cycle),
        presenter.prepared_transition == old(opened).prepared_transition,
        presenter.transition_resources is Some,
        presenter.blur_resources is Some,
        presenter.blur_resources->0.mip_views@.len() >= 1,
        old(opened).pause_blur_available,
        old(opened).transitions_available,
        !cycle.start_transition,
        call_ensures(WsiPresenter::draw_passes, (&presenter, &cycle), passes),
    ensures
        ({
            let front = presenter.transition_resources->0.front;
            let extent = presenter.swapchain.extent;
            &&& old(opened).prepared_transition matches Some(prepared) ==> passes@.last() == (
            DrawPass::OutputTransition {
                target: front,
                shape: prepared.shape,
                progress: Single { bits: 0 },
                extent,
            })
            &&& old(opened).prepared_transition is None ==> (old(
                opened,
            ).active_transition matches Some(active) ==> {
                let passed = inputs.now >= active.started_at + active.presentation.duration_ns;
                &&& active.presentation.duration_ns > 0 && !passed ==> passes@.last() == (
                DrawPass::OutputTransition {
                    target: front,
                    shape: active.presentation.shape,
                    progress: inputs.eased,
                    extent,
                })
                &&& passed ==> passes@.last() == (DrawPass::OutputScene { extent })
            })
        }),
{
    attempt_opens_with_the_running_transition(opened, inputs, opening);
    scene_is_kept_where_it_is_needed(opened, inputs, opening);
    passes_come_in_order(presenter, cycle, passes);
}

/// What a submitted frame leaves behind. The frame of the producer waits no more, its
/// slot owes for it, and its content counts as submitted; without one nothing of that
/// changes. A change of content that started goes on from the target that the outgoing
/// content was captured into, in the form that is configured.
pub proof fn submitted_frame_is_accounted_for(
    presenter: &mut WsiPresenter,
    cycle: PresentCycle,
    step: (PresentCycle, PresentAction),
)
    requires
        call_ensures(WsiPresenter::present, (presenter, cycle, PresentEvent::Submitted), step),
        cycle.frame_index < old(presenter).frames@.len(),
    ensures
        ({
            let before = *old(presenter);
            let after = *final(presenter);
            let slot = cycle.frame_index as int;
            &&& step.0.phase is Queue
            &&& after.frames@.len() == before.frames@.len()
            &&& forall|other: int|
                0 <= other < after.frames@.len() && other != slot ==> #[trigger] after.frames@[other]
                    == before.frames@[other]
            &&& after.frames@[slot].fence == before.frames@[slot].fence
            &&& after.frames@[slot].image_available == before.frames@[slot].image_available
            &&& cycle.source matches Some(frame) ==> {
                &&& after.pending_direct_frame is None
                &&& after.content_presentation.submitted == before.content_presentation.bound
                &&& after.frames@[slot].pending_release matches Some(release) && {
                    &&& release.release_syncobj_fd == frame.release_syncobj_fd
                    &&& release.buffer_generation == frame.buffer_generation
                    &&& release.seq == frame.seq
                }
                &&& step.0.release_pending
            }
            &&& cycle.source is None ==> {
                &&& after.pending_direct_frame == before.pending_direct_frame
                &&& after.content_presentation == before.content_presentation
                &&& after.frames@[slot] == before.frames@[slot]
                &&& step.0.release_pending == cycle.release_pending
            }
            &&& after.content_presentation.bound == before.content_presentation.bound
            &&& after.content_presentation.committed == before.content_presentation.committed
            &&& cycle.start_transition ==> after.prepared_transition
                == before.transition_presentation
            &&& !cycle.start_transition ==> after.prepared_transition == before.prepared_transition
                && after.transition_resources == before.transition_resources
            &&& cycle.start_transition && cycle.outgoing_target is Some
                && before.transition_resources is Some ==> after.transition_resources is Some
                && after.transition_resources->0.front == cycle.outgoing_target->0
                && after.transition_resources->0.targets == before.transition_resources->0.targets
            &&& after.frame_cursor == before.frame_cursor
            &&& after.active_transition == before.active_transition
            &&& after.blank_state == before.blank_state
            &&& after.recreate_extent == before.recreate_extent
            &&& after.swapchain == before.swapchain
            &&& !cycle.scene_path ==> after.blur_resources == before.blur_resources
        }),
{
}

/// What follows the reply of the compositor. The next frame uses the next slot, in
/// turn, so that one frame can be drawn while the one before it is in flight. An
/// accepted frame settles what is on screen: the submitted content, the transition
/// that starts with it at the time of the frame, the end of one whose time has passed,
/// and whether the surface is black. A swapchain that no longer fits is replaced by
/// one of the same size, and what was asked for otherwise is kept.
pub proof fn queued_frame_is_settled(
    presenter: &mut WsiPresenter,
    cycle: PresentCycle,
    outcome: QueueOutcome,
    step: (PresentCycle, PresentAction),
)
    requires
        call_ensures(
            WsiPresenter::present,
            (presenter, cycle, PresentEvent::Queued(outcome)),
            step,
        ),
        old(presenter).frame_cursor < old(presenter).frames@.len(),
    ensures
        ({
            let before = *old(presenter);
            let after = *final(presenter);
            let replaced = cycle.suboptimal || outcome == (QueueOutcome::Accepted {
                suboptimal: true,
            }) || outcome is OutOfDate;
            &&& step.0.phase is Finished
            &&& outcome is Failed <==> step.1 is Fail
            &&& outcome is Failed ==> step.1 == PresentAction::Fail(PresentFailure::QueueFailed)
            &&& outcome is Failed ==> after.content_presentation.submitted is None
                && after.prepared_transition is None && after.content_presentation.committed
                == before.content_presentation.committed && after.active_transition
                == before.active_transition && after.recreate_extent == before.recreate_extent
                && after.blank_state == before.blank_state
            &&& outcome !is Failed ==> {
                &&& after.frame_cursor < after.frames@.len()
                &&& after.frame_cursor == before.frame_cursor + 1 || (after.frame_cursor == 0
                    && before.frame_cursor + 1 == before.frames@.len())
                &&& replaced && !(outcome is OutOfDate) ==> after.recreate_extent == Some(
                    before.swapchain.extent,
                )
                &&& outcome is OutOfDate ==> after.recreate_extent == Some(before.swapchain.extent)
                &&& !replaced ==> after.recreate_extent == before.recreate_extent
            }
            &&& outcome is Accepted ==> {
                &&& after.content_presentation.submitted is None
                &&& before.content_presentation.submitted is Some
                    ==> after.content_presentation.committed
                    == before.content_presentation.submitted
                &&& before.content_presentation.submitted is None
                    ==> after.content_presentation.committed
                    == before.content_presentation.committed
                &&& after.prepared_transition is None
                &&& before.prepared_transition matches Some(prepared) ==> (
                after.active_transition matches Some(active) && {
                    &&& active.presentation == prepared
                    &&& active.started_at == cycle.now
                })
                &&& before.prepared_transition is None && cycle.transition.finished
                    ==> after.active_transition is None
                &&& before.prepared_transition is None && !cycle.transition.finished
                    ==> after.active_transition == before.active_transition
                &&& cycle.blank_pending ==> after.blank_state is Committed
                &&& !cycle.blank_pending && cycle.source is Some ==> after.blank_state is Inactive
                &&& !cycle.blank_pending && cycle.source is None ==> after.blank_state
                    == before.blank_state
            }
            &&& outcome is OutOfDate ==> {
                &&& after.content_presentation.committed == before.content_presentation.committed
                &&& cycle.scene_path ==> after.content_presentation.submitted
                    == before.content_presentation.submitted
                &&& !cycle.scene_path ==> after.content_presentation.submitted is None
                &&& after.prepared_transition == before.prepared_transition
                &&& after.active_transition == before.active_transition
                &&& after.blank_state == before.blank_state
            }
            &&& after.content_presentation.bound == before.content_presentation.bound
            &&& after.frames == before.frames
            &&& after.pending_direct_frame == before.pending_direct_frame
            &&& after.blur_resources == before.blur_resources
            &&& after.transition_resources == before.transition_resources
            &&& after.swapchain == before.swapchain
        }),
{
    let count = old(presenter).frames@.len() as int;
    let cursor = old(presenter).frame_cursor as int;
    assert(old(presenter).frames.len() == count);
    if cursor + 1 < count {
        vstd::arithmetic::div_mod::lemma_small_mod((cursor + 1) as nat, count as nat);
    } else {
        vstd::arithmetic::div_mod::lemma_mod_self_0(count);
    }
}

/// After a frame was handed over, another one is asked for while there is something
/// to show or to settle: a blur that moves, a transition on screen, frames to be
/// released, a black frame that is due, a swapchain to be replaced, a frame that came
/// in meanwhile, or a scene that is to be given up. When there is nothing of that, the
/// surface rests.
pub proof fn redraw_is_asked_for_while_needed(
    presenter: &mut WsiPresenter,
    cycle: PresentCycle,
    outcome: QueueOutcome,
    step: (PresentCycle, PresentAction),
    redraw: bool,
)
    requires
        call_ensures(
            WsiPresenter::present,
            (presenter, cycle, PresentEvent::Queued(outcome)),
            step,
        ),
        step.1 == PresentAction::Done(PresentResult::Presented { redraw }),
    ensures
        cycle.blur.animating ==> redraw,
        cycle.output_transition is Some ==> redraw,
        cycle.release_pending ==> redraw,
        final(presenter).blank_state is Pending ==> redraw,
        final(presenter).recreate_extent is Some ==> redraw,
        final(presenter).pending_direct_frame is Some ==> redraw,
        cycle.blur.finished && !final(presenter).pause_presentation.configured && final(presenter).blur_resources is Some ==> redraw,
        redraw ==> cycle.blur.animating || cycle.blur.finished || cycle.output_transition is Some
            || cycle.release_pending || final(presenter).blank_state is Pending || final(presenter).recreate_extent is Some || final(presenter).pending_direct_frame is Some,
        redraw && cycle.blur.finished && final(presenter).pause_presentation.configured
            ==> cycle.blur.animating || cycle.output_transition is Some || cycle.release_pending
            || final(presenter).blank_state is Pending || final(presenter).recreate_extent is Some
            || final(presenter).pending_direct_frame is Some,
{
}

/// A scene that cannot be created is not tried again, and the attempt fails.
pub proof fn failed_scene_is_not_tried_again(
    presenter: &mut WsiPresenter,
    cycle: PresentCycle,
    step: (PresentCycle, PresentAction),
)
    requires
        call_ensures(WsiPresenter::present, (presenter, cycle, PresentEvent::SceneFailed), step),
    ensures
        step.1 == PresentAction::Fail(PresentFailure::SceneUnavailable),
        step.0.phase is Finished,
        !final(presenter).pause_blur_available,
        final(presenter).pending_direct_frame == old(presenter).pending_direct_frame,
        final(presenter).content_presentation == old(presenter).content_presentation,
{
}

/// An attempt is opened with what the blur is at the time that it is given: the sample is
/// taken once, and nothing but the movement of the blur changes by opening.
pub proof fn attempt_opens_with_the_present_blur(
    presenter: &mut WsiPresenter,
    inputs: PresentInputs,
    step: (PresentCycle, PresentAction),
    blur: &mut BlurTransition,
    sample: BlurSample,
)
    requires
        call_ensures(WsiPresenter::begin_present, (presenter, inputs), step),
        *old(blur) == old(presenter).blur_transition,
        call_ensures(BlurTransition::sample, (blur, inputs.now, inputs.interpolated), sample),
    ensures
        step.0.blur == sample,
        *final(presenter) == (WsiPresenter { blur_transition: *final(blur), ..*old(presenter) }),
        !step.0.rebuild_pyramid,
        !step.0.suboptimal,
{
    resize_leads_to_a_frame(
        WsiPresenter { blur_transition: *final(blur), ..*old(presenter) },
        old(presenter).opening(inputs),
    );
}

/// The smaller levels are drawn only where they are needed: with the first frame of a
/// scene, and for a blur that can be seen where they do not match. The image that was
/// acquired is the one that is drawn to, and acquiring it changes nothing else.
pub proof fn levels_are_drawn_only_when_needed(
    at_image: &mut WsiPresenter,
    cycle: PresentCycle,
    index: u32,
    suboptimal: bool,
    recording: (PresentCycle, PresentAction),
)
    requires
        call_ensures(
            WsiPresenter::present,
            (
                at_image,
                cycle,
                PresentEvent::Acquired(AcquireOutcome::Image { index, suboptimal }),
            ),
            recording,
        ),
    ensures
        recording.0.phase is Record,
        recording.1 is RecordAndSubmit,
        recording.0.image_index == index,
        recording.0.suboptimal == suboptimal,
        recording.0.source == cycle.source,
        recording.0.blur == cycle.blur,
        recording.0.output_transition == cycle.output_transition,
        recording.0.start_transition == cycle.start_transition,
        recording.0.frame_index == cycle.frame_index,
        *final(at_image) == *old(at_image),
        recording.0.rebuild_pyramid ==> {
            &&& cycle.scene_path
            &&& old(at_image).blur_resources matches Some(scene)
            &&& {
                ||| cycle.source is Some && !scene.base_valid
                ||| can_be_seen(cycle.blur.radius) && (cycle.source is Some || scene.pyramid_dirty
                    || !scene.pyramid_valid)
            }
        },
{
}

} // verus!
