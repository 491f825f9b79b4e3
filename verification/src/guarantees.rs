//! What holds of presenting as a whole, whatever the graphics stack replies.

use vstd::prelude::*;

#[allow(unused_imports)]
use crate::direct::{
    owed_for, paid, DirectFrame, DirectRelease, FrameContext, FrameStep,
};
#[allow(unused_imports)]
use crate::effects::ActiveTransition;
#[allow(unused_imports)]
use crate::presenter::WsiPresenter;
#[allow(unused_imports)]
use crate::resources::{frame_plan, frames_plan, release_fd};
#[allow(unused_imports)]
use crate::render::{
    answers, DrawPass, PresentAction, PresentCycle, PresentEvent, PresentInputs, PresentPhase,
    PresentResult, QueueOutcome, Step,
};
#[allow(unused_imports)]
use crate::single::Single;

verus! {

proof fn owing_slot_counts_once(frames: Seq<FrameContext>, slot: int, release: DirectRelease)
    requires
        0 <= slot < frames.len(),
        frames[slot].pending_release is None,
    ensures
        owed_for(
            frames.update(slot, FrameContext { pending_release: Some(release), ..frames[slot] }),
        ) == owed_for(frames).insert(release),
    decreases frames.len(),
{
    let owing = FrameContext { pending_release: Some(release), ..frames[slot] };
    let updated = frames.update(slot, owing);
    if slot == frames.len() - 1 {
        assert(updated.drop_last() =~= frames.drop_last());
    } else {
        owing_slot_counts_once(frames.drop_last(), slot, release);
        assert(updated.drop_last() =~= frames.drop_last().update(slot, owing));
        match frames.last().pending_release {
            Some(last) => {
                assert(owed_for(updated) =~= owed_for(frames).insert(release));
            },
            None => {},
        }
    }
}

proof fn stages_only_decide(presenter: WsiPresenter, cycle: PresentCycle)
    ensures
        presenter.at_resize(cycle).0 == presenter,
        presenter.at_source(cycle).0 == presenter,
        presenter.at_scene(cycle).0 == presenter,
        presenter.at_transition(cycle).0 == presenter,
        presenter.at_output(cycle).0 == presenter,
{
}

/// How far an attempt to present has come.
pub open spec fn progress(phase: PresentPhase) -> nat {
    match phase {
        PresentPhase::SceneUnneededIdle => 0,
        PresentPhase::SceneUnneeded => 1,
        PresentPhase::ResizeIdle => 2,
        PresentPhase::Resize => 3,
        PresentPhase::SceneOutgrownIdle => 4,
        PresentPhase::SceneOutgrown => 5,
        PresentPhase::SceneCreation => 6,
        PresentPhase::TargetCreation => 7,
        PresentPhase::Fence => 8,
        PresentPhase::Acquire => 9,
        PresentPhase::Record => 10,
        PresentPhase::Queue => 11,
        PresentPhase::Finished => 12,
    }
}

/// The attempt is at least at `phase`, and over exactly when it reports so.
spec fn has_come_to(step: Step, phase: PresentPhase) -> bool {
    &&& progress(step.1.phase) >= progress(phase)
    &&& step.1.phase is Finished <==> (step.2 is Done || step.2 is Fail)
}

proof fn output_comes_to_the_fence(presenter: WsiPresenter, cycle: PresentCycle)
    ensures
        has_come_to(presenter.at_output(cycle), PresentPhase::Fence),
{
}

proof fn transition_comes_to_its_targets(presenter: WsiPresenter, cycle: PresentCycle)
    ensures
        has_come_to(presenter.at_transition(cycle), PresentPhase::TargetCreation),
{
    output_comes_to_the_fence(
        presenter,
        PresentCycle { start_transition: presenter.starts_transition(cycle), ..cycle },
    );
}

proof fn scene_comes_to_its_creation(presenter: WsiPresenter, cycle: PresentCycle)
    ensures
        has_come_to(presenter.at_scene(cycle), PresentPhase::SceneCreation),
{
    transition_comes_to_its_targets(presenter, cycle);
}

proof fn source_comes_to_the_scene(presenter: WsiPresenter, cycle: PresentCycle)
    ensures
        has_come_to(presenter.at_source(cycle), PresentPhase::SceneOutgrownIdle),
{
    scene_comes_to_its_creation(presenter, presenter.sourced(cycle));
}

proof fn resize_comes_to_the_swapchain(presenter: WsiPresenter, cycle: PresentCycle)
    ensures
        has_come_to(presenter.at_resize(cycle), PresentPhase::ResizeIdle),
{
    source_comes_to_the_scene(presenter, cycle);
}

/// An attempt to present comes to an end: every reply moves it on, and it is over
/// exactly when a result or a failure is reported.
pub proof fn every_reply_moves_the_attempt_on(
    presenter: WsiPresenter,
    cycle: PresentCycle,
    event: PresentEvent,
)
    requires
        answers(cycle.phase, event),
    ensures
        event is Submitted ==> progress(WsiPresenter::submitted_cycle(cycle).phase) > progress(
            cycle.phase,
        ),
        event !is Submitted ==> {
            let step = presenter.replied(cycle, event);
            &&& progress(step.1.phase) > progress(cycle.phase)
            &&& step.1.phase is Finished <==> (step.2 is Done || step.2 is Fail)
        },
{
    match event {
        PresentEvent::SceneDestroyed => {
            resize_comes_to_the_swapchain(presenter, cycle);
            scene_comes_to_its_creation(presenter, cycle);
        },
        PresentEvent::SwapchainRecreated => source_comes_to_the_scene(
            presenter,
            PresentCycle { swapchain_recreated: true, ..cycle },
        ),
        PresentEvent::SceneCreated(resources) => transition_comes_to_its_targets(
            WsiPresenter { blur_resources: Some(resources), ..presenter },
            cycle,
        ),
        PresentEvent::TargetsCreated(resources) => output_comes_to_the_fence(
            WsiPresenter { transition_resources: Some(resources), ..presenter },
            cycle,
        ),
        PresentEvent::TargetsFailed => output_comes_to_the_fence(
            WsiPresenter { transitions_available: false, ..presenter },
            cycle,
        ),
        _ => {},
    }
}

/// A frame that is submitted stays owed: what was owed for it while it waited is
/// owed for the slot of its submission. The slot must not owe for another frame.
pub proof fn submission_keeps_what_is_owed(
    presenter: WsiPresenter,
    cycle: PresentCycle,
    frames: Vec<FrameContext>,
)
    requires
        presenter.wf(),
        presenter.cycle_ok(cycle),
        cycle.phase is Record,
        frames@ == presenter.submitted_frames(cycle),
        presenter.frames@[cycle.frame_index as int].pending_release is None,
    ensures
        presenter.after_submission(cycle, frames).owed() == presenter.owed(),
{
    if let Some(frame) = cycle.source {
        owing_slot_counts_once(presenter.frames@, cycle.frame_index as int, frame.owed());
    }
}

/// No other step of presenting changes what is owed.
pub proof fn presenting_keeps_what_is_owed(
    presenter: WsiPresenter,
    cycle: PresentCycle,
    event: PresentEvent,
)
    requires
        answers(cycle.phase, event),
        event !is Submitted,
    ensures
        presenter.replied(cycle, event).0.owed() == presenter.owed(),
{
}

/// A slot that is drained is paid for once: exactly the release that is handed out
/// is owed no more.
pub proof fn drained_release_is_paid_once(
    presenter: WsiPresenter,
    drained: WsiPresenter,
    slot: int,
)
    requires
        0 <= slot < presenter.frames@.len(),
        presenter.frames@[slot].pending_release is Some,
        drained.frames@ == paid(presenter.frames@, slot),
        drained.pending_direct_frame == presenter.pending_direct_frame,
    ensures
        presenter.owed() == drained.owed().insert(presenter.frames@[slot].pending_release->0),
{
    let release = presenter.frames@[slot].pending_release->0;
    owing_slot_counts_once(drained.frames@, slot, release);
    assert(drained.frames@.update(
        slot,
        FrameContext { pending_release: Some(release), ..drained.frames@[slot] },
    ) =~= presenter.frames@);
    if let Some(frame) = presenter.pending_direct_frame {
        assert(presenter.owed() =~= drained.owed().insert(release));
    }
}

/// A frame that replaces one that was never drawn neither loses nor doubles what is
/// owed: the release of the old one is handed out, and the new one is owed once it
/// is stored.
pub proof fn replaced_frame_is_paid_once(presenter: WsiPresenter, frame: DirectFrame)
    ensures
        match presenter.superseded_by(frame).1 {
            FrameStep::Supersede { release, frame: stored } => {
                &&& stored == frame
                &&& presenter.owed() == presenter.superseded_by(frame).0.owed().insert(release)
            },
            FrameStep::Stored => presenter.superseded_by(frame).0.owed() == presenter.owed().insert(
                frame.owed(),
            ),
            _ => false,
        },
{
}

/// A frame that is given up without being drawn is paid for once.
pub proof fn discarded_frame_is_paid_once(presenter: WsiPresenter)
    requires
        presenter.pending_direct_frame is Some,
    ensures
        presenter.owed() == (WsiPresenter {
            pending_direct_frame: None,
            ..presenter
        }).owed().insert(presenter.pending_direct_frame->0.owed()),
{
}

proof fn slots_close_what_they_owe(frames: Seq<FrameContext>, release: DirectRelease)
    requires
        owed_for(frames).count(release) > 0,
    ensures
        frames_plan(frames).contains(release_fd(release)),
    decreases frames.len(),
{
    broadcast use vstd::seq_lib::lemma_seq_concat_contains_all_elements;

    if frames.len() > 0 {
        let last = frames.last();
        if last.pending_release == Some(release) {
            assert(frame_plan(last)[0] == release_fd(release));
            assert(frame_plan(last).contains(release_fd(release)));
        } else {
            slots_close_what_they_owe(frames.drop_last(), release);
        }
    }
}

/// A presenter that goes leaves no frame unsettled: the file of every release that
/// is still owed is closed.
pub proof fn teardown_closes_what_is_owed(presenter: WsiPresenter, release: DirectRelease)
    requires
        presenter.owed().count(release) > 0,
    ensures
        presenter.plan().contains(release_fd(release)),
{
    broadcast use vstd::seq_lib::lemma_seq_concat_contains_all_elements;

    let closed = release_fd(release);
    if presenter.pending_direct_frame is Some && presenter.pending_direct_frame->0.owed()
        == release {
        assert(seq![closed][0] == closed);
        assert(seq![closed].contains(closed));
    } else {
        slots_close_what_they_owe(presenter.frames@, release);
    }
}

/// Opening an attempt moves the blur on and changes nothing else.
pub proof fn opening_only_moves_the_blur(presenter: WsiPresenter, inputs: PresentInputs)
    ensures
        presenter.opened(inputs).0 == (WsiPresenter {
            blur_transition: presenter.opened(inputs).0.blur_transition,
            ..presenter
        }),
{
}

/// The reply that ends an attempt because something is still busy leaves everything
/// as it was, but that a swapchain found out of date is to be replaced.
pub proof fn pending_attempt_changes_nothing(
    presenter: WsiPresenter,
    cycle: PresentCycle,
    event: PresentEvent,
)
    requires
        answers(cycle.phase, event),
        event !is Submitted,
        presenter.replied(cycle, event).2 == PresentAction::Done(PresentResult::Pending),
    ensures
        presenter.replied(cycle, event).0 == (WsiPresenter {
            recreate_extent: presenter.replied(cycle, event).0.recreate_extent,
            ..presenter
        }),
{
}

/// Until a frame is submitted an attempt keeps what waits to be shown: no reply
/// before takes the frame of the producer, moves on to another frame slot, changes
/// what a slot owes, or changes which content is submitted or committed and which
/// transition starts with it. So an attempt that ends early can be made again.
pub proof fn waiting_content_is_kept_until_submission(
    presenter: WsiPresenter,
    cycle: PresentCycle,
    event: PresentEvent,
)
    requires
        answers(cycle.phase, event),
        event !is Submitted,
        event !is Queued,
    ensures
        presenter.replied(cycle, event).0.pending_direct_frame == presenter.pending_direct_frame,
        presenter.replied(cycle, event).0.content_presentation == presenter.content_presentation,
        presenter.replied(cycle, event).0.prepared_transition == presenter.prepared_transition,
        presenter.replied(cycle, event).0.frames == presenter.frames,
        presenter.replied(cycle, event).0.frame_cursor == presenter.frame_cursor,
{
    match event {
        PresentEvent::SceneDestroyed => stages_only_decide(presenter, cycle),
        PresentEvent::SwapchainRecreated => stages_only_decide(
            presenter,
            PresentCycle { swapchain_recreated: true, ..cycle },
        ),
        PresentEvent::SceneCreated(resources) => stages_only_decide(
            WsiPresenter { blur_resources: Some(resources), ..presenter },
            cycle,
        ),
        PresentEvent::TargetsCreated(resources) => stages_only_decide(
            WsiPresenter { transition_resources: Some(resources), ..presenter },
            cycle,
        ),
        PresentEvent::TargetsFailed => stages_only_decide(
            WsiPresenter { transitions_available: false, ..presenter },
            cycle,
        ),
        _ => {},
    }
}

/// Content counts as shown only when the compositor accepted a frame: no other
/// reply changes which content is committed, commits a black frame or starts a
/// transition.
pub proof fn only_accepted_frames_count(
    presenter: WsiPresenter,
    cycle: PresentCycle,
    event: PresentEvent,
    frames: Vec<FrameContext>,
)
    requires
        answers(cycle.phase, event),
        !(event matches PresentEvent::Queued(QueueOutcome::Accepted { .. })),
    ensures
        ({
            let next = if event is Submitted {
                presenter.after_submission(cycle, frames)
            } else {
                presenter.replied(cycle, event).0
            };
            &&& next.content_presentation.committed == presenter.content_presentation.committed
            &&& next.blank_state == presenter.blank_state
            &&& next.active_transition is None || next.active_transition
                == presenter.active_transition
        }),
{
    match event {
        PresentEvent::SceneDestroyed => stages_only_decide(presenter, cycle),
        PresentEvent::SwapchainRecreated => stages_only_decide(
            presenter,
            PresentCycle { swapchain_recreated: true, ..cycle },
        ),
        PresentEvent::SceneCreated(resources) => stages_only_decide(
            WsiPresenter { blur_resources: Some(resources), ..presenter },
            cycle,
        ),
        PresentEvent::TargetsCreated(resources) => stages_only_decide(
            WsiPresenter { transition_resources: Some(resources), ..presenter },
            cycle,
        ),
        PresentEvent::TargetsFailed => stages_only_decide(
            WsiPresenter { transitions_available: false, ..presenter },
            cycle,
        ),
        PresentEvent::FramesIdle(_) => {},
        PresentEvent::Queued(_) => {},
        _ => {},
    }
}

/// A transition starts with the first accepted frame that shows it, at the time of
/// that frame, and a black frame is committed by exactly the accepted frame that
/// was drawn black.
pub proof fn accepted_frame_settles_what_was_shown(
    presenter: WsiPresenter,
    cycle: PresentCycle,
    suboptimal: bool,
)
    ensures
        ({
            let next = presenter.queued(cycle, QueueOutcome::Accepted { suboptimal }).0;
            &&& presenter.prepared_transition is Some ==> next.active_transition == Some(
                ActiveTransition {
                    presentation: presenter.prepared_transition->0,
                    started_at: cycle.now,
                },
            )
            &&& presenter.prepared_transition is None ==> (next.active_transition is None
                || next.active_transition == presenter.active_transition)
            &&& next.prepared_transition is None
            &&& presenter.blank_state !is Committed ==> (next.blank_state is Committed
                <==> cycle.blank_pending)
            &&& presenter.content_presentation.submitted is Some
                ==> next.content_presentation.committed
                == presenter.content_presentation.submitted
        }),
{
}

/// While a black frame is due, no frame of the producer is drawn: it keeps waiting.
pub proof fn black_frame_comes_first(presenter: WsiPresenter, cycle: PresentCycle)
    requires
        presenter.blank_state is Pending,
    ensures
        presenter.sourced(cycle).source is None,
        presenter.sourced(cycle).blank_pending,
{
}

/// The black frame after a lost session is a plain clear: whatever was configured or
/// shown before, nothing of it is drawn, and an attempt to present finds the clear
/// to draw.
pub proof fn black_fallback_is_a_plain_clear(presenter: WsiPresenter, inputs: PresentInputs)
    requires
        presenter.blank_state !is Committed,
    ensures
        ({
            let fallen_back = WsiPresenter {
                blank_state: presenter.blank_state.requested(),
                ..presenter.after_session_reset()
            };
            let cycle = fallen_back.sourced(fallen_back.opening(inputs));
            &&& cycle.blank_pending
            &&& cycle.source is None
            &&& !cycle.scene_path
            &&& !fallen_back.is_up_to_date(cycle)
            &&& fallen_back.passes(cycle) == seq![DrawPass::Clear]
        }),
{
}

/// A frame that was refused with the swapchain out of date is drawn again: the
/// swapchain is to be replaced, another attempt is asked for, and where the frame
/// went through the scene, its content and its transition stay submitted.
pub proof fn refused_frame_is_drawn_again(presenter: WsiPresenter, cycle: PresentCycle)
    ensures
        ({
            let step = presenter.queued(cycle, QueueOutcome::OutOfDate);
            &&& step.0.recreate_extent == Some(presenter.swapchain.extent)
            &&& step.2 == PresentAction::Done(PresentResult::Presented { redraw: true })
            &&& cycle.scene_path ==> step.0.content_presentation == presenter.content_presentation
            &&& step.0.prepared_transition == presenter.prepared_transition
        }),
{
}

/// After a frame of the producer was submitted, the attempt ends with a request for
/// another one, unless it fails: what is owed for the frame has to be drained.
pub proof fn submitted_frame_is_followed_up(
    presenter: WsiPresenter,
    cycle: PresentCycle,
    outcome: QueueOutcome,
)
    requires
        cycle.source is Some,
        outcome !is Failed,
    ensures
        presenter.queued(WsiPresenter::submitted_cycle(cycle), outcome).2 == PresentAction::Done(
            PresentResult::Presented { redraw: true },
        ),
{
}

/// A transition starts from what was captured: the surface shows all of the target
/// that holds the outgoing content, and later frames go on with that target.
pub proof fn transition_starts_from_the_captured_content(
    presenter: WsiPresenter,
    cycle: PresentCycle,
    frames: Vec<FrameContext>,
)
    requires
        presenter.wf(),
        cycle.scene_path,
        presenter.starts_transition(cycle),
        cycle.start_transition,
        presenter.transition_resources is Some,
    ensures
        ({
            let composed = presenter.composed(cycle);
            let passes = presenter.passes(composed);
            let after = presenter.after_submission(composed, frames);
            &&& presenter.transition_presentation is Some
            &&& passes.last() == (DrawPass::OutputTransition {
                target: composed.outgoing_target->0,
                shape: presenter.transition_presentation->0.shape,
                progress: Single::zero(),
                extent: presenter.swapchain.extent,
            })
            &&& after.transition_resources->0.front == composed.outgoing_target->0
            &&& after.prepared_transition == presenter.transition_presentation
        }),
{
    let composed = presenter.composed(cycle);
    let output = seq![
        DrawPass::OutputTransition {
            target: composed.outgoing_target->0,
            shape: presenter.transition_presentation->0.shape,
            progress: Single::zero(),
            extent: presenter.swapchain.extent,
        },
    ];
    assert(presenter.passes(composed).last() == output.last());
}

/// A transition that is over is drawn once more without it: as long as it is
/// recorded, an attempt to present finds something to draw.
pub proof fn finished_transition_is_drawn_over(presenter: WsiPresenter, inputs: PresentInputs)
    requires
        presenter.active_transition is Some,
        presenter.active_transition->0.progress(inputs.now) is None,
        presenter.transitions_supported(),
        presenter.scene_valid(),
    ensures
        presenter.opening(inputs).scene_path,
        presenter.opening(inputs).transition.finished,
        !presenter.is_up_to_date(presenter.sourced(presenter.opening(inputs))),
{
}

/// Where a change of content starts, what is on screen is captured before the new
/// frame overwrites the scene, into the target that is not on screen. Of a running
/// transition that is its mix at the present progress.
pub proof fn outgoing_content_is_captured_first(presenter: WsiPresenter, cycle: PresentCycle)
    requires
        presenter.wf(),
        cycle.scene_path,
        cycle.start_transition,
        presenter.transition_resources is Some,
    ensures
        ({
            let composed = presenter.composed(cycle);
            let passes = presenter.passes(composed);
            let target = composed.outgoing_target->0;
            &&& composed.outgoing_target is Some
            &&& target != presenter.transition_resources->0.front
            &&& passes[0] matches DrawPass::CaptureMix { target: drawn, .. } ==> drawn == target
            &&& passes[0] matches DrawPass::CaptureScene { target: drawn, .. } ==> drawn == target
            &&& passes[0] is CaptureMix || passes[0] is CaptureScene
            &&& cycle.retained_transition matches Some((shape, progress)) ==> passes[0] == (
            DrawPass::CaptureMix {
                target,
                front: presenter.transition_resources->0.front,
                shape,
                progress,
                blurred: presenter.blur_resources->0.pyramid_valid,
                extent: presenter.blur_resources->0.extent,
            })
            &&& forall|index: int| 0 < index < passes.len() ==> !(#[trigger] passes[index]
                is CaptureMix || passes[index] is CaptureScene)
        }),
{
    let composed = presenter.composed(cycle);
    let passes = presenter.passes(composed);
    let capture = presenter.capture_passes(composed);
    assert(capture.len() == 1);
    assert(passes[0] == capture[0]);
    let front = presenter.transition_resources->0.front as int;
    assert(presenter.transition_resources->0.targets.len()
        == presenter.transition_resources->0.targets@.len());
    let count = presenter.transition_resources->0.targets@.len() as int;
    if front + 1 == count {
        assert((front + 1) % count == 0) by (nonlinear_arith)
            requires
                front + 1 == count,
                count >= 2,
        ;
    } else {
        vstd::arithmetic::div_mod::lemma_small_mod((front + 1) as nat, count as nat);
    }
}

} // verus!
