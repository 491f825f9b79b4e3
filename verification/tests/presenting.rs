use waywallen_layer_shell::blank::BlankState;
use waywallen_layer_shell::construction::{
    BuildReply, BuildRequest, DescriptorWrite, SceneBuild, SceneStage, Shaders, TargetStage,
};
use waywallen_layer_shell::direct::{
    discard_direct_frame, resolve_direct_release, BindingError, DirectRelease, DrainAction,
    DrainEvent, FrameError, FrameStep, IdleStep, IncomingFrame, ReleaseError, ReleaseStep,
    RetireAction, RetireEvent, RetireOutcome, RetirePhase, RESOURCE_RETIRE_TIMEOUT_NS,
};
use waywallen_layer_shell::effects::{
    PausePresentation, TransitionPresentation, TransitionShape, MAX_BLUR_MIP_LEVELS,
};
use waywallen_layer_shell::geometry::Extent2D;
use waywallen_layer_shell::presenter::{WsiPresenter, FRAMES_IN_FLIGHT};
use waywallen_layer_shell::render::{
    AcquireOutcome, DrawPass, PresentAction, PresentCycle, PresentEvent, PresentFailure,
    PresentInputs, PresentPhase, PresentResult, QueueOutcome, SubmitWait,
    SWAPCHAIN_ACQUIRE_TIMEOUT_NS,
};
use waywallen_layer_shell::resources::{HandleKind, Teardown, TRANSITION_TARGET_COUNT};
use waywallen_layer_shell::setup::{
    SetupReply, SetupRequest, BINDINGS_PER_SET, BLUR_PUSH_CONSTANT_OFFSET,
    BLUR_PUSH_CONSTANT_SIZE, COMPOSITION_PUSH_CONSTANT_SIZE, MAX_DESCRIPTOR_SETS,
    TOTAL_PUSH_CONSTANT_SIZE, TRANSITION_PUSH_CONSTANT_OFFSET, TRANSITION_PUSH_CONSTANT_SIZE,
};
use waywallen_layer_shell::single::Single;
use waywallen_layer_shell::swapchain::{SurfaceCapabilities, SurfaceFormat};

const SIZE: Extent2D = Extent2D {
    width: 8,
    height: 4,
};

fn single(value: f32) -> Single {
    Single {
        bits: value.to_bits(),
    }
}

fn handle(kind: HandleKind, handle: u64) -> Teardown {
    Teardown { kind, handle }
}

fn set_up() -> WsiPresenter {
    let mut presenter = WsiPresenter::new(5);
    let (mut cycle, mut request) = presenter.begin_setup(SIZE);
    let mut next = 100;
    loop {
        let reply = match request {
            SetupRequest::AllocateSets { count, .. } => {
                SetupReply::Sets((0..count as u64).map(|index| 900 + index).collect())
            }
            SetupRequest::QueryPushConstantLimit => SetupReply::Limit(128),
            SetupRequest::RecreateSwapchain { extent } => {
                assert_eq!(extent, SIZE);
                break;
            }
            _ => {
                next += 1;
                SetupReply::Created(next)
            }
        };
        let step = presenter.initialize(cycle, reply);
        cycle = step.0;
        request = step.1;
    }
    recreate(&mut presenter, SIZE, 10);
    presenter
}

fn recreate(presenter: &mut WsiPresenter, extent: Extent2D, base: u64) -> Vec<Teardown> {
    let capabilities = SurfaceCapabilities {
        min_image_count: 2,
        max_image_count: 0,
        current_extent: extent,
        min_image_extent: extent,
        max_image_extent: extent,
        current_transform: 1,
        supported_composite_alpha: 1,
    };
    let formats = [SurfaceFormat {
        format: 44,
        color_space: 0,
    }];
    let mut build = presenter
        .recreate_swapchain(extent, &capabilities, &formats, 0, 0)
        .unwrap();
    build.advance(base);
    build.record_images(vec![base + 1, base + 2]);
    let mut next = base + 2;
    while !matches!(
        build.request(),
        waywallen_layer_shell::swapchain::SwapchainRequest::Complete
    ) {
        next += 1;
        build.advance(next);
    }
    presenter.commit_swapchain(build, true)
}

fn incoming(seq: u64) -> IncomingFrame {
    IncomingFrame {
        buffer_generation: 1,
        buffer_index: 0,
        seq,
        acquire_semaphore: 700 + seq,
        release_syncobj_fd: 40 + seq as i32,
        image: 61,
        extent: SIZE,
        format: 44,
        layout: 3,
        external_queue_family: 9,
    }
}

fn release(seq: u64) -> DirectRelease {
    DirectRelease {
        release_syncobj_fd: 40 + seq as i32,
        buffer_generation: 1,
        seq,
    }
}

fn bind(presenter: &mut WsiPresenter, token: u64) {
    presenter
        .install_direct_binding(
            1,
            token,
            presenter.presentation_config_generation,
            SIZE,
            &[61, 62],
        )
        .unwrap();
}

fn offer(presenter: &mut WsiPresenter, seq: u64) {
    let frame = incoming(seq);
    match presenter.replace_pending_direct_frame(&frame) {
        FrameStep::CreateView { image, format } => {
            assert_eq!((image, format), (61, 44));
            assert_eq!(presenter.attach_direct_view(&frame, 800), FrameStep::Stored);
        }
        FrameStep::Stored => {}
        other => panic!("{other:?}"),
    }
}

fn unbind(presenter: &mut WsiPresenter) {
    let (mut cycle, mut action) = presenter.begin_retire();
    loop {
        let event = match action {
            RetireAction::Resolve(_) => RetireEvent::Resolved(true),
            RetireAction::WaitFrames { .. } => RetireEvent::FramesIdle(true),
            RetireAction::WaitDevice => RetireEvent::DeviceIdle,
            RetireAction::Drain => RetireEvent::Drained(true),
            RetireAction::Done { .. } => break,
        };
        let step = presenter.retire_direct_binding(cycle, event);
        cycle = step.0;
        action = step.1;
    }
}

fn build_scene(render_pass: u64, format: i32, extent: Extent2D) -> SceneBuild {
    let mut build = SceneBuild::new(render_pass, format, extent);
    let mut next = 1000;
    loop {
        let reply = match build.request() {
            BuildRequest::Complete => break,
            BuildRequest::BindMemory { .. } => BuildReply::Bound,
            BuildRequest::AllocateDescriptorSets { count } => {
                BuildReply::Allocated((0..u64::from(count)).map(|set| 2000 + set).collect())
            }
            _ => {
                next += 1;
                BuildReply::Created(next)
            }
        };
        build.advance(reply);
    }
    build
}

fn build_targets(
    presenter: &WsiPresenter,
) -> waywallen_layer_shell::resources::TransitionResources {
    let mut build = presenter.begin_targets().unwrap();
    let mut next = 3000;
    while build.stage != TargetStage::Complete {
        next += 1;
        build.advance(next);
    }
    build.resources
}

fn drain(presenter: &mut WsiPresenter, signaled: bool) -> (bool, Vec<DirectRelease>) {
    let mut releases = Vec::new();
    let (mut cycle, mut action) = presenter.begin_drain();
    loop {
        let event = match action {
            DrainAction::QueryFence { .. } => DrainEvent::Fence(signaled),
            DrainAction::Resolve(release) => {
                releases.push(release);
                DrainEvent::Resolved(true)
            }
            DrainAction::Done { pending } => return (pending, releases),
            DrainAction::Failed => panic!("a release failed"),
        };
        let step = presenter.drain_completed_releases(cycle, event);
        cycle = step.0;
        action = step.1;
    }
}

/// Presents one frame with a graphics stack where everything works.
fn present(
    presenter: &mut WsiPresenter,
    now: u64,
    outcome: QueueOutcome,
) -> (PresentAction, Vec<DrawPass>) {
    let (release_pending, _) = drain(presenter, true);
    let inputs = PresentInputs {
        now,
        release_pending,
        interpolated: single(1.0),
        eased: single(0.5),
    };
    let (mut cycle, mut action) = presenter.begin_present(inputs);
    let mut passes = Vec::new();
    loop {
        let event = match action {
            PresentAction::QueryFramesIdle => PresentEvent::FramesIdle(true),
            PresentAction::DestroyScene { .. } => PresentEvent::SceneDestroyed,
            PresentAction::RecreateSwapchain { extent } => {
                recreate(presenter, extent, 50);
                PresentEvent::SwapchainRecreated
            }
            PresentAction::CreateScene {
                render_pass,
                format,
                extent,
            } => PresentEvent::SceneCreated(build_scene(render_pass, format, extent).resources),
            PresentAction::CreateTargets => {
                PresentEvent::TargetsCreated(build_targets(presenter))
            }
            PresentAction::QueryFence { .. } => PresentEvent::Fence(true),
            PresentAction::AcquireImage { .. } => PresentEvent::Acquired(AcquireOutcome::Image {
                index: 0,
                suboptimal: false,
            }),
            PresentAction::RecordAndSubmit => {
                passes = presenter.draw_passes(&cycle);
                PresentEvent::Submitted
            }
            PresentAction::QueuePresent { .. } => PresentEvent::Queued(outcome),
            PresentAction::Done(_) | PresentAction::Fail(_) => return (action, passes),
        };
        let step = presenter.present(cycle, event);
        cycle = step.0;
        action = step.1;
    }
}

const ACCEPTED: QueueOutcome = QueueOutcome::Accepted { suboptimal: false };

fn done(redraw: bool) -> PresentAction {
    PresentAction::Done(PresentResult::Presented { redraw })
}

fn is_done(action: &PresentAction, redraw: bool) -> bool {
    format!("{action:?}") == format!("{:?}", done(redraw))
}

fn configure_transition(presenter: &mut WsiPresenter) -> TransitionPresentation {
    let fade = TransitionPresentation {
        shape: TransitionShape::Fade,
        duration_ns: 400,
    };
    presenter.apply_transition_snapshot(0, Some(fade));
    fade
}

#[test]
fn setting_up_creates_everything_in_order() {
    let presenter = set_up();
    assert_eq!(presenter.frames.len(), FRAMES_IN_FLIGHT);
    assert_eq!(presenter.shared.descriptor_set_layout, 101);
    assert_eq!(presenter.shared.descriptor_pool, 102);
    assert_eq!(presenter.shared.pipeline_layout, 103);
    assert_eq!(presenter.shared.sampler, 104);
    assert_eq!(presenter.frames[0].descriptor_set, 900);
    assert_eq!(presenter.frames[0].command_pool, 105);
    assert_eq!(presenter.frames[0].command_buffer, 106);
    assert_eq!(presenter.frames[0].image_available, 107);
    assert_eq!(presenter.frames[0].fence, 108);
    assert_eq!(presenter.frames[1].descriptor_set, 901);
    assert_eq!(presenter.frames[1].fence, 112);
    assert_eq!(
        MAX_DESCRIPTOR_SETS as usize,
        FRAMES_IN_FLIGHT + MAX_BLUR_MIP_LEVELS as usize + TRANSITION_TARGET_COUNT
    );
    assert_eq!(BINDINGS_PER_SET, 3);
    assert_eq!(COMPOSITION_PUSH_CONSTANT_SIZE, 48);
    assert_eq!(BLUR_PUSH_CONSTANT_OFFSET, 48);
    assert_eq!(BLUR_PUSH_CONSTANT_SIZE, 32);
    assert_eq!(TRANSITION_PUSH_CONSTANT_OFFSET, 80);
    assert_eq!(TRANSITION_PUSH_CONSTANT_SIZE, 32);
    assert_eq!(TOTAL_PUSH_CONSTANT_SIZE, 112);
    assert_eq!(SWAPCHAIN_ACQUIRE_TIMEOUT_NS, 1_000_000);
    assert_eq!(RESOURCE_RETIRE_TIMEOUT_NS, 2_000_000_000);
}

#[test]
fn setting_up_stops_where_the_device_takes_too_few_bytes() {
    let mut presenter = WsiPresenter::new(5);
    let (cycle, _) = presenter.begin_setup(SIZE);
    let (cycle, _) = presenter.initialize(cycle, SetupReply::Created(1));
    let (cycle, _) = presenter.initialize(cycle, SetupReply::Created(2));
    let (cycle, _) = presenter.initialize(cycle, SetupReply::Sets(vec![3, 4]));
    let (cycle, _) = presenter.initialize(cycle, SetupReply::Created(5));
    let (cycle, _) = presenter.initialize(cycle, SetupReply::Created(6));
    let (_, request) = presenter.initialize(cycle, SetupReply::Limit(111));
    assert_eq!(
        request,
        SetupRequest::LimitTooLow {
            limit: 111,
            needed: 112
        }
    );
    assert_eq!(
        presenter.teardown(),
        vec![
            handle(HandleKind::Sampler, 6),
            handle(HandleKind::PipelineLayout, 5),
            handle(HandleKind::DescriptorPool, 2),
            handle(HandleKind::DescriptorSetLayout, 1),
            handle(HandleKind::Surface, 5)
        ]
    );
}

#[test]
fn images_are_bound_once_per_configuration() {
    let mut presenter = set_up();
    assert!(!presenter.has_direct_binding());
    assert_eq!(
        presenter.install_direct_binding(1, 0, 0, SIZE, &[61]),
        Err(BindingError::ZeroToken)
    );
    assert_eq!(
        presenter.install_direct_binding(1, 7, 3, SIZE, &[61]),
        Err(BindingError::StaleConfig {
            referenced: 3,
            current: 0
        })
    );
    bind(&mut presenter, 7);
    assert!(presenter.has_direct_binding());
    assert_eq!(
        presenter.install_direct_binding(1, 0, 9, SIZE, &[61]),
        Err(BindingError::AlreadyBound)
    );
}

#[test]
fn frames_must_match_the_bound_images() {
    let mut presenter = set_up();
    let rejected = |presenter: &mut WsiPresenter, frame: IncomingFrame| {
        match presenter.replace_pending_direct_frame(&frame) {
            FrameStep::Rejected(error) => error,
            other => panic!("{other:?}"),
        }
    };
    assert_eq!(rejected(&mut presenter, incoming(1)), FrameError::Unbound);
    bind(&mut presenter, 7);
    for frame in [
        IncomingFrame {
            buffer_generation: 2,
            ..incoming(1)
        },
        IncomingFrame {
            buffer_index: 2,
            ..incoming(1)
        },
        IncomingFrame {
            image: 62,
            ..incoming(1)
        },
        IncomingFrame {
            extent: Extent2D {
                width: 8,
                height: 5,
            },
            ..incoming(1)
        },
    ] {
        assert_eq!(rejected(&mut presenter, frame), FrameError::Mismatch);
    }
    for frame in [
        IncomingFrame {
            acquire_semaphore: 0,
            ..incoming(1)
        },
        IncomingFrame {
            release_syncobj_fd: -1,
            ..incoming(1)
        },
    ] {
        assert_eq!(rejected(&mut presenter, frame), FrameError::MissingSync);
    }
    offer(&mut presenter, 1);
    assert_eq!(presenter.direct_binding.as_ref().unwrap().format, 44);
    assert_eq!(
        rejected(
            &mut presenter,
            IncomingFrame {
                format: 37,
                ..incoming(2)
            }
        ),
        FrameError::FormatChanged
    );
    match presenter.replace_pending_direct_frame(&incoming(2)) {
        FrameStep::Supersede {
            release: old,
            frame,
        } => {
            assert_eq!(old, release(1));
            assert_eq!(frame.seq, 2);
            assert_eq!(frame.image_view, 800);
            assert!(presenter.pending_direct_frame.is_none());
            presenter.store_direct_frame(frame);
        }
        other => panic!("{other:?}"),
    }
    assert_eq!(presenter.discard_pending_direct_frame(), Some(release(2)));
    assert_eq!(presenter.discard_pending_direct_frame(), None);
}

#[test]
fn releases_are_signaled_and_acknowledged() {
    assert_eq!(
        resolve_direct_release(false, false, None),
        ReleaseStep::Resolved
    );
    assert_eq!(
        resolve_direct_release(false, true, None),
        ReleaseStep::Resolved
    );
    assert_eq!(
        resolve_direct_release(true, false, None),
        ReleaseStep::Failed(ReleaseError::SignalFailed)
    );
    assert_eq!(
        resolve_direct_release(true, true, None),
        ReleaseStep::Acknowledge
    );
    assert_eq!(
        resolve_direct_release(true, true, Some(true)),
        ReleaseStep::Resolved
    );
    assert_eq!(
        resolve_direct_release(true, true, Some(false)),
        ReleaseStep::Failed(ReleaseError::AcknowledgeFailed)
    );
    assert_eq!(discard_direct_frame(&incoming(3)), Some(release(3)));
    assert_eq!(
        discard_direct_frame(&IncomingFrame {
            release_syncobj_fd: -1,
            ..incoming(3)
        }),
        None
    );
}

#[test]
fn plain_frames_are_drawn_straight_to_the_surface() {
    let mut presenter = set_up();
    let (action, _) = present(&mut presenter, 0, ACCEPTED);
    assert!(is_done(&action, false));
    bind(&mut presenter, 7);
    offer(&mut presenter, 1);
    let (action, passes) = present(&mut presenter, 0, ACCEPTED);
    assert!(is_done(&action, true));
    assert_eq!(passes, vec![DrawPass::ComposeDirect { extent: SIZE }]);
    assert_eq!(presenter.content_presentation.committed, Some(7));
    assert_eq!(presenter.frame_cursor, 1);
    assert_eq!(presenter.frames[0].pending_release, Some(release(1)));
    assert_eq!(drain(&mut presenter, false), (true, vec![]));
    assert_eq!(drain(&mut presenter, true), (false, vec![release(1)]));
    let (action, _) = present(&mut presenter, 0, ACCEPTED);
    assert!(is_done(&action, false));
}

#[test]
fn failed_releases_do_not_stop_the_walk() {
    let mut presenter = set_up();
    presenter.frames[0].pending_release = Some(release(1));
    presenter.frames[1].pending_release = Some(release(2));
    let (cycle, action) = presenter.begin_drain();
    assert_eq!(action, DrainAction::QueryFence { fence: 108 });
    let (cycle, action) = presenter.drain_completed_releases(cycle, DrainEvent::Fence(true));
    assert_eq!(action, DrainAction::Resolve(release(1)));
    let (cycle, action) = presenter.drain_completed_releases(cycle, DrainEvent::Resolved(false));
    assert_eq!(action, DrainAction::QueryFence { fence: 112 });
    let (_, action) = presenter.drain_completed_releases(cycle, DrainEvent::Fence(false));
    assert_eq!(action, DrainAction::Failed);
    assert_eq!(presenter.frames[0].pending_release, None);
    assert_eq!(presenter.frames[1].pending_release, Some(release(2)));
}

#[test]
fn frames_are_idle_when_every_fence_signaled() {
    let presenter = set_up();
    assert_eq!(presenter.frames_idle(&[]), IdleStep::Query { fence: 108 });
    assert_eq!(
        presenter.frames_idle(&[true]),
        IdleStep::Query { fence: 112 }
    );
    assert_eq!(presenter.frames_idle(&[false]), IdleStep::Busy);
    assert_eq!(presenter.frames_idle(&[true, true]), IdleStep::Idle);
    assert_eq!(presenter.frames_idle(&[true, false]), IdleStep::Busy);
    assert_eq!(presenter.frame_fences(), vec![108, 112]);
}

#[test]
fn binding_is_retired_when_the_frames_are_idle() {
    let mut presenter = set_up();
    bind(&mut presenter, 7);
    offer(&mut presenter, 1);
    let (cycle, action) = presenter.begin_retire();
    assert!(matches!(action, RetireAction::Resolve(owed) if owed == release(1)));
    let (cycle, action) = presenter.retire_direct_binding(cycle, RetireEvent::Resolved(false));
    assert!(matches!(action, RetireAction::WaitFrames { fences } if fences == vec![108, 112]));
    let (cycle, action) = presenter.retire_direct_binding(cycle, RetireEvent::FramesIdle(false));
    assert!(matches!(action, RetireAction::WaitDevice));
    let (cycle, action) = presenter.retire_direct_binding(cycle, RetireEvent::DeviceIdle);
    assert!(matches!(action, RetireAction::Drain));
    let (cycle, action) = presenter.retire_direct_binding(cycle, RetireEvent::Drained(false));
    match action {
        RetireAction::Done { views, outcome } => {
            assert_eq!(views, vec![800]);
            assert_eq!(outcome, RetireOutcome::DiscardFailed);
        }
        other => panic!("{other:?}"),
    }
    assert_eq!(cycle.phase, RetirePhase::Finished);
    assert!(!presenter.has_direct_binding());
    assert_eq!(presenter.content_presentation.bound, None);

    let (cycle, action) = presenter.begin_retire();
    assert!(matches!(action, RetireAction::WaitFrames { .. }));
    let (cycle, _) = presenter.retire_direct_binding(cycle, RetireEvent::FramesIdle(true));
    let (_, action) = presenter.retire_direct_binding(cycle, RetireEvent::Drained(false));
    assert!(matches!(
        action,
        RetireAction::Done {
            outcome: RetireOutcome::ReleaseFailed,
            ..
        }
    ));
}

#[test]
fn changed_content_goes_through_a_transition() {
    let mut presenter = set_up();
    let fade = configure_transition(&mut presenter);
    bind(&mut presenter, 7);
    offer(&mut presenter, 1);
    let (action, passes) = present(&mut presenter, 0, ACCEPTED);
    assert!(is_done(&action, true));
    assert_eq!(
        passes,
        vec![
            DrawPass::ComposeScene { extent: SIZE },
            DrawPass::Downsample {
                level: 1,
                extent: Extent2D {
                    width: 4,
                    height: 2
                }
            },
            DrawPass::Downsample {
                level: 2,
                extent: Extent2D {
                    width: 2,
                    height: 1
                }
            },
            DrawPass::Downsample {
                level: 3,
                extent: Extent2D {
                    width: 1,
                    height: 1
                }
            },
            DrawPass::OutputScene { extent: SIZE }
        ]
    );
    unbind(&mut presenter);
    bind(&mut presenter, 8);
    offer(&mut presenter, 2);
    let (action, passes) = present(&mut presenter, 1000, ACCEPTED);
    assert!(is_done(&action, true));
    assert_eq!(
        passes,
        vec![
            DrawPass::CaptureScene {
                target: 1,
                blurred: true,
                extent: SIZE
            },
            DrawPass::ComposeScene { extent: SIZE },
            DrawPass::OutputTransition {
                target: 1,
                shape: TransitionShape::Fade,
                progress: single(0.0),
                extent: SIZE
            }
        ]
    );
    let active = presenter.active_transition.unwrap();
    assert_eq!(active.presentation, fade);
    assert_eq!(active.started_at, 1000);
    assert_eq!(presenter.content_presentation.committed, Some(8));

    let (action, passes) = present(&mut presenter, 1200, ACCEPTED);
    assert!(is_done(&action, true));
    assert_eq!(
        passes,
        vec![DrawPass::OutputTransition {
            target: 1,
            shape: TransitionShape::Fade,
            progress: single(0.5),
            extent: SIZE
        }]
    );

    unbind(&mut presenter);
    bind(&mut presenter, 9);
    offer(&mut presenter, 3);
    let (_, passes) = present(&mut presenter, 1300, ACCEPTED);
    assert_eq!(
        passes[0],
        DrawPass::CaptureMix {
            target: 0,
            front: 1,
            shape: TransitionShape::Fade,
            progress: single(0.5),
            blurred: false,
            extent: SIZE
        }
    );
    assert_eq!(presenter.active_transition.unwrap().started_at, 1300);

    let (action, passes) = present(&mut presenter, 1700, ACCEPTED);
    assert!(is_done(&action, false));
    assert_eq!(passes, vec![DrawPass::OutputScene { extent: SIZE }]);
    assert!(presenter.active_transition.is_none());
}

#[test]
fn refused_transition_is_retried_and_starts_when_accepted() {
    let mut presenter = set_up();
    configure_transition(&mut presenter);
    bind(&mut presenter, 7);
    offer(&mut presenter, 1);
    present(&mut presenter, 0, ACCEPTED);
    unbind(&mut presenter);
    bind(&mut presenter, 8);
    offer(&mut presenter, 2);
    let (action, _) = present(&mut presenter, 10, QueueOutcome::OutOfDate);
    assert!(is_done(&action, true));
    assert_eq!(presenter.content_presentation.committed, Some(7));
    assert_eq!(presenter.content_presentation.submitted, Some(8));
    assert!(presenter.active_transition.is_none());
    assert_eq!(presenter.recreate_extent, Some(SIZE));
    let (action, passes) = present(&mut presenter, 20, ACCEPTED);
    assert!(is_done(&action, true));
    assert_eq!(passes.len(), 1);
    assert_eq!(presenter.active_transition.unwrap().started_at, 20);
    assert_eq!(presenter.content_presentation.committed, Some(8));
    assert_eq!(presenter.swapchain.handle, 50);
}

#[test]
fn failed_queue_discards_what_was_submitted() {
    let mut presenter = set_up();
    bind(&mut presenter, 7);
    offer(&mut presenter, 1);
    let (action, _) = present(&mut presenter, 0, QueueOutcome::Failed);
    assert!(matches!(
        action,
        PresentAction::Fail(PresentFailure::QueueFailed)
    ));
    assert_eq!(presenter.content_presentation.submitted, None);
    assert_eq!(presenter.content_presentation.committed, None);
    assert_eq!(presenter.frame_cursor, 0);
    assert_eq!(presenter.frames[0].pending_release, Some(release(1)));
}

#[test]
fn black_frame_is_drawn_before_the_waiting_frame() {
    let mut presenter = set_up();
    bind(&mut presenter, 7);
    offer(&mut presenter, 1);
    presenter.blank_state = BlankState::Pending;
    let (action, passes) = present(&mut presenter, 0, ACCEPTED);
    assert!(is_done(&action, true));
    assert_eq!(passes, vec![DrawPass::Clear]);
    assert!(presenter.blank_committed());
    assert!(presenter.pending_direct_frame.is_some());
    let (_, passes) = present(&mut presenter, 0, ACCEPTED);
    assert_eq!(passes, vec![DrawPass::ComposeDirect { extent: SIZE }]);
    assert!(!presenter.blank_committed());
}

#[test]
fn pending_attempts_leave_the_frame_waiting() {
    let mut presenter = set_up();
    bind(&mut presenter, 7);
    offer(&mut presenter, 1);
    let inputs = PresentInputs {
        now: 0,
        release_pending: false,
        interpolated: single(0.0),
        eased: single(0.0),
    };
    let begin = |presenter: &mut WsiPresenter| -> PresentCycle {
        let (cycle, action) = presenter.begin_present(inputs);
        assert!(matches!(action, PresentAction::QueryFence { fence: 108 }));
        cycle
    };
    let cycle = begin(&mut presenter);
    let (_, action) = presenter.present(cycle, PresentEvent::Fence(false));
    assert!(matches!(
        action,
        PresentAction::Done(PresentResult::Pending)
    ));
    let cycle = begin(&mut presenter);
    let (cycle, action) = presenter.present(cycle, PresentEvent::Fence(true));
    assert!(matches!(
        action,
        PresentAction::AcquireImage {
            swapchain: 10,
            semaphore: 107
        }
    ));
    let (_, action) = presenter.present(cycle, PresentEvent::Acquired(AcquireOutcome::NotReady));
    assert!(matches!(
        action,
        PresentAction::Done(PresentResult::Pending)
    ));
    assert_eq!(presenter.recreate_extent, None);
    let cycle = begin(&mut presenter);
    let (cycle, _) = presenter.present(cycle, PresentEvent::Fence(true));
    let (_, action) = presenter.present(cycle, PresentEvent::Acquired(AcquireOutcome::OutOfDate));
    assert!(matches!(
        action,
        PresentAction::Done(PresentResult::Pending)
    ));
    assert_eq!(presenter.recreate_extent, Some(SIZE));
    assert_eq!(presenter.pending_direct_frame.unwrap().seq, 1);
    let (cycle, action) = presenter.begin_present(inputs);
    assert!(matches!(action, PresentAction::QueryFramesIdle));
    let (_, action) = presenter.present(cycle, PresentEvent::FramesIdle(false));
    assert!(matches!(
        action,
        PresentAction::Done(PresentResult::Pending)
    ));
    assert_eq!(presenter.recreate_extent, Some(SIZE));
}

#[test]
fn submission_waits_for_image_and_producer() {
    let mut presenter = set_up();
    bind(&mut presenter, 7);
    offer(&mut presenter, 1);
    let (cycle, _) = presenter.begin_present(PresentInputs {
        now: 0,
        release_pending: false,
        interpolated: single(0.0),
        eased: single(0.0),
    });
    let (cycle, _) = presenter.present(cycle, PresentEvent::Fence(true));
    let (cycle, action) = presenter.present(
        cycle,
        PresentEvent::Acquired(AcquireOutcome::Image {
            index: 1,
            suboptimal: true,
        }),
    );
    assert!(matches!(action, PresentAction::RecordAndSubmit));
    assert_eq!(cycle.phase, PresentPhase::Record);
    let submission = presenter.frame_submission(&cycle);
    assert_eq!(
        submission.waits,
        vec![
            SubmitWait::ColorOutput { semaphore: 107 },
            SubmitWait::FragmentShader { semaphore: 701 }
        ]
    );
    assert_eq!(submission.fence, 108);
    assert_eq!(submission.command_buffer, 106);
    assert_eq!(submission.signal, presenter.swapchain.present_ready[1]);
    assert_eq!(
        submission.framebuffer,
        presenter.swapchain.rendering.framebuffers[1]
    );
    assert!(!submission.clear_black);
    let (cycle, action) = presenter.present(cycle, PresentEvent::Submitted);
    match action {
        PresentAction::QueuePresent {
            swapchain,
            image_index,
            wait,
        } => {
            assert_eq!((swapchain, image_index), (10, 1));
            assert_eq!(wait, presenter.swapchain.present_ready[1]);
        }
        other => panic!("{other:?}"),
    }
    presenter.present(cycle, PresentEvent::Queued(ACCEPTED));
    assert_eq!(presenter.recreate_extent, Some(SIZE));
}

#[test]
fn scene_failure_turns_the_blur_off() {
    let mut presenter = set_up();
    configure_transition(&mut presenter);
    bind(&mut presenter, 7);
    offer(&mut presenter, 1);
    let (cycle, action) = presenter.begin_present(PresentInputs {
        now: 0,
        release_pending: false,
        interpolated: single(0.0),
        eased: single(0.0),
    });
    assert!(matches!(action, PresentAction::CreateScene { .. }));
    let (_, action) = presenter.present(cycle, PresentEvent::SceneFailed);
    assert!(matches!(
        action,
        PresentAction::Fail(PresentFailure::SceneUnavailable)
    ));
    assert!(!presenter.supports_pause_blur());
    assert!(!presenter.supports_transitions());
    let (_, passes) = present(&mut presenter, 0, ACCEPTED);
    assert_eq!(passes, vec![DrawPass::ComposeDirect { extent: SIZE }]);
}

#[test]
fn missing_targets_turn_transitions_off_and_the_frame_goes_on() {
    let mut presenter = set_up();
    configure_transition(&mut presenter);
    bind(&mut presenter, 7);
    offer(&mut presenter, 1);
    present(&mut presenter, 0, ACCEPTED);
    unbind(&mut presenter);
    bind(&mut presenter, 8);
    offer(&mut presenter, 2);
    drain(&mut presenter, true);
    let (cycle, action) = presenter.begin_present(PresentInputs {
        now: 0,
        release_pending: false,
        interpolated: single(0.0),
        eased: single(0.0),
    });
    assert!(matches!(action, PresentAction::CreateTargets));
    let (cycle, action) = presenter.present(cycle, PresentEvent::TargetsFailed);
    assert!(matches!(action, PresentAction::QueryFence { .. }));
    assert!(!cycle.start_transition);
    assert!(presenter.supports_pause_blur());
    assert!(!presenter.supports_transitions());
}

#[test]
fn unneeded_and_outgrown_scenes_are_given_up() {
    let mut presenter = set_up();
    configure_transition(&mut presenter);
    bind(&mut presenter, 7);
    offer(&mut presenter, 1);
    present(&mut presenter, 0, ACCEPTED);
    assert!(presenter.blur_resources.is_some());
    let grown = Extent2D {
        width: 16,
        height: 4,
    };
    presenter.request_resize(16, 4);
    assert_eq!(presenter.recreate_extent, Some(grown));
    offer(&mut presenter, 2);
    let (_, passes) = present(&mut presenter, 0, ACCEPTED);
    assert_eq!(passes[0], DrawPass::ComposeScene { extent: grown });
    assert_eq!(presenter.blur_resources.as_ref().unwrap().extent, grown);
    assert!(!presenter.apply_transition_snapshot(0, None));
    let (action, passes) = present(&mut presenter, 0, ACCEPTED);
    assert!(is_done(&action, false));
    assert!(passes.is_empty());
    assert!(presenter.blur_resources.is_none());
}

#[test]
fn blur_is_redrawn_while_it_moves() {
    let mut presenter = set_up();
    let configured = PausePresentation {
        configured: true,
        active: false,
        radius: 30,
    };
    assert!(!presenter.apply_pause_snapshot(configured, 0, single(0.0)));
    bind(&mut presenter, 7);
    offer(&mut presenter, 1);
    present(&mut presenter, 0, ACCEPTED);
    assert!(presenter.apply_pause_state(true, 100, single(0.0)));
    let (action, passes) = present(&mut presenter, 200, ACCEPTED);
    assert!(is_done(&action, true));
    assert_eq!(passes, vec![DrawPass::OutputScene { extent: SIZE }]);
    let (action, _) = present(&mut presenter, 180_000_100, ACCEPTED);
    assert!(is_done(&action, false));
    let (action, passes) = present(&mut presenter, 180_000_200, ACCEPTED);
    assert!(is_done(&action, false));
    assert!(passes.is_empty());
    assert!(presenter.apply_pause_snapshot(
        PausePresentation::default(),
        180_000_300,
        single(30.0)
    ));
}

#[test]
fn ended_session_forgets_content_and_asks_for_black() {
    let mut presenter = set_up();
    configure_transition(&mut presenter);
    bind(&mut presenter, 7);
    offer(&mut presenter, 1);
    present(&mut presenter, 0, ACCEPTED);
    assert!(presenter.request_blank());
    assert!(!presenter.request_blank());
    assert_eq!(presenter.content_presentation.committed, None);
    assert!(!presenter.blur_resources.as_ref().unwrap().base_valid);
    presenter.abandon_blank();
    assert_eq!(presenter.blank_state, BlankState::Inactive);
}

#[test]
fn scene_of_one_pixel_is_not_downsampled() {
    let build = build_scene(
        4,
        44,
        Extent2D {
            width: 1,
            height: 1,
        },
    );
    assert_eq!(build.stage, SceneStage::Complete);
    assert_eq!(build.mip_levels, 1);
    assert_eq!(build.resources.downsample_pipeline, 0);
    assert!(build.resources.downsample_descriptor_sets.is_empty());
    assert_eq!(
        build.resources.descriptor_writes(),
        vec![DescriptorWrite {
            descriptor_set: 2000,
            binding: 1,
            image_view: build.resources.all_levels_view
        }]
    );
}

#[test]
fn scene_is_built_in_order_and_taken_down_in_reverse() {
    let mut build = SceneBuild::new(
        4,
        44,
        Extent2D {
            width: 2,
            height: 1,
        },
    );
    assert_eq!(
        build.request(),
        BuildRequest::CreateImage {
            format: 44,
            extent: Extent2D {
                width: 2,
                height: 1
            },
            mip_levels: 2
        }
    );
    build.advance(BuildReply::Created(1));
    assert_eq!(build.request(), BuildRequest::AllocateMemory { image: 1 });
    build.advance(BuildReply::Created(2));
    assert_eq!(
        build.request(),
        BuildRequest::BindMemory {
            image: 1,
            memory: 2
        }
    );
    build.advance(BuildReply::Bound);
    assert_eq!(
        build.request(),
        BuildRequest::CreateView {
            image: 1,
            format: 44,
            base_level: 0,
            level_count: 2
        }
    );
    build.advance(BuildReply::Created(3));
    build.advance(BuildReply::Created(4));
    assert_eq!(
        build.request(),
        BuildRequest::CreateView {
            image: 1,
            format: 44,
            base_level: 1,
            level_count: 1
        }
    );
    build.advance(BuildReply::Created(5));
    assert_eq!(
        build.request(),
        BuildRequest::CreateRenderPass { format: 44 }
    );
    build.advance(BuildReply::Created(6));
    build.advance(BuildReply::Created(7));
    assert_eq!(
        build.request(),
        BuildRequest::CreatePipeline {
            render_pass: 6,
            shaders: Shaders::Downsample
        }
    );
    build.advance(BuildReply::Created(8));
    build.advance(BuildReply::Created(9));
    assert_eq!(
        build.request(),
        BuildRequest::CreateFramebuffer {
            render_pass: 6,
            attachment: 5,
            extent: Extent2D {
                width: 1,
                height: 1
            }
        }
    );
    build.advance(BuildReply::Created(10));
    assert_eq!(
        build.request(),
        BuildRequest::CreatePipeline {
            render_pass: 4,
            shaders: Shaders::Blur
        }
    );
    build.advance(BuildReply::Created(11));
    assert_eq!(
        build.request(),
        BuildRequest::AllocateDescriptorSets { count: 2 }
    );
    build.advance(BuildReply::Allocated(vec![12, 13]));
    assert_eq!(build.request(), BuildRequest::Complete);
    assert_eq!(
        build.resources.teardown(),
        vec![
            handle(HandleKind::DescriptorSet, 12),
            handle(HandleKind::DescriptorSet, 13),
            handle(HandleKind::Pipeline, 11),
            handle(HandleKind::Framebuffer, 9),
            handle(HandleKind::Framebuffer, 10),
            handle(HandleKind::Pipeline, 8),
            handle(HandleKind::Pipeline, 7),
            handle(HandleKind::RenderPass, 6),
            handle(HandleKind::ImageView, 4),
            handle(HandleKind::ImageView, 5),
            handle(HandleKind::ImageView, 3),
            handle(HandleKind::Image, 1),
            handle(HandleKind::Memory, 2)
        ]
    );
    assert_eq!(
        build.resources.descriptor_writes(),
        vec![
            DescriptorWrite {
                descriptor_set: 12,
                binding: 1,
                image_view: 4
            },
            DescriptorWrite {
                descriptor_set: 13,
                binding: 1,
                image_view: 3
            }
        ]
    );
}

#[test]
fn targets_are_built_from_the_scene() {
    let mut presenter = set_up();
    assert!(presenter.begin_targets().is_none());
    presenter.blur_resources = Some(build_scene(4, 44, SIZE).resources);
    let mut build = presenter.begin_targets().unwrap();
    assert!(build.resources.targets.is_empty());
    assert_eq!(build_targets(&presenter).targets.len(), TRANSITION_TARGET_COUNT);
    assert_eq!(
        build.request(),
        BuildRequest::CreateImage {
            format: 44,
            extent: SIZE,
            mip_levels: 1
        }
    );
    build.advance(1);
    assert_eq!(build.request(), BuildRequest::AllocateMemory { image: 1 });
    build.advance(2);
    build.advance(0);
    assert_eq!(
        build.request(),
        BuildRequest::CreateView {
            image: 1,
            format: 44,
            base_level: 0,
            level_count: 1
        }
    );
    build.advance(3);
    build.advance(4);
    assert_eq!(
        build.request(),
        BuildRequest::AllocateDescriptorSets { count: 1 }
    );
    assert_eq!(
        build.resources.teardown(),
        vec![
            handle(HandleKind::Framebuffer, 4),
            handle(HandleKind::ImageView, 3),
            handle(HandleKind::Image, 1),
            handle(HandleKind::Memory, 2)
        ]
    );
    build.advance(5);
    let scene = presenter.blur_resources.as_ref().unwrap();
    assert_eq!(
        build.descriptor_writes(),
        [
            DescriptorWrite {
                descriptor_set: 5,
                binding: 1,
                image_view: scene.all_levels_view
            },
            DescriptorWrite {
                descriptor_set: 5,
                binding: 2,
                image_view: 3
            }
        ]
    );
    assert_eq!(build.stage, TargetStage::Image);
    for next in [6, 7, 0, 8, 9, 10] {
        build.advance(next);
    }
    assert_eq!(
        build.request(),
        BuildRequest::CreatePipeline {
            render_pass: scene.render_pass,
            shaders: Shaders::Transition
        }
    );
    build.advance(11);
    assert_eq!(
        build.request(),
        BuildRequest::CreatePipeline {
            render_pass: scene.render_pass,
            shaders: Shaders::Blur
        }
    );
    build.advance(12);
    assert_eq!(
        build.request(),
        BuildRequest::CreatePipeline {
            render_pass: presenter.swapchain.rendering.render_pass,
            shaders: Shaders::Transition
        }
    );
    build.advance(13);
    assert_eq!(build.request(), BuildRequest::Complete);
    assert_eq!(build.resources.targets.len(), TRANSITION_TARGET_COUNT);
}

#[test]
fn presenter_is_taken_down_whole() {
    let mut presenter = set_up();
    bind(&mut presenter, 7);
    offer(&mut presenter, 1);
    recreate(&mut presenter, SIZE, 60);
    let steps = presenter.teardown();
    assert_eq!(steps[0], handle(HandleKind::ReleaseFd, 41));
    assert_eq!(steps[1], handle(HandleKind::ImageView, 800));
    assert_eq!(
        *steps.last().unwrap(),
        handle(HandleKind::Surface, 5)
    );
    let swapchains: Vec<u64> = steps
        .iter()
        .filter(|step| step.kind == HandleKind::Swapchain)
        .map(|step| step.handle)
        .collect();
    assert_eq!(swapchains, vec![60, 10]);
    assert!(steps.iter().all(|step| step.handle != 0));
}

#[test]
fn black_fallback_is_a_plain_clear() {
    let mut presenter = set_up();
    configure_transition(&mut presenter);
    bind(&mut presenter, 7);
    offer(&mut presenter, 1);
    present(&mut presenter, 0, ACCEPTED);
    assert!(presenter.blur_resources.is_some());
    assert!(presenter.request_blank());
    let (action, passes) = present(&mut presenter, 1, ACCEPTED);
    assert!(is_done(&action, false));
    assert_eq!(passes, vec![DrawPass::Clear]);
    assert!(presenter.blank_committed());
    assert!(presenter.blur_resources.is_none());
}

#[test]
fn owed_releases_are_closed_with_the_presenter() {
    let mut presenter = set_up();
    bind(&mut presenter, 7);
    offer(&mut presenter, 1);
    present(&mut presenter, 0, ACCEPTED);
    offer(&mut presenter, 2);
    let closed: Vec<u64> = presenter
        .teardown()
        .iter()
        .filter(|step| step.kind == HandleKind::ReleaseFd)
        .map(|step| step.handle)
        .collect();
    assert_eq!(closed, vec![42, 41]);
    assert_eq!(presenter.discard_pending_direct_frame(), Some(release(2)));
    assert_eq!(presenter.discard_pending_direct_frame(), None);
}

#[test]
fn every_reply_moves_the_attempt_on() {
    let mut presenter = set_up();
    configure_transition(&mut presenter);
    bind(&mut presenter, 7);
    offer(&mut presenter, 1);
    presenter.request_resize(16, 8);
    let (mut cycle, mut action) = presenter.begin_present(PresentInputs {
        now: 0,
        release_pending: false,
        interpolated: single(0.0),
        eased: single(0.0),
    });
    let mut phases = vec![cycle.phase];
    loop {
        let event = match action {
            PresentAction::QueryFramesIdle => PresentEvent::FramesIdle(true),
            PresentAction::RecreateSwapchain { extent } => {
                recreate(&mut presenter, extent, 50);
                PresentEvent::SwapchainRecreated
            }
            PresentAction::CreateScene {
                render_pass,
                format,
                extent,
            } => PresentEvent::SceneCreated(build_scene(render_pass, format, extent).resources),
            PresentAction::QueryFence { .. } => PresentEvent::Fence(true),
            PresentAction::AcquireImage { .. } => PresentEvent::Acquired(AcquireOutcome::Image {
                index: 1,
                suboptimal: false,
            }),
            PresentAction::RecordAndSubmit => PresentEvent::Submitted,
            PresentAction::QueuePresent { .. } => PresentEvent::Queued(ACCEPTED),
            PresentAction::Done(_) => break,
            other => panic!("not expected: {other:?}"),
        };
        let step = presenter.present(cycle, event);
        cycle = step.0;
        action = step.1;
        phases.push(cycle.phase);
    }
    assert_eq!(
        phases,
        vec![
            PresentPhase::ResizeIdle,
            PresentPhase::Resize,
            PresentPhase::SceneCreation,
            PresentPhase::Fence,
            PresentPhase::Acquire,
            PresentPhase::Record,
            PresentPhase::Queue,
            PresentPhase::Finished,
        ]
    );
}

#[test]
fn unfinished_targets_are_taken_down_whole() {
    let mut presenter = set_up();
    presenter.blur_resources = Some(build_scene(4, 44, SIZE).resources);
    let mut build = presenter.begin_targets().unwrap();
    let mut created = Vec::new();
    let mut next = 0;
    while build.stage != TargetStage::Complete {
        next += 1;
        if build.stage != TargetStage::Bind {
            created.push(next);
        }
        build.advance(next);
        let mut taken_down: Vec<u64> = build
            .resources
            .teardown()
            .iter()
            .map(|step| step.handle)
            .collect();
        taken_down.sort_unstable();
        assert_eq!(taken_down, created);
    }
    assert_eq!(created.len(), 13);
}

#[test]
fn unfinished_setup_is_taken_down_whole() {
    let mut presenter = WsiPresenter::new(5);
    let (mut cycle, mut request) = presenter.begin_setup(SIZE);
    let mut created = vec![5];
    let mut next = 100;
    loop {
        let reply = match request {
            SetupRequest::AllocateSets { .. } => SetupReply::Sets(vec![900, 901]),
            SetupRequest::QueryPushConstantLimit => SetupReply::Limit(112),
            SetupRequest::RecreateSwapchain { .. } => break,
            other => {
                next += 1;
                if !matches!(other, SetupRequest::AllocateCommandBuffer { .. }) {
                    created.push(next);
                }
                SetupReply::Created(next)
            }
        };
        let step = presenter.initialize(cycle, reply);
        cycle = step.0;
        request = step.1;
        let mut taken_down: Vec<u64> = presenter
            .teardown()
            .iter()
            .map(|step| step.handle)
            .collect();
        taken_down.sort_unstable();
        assert_eq!(taken_down, created);
    }
    assert_eq!(created.len(), 11);
}

#[test]
fn busy_attempt_keeps_the_waiting_frame() {
    let mut presenter = set_up();
    bind(&mut presenter, 7);
    offer(&mut presenter, 1);
    presenter.request_resize(16, 8);
    let waiting = presenter.pending_direct_frame;
    let content = presenter.content_presentation.clone();
    let cursor = presenter.frame_cursor;
    let (cycle, action) = presenter.begin_present(PresentInputs {
        now: 0,
        release_pending: false,
        interpolated: single(0.0),
        eased: single(0.0),
    });
    assert!(matches!(action, PresentAction::QueryFramesIdle));
    let (cycle, action) = presenter.present(cycle, PresentEvent::FramesIdle(true));
    match action {
        PresentAction::RecreateSwapchain { extent } => {
            recreate(&mut presenter, extent, 50);
        }
        other => panic!("not expected: {other:?}"),
    }
    let (cycle, action) = presenter.present(cycle, PresentEvent::SwapchainRecreated);
    assert!(matches!(action, PresentAction::QueryFence { .. }));
    let (_, action) = presenter.present(cycle, PresentEvent::Fence(false));
    assert!(matches!(
        action,
        PresentAction::Done(PresentResult::Pending)
    ));
    assert!(waiting.is_some());
    assert_eq!(presenter.pending_direct_frame, waiting);
    assert_eq!(presenter.content_presentation, content);
    assert_eq!(presenter.frame_cursor, cursor);
}
