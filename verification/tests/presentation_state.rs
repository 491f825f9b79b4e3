use std::time::Duration;
use waywallen_layer_shell::blank::BlankState;
use waywallen_layer_shell::content::ContentPresentationState;
use waywallen_layer_shell::effects::{
    blur_mip_extent, blur_mip_level_count, needs_persistent_scene, needs_scene_redraw,
    retained_transition_sample, transition_presentation, update_transition_snapshot,
    ActiveTransition, BlurPhase, BlurSample, BlurSegment, BlurTransition, PausePresentation,
    TransitionKind, TransitionPresentation, TransitionShape, BLUR_TRANSITION_DURATION_NS,
};
use waywallen_layer_shell::geometry::{
    display_transform, physical_output_size, DisplayTransform, Extent2D,
};
use waywallen_layer_shell::schedule::redraw_interval;
use waywallen_layer_shell::single::{Single, EPSILON_BITS, INFINITY_BITS};

fn single(value: f32) -> Single {
    Single {
        bits: value.to_bits(),
    }
}

fn value(number: Single) -> f32 {
    f32::from_bits(number.bits)
}

fn assert_near(actual: f32, expected: f32) {
    assert!((actual - expected).abs() < 0.001, "{actual} != {expected}");
}

fn millis(time: u64) -> u64 {
    Duration::from_millis(time).as_nanos() as u64
}

/// The radius between the ends of a movement, slowing down towards its end.
fn interpolate(segment: BlurSegment, elapsed: u64) -> f32 {
    let progress = Duration::from_nanos(elapsed).as_secs_f32()
        / Duration::from_nanos(BLUR_TRANSITION_DURATION_NS).as_secs_f32();
    let inverse = 1.0 - progress.clamp(0.0, 1.0);
    let eased = 1.0 - inverse * inverse * inverse;
    value(segment.from) + (value(segment.target) - value(segment.from)) * eased
}

fn interpolated_at(transition: &BlurTransition, now: u64) -> Single {
    match transition.phase_at(now) {
        BlurPhase::Steady { radius } => radius,
        BlurPhase::Moving { segment, elapsed } => single(interpolate(segment, elapsed)),
        BlurPhase::Arrived { radius } => radius,
    }
}

fn set_target(transition: &mut BlurTransition, target: f32, now: u64, animate: bool) -> bool {
    let interpolated = interpolated_at(transition, now);
    transition.set_target(single(target), now, animate, interpolated)
}

fn sample(transition: &mut BlurTransition, now: u64) -> BlurSample {
    let interpolated = interpolated_at(transition, now);
    transition.sample(now, interpolated)
}

fn ease_in_out_cubic(t: f32) -> f32 {
    let t = t.clamp(0.0, 1.0);
    if t < 0.5 {
        4.0 * t * t * t
    } else {
        let inverse = -2.0 * t + 2.0;
        1.0 - inverse * inverse * inverse / 2.0
    }
}

fn eased_progress(active: &ActiveTransition, now: u64) -> Option<f32> {
    active.progress_at(now).map(|progress| {
        let linear = Duration::from_nanos(progress.elapsed_ns).as_secs_f32()
            / Duration::from_nanos(progress.duration_ns).as_secs_f32();
        ease_in_out_cubic(linear)
    })
}

#[test]
fn fractional_output_size_rounds_to_nearest_physical_pixel() {
    assert_eq!(
        physical_output_size((1001, 801), 2, 150, true),
        (1251, 1001)
    );
    assert_eq!(
        physical_output_size((1001, 801), 2, 150, false),
        (2002, 1602)
    );
}

#[test]
fn redraw_interval_tracks_refresh_rate_with_safe_bounds() {
    assert_eq!(
        Duration::from_nanos(redraw_interval(60_000)),
        Duration::from_nanos(16_666_666)
    );
    assert_eq!(
        Duration::from_nanos(redraw_interval(1_000_000)),
        Duration::from_millis(4)
    );
    assert_eq!(
        Duration::from_nanos(redraw_interval(0)),
        Duration::from_millis(33)
    );
}

#[test]
fn blank_state_is_committed_once_and_rearmed_by_swapchain_recreate() {
    let mut state = BlankState::Inactive;
    assert!(state.request());
    assert!(!state.request());
    state.presented(true);
    assert_eq!(state, BlankState::Committed);
    assert!(!state.request());
    state.invalidate_swapchain();
    assert_eq!(state, BlankState::Pending);
}

#[test]
fn source_present_replaces_committed_blank() {
    let mut state = BlankState::Committed;
    state.presented(false);
    assert_eq!(state, BlankState::Inactive);
}

#[test]
fn abandoned_blank_does_not_block_the_next_source() {
    let mut state = BlankState::Pending;
    state.abandon();
    assert_eq!(state, BlankState::Inactive);
}

#[test]
fn content_transition_starts_only_after_an_earlier_target_commits() {
    let mut state = ContentPresentationState::default();
    assert!(!state.bind(10));
    assert!(!state.should_transition(true, true));
    state.mark_submitted();
    state.present_accepted();

    assert!(!state.bind(20));
    assert!(state.should_transition(true, true));
    assert!(!state.should_transition(false, true));
    assert!(!state.should_transition(true, false));
    state.mark_submitted();
    state.present_accepted();

    assert!(!state.bind(20));
    assert!(!state.should_transition(true, true));
}

#[test]
fn uncommitted_target_does_not_turn_a_fast_return_into_a_transition() {
    let mut state = ContentPresentationState::default();
    state.bind(10);
    state.mark_submitted();
    state.present_accepted();

    state.bind(20);
    assert!(state.should_transition(true, true));
    state.mark_submitted();
    assert!(state.bind(10));
    assert!(!state.should_transition(true, true));
    state.mark_submitted();
    state.present_accepted();

    state.bind(20);
    assert!(state.should_transition(true, true));
}

#[test]
fn same_content_rebind_keeps_the_committed_identity() {
    let mut state = ContentPresentationState::default();
    state.bind(33);
    state.mark_submitted();
    state.present_accepted();
    state.unbind();
    assert!(!state.bind(33));
    assert!(!state.should_transition(true, true));
}

#[test]
fn rejected_present_does_not_commit_or_suppress_the_retry_transition() {
    let mut state = ContentPresentationState::default();
    state.bind(10);
    state.mark_submitted();
    state.present_accepted();

    state.bind(20);
    assert!(state.should_transition(true, true));
    state.mark_submitted();
    state.discard_submitted();

    assert_eq!(state.committed, Some(10));
    assert!(state.should_transition(true, true));
}

#[test]
fn newer_transition_snapshot_supersedes_or_cancels_prepared_work() {
    let old = TransitionPresentation {
        shape: TransitionShape::Fade,
        duration_ns: millis(300),
    };
    let updated = TransitionPresentation {
        shape: TransitionShape::Wipe { angle: 90 },
        duration_ns: millis(600),
    };
    let mut configured = Some(old);
    let mut prepared = Some(old);
    let mut active = None;

    assert!(!update_transition_snapshot(
        &mut configured,
        &mut prepared,
        &mut active,
        Some(updated),
    ));
    assert_eq!(configured, Some(updated));
    assert_eq!(prepared, Some(updated));
    assert_eq!(
        retained_transition_sample(prepared, Some((TransitionShape::Fade, single(0.5)))),
        Some((updated.shape, single(0.0)))
    );

    assert!(update_transition_snapshot(
        &mut configured,
        &mut prepared,
        &mut active,
        None,
    ));
    assert_eq!(configured, None);
    assert_eq!(prepared, None);
}

#[test]
fn initial_blur_target_is_installed_without_animation() {
    let now = 7_000;
    let mut transition = BlurTransition::default();
    assert!(set_target(&mut transition, 30.0, now, false));
    let sample = sample(&mut transition, now);
    assert_near(value(sample.radius), 30.0);
    assert!(!sample.animating);
    assert!(!sample.finished);
}

#[test]
fn blur_transition_uses_out_cubic_and_finishes_exactly() {
    let now = 7_000;
    let mut transition = BlurTransition::default();
    assert!(set_target(&mut transition, 64.0, now, true));
    let midpoint = sample(&mut transition, now + BLUR_TRANSITION_DURATION_NS / 2);
    assert_near(value(midpoint.radius), 56.0);
    assert!(midpoint.animating);
    let endpoint = sample(&mut transition, now + BLUR_TRANSITION_DURATION_NS);
    assert_near(value(endpoint.radius), 64.0);
    assert!(!endpoint.animating);
    assert!(endpoint.finished);
}

#[test]
fn blur_transition_reverses_from_the_interpolated_value() {
    let now = 7_000;
    let midpoint = now + BLUR_TRANSITION_DURATION_NS / 2;
    let mut transition = BlurTransition::default();
    set_target(&mut transition, 64.0, now, true);
    assert!(set_target(&mut transition, 0.0, midpoint, true));
    assert_near(value(sample(&mut transition, midpoint).radius), 56.0);
    assert_near(
        value(
            sample(
                &mut transition,
                midpoint + BLUR_TRANSITION_DURATION_NS / 2,
            )
            .radius,
        ),
        7.0,
    );
}

#[test]
fn blur_takes_180_milliseconds_and_reports_its_end_once() {
    assert_eq!(BLUR_TRANSITION_DURATION_NS, millis(180));
    let mut transition = BlurTransition::default();
    set_target(&mut transition, 64.0, 0, true);
    assert!(sample(&mut transition, BLUR_TRANSITION_DURATION_NS - 1).animating);
    assert!(sample(&mut transition, BLUR_TRANSITION_DURATION_NS).finished);
    let rest = sample(&mut transition, BLUR_TRANSITION_DURATION_NS + 1);
    assert!(!rest.animating);
    assert!(!rest.finished);
    assert_near(value(rest.radius), 64.0);
    assert!(!set_target(&mut transition, 64.0, 5, true));
}

#[test]
fn blur_at_its_target_moves_no_further() {
    let mut transition = BlurTransition {
        current: single(5.0),
        target: single(64.0),
        segment: None,
    };
    assert!(set_target(&mut transition, 5.0, 1, true));
    assert_eq!(transition.segment, None);
    transition.reset();
    assert_eq!(transition, BlurTransition::default());
}

#[test]
fn pause_presentation_only_targets_radius_when_active() {
    assert_eq!(
        value(
            PausePresentation {
                configured: true,
                active: false,
                radius: 42,
            }
            .target_radius()
        ),
        0.0
    );
    assert_eq!(
        value(
            PausePresentation {
                configured: true,
                active: true,
                radius: 42,
            }
            .target_radius()
        ),
        42.0
    );
}

#[test]
fn configured_blur_keeps_the_persistent_scene_while_inactive() {
    let presentation = PausePresentation {
        configured: true,
        active: false,
        radius: 30,
    };
    let idle = BlurSample {
        radius: single(0.0),
        animating: false,
        finished: false,
    };
    assert!(needs_persistent_scene(true, presentation, &idle, false));
    assert!(!needs_persistent_scene(
        true,
        PausePresentation::default(),
        &idle,
        true
    ));
}

#[test]
fn steady_persistent_scene_does_not_redraw_for_release_polling() {
    let idle = BlurSample {
        radius: single(0.0),
        animating: false,
        finished: false,
    };
    assert!(!needs_scene_redraw(true, true, &idle, false));

    let animating = BlurSample {
        radius: single(0.0),
        animating: true,
        finished: false,
    };
    assert!(needs_scene_redraw(true, true, &animating, false));
    assert!(needs_scene_redraw(true, true, &idle, true));
}

#[test]
fn blur_mips_stop_at_six_and_clamp_each_dimension() {
    let extent = Extent2D {
        width: 3436,
        height: 1440,
    };
    assert_eq!(blur_mip_level_count(extent), 6);
    assert_eq!(
        blur_mip_extent(extent, 5),
        Extent2D {
            width: 107,
            height: 45,
        }
    );
    assert_eq!(
        blur_mip_level_count(Extent2D {
            width: 1,
            height: 3,
        }),
        2
    );
    assert_eq!(
        blur_mip_extent(
            Extent2D {
                width: 1,
                height: 3,
            },
            1,
        ),
        Extent2D {
            width: 1,
            height: 1,
        }
    );
}

#[test]
fn completed_blur_exit_keeps_the_scene_for_its_final_draw() {
    let finished = BlurSample {
        radius: single(0.0),
        animating: false,
        finished: true,
    };
    assert!(needs_persistent_scene(
        true,
        PausePresentation::default(),
        &finished,
        true
    ));
    assert!(!needs_persistent_scene(
        true,
        PausePresentation::default(),
        &finished,
        false
    ));
}

#[test]
fn active_transition_completes_after_its_duration() {
    let now = 7_000;
    let active = ActiveTransition {
        presentation: TransitionPresentation {
            shape: TransitionShape::Fade,
            duration_ns: millis(400),
        },
        started_at: now,
    };
    assert_near(eased_progress(&active, now).unwrap(), 0.0);
    assert_near(eased_progress(&active, now + millis(200)).unwrap(), 0.5);
    assert!(eased_progress(&active, now + millis(400)).is_none());
    assert_near(eased_progress(&active, 0).unwrap(), 0.0);
}

/// Where a point of the frame comes to lie on the display.
fn forward_display(transform: u32, pre_u: f32, pre_v: f32) -> [f32; 2] {
    let DisplayTransform {
        swap_axes,
        flip_x,
        flip_y,
    } = display_transform(transform);
    let (first, second) = if swap_axes {
        (pre_v, pre_u)
    } else {
        (pre_u, pre_v)
    };
    [
        if flip_x { 1.0 - first } else { first },
        if flip_y { 1.0 - second } else { second },
    ]
}

#[test]
fn every_wire_transform_has_the_expected_forward_mapping() {
    let point = [0.2, 0.7];
    let expected = [
        [0.2, 0.7],
        [0.3, 0.2],
        [0.8, 0.3],
        [0.7, 0.8],
        [0.8, 0.7],
        [0.7, 0.2],
        [0.2, 0.3],
        [0.3, 0.8],
    ];
    for (transform, expected) in expected.into_iter().enumerate() {
        assert_eq!(
            forward_display(transform as u32, point[0], point[1]),
            expected
        );
    }
    assert_eq!(forward_display(8, 0.2, 0.7), [0.2, 0.7]);
}

#[test]
fn visible_radii_are_those_above_epsilon() {
    assert_eq!(EPSILON_BITS, f32::EPSILON.to_bits());
    assert_eq!(INFINITY_BITS, f32::INFINITY.to_bits());
    for radius in [
        0.0,
        -0.0,
        f32::EPSILON,
        f32::EPSILON * 1.5,
        1.0,
        -1.0,
        64.0,
        f32::INFINITY,
        f32::NEG_INFINITY,
        f32::NAN,
        -f32::NAN,
        f32::MIN_POSITIVE,
    ] {
        assert_eq!(single(radius).exceeds_epsilon(), radius > f32::EPSILON);
    }
}

#[test]
fn transition_configuration_is_read_by_kind() {
    let origin = (single(0.25), single(0.5));
    assert_eq!(
        transition_presentation(TransitionKind::Off, 90, origin, 300),
        None
    );
    assert_eq!(
        transition_presentation(TransitionKind::Fade, 90, origin, 300),
        Some(TransitionPresentation {
            shape: TransitionShape::Fade,
            duration_ns: millis(300)
        })
    );
    assert_eq!(
        transition_presentation(TransitionKind::Wipe, 90, origin, u32::MAX),
        Some(TransitionPresentation {
            shape: TransitionShape::Wipe { angle: 90 },
            duration_ns: millis(u64::from(u32::MAX))
        })
    );
    assert_eq!(
        transition_presentation(TransitionKind::Grow, 90, origin, 0),
        Some(TransitionPresentation {
            shape: TransitionShape::Grow { origin },
            duration_ns: 0
        })
    );
}

#[test]
fn output_size_saturates_and_takes_scales_below_one_as_one() {
    assert_eq!(
        physical_output_size((u32::MAX, 3), 2, 0, true),
        (u32::MAX, 6)
    );
    assert_eq!(physical_output_size((7, 9), -3, 0, true), (7, 9));
    assert_eq!(physical_output_size((7, 9), 5, 120, true), (7, 9));
}

#[test]
fn whole_numbers_convert_as_the_machine_converts() {
    let mut value = 1u32;
    for _ in 0..200_000 {
        value = value.wrapping_mul(1_664_525).wrapping_add(1_013_904_223);
        for shift in [0, 3, 7, 8, 12, 20] {
            assert_eq!(Single::whole(value >> shift), single((value >> shift) as f32));
        }
    }
    for value in [
        0,
        1,
        2,
        3,
        64,
        0xff_ffff,
        0x100_0000,
        0x100_0001,
        0x100_0002,
        0x100_0003,
        0x1ff_ffff,
        0xffff_ff7f,
        0xffff_ff80,
        0xffff_ffff,
    ] {
        assert_eq!(Single::whole(value), single(value as f32));
    }
}

#[test]
fn nearness_is_what_subtraction_says() {
    let agrees = |left: u32, right: u32| {
        let expected = (f32::from_bits(left) - f32::from_bits(right)).abs() <= f32::EPSILON;
        assert_eq!(
            Single { bits: left }.near(Single { bits: right }),
            expected,
            "{left:x} {right:x}"
        );
    };
    let mut left = 1u32;
    let mut right = 7u32;
    for _ in 0..200_000 {
        left = left.wrapping_mul(1_664_525).wrapping_add(1_013_904_223);
        right = right.wrapping_mul(22_695_477).wrapping_add(1);
        agrees(left, right);
        agrees(left, left);
        agrees(left, left ^ 0x8000_0000);
        for distance in [1, 2, 3, 0x80_0000, 0x100_0000, 0x180_0000] {
            agrees(left, left.wrapping_add(distance));
            agrees(left.wrapping_add(distance), left);
        }
        // Around epsilon and one, where the comparison turns.
        let small = EPSILON_BITS - 4 + (left >> 8) % 9;
        agrees(small, right >> 2);
        agrees(small, 0x8000_0000 | (right >> 2));
        agrees(0x3f7f_fff0 + (left >> 8) % 32, 0x3f7f_fff0 + (right >> 8) % 32);
        agrees(small, 0x2880_0000 - 4 + (right >> 8) % 9);
        agrees(small, 0x2800_0000 - 4 + (right >> 8) % 9);
    }
    for exponent in 0..255u32 {
        for other in 0..255u32 {
            for (digits, other_digits) in [(0, 0), (0, 0x7f_ffff), (0x7f_ffff, 0), (1, 0)] {
                agrees(exponent << 23 | digits, other << 23 | other_digits);
                agrees(exponent << 23 | digits, 0x8000_0000 | other << 23 | other_digits);
            }
        }
    }
    for odd in [
        f32::INFINITY,
        f32::NEG_INFINITY,
        f32::NAN,
        f32::MAX,
        f32::MIN,
        0.0,
        -0.0,
        f32::MIN_POSITIVE,
    ] {
        for other in [f32::INFINITY, f32::NAN, f32::MAX, f32::MIN, 0.0, -0.0, 1.0] {
            agrees(odd.to_bits(), other.to_bits());
        }
    }
}

#[test]
fn blur_target_is_set_without_a_jump() {
    let now = 5_000;
    let midpoint = now + BLUR_TRANSITION_DURATION_NS / 2;
    let mut transition = BlurTransition::default();
    assert!(set_target(&mut transition, 64.0, now, true));
    assert_eq!(sample(&mut transition, now).radius, single(0.0));
    let present = sample(&mut transition, midpoint).radius;
    assert!(!set_target(&mut transition, 64.0, midpoint, true));
    assert_eq!(sample(&mut transition, midpoint).radius, present);
    assert!(set_target(&mut transition, 8.0, midpoint, true));
    assert_eq!(sample(&mut transition, midpoint).radius, present);
    let end = midpoint + BLUR_TRANSITION_DURATION_NS;
    assert_eq!(sample(&mut transition, end).radius, single(8.0));

    let mut moving = BlurTransition::default();
    assert!(set_target(&mut moving, 1.0, now, true));
    let almost = single(1.0 - f32::EPSILON);
    moving.current = almost;
    moving.segment = None;
    moving.target = single(0.0);
    assert!(set_target(&mut moving, 1.0, midpoint, true));
    assert_eq!(moving.segment, None);
    let reached = sample(&mut moving, midpoint).radius;
    assert_eq!(reached, single(1.0));
    assert!(reached.near(almost));
}

#[test]
fn movement_is_at_first_at_its_start() {
    let mut seed = 1u32;
    for _ in 0..100_000 {
        seed = seed.wrapping_mul(1_664_525).wrapping_add(1_013_904_223);
        let from = Single {
            bits: seed % INFINITY_BITS,
        };
        seed = seed.wrapping_mul(1_664_525).wrapping_add(1_013_904_223);
        let target = Single {
            bits: seed % INFINITY_BITS,
        };
        let segment = BlurSegment {
            from,
            target,
            started_at: 9,
        };
        assert_eq!(single(interpolate(segment, 0)), from);
        let transition = BlurTransition {
            current: from,
            target,
            segment: Some(segment),
        };
        assert_eq!(transition.value_at(9, single(-1.0)), from);
        assert_eq!(transition.value_at(10, single(3.0)), single(3.0));
    }
}
