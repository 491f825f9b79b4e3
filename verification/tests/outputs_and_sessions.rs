use waywallen_layer_shell::blank::BlankState;
use waywallen_layer_shell::effects::{PausePresentation, TransitionPresentation, TransitionShape};
use waywallen_layer_shell::event_loop::{
    next_phase, poll_plan, LoopPhase, LoopReply, LoopStep,
};
use waywallen_layer_shell::geometry::Extent2D;
use waywallen_layer_shell::output::{
    binding_is_usable, frame_ready, ArrivalStep, BindStep, OutputBinding, OutputEntry,
    OutputRelease, PresentationCaps, StartAction, StartError, StartPhase, StartReply,
    SurfaceCreation,
};
use waywallen_layer_shell::poll::{
    poll_outcome, reports, PollLayout, PollOutcome, CLOSE_EVENTS, POLLERR, POLLHUP, POLLIN,
    POLLNVAL, POLLOUT, READ_EVENTS,
};
use waywallen_layer_shell::presenter::WsiPresenter;
use waywallen_layer_shell::rebuild::{RebuildAction, RebuildCycle, RebuildError, RebuildOutput};
use waywallen_layer_shell::render::PresentResult;
use waywallen_layer_shell::schedule::{
    ms_to_us, poll_timeout_ms, OutputSchedule, Reconnect, INITIAL_RECONNECT_DELAY_NS,
    MAX_RECONNECT_DELAY_NS, STABLE_SESSION_NS,
};
use waywallen_layer_shell::session::{
    classify_handshake, closes_now, poll_target, DisplaySession, DisplaySessionState, EventAction,
    EventReply, FinishStep, HandshakeCodes, HandshakeReply, HandshakeStep, PollTargetError,
    SessionError, READ_WRITE_EVENTS,
};
use waywallen_layer_shell::single::Single;

const SECOND: u64 = 1_000_000_000;

fn binding() -> OutputBinding {
    let mut entry = OutputEntry::new(0);
    entry.set_name("DP-1".to_string());
    let mut presenter = WsiPresenter::new(5);
    presenter.add_frame(1);
    OutputBinding::make_output_binding("output", &entry, 3, presenter, (800, 600))
}

fn ready(started: u64) -> DisplaySession {
    DisplaySession {
        state: DisplaySessionState::Ready,
        started,
    }
}

#[test]
fn poll_events_are_those_of_the_system() {
    assert_eq!(POLLIN, libc::POLLIN);
    assert_eq!(POLLOUT, libc::POLLOUT);
    assert_eq!(POLLERR, libc::POLLERR);
    assert_eq!(POLLHUP, libc::POLLHUP);
    assert_eq!(POLLNVAL, libc::POLLNVAL);
    assert_eq!(READ_EVENTS, POLLIN | POLLERR | POLLHUP);
    assert_eq!(CLOSE_EVENTS, POLLERR | POLLHUP | POLLNVAL);
    assert_eq!(READ_WRITE_EVENTS, POLLIN | POLLOUT);
    assert!(reports(POLLHUP, READ_EVENTS));
    assert!(!reports(POLLOUT, READ_EVENTS));
    assert!(!reports(POLLNVAL, READ_EVENTS));
    assert!(!reports(POLLIN, CLOSE_EVENTS));
}

#[test]
fn poll_is_laid_out_and_read_back() {
    assert_eq!(
        PollLayout::new(true),
        PollLayout {
            watcher: Some(1),
            display_start: 2
        }
    );
    assert_eq!(
        PollLayout::new(false),
        PollLayout {
            watcher: None,
            display_start: 1
        }
    );
    assert_eq!(poll_outcome(0, true), PollOutcome::Events);
    assert_eq!(poll_outcome(-1, true), PollOutcome::Interrupted);
    assert_eq!(poll_outcome(-1, false), PollOutcome::Failed);
    let plan = poll_plan(&PollLayout::new(true), &[POLLIN, POLLOUT, 0, POLLIN, POLLNVAL]);
    assert!(plan.read_compositor);
    assert!(!plan.drain_commands);
    assert_eq!(plan.sessions, vec![(1, POLLIN), (2, POLLNVAL)]);
    let plan = poll_plan(&PollLayout::new(true), &[0, POLLHUP]);
    assert!(!plan.read_compositor);
    assert!(plan.drain_commands);
    assert!(plan.sessions.is_empty());
    let plan = poll_plan(&PollLayout::new(false), &[POLLERR, POLLIN]);
    assert!(plan.read_compositor);
    assert!(!plan.drain_commands);
    assert_eq!(plan.sessions, vec![(0, POLLIN)]);
}

#[test]
fn event_loop_goes_round() {
    let mut phase = LoopPhase::Dispatch;
    let mut seen = Vec::new();
    for _ in 0..9 {
        seen.push(phase);
        match next_phase(phase, LoopReply::Done) {
            LoopStep::Go(next) => phase = next,
            other => panic!("{other:?}"),
        }
    }
    assert_eq!(phase, LoopPhase::Dispatch);
    assert_eq!(
        seen,
        vec![
            LoopPhase::Dispatch,
            LoopPhase::DrainCommands,
            LoopPhase::RetireSessions,
            LoopPhase::StartSessions,
            LoopPhase::PumpPresenters,
            LoopPhase::Flush,
            LoopPhase::PrepareRead,
            LoopPhase::Poll,
            LoopPhase::HandleEvents
        ]
    );
    assert_eq!(
        next_phase(LoopPhase::PrepareRead, LoopReply::StartOver),
        LoopStep::Go(LoopPhase::Dispatch)
    );
    assert_eq!(
        next_phase(LoopPhase::Flush, LoopReply::Failed),
        LoopStep::Fail(LoopPhase::Flush)
    );
}

#[test]
fn milliseconds_become_microseconds() {
    assert_eq!(ms_to_us(0), 0);
    assert_eq!(ms_to_us(u32::MAX), 4_294_967_295_000);
}

#[test]
fn reconnects_back_off_until_a_session_is_stable() {
    assert_eq!(INITIAL_RECONNECT_DELAY_NS, 2 * SECOND);
    assert_eq!(MAX_RECONNECT_DELAY_NS, 30 * SECOND);
    assert_eq!(STABLE_SESSION_NS, 20 * SECOND);
    let mut reconnect = Reconnect::now(7);
    assert!(reconnect.is_due(7));
    assert!(!reconnect.is_due(6));
    let mut delays = Vec::new();
    for _ in 0..6 {
        reconnect.schedule(100, 0);
        delays.push((reconnect.at - 100) / SECOND);
    }
    assert_eq!(delays, vec![2, 4, 8, 16, 30, 30]);
    reconnect.schedule(100, 20 * SECOND);
    assert_eq!(reconnect.at, 100 + 2 * SECOND);
    assert_eq!(reconnect.delay, 4 * SECOND);
}

#[test]
fn poll_waits_for_what_is_due_first() {
    let idle = OutputSchedule {
        retiring: false,
        pending_present: false,
        next_redraw: None,
        awaits_session: false,
        reconnect_at: 0,
    };
    assert_eq!(poll_timeout_ms(&[], 5), 500);
    assert_eq!(poll_timeout_ms(&[idle], 5), 500);
    assert_eq!(
        poll_timeout_ms(
            &[
                idle,
                OutputSchedule {
                    pending_present: true,
                    ..idle
                }
            ],
            5
        ),
        8
    );
    assert_eq!(
        poll_timeout_ms(
            &[OutputSchedule {
                retiring: true,
                ..idle
            }],
            5
        ),
        8
    );
    let redraw = |at| OutputSchedule {
        next_redraw: Some(at),
        ..idle
    };
    let reconnect = |at| OutputSchedule {
        awaits_session: true,
        reconnect_at: at,
        ..idle
    };
    assert_eq!(poll_timeout_ms(&[redraw(16_666_666)], 0), 16);
    assert_eq!(poll_timeout_ms(&[redraw(16_666_666)], 16_666_665), 1);
    assert_eq!(poll_timeout_ms(&[redraw(16_666_666)], 16_666_666), 0);
    assert_eq!(
        poll_timeout_ms(&[redraw(50_000_000), reconnect(20_000_000)], 0),
        20
    );
    assert_eq!(poll_timeout_ms(&[reconnect(9 * SECOND)], 0), 500);
}

#[test]
fn handshake_codes_are_told_apart() {
    let codes = HandshakeCodes {
        done: 0,
        need_read: 1,
        need_write: 2,
        progress: 3,
    };
    assert_eq!(classify_handshake(0, &codes), HandshakeReply::Done);
    assert_eq!(classify_handshake(1, &codes), HandshakeReply::NeedRead);
    assert_eq!(classify_handshake(2, &codes), HandshakeReply::NeedWrite);
    assert_eq!(classify_handshake(3, &codes), HandshakeReply::Progress);
    assert_eq!(classify_handshake(-5, &codes), HandshakeReply::Failed(-5));
    assert_eq!(
        classify_handshake(4, &codes),
        HandshakeReply::Unexpected(4)
    );
    let mut session = DisplaySession::new(9);
    assert_eq!(session.poll_events(false), READ_WRITE_EVENTS);
    assert_eq!(
        session.advance_display_handshake(HandshakeReply::Progress),
        HandshakeStep::Again
    );
    assert_eq!(
        session.advance_display_handshake(HandshakeReply::NeedRead),
        HandshakeStep::Wait
    );
    assert_eq!(session.poll_events(true), POLLIN);
    assert_eq!(
        session.advance_display_handshake(HandshakeReply::NeedWrite),
        HandshakeStep::Wait
    );
    assert_eq!(session.poll_source(4, true), Some(POLLOUT));
    assert_eq!(
        session.advance_display_handshake(HandshakeReply::Failed(-1)),
        HandshakeStep::Failed(-1)
    );
    assert_eq!(
        session.advance_display_handshake(HandshakeReply::Unexpected(9)),
        HandshakeStep::Unexpected(9)
    );
    assert!(!session.is_ready());
    assert_eq!(
        session.advance_display_handshake(HandshakeReply::Done),
        HandshakeStep::Registered
    );
    assert!(session.is_ready());
    assert_eq!(session.poll_events(false), POLLIN);
    assert_eq!(session.poll_events(true), READ_WRITE_EVENTS);
    assert_eq!(session.poll_source(-1, true), None);
    assert_eq!(session.lived(10), 1);
    assert_eq!(session.lived(3), 0);
}

#[test]
fn events_are_written_read_and_answered() {
    let session = ready(0);
    let (cycle, action) = session.begin_event(POLLIN | POLLOUT);
    assert_eq!(action, EventAction::HandleWritable);
    let (cycle, action) = session.process_display_event(cycle, EventReply::Returned(0));
    assert_eq!(action, EventAction::Dispatch);
    let (cycle, action) = session.process_display_event(cycle, EventReply::Returned(1));
    assert_eq!(action, EventAction::Drain);
    let (cycle, action) = session.process_display_event(cycle, EventReply::Drained(2));
    assert_eq!(action, EventAction::Drain);
    let (cycle, action) = session.process_display_event(cycle, EventReply::Drained(0));
    assert_eq!(action, EventAction::AskWritable);
    let (cycle, action) = session.process_display_event(cycle, EventReply::WantsWritable(true));
    assert_eq!(action, EventAction::HandleWritable);
    let (_, action) = session.process_display_event(cycle, EventReply::Returned(0));
    assert_eq!(action, EventAction::Done);

    let (cycle, _) = session.begin_event(POLLOUT);
    let (_, action) = session.process_display_event(cycle, EventReply::Returned(-3));
    assert_eq!(action, EventAction::Fail(SessionError::WriteFailed(-3)));
    let (cycle, action) = session.begin_event(POLLHUP);
    assert_eq!(action, EventAction::Dispatch);
    let (_, action) = session.process_display_event(cycle, EventReply::Returned(-4));
    assert_eq!(action, EventAction::Fail(SessionError::DispatchFailed(-4)));
    let (cycle, _) = session.process_display_event(cycle, EventReply::Returned(0));
    let (cycle, _) = session.process_display_event(cycle, EventReply::Drained(-1));
    let (_, action) = session.process_display_event(cycle, EventReply::WantsWritable(false));
    assert_eq!(action, EventAction::Fail(SessionError::Closed));
    let (_, action) = session.begin_event(POLLNVAL);
    assert_eq!(action, EventAction::Fail(SessionError::Closed));
    let (_, action) = session.begin_event(0);
    assert_eq!(action, EventAction::Done);
}

#[test]
fn closing_during_the_handshake_fails_unless_it_got_ready() {
    let mut session = DisplaySession::new(0);
    let (cycle, action) = session.begin_event(POLLHUP);
    assert_eq!(action, EventAction::AdvanceHandshake);
    let (_, action) = session.process_display_event(cycle, EventReply::Advanced(false));
    assert_eq!(action, EventAction::Fail(SessionError::HandshakeFailed));
    let (_, action) = session.process_display_event(cycle, EventReply::Advanced(true));
    assert_eq!(
        action,
        EventAction::Fail(SessionError::ClosedDuringHandshake)
    );
    session.advance_display_handshake(HandshakeReply::Done);
    let (_, action) = session.process_display_event(cycle, EventReply::Advanced(true));
    assert_eq!(action, EventAction::Done);
    assert_eq!(
        poll_target(false, false, false),
        Err(PollTargetError::OutputRemoved)
    );
    assert_eq!(
        poll_target(true, false, false),
        Err(PollTargetError::NoBinding)
    );
    assert_eq!(
        poll_target(true, true, false),
        Err(PollTargetError::NoSession)
    );
    assert_eq!(poll_target(true, true, true), Ok(()));
}

#[test]
fn failed_session_waits_for_black_and_a_second_failure_drops_it() {
    let mut session = ready(0);
    assert_eq!(session.finish(), FinishStep::FallBack);
    assert!(session.is_retiring());
    assert!(!session.may_close(false));
    assert!(session.may_close(true));
    assert_eq!(session.poll_events(true), 0);
    assert_eq!(session.poll_source(4, true), None);
    assert_eq!(session.finish(), FinishStep::GiveUpBlank);
    assert!(session.may_close(false));
    assert!(!ready(0).may_close(true));
    assert!(closes_now(Some(true)));
    assert!(closes_now(None));
    assert!(!closes_now(Some(false)));
}

#[test]
fn session_starts_step_by_step() {
    let mut output = binding();
    let start = |output: &mut OutputBinding, phase, reply| output.start_display_session(phase, reply);
    assert_eq!(
        start(&mut output, StartPhase::Create, StartReply::Created(false)),
        (
            StartPhase::Finished,
            StartAction::Fail(StartError::CreateFailed)
        )
    );
    assert!(!output.connected);
    let (phase, action) = start(&mut output, StartPhase::Create, StartReply::Created(true));
    assert_eq!(action, StartAction::BindDevice);
    assert!(output.connected);
    let (phase, action) = start(&mut output, phase, StartReply::Returned(0));
    assert_eq!(
        action,
        StartAction::SetCaps(PresentationCaps {
            pause_blur: true,
            transitions: true
        })
    );
    let (phase, action) = start(&mut output, phase, StartReply::Returned(0));
    assert_eq!(action, StartAction::SetWindowState);
    let (phase, action) = start(&mut output, phase, StartReply::Returned(0));
    assert_eq!(
        action,
        StartAction::Connect {
            width: 800,
            height: 600,
            refresh_mhz: 60_000
        }
    );
    let (phase, action) = start(&mut output, phase, StartReply::Returned(0));
    assert_eq!(action, StartAction::AdvanceHandshake);
    let (phase, action) = start(&mut output, phase, StartReply::Advanced(true));
    assert_eq!(action, StartAction::QueryDescriptor);
    let (_, action) = start(&mut output, phase, StartReply::Descriptor(3));
    assert_eq!(action, StartAction::Started);
    assert!(output.connected);
    for (phase, reply, error) in [
        (
            StartPhase::BindDevice,
            StartReply::Returned(-1),
            StartError::BindDeviceFailed(-1),
        ),
        (
            StartPhase::SetCaps,
            StartReply::Returned(-2),
            StartError::SetCapsFailed(-2),
        ),
        (
            StartPhase::SetWindowState,
            StartReply::Returned(-3),
            StartError::SetWindowStateFailed(-3),
        ),
        (
            StartPhase::Connect,
            StartReply::Returned(-4),
            StartError::ConnectFailed(-4),
        ),
        (
            StartPhase::Handshake,
            StartReply::Advanced(false),
            StartError::HandshakeFailed,
        ),
        (
            StartPhase::Descriptor,
            StartReply::Descriptor(-1),
            StartError::NoDescriptor,
        ),
    ] {
        output.connected = true;
        assert_eq!(
            start(&mut output, phase, reply),
            (StartPhase::Finished, StartAction::Abandon(error))
        );
        assert!(!output.connected);
    }
}

#[test]
fn metrics_are_pushed_when_they_change() {
    let mut output = binding();
    assert_eq!(output.push_resize_if_registered((800, 600)), None);
    output.connected = true;
    output.register();
    assert_eq!(output.last_pushed_metrics, Some((800, 600, 60_000)));
    assert_eq!(output.push_resize_if_registered((800, 600)), None);
    assert_eq!(
        output.push_resize_if_registered((801, 600)),
        Some((801, 600, 60_000))
    );
    output.metrics_pushed((801, 600, 60_000));
    assert_eq!(output.push_resize_if_registered((801, 600)), None);
    assert_eq!(output.apply_refresh(144_000), Some((800, 600)));
    assert_eq!(
        output.push_resize_if_registered((801, 600)),
        Some((801, 600, 144_000))
    );
    output.disconnected();
    assert_eq!(output.push_resize_if_registered((801, 600)), None);
}

#[test]
fn scales_change_the_size_of_the_surface() {
    let mut output = binding();
    assert_eq!(output.apply_scale(2, 0, None), None);
    assert_eq!(output.scale, 2);
    assert_eq!(output.apply_scale(0, 0, Some((10, 20))), Some((10, 20)));
    assert_eq!(output.scale, 1);
    assert_eq!(output.apply_scale(3, 0, Some((10, 20))), Some((30, 60)));
    assert_eq!(output.configured_size, Some((30, 60)));
    assert_eq!(
        output.presenter.recreate_extent,
        Some(Extent2D {
            width: 30,
            height: 60
        })
    );
    assert_eq!(output.apply_scale(3, 150, Some((10, 20))), None);
    assert_eq!(output.apply_preferred_scale(180, 1, true, None), None);
    assert_eq!(output.fractional_scale_120, 180);
    assert_eq!(
        output.apply_preferred_scale(180, 1, true, Some((10, 20))),
        Some((15, 30))
    );
    assert_eq!(
        output.apply_preferred_scale(180, 1, true, Some((10, 20))),
        None
    );
    assert_eq!(
        output.apply_preferred_scale(180, 4, false, Some((10, 20))),
        Some((40, 80))
    );
    output.apply_configure(2, 0, (70, 80));
    assert_eq!(output.configured_size, Some((70, 80)));
    assert_eq!((output.scale, output.fractional_scale_120), (2, 0));
}

#[test]
fn presenting_is_scheduled_by_its_result() {
    let mut output = binding();
    assert!(!output.present_due(0));
    output.request_present();
    assert!(output.present_due(0));
    output.present_finished(PresentResult::Presented { redraw: true }, 1_000);
    assert!(!output.pending_present);
    assert_eq!(output.next_redraw, Some(1_000 + 16_666_666));
    assert!(!output.present_due(16_667_665));
    assert!(output.present_due(16_667_666));
    output.present_finished(PresentResult::Pending, 2_000);
    assert!(output.pending_present);
    assert_eq!(output.next_redraw, None);
    output.present_finished(PresentResult::Presented { redraw: false }, 3_000);
    assert!(!output.present_due(u64::MAX));
    output.request_present();
    output.present_failed();
    assert!(!output.present_due(u64::MAX));
}

#[test]
fn snapshots_ask_for_a_present_when_something_changes() {
    let mut output = binding();
    let pause = PausePresentation {
        configured: true,
        active: true,
        radius: 30,
    };
    let still = Single { bits: 0 };
    let fade = TransitionPresentation {
        shape: TransitionShape::Fade,
        duration_ns: 5,
    };
    assert!(output.apply_snapshot(4, pause, Some(fade), 0, still));
    assert!(output.pending_present);
    assert_eq!(output.presenter.presentation_config_generation, 4);
    output.present_failed();
    assert!(!output.apply_snapshot(5, pause, Some(fade), 0, still));
    assert!(!output.pending_present);
    output.presenter.prepared_transition = Some(fade);
    assert!(output.apply_snapshot(6, pause, None, 0, still));
    assert_eq!(output.presenter.prepared_transition, None);
    assert!(output.apply_state(false, 0, still));
    assert!(!output.presenter.pause_presentation.active);
    assert!(!output.apply_state(false, 0, still));
    assert!(!output.apply_snapshot(0, pause, Some(fade), 0, still));
    assert!(!output.pending_present);
    assert_eq!(output.presenter.presentation_config_generation, 0);
}

#[test]
fn failed_session_falls_back_to_black() {
    let mut output = binding();
    output.connected = true;
    output.register();
    let (release, newly) = output.fall_back_to_black();
    assert_eq!(release, None);
    assert!(newly);
    assert!(!output.registered);
    assert!(output.pending_present);
    assert_eq!(output.presenter.blank_state, BlankState::Pending);
    output.give_up_blank();
    assert!(!output.pending_present);
    assert_eq!(output.presenter.blank_state, BlankState::Inactive);
    output.presenter.blank_state = BlankState::Committed;
    let (_, newly) = output.fall_back_to_black();
    assert!(!newly);
    assert!(!output.pending_present);
    output.shutdown_display_session();
    assert_eq!(output.last_pushed_metrics, None);
    assert_eq!(output.presenter.blank_state, BlankState::Committed);
}

#[test]
fn binding_is_named_after_its_output() {
    let output = binding();
    assert_eq!(output.display_name(), "DP-1");
    assert!(output.instance_id.starts_with("layer-"));
    assert!(binding_is_usable(true, 1, true));
    assert!(!binding_is_usable(false, 1, true));
    assert!(!binding_is_usable(true, 0, true));
    assert!(!binding_is_usable(true, 1, false));
}

#[test]
fn arriving_frames_are_turned_away_or_presented() {
    assert_eq!(frame_ready(false, true, None, None), ArrivalStep::Ignore);
    assert_eq!(frame_ready(true, false, None, None), ArrivalStep::Discard);
    assert_eq!(frame_ready(true, true, None, None), ArrivalStep::Resolve);
    assert_eq!(
        frame_ready(true, true, Some(false), None),
        ArrivalStep::Discard
    );
    assert_eq!(
        frame_ready(true, true, Some(true), None),
        ArrivalStep::Replace
    );
    assert_eq!(
        frame_ready(true, true, Some(true), Some(false)),
        ArrivalStep::Discard
    );
    assert_eq!(
        frame_ready(true, true, Some(true), Some(true)),
        ArrivalStep::Present
    );
}

#[test]
fn output_learns_what_the_compositor_tells() {
    let mut entry = OutputEntry::new(3);
    assert_eq!(entry.reconnect.at, 3);
    assert_eq!(entry.set_scale(0), 1);
    assert_eq!(entry.set_scale(2), 2);
    entry.set_description("big".to_string());
    entry.set_geometry("make".to_string(), "model".to_string());
    assert_eq!(entry.set_mode(false, 144_000), None);
    assert_eq!(entry.set_mode(true, 0), None);
    assert_eq!(entry.refresh_mhz, 60_000);
    assert_eq!(entry.set_mode(true, 144_000), Some(144_000));
    assert_eq!(entry.refresh_mhz, 144_000);
    let told = entry.metadata();
    assert_eq!(told.name, None);
    assert_eq!(told.description, Some("big"));
    assert_eq!(told.make, Some("make"));
    assert_eq!(told.model, Some("model"));
}

#[test]
fn surface_is_brought_up_configured_and_closed() {
    let mut entry = OutputEntry::new(0);
    assert!(entry.wants_surface(true, true));
    assert!(!entry.wants_surface(false, true));
    assert!(!entry.wants_surface(true, false));
    assert!(!entry.bring_up_surface(true, true, SurfaceCreation::NoRuntime));
    assert!(!entry.wants_surface(true, true));
    assert_eq!(entry.bind_step(false), BindStep::NoRuntime);
    assert_eq!(entry.bind_step(true), BindStep::NoSurface);
    assert!(entry.bring_up_surface(true, true, SurfaceCreation::Refused));
    assert!(!entry.bring_up_surface(true, true, SurfaceCreation::Created(9)));
    entry.set_scale(2);
    let (size, update) = entry.configure(100, 50);
    assert_eq!(size, (200, 100));
    assert_eq!(update.buffer_scale, Some(2));
    assert_eq!(update.destination, Some((-1, -1)));
    entry.set_preferred_scale(150);
    let (size, update) = entry.configure(101, 50);
    assert_eq!(size, (126, 63));
    assert_eq!(update.buffer_scale, Some(1));
    assert_eq!(update.destination, Some((101, 50)));
    let update = entry.preferred_scale_update((40, 30));
    assert_eq!(update.buffer_scale, Some(1));
    assert_eq!(update.destination, Some((40, 30)));
    assert_eq!(
        entry.bind_step(true),
        BindStep::CreatePresenter { surface: 9 }
    );
    entry.set_bound();
    entry.set_configured_size(size);
    assert_eq!(entry.bind_step(true), BindStep::AlreadyBound);
    entry.begin_session(ready(0));
    assert_eq!(
        entry.close_surface(),
        OutputRelease {
            unregister: true,
            destroy_surface: None,
            shut_session: true
        }
    );
    assert!(!entry.bound && !entry.has_surface && entry.session.is_none());
    assert_eq!(entry.fractional_scale_120, 0);
    let (_, update) = entry.configure(1, 1);
    assert_eq!(update.buffer_scale, None);
    assert_eq!(update.destination, None);
    let update = entry.preferred_scale_update((1, 1));
    assert_eq!(update.buffer_scale, None);
    entry.vk_surface = Some(4);
    assert_eq!(
        entry.removal(),
        OutputRelease {
            unregister: false,
            destroy_surface: Some(4),
            shut_session: false
        }
    );
    entry.close_surface();
    assert_eq!(entry.vk_surface, None);
}

#[test]
fn sessions_are_due_while_bound() {
    let mut entry = OutputEntry::new(10);
    assert!(!entry.session_due(10));
    entry.set_bound();
    assert!(!entry.session_due(9));
    assert!(entry.session_due(10));
    assert!(!entry.takes_window_state());
    entry.begin_session(DisplaySession::new(10));
    assert!(!entry.session_due(10));
    assert!(entry.takes_window_state());
    assert!(!entry.takes_pointer());
    entry.session = Some(ready(10));
    assert!(entry.takes_pointer());
    let schedule = entry.schedule(true, Some(5));
    assert!(schedule.pending_present && !schedule.retiring && !schedule.awaits_session);
    assert_eq!(schedule.next_redraw, Some(5));
    if let Some(session) = entry.session.as_mut() {
        session.finish();
    }
    assert!(!entry.takes_window_state());
    assert!(entry.schedule(false, None).retiring);
    assert!(entry.end_session(11).is_some());
    assert_eq!(entry.reconnect.at, 11 + 2 * SECOND);
    assert!(entry.end_session(12).is_none());
    entry.schedule_reconnect(20);
    assert_eq!(entry.reconnect.at, 20 + 4 * SECOND);
    assert!(entry.schedule(false, None).awaits_session);
    entry.bound = false;
    let schedule = entry.schedule(true, Some(5));
    assert!(!schedule.pending_present && schedule.next_redraw.is_none());
}

#[test]
fn outputs_move_to_another_device_together() {
    let outputs = vec![
        RebuildOutput {
            name: 1,
            configured_size: None,
        },
        RebuildOutput {
            name: 2,
            configured_size: Some((8, 9)),
        },
        RebuildOutput {
            name: 3,
            configured_size: Some((6, 7)),
        },
    ];
    let (mut cycle, action) =
        RebuildCycle::begin(outputs.clone(), vec![(3, 33), (2, 22), (1, 11), (4, 44)]);
    assert!(matches!(
        action,
        RebuildAction::CreatePresenter {
            output: 2,
            surface: 22,
            size: (8, 9)
        }
    ));
    let action = cycle.rebuild_vulkan_runtime(true);
    assert!(matches!(
        action,
        RebuildAction::CreatePresenter {
            output: 3,
            surface: 33,
            size: (6, 7)
        }
    ));
    assert!(matches!(
        cycle.rebuild_vulkan_runtime(true),
        RebuildAction::Commit
    ));
    assert_eq!(cycle.at, 3);
    assert!(cycle.has_presenter(2) && cycle.has_presenter(3) && !cycle.has_presenter(1));
    assert_eq!(cycle.take_surface(1), Some(11));
    assert_eq!(cycle.take_surface(1), None);
    assert_eq!(cycle.leftover(), vec![44]);

    let (mut cycle, _) = RebuildCycle::begin(outputs.clone(), vec![(3, 33), (2, 22), (1, 11)]);
    match cycle.rebuild_vulkan_runtime(false) {
        RebuildAction::Abort { destroy, error } => {
            assert_eq!(destroy, vec![33, 11]);
            assert_eq!(error, RebuildError::PresenterFailed { output: 2 });
        }
        other => panic!("{other:?}"),
    }
    let (cycle, action) = RebuildCycle::begin(outputs, vec![(1, 11)]);
    assert_eq!(cycle.at, 1);
    match action {
        RebuildAction::Abort { destroy, error } => {
            assert_eq!(destroy, vec![11]);
            assert_eq!(error, RebuildError::MissingSurface { output: 2 });
        }
        other => panic!("{other:?}"),
    }
    let mut entry = OutputEntry::new(0);
    entry.set_bound();
    entry.vk_surface = Some(4);
    entry.begin_session(ready(0));
    assert_eq!(
        entry.release_for_rebuild(),
        OutputRelease {
            unregister: true,
            destroy_surface: Some(4),
            shut_session: true
        }
    );
    assert!(!entry.bound && entry.session.is_none() && entry.vk_surface.is_none());
    entry.adopt_rebuilt(false, Some(6), 50);
    assert_eq!(entry.vk_surface, Some(6));
    entry.adopt_rebuilt(true, None, 50);
    assert!(entry.bound);
    assert_eq!(entry.reconnect.at, 50);
}
