//! The session of an output with the daemon.

use crate::poll::{reports, CLOSE_EVENTS, POLLIN, POLLOUT, READ_EVENTS};
use vstd::prelude::*;

verus! {

/// Something to read and room to write.
pub const READ_WRITE_EVENTS: i16 = 0x005;

/// What a session is at.
#[derive(Clone, Copy, Debug, PartialEq, Eq, Structural)]
pub enum DisplaySessionState {
    /// Connecting; `events` is what it waits for.
    Handshake { events: i16 },
    Ready,
    /// Being given up, with or without a black frame to show first.
    Retiring { blank_required: bool },
}

/// The session of an output with the daemon.
#[derive(Clone, Copy, Debug, PartialEq, Eq, Structural)]
pub struct DisplaySession {
    pub state: DisplaySessionState,
    pub started: u64,
}

/// The codes that a step of the handshake returns.
#[derive(Clone, Copy, Debug, PartialEq, Eq, Structural)]
pub struct HandshakeCodes {
    pub done: i32,
    pub need_read: i32,
    pub need_write: i32,
    pub progress: i32,
}

/// What a step of the handshake came to.
#[derive(Clone, Copy, Debug, PartialEq, Eq, Structural)]
pub enum HandshakeReply {
    Done,
    NeedRead,
    NeedWrite,
    Progress,
    Failed(i32),
    Unexpected(i32),
}

/// What follows a step of the handshake.
#[derive(Clone, Copy, Debug, PartialEq, Eq, Structural)]
pub enum HandshakeStep {
    /// Take another step.
    Again,
    /// The daemon knows the output.
    Registered,
    /// Wait for events.
    Wait,
    Failed(i32),
    Unexpected(i32),
}

/// Why a session ends.
#[derive(Clone, Copy, Debug, PartialEq, Eq, Structural)]
pub enum SessionError {
    HandshakeFailed,
    ClosedDuringHandshake,
    WriteFailed(i32),
    DispatchFailed(i32),
    Closed,
}

/// What the end of a session asks for.
#[derive(Clone, Copy, Debug, PartialEq, Eq, Structural)]
pub enum FinishStep {
    /// Show a black frame, then close.
    FallBack,
    /// The black frame failed as well: close without it.
    GiveUpBlank,
}

/// What handling events waits for.
#[derive(Clone, Copy, Debug, PartialEq, Eq, Structural)]
pub enum EventPhase {
    Handshake,
    Write,
    Dispatch,
    Drain,
    AskWritable,
    WriteReplies,
    Finished,
}

/// What handling events remembers.
#[derive(Clone, Copy, Debug, PartialEq, Eq, Structural)]
pub struct EventCycle {
    pub revents: i16,
    pub phase: EventPhase,
}

/// What the last action came to. Return codes are negative for failures.
#[derive(Clone, Copy, Debug, PartialEq, Eq, Structural)]
pub enum EventReply {
    /// The handshake went on, or failed.
    Advanced(bool),
    Returned(i32),
    /// So many messages were drained.
    Drained(i32),
    WantsWritable(bool),
}

/// What handling events needs next.
#[derive(Clone, Copy, Debug, PartialEq, Eq, Structural)]
pub enum EventAction {
    AdvanceHandshake,
    HandleWritable,
    Dispatch,
    Drain,
    AskWritable,
    Done,
    Fail(SessionError),
}

/// Why events of an output cannot be handled.
#[derive(Clone, Copy, Debug, PartialEq, Eq, Structural)]
pub enum PollTargetError {
    OutputRemoved,
    NoBinding,
    NoSession,
}

/// What a return code of the handshake means.
pub fn classify_handshake(code: i32, codes: &HandshakeCodes) -> (reply: HandshakeReply)
    ensures
        reply == (if code == codes.done {
            HandshakeReply::Done
        } else if code == codes.need_read {
            HandshakeReply::NeedRead
        } else if code == codes.need_write {
            HandshakeReply::NeedWrite
        } else if code == codes.progress {
            HandshakeReply::Progress
        } else if code < 0 {
            HandshakeReply::Failed(code)
        } else {
            HandshakeReply::Unexpected(code)
        }),
{
    if code == codes.done {
        HandshakeReply::Done
    } else if code == codes.need_read {
        HandshakeReply::NeedRead
    } else if code == codes.need_write {
        HandshakeReply::NeedWrite
    } else if code == codes.progress {
        HandshakeReply::Progress
    } else if code < 0 {
        HandshakeReply::Failed(code)
    } else {
        HandshakeReply::Unexpected(code)
    }
}

/// Whether events of an output can be handled.
pub fn poll_target(known: bool, bound: bool, has_session: bool) -> (result: Result<
    (),
    PollTargetError,
>)
    ensures
        result == (if !known {
            Err::<(), PollTargetError>(PollTargetError::OutputRemoved)
        } else if !bound {
            Err::<(), PollTargetError>(PollTargetError::NoBinding)
        } else if !has_session {
            Err::<(), PollTargetError>(PollTargetError::NoSession)
        } else {
            Ok::<(), PollTargetError>(())
        }),
{
    if !known {
        Err(PollTargetError::OutputRemoved)
    } else if !bound {
        Err(PollTargetError::NoBinding)
    } else if !has_session {
        Err(PollTargetError::NoSession)
    } else {
        Ok(())
    }
}

impl EventCycle {
    /// Goes on to reading, where there is something to read.
    pub open spec fn at_dispatch(self) -> (EventCycle, EventAction) {
        if self.revents & READ_EVENTS != 0 {
            (EventCycle { phase: EventPhase::Dispatch, ..self }, EventAction::Dispatch)
        } else {
            self.at_end()
        }
    }

    /// Ends the handling: in a failure where the other end closed.
    pub open spec fn at_end(self) -> (EventCycle, EventAction) {
        (
            EventCycle { phase: EventPhase::Finished, ..self },
            if self.revents & CLOSE_EVENTS != 0 {
                EventAction::Fail(SessionError::Closed)
            } else {
                EventAction::Done
            },
        )
    }

    /// Ends the handling in a failure.
    pub open spec fn failed(self, error: SessionError) -> (EventCycle, EventAction) {
        (EventCycle { phase: EventPhase::Finished, ..self }, EventAction::Fail(error))
    }

    /// Whether `reply` answers what the handling waits for.
    pub open spec fn answered_by(self, reply: EventReply) -> bool {
        match self.phase {
            EventPhase::Handshake => reply is Advanced,
            EventPhase::Write | EventPhase::Dispatch | EventPhase::WriteReplies => reply
                is Returned,
            EventPhase::Drain => reply is Drained,
            EventPhase::AskWritable => reply is WantsWritable,
            EventPhase::Finished => false,
        }
    }

    /// What follows a reply, where `ready` tells whether the session is ready by
    /// then.
    pub open spec fn replied(self, reply: EventReply, ready: bool) -> (EventCycle, EventAction) {
        match reply {
            EventReply::Advanced(false) => self.failed(SessionError::HandshakeFailed),
            EventReply::Advanced(true) => if self.revents & CLOSE_EVENTS != 0 && !ready {
                self.failed(SessionError::ClosedDuringHandshake)
            } else {
                (EventCycle { phase: EventPhase::Finished, ..self }, EventAction::Done)
            },
            EventReply::Returned(code) => if self.phase is Dispatch {
                if code < 0 {
                    self.failed(SessionError::DispatchFailed(code))
                } else {
                    (EventCycle { phase: EventPhase::Drain, ..self }, EventAction::Drain)
                }
            } else if code < 0 {
                self.failed(SessionError::WriteFailed(code))
            } else if self.phase is Write {
                self.at_dispatch()
            } else {
                self.at_end()
            },
            EventReply::Drained(count) => if count > 0 {
                (self, EventAction::Drain)
            } else {
                (EventCycle { phase: EventPhase::AskWritable, ..self }, EventAction::AskWritable)
            },
            EventReply::WantsWritable(wants) => if wants {
                (
                    EventCycle { phase: EventPhase::WriteReplies, ..self },
                    EventAction::HandleWritable,
                )
            } else {
                self.at_end()
            },
        }
    }

    fn continue_at_end(self) -> (step: (EventCycle, EventAction))
        ensures
            step == self.at_end(),
    {
        let action: EventAction = if reports(self.revents, CLOSE_EVENTS) {
            EventAction::Fail(SessionError::Closed)
        } else {
            EventAction::Done
        };
        (EventCycle { phase: EventPhase::Finished, ..self }, action)
    }

    fn continue_at_dispatch(self) -> (step: (EventCycle, EventAction))
        ensures
            step == self.at_dispatch(),
    {
        if reports(self.revents, READ_EVENTS) {
            (EventCycle { phase: EventPhase::Dispatch, ..self }, EventAction::Dispatch)
        } else {
            self.continue_at_end()
        }
    }

    fn fail(self, error: SessionError) -> (step: (EventCycle, EventAction))
        ensures
            step == self.failed(error),
    {
        (EventCycle { phase: EventPhase::Finished, ..self }, EventAction::Fail(error))
    }
}

impl DisplaySession {
    /// What the session is polled for.
    pub open spec fn interest(self, wants_writable: bool) -> i16 {
        match self.state {
            DisplaySessionState::Handshake { events } => events,
            DisplaySessionState::Ready => if wants_writable {
                READ_WRITE_EVENTS
            } else {
                POLLIN
            },
            DisplaySessionState::Retiring { .. } => 0,
        }
    }

    /// The session after a failure.
    pub open spec fn finished(self) -> DisplaySession {
        DisplaySession {
            state: DisplaySessionState::Retiring { blank_required: !(self.state is Retiring) },
            ..self
        }
    }

    /// A session that has just been started.
    pub fn new(now: u64) -> (session: DisplaySession)
        ensures
            session == (DisplaySession {
                state: DisplaySessionState::Handshake { events: READ_WRITE_EVENTS },
                started: now,
            }),
    {
        DisplaySession {
            state: DisplaySessionState::Handshake { events: READ_WRITE_EVENTS },
            started: now,
        }
    }

    /// Whether the daemon knows the output.
    pub fn is_ready(&self) -> (ready: bool)
        ensures
            ready == (self.state is Ready),
    {
        matches!(self.state, DisplaySessionState::Ready)
    }

    /// Whether the session is being given up.
    pub fn is_retiring(&self) -> (retiring: bool)
        ensures
            retiring == (self.state is Retiring),
    {
        matches!(self.state, DisplaySessionState::Retiring { .. })
    }

    /// How long the session has lived.
    pub fn lived(&self, now: u64) -> (time: u64)
        ensures
            time == (if now > self.started {
                now - self.started
            } else {
                0
            }),
    {
        now.saturating_sub(self.started)
    }

    /// What the session is polled for.
    pub fn poll_events(&self, wants_writable: bool) -> (events: i16)
        ensures
            events == self.interest(wants_writable),
    {
        match self.state {
            DisplaySessionState::Handshake { events } => events,
            DisplaySessionState::Ready => {
                if wants_writable {
                    READ_WRITE_EVENTS
                } else {
                    POLLIN
                }
            },
            DisplaySessionState::Retiring { .. } => 0,
        }
    }

    /// What the file descriptor of the session is polled for; nothing where there is
    /// none or the session is being given up.
    pub fn poll_source(&self, fd: i32, wants_writable: bool) -> (events: Option<i16>)
        ensures
            events == (if self.state is Retiring || fd < 0 {
                None
            } else {
                Some(self.interest(wants_writable))
            }),
    {
        if self.is_retiring() || fd < 0 {
            None
        } else {
            Some(self.poll_events(wants_writable))
        }
    }

    /// Takes over what a step of the handshake came to.
    pub fn advance_display_handshake(&mut self, reply: HandshakeReply) -> (step: HandshakeStep)
        ensures
            step == (match reply {
                HandshakeReply::Done => HandshakeStep::Registered,
                HandshakeReply::NeedRead => HandshakeStep::Wait,
                HandshakeReply::NeedWrite => HandshakeStep::Wait,
                HandshakeReply::Progress => HandshakeStep::Again,
                HandshakeReply::Failed(code) => HandshakeStep::Failed(code),
                HandshakeReply::Unexpected(code) => HandshakeStep::Unexpected(code),
            }),
            *final(self) == (DisplaySession {
                state: match reply {
                    HandshakeReply::Done => DisplaySessionState::Ready,
                    HandshakeReply::NeedRead => DisplaySessionState::Handshake { events: POLLIN },
                    HandshakeReply::NeedWrite => DisplaySessionState::Handshake {
                        events: POLLOUT,
                    },
                    _ => old(self).state,
                },
                ..*old(self)
            }),
    {
        match reply {
            HandshakeReply::Done => {
                self.state = DisplaySessionState::Ready;
                HandshakeStep::Registered
            },
            HandshakeReply::NeedRead => {
                self.state = DisplaySessionState::Handshake { events: POLLIN };
                HandshakeStep::Wait
            },
            HandshakeReply::NeedWrite => {
                self.state = DisplaySessionState::Handshake { events: POLLOUT };
                HandshakeStep::Wait
            },
            HandshakeReply::Progress => HandshakeStep::Again,
            HandshakeReply::Failed(code) => HandshakeStep::Failed(code),
            HandshakeReply::Unexpected(code) => HandshakeStep::Unexpected(code),
        }
    }

    /// Starts to handle the events that were reported for the session.
    pub fn begin_event(&self, revents: i16) -> (step: (EventCycle, EventAction))
        ensures
            step == (if self.state !is Ready {
                (
                    EventCycle { revents, phase: EventPhase::Handshake },
                    EventAction::AdvanceHandshake,
                )
            } else if revents & POLLOUT != 0 {
                (EventCycle { revents, phase: EventPhase::Write }, EventAction::HandleWritable)
            } else {
                (EventCycle { revents, phase: EventPhase::Write }).at_dispatch()
            }),
    {
        let cycle = EventCycle { revents, phase: EventPhase::Write };
        if !self.is_ready() {
            return (
                EventCycle { revents, phase: EventPhase::Handshake },
                EventAction::AdvanceHandshake,
            );
        }
        if reports(revents, POLLOUT) {
            (cycle, EventAction::HandleWritable)
        } else {
            cycle.continue_at_dispatch()
        }
    }

    /// Goes on handling events: what can be written is written first, then all that
    /// arrived is taken in, and the replies to it are written at once.
    pub fn process_display_event(&self, cycle: EventCycle, reply: EventReply) -> (step: (
        EventCycle,
        EventAction,
    ))
        requires
            cycle.answered_by(reply),
        ensures
            step == cycle.replied(reply, self.state is Ready),
    {
        match reply {
            EventReply::Advanced(done) => {
                if !done {
                    cycle.fail(SessionError::HandshakeFailed)
                } else if reports(cycle.revents, CLOSE_EVENTS) && !self.is_ready() {
                    cycle.fail(SessionError::ClosedDuringHandshake)
                } else {
                    (EventCycle { phase: EventPhase::Finished, ..cycle }, EventAction::Done)
                }
            },
            EventReply::Returned(code) => {
                if cycle.phase == EventPhase::Dispatch {
                    if code < 0 {
                        cycle.fail(SessionError::DispatchFailed(code))
                    } else {
                        (EventCycle { phase: EventPhase::Drain, ..cycle }, EventAction::Drain)
                    }
                } else if code < 0 {
                    cycle.fail(SessionError::WriteFailed(code))
                } else if cycle.phase == EventPhase::Write {
                    cycle.continue_at_dispatch()
                } else {
                    cycle.continue_at_end()
                }
            },
            EventReply::Drained(count) => {
                if count > 0 {
                    (cycle, EventAction::Drain)
                } else {
                    (
                        EventCycle { phase: EventPhase::AskWritable, ..cycle },
                        EventAction::AskWritable,
                    )
                }
            },
            EventReply::WantsWritable(wants) => {
                if wants {
                    (
                        EventCycle { phase: EventPhase::WriteReplies, ..cycle },
                        EventAction::HandleWritable,
                    )
                } else {
                    cycle.continue_at_end()
                }
            },
        }
    }

    /// Starts to give the session up. The first failure asks for a black frame; a
    /// failure while that is due asks for nothing more.
    pub fn finish(&mut self) -> (step: FinishStep)
        ensures
            step == (if old(self).state is Retiring {
                FinishStep::GiveUpBlank
            } else {
                FinishStep::FallBack
            }),
            *final(self) == old(self).finished(),
    {
        if self.is_retiring() {
            self.state = DisplaySessionState::Retiring { blank_required: false };
            FinishStep::GiveUpBlank
        } else {
            self.state = DisplaySessionState::Retiring { blank_required: true };
            FinishStep::FallBack
        }
    }

    /// Whether the frames have to be looked at to close the session: it is being
    /// given up, and a black frame that is due was shown.
    pub fn may_close(&self, blank_committed: bool) -> (may: bool)
        ensures
            may == (match self.state {
                DisplaySessionState::Retiring { blank_required } => !blank_required
                    || blank_committed,
                _ => false,
            }),
    {
        match self.state {
            DisplaySessionState::Retiring { blank_required } => !blank_required || blank_committed,
            _ => false,
        }
    }
}

/// Whether a session that may be closed is closed now: `idle` tells whether the
/// frames are idle, and none that it cannot be told.
pub fn closes_now(idle: Option<bool>) -> (closes: bool)
    ensures
        closes == (idle != Some(false)),
{
    match idle {
        Some(state) => state,
        None => true,
    }
}

/// A session that failed is not used again: it is polled for nothing and never
/// ready. The first failure asks for a black frame, a second one gives up on it.
pub proof fn failed_session_only_waits_to_close(session: DisplaySession, wants_writable: bool)
    ensures
        session.finished().interest(wants_writable) == 0,
        session.finished().state !is Ready,
        session.state !is Retiring ==> session.finished().state == (DisplaySessionState::Retiring {
            blank_required: true,
        }),
        session.finished().finished().state == (DisplaySessionState::Retiring {
            blank_required: false,
        }),
{
}

/// A handshake waits for what the daemon needs next: the session is polled for reading
/// or for writing, whichever that is, and for nothing else. When it is done the session
/// is ready; a failure keeps its code; progress goes on at once.
pub proof fn handshake_waits_for_what_is_needed(
    code: i32,
    codes: HandshakeCodes,
    reply: HandshakeReply,
    session: &mut DisplaySession,
    step: HandshakeStep,
    wants_writable: bool,
    events: i16,
    ready: bool,
)
    requires
        call_ensures(classify_handshake, (code, &codes), reply),
        call_ensures(DisplaySession::advance_display_handshake, (session, reply), step),
        call_ensures(DisplaySession::poll_events, (&*final(session), wants_writable), events),
        call_ensures(DisplaySession::is_ready, (&*final(session),), ready),
        codes.done != codes.need_read,
        codes.done != codes.need_write,
        codes.done != codes.progress,
        codes.need_read != codes.need_write,
        codes.need_read != codes.progress,
        codes.need_write != codes.progress,
    ensures
        code == codes.done ==> step is Registered && ready,
        code == codes.need_read ==> step is Wait && !ready && events == 0x001,
        code == codes.need_write ==> step is Wait && !ready && events == 0x004,
        code == codes.progress ==> step is Again && *final(session) == *old(session),
        code != codes.done && code != codes.need_read && code != codes.need_write && code
            != codes.progress ==> *final(session) == *old(session) && (code < 0 ==> step
            == HandshakeStep::Failed(code)) && (code >= 0 ==> step == HandshakeStep::Unexpected(
            code,
        )),
        final(session).started == old(session).started,
{
}

/// A ready session always listens, and asks to write exactly where there is something
/// to write; one that is given up, or has no descriptor, is not polled.
pub proof fn ready_session_listens(
    session: DisplaySession,
    fd: i32,
    wants_writable: bool,
    events: Option<i16>,
)
    requires
        call_ensures(DisplaySession::poll_source, (&session, fd, wants_writable), events),
    ensures
        session.state is Retiring || fd < 0 <==> events is None,
        session.state is Ready && fd >= 0 ==> (events matches Some(mask) && mask & 0x001 != 0 && (
        mask & 0x004 != 0 <==> wants_writable)),
        session.state matches DisplaySessionState::Handshake { events: waited } ==> (fd >= 0
            ==> events == Some(waited)),
{
    assert(0x005i16 & 0x001 != 0 && 0x005i16 & 0x004 != 0) by (bit_vector);
    assert(0x001i16 & 0x001 != 0 && 0x001i16 & 0x004 == 0) by (bit_vector);
}

/// A new session starts with its handshake, listening and writing, and has not lived.
pub proof fn new_session_starts_with_its_handshake(
    now: u64,
    session: DisplaySession,
    ready: bool,
    retiring: bool,
    later: u64,
    lived: u64,
    wants_writable: bool,
    events: i16,
)
    requires
        call_ensures(DisplaySession::new, (now,), session),
        call_ensures(DisplaySession::is_ready, (&session,), ready),
        call_ensures(DisplaySession::is_retiring, (&session,), retiring),
        call_ensures(DisplaySession::lived, (&session, later), lived),
        call_ensures(DisplaySession::poll_events, (&session, wants_writable), events),
    ensures
        !ready,
        !retiring,
        events == 0x005,
        later >= now ==> lived == later - now,
        later < now ==> lived == 0,
{
}

/// The events of a session are handled in one order: while it is not ready they go to
/// the handshake; else what can be written is written, and what can be read is read. A
/// session whose other end closed is not left as if nothing had happened.
pub proof fn events_of_a_session_are_handled(
    session: DisplaySession,
    revents: i16,
    step: (EventCycle, EventAction),
)
    requires
        call_ensures(DisplaySession::begin_event, (&session, revents), step),
    ensures
        ({
            let readable = revents & 0x001 != 0 || revents & 0x008 != 0 || revents & 0x010 != 0;
            let writable = revents & 0x004 != 0;
            let closed = revents & 0x008 != 0 || revents & 0x010 != 0 || revents & 0x020 != 0;
            &&& step.0.revents == revents
            &&& session.state !is Ready <==> step.1 is AdvanceHandshake
            &&& session.state is Ready && writable ==> step.1 is HandleWritable && step.0.phase
                is Write
            &&& session.state is Ready && !writable && readable ==> step.1 is Dispatch
                && step.0.phase is Dispatch
            &&& session.state is Ready && !writable && !readable && closed ==> step.1
                == EventAction::Fail(SessionError::Closed)
            &&& session.state is Ready && !writable && !readable && !closed ==> step.1 is Done
        }),
{
    masks_are_made_of_events(revents);
}

proof fn masks_are_made_of_events(revents: i16)
    ensures
        (revents & READ_EVENTS != 0) == (revents & 0x001 != 0 || revents & 0x008 != 0 || revents
            & 0x010 != 0),
        (revents & CLOSE_EVENTS != 0) == (revents & 0x008 != 0 || revents & 0x010 != 0 || revents
            & 0x020 != 0),
{
    assert((revents & 0x019 != 0) == (revents & 0x001 != 0 || revents & 0x008 != 0 || revents
        & 0x010 != 0)) by (bit_vector);
    assert((revents & 0x038 != 0) == (revents & 0x008 != 0 || revents & 0x010 != 0 || revents
        & 0x020 != 0)) by (bit_vector);
}

/// Handling the events of a session goes on to its end. What was read is taken in until
/// nothing is left, and the replies to it are written before the session is left. A
/// failure keeps its code. An end that closed fails the session, once everything that
/// it still sent was taken in.
pub proof fn events_are_handled_to_the_end(
    session: DisplaySession,
    cycle: EventCycle,
    reply: EventReply,
    step: (EventCycle, EventAction),
)
    requires
        call_ensures(DisplaySession::process_display_event, (&session, cycle, reply), step),
        match cycle.phase {
            EventPhase::Handshake => reply is Advanced,
            EventPhase::Write | EventPhase::Dispatch | EventPhase::WriteReplies => reply
                is Returned,
            EventPhase::Drain => reply is Drained,
            EventPhase::AskWritable => reply is WantsWritable,
            EventPhase::Finished => false,
        },
    ensures
        ({
            let readable = cycle.revents & 0x001 != 0 || cycle.revents & 0x008 != 0 || cycle.revents
                & 0x010 != 0;
            let closed = cycle.revents & 0x008 != 0 || cycle.revents & 0x010 != 0 || cycle.revents
                & 0x020 != 0;
            &&& step.0.revents == cycle.revents
            &&& step.1 is Done || step.1 is Fail <==> step.0.phase is Finished
            &&& step.1 is Done && cycle.phase !is Handshake ==> !closed
            &&& step.1 == EventAction::Fail(SessionError::Closed) ==> closed
            &&& match reply {
                EventReply::Advanced(done) => {
                    &&& !done ==> step.1 == EventAction::Fail(SessionError::HandshakeFailed)
                    &&& done && closed && session.state !is Ready ==> step.1 == EventAction::Fail(
                        SessionError::ClosedDuringHandshake,
                    )
                    &&& done && (!closed || session.state is Ready) ==> step.1 is Done
                },
                EventReply::Returned(code) => {
                    &&& code < 0 && cycle.phase is Dispatch ==> step.1 == EventAction::Fail(
                        SessionError::DispatchFailed(code),
                    )
                    &&& code < 0 && cycle.phase !is Dispatch ==> step.1 == EventAction::Fail(
                        SessionError::WriteFailed(code),
                    )
                    &&& code >= 0 && cycle.phase is Dispatch ==> step.1 is Drain && step.0.phase
                        is Drain
                    &&& code >= 0 && cycle.phase is Write && readable ==> step.1 is Dispatch
                    &&& code >= 0 && cycle.phase is Write && !readable && !closed ==> step.1 is Done
                    &&& code >= 0 && cycle.phase is WriteReplies && !closed ==> step.1 is Done
                },
                EventReply::Drained(count) => {
                    &&& count > 0 ==> step.1 is Drain && step.0 == cycle
                    &&& count <= 0 ==> step.1 is AskWritable && step.0.phase is AskWritable
                },
                EventReply::WantsWritable(wants) => {
                    &&& wants ==> step.1 is HandleWritable && step.0.phase is WriteReplies
                    &&& !wants && !closed ==> step.1 is Done
                    &&& !wants && closed ==> step.1 == EventAction::Fail(SessionError::Closed)
                },
            }
        }),
{
    masks_are_made_of_events(cycle.revents);
}

/// A session is closed only after it was given up, and after the black frame that its
/// first failure asks for was shown; a second failure waives that frame. It is closed
/// when the frames are idle, or when that cannot be told.
pub proof fn session_closes_after_its_black_frame(
    failing: &mut DisplaySession,
    first: FinishStep,
    again: &mut DisplaySession,
    second: FinishStep,
    blank_committed: bool,
    may: bool,
    may_after: bool,
    may_before: bool,
    idle: Option<bool>,
    closes: bool,
)
    requires
        old(failing).state !is Retiring,
        call_ensures(DisplaySession::finish, (failing,), first),
        *old(again) == *final(failing),
        call_ensures(DisplaySession::finish, (again,), second),
        call_ensures(DisplaySession::may_close, (&*final(failing), blank_committed), may),
        call_ensures(DisplaySession::may_close, (&*final(again), false), may_after),
        call_ensures(DisplaySession::may_close, (&*old(failing), blank_committed), may_before),
        call_ensures(closes_now, (idle,), closes),
    ensures
        first is FallBack,
        second is GiveUpBlank,
        final(failing).state is Retiring,
        final(again).state is Retiring,
        may == blank_committed,
        may_after,
        !may_before,
        closes <==> idle is None || idle == Some(true),
        final(failing).started == old(failing).started,
{
    if let Some(state) = idle {
        assert(state || idle == Some(false));
    }
}

/// Events are handled for an output that is known, is presented to and has a session;
/// what is missing first is what is told.
pub proof fn events_need_a_session(
    known: bool,
    bound: bool,
    has_session: bool,
    result: Result<(), PollTargetError>,
)
    requires
        call_ensures(poll_target, (known, bound, has_session), result),
    ensures
        result is Ok <==> known && bound && has_session,
        result is Err && known ==> result->Err_0 !is OutputRemoved,
        result is Err && !known ==> result->Err_0 is OutputRemoved,
        result is Err && known && !bound ==> result->Err_0 is NoBinding,
        result is Err && known && bound ==> result->Err_0 is NoSession,
{
}

} // verus!
