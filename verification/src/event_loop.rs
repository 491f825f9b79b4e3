//! The order of work in the event loop.

use crate::poll::{reports, PollLayout, READ_EVENTS};
use vstd::prelude::*;

verus! {

/// What the event loop does, in its order.
#[derive(Clone, Copy, Debug, PartialEq, Eq, Structural)]
pub enum LoopPhase {
    /// Take in the events of the compositor that were read.
    Dispatch,
    /// Take in what the window watcher says.
    DrainCommands,
    /// Close the sessions that are given up.
    RetireSessions,
    /// Start the sessions that are due.
    StartSessions,
    /// Present the surfaces that are due.
    PumpPresenters,
    /// Send the requests to the compositor.
    Flush,
    /// Announce to read from the compositor.
    PrepareRead,
    /// Wait for events.
    Poll,
    /// Handle the events.
    HandleEvents,
}

/// What a phase came to.
#[derive(Clone, Copy, Debug, PartialEq, Eq, Structural)]
pub enum LoopReply {
    Done,
    /// Nothing came of it: start over.
    StartOver,
    Failed,
}

/// What follows a phase.
#[derive(Clone, Copy, Debug, PartialEq, Eq, Structural)]
pub enum LoopStep {
    Go(LoopPhase),
    /// The loop ends in the failure of this phase.
    Fail(LoopPhase),
}

/// What the reported events ask for.
#[derive(Debug)]
pub struct PollPlan {
    /// Read from the compositor; else the announcement to read is withdrawn.
    pub read_compositor: bool,
    pub drain_commands: bool,
    /// The sessions with events, by their place among the sessions.
    pub sessions: Vec<(usize, i16)>,
}

/// The phase after one that is done.
pub open spec fn phase_after(phase: LoopPhase) -> LoopPhase {
    match phase {
        LoopPhase::Dispatch => LoopPhase::DrainCommands,
        LoopPhase::DrainCommands => LoopPhase::RetireSessions,
        LoopPhase::RetireSessions => LoopPhase::StartSessions,
        LoopPhase::StartSessions => LoopPhase::PumpPresenters,
        LoopPhase::PumpPresenters => LoopPhase::Flush,
        LoopPhase::Flush => LoopPhase::PrepareRead,
        LoopPhase::PrepareRead => LoopPhase::Poll,
        LoopPhase::Poll => LoopPhase::HandleEvents,
        LoopPhase::HandleEvents => LoopPhase::Dispatch,
    }
}

/// What follows a phase of the event loop.
pub fn next_phase(phase: LoopPhase, reply: LoopReply) -> (step: LoopStep)
    ensures
        step == (match reply {
            LoopReply::Done => LoopStep::Go(phase_after(phase)),
            LoopReply::StartOver => LoopStep::Go(LoopPhase::Dispatch),
            LoopReply::Failed => LoopStep::Fail(phase),
        }),
{
    match reply {
        LoopReply::Done => LoopStep::Go(
            match phase {
                LoopPhase::Dispatch => LoopPhase::DrainCommands,
                LoopPhase::DrainCommands => LoopPhase::RetireSessions,
                LoopPhase::RetireSessions => LoopPhase::StartSessions,
                LoopPhase::StartSessions => LoopPhase::PumpPresenters,
                LoopPhase::PumpPresenters => LoopPhase::Flush,
                LoopPhase::Flush => LoopPhase::PrepareRead,
                LoopPhase::PrepareRead => LoopPhase::Poll,
                LoopPhase::Poll => LoopPhase::HandleEvents,
                LoopPhase::HandleEvents => LoopPhase::Dispatch,
            },
        ),
        LoopReply::StartOver => LoopStep::Go(LoopPhase::Dispatch),
        LoopReply::Failed => LoopStep::Fail(phase),
    }
}

/// The sessions with events among the first `count`, by their place.
pub open spec fn sessions_with_events(revents: Seq<i16>, start: int, count: nat) -> Seq<
    (usize, i16),
>
    decreases count,
{
    if count == 0 {
        seq![]
    } else {
        let earlier = sessions_with_events(revents, start, (count - 1) as nat);
        let events = revents[start + count - 1];
        if events != 0 {
            earlier.push(((count - 1) as usize, events))
        } else {
            earlier
        }
    }
}

/// What the reported events ask for.
pub fn poll_plan(layout: &PollLayout, revents: &[i16]) -> (plan: PollPlan)
    requires
        1 <= layout.display_start <= revents@.len(),
        layout.watcher is Some ==> layout.watcher->0 < revents@.len(),
    ensures
        plan.read_compositor == (revents@[0] & READ_EVENTS != 0),
        plan.drain_commands == (layout.watcher is Some && revents@[layout.watcher->0 as int]
            & READ_EVENTS != 0),
        plan.sessions@ == sessions_with_events(
            revents@,
            layout.display_start as int,
            (revents@.len() - layout.display_start) as nat,
        ),
{
    let drain_commands: bool = match layout.watcher {
        Some(index) => reports(revents[index], READ_EVENTS),
        None => false,
    };
    let mut sessions: Vec<(usize, i16)> = Vec::new();
    let size: usize = revents.len();
    let count: usize = size - layout.display_start;
    for index in 0..count
        invariant
            size == revents@.len(),
            layout.display_start <= size,
            count == size - layout.display_start,
            sessions@ == sessions_with_events(
                revents@,
                layout.display_start as int,
                index as nat,
            ),
    {
        let events: i16 = revents[layout.display_start + index];
        if events != 0 {
            sessions.push((index, events));
        }
    }
    PollPlan { read_compositor: reports(revents[0], READ_EVENTS), drain_commands, sessions }
}

/// How far a round of the event loop has come.
pub open spec fn place_in_round(phase: LoopPhase) -> nat {
    match phase {
        LoopPhase::Dispatch => 0,
        LoopPhase::DrainCommands => 1,
        LoopPhase::RetireSessions => 2,
        LoopPhase::StartSessions => 3,
        LoopPhase::PumpPresenters => 4,
        LoopPhase::Flush => 5,
        LoopPhase::PrepareRead => 6,
        LoopPhase::Poll => 7,
        LoopPhase::HandleEvents => 8,
    }
}

/// A round of the event loop does everything once, in order: what came in before what
/// follows from it, what is to be sent before waiting, and waiting last. Nothing is
/// left out, a phase that fails ends the loop with that phase, and starting over takes
/// in what came.
pub proof fn rounds_leave_nothing_out(phase: LoopPhase, reply: LoopReply, step: LoopStep)
    requires
        call_ensures(next_phase, (phase, reply), step),
    ensures
        reply is Done ==> (step matches LoopStep::Go(next) && (place_in_round(next)
            == place_in_round(phase) + 1 || (phase is HandleEvents && place_in_round(next) == 0))),
        reply is StartOver ==> step == LoopStep::Go(LoopPhase::Dispatch),
        reply is Failed ==> step == LoopStep::Fail(phase),
{
}

proof fn sessions_are_listed_in_order(revents: Seq<i16>, start: int, count: nat)
    requires
        0 <= start,
        start + count <= revents.len(),
        count <= usize::MAX,
    ensures
        ({
            let listed = sessions_with_events(revents, start, count);
            &&& forall|at: int|
                0 <= at < listed.len() ==> {
                    let (place, events) = #[trigger] listed[at];
                    &&& place < count
                    &&& events == revents[start + place]
                    &&& events != 0
                }
            &&& forall|left: int, right: int|
                0 <= left < right < listed.len() ==> (#[trigger] listed[left]).0 < (
                #[trigger] listed[right]).0
            &&& forall|place: int|
                0 <= place < count && #[trigger] revents[start + place] != 0 ==> exists|at: int|
                    0 <= at < listed.len() && (#[trigger] listed[at]).0 == place
        }),
    decreases count,
{
    if count > 0 {
        let less = (count - 1) as nat;
        sessions_are_listed_in_order(revents, start, less);
        let earlier = sessions_with_events(revents, start, less);
        let listed = sessions_with_events(revents, start, count);
        assert forall|place: int|
            0 <= place < count && #[trigger] revents[start + place] != 0 implies exists|at: int|
            0 <= at < listed.len() && (#[trigger] listed[at]).0 == place by {
            if place == count - 1 {
                assert(listed[listed.len() - 1].0 == place);
            } else {
                let at = choose|at: int|
                    0 <= at < earlier.len() && (#[trigger] earlier[at]).0 == place;
                assert(listed[at] == earlier[at]);
            }
        }
    }
}

/// Every event is handled where it belongs. Each session that has events is handled
/// once, with its own events, in the order of the sessions, and no other one is. The
/// compositor is read and the watcher drained exactly where something was reported for
/// them.
pub proof fn events_go_where_they_belong(layout: PollLayout, revents: &[i16], plan: PollPlan)
    requires
        call_ensures(poll_plan, (&layout, revents), plan),
        1 <= layout.display_start <= revents@.len(),
        layout.watcher is Some ==> layout.watcher->0 < revents@.len(),
    ensures
        forall|at: int|
            0 <= at < plan.sessions@.len() ==> {
                let (place, events) = #[trigger] plan.sessions@[at];
                &&& layout.display_start + place < revents@.len()
                &&& events == revents@[layout.display_start + place]
                &&& events != 0
            },
        forall|left: int, right: int|
            0 <= left < right < plan.sessions@.len() ==> (#[trigger] plan.sessions@[left]).0 < (
            #[trigger] plan.sessions@[right]).0,
        forall|place: int|
            0 <= place < revents@.len() - layout.display_start && #[trigger] revents@[
                layout.display_start + place] != 0 ==> exists|at: int|
                0 <= at < plan.sessions@.len() && (#[trigger] plan.sessions@[at]).0 == place,
        plan.read_compositor <==> (revents@[0] & 0x001 != 0 || revents@[0] & 0x008 != 0 || revents@[
            0] & 0x010 != 0),
        layout.watcher is None ==> !plan.drain_commands,
        layout.watcher matches Some(index) ==> (plan.drain_commands <==> (revents@[index as int]
            & 0x001 != 0 || revents@[index as int] & 0x008 != 0 || revents@[index as int] & 0x010
            != 0)),
{
    assert(revents.len() == revents@.len());
    sessions_are_listed_in_order(
        revents@,
        layout.display_start as int,
        (revents@.len() - layout.display_start) as nat,
    );
    let first: i16 = revents@[0];
    assert((first & 0x019 != 0) == (first & 0x001 != 0 || first & 0x008 != 0 || first & 0x010 != 0))
        by (bit_vector);
    if let Some(index) = layout.watcher {
        let events: i16 = revents@[index as int];
        assert((events & 0x019 != 0) == (events & 0x001 != 0 || events & 0x008 != 0 || events
            & 0x010 != 0)) by (bit_vector);
    }
}

} // verus!
