//! Waiting for events on several file descriptors.

use vstd::prelude::*;

verus! {

/// There is data to read.
pub const POLLIN: i16 = 0x001;

/// There is room to write.
pub const POLLOUT: i16 = 0x004;

/// The other end failed.
pub const POLLERR: i16 = 0x008;

/// The other end closed.
pub const POLLHUP: i16 = 0x010;

/// There is no such file descriptor.
pub const POLLNVAL: i16 = 0x020;

/// Something to read, or a failure that reading reports.
pub const READ_EVENTS: i16 = 0x019;

/// The file descriptor is of no more use.
pub const CLOSE_EVENTS: i16 = 0x038;

/// Where the file descriptors stand: that of the compositor first, that of the
/// window watcher next if there is one, and those of the sessions from
/// `display_start` on.
#[derive(Clone, Copy, Debug, PartialEq, Eq, Structural)]
pub struct PollLayout {
    pub watcher: Option<usize>,
    pub display_start: usize,
}

/// What waiting for events came to.
#[derive(Clone, Copy, Debug, PartialEq, Eq, Structural)]
pub enum PollOutcome {
    /// Look at the events.
    Events,
    /// Wait again.
    Interrupted,
    Failed,
}

impl PollLayout {
    /// The layout with or without a window watcher.
    pub fn new(has_watcher: bool) -> (layout: PollLayout)
        ensures
            layout == (if has_watcher {
                PollLayout { watcher: Some(1), display_start: 2 }
            } else {
                PollLayout { watcher: None, display_start: 1 }
            }),
    {
        if has_watcher {
            PollLayout { watcher: Some(1), display_start: 2 }
        } else {
            PollLayout { watcher: None, display_start: 1 }
        }
    }
}

/// Whether any of the events in `mask` is reported.
pub fn reports(revents: i16, mask: i16) -> (any: bool)
    ensures
        any == (revents & mask != 0),
{
    revents & mask != 0
}

/// What follows from the value that waiting returned, negative for a failure.
pub fn poll_outcome(result: i32, interrupted: bool) -> (outcome: PollOutcome)
    ensures
        outcome == (if result >= 0 {
            PollOutcome::Events
        } else if interrupted {
            PollOutcome::Interrupted
        } else {
            PollOutcome::Failed
        }),
{
    if result < 0 {
        if interrupted {
            PollOutcome::Interrupted
        } else {
            PollOutcome::Failed
        }
    } else {
        PollOutcome::Events
    }
}

/// Something to read is reported by data and by every failure that reading tells of, and
/// by nothing else; the end of a file descriptor by every failure, and never by data.
pub proof fn events_are_what_they_stand_for(revents: i16, reads: bool, closes: bool)
    requires
        call_ensures(reports, (revents, READ_EVENTS), reads),
        call_ensures(reports, (revents, CLOSE_EVENTS), closes),
    ensures
        reads <==> (revents & POLLIN != 0 || revents & POLLERR != 0 || revents & POLLHUP != 0),
        closes <==> (revents & POLLERR != 0 || revents & POLLHUP != 0 || revents & POLLNVAL != 0),
{
    assert((revents & 0x019 != 0) == (revents & 0x001 != 0 || revents & 0x008 != 0 || revents
        & 0x010 != 0)) by (bit_vector);
    assert((revents & 0x038 != 0) == (revents & 0x008 != 0 || revents & 0x010 != 0 || revents
        & 0x020 != 0)) by (bit_vector);
}

/// Every file descriptor has a place of its own: the compositor first, the window
/// watcher next where there is one, and the sessions after them, with no gap.
pub proof fn places_do_not_overlap(has_watcher: bool, layout: PollLayout)
    requires
        call_ensures(PollLayout::new, (has_watcher,), layout),
    ensures
        layout.watcher is Some <==> has_watcher,
        layout.watcher matches Some(place) ==> 0 < place < layout.display_start,
        layout.display_start == 1 + if has_watcher {
            1int
        } else {
            0int
        },
{
}

/// Waiting that was interrupted is no failure, and waiting that ended in time is never
/// taken for one.
pub proof fn interrupted_waiting_goes_on(result: i32, interrupted: bool, outcome: PollOutcome)
    requires
        call_ensures(poll_outcome, (result, interrupted), outcome),
    ensures
        outcome is Events <==> result >= 0,
        outcome is Failed <==> result < 0 && !interrupted,
        outcome is Interrupted <==> result < 0 && interrupted,
{
}

} // verus!
