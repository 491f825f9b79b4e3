//! The black frame that replaces a wallpaper whose producer is gone.

use vstd::prelude::*;

verus! {

/// How far the black fallback frame of a surface has come.
#[derive(Clone, Copy, Debug, PartialEq, Eq, Structural)]
pub enum BlankState {
    /// No black frame is wanted.
    Inactive,
    /// A black frame has to be drawn.
    Pending,
    /// The compositor has accepted a black frame.
    Committed,
}

impl BlankState {
    /// The state after a black frame was asked for.
    pub open spec fn requested(self) -> BlankState {
        if self is Inactive {
            BlankState::Pending
        } else {
            self
        }
    }

    /// The state after the compositor accepted a frame.
    pub open spec fn after_present(blank: bool) -> BlankState {
        if blank {
            BlankState::Committed
        } else {
            BlankState::Inactive
        }
    }

    /// The state after the images that held the frame were replaced.
    pub open spec fn after_invalidation(self) -> BlankState {
        if self is Committed {
            BlankState::Pending
        } else {
            self
        }
    }

    /// Asks for a black frame. Returns whether this call is what made it wanted.
    pub fn request(&mut self) -> (newly: bool)
        ensures
            newly == (*old(self) is Inactive),
            *final(self) == old(self).requested(),
    {
        if *self != BlankState::Inactive {
            return false;
        }
        *self = BlankState::Pending;
        true
    }

    /// Records that the compositor accepted a frame, black or not.
    pub fn presented(&mut self, blank: bool)
        ensures
            *final(self) == BlankState::after_present(blank),
    {
        *self = if blank {
            BlankState::Committed
        } else {
            BlankState::Inactive
        };
    }

    /// Records that the swapchain images are gone: an accepted black frame has to
    /// be drawn again.
    pub fn invalidate_swapchain(&mut self)
        ensures
            *final(self) == old(self).after_invalidation(),
    {
        if *self == BlankState::Committed {
            *self = BlankState::Pending;
        }
    }

    /// Gives up on the black frame.
    pub fn abandon(&mut self)
        ensures
            *final(self) is Inactive,
    {
        *self = BlankState::Inactive;
    }
}

/// A black frame is drawn once per request: asking again changes nothing, before
/// and after it was accepted, and only a lost swapchain makes it pending again.
pub proof fn blank_is_committed_once(state: BlankState)
    ensures
        state.requested().requested() == state.requested(),
        BlankState::after_present(true).requested() == BlankState::Committed,
        BlankState::after_present(true).after_invalidation() == BlankState::Pending,
        state.after_invalidation() is Pending ==> state is Pending || state is Committed,
        state.after_invalidation() !is Committed,
{
}

/// A black frame that is asked for is drawn until it is accepted: a request makes it due
/// unless it is on screen already, only an accepted black frame settles it, and an
/// accepted frame of another kind takes it off the screen.
pub proof fn requested_black_is_due_until_accepted(
    asked: &mut BlankState,
    newly: bool,
    shown: &mut BlankState,
    blank: bool,
    lost: &mut BlankState,
    given_up: &mut BlankState,
)
    requires
        call_ensures(BlankState::request, (asked,), newly),
        call_ensures(BlankState::presented, (shown, blank), ()),
        call_ensures(BlankState::invalidate_swapchain, (lost,), ()),
        call_ensures(BlankState::abandon, (given_up,), ()),
    ensures
        newly <==> *old(asked) is Inactive,
        *old(asked) is Committed ==> *final(asked) is Committed,
        *old(asked) !is Committed ==> *final(asked) is Pending,
        *final(shown) is Committed <==> blank,
        *final(shown) !is Pending,
        *old(lost) is Committed ==> *final(lost) is Pending,
        *old(lost) !is Committed ==> *final(lost) == *old(lost),
        *final(given_up) is Inactive,
{
}

} // verus!
