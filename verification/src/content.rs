//! Which wallpaper content a surface shows, and which one is on its way.

use vstd::prelude::*;

verus! {

/// Content tokens on their way to the screen: the one the producer is bound to,
/// the one handed to the queue, and the one the compositor accepted last.
#[derive(Clone, Copy, Debug, PartialEq, Eq, Structural)]
pub struct ContentPresentationState {
    pub bound: Option<u64>,
    pub submitted: Option<u64>,
    pub committed: Option<u64>,
}

impl Default for ContentPresentationState {
    fn default() -> (state: Self)
        ensures
            state == ContentPresentationState::initial(),
    {
        ContentPresentationState { bound: None, submitted: None, committed: None }
    }
}

impl ContentPresentationState {
    /// Nothing bound, submitted or shown.
    pub open spec fn initial() -> ContentPresentationState {
        ContentPresentationState { bound: None, submitted: None, committed: None }
    }

    /// Whether binding `token` goes back to what is on screen while other content
    /// is still on its way.
    pub open spec fn cancels(self, token: u64) -> bool {
        &&& self.committed == Some(token)
        &&& self.submitted is Some
        &&& self.submitted != Some(token)
    }

    /// The state after the producer was bound to `token`.
    pub open spec fn bound_to(self, token: u64) -> ContentPresentationState {
        ContentPresentationState {
            bound: Some(token),
            submitted: if self.cancels(token) {
                None
            } else {
                self.submitted
            },
            committed: self.committed,
        }
    }

    /// Whether the next frame starts an animated change of content.
    pub open spec fn transitions(self, configured: bool, retained_scene_valid: bool) -> bool {
        &&& configured
        &&& retained_scene_valid
        &&& self.bound is Some
        &&& self.committed is Some
        &&& self.bound != self.committed
        &&& self.submitted != self.bound
    }

    /// The state after the bound content was handed to the queue.
    pub open spec fn after_submit(self) -> ContentPresentationState {
        ContentPresentationState { submitted: self.bound, ..self }
    }

    /// The state after the submitted content was dropped.
    pub open spec fn after_discard(self) -> ContentPresentationState {
        ContentPresentationState { submitted: None, ..self }
    }

    /// The state after the compositor accepted what was submitted.
    pub open spec fn after_accept(self) -> ContentPresentationState {
        if self.submitted is Some {
            ContentPresentationState { committed: self.submitted, submitted: None, ..self }
        } else {
            self
        }
    }

    /// Binds the producer to the content `token`. Returns whether that takes back
    /// content which was submitted and never accepted.
    pub fn bind(&mut self, token: u64) -> (cancels: bool)
        requires
            token != 0,
        ensures
            cancels == old(self).cancels(token),
            *final(self) == old(self).bound_to(token),
    {
        self.bound = Some(token);
        let on_screen: bool = match self.committed {
            Some(committed) => committed == token,
            None => false,
        };
        let other_submitted: bool = match self.submitted {
            Some(submitted) => submitted != token,
            None => false,
        };
        let cancels_uncommitted: bool = on_screen && other_submitted;
        if cancels_uncommitted {
            self.submitted = None;
        }
        cancels_uncommitted
    }

    /// Forgets the bound content; what is on screen stays known.
    pub fn unbind(&mut self)
        ensures
            *final(self) == (ContentPresentationState { bound: None, ..*old(self) }),
    {
        self.bound = None;
    }

    /// Whether the next frame starts an animated change of content.
    pub fn should_transition(&self, configured: bool, retained_scene_valid: bool) -> (start: bool)
        ensures
            start == self.transitions(configured, retained_scene_valid),
    {
        if !configured || !retained_scene_valid {
            return false;
        }
        match (self.bound, self.committed) {
            (Some(bound), Some(committed)) => {
                let resubmitted: bool = match self.submitted {
                    Some(submitted) => submitted == bound,
                    None => false,
                };
                bound != committed && !resubmitted
            },
            _ => false,
        }
    }

    /// Records that a frame of the bound content was handed to the queue.
    pub fn mark_submitted(&mut self)
        ensures
            *final(self) == old(self).after_submit(),
    {
        self.submitted = self.bound;
    }

    /// Records that the submitted frame will not be shown.
    pub fn discard_submitted(&mut self)
        ensures
            *final(self) == old(self).after_discard(),
    {
        self.submitted = None;
    }

    /// Whether submitted content waits to be accepted.
    pub fn has_submitted(&self) -> (submitted: bool)
        ensures
            submitted == (self.submitted is Some),
    {
        self.submitted.is_some()
    }

    /// Records that the compositor accepted the submitted frame.
    pub fn present_accepted(&mut self)
        ensures
            *final(self) == old(self).after_accept(),
    {
        if let Some(token) = self.submitted {
            self.submitted = None;
            self.committed = Some(token);
        }
    }

    /// Forgets everything.
    pub fn reset(&mut self)
        ensures
            *final(self) == ContentPresentationState::initial(),
    {
        *self = ContentPresentationState { bound: None, submitted: None, committed: None };
    }
}

/// A change of content is animated only from content that was once accepted to
/// different content, and at most once per submission.
pub proof fn transition_needs_committed_content(
    state: ContentPresentationState,
    configured: bool,
    retained_scene_valid: bool,
)
    requires
        state.transitions(configured, retained_scene_valid),
    ensures
        state.committed is Some,
        state.bound is Some,
        state.bound != state.committed,
        !state.after_submit().transitions(configured, retained_scene_valid),
{
}

/// Going back to the content on screen before its replacement was accepted is no
/// change of content: nothing is animated and the replacement is forgotten.
pub proof fn fast_return_does_not_transition(
    state: ContentPresentationState,
    token: u64,
    configured: bool,
    retained_scene_valid: bool,
)
    requires
        state.committed == Some(token),
    ensures
        !state.bound_to(token).transitions(configured, retained_scene_valid),
        state.bound_to(token).committed == Some(token),
        state.bound_to(token).submitted is Some ==> state.bound_to(token).submitted == Some(token),
        state.bound_to(token).after_submit().after_accept().committed == Some(token),
{
}

/// A frame that is never accepted changes neither what counts as on screen nor
/// whether the next attempt is animated.
pub proof fn rejected_present_can_be_retried(
    state: ContentPresentationState,
    configured: bool,
    retained_scene_valid: bool,
)
    requires
        state.submitted is None,
    ensures
        state.after_submit().after_discard() == state,
        state.after_submit().after_discard().transitions(configured, retained_scene_valid)
            == state.transitions(configured, retained_scene_valid),
{
}

/// Only an accepted frame changes what counts as on screen, and only to the
/// content that was submitted.
pub proof fn only_accepting_commits(state: ContentPresentationState, token: u64)
    ensures
        state.bound_to(token).committed == state.committed,
        state.after_submit().committed == state.committed,
        state.after_discard().committed == state.committed,
        state.after_accept().committed != state.committed ==> state.after_accept().committed
            == state.submitted,
        state.after_submit().after_accept().submitted is None,
{
}

/// New content is animated in once. Content that is bound while other content is on
/// screen starts a transition, where one is configured and the scene shows what is on
/// screen; not without either, not where the content is the one on screen, and not
/// again once it was submitted. When it is accepted it is what is on screen, and binding
/// it again starts nothing.
pub proof fn new_content_is_animated_in_once(
    state: &mut ContentPresentationState,
    token: u64,
    cancels: bool,
    configured: bool,
    scene_valid: bool,
    starts: bool,
    submitting: &mut ContentPresentationState,
    starts_again: bool,
    accepting: &mut ContentPresentationState,
    rebinding: &mut ContentPresentationState,
    cancels_again: bool,
    starts_after: bool,
)
    requires
        old(state).submitted is None,
        old(state).committed is Some,
        token != 0,
        call_ensures(ContentPresentationState::bind, (state, token), cancels),
        call_ensures(
            ContentPresentationState::should_transition,
            (&*final(state), configured, scene_valid),
            starts,
        ),
        *old(submitting) == *final(state),
        call_ensures(ContentPresentationState::mark_submitted, (submitting,), ()),
        call_ensures(
            ContentPresentationState::should_transition,
            (&*final(submitting), configured, scene_valid),
            starts_again,
        ),
        *old(accepting) == *final(submitting),
        call_ensures(ContentPresentationState::present_accepted, (accepting,), ()),
        *old(rebinding) == *final(accepting),
        call_ensures(ContentPresentationState::bind, (rebinding, token), cancels_again),
        call_ensures(
            ContentPresentationState::should_transition,
            (&*final(rebinding), configured, scene_valid),
            starts_after,
        ),
    ensures
        starts <==> configured && scene_valid && old(state).committed != Some(token),
        !starts_again,
        !cancels,
        !cancels_again,
        final(submitting).submitted == Some(token),
        final(submitting).committed == old(state).committed,
        final(accepting).committed == Some(token),
        final(accepting).submitted is None,
        !starts_after,
{
}

/// The first content of a surface is shown without a transition, and content that was
/// unbound starts none. What is on screen stays known when content is unbound or dropped.
pub proof fn first_content_is_not_animated(
    state: ContentPresentationState,
    configured: bool,
    scene_valid: bool,
    starts: bool,
    unbinding: &mut ContentPresentationState,
    starts_unbound: bool,
    dropping: &mut ContentPresentationState,
    resetting: &mut ContentPresentationState,
    has: bool,
)
    requires
        call_ensures(
            ContentPresentationState::should_transition,
            (&state, configured, scene_valid),
            starts,
        ),
        call_ensures(ContentPresentationState::unbind, (unbinding,), ()),
        call_ensures(
            ContentPresentationState::should_transition,
            (&*final(unbinding), configured, scene_valid),
            starts_unbound,
        ),
        call_ensures(ContentPresentationState::discard_submitted, (dropping,), ()),
        call_ensures(ContentPresentationState::reset, (resetting,), ()),
        call_ensures(ContentPresentationState::has_submitted, (&state,), has),
    ensures
        state.committed is None ==> !starts,
        state.bound is None ==> !starts,
        !starts_unbound,
        final(unbinding).committed == old(unbinding).committed,
        final(unbinding).submitted == old(unbinding).submitted,
        final(dropping).committed == old(dropping).committed,
        final(dropping).bound == old(dropping).bound,
        final(dropping).submitted is None,
        final(resetting).bound is None,
        final(resetting).committed is None,
        final(resetting).submitted is None,
        has <==> state.submitted is Some,
{
}

/// Nothing is bound, submitted or on screen at first.
pub proof fn nothing_is_on_screen_at_first(state: ContentPresentationState)
    requires
        call_ensures(ContentPresentationState::default, (), state),
    ensures
        state.bound is None,
        state.submitted is None,
        state.committed is None,
{
}

/// Binding calls off a change of content exactly where it goes back to what is on screen
/// while other content is on its way; that content is then no longer on its way. In every
/// other case what is on its way stays so.
pub proof fn going_back_calls_off_the_change(
    state: &mut ContentPresentationState,
    token: u64,
    cancels: bool,
)
    requires
        call_ensures(ContentPresentationState::bind, (state, token), cancels),
    ensures
        cancels ==> old(state).committed == Some(token),
        cancels ==> old(state).submitted is Some && old(state).submitted != Some(token),
        old(state).committed == Some(token) && old(state).submitted is Some && old(state).submitted
            != Some(token) ==> cancels,
        cancels ==> final(state).submitted is None,
        !cancels ==> final(state).submitted == old(state).submitted,
        final(state).bound == Some(token),
        final(state).committed == old(state).committed,
{
}

} // verus!
