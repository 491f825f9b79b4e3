//! The presenter of one surface: everything it remembers between frames.

use crate::blank::BlankState;
use crate::content::ContentPresentationState;
use crate::direct::{DirectBinding, DirectFrame, DirectRelease, FrameContext};
use crate::effects::{
    sample_active_transition, update_transition_snapshot, ActiveTransition, BlurTransition,
    PausePresentation, TransitionPresentation, TransitionSample, MAX_BLUR_MIP_LEVELS,
};
use crate::geometry::Extent2D;
use crate::resources::{
    push_each, push_each_live, push_frames, push_live, push_plan, push_release, push_retired,
    BlurResources, HandleKind, RetiredSwapchain, SwapchainRendering, Teardown,
    TransitionResources, FORMAT_UNDEFINED,
};
use crate::single::Single;
#[allow(unused_imports)]
use crate::effects::transition_sample;
#[allow(unused_imports)]
use crate::resources::{
    each, each_is_taken_down, each_live, each_live_is_taken_down, frames_plan, is_taken_down,
    live, live_is_taken_down, release_fd, retired_is_taken_down, retired_plan, slot_is_taken_down,
};
use vstd::prelude::*;

verus! {

/// The number of frames that may be in flight.
pub const FRAMES_IN_FLIGHT: usize = 2;

/// Objects that live as long as the presenter.
#[derive(Clone, Copy, Debug, PartialEq, Eq, Structural)]
pub struct SharedHandles {
    pub surface: u64,
    pub descriptor_set_layout: u64,
    pub descriptor_pool: u64,
    pub pipeline_layout: u64,
    pub sampler: u64,
}

/// The swapchain in use and what belongs to its images.
#[derive(Debug)]
pub struct SwapchainState {
    pub handle: u64,
    pub format: i32,
    pub extent: Extent2D,
    pub images: Vec<u64>,
    pub present_ready: Vec<u64>,
    pub rendering: SwapchainRendering,
}

/// The presenter of one surface.
#[derive(Debug)]
pub struct WsiPresenter {
    pub shared: SharedHandles,
    pub swapchain: SwapchainState,
    pub frames: Vec<FrameContext>,
    pub frame_cursor: usize,
    pub pause_presentation: PausePresentation,
    pub pause_presentation_initialized: bool,
    pub blur_transition: BlurTransition,
    pub blur_resources: Option<BlurResources>,
    pub pause_blur_available: bool,
    pub transition_presentation: Option<TransitionPresentation>,
    pub presentation_config_generation: u64,
    pub content_presentation: ContentPresentationState,
    pub prepared_transition: Option<TransitionPresentation>,
    pub active_transition: Option<ActiveTransition>,
    pub transition_resources: Option<TransitionResources>,
    pub transitions_available: bool,
    pub direct_binding: Option<DirectBinding>,
    pub pending_direct_frame: Option<DirectFrame>,
    pub blank_state: BlankState,
    pub recreate_extent: Option<Extent2D>,
    pub retired_swapchains: Vec<RetiredSwapchain>,
}

impl DirectFrame {
    /// What is owed to the producer for the frame.
    pub open spec fn owed(self) -> DirectRelease {
        DirectRelease {
            release_syncobj_fd: self.release_syncobj_fd,
            buffer_generation: self.buffer_generation,
            seq: self.seq,
        }
    }

    /// What is owed to the producer for the frame.
    pub fn release(&self) -> (release: DirectRelease)
        ensures
            release == self.owed(),
    {
        DirectRelease {
            release_syncobj_fd: self.release_syncobj_fd,
            buffer_generation: self.buffer_generation,
            seq: self.seq,
        }
    }
}

impl WsiPresenter {
    /// The resources that exist are complete. Transition targets sample the scene,
    /// so they never outlive it.
    pub open spec fn resources_wf(self) -> bool {
        &&& self.transition_resources is Some ==> self.transition_resources->0.wf()
            && self.blur_resources is Some
        &&& self.blur_resources is Some ==> 1 <= self.blur_resources->0.mip_views@.len()
            <= MAX_BLUR_MIP_LEVELS
        &&& self.direct_binding is Some ==> self.direct_binding->0.wf()
    }

    /// The frame cursor names a slot, and the resources that exist are complete.
    pub open spec fn wf(self) -> bool {
        self.frame_cursor < self.frames@.len() && self.resources_wf()
    }

    /// Whether the kept scene shows what is on screen.
    pub open spec fn scene_valid(self) -> bool {
        self.blur_resources is Some && self.blur_resources->0.base_valid
    }

    /// Whether content changes can be animated.
    pub open spec fn transitions_supported(self) -> bool {
        self.pause_blur_available && self.transitions_available
    }

    /// Whether a change of the blur radius is animated.
    pub open spec fn animates_blur(self) -> bool {
        self.pause_presentation_initialized && self.scene_valid() && self.pause_blur_available
    }

    /// The presenter after the display session ended: nothing configured, nothing
    /// known of the content, the kept scene not to be relied on.
    pub open spec fn after_session_reset(self) -> WsiPresenter {
        WsiPresenter {
            pause_presentation: PausePresentation::off(),
            pause_presentation_initialized: false,
            blur_transition: BlurTransition::still(),
            transition_presentation: None,
            presentation_config_generation: 0,
            content_presentation: ContentPresentationState::initial(),
            prepared_transition: None,
            active_transition: None,
            blur_resources: match self.blur_resources {
                Some(resources) => Some(
                    BlurResources {
                        base_valid: false,
                        pyramid_valid: false,
                        pyramid_dirty: false,
                        ..resources
                    },
                ),
                None => None,
            },
            ..self
        }
    }

    /// The presenter after the kept scene was given up. Transition targets sample
    /// the scene, so they go with it.
    pub open spec fn without_scene(self) -> WsiPresenter {
        WsiPresenter {
            active_transition: None,
            transition_resources: None,
            blur_resources: None,
            ..self
        }
    }

    /// What has to be taken down of what the presenter shows, in order.
    pub open spec fn content_plan(self) -> Seq<Teardown> {
        (match self.pending_direct_frame {
            Some(frame) => seq![release_fd(frame.owed())],
            None => seq![],
        }) + (match self.direct_binding {
            Some(binding) => each_live(HandleKind::ImageView, binding.views@),
            None => seq![],
        }) + (match self.transition_resources {
            Some(resources) => resources.plan(),
            None => seq![],
        }) + (match self.blur_resources {
            Some(resources) => resources.plan(),
            None => seq![],
        }) + self.swapchain.rendering.plan() + live(HandleKind::Swapchain, self.swapchain.handle)
            + each(HandleKind::Semaphore, self.swapchain.present_ready@) + retired_plan(
            self.retired_swapchains@,
        )
    }

    /// What has to be taken down when the presenter goes, in order.
    pub open spec fn plan(self) -> Seq<Teardown> {
        self.content_plan() + frames_plan(self.frames@) + live(
            HandleKind::Sampler,
            self.shared.sampler,
        ) + live(HandleKind::PipelineLayout, self.shared.pipeline_layout) + live(
            HandleKind::DescriptorPool,
            self.shared.descriptor_pool,
        ) + live(
            HandleKind::DescriptorSetLayout,
            self.shared.descriptor_set_layout,
        ) + live(HandleKind::Surface, self.shared.surface)
    }

    /// A presenter that owns `surface` and nothing else.
    pub fn new(surface: u64) -> (presenter: WsiPresenter)
        ensures
            presenter.plan() =~= live(HandleKind::Surface, surface),
            presenter.shared == (SharedHandles {
                surface,
                descriptor_set_layout: 0,
                descriptor_pool: 0,
                pipeline_layout: 0,
                sampler: 0,
            }),
            presenter.swapchain.handle == 0,
            presenter.swapchain.format == FORMAT_UNDEFINED,
            presenter.swapchain.extent == (Extent2D { width: 0, height: 0 }),
            presenter.swapchain.images@.len() == 0,
            presenter.swapchain.present_ready@.len() == 0,
            presenter.swapchain.rendering.views@.len() == 0,
            presenter.swapchain.rendering.render_pass == 0,
            presenter.swapchain.rendering.pipeline == 0,
            presenter.swapchain.rendering.framebuffers@.len() == 0,
            presenter.retired_swapchains@.len() == 0,
            presenter.frames@.len() == 0,
            presenter.frame_cursor == 0,
            presenter.pause_blur_available,
            presenter.transitions_available,
            presenter.direct_binding is None,
            presenter.pending_direct_frame is None,
            presenter.blank_state is Inactive,
            presenter.recreate_extent is None,
            presenter.blur_resources is None,
            presenter.transition_resources is None,
            presenter == presenter.after_session_reset(),
            presenter.resources_wf(),
    {
        let presenter = WsiPresenter {
            shared: SharedHandles {
                surface,
                descriptor_set_layout: 0,
                descriptor_pool: 0,
                pipeline_layout: 0,
                sampler: 0,
            },
            swapchain: SwapchainState {
                handle: 0,
                format: FORMAT_UNDEFINED,
                extent: Extent2D { width: 0, height: 0 },
                images: Vec::new(),
                present_ready: Vec::new(),
                rendering: SwapchainRendering::new(),
            },
            frames: Vec::new(),
            frame_cursor: 0,
            pause_presentation: PausePresentation { configured: false, active: false, radius: 0 },
            pause_presentation_initialized: false,
            blur_transition: BlurTransition {
                current: Single { bits: 0 },
                target: Single { bits: 0 },
                segment: None,
            },
            blur_resources: None,
            pause_blur_available: true,
            transition_presentation: None,
            presentation_config_generation: 0,
            content_presentation: ContentPresentationState {
                bound: None,
                submitted: None,
                committed: None,
            },
            prepared_transition: None,
            active_transition: None,
            transition_resources: None,
            transitions_available: true,
            direct_binding: None,
            pending_direct_frame: None,
            blank_state: BlankState::Inactive,
            recreate_extent: None,
            retired_swapchains: Vec::new(),
        };
        presenter
    }

    /// Asks for a swapchain of another size. Where the size is a new one, a black
    /// frame that was accepted has to be drawn again.
    pub fn request_resize(&mut self, width: u32, height: u32)
        ensures
            *final(self) == (if old(self).swapchain.extent == (Extent2D { width, height }) {
                *old(self)
            } else {
                WsiPresenter {
                    recreate_extent: Some(Extent2D { width, height }),
                    blank_state: old(self).blank_state.after_invalidation(),
                    ..*old(self)
                }
            }),
            old(self).wf() ==> final(self).wf(),
    {
        let extent = Extent2D { width, height };
        if self.swapchain.extent != extent {
            self.recreate_extent = Some(extent);
            self.blank_state.invalidate_swapchain();
        }
    }

    /// Whether the wallpaper can be blurred.
    pub fn supports_pause_blur(&self) -> (supported: bool)
        ensures
            supported == self.pause_blur_available,
    {
        self.pause_blur_available
    }

    /// Whether content changes can be animated. Transitions draw from the same
    /// kept scene as the blur.
    pub fn supports_transitions(&self) -> (supported: bool)
        ensures
            supported == self.transitions_supported(),
    {
        self.pause_blur_available && self.transitions_available
    }

    /// Takes over a transition configuration. Returns true when the surface must be
    /// presented again to drop a transition that is under way.
    pub fn apply_transition_snapshot(
        &mut self,
        config_generation: u64,
        presentation: Option<TransitionPresentation>,
    ) -> (dropped: bool)
        ensures
            dropped == (presentation is None && (old(self).prepared_transition is Some || old(
                self,
            ).active_transition is Some)),
            *final(self) == (WsiPresenter {
                presentation_config_generation: config_generation,
                transition_presentation: presentation,
                prepared_transition: if old(self).prepared_transition is Some {
                    presentation
                } else {
                    None
                },
                active_transition: if presentation is Some {
                    old(self).active_transition
                } else {
                    None
                },
                ..*old(self)
            }),
            old(self).wf() ==> final(self).wf(),
    {
        self.presentation_config_generation = config_generation;
        update_transition_snapshot(
            &mut self.transition_presentation,
            &mut self.prepared_transition,
            &mut self.active_transition,
            presentation,
        )
    }

    fn blur_animates(&self) -> (animates: bool)
        ensures
            animates == self.animates_blur(),
    {
        let scene_valid: bool = match &self.blur_resources {
            Some(resources) => resources.base_valid,
            None => false,
        };
        self.pause_presentation_initialized && scene_valid && self.pause_blur_available
    }

    /// Takes over a pause configuration. `interpolated` is the radius between the
    /// ends of a movement of the blur that is under way. Returns whether the surface
    /// must be presented again: for a new radius, or to give up the scene of a blur
    /// that is configured no more.
    pub fn apply_pause_snapshot(
        &mut self,
        presentation: PausePresentation,
        now: u64,
        interpolated: Single,
    ) -> (changed: bool)
        ensures
            changed == (!presentation.wanted_radius().is_near(old(self).blur_transition.target) || (
            old(self).pause_presentation.configured && !presentation.configured
                && old(self).blur_resources is Some)),
            *final(self) == (WsiPresenter {
                pause_presentation: presentation,
                pause_presentation_initialized: true,
                blur_transition: old(self).blur_transition.retargeted(
                    presentation.wanted_radius(),
                    now,
                    old(self).animates_blur(),
                    interpolated,
                ),
                ..*old(self)
            }),
            old(self).wf() ==> final(self).wf(),
    {
        let retire_resources: bool = self.pause_presentation.configured && !presentation.configured
            && self.blur_resources.is_some();
        let animate: bool = self.blur_animates();
        self.pause_presentation = presentation;
        self.pause_presentation_initialized = true;
        let retargeted: bool = self.blur_transition.set_target(
            presentation.target_radius(),
            now,
            animate,
            interpolated,
        );
        retargeted || retire_resources
    }

    /// Takes over whether the wallpaper is paused. Returns whether the surface must
    /// be presented again.
    pub fn apply_pause_state(
        &mut self,
        active: bool,
        now: u64,
        interpolated: Single,
    ) -> (changed: bool)
        ensures
            ({
                let presentation = PausePresentation { active, ..old(self).pause_presentation };
                &&& changed == !presentation.wanted_radius().is_near(
                    old(self).blur_transition.target,
                )
                &&& *final(self) == (WsiPresenter {
                    pause_presentation: presentation,
                    blur_transition: old(self).blur_transition.retargeted(
                        presentation.wanted_radius(),
                        now,
                        old(self).animates_blur(),
                        interpolated,
                    ),
                    ..*old(self)
                })
            }),
            old(self).wf() ==> final(self).wf(),
    {
        self.pause_presentation.active = active;
        let animate: bool = self.blur_animates();
        self.blur_transition.set_target(
            self.pause_presentation.target_radius(),
            now,
            animate,
            interpolated,
        )
    }

    /// Forgets what the display session configured and showed.
    pub fn reset_display_session(&mut self)
        ensures
            *final(self) == old(self).after_session_reset(),
            old(self).wf() ==> final(self).wf(),
    {
        self.pause_presentation = PausePresentation { configured: false, active: false, radius: 0 };
        self.pause_presentation_initialized = false;
        self.blur_transition.reset();
        self.transition_presentation = None;
        self.presentation_config_generation = 0;
        self.content_presentation.reset();
        self.prepared_transition = None;
        self.active_transition = None;
        if let Some(resources) = &mut self.blur_resources {
            resources.base_valid = false;
            resources.pyramid_valid = false;
            resources.pyramid_dirty = false;
        }
    }

    /// Ends the session and asks for a black frame. Returns whether this call is
    /// what made it wanted.
    pub fn request_blank(&mut self) -> (newly: bool)
        ensures
            newly == (old(self).blank_state is Inactive),
            *final(self) == (WsiPresenter {
                blank_state: old(self).blank_state.requested(),
                ..old(self).after_session_reset()
            }),
            old(self).wf() ==> final(self).wf(),
    {
        self.reset_display_session();
        self.blank_state.request()
    }

    /// Whether the compositor shows the black frame.
    pub fn blank_committed(&self) -> (committed: bool)
        ensures
            committed == (self.blank_state is Committed),
    {
        self.blank_state == BlankState::Committed
    }

    /// Gives up on the black frame.
    pub fn abandon_blank(&mut self)
        ensures
            *final(self) == (WsiPresenter { blank_state: BlankState::Inactive, ..*old(self) }),
            old(self).wf() ==> final(self).wf(),
    {
        self.blank_state.abandon();
    }

    /// Samples the transition on screen. One that is over stays recorded until a
    /// frame without it was accepted, so an attempt that comes to nothing cannot
    /// strand a partial mix.
    pub fn sample_transition(&self, now: u64, eased: Single) -> (sample: TransitionSample)
        ensures
            sample == transition_sample(self.active_transition, now, eased),
    {
        sample_active_transition(&self.active_transition, now, eased)
    }

    /// Gives up the kept scene and the transition targets, and hands them out to be
    /// taken down, targets first.
    pub fn take_scene(&mut self) -> (taken: (Option<TransitionResources>, Option<BlurResources>))
        ensures
            taken == (old(self).transition_resources, old(self).blur_resources),
            *final(self) == old(self).without_scene(),
            old(self).wf() ==> final(self).wf(),
    {
        self.active_transition = None;
        let transitions = self.transition_resources.take();
        let scene = self.blur_resources.take();
        (transitions, scene)
    }

    /// Adds a slot for a frame in flight, with nothing but its descriptor set.
    pub fn add_frame(&mut self, descriptor_set: u64)
        ensures
            final(self).frames@ == old(self).frames@.push(
                FrameContext {
                    command_pool: 0,
                    command_buffer: 0,
                    image_available: 0,
                    fence: 0,
                    descriptor_set,
                    pending_release: None,
                },
            ),
            *final(self) == (WsiPresenter { frames: final(self).frames, ..*old(self) }),
            old(self).wf() ==> final(self).wf(),
    {
        self.frames.push(
            FrameContext {
                command_pool: 0,
                command_buffer: 0,
                image_available: 0,
                fence: 0,
                descriptor_set,
                pending_release: None,
            },
        );
    }

    /// What has to be taken down when the presenter goes, in order. The device must
    /// be idle by then.
    pub fn teardown(&self) -> (steps: Vec<Teardown>)
        ensures
            steps@ == self.plan(),
    {
        let mut steps: Vec<Teardown> = Vec::new();
        if let Some(frame) = &self.pending_direct_frame {
            push_release(&mut steps, frame.release());
        }
        if let Some(binding) = &self.direct_binding {
            push_each_live(&mut steps, HandleKind::ImageView, &binding.views);
        }
        if let Some(resources) = &self.transition_resources {
            let plan = resources.teardown();
            push_plan(&mut steps, &plan);
        }
        if let Some(resources) = &self.blur_resources {
            let plan = resources.teardown();
            push_plan(&mut steps, &plan);
        }
        let rendering = self.swapchain.rendering.teardown();
        push_plan(&mut steps, &rendering);
        push_live(&mut steps, HandleKind::Swapchain, self.swapchain.handle);
        push_each(&mut steps, HandleKind::Semaphore, &self.swapchain.present_ready);
        push_retired(&mut steps, &self.retired_swapchains);
        push_frames(&mut steps, &self.frames);
        push_live(&mut steps, HandleKind::Sampler, self.shared.sampler);
        push_live(&mut steps, HandleKind::PipelineLayout, self.shared.pipeline_layout);
        push_live(&mut steps, HandleKind::DescriptorPool, self.shared.descriptor_pool);
        push_live(&mut steps, HandleKind::DescriptorSetLayout, self.shared.descriptor_set_layout);
        push_live(&mut steps, HandleKind::Surface, self.shared.surface);
        assert(steps@ =~= self.plan());
        steps
    }
}

/// A new presenter owns its surface, shows nothing and takes everything for possible.
pub proof fn new_presenter_shows_nothing(surface: u64, presenter: WsiPresenter)
    requires
        call_ensures(WsiPresenter::new, (surface,), presenter),
    ensures
        presenter.shared.surface == surface,
        presenter.shared.descriptor_set_layout == 0,
        presenter.shared.descriptor_pool == 0,
        presenter.shared.pipeline_layout == 0,
        presenter.shared.sampler == 0,
        presenter.swapchain.handle == 0,
        presenter.swapchain.format == 0,
        presenter.swapchain.extent.width == 0,
        presenter.swapchain.extent.height == 0,
        presenter.swapchain.images@.len() == 0,
        presenter.swapchain.present_ready@.len() == 0,
        presenter.swapchain.rendering.views@.len() == 0,
        presenter.swapchain.rendering.framebuffers@.len() == 0,
        presenter.swapchain.rendering.render_pass == 0,
        presenter.swapchain.rendering.pipeline == 0,
        presenter.retired_swapchains@.len() == 0,
        presenter.blur_resources is None,
        presenter.transition_resources is None,
        presenter.frame_cursor == 0,
        presenter.frames@.len() == 0,
        presenter.pause_blur_available,
        presenter.transitions_available,
        presenter.direct_binding is None,
        presenter.pending_direct_frame is None,
        presenter.blank_state is Inactive,
        presenter.recreate_extent is None,
        presenter.active_transition is None,
        presenter.prepared_transition is None,
        presenter.transition_presentation is None,
        presenter.presentation_config_generation == 0,
        !presenter.pause_presentation_initialized,
        !presenter.pause_presentation.active,
        presenter.blur_transition.current.bits == 0,
        presenter.blur_transition.target.bits == 0,
        presenter.blur_transition.segment is None,
        presenter.content_presentation.bound is None,
        presenter.content_presentation.committed is None,
        presenter.content_presentation.submitted is None,
{
}

/// Another size is asked for exactly where it differs from the present one, and a black
/// frame on screen has to be drawn again then.
pub proof fn new_size_is_asked_for(
    presenter: &mut WsiPresenter,
    width: u32,
    height: u32,
)
    requires
        call_ensures(WsiPresenter::request_resize, (presenter, width, height), ()),
    ensures
        ({
            let extent = old(presenter).swapchain.extent;
            let same = extent.width == width && extent.height == height;
            &&& same ==> *final(presenter) == *old(presenter)
            &&& !same ==> {
                &&& final(presenter).recreate_extent == Some(Extent2D { width, height })
                &&& final(presenter).blank_state !is Committed
                &&& old(presenter).blank_state is Inactive <==> final(presenter).blank_state
                    is Inactive
                &&& final(presenter).swapchain == old(presenter).swapchain
            }
        }),
{
}

/// The configuration of transitions that is applied is the one in force, under its
/// generation. It is the form of a transition that is only prepared; one that runs goes
/// on as it is, unless there is to be none.
pub proof fn transition_configuration_is_in_force(
    presenter: &mut WsiPresenter,
    config_generation: u64,
    presentation: Option<TransitionPresentation>,
    dropped: bool,
)
    requires
        call_ensures(
            WsiPresenter::apply_transition_snapshot,
            (presenter, config_generation, presentation),
            dropped,
        ),
    ensures
        final(presenter).presentation_config_generation == config_generation,
        final(presenter).transition_presentation == presentation,
        presentation is Some ==> final(presenter).active_transition
            == old(presenter).active_transition,
        presentation is None ==> final(presenter).active_transition is None && final(
            presenter).prepared_transition is None,
        old(presenter).prepared_transition is Some ==> final(presenter).prepared_transition
            == presentation,
        old(presenter).prepared_transition is None ==> final(presenter).prepared_transition
            is None,
        dropped <==> presentation is None && (old(presenter).active_transition is Some || old(
            presenter).prepared_transition is Some),
        final(presenter).blur_transition == old(presenter).blur_transition,
        final(presenter).content_presentation == old(presenter).content_presentation,
{
}

/// Whether the blur moves as it does when its target is set to `target`.
pub open spec fn blur_was_sent_to(
    before: WsiPresenter,
    after: WsiPresenter,
    target: Single,
    now: u64,
    animated: bool,
    radius: Single,
    same: bool,
    there: bool,
) -> bool {
    &&& same ==> after.blur_transition.target == before.blur_transition.target
        && after.blur_transition.segment == before.blur_transition.segment
    &&& !same ==> after.blur_transition.target == target
    &&& !same && (!animated || there) ==> after.blur_transition.segment is None
        && after.blur_transition.current == target
    &&& !same && animated && !there ==> {
        &&& after.blur_transition.segment matches Some(segment)
        &&& segment.from == radius
        &&& segment.target == target
        &&& segment.started_at == now
    }
}

/// A pause configuration sends the blur to the radius that it wants. The blur moves there
/// only where there was a configuration before, the scene holds what is on screen and a
/// blur is possible; else it is there at once.
pub proof fn pause_configuration_moves_the_blur(
    presenter: &mut WsiPresenter,
    presentation: PausePresentation,
    now: u64,
    interpolated: Single,
    changed: bool,
    target: Single,
    radius: Single,
    same: bool,
    there: bool,
)
    requires
        call_ensures(
            WsiPresenter::apply_pause_snapshot,
            (presenter, presentation, now, interpolated),
            changed,
        ),
        call_ensures(PausePresentation::target_radius, (presentation,), target),
        call_ensures(
            BlurTransition::value_at,
            (&old(presenter).blur_transition, now, interpolated),
            radius,
        ),
        call_ensures(Single::near, (target, old(presenter).blur_transition.target), same),
        call_ensures(Single::near, (target, radius), there),
    ensures
        final(presenter).pause_presentation == presentation,
        final(presenter).pause_presentation_initialized,
        ({
            let valid = old(presenter).blur_resources matches Some(scene) && scene.base_valid;
            blur_was_sent_to(
                *old(presenter),
                *final(presenter),
                target,
                now,
                old(presenter).pause_presentation_initialized && valid
                    && old(presenter).pause_blur_available,
                radius,
                same,
                there,
            )
        }),
        changed <==> !same || old(presenter).pause_presentation.configured
            && !presentation.configured && old(presenter).blur_resources is Some,
        final(presenter).active_transition == old(presenter).active_transition,
        final(presenter).blur_resources == old(presenter).blur_resources,
{
}

/// Pausing sends the blur to the radius that is configured, and going on sends it back to
/// none.
pub proof fn pausing_sends_the_blur(
    presenter: &mut WsiPresenter,
    active: bool,
    now: u64,
    interpolated: Single,
    changed: bool,
    target: Single,
    configured: Single,
    radius: Single,
    same: bool,
    there: bool,
)
    requires
        call_ensures(
            WsiPresenter::apply_pause_state,
            (presenter, active, now, interpolated),
            changed,
        ),
        call_ensures(Single::whole, (old(presenter).pause_presentation.radius,), configured),
        target == (if active && old(presenter).pause_presentation.configured {
            configured
        } else {
            Single { bits: 0 }
        }),
        call_ensures(
            BlurTransition::value_at,
            (&old(presenter).blur_transition, now, interpolated),
            radius,
        ),
        call_ensures(Single::near, (target, old(presenter).blur_transition.target), same),
        call_ensures(Single::near, (target, radius), there),
    ensures
        final(presenter).pause_presentation.active == active,
        final(presenter).pause_presentation.configured
            == old(presenter).pause_presentation.configured,
        final(presenter).pause_presentation.radius == old(presenter).pause_presentation.radius,
        changed <==> !same,
        ({
            let valid = old(presenter).blur_resources matches Some(scene) && scene.base_valid;
            blur_was_sent_to(
                *old(presenter),
                *final(presenter),
                target,
                now,
                old(presenter).pause_presentation_initialized && valid
                    && old(presenter).pause_blur_available,
                radius,
                same,
                there,
            )
        }),
        final(presenter).blur_resources == old(presenter).blur_resources,
{
}

/// Whether nothing of a session is left: no configuration, no content, no movement, and
/// a scene that holds nothing.
pub open spec fn has_no_session(presenter: WsiPresenter) -> bool {
    &&& !presenter.pause_presentation.configured
    &&& !presenter.pause_presentation.active
    &&& presenter.pause_presentation.radius == 0
    &&& !presenter.pause_presentation_initialized
    &&& presenter.blur_transition.current.bits == 0
    &&& presenter.blur_transition.target.bits == 0
    &&& presenter.blur_transition.segment is None
    &&& presenter.transition_presentation is None
    &&& presenter.presentation_config_generation == 0
    &&& presenter.content_presentation.bound is None
    &&& presenter.content_presentation.submitted is None
    &&& presenter.content_presentation.committed is None
    &&& presenter.prepared_transition is None
    &&& presenter.active_transition is None
    &&& presenter.blur_resources matches Some(scene) ==> !scene.base_valid && !scene.pyramid_valid
        && !scene.pyramid_dirty
}

/// A session that ends leaves nothing behind but what was created, and a black frame that
/// is asked for is due unless it is on screen already.
pub proof fn ended_session_leaves_nothing(
    resetting: &mut WsiPresenter,
    blanking: &mut WsiPresenter,
    newly: bool,
    giving_up: &mut WsiPresenter,
    committed: bool,
)
    requires
        call_ensures(WsiPresenter::reset_display_session, (resetting,), ()),
        call_ensures(WsiPresenter::request_blank, (blanking,), newly),
        call_ensures(WsiPresenter::abandon_blank, (giving_up,), ()),
        call_ensures(WsiPresenter::blank_committed, (&*old(blanking),), committed),
    ensures
        has_no_session(*final(resetting)),
        has_no_session(*final(blanking)),
        final(resetting).blank_state == old(resetting).blank_state,
        final(resetting).frames@ == old(resetting).frames@,
        final(resetting).swapchain == old(resetting).swapchain,
        old(resetting).blur_resources is Some <==> final(resetting).blur_resources is Some,
        newly <==> old(blanking).blank_state is Inactive,
        committed ==> final(blanking).blank_state is Committed,
        !committed ==> final(blanking).blank_state is Pending,
        final(blanking).frames@ == old(blanking).frames@,
        final(giving_up).blank_state is Inactive,
        final(giving_up).frames@ == old(giving_up).frames@,
        final(giving_up).active_transition == old(giving_up).active_transition,
{
}

/// A scene that is given up is handed out with the targets that sample it, and no
/// transition goes on without it.
pub proof fn scene_is_handed_out_with_its_targets(
    presenter: &mut WsiPresenter,
    taken: (Option<TransitionResources>, Option<BlurResources>),
)
    requires
        call_ensures(WsiPresenter::take_scene, (presenter,), taken),
    ensures
        taken.0 == old(presenter).transition_resources,
        taken.1 == old(presenter).blur_resources,
        final(presenter).transition_resources is None,
        final(presenter).blur_resources is None,
        final(presenter).active_transition is None,
        final(presenter).prepared_transition == old(presenter).prepared_transition,
        final(presenter).blur_transition == old(presenter).blur_transition,
        final(presenter).content_presentation == old(presenter).content_presentation,
{
}

/// All that a presenter owns goes: what it shows, its swapchains with their semaphores,
/// the frame slots with what is owed for them, what is shared, and the surface at last.
pub proof fn whole_presenter_goes(
    presenter: WsiPresenter,
    steps: Vec<Teardown>,
    scene_steps: Vec<Teardown>,
    target_steps: Vec<Teardown>,
    rendering_steps: Vec<Teardown>,
    step: Teardown,
    index: int,
    semaphore: int,
)
    requires
        call_ensures(WsiPresenter::teardown, (&presenter,), steps),
        presenter.blur_resources matches Some(scene) ==> call_ensures(
            BlurResources::teardown,
            (&scene,),
            scene_steps,
        ),
        presenter.transition_resources matches Some(targets) ==> call_ensures(
            TransitionResources::teardown,
            (&targets,),
            target_steps,
        ),
        call_ensures(
            SwapchainRendering::teardown,
            (&presenter.swapchain.rendering,),
            rendering_steps,
        ),
    ensures
        presenter.blur_resources is Some && scene_steps@.contains(step) ==> steps@.contains(step),
        presenter.transition_resources is Some && target_steps@.contains(step) ==> steps@.contains(
            step,
        ),
        rendering_steps@.contains(step) ==> steps@.contains(step),
        is_taken_down(steps@, HandleKind::Swapchain, presenter.swapchain.handle),
        0 <= index < presenter.swapchain.present_ready@.len() ==> steps@.contains(
            Teardown {
                kind: HandleKind::Semaphore,
                handle: presenter.swapchain.present_ready@[index],
            },
        ),
        0 <= index < presenter.retired_swapchains@.len() ==> {
            let retired = presenter.retired_swapchains@[index];
            &&& steps@.contains(Teardown { kind: HandleKind::Swapchain, handle: retired.handle })
            &&& 0 <= semaphore < retired.present_ready@.len() ==> steps@.contains(
                Teardown {
                    kind: HandleKind::Semaphore,
                    handle: retired.present_ready@[semaphore],
                },
            )
        },
        0 <= index < presenter.frames@.len() ==> {
            let frame = presenter.frames@[index];
            &&& is_taken_down(steps@, HandleKind::Fence, frame.fence)
            &&& is_taken_down(steps@, HandleKind::Semaphore, frame.image_available)
            &&& is_taken_down(steps@, HandleKind::CommandPool, frame.command_pool)
            &&& frame.pending_release matches Some(release) ==> steps@.contains(
                Teardown {
                    kind: HandleKind::ReleaseFd,
                    handle: release.release_syncobj_fd as u64,
                },
            )
        },
        presenter.pending_direct_frame matches Some(frame) ==> steps@.contains(
            Teardown { kind: HandleKind::ReleaseFd, handle: frame.release_syncobj_fd as u64 },
        ),
        presenter.direct_binding matches Some(binding) ==> (0 <= index < binding.views@.len()
            ==> is_taken_down(steps@, HandleKind::ImageView, binding.views@[index])),
        is_taken_down(steps@, HandleKind::Sampler, presenter.shared.sampler),
        is_taken_down(steps@, HandleKind::PipelineLayout, presenter.shared.pipeline_layout),
        is_taken_down(steps@, HandleKind::DescriptorPool, presenter.shared.descriptor_pool),
        is_taken_down(
            steps@,
            HandleKind::DescriptorSetLayout,
            presenter.shared.descriptor_set_layout,
        ),
        presenter.shared.surface != 0 ==> steps@.len() > 0 && steps@.last() == (Teardown {
            kind: HandleKind::Surface,
            handle: presenter.shared.surface,
        }),
{
    broadcast use vstd::seq_lib::lemma_seq_concat_contains_all_elements;

    live_is_taken_down(HandleKind::Swapchain, presenter.swapchain.handle);
    live_is_taken_down(HandleKind::Sampler, presenter.shared.sampler);
    live_is_taken_down(HandleKind::PipelineLayout, presenter.shared.pipeline_layout);
    live_is_taken_down(HandleKind::DescriptorPool, presenter.shared.descriptor_pool);
    live_is_taken_down(HandleKind::DescriptorSetLayout, presenter.shared.descriptor_set_layout);
    if 0 <= index < presenter.swapchain.present_ready@.len() {
        each_is_taken_down(HandleKind::Semaphore, presenter.swapchain.present_ready@, index);
    }
    if 0 <= index < presenter.retired_swapchains@.len() {
        retired_is_taken_down(presenter.retired_swapchains@, index, semaphore);
    }
    if 0 <= index < presenter.frames@.len() {
        slot_is_taken_down(presenter.frames@, index);
    }
    if let Some(frame) = presenter.pending_direct_frame {
        assert(seq![release_fd(frame.owed())][0] == release_fd(frame.owed()));
    }
    if let Some(binding) = presenter.direct_binding {
        if 0 <= index < binding.views@.len() {
            each_live_is_taken_down(HandleKind::ImageView, binding.views@, index);
        }
    }
}

/// What is owed for a frame is its own file, generation and number; the transition on
/// screen is sampled as it is; a new slot has its descriptor set and nothing else, and
/// owes nothing.
pub proof fn frames_owe_their_own_release(
    frame: DirectFrame,
    release: DirectRelease,
    adding: &mut WsiPresenter,
    descriptor_set: u64,
    presenter: WsiPresenter,
    now: u64,
    eased: Single,
    sample: TransitionSample,
    expected: TransitionSample,
    bound: bool,
)
    requires
        call_ensures(DirectFrame::release, (&frame,), release),
        call_ensures(WsiPresenter::add_frame, (adding, descriptor_set), ()),
        call_ensures(WsiPresenter::sample_transition, (&presenter, now, eased), sample),
        call_ensures(
            sample_active_transition,
            (&presenter.active_transition, now, eased),
            expected,
        ),
        call_ensures(WsiPresenter::has_direct_binding, (&presenter,), bound),
    ensures
        release.release_syncobj_fd == frame.release_syncobj_fd,
        release.buffer_generation == frame.buffer_generation,
        release.seq == frame.seq,
        final(adding).frames@.len() == old(adding).frames@.len() + 1,
        final(adding).frames@.drop_last() == old(adding).frames@,
        final(adding).frames@.last().descriptor_set == descriptor_set,
        final(adding).frames@.last().pending_release is None,
        final(adding).frames@.last().fence == 0,
        sample == expected,
        bound <==> presenter.direct_binding is Some,
{
}

/// What a presenter is told changes that and nothing else.
pub proof fn nothing_else_of_a_presenter_changes(
    resizing: &mut WsiPresenter,
    width: u32,
    height: u32,
    animating: &mut WsiPresenter,
    config_generation: u64,
    presentation: Option<TransitionPresentation>,
    dropped: bool,
    configuring: &mut WsiPresenter,
    pause: PausePresentation,
    now: u64,
    interpolated: Single,
    changed: bool,
    pausing: &mut WsiPresenter,
    active: bool,
    paused: bool,
    resetting: &mut WsiPresenter,
    giving_up: &mut WsiPresenter,
    taking: &mut WsiPresenter,
    taken: (Option<TransitionResources>, Option<BlurResources>),
    adding: &mut WsiPresenter,
    descriptor_set: u64,
)
    requires
        call_ensures(WsiPresenter::request_resize, (resizing, width, height), ()),
        call_ensures(
            WsiPresenter::apply_transition_snapshot,
            (animating, config_generation, presentation),
            dropped,
        ),
        call_ensures(
            WsiPresenter::apply_pause_snapshot,
            (configuring, pause, now, interpolated),
            changed,
        ),
        call_ensures(WsiPresenter::apply_pause_state, (pausing, active, now, interpolated), paused),
        call_ensures(WsiPresenter::reset_display_session, (resetting,), ()),
        call_ensures(WsiPresenter::abandon_blank, (giving_up,), ()),
        call_ensures(WsiPresenter::take_scene, (taking,), taken),
        call_ensures(WsiPresenter::add_frame, (adding, descriptor_set), ()),
    ensures
        *final(resizing) == (WsiPresenter {
            recreate_extent: final(resizing).recreate_extent,
            blank_state: final(resizing).blank_state,
            ..*old(resizing)
        }),
        *final(animating) == (WsiPresenter {
            presentation_config_generation: config_generation,
            transition_presentation: presentation,
            prepared_transition: final(animating).prepared_transition,
            active_transition: final(animating).active_transition,
            ..*old(animating)
        }),
        *final(configuring) == (WsiPresenter {
            pause_presentation: pause,
            pause_presentation_initialized: true,
            blur_transition: final(configuring).blur_transition,
            ..*old(configuring)
        }),
        *final(pausing) == (WsiPresenter {
            pause_presentation: PausePresentation { active, ..old(pausing).pause_presentation },
            blur_transition: final(pausing).blur_transition,
            ..*old(pausing)
        }),
        *final(resetting) == (WsiPresenter {
            pause_presentation: final(resetting).pause_presentation,
            pause_presentation_initialized: false,
            blur_transition: final(resetting).blur_transition,
            transition_presentation: None,
            presentation_config_generation: 0,
            content_presentation: final(resetting).content_presentation,
            prepared_transition: None,
            active_transition: None,
            blur_resources: final(resetting).blur_resources,
            ..*old(resetting)
        }),
        old(resetting).blur_resources matches Some(scene) ==> final(resetting).blur_resources
            == Some(
            BlurResources {
                base_valid: false,
                pyramid_valid: false,
                pyramid_dirty: false,
                ..scene
            },
        ),
        *final(giving_up) == (WsiPresenter {
            blank_state: BlankState::Inactive,
            ..*old(giving_up)
        }),
        *final(taking) == (WsiPresenter {
            active_transition: None,
            transition_resources: None,
            blur_resources: None,
            ..*old(taking)
        }),
        *final(adding) == (WsiPresenter { frames: final(adding).frames, ..*old(adding) }),
{
}

} // verus!
