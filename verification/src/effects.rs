//! Pause blur and wallpaper transitions: what is animating, and from when.
//!
//! Times are nanoseconds on one monotonic clock. What lies between the ends of a
//! movement is computed by whoever draws; this module decides which values count.

use crate::geometry::Extent2D;
use crate::single::{Single, INFINITY_BITS};
use vstd::arithmetic::power2::*;
use vstd::prelude::*;

verus! {

/// How long the blur radius takes from one target to the next.
pub const BLUR_TRANSITION_DURATION_NS: u64 = 180_000_000;

/// The most mip levels a blurred scene has.
pub const MAX_BLUR_MIP_LEVELS: u32 = 6;

/// Time passed since `started_at`, none while that lies ahead.
pub open spec fn elapsed_since(now: u64, started_at: u64) -> u64 {
    if now >= started_at {
        (now - started_at) as u64
    } else {
        0
    }
}

/// The blur that applies while the wallpaper is paused.
#[derive(Clone, Copy, Debug, PartialEq, Eq, Structural)]
pub struct PausePresentation {
    pub configured: bool,
    pub active: bool,
    pub radius: u32,
}

impl Default for PausePresentation {
    fn default() -> (presentation: Self)
        ensures
            presentation == PausePresentation::off(),
    {
        PausePresentation { configured: false, active: false, radius: 0 }
    }
}

impl PausePresentation {
    /// No blur configured.
    pub open spec fn off() -> PausePresentation {
        PausePresentation { configured: false, active: false, radius: 0 }
    }

    /// The radius the blur moves towards: the configured one while paused.
    pub open spec fn wanted_radius(self) -> Single {
        if self.configured && self.active {
            Single::of_whole(self.radius as nat)
        } else {
            Single::zero()
        }
    }

    /// The radius the blur moves towards: the configured one while paused.
    pub fn target_radius(self) -> (radius: Single)
        ensures
            radius == self.wanted_radius(),
    {
        if self.configured && self.active {
            Single::whole(self.radius)
        } else {
            Single { bits: 0 }
        }
    }
}

/// A movement of the blur radius that started at some time.
#[derive(Clone, Copy, Debug, PartialEq, Eq, Structural)]
pub struct BlurSegment {
    pub from: Single,
    pub target: Single,
    pub started_at: u64,
}

impl BlurSegment {
    /// The radius `elapsed` after the start, given what arithmetic puts between the
    /// ends. At the start nothing of the way is gone, and a finite radius that is
    /// not negative stays as it is where nothing is added.
    pub open spec fn radius_after(self, elapsed: u64, interpolated: Single) -> Single {
        if elapsed == 0 && self.from.is_radius() && self.target.is_radius() {
            self.from
        } else {
            interpolated
        }
    }

    fn moving_radius(&self, elapsed: u64, interpolated: Single) -> (radius: Single)
        ensures
            radius == self.radius_after(elapsed, interpolated),
    {
        if elapsed == 0 && self.from.bits < INFINITY_BITS && self.target.bits < INFINITY_BITS {
            self.from
        } else {
            interpolated
        }
    }
}

/// The blur radius and where it moves.
#[derive(Clone, Copy, Debug, PartialEq, Eq, Structural)]
pub struct BlurTransition {
    pub current: Single,
    pub target: Single,
    pub segment: Option<BlurSegment>,
}

/// The blur radius at one moment.
#[derive(Clone, Copy, Debug, PartialEq, Eq, Structural)]
pub struct BlurSample {
    pub radius: Single,
    pub animating: bool,
    pub finished: bool,
}

/// Where a movement of the blur radius stands.
#[derive(Clone, Copy, Debug, PartialEq, Eq, Structural)]
pub enum BlurPhase {
    /// The radius does not move.
    Steady { radius: Single },
    /// The radius is between the ends of the segment, `elapsed` after its start.
    Moving { segment: BlurSegment, elapsed: u64 },
    /// The movement has run its course.
    Arrived { radius: Single },
}

impl Default for BlurTransition {
    fn default() -> (transition: Self)
        ensures
            transition == BlurTransition::still(),
    {
        BlurTransition {
            current: Single { bits: 0 },
            target: Single { bits: 0 },
            segment: None,
        }
    }
}

impl BlurTransition {
    /// No blur and no movement.
    pub open spec fn still() -> BlurTransition {
        BlurTransition { current: Single::zero(), target: Single::zero(), segment: None }
    }

    /// Where the movement stands at `now`.
    pub open spec fn phase(self, now: u64) -> BlurPhase {
        match self.segment {
            None => BlurPhase::Steady { radius: self.current },
            Some(segment) => {
                let elapsed = elapsed_since(now, segment.started_at);
                if elapsed >= BLUR_TRANSITION_DURATION_NS {
                    BlurPhase::Arrived { radius: segment.target }
                } else {
                    BlurPhase::Moving { segment, elapsed }
                }
            },
        }
    }

    /// What is between the ends of a movement that is under way at `now`, by some
    /// rule from the movement and the time that it takes so far.
    pub open spec fn between(
        self,
        now: u64,
        rule: spec_fn(BlurSegment, u64) -> Single,
    ) -> Single {
        match self.phase(now) {
            BlurPhase::Moving { segment, elapsed } => rule(segment, elapsed),
            _ => Single::zero(),
        }
    }

    /// The radius at `now`, given the one between the ends of the movement.
    pub open spec fn radius(self, now: u64, interpolated: Single) -> Single {
        match self.phase(now) {
            BlurPhase::Steady { radius } => radius,
            BlurPhase::Moving { segment, elapsed } => segment.radius_after(elapsed, interpolated),
            BlurPhase::Arrived { radius } => radius,
        }
    }

    /// The state after the target was set.
    pub open spec fn retargeted(
        self,
        target: Single,
        now: u64,
        animate: bool,
        interpolated: Single,
    ) -> BlurTransition {
        let current = self.radius(now, interpolated);
        if target.is_near(self.target) {
            BlurTransition { current, ..self }
        } else if !animate || target.is_near(current) {
            BlurTransition { current: target, target, segment: None }
        } else {
            BlurTransition {
                current,
                target,
                segment: Some(BlurSegment { from: current, target, started_at: now }),
            }
        }
    }

    /// The state after the radius was sampled.
    pub open spec fn after_sample(self, now: u64, interpolated: Single) -> BlurTransition {
        BlurTransition {
            current: self.radius(now, interpolated),
            target: self.target,
            segment: if self.phase(now) is Moving {
                self.segment
            } else {
                None
            },
        }
    }

    /// What a sample at `now` says.
    pub open spec fn sampled(self, now: u64, interpolated: Single) -> BlurSample {
        BlurSample {
            radius: self.radius(now, interpolated),
            animating: self.phase(now) is Moving,
            finished: self.phase(now) is Arrived,
        }
    }

    /// Where the movement of the radius stands at `now`.
    pub fn phase_at(&self, now: u64) -> (phase: BlurPhase)
        ensures
            phase == self.phase(now),
    {
        match self.segment {
            None => BlurPhase::Steady { radius: self.current },
            Some(segment) => {
                let elapsed: u64 = now.saturating_sub(segment.started_at);
                if elapsed >= BLUR_TRANSITION_DURATION_NS {
                    BlurPhase::Arrived { radius: segment.target }
                } else {
                    BlurPhase::Moving { segment, elapsed }
                }
            },
        }
    }

    /// The radius at `now`, given the one between the ends of the movement.
    pub fn value_at(&self, now: u64, interpolated: Single) -> (radius: Single)
        ensures
            radius == self.radius(now, interpolated),
    {
        match self.phase_at(now) {
            BlurPhase::Steady { radius } => radius,
            BlurPhase::Moving { segment, elapsed } => segment.moving_radius(elapsed, interpolated),
            BlurPhase::Arrived { radius } => radius,
        }
    }

    /// Moves the radius towards `target`, from where it is now; at once where the
    /// change is not to be animated. `interpolated` is the radius between the ends of
    /// a movement that is under way. Returns whether the target is a new one.
    pub fn set_target(&mut self, target: Single, now: u64, animate: bool, interpolated: Single) -> (
    changed: bool)
        ensures
            changed == !target.is_near(old(self).target),
            *final(self) == old(self).retargeted(target, now, animate, interpolated),
    {
        let current: Single = self.value_at(now, interpolated);
        self.current = current;
        if target.near(self.target) {
            return false;
        }
        self.target = target;
        if !animate || target.near(current) {
            self.current = target;
            self.segment = None;
        } else {
            self.segment = Some(BlurSegment { from: current, target, started_at: now });
        }
        true
    }

    /// Drops the blur and any movement.
    pub fn reset(&mut self)
        ensures
            *final(self) == BlurTransition::still(),
    {
        self.current = Single { bits: 0 };
        self.target = Single { bits: 0 };
        self.segment = None;
    }

    /// Reads the radius at `now` and ends a movement that has run its course.
    pub fn sample(&mut self, now: u64, interpolated: Single) -> (sample: BlurSample)
        ensures
            sample == old(self).sampled(now, interpolated),
            *final(self) == old(self).after_sample(now, interpolated),
    {
        match self.phase_at(now) {
            BlurPhase::Steady { radius } => BlurSample {
                radius,
                animating: false,
                finished: false,
            },
            BlurPhase::Arrived { radius } => {
                self.current = radius;
                self.segment = None;
                BlurSample { radius, animating: false, finished: true }
            },
            BlurPhase::Moving { segment, elapsed } => {
                let radius: Single = segment.moving_radius(elapsed, interpolated);
                self.current = radius;
                BlurSample { radius, animating: true, finished: false }
            },
        }
    }
}

/// The shape in which new content replaces the old.
#[derive(Clone, Copy, Debug, PartialEq, Eq)]
pub enum TransitionShape {
    Fade,
    /// Degrees clockwise in surface space; 0 wipes left to right.
    Wipe { angle: u32 },
    /// Center in surface uv space.
    Grow { origin: (Single, Single) },
}

/// A transition as it is configured.
#[derive(Clone, Copy, Debug, PartialEq, Eq)]
pub struct TransitionPresentation {
    pub shape: TransitionShape,
    pub duration_ns: u64,
}

/// A transition that is on screen.
#[derive(Clone, Copy, Debug, PartialEq, Eq)]
pub struct ActiveTransition {
    pub presentation: TransitionPresentation,
    pub started_at: u64,
}

/// How much of a transition has passed.
#[derive(Clone, Copy, Debug, PartialEq, Eq, Structural)]
pub struct TransitionProgress {
    pub elapsed_ns: u64,
    pub duration_ns: u64,
}

/// A transition at one moment.
#[derive(Clone, Copy, Debug, PartialEq, Eq)]
pub struct TransitionSample {
    /// Shape and eased progress while a transition is still animating.
    pub running: Option<(TransitionShape, Single)>,
    /// The transition ended since the previous present.
    pub finished: bool,
}

/// The kinds of transition that the daemon configures.
#[derive(Clone, Copy, Debug, PartialEq, Eq, Structural)]
pub enum TransitionKind {
    Off,
    Fade,
    Wipe,
    Grow,
}

impl ActiveTransition {
    /// The progress at `now`, none once the transition has run its course.
    pub open spec fn progress(self, now: u64) -> Option<TransitionProgress> {
        let elapsed = elapsed_since(now, self.started_at);
        if elapsed >= self.presentation.duration_ns {
            None
        } else {
            Some(
                TransitionProgress {
                    elapsed_ns: elapsed,
                    duration_ns: self.presentation.duration_ns,
                },
            )
        }
    }

    /// The progress at `now`, or `None` once the transition has run its course.
    pub fn progress_at(&self, now: u64) -> (progress: Option<TransitionProgress>)
        ensures
            progress == self.progress(now),
    {
        let elapsed: u64 = now.saturating_sub(self.started_at);
        if elapsed >= self.presentation.duration_ns {
            return None;
        }
        Some(
            TransitionProgress { elapsed_ns: elapsed, duration_ns: self.presentation.duration_ns },
        )
    }
}

/// What a transition shows at `now`, with `eased` as the eased progress of one
/// that is under way.
pub open spec fn transition_sample(
    active: Option<ActiveTransition>,
    now: u64,
    eased: Single,
) -> TransitionSample {
    match active {
        None => TransitionSample { running: None, finished: false },
        Some(active) => match active.progress(now) {
            Some(_) => TransitionSample {
                running: Some((active.presentation.shape, eased)),
                finished: false,
            },
            None => TransitionSample { running: None, finished: true },
        },
    }
}

/// Samples the transition on screen. It stays recorded whether or not it is over.
pub fn sample_active_transition(active: &Option<ActiveTransition>, now: u64, eased: Single) -> (sample:
    TransitionSample)
    ensures
        sample == transition_sample(*active, now, eased),
{
    match active {
        None => TransitionSample { running: None, finished: false },
        Some(active) => match active.progress_at(now) {
            Some(_) => TransitionSample {
                running: Some((active.presentation.shape, eased)),
                finished: false,
            },
            None => TransitionSample { running: None, finished: true },
        },
    }
}

/// The transition that a configuration of the daemon asks for.
pub open spec fn configured_transition(
    kind: TransitionKind,
    angle: u32,
    origin: (Single, Single),
    duration_ms: u32,
) -> Option<TransitionPresentation> {
    let duration_ns = (duration_ms * 1_000_000) as u64;
    match kind {
        TransitionKind::Off => None,
        TransitionKind::Fade => Some(
            TransitionPresentation { shape: TransitionShape::Fade, duration_ns },
        ),
        TransitionKind::Wipe => Some(
            TransitionPresentation { shape: TransitionShape::Wipe { angle }, duration_ns },
        ),
        TransitionKind::Grow => Some(
            TransitionPresentation { shape: TransitionShape::Grow { origin }, duration_ns },
        ),
    }
}

/// Reads the transition configuration that the daemon sent.
pub fn transition_presentation(
    kind: TransitionKind,
    angle: u32,
    origin: (Single, Single),
    duration_ms: u32,
) -> (presentation: Option<TransitionPresentation>)
    ensures
        presentation == configured_transition(kind, angle, origin, duration_ms),
{
    let shape: TransitionShape = match kind {
        TransitionKind::Off => return None,
        TransitionKind::Fade => TransitionShape::Fade,
        TransitionKind::Wipe => TransitionShape::Wipe { angle },
        TransitionKind::Grow => TransitionShape::Grow { origin },
    };
    Some(TransitionPresentation { shape, duration_ns: duration_ms as u64 * 1_000_000 })
}

/// Takes over a new transition configuration. A transition that is prepared and
/// not yet on screen takes the new form; without a configuration everything under
/// way is dropped. Returns whether something on screen was dropped.
pub fn update_transition_snapshot(
    configured: &mut Option<TransitionPresentation>,
    prepared: &mut Option<TransitionPresentation>,
    active: &mut Option<ActiveTransition>,
    presentation: Option<TransitionPresentation>,
) -> (dropped: bool)
    ensures
        *final(configured) == presentation,
        *final(prepared) == (if *old(prepared) is Some {
            presentation
        } else {
            None
        }),
        *final(active) == (if presentation is Some {
            *old(active)
        } else {
            None
        }),
        dropped == (presentation is None && (*old(prepared) is Some || *old(active) is Some)),
{
    *configured = presentation;
    if presentation.is_some() {
        if prepared.is_some() {
            *prepared = presentation;
        }
        return false;
    }
    let had_prepared: bool = prepared.is_some();
    let had_active: bool = active.is_some();
    *prepared = None;
    *active = None;
    had_active || had_prepared
}

/// What is on screen of a transition: the start of a prepared one, else what runs.
pub open spec fn retained_transition(
    prepared: Option<TransitionPresentation>,
    running: Option<(TransitionShape, Single)>,
) -> Option<(TransitionShape, Single)> {
    match prepared {
        Some(presentation) => Some((presentation.shape, Single::zero())),
        None => running,
    }
}

/// What is on screen of a transition: the start of a prepared one, else what runs.
pub fn retained_transition_sample(
    prepared: Option<TransitionPresentation>,
    running: Option<(TransitionShape, Single)>,
) -> (sample: Option<(TransitionShape, Single)>)
    ensures
        sample == retained_transition(prepared, running),
{
    match prepared {
        Some(presentation) => Some((presentation.shape, Single { bits: 0 })),
        None => running,
    }
}

/// Whether the blur alone calls for the scene to be kept in an image.
pub open spec fn blur_needs_scene(
    available: bool,
    presentation: PausePresentation,
    blur: BlurSample,
    scene_exists: bool,
) -> bool {
    &&& available
    &&& {
        ||| presentation.configured
        ||| blur.radius.is_visible()
        ||| blur.animating
        ||| blur.finished && scene_exists
    }
}

/// Whether the blur alone calls for the scene to be kept in an image. A blur that
/// just ended keeps an existing scene for one last draw.
pub fn needs_persistent_scene(
    available: bool,
    presentation: PausePresentation,
    blur: &BlurSample,
    scene_exists: bool,
) -> (needed: bool)
    ensures
        needed == blur_needs_scene(available, presentation, *blur, scene_exists),
{
    available && (presentation.configured || blur.radius.exceeds_epsilon() || blur.animating || (
    blur.finished && scene_exists))
}

/// Whether the kept scene has to be drawn again without a new frame.
pub fn needs_scene_redraw(
    scene_path: bool,
    scene_valid: bool,
    blur: &BlurSample,
    swapchain_recreated: bool,
) -> (redraw: bool)
    ensures
        redraw == (scene_path && scene_valid && (blur.animating || blur.finished
            || swapchain_recreated)),
{
    scene_path && scene_valid && (blur.animating || blur.finished || swapchain_recreated)
}

/// One dimension of a mip level: halved per level, never below one.
pub open spec fn mip_dimension(dimension: u32, level: nat) -> int {
    if dimension as int / pow2(level) as int > 1 {
        dimension as int / pow2(level) as int
    } else {
        1
    }
}

/// Whether both dimensions of a mip level are down to one pixel.
pub open spec fn mip_is_single_pixel(extent: Extent2D, level: nat) -> bool {
    mip_dimension(extent.width, level) == 1 && mip_dimension(extent.height, level) == 1
}

proof fn lemma_halving(dimension: u32, level: nat)
    ensures
        mip_dimension(dimension, level + 1) == (if mip_dimension(dimension, level) / 2 > 1 {
            mip_dimension(dimension, level) / 2
        } else {
            1
        }),
        mip_dimension(dimension, level) >= 1,
{
    lemma_pow2_pos(level);
    lemma_pow2_unfold(level + 1);
    vstd::arithmetic::div_mod::lemma_div_denominator(dimension as int, pow2(level) as int, 2);
    assert(pow2(level) * 2 == pow2(level + 1)) by (nonlinear_arith)
        requires
            pow2(level + 1) == 2 * pow2(level),
    ;
}

/// Whether a scene has as many mip levels: halving stops at a single pixel, or at the
/// most levels a scene may have.
pub open spec fn is_level_count(extent: Extent2D, levels: u32) -> bool {
    &&& 1 <= levels <= MAX_BLUR_MIP_LEVELS
    &&& levels < MAX_BLUR_MIP_LEVELS ==> mip_is_single_pixel(extent, (levels - 1) as nat)
    &&& forall|level: nat| level < levels - 1 ==> !#[trigger] mip_is_single_pixel(extent, level)
}

/// The number of mip levels for a scene: halving stops at a single pixel, or at
/// the most levels a scene may have.
pub fn blur_mip_level_count(extent: Extent2D) -> (levels: u32)
    ensures
        is_level_count(extent, levels),
{
    let mut width: u32 = extent.width.max(1);
    let mut height: u32 = extent.height.max(1);
    let mut levels: u32 = 1;
    proof {
        lemma2_to64();
        assert(mip_dimension(extent.width, 0) == width);
        assert(mip_dimension(extent.height, 0) == height);
    }
    while levels < MAX_BLUR_MIP_LEVELS && (width > 1 || height > 1)
        invariant
            1 <= levels <= MAX_BLUR_MIP_LEVELS,
            width == mip_dimension(extent.width, (levels - 1) as nat),
            height == mip_dimension(extent.height, (levels - 1) as nat),
            forall|level: nat|
                level < levels - 1 ==> !#[trigger] mip_is_single_pixel(extent, level),
        decreases MAX_BLUR_MIP_LEVELS - levels,
    {
        proof {
            lemma_halving(extent.width, (levels - 1) as nat);
            lemma_halving(extent.height, (levels - 1) as nat);
        }
        width = (width / 2).max(1);
        height = (height / 2).max(1);
        levels = levels + 1;
    }
    levels
}

/// The size of one mip level.
pub fn blur_mip_extent(extent: Extent2D, level: u32) -> (mip: Extent2D)
    requires
        level < 32,
    ensures
        mip.width == mip_dimension(extent.width, level as nat),
        mip.height == mip_dimension(extent.height, level as nat),
{
    proof {
        vstd::bits::lemma_u32_shr_is_div(extent.width, level);
        vstd::bits::lemma_u32_shr_is_div(extent.height, level);
    }
    Extent2D { width: (extent.width >> level).max(1), height: (extent.height >> level).max(1) }
}

/// Each mip level is at most as large as the one before it, and none is empty.
pub proof fn mip_levels_shrink(dimension: u32, level: nat)
    ensures
        1 <= mip_dimension(dimension, level + 1) <= mip_dimension(dimension, level),
        dimension >= 1 ==> mip_dimension(dimension, 0) == dimension,
        mip_dimension(dimension, level) == 1 ==> mip_dimension(dimension, level + 1) == 1,
{
    lemma_halving(dimension, level);
    lemma2_to64();
}

/// A movement of the blur ends exactly at its target and says so once: the sample
/// that finds it over reports the target, and the next one finds the blur at rest.
pub proof fn blur_finishes_exactly(
    transition: BlurTransition,
    now: u64,
    later: u64,
    interpolated: Single,
    interpolated_later: Single,
)
    requires
        transition.segment is Some,
        elapsed_since(now, transition.segment->0.started_at) >= BLUR_TRANSITION_DURATION_NS,
    ensures
        transition.sampled(now, interpolated) == (BlurSample {
            radius: transition.segment->0.target,
            animating: false,
            finished: true,
        }),
        transition.after_sample(now, interpolated).sampled(later, interpolated_later) == (
        BlurSample { radius: transition.segment->0.target, animating: false, finished: false }),
{
}

/// A target that is not to be animated is in force at once.
pub proof fn unanimated_target_is_installed(
    transition: BlurTransition,
    target: Single,
    now: u64,
    interpolated: Single,
    interpolated_after: Single,
)
    requires
        !target.is_near(transition.target),
    ensures
        transition.retargeted(target, now, false, interpolated).sampled(now, interpolated_after)
            == (BlurSample { radius: target, animating: false, finished: false }),
{
}

/// A movement that is turned around goes on from where the radius is.
pub proof fn reversal_starts_from_the_present_radius(
    transition: BlurTransition,
    target: Single,
    now: u64,
    interpolated: Single,
)
    requires
        !target.is_near(transition.target),
        !target.is_near(transition.radius(now, interpolated)),
    ensures
        transition.retargeted(target, now, true, interpolated).segment == Some(
            BlurSegment {
                from: transition.radius(now, interpolated),
                target,
                started_at: now,
            },
        ),
        transition.retargeted(target, now, true, interpolated).phase(now) is Moving,
{
}

/// Setting an animated target never makes the radius jump, whatever the rule for what
/// is between the ends of a movement. A sample at that time gives the radius as it
/// was, or the target where the radius was as good as there; so it is never further
/// than the machine epsilon from where it was. For a new target, a sample gives the
/// target once the movement had its time.
pub proof fn target_is_set_without_a_jump(
    transition: BlurTransition,
    target: Single,
    now: u64,
    later: u64,
    rule: spec_fn(BlurSegment, u64) -> Single,
)
    requires
        transition.radius(now, transition.between(now, rule)).is_radius(),
        target.is_radius(),
    ensures
        ({
            let present = transition.sampled(now, transition.between(now, rule)).radius;
            let set = transition.retargeted(
                target,
                now,
                true,
                transition.between(now, rule),
            );
            let sample = set.sampled(now, set.between(now, rule)).radius;
            let at_last = set.sampled(later, set.between(later, rule)).radius;
            let new = !target.is_near(transition.target);
            &&& sample.is_near(present)
            &&& new && target.is_near(present) ==> sample == target
            &&& !(new && target.is_near(present)) ==> sample == present
            &&& new && now + BLUR_TRANSITION_DURATION_NS <= later ==> at_last == target
        }),
{
}

/// A running transition is over exactly when its duration has passed, and stays
/// over.
pub proof fn transition_completes_after_its_duration(
    active: ActiveTransition,
    now: u64,
    later: u64,
)
    requires
        now <= later,
    ensures
        active.progress(now) is None <==> elapsed_since(now, active.started_at)
            >= active.presentation.duration_ns,
        active.progress(now) is None ==> active.progress(later) is None,
        active.progress(now) is Some ==> active.progress(now)->0.elapsed_ns
            < active.progress(now)->0.duration_ns,
{
}

/// A movement of the blur takes its time from when it started: until then a sample is of
/// a radius that moves, then it is of the target, once as the end of the movement. At
/// rest a sample changes nothing. What a sample gives is what the radius is at that time.
pub proof fn blur_moves_for_its_time(
    transition: &mut BlurTransition,
    now: u64,
    interpolated: Single,
    sample: BlurSample,
    radius: Single,
    phase: BlurPhase,
)
    requires
        call_ensures(BlurTransition::sample, (transition, now, interpolated), sample),
        call_ensures(BlurTransition::value_at, (&*old(transition), now, interpolated), radius),
        call_ensures(BlurTransition::phase_at, (&*old(transition), now), phase),
    ensures
        sample.radius == radius,
        final(transition).current == radius,
        final(transition).target == old(transition).target,
        match old(transition).segment {
            None => {
                &&& radius == old(transition).current
                &&& !sample.animating
                &&& !sample.finished
                &&& *final(transition) == *old(transition)
                &&& phase == (BlurPhase::Steady { radius: old(transition).current })
            },
            Some(segment) => {
                let over = now >= segment.started_at + 180_000_000;
                let started = now > segment.started_at;
                &&& sample.animating <==> !over
                &&& sample.finished <==> over
                &&& over ==> radius == segment.target && final(transition).segment is None && phase
                    == (BlurPhase::Arrived { radius: segment.target })
                &&& !over ==> final(transition).segment == Some(segment)
                &&& !over && started ==> radius == interpolated && phase == (BlurPhase::Moving {
                    segment,
                    elapsed: (now - segment.started_at) as u64,
                })
                &&& !over && !started ==> phase == (BlurPhase::Moving { segment, elapsed: 0 })
                &&& !started && segment.from.bits < 0x7f80_0000 && segment.target.bits < 0x7f80_0000
                    ==> radius == segment.from
            },
        },
{
}

/// A new target is where the blur goes: at once where it is not to be animated or the
/// radius is as good as there, else from the radius at that time on. A target that is as
/// good as the one before leaves the movement as it is.
pub proof fn blur_goes_to_its_new_target(
    transition: &mut BlurTransition,
    target: Single,
    now: u64,
    animate: bool,
    interpolated: Single,
    changed: bool,
    radius: Single,
    same: bool,
    there: bool,
    resetting: &mut BlurTransition,
)
    requires
        call_ensures(
            BlurTransition::set_target,
            (transition, target, now, animate, interpolated),
            changed,
        ),
        call_ensures(BlurTransition::value_at, (&*old(transition), now, interpolated), radius),
        call_ensures(Single::near, (target, old(transition).target), same),
        call_ensures(Single::near, (target, radius), there),
        call_ensures(BlurTransition::reset, (resetting,), ()),
    ensures
        changed <==> !same,
        same ==> final(transition).target == old(transition).target && final(transition).segment
            == old(transition).segment && final(transition).current == radius,
        changed ==> final(transition).target == target,
        changed && (!animate || there) ==> final(transition).current == target && final(
            transition).segment is None,
        changed && animate && !there ==> {
            &&& final(transition).current == radius
            &&& final(transition).segment matches Some(segment)
            &&& segment.from == radius
            &&& segment.target == target
            &&& segment.started_at == now
        },
        final(resetting).current.bits == 0,
        final(resetting).target.bits == 0,
        final(resetting).segment is None,
{
}

/// The blur is wanted only while the wallpaper is paused and one is configured, and then
/// with the radius that is configured.
pub proof fn blur_is_wanted_while_paused(
    presentation: PausePresentation,
    radius: Single,
    configured: Single,
)
    requires
        call_ensures(PausePresentation::target_radius, (presentation,), radius),
        call_ensures(Single::whole, (presentation.radius,), configured),
    ensures
        presentation.configured && presentation.active ==> radius == configured,
        !presentation.configured || !presentation.active ==> radius.bits == 0,
{
}

/// A transition runs in its own shape until its own duration has passed since it
/// started, and is then over; without one nothing runs and nothing is over.
pub proof fn transition_runs_for_its_duration(
    active: Option<ActiveTransition>,
    now: u64,
    eased: Single,
    sample: TransitionSample,
)
    requires
        call_ensures(sample_active_transition, (&active, now, eased), sample),
    ensures
        match active {
            None => sample.running is None && !sample.finished,
            Some(transition) => {
                let over = transition.presentation.duration_ns == 0 || now >= transition.started_at
                    + transition.presentation.duration_ns;
                &&& sample.finished <==> over
                &&& sample.running is Some <==> !over
                &&& sample.running matches Some((shape, progress)) ==> shape
                    == transition.presentation.shape && progress == eased
            },
        },
{
}

/// The progress of a transition is the time since it started, of its duration.
pub proof fn progress_is_the_time_since_the_start(
    active: ActiveTransition,
    now: u64,
    progress: Option<TransitionProgress>,
)
    requires
        call_ensures(ActiveTransition::progress_at, (&active, now), progress),
    ensures
        now >= active.started_at ==> (progress is None <==> now - active.started_at
            >= active.presentation.duration_ns),
        now < active.started_at ==> (progress is None <==> active.presentation.duration_ns == 0),
        progress matches Some(part) ==> {
            &&& part.duration_ns == active.presentation.duration_ns
            &&& now >= active.started_at ==> part.elapsed_ns == now - active.started_at
            &&& now < active.started_at ==> part.elapsed_ns == 0
        },
{
}

/// A configuration of the daemon is read as it is: none without a kind, else the shape
/// of that kind with its own angle or center, for as long as it says.
pub proof fn configuration_is_read_as_it_is(
    kind: TransitionKind,
    angle: u32,
    origin: (Single, Single),
    duration_ms: u32,
    presentation: Option<TransitionPresentation>,
)
    requires
        call_ensures(transition_presentation, (kind, angle, origin, duration_ms), presentation),
    ensures
        presentation is None <==> kind is Off,
        presentation matches Some(read) ==> {
            &&& read.duration_ns == duration_ms * 1_000_000
            &&& read.shape is Fade <==> kind is Fade
            &&& read.shape matches TransitionShape::Wipe { angle: turned } ==> kind is Wipe
                && turned == angle
            &&& read.shape matches TransitionShape::Grow { origin: center } ==> kind is Grow
                && center == origin
        },
{
}

/// A new configuration reaches what is only prepared and leaves what runs as it is; that
/// there is none any more drops both, and is told where there was something to drop.
pub proof fn configuration_reaches_what_is_prepared(
    configured: &mut Option<TransitionPresentation>,
    prepared: &mut Option<TransitionPresentation>,
    active: &mut Option<ActiveTransition>,
    presentation: Option<TransitionPresentation>,
    dropped: bool,
)
    requires
        call_ensures(
            update_transition_snapshot,
            (configured, prepared, active, presentation),
            dropped,
        ),
    ensures
        *final(configured) == presentation,
        *old(prepared) is None ==> *final(prepared) is None,
        *old(prepared) is Some ==> *final(prepared) == presentation,
        presentation is Some ==> *final(active) == *old(active) && !dropped,
        presentation is None ==> *final(active) is None && *final(prepared) is None,
        presentation is None ==> (dropped <==> *old(active) is Some || *old(prepared) is Some),
{
}

/// What is prepared is on screen at its start, in its own shape; without it, what runs.
pub proof fn prepared_transition_is_at_its_start(
    prepared: Option<TransitionPresentation>,
    running: Option<(TransitionShape, Single)>,
    sample: Option<(TransitionShape, Single)>,
)
    requires
        call_ensures(retained_transition_sample, (prepared, running), sample),
    ensures
        prepared is None ==> sample == running,
        prepared matches Some(presentation) ==> sample matches Some((shape, progress)) && shape
            == presentation.shape && progress.bits == 0,
{
}

/// The scene is kept for a blur that is configured, visible, moving or just over, never
/// without the means for it, and not for a blur that is gone. It is drawn again without
/// a new frame only while it holds something, and then for a blur that moves or is just
/// over, or for a swapchain that was replaced.
pub proof fn scene_is_kept_for_the_blur(
    available: bool,
    presentation: PausePresentation,
    blur: BlurSample,
    scene_exists: bool,
    needed: bool,
    visible: bool,
    scene_path: bool,
    scene_valid: bool,
    swapchain_recreated: bool,
    redraw: bool,
)
    requires
        call_ensures(
            needs_persistent_scene,
            (available, presentation, &blur, scene_exists),
            needed,
        ),
        call_ensures(Single::exceeds_epsilon, (blur.radius,), visible),
        call_ensures(
            needs_scene_redraw,
            (scene_path, scene_valid, &blur, swapchain_recreated),
            redraw,
        ),
    ensures
        !available ==> !needed,
        available && (presentation.configured || visible || blur.animating) ==> needed,
        available && blur.finished && scene_exists ==> needed,
        !presentation.configured && !visible && !blur.animating && !blur.finished ==> !needed,
        !presentation.configured && !visible && !blur.animating && !scene_exists ==> !needed,
        !scene_path || !scene_valid ==> !redraw,
        scene_path && scene_valid && (blur.animating || blur.finished || swapchain_recreated)
            ==> redraw,
        !blur.animating && !blur.finished && !swapchain_recreated ==> !redraw,
{
}

/// Each level of the scene is half of the one before it, rounded down and never empty;
/// the first has the size of the scene.
pub proof fn each_level_is_half_of_the_one_before(
    extent: Extent2D,
    level: u32,
    larger: Extent2D,
    smaller: Extent2D,
    whole: Extent2D,
)
    requires
        level < 31,
        call_ensures(blur_mip_extent, (extent, level), larger),
        call_ensures(blur_mip_extent, (extent, (level + 1) as u32), smaller),
        call_ensures(blur_mip_extent, (extent, 0u32), whole),
    ensures
        whole.width == (if extent.width == 0 {
            1
        } else {
            extent.width
        }),
        whole.height == (if extent.height == 0 {
            1
        } else {
            extent.height
        }),
        larger.width >= 2 ==> smaller.width == larger.width / 2,
        larger.width <= 1 ==> smaller.width == 1,
        larger.height >= 2 ==> smaller.height == larger.height / 2,
        larger.height <= 1 ==> smaller.height == 1,
        larger.width >= 1,
        larger.height >= 1,
{
    lemma_halving(extent.width, level as nat);
    lemma_halving(extent.height, level as nat);
    lemma2_to64();
}

/// A scene has levels down to a single pixel, and no further, but at most six.
pub proof fn levels_end_at_a_single_pixel(
    extent: Extent2D,
    levels: u32,
    last: Extent2D,
    level: u32,
    other: Extent2D,
)
    requires
        call_ensures(blur_mip_level_count, (extent,), levels),
        1 <= levels <= 6 ==> call_ensures(blur_mip_extent, (extent, (levels - 1) as u32), last),
        level < 32,
        call_ensures(blur_mip_extent, (extent, level), other),
    ensures
        1 <= levels <= 6,
        levels < 6 ==> last.width == 1 && last.height == 1,
        level < levels - 1 ==> other.width > 1 || other.height > 1,
{
    assert(1 <= levels <= 6);
    if level < levels - 1 {
        assert(!mip_is_single_pixel(extent, level as nat));
        lemma_halving(extent.width, level as nat);
        lemma_halving(extent.height, level as nat);
    }
}

/// Nothing is blurred and nothing moves before a configuration comes.
pub proof fn nothing_is_blurred_at_first(
    presentation: PausePresentation,
    transition: BlurTransition,
    radius: Single,
)
    requires
        call_ensures(PausePresentation::default, (), presentation),
        call_ensures(BlurTransition::default, (), transition),
        call_ensures(PausePresentation::target_radius, (presentation,), radius),
    ensures
        !presentation.configured,
        !presentation.active,
        presentation.radius == 0,
        radius.bits == 0,
        transition.current.bits == 0,
        transition.target.bits == 0,
        transition.segment is None,
{
}

} // verus!
