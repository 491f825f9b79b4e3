//! Records of graphics objects, and the order in which they are taken down.
//!
//! Objects are known by their raw handles; zero stands for none.

use crate::direct::{DirectRelease, FrameContext};
use crate::geometry::Extent2D;
use vstd::prelude::*;

verus! {

/// The number of images that hold outgoing content.
pub const TRANSITION_TARGET_COUNT: usize = 2;

/// No format.
pub const FORMAT_UNDEFINED: i32 = 0;

/// Four 8-bit channels, red first.
pub const FORMAT_R8G8B8A8_UNORM: i32 = 37;

/// Four 8-bit channels, blue first.
pub const FORMAT_B8G8R8A8_UNORM: i32 = 44;

/// Format feature: can be sampled.
pub const FEATURE_SAMPLED_IMAGE: u32 = 0x0001;

/// Format feature: can be rendered to.
pub const FEATURE_COLOR_ATTACHMENT: u32 = 0x0080;

/// Format feature: can be sampled with linear filtering.
pub const FEATURE_SAMPLED_IMAGE_FILTER_LINEAR: u32 = 0x1000;

/// The features a format needs to hold the scene.
pub const SCENE_FORMAT_FEATURES: u32 = 0x1081;

/// What kind of object a handle names.
#[derive(Clone, Copy, Debug, PartialEq, Eq, Structural)]
pub enum HandleKind {
    DescriptorSet,
    Pipeline,
    Framebuffer,
    RenderPass,
    ImageView,
    Image,
    Memory,
    Swapchain,
    Semaphore,
    Fence,
    CommandPool,
    Sampler,
    PipelineLayout,
    DescriptorPool,
    DescriptorSetLayout,
    Surface,
    Device,
    DebugMessenger,
    Instance,
    /// The file descriptor of a frame release that will not be signalled.
    ReleaseFd,
}

/// One object to take down.
#[derive(Clone, Copy, Debug, PartialEq, Eq, Structural)]
pub struct Teardown {
    pub kind: HandleKind,
    pub handle: u64,
}

/// The object behind `handle`, unless there is none.
pub open spec fn live(kind: HandleKind, handle: u64) -> Seq<Teardown> {
    if handle == 0 {
        seq![]
    } else {
        seq![Teardown { kind, handle }]
    }
}

/// All objects of a list, in its order.
pub open spec fn each(kind: HandleKind, handles: Seq<u64>) -> Seq<Teardown> {
    handles.map_values(|handle: u64| Teardown { kind, handle })
}

/// The objects of a list that exist, in its order.
pub open spec fn each_live(kind: HandleKind, handles: Seq<u64>) -> Seq<Teardown>
    decreases handles.len(),
{
    if handles.len() == 0 {
        seq![]
    } else {
        each_live(kind, handles.drop_last()) + live(kind, handles.last())
    }
}

/// The file descriptor of a release, to be closed.
pub open spec fn release_fd(release: DirectRelease) -> Teardown {
    Teardown { kind: HandleKind::ReleaseFd, handle: release.release_syncobj_fd as u64 }
}

pub(crate) fn push_live(steps: &mut Vec<Teardown>, kind: HandleKind, handle: u64)
    ensures
        final(steps)@ == old(steps)@ + live(kind, handle),
{
    if handle != 0 {
        steps.push(Teardown { kind, handle });
    }
    assert(steps@ =~= old(steps)@ + live(kind, handle));
}

pub(crate) fn push_each(steps: &mut Vec<Teardown>, kind: HandleKind, handles: &Vec<u64>)
    ensures
        final(steps)@ == old(steps)@ + each(kind, handles@),
{
    let ghost before = steps@;
    for index in 0..handles.len()
        invariant
            steps@ == before + each(kind, handles@.take(index as int)),
    {
        steps.push(Teardown { kind, handle: handles[index] });
        assert(each(kind, handles@.take(index + 1)) =~= each(kind, handles@.take(index as int)).push(
            Teardown { kind, handle: handles@[index as int] },
        ));
    }
    assert(handles@.take(handles@.len() as int) =~= handles@);
}

pub(crate) fn push_each_live(steps: &mut Vec<Teardown>, kind: HandleKind, handles: &Vec<u64>)
    ensures
        final(steps)@ == old(steps)@ + each_live(kind, handles@),
{
    let ghost before = steps@;
    assert(before + each_live(kind, handles@.take(0)) =~= before);
    for index in 0..handles.len()
        invariant
            steps@ == before + each_live(kind, handles@.take(index as int)),
    {
        push_live(steps, kind, handles[index]);
        proof {
            let prefix = handles@.take(index + 1);
            assert(prefix.drop_last() =~= handles@.take(index as int));
            assert(prefix.last() == handles@[index as int]);
            assert(before + each_live(kind, prefix) =~= before + each_live(
                kind,
                handles@.take(index as int),
            ) + live(kind, handles@[index as int]));
        }
    }
    assert(handles@.take(handles@.len() as int) =~= handles@);
}

/// Appends the objects of a plan to another.
pub(crate) fn push_plan(steps: &mut Vec<Teardown>, plan: &Vec<Teardown>)
    ensures
        final(steps)@ == old(steps)@ + plan@,
{
    let ghost before = steps@;
    for index in 0..plan.len()
        invariant
            steps@ == before + plan@.take(index as int),
    {
        steps.push(plan[index]);
        assert(plan@.take(index + 1) =~= plan@.take(index as int).push(plan@[index as int]));
    }
    assert(plan@.take(plan@.len() as int) =~= plan@);
}

/// The image that keeps the scene, its mip levels and what draws them.
#[derive(Debug)]
pub struct BlurResources {
    pub image: u64,
    pub memory: u64,
    pub format: i32,
    pub all_levels_view: u64,
    pub mip_views: Vec<u64>,
    pub render_pass: u64,
    pub composition_pipeline: u64,
    pub downsample_pipeline: u64,
    pub framebuffers: Vec<u64>,
    pub blur_pipeline: u64,
    pub downsample_descriptor_sets: Vec<u64>,
    pub mix_descriptor_set: u64,
    pub extent: Extent2D,
    /// The full-size level holds the content on screen.
    pub base_valid: bool,
    /// The smaller levels match the full-size one.
    pub pyramid_valid: bool,
    /// The full-size level changed since the smaller ones were drawn.
    pub pyramid_dirty: bool,
}

impl BlurResources {
    /// What has to be taken down, in order.
    pub open spec fn plan(self) -> Seq<Teardown> {
        each(HandleKind::DescriptorSet, self.downsample_descriptor_sets@) + live(
            HandleKind::DescriptorSet,
            self.mix_descriptor_set,
        ) + live(HandleKind::Pipeline, self.blur_pipeline) + each(
            HandleKind::Framebuffer,
            self.framebuffers@,
        ) + live(HandleKind::Pipeline, self.downsample_pipeline) + live(
            HandleKind::Pipeline,
            self.composition_pipeline,
        ) + live(HandleKind::RenderPass, self.render_pass) + each(
            HandleKind::ImageView,
            self.mip_views@,
        ) + live(HandleKind::ImageView, self.all_levels_view) + live(HandleKind::Image, self.image)
            + live(HandleKind::Memory, self.memory)
    }

    /// A scene of the given format and size with nothing created yet.
    pub fn new(format: i32, extent: Extent2D) -> (resources: BlurResources)
        ensures
            resources.format == format,
            resources.extent == extent,
            !resources.base_valid,
            !resources.pyramid_valid,
            !resources.pyramid_dirty,
            resources.plan() =~= Seq::<Teardown>::empty(),
    {
        BlurResources {
            image: 0,
            memory: 0,
            format,
            all_levels_view: 0,
            mip_views: Vec::new(),
            render_pass: 0,
            composition_pipeline: 0,
            downsample_pipeline: 0,
            framebuffers: Vec::new(),
            blur_pipeline: 0,
            downsample_descriptor_sets: Vec::new(),
            mix_descriptor_set: 0,
            extent,
            base_valid: false,
            pyramid_valid: false,
            pyramid_dirty: false,
        }
    }

    /// What has to be taken down, in order. Serves a scene that is only partly
    /// created as well.
    pub fn teardown(&self) -> (steps: Vec<Teardown>)
        ensures
            steps@ == self.plan(),
    {
        let mut steps: Vec<Teardown> = Vec::new();
        push_each(&mut steps, HandleKind::DescriptorSet, &self.downsample_descriptor_sets);
        push_live(&mut steps, HandleKind::DescriptorSet, self.mix_descriptor_set);
        push_live(&mut steps, HandleKind::Pipeline, self.blur_pipeline);
        push_each(&mut steps, HandleKind::Framebuffer, &self.framebuffers);
        push_live(&mut steps, HandleKind::Pipeline, self.downsample_pipeline);
        push_live(&mut steps, HandleKind::Pipeline, self.composition_pipeline);
        push_live(&mut steps, HandleKind::RenderPass, self.render_pass);
        push_each(&mut steps, HandleKind::ImageView, &self.mip_views);
        push_live(&mut steps, HandleKind::ImageView, self.all_levels_view);
        push_live(&mut steps, HandleKind::Image, self.image);
        push_live(&mut steps, HandleKind::Memory, self.memory);
        assert(steps@ =~= self.plan());
        steps
    }

    /// Divides the descriptor sets that were allocated for a scene: the last one
    /// samples all levels, the others one level each, in order.
    pub fn assign_descriptor_sets(&mut self, sets: Vec<u64>)
        requires
            sets@.len() > 0,
        ensures
            final(self).mix_descriptor_set == sets@.last(),
            final(self).downsample_descriptor_sets@ == sets@.drop_last(),
            *final(self) == (BlurResources {
                mix_descriptor_set: final(self).mix_descriptor_set,
                downsample_descriptor_sets: final(self).downsample_descriptor_sets,
                ..*old(self)
            }),
    {
        let mut rest: Vec<u64> = sets;
        let mix: Option<u64> = rest.pop();
        self.mix_descriptor_set = mix.unwrap();
        self.downsample_descriptor_sets = rest;
    }
}

/// One image that holds outgoing content.
#[derive(Clone, Copy, Debug, PartialEq, Eq, Structural)]
pub struct TransitionTarget {
    pub image: u64,
    pub memory: u64,
    pub image_view: u64,
    pub framebuffer: u64,
    /// Samples the scene at one binding and this target at the next.
    pub descriptor_set: u64,
}

/// Scene-sized copies of outgoing content. Starting a transition draws what is on
/// screen into the spare target, so a running transition that is interrupted goes
/// on from its current mix.
#[derive(Debug)]
pub struct TransitionResources {
    pub targets: Vec<TransitionTarget>,
    /// The target that holds the outgoing content.
    pub front: usize,
    /// Draws the mix on screen of a running transition into a target.
    pub capture_pipeline: u64,
    /// Draws the plain scene into a target.
    pub capture_scene_pipeline: u64,
    pub output_pipeline: u64,
}

/// The descriptor sets of the targets.
pub open spec fn target_sets(targets: Seq<TransitionTarget>) -> Seq<u64> {
    targets.map_values(|target: TransitionTarget| target.descriptor_set)
}

/// What has to be taken down of one target, in order.
pub open spec fn target_plan(target: TransitionTarget) -> Seq<Teardown> {
    live(HandleKind::Framebuffer, target.framebuffer) + live(
        HandleKind::ImageView,
        target.image_view,
    ) + live(HandleKind::Image, target.image) + live(HandleKind::Memory, target.memory)
}

/// What has to be taken down of all targets, in order.
pub open spec fn targets_plan(targets: Seq<TransitionTarget>) -> Seq<Teardown>
    decreases targets.len(),
{
    if targets.len() == 0 {
        seq![]
    } else {
        targets_plan(targets.drop_last()) + target_plan(targets.last())
    }
}

impl TransitionResources {
    /// There is a front target and a spare one.
    pub open spec fn wf(self) -> bool {
        &&& self.targets@.len() == TRANSITION_TARGET_COUNT
        &&& self.front < self.targets@.len()
    }

    /// The target to draw outgoing content into next.
    pub open spec fn spare(self) -> int {
        (self.front + 1) % (self.targets@.len() as int)
    }

    /// What has to be taken down, in order.
    pub open spec fn plan(self) -> Seq<Teardown> {
        each_live(HandleKind::DescriptorSet, target_sets(self.targets@)) + live(
            HandleKind::Pipeline,
            self.capture_pipeline,
        ) + live(HandleKind::Pipeline, self.capture_scene_pipeline) + live(
            HandleKind::Pipeline,
            self.output_pipeline,
        ) + targets_plan(self.targets@)
    }

    /// What has to be taken down, in order. Serves targets that are only partly
    /// created as well.
    pub fn teardown(&self) -> (steps: Vec<Teardown>)
        ensures
            steps@ == self.plan(),
    {
        let mut steps: Vec<Teardown> = Vec::new();
        let mut sets: Vec<u64> = Vec::new();
        for index in 0..self.targets.len()
            invariant
                sets@ == target_sets(self.targets@.take(index as int)),
        {
            sets.push(self.targets[index].descriptor_set);
            assert(target_sets(self.targets@.take(index + 1)) =~= target_sets(
                self.targets@.take(index as int),
            ).push(self.targets@[index as int].descriptor_set));
        }
        assert(self.targets@.take(self.targets@.len() as int) =~= self.targets@);
        push_each_live(&mut steps, HandleKind::DescriptorSet, &sets);
        push_live(&mut steps, HandleKind::Pipeline, self.capture_pipeline);
        push_live(&mut steps, HandleKind::Pipeline, self.capture_scene_pipeline);
        push_live(&mut steps, HandleKind::Pipeline, self.output_pipeline);
        let ghost before = steps@;
        assert(before + targets_plan(self.targets@.take(0)) =~= before);
        for index in 0..self.targets.len()
            invariant
                steps@ == before + targets_plan(self.targets@.take(index as int)),
        {
            let target: TransitionTarget = self.targets[index];
            push_live(&mut steps, HandleKind::Framebuffer, target.framebuffer);
            push_live(&mut steps, HandleKind::ImageView, target.image_view);
            push_live(&mut steps, HandleKind::Image, target.image);
            push_live(&mut steps, HandleKind::Memory, target.memory);
            proof {
                let prefix = self.targets@.take(index + 1);
                assert(prefix.drop_last() =~= self.targets@.take(index as int));
                assert(prefix.last() == target);
                assert(steps@ =~= before + (targets_plan(self.targets@.take(index as int))
                    + target_plan(target)));
            }
        }
        assert(self.targets@.take(self.targets@.len() as int) =~= self.targets@);
        assert(steps@ =~= self.plan());
        steps
    }
}

/// A swapchain that was replaced, with the semaphores its images may still wait on.
#[derive(Debug)]
pub struct RetiredSwapchain {
    pub handle: u64,
    pub present_ready: Vec<u64>,
}

/// What has to be taken down of the replaced swapchains, in order.
pub open spec fn retired_plan(retired: Seq<RetiredSwapchain>) -> Seq<Teardown>
    decreases retired.len(),
{
    if retired.len() == 0 {
        seq![]
    } else {
        retired_plan(retired.drop_last()).push(
            Teardown { kind: HandleKind::Swapchain, handle: retired.last().handle },
        ) + each(HandleKind::Semaphore, retired.last().present_ready@)
    }
}

pub(crate) fn push_retired(steps: &mut Vec<Teardown>, retired: &Vec<RetiredSwapchain>)
    ensures
        final(steps)@ == old(steps)@ + retired_plan(retired@),
{
    let ghost before = steps@;
    assert(before + retired_plan(retired@.take(0)) =~= before);
    for index in 0..retired.len()
        invariant
            steps@ == before + retired_plan(retired@.take(index as int)),
    {
        steps.push(Teardown { kind: HandleKind::Swapchain, handle: retired[index].handle });
        push_each(steps, HandleKind::Semaphore, &retired[index].present_ready);
        proof {
            let prefix = retired@.take(index + 1);
            assert(prefix.drop_last() =~= retired@.take(index as int));
            assert(prefix.last() == retired@[index as int]);
            assert(steps@ =~= before + retired_plan(prefix));
        }
    }
    assert(retired@.take(retired@.len() as int) =~= retired@);
}

/// What has to be taken down of one frame slot, in order.
pub open spec fn frame_plan(frame: FrameContext) -> Seq<Teardown> {
    (match frame.pending_release {
        Some(release) => seq![release_fd(release)],
        None => seq![],
    }) + live(HandleKind::Fence, frame.fence) + live(HandleKind::Semaphore, frame.image_available)
        + live(HandleKind::CommandPool, frame.command_pool)
}

/// What has to be taken down of all frame slots, in order.
pub open spec fn frames_plan(frames: Seq<FrameContext>) -> Seq<Teardown>
    decreases frames.len(),
{
    if frames.len() == 0 {
        seq![]
    } else {
        frames_plan(frames.drop_last()) + frame_plan(frames.last())
    }
}

pub(crate) fn push_release(steps: &mut Vec<Teardown>, release: DirectRelease)
    ensures
        final(steps)@ == old(steps)@.push(release_fd(release)),
{
    steps.push(
        Teardown { kind: HandleKind::ReleaseFd, handle: release.release_syncobj_fd as u64 },
    );
}

fn push_frame(steps: &mut Vec<Teardown>, frame: FrameContext)
    ensures
        final(steps)@ == old(steps)@ + frame_plan(frame),
{
    let ghost before = steps@;
    if let Some(release) = frame.pending_release {
        push_release(steps, release);
    }
    push_live(steps, HandleKind::Fence, frame.fence);
    push_live(steps, HandleKind::Semaphore, frame.image_available);
    push_live(steps, HandleKind::CommandPool, frame.command_pool);
    assert(steps@ =~= before + frame_plan(frame));
}

pub(crate) fn push_frames(steps: &mut Vec<Teardown>, frames: &Vec<FrameContext>)
    ensures
        final(steps)@ == old(steps)@ + frames_plan(frames@),
{
    let ghost before = steps@;
    assert(before + frames_plan(frames@.take(0)) =~= before);
    for index in 0..frames.len()
        invariant
            steps@ == before + frames_plan(frames@.take(index as int)),
    {
        push_frame(steps, frames[index]);
        proof {
            let prefix = frames@.take(index + 1);
            assert(prefix.drop_last() =~= frames@.take(index as int));
            assert(prefix.last() == frames@[index as int]);
            assert(steps@ =~= before + frames_plan(prefix));
        }
    }
    assert(frames@.take(frames@.len() as int) =~= frames@);
}

/// Whether all bits of `required` are set in `flags`.
pub open spec fn has_flags(flags: u32, required: u32) -> bool {
    flags & required == required
}

/// Whether memory type `index` of a device serves an allocation.
pub open spec fn memory_type_fits(bits: u32, types: Seq<u32>, required: u32, index: int) -> bool {
    bits & (1u32 << (index as u32)) != 0 && has_flags(types[index], required)
}

/// Whether a memory type is the first that serves an allocation, or none does.
pub open spec fn is_first_fitting(
    bits: u32,
    types: Seq<u32>,
    required: u32,
    found: Option<u32>,
) -> bool {
    match found {
        Some(index) => index < types.len() && memory_type_fits(bits, types, required, index as int)
            && forall|earlier: int|
            0 <= earlier < index ==> !#[trigger] memory_type_fits(bits, types, required, earlier),
        None => forall|index: int|
            0 <= index < types.len() ==> !#[trigger] memory_type_fits(bits, types, required, index),
    }
}

/// The first memory type that an allocation allows and that has the properties
/// asked for. `types` holds the property flags of the device's memory types.
pub fn find_memory_type(bits: u32, types: &[u32], required: u32) -> (found: Option<u32>)
    requires
        types@.len() <= 32,
    ensures
        is_first_fitting(bits, types@, required, found),
{
    for index in 0..types.len()
        invariant
            types@.len() <= 32,
            forall|earlier: int|
                0 <= earlier < index ==> !#[trigger] memory_type_fits(
                    bits,
                    types@,
                    required,
                    earlier,
                ),
    {
        let number: u32 = index as u32;
        if bits & (1u32 << number) != 0 && types[index] & required == required {
            assert(memory_type_fits(bits, types@, required, index as int));
            return Some(number);
        }
    }
    None
}

/// The formats that may hold the scene, in the order they are tried.
pub open spec fn scene_format_candidates(swapchain_format: i32) -> Seq<i32> {
    seq![swapchain_format, FORMAT_R8G8B8A8_UNORM, FORMAT_B8G8R8A8_UNORM]
}

/// What is known of the format for the scene.
#[derive(Clone, Copy, Debug, PartialEq, Eq, Structural)]
pub enum SceneFormatStep {
    /// The features of this format have to be queried next.
    Probe(i32),
    /// This format holds the scene.
    Found(i32),
    /// No format can hold it.
    Missing,
}

/// Chooses the format for the scene from the features of the candidates that were
/// queried so far, in order.
pub fn choose_scene_format(swapchain_format: i32, features: &[u32]) -> (step: SceneFormatStep)
    requires
        features@.len() <= 3,
    ensures
        match step {
            SceneFormatStep::Found(format) => exists|index: int|
                #![trigger has_flags(features@[index], SCENE_FORMAT_FEATURES)]
                0 <= index < features@.len() && has_flags(features@[index], SCENE_FORMAT_FEATURES)
                    && format == scene_format_candidates(swapchain_format)[index] && forall|
                    earlier: int,
                |
                    #![trigger has_flags(features@[earlier], SCENE_FORMAT_FEATURES)]
                    0 <= earlier < index ==> !has_flags(features@[earlier], SCENE_FORMAT_FEATURES),
            SceneFormatStep::Probe(format) => features@.len() < 3 && format
                == scene_format_candidates(swapchain_format)[features@.len() as int] && forall|
                index: int,
            |
                #![trigger has_flags(features@[index], SCENE_FORMAT_FEATURES)]
                0 <= index < features@.len() ==> !has_flags(
                    features@[index],
                    SCENE_FORMAT_FEATURES,
                ),
            SceneFormatStep::Missing => features@.len() == 3 && forall|index: int|
                #![trigger has_flags(features@[index], SCENE_FORMAT_FEATURES)]
                0 <= index < features@.len() ==> !has_flags(
                    features@[index],
                    SCENE_FORMAT_FEATURES,
                ),
        },
{
    let candidates: [i32; 3] = [swapchain_format, FORMAT_R8G8B8A8_UNORM, FORMAT_B8G8R8A8_UNORM];
    assert(candidates@ =~= scene_format_candidates(swapchain_format));
    for index in 0..features.len()
        invariant
            features@.len() <= 3,
            candidates@ == scene_format_candidates(swapchain_format),
            forall|earlier: int|
                0 <= earlier < index ==> !#[trigger] has_flags(
                    features@[earlier],
                    SCENE_FORMAT_FEATURES,
                ),
    {
        if features[index] & SCENE_FORMAT_FEATURES == SCENE_FORMAT_FEATURES {
            assert(has_flags(features@[index as int], SCENE_FORMAT_FEATURES));
            return SceneFormatStep::Found(candidates[index]);
        }
    }
    if features.len() == 3 {
        SceneFormatStep::Missing
    } else {
        SceneFormatStep::Probe(candidates[features.len()])
    }
}

/// How far the images of a new swapchain had been made drawable when a step failed.
#[derive(Clone, Copy, Debug, PartialEq, Eq, Structural)]
pub enum RenderingStage {
    ImageView,
    RenderPass,
    Pipeline,
    Framebuffer,
}

/// What makes the images of a swapchain drawable.
#[derive(Debug)]
pub struct SwapchainRendering {
    pub views: Vec<u64>,
    pub render_pass: u64,
    pub pipeline: u64,
    pub framebuffers: Vec<u64>,
}

impl SwapchainRendering {
    /// What has to be taken down, in order.
    pub open spec fn plan(self) -> Seq<Teardown> {
        each(HandleKind::Framebuffer, self.framebuffers@) + live(
            HandleKind::Pipeline,
            self.pipeline,
        ) + live(HandleKind::RenderPass, self.render_pass) + each(
            HandleKind::ImageView,
            self.views@,
        )
    }

    /// What is taken down where creating the next object failed. A failure to
    /// create the render pass takes nothing down.
    pub open spec fn rollback_plan(self, stage: RenderingStage) -> Seq<Teardown> {
        match stage {
            RenderingStage::ImageView => each(HandleKind::ImageView, self.views@),
            RenderingStage::RenderPass => seq![],
            RenderingStage::Pipeline => seq![
                Teardown { kind: HandleKind::RenderPass, handle: self.render_pass },
            ] + each(HandleKind::ImageView, self.views@),
            RenderingStage::Framebuffer => each(HandleKind::Framebuffer, self.framebuffers@)
                + seq![
                Teardown { kind: HandleKind::Pipeline, handle: self.pipeline },
                Teardown { kind: HandleKind::RenderPass, handle: self.render_pass },
            ] + each(HandleKind::ImageView, self.views@),
        }
    }

    /// Nothing created yet.
    pub fn new() -> (rendering: SwapchainRendering)
        ensures
            rendering.plan() =~= Seq::<Teardown>::empty(),
            rendering.views@.len() == 0,
            rendering.framebuffers@.len() == 0,
            rendering.render_pass == 0,
            rendering.pipeline == 0,
    {
        SwapchainRendering {
            views: Vec::new(),
            render_pass: 0,
            pipeline: 0,
            framebuffers: Vec::new(),
        }
    }

    /// What has to be taken down, in order.
    pub fn teardown(&self) -> (steps: Vec<Teardown>)
        ensures
            steps@ == self.plan(),
    {
        let mut steps: Vec<Teardown> = Vec::new();
        push_each(&mut steps, HandleKind::Framebuffer, &self.framebuffers);
        push_live(&mut steps, HandleKind::Pipeline, self.pipeline);
        push_live(&mut steps, HandleKind::RenderPass, self.render_pass);
        push_each(&mut steps, HandleKind::ImageView, &self.views);
        assert(steps@ =~= self.plan());
        steps
    }

    /// What is taken down where creating the next object failed.
    pub fn rollback(&self, stage: RenderingStage) -> (steps: Vec<Teardown>)
        ensures
            steps@ == self.rollback_plan(stage),
    {
        let mut steps: Vec<Teardown> = Vec::new();
        match stage {
            RenderingStage::ImageView => {
                push_each(&mut steps, HandleKind::ImageView, &self.views);
            },
            RenderingStage::RenderPass => {},
            RenderingStage::Pipeline => {
                steps.push(Teardown { kind: HandleKind::RenderPass, handle: self.render_pass });
                push_each(&mut steps, HandleKind::ImageView, &self.views);
            },
            RenderingStage::Framebuffer => {
                push_each(&mut steps, HandleKind::Framebuffer, &self.framebuffers);
                steps.push(Teardown { kind: HandleKind::Pipeline, handle: self.pipeline });
                steps.push(Teardown { kind: HandleKind::RenderPass, handle: self.render_pass });
                push_each(&mut steps, HandleKind::ImageView, &self.views);
            },
        }
        assert(steps@ =~= self.rollback_plan(stage));
        steps
    }
}

/// Whether objects of one kind go before those of another.
pub open spec fn goes_before(steps: Seq<Teardown>, first: HandleKind, second: HandleKind) -> bool {
    forall|left: int, right: int|
        0 <= left < steps.len() && 0 <= right < steps.len() && (#[trigger] steps[left]).kind
            == first && (#[trigger] steps[right]).kind == second ==> left < right
}

/// Whether an object that exists is among those to take down.
pub open spec fn is_taken_down(steps: Seq<Teardown>, kind: HandleKind, handle: u64) -> bool {
    handle != 0 ==> steps.contains(Teardown { kind, handle })
}

/// An object that exists is what goes of it.
pub(crate) proof fn live_is_taken_down(kind: HandleKind, handle: u64)
    ensures
        is_taken_down(live(kind, handle), kind, handle),
{
    if handle != 0 {
        assert(live(kind, handle)[0] == Teardown { kind, handle });
    }
}

/// Each object of a list is among those that go.
pub(crate) proof fn each_is_taken_down(kind: HandleKind, handles: Seq<u64>, index: int)
    requires
        0 <= index < handles.len(),
    ensures
        each(kind, handles).contains(Teardown { kind, handle: handles[index] }),
{
    assert(each(kind, handles)[index] == Teardown { kind, handle: handles[index] });
}

/// Each live object of a list is among those that go.
pub(crate) proof fn each_live_is_taken_down(kind: HandleKind, handles: Seq<u64>, index: int)
    requires
        0 <= index < handles.len(),
    ensures
        is_taken_down(each_live(kind, handles), kind, handles[index]),
    decreases handles.len(),
{
    broadcast use vstd::seq_lib::lemma_seq_concat_contains_all_elements;

    if index == handles.len() - 1 {
        live_is_taken_down(kind, handles[index]);
    } else {
        each_live_is_taken_down(kind, handles.drop_last(), index);
    }
}

proof fn target_is_taken_down(targets: Seq<TransitionTarget>, index: int)
    requires
        0 <= index < targets.len(),
    ensures
        is_taken_down(targets_plan(targets), HandleKind::Framebuffer, targets[index].framebuffer),
        is_taken_down(targets_plan(targets), HandleKind::ImageView, targets[index].image_view),
        is_taken_down(targets_plan(targets), HandleKind::Image, targets[index].image),
        is_taken_down(targets_plan(targets), HandleKind::Memory, targets[index].memory),
    decreases targets.len(),
{
    broadcast use vstd::seq_lib::lemma_seq_concat_contains_all_elements;

    if index == targets.len() - 1 {
        live_is_taken_down(HandleKind::Framebuffer, targets[index].framebuffer);
        live_is_taken_down(HandleKind::ImageView, targets[index].image_view);
        live_is_taken_down(HandleKind::Image, targets[index].image);
        live_is_taken_down(HandleKind::Memory, targets[index].memory);
    } else {
        target_is_taken_down(targets.drop_last(), index);
    }
}

/// All that was created of a scene goes: what samples and draws it before the views that
/// it is drawn through, the views before the image, the image before its memory.
pub proof fn whole_scene_goes(scene: BlurResources, steps: Vec<Teardown>, index: int)
    requires
        call_ensures(BlurResources::teardown, (&scene,), steps),
    ensures
        is_taken_down(steps@, HandleKind::DescriptorSet, scene.mix_descriptor_set),
        is_taken_down(steps@, HandleKind::Pipeline, scene.blur_pipeline),
        is_taken_down(steps@, HandleKind::Pipeline, scene.downsample_pipeline),
        is_taken_down(steps@, HandleKind::Pipeline, scene.composition_pipeline),
        is_taken_down(steps@, HandleKind::RenderPass, scene.render_pass),
        is_taken_down(steps@, HandleKind::ImageView, scene.all_levels_view),
        is_taken_down(steps@, HandleKind::Image, scene.image),
        is_taken_down(steps@, HandleKind::Memory, scene.memory),
        0 <= index < scene.downsample_descriptor_sets@.len() ==> steps@.contains(
            Teardown {
                kind: HandleKind::DescriptorSet,
                handle: scene.downsample_descriptor_sets@[index],
            },
        ),
        0 <= index < scene.framebuffers@.len() ==> steps@.contains(
            Teardown { kind: HandleKind::Framebuffer, handle: scene.framebuffers@[index] },
        ),
        0 <= index < scene.mip_views@.len() ==> steps@.contains(
            Teardown { kind: HandleKind::ImageView, handle: scene.mip_views@[index] },
        ),
        steps@.len() <= scene.downsample_descriptor_sets@.len() + scene.framebuffers@.len()
            + scene.mip_views@.len() + 8,
        goes_before(steps@, HandleKind::Framebuffer, HandleKind::ImageView),
        goes_before(steps@, HandleKind::Framebuffer, HandleKind::RenderPass),
        goes_before(steps@, HandleKind::ImageView, HandleKind::Image),
        goes_before(steps@, HandleKind::Image, HandleKind::Memory),
        goes_before(steps@, HandleKind::DescriptorSet, HandleKind::ImageView),
{
    scene_goes_completely(scene, steps, index);
    scene_goes_in_order(scene, steps);
}

proof fn scene_goes_completely(scene: BlurResources, steps: Vec<Teardown>, index: int)
    requires
        call_ensures(BlurResources::teardown, (&scene,), steps),
    ensures
        is_taken_down(steps@, HandleKind::DescriptorSet, scene.mix_descriptor_set),
        is_taken_down(steps@, HandleKind::Pipeline, scene.blur_pipeline),
        is_taken_down(steps@, HandleKind::Pipeline, scene.downsample_pipeline),
        is_taken_down(steps@, HandleKind::Pipeline, scene.composition_pipeline),
        is_taken_down(steps@, HandleKind::RenderPass, scene.render_pass),
        is_taken_down(steps@, HandleKind::ImageView, scene.all_levels_view),
        is_taken_down(steps@, HandleKind::Image, scene.image),
        is_taken_down(steps@, HandleKind::Memory, scene.memory),
        0 <= index < scene.downsample_descriptor_sets@.len() ==> steps@.contains(
            Teardown {
                kind: HandleKind::DescriptorSet,
                handle: scene.downsample_descriptor_sets@[index],
            },
        ),
        0 <= index < scene.framebuffers@.len() ==> steps@.contains(
            Teardown { kind: HandleKind::Framebuffer, handle: scene.framebuffers@[index] },
        ),
        0 <= index < scene.mip_views@.len() ==> steps@.contains(
            Teardown { kind: HandleKind::ImageView, handle: scene.mip_views@[index] },
        ),
        steps@.len() <= scene.downsample_descriptor_sets@.len() + scene.framebuffers@.len()
            + scene.mip_views@.len() + 8,
{
    broadcast use vstd::seq_lib::lemma_seq_concat_contains_all_elements;

    live_is_taken_down(HandleKind::DescriptorSet, scene.mix_descriptor_set);
    live_is_taken_down(HandleKind::Pipeline, scene.blur_pipeline);
    live_is_taken_down(HandleKind::Pipeline, scene.downsample_pipeline);
    live_is_taken_down(HandleKind::Pipeline, scene.composition_pipeline);
    live_is_taken_down(HandleKind::RenderPass, scene.render_pass);
    live_is_taken_down(HandleKind::ImageView, scene.all_levels_view);
    live_is_taken_down(HandleKind::Image, scene.image);
    live_is_taken_down(HandleKind::Memory, scene.memory);
    if 0 <= index < scene.downsample_descriptor_sets@.len() {
        each_is_taken_down(HandleKind::DescriptorSet, scene.downsample_descriptor_sets@, index);
    }
    if 0 <= index < scene.framebuffers@.len() {
        each_is_taken_down(HandleKind::Framebuffer, scene.framebuffers@, index);
    }
    if 0 <= index < scene.mip_views@.len() {
        each_is_taken_down(HandleKind::ImageView, scene.mip_views@, index);
    }
}

proof fn scene_goes_in_order(scene: BlurResources, steps: Vec<Teardown>)
    requires
        call_ensures(BlurResources::teardown, (&scene,), steps),
    ensures
        goes_before(steps@, HandleKind::Framebuffer, HandleKind::ImageView),
        goes_before(steps@, HandleKind::Framebuffer, HandleKind::RenderPass),
        goes_before(steps@, HandleKind::ImageView, HandleKind::Image),
        goes_before(steps@, HandleKind::Image, HandleKind::Memory),
        goes_before(steps@, HandleKind::DescriptorSet, HandleKind::ImageView),
{
}

/// All that was created of the transition targets goes, the descriptor sets that sample
/// them first.
pub proof fn whole_targets_go(resources: TransitionResources, steps: Vec<Teardown>, index: int)
    requires
        call_ensures(TransitionResources::teardown, (&resources,), steps),
    ensures
        is_taken_down(steps@, HandleKind::Pipeline, resources.capture_pipeline),
        is_taken_down(steps@, HandleKind::Pipeline, resources.capture_scene_pipeline),
        is_taken_down(steps@, HandleKind::Pipeline, resources.output_pipeline),
        0 <= index < resources.targets@.len() ==> {
            let target = resources.targets@[index];
            &&& is_taken_down(steps@, HandleKind::DescriptorSet, target.descriptor_set)
            &&& is_taken_down(steps@, HandleKind::Framebuffer, target.framebuffer)
            &&& is_taken_down(steps@, HandleKind::ImageView, target.image_view)
            &&& is_taken_down(steps@, HandleKind::Image, target.image)
            &&& is_taken_down(steps@, HandleKind::Memory, target.memory)
        },
{
    broadcast use vstd::seq_lib::lemma_seq_concat_contains_all_elements;

    live_is_taken_down(HandleKind::Pipeline, resources.capture_pipeline);
    live_is_taken_down(HandleKind::Pipeline, resources.capture_scene_pipeline);
    live_is_taken_down(HandleKind::Pipeline, resources.output_pipeline);
    if 0 <= index < resources.targets@.len() {
        let sets = target_sets(resources.targets@);
        assert(sets[index] == resources.targets@[index].descriptor_set);
        each_live_is_taken_down(HandleKind::DescriptorSet, sets, index);
        target_is_taken_down(resources.targets@, index);
    }
}

/// All that makes the images of a swapchain drawable goes, the framebuffers before the
/// views that they are drawn through. Where a step of making it failed, what was made
/// before goes; nothing goes where the render pass could not be made.
pub proof fn whole_rendering_goes(
    rendering: SwapchainRendering,
    steps: Vec<Teardown>,
    stage: RenderingStage,
    undone: Vec<Teardown>,
    index: int,
)
    requires
        call_ensures(SwapchainRendering::teardown, (&rendering,), steps),
        call_ensures(SwapchainRendering::rollback, (&rendering, stage), undone),
    ensures
        is_taken_down(steps@, HandleKind::Pipeline, rendering.pipeline),
        is_taken_down(steps@, HandleKind::RenderPass, rendering.render_pass),
        0 <= index < rendering.framebuffers@.len() ==> steps@.contains(
            Teardown { kind: HandleKind::Framebuffer, handle: rendering.framebuffers@[index] },
        ),
        0 <= index < rendering.views@.len() ==> steps@.contains(
            Teardown { kind: HandleKind::ImageView, handle: rendering.views@[index] },
        ),
        steps@.len() <= rendering.framebuffers@.len() + rendering.views@.len() + 2,
        goes_before(steps@, HandleKind::Framebuffer, HandleKind::ImageView),
        goes_before(steps@, HandleKind::Pipeline, HandleKind::RenderPass),
        stage is RenderPass ==> undone@.len() == 0,
        stage !is RenderPass && 0 <= index < rendering.views@.len() ==> undone@.contains(
            Teardown { kind: HandleKind::ImageView, handle: rendering.views@[index] },
        ),
        stage is Pipeline || stage is Framebuffer ==> undone@.contains(
            Teardown { kind: HandleKind::RenderPass, handle: rendering.render_pass },
        ),
        stage is Framebuffer ==> undone@.contains(
            Teardown { kind: HandleKind::Pipeline, handle: rendering.pipeline },
        ),
        stage is Framebuffer && 0 <= index < rendering.framebuffers@.len() ==> undone@.contains(
            Teardown { kind: HandleKind::Framebuffer, handle: rendering.framebuffers@[index] },
        ),
        goes_before(undone@, HandleKind::Framebuffer, HandleKind::ImageView),
{
    broadcast use vstd::seq_lib::lemma_seq_concat_contains_all_elements;

    live_is_taken_down(HandleKind::Pipeline, rendering.pipeline);
    live_is_taken_down(HandleKind::RenderPass, rendering.render_pass);
    let pass = Teardown { kind: HandleKind::RenderPass, handle: rendering.render_pass };
    let pipeline = Teardown { kind: HandleKind::Pipeline, handle: rendering.pipeline };
    assert(seq![pass][0] == pass);
    assert(seq![pipeline, pass][0] == pipeline);
    assert(seq![pipeline, pass][1] == pass);
    if 0 <= index < rendering.framebuffers@.len() {
        each_is_taken_down(HandleKind::Framebuffer, rendering.framebuffers@, index);
    }
    if 0 <= index < rendering.views@.len() {
        each_is_taken_down(HandleKind::ImageView, rendering.views@, index);
    }
}

/// The replaced swapchain at `index` goes with its semaphores.
pub(crate) proof fn retired_is_taken_down(
    retired: Seq<RetiredSwapchain>,
    index: int,
    semaphore: int,
)
    requires
        0 <= index < retired.len(),
    ensures
        retired_plan(retired).contains(
            Teardown { kind: HandleKind::Swapchain, handle: retired[index].handle },
        ),
        0 <= semaphore < retired[index].present_ready@.len() ==> retired_plan(retired).contains(
            Teardown {
                kind: HandleKind::Semaphore,
                handle: retired[index].present_ready@[semaphore],
            },
        ),
    decreases retired.len(),
{
    broadcast use vstd::seq_lib::lemma_seq_concat_contains_all_elements;
    broadcast use vstd::seq_lib::lemma_seq_contains_after_push;

    if index == retired.len() - 1 {
        if 0 <= semaphore < retired[index].present_ready@.len() {
            each_is_taken_down(
                HandleKind::Semaphore,
                retired[index].present_ready@,
                semaphore,
            );
        }
    } else {
        retired_is_taken_down(retired.drop_last(), index, semaphore);
    }
}

/// The frame slot at `index` goes with what is owed for it.
pub(crate) proof fn slot_is_taken_down(frames: Seq<FrameContext>, index: int)
    requires
        0 <= index < frames.len(),
    ensures
        is_taken_down(frames_plan(frames), HandleKind::Fence, frames[index].fence),
        is_taken_down(frames_plan(frames), HandleKind::Semaphore, frames[index].image_available),
        is_taken_down(frames_plan(frames), HandleKind::CommandPool, frames[index].command_pool),
        frames[index].pending_release matches Some(release) ==> frames_plan(frames).contains(
            Teardown {
                kind: HandleKind::ReleaseFd,
                handle: release.release_syncobj_fd as u64,
            },
        ),
    decreases frames.len(),
{
    broadcast use vstd::seq_lib::lemma_seq_concat_contains_all_elements;

    if index == frames.len() - 1 {
        let frame = frames[index];
        live_is_taken_down(HandleKind::Fence, frame.fence);
        live_is_taken_down(HandleKind::Semaphore, frame.image_available);
        live_is_taken_down(HandleKind::CommandPool, frame.command_pool);
        if let Some(release) = frame.pending_release {
            assert(seq![release_fd(release)][0] == release_fd(release));
        }
    } else {
        slot_is_taken_down(frames.drop_last(), index);
    }
}

/// The memory type that is found is one that the allocation allows and that has all the
/// properties asked for, and one is found wherever there is one.
pub proof fn memory_type_serves_the_allocation(
    bits: u32,
    types: &[u32],
    required: u32,
    found: Option<u32>,
    index: u32,
)
    requires
        types@.len() <= 32,
        call_ensures(find_memory_type, (bits, types, required), found),
        index < types@.len(),
    ensures
        found matches Some(chosen) ==> chosen < types@.len() && bits & (1u32 << chosen) != 0
            && types@[chosen as int] & required == required,
        bits & (1u32 << index) != 0 && types@[index as int] & required == required ==> found
            is Some && found->0 <= index,
{
    if bits & (1u32 << index) != 0 && types@[index as int] & required == required {
        assert(memory_type_fits(bits, types@, required, index as int));
    }
}

/// The scene has the format of the swapchain where that can be drawn to and sampled
/// smoothly, else one of two common formats, in order; one is asked about after the
/// other until one will do.
pub proof fn scene_has_the_first_format_that_will_do(
    swapchain_format: i32,
    features: &[u32],
    step: SceneFormatStep,
)
    requires
        features@.len() <= 3,
        call_ensures(choose_scene_format, (swapchain_format, features), step),
    ensures
        features@.len() == 0 ==> step == SceneFormatStep::Probe(swapchain_format),
        features@.len() > 0 && features@[0] & 0x1081 == 0x1081 ==> step == SceneFormatStep::Found(
            swapchain_format,
        ),
        features@.len() == 1 && features@[0] & 0x1081 != 0x1081 ==> step == SceneFormatStep::Probe(
            37,
        ),
        features@.len() > 1 && features@[0] & 0x1081 != 0x1081 && features@[1] & 0x1081 == 0x1081
            ==> step == SceneFormatStep::Found(37),
        features@.len() == 2 && features@[0] & 0x1081 != 0x1081 && features@[1] & 0x1081 != 0x1081
            ==> step == SceneFormatStep::Probe(44),
        features@.len() == 3 && features@[0] & 0x1081 != 0x1081 && features@[1] & 0x1081 != 0x1081
            ==> if features@[2] & 0x1081 == 0x1081 {
            step == SceneFormatStep::Found(44)
        } else {
            step is Missing
        },
{
    if features@.len() > 0 {
        assert(has_flags(features@[0], SCENE_FORMAT_FEATURES) == (features@[0] & 0x1081 == 0x1081));
    }
    if features@.len() > 1 {
        assert(has_flags(features@[1], SCENE_FORMAT_FEATURES) == (features@[1] & 0x1081 == 0x1081));
    }
    if features@.len() > 2 {
        assert(has_flags(features@[2], SCENE_FORMAT_FEATURES) == (features@[2] & 0x1081 == 0x1081));
    }
}

/// The last of the descriptor sets samples all levels of a scene, the others one level
/// each, in order.
pub proof fn last_descriptor_set_samples_all_levels(
    scene: &mut BlurResources,
    sets: Vec<u64>,
    index: int,
)
    requires
        sets@.len() > 0,
        call_ensures(BlurResources::assign_descriptor_sets, (scene, sets), ()),
    ensures
        final(scene).mix_descriptor_set == sets@[sets@.len() - 1],
        final(scene).downsample_descriptor_sets@.len() == sets@.len() - 1,
        0 <= index < sets@.len() - 1 ==> final(scene).downsample_descriptor_sets@[index]
            == sets@[index],
        final(scene).image == old(scene).image,
        final(scene).mip_views@ == old(scene).mip_views@,
        final(scene).base_valid == old(scene).base_valid,
        final(scene).pyramid_valid == old(scene).pyramid_valid,
        final(scene).pyramid_dirty == old(scene).pyramid_dirty,
{
}

/// Nothing is created at first, neither of a scene nor of what draws to a swapchain, and a
/// scene holds nothing.
pub proof fn nothing_is_created_at_first(
    format: i32,
    extent: Extent2D,
    scene: BlurResources,
    rendering: SwapchainRendering,
    steps: Vec<Teardown>,
)
    requires
        call_ensures(BlurResources::new, (format, extent), scene),
        call_ensures(SwapchainRendering::new, (), rendering),
        call_ensures(BlurResources::teardown, (&scene,), steps),
    ensures
        scene.format == format,
        scene.extent == extent,
        !scene.base_valid,
        !scene.pyramid_valid,
        !scene.pyramid_dirty,
        steps@.len() == 0,
        rendering.views@.len() == 0,
        rendering.framebuffers@.len() == 0,
        rendering.render_pass == 0,
        rendering.pipeline == 0,
{
}

} // verus!
