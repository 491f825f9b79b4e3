//! Creating the kept scene and the transition targets, object by object.
//!
//! A build says what to create next and records what came of it. Where a step
//! fails, what the build recorded so far is taken down like finished resources.

use crate::effects::{blur_mip_extent, blur_mip_level_count, MAX_BLUR_MIP_LEVELS};
#[allow(unused_imports)]
use crate::effects::{mip_dimension, mip_is_single_pixel};
use crate::geometry::Extent2D;
use crate::presenter::WsiPresenter;
use crate::resources::{
    BlurResources, TransitionResources, TransitionTarget, TRANSITION_TARGET_COUNT,
};
#[allow(unused_imports)]
use crate::resources::{
    each, each_live, live, target_plan, target_sets, targets_plan, HandleKind, Teardown,
};
use vstd::prelude::*;

verus! {

/// The shaders of a pipeline.
#[derive(Clone, Copy, Debug, PartialEq, Eq, Structural)]
pub enum Shaders {
    /// Places a frame of the producer.
    Composition,
    /// Halves a mip level.
    Downsample,
    /// Mixes the mip levels of the scene.
    Blur,
    /// Mixes scene and outgoing content.
    Transition,
}

/// What a build needs next.
#[derive(Clone, Copy, Debug, PartialEq, Eq, Structural)]
pub enum BuildRequest {
    CreateImage { format: i32, extent: Extent2D, mip_levels: u32 },
    AllocateMemory { image: u64 },
    BindMemory { image: u64, memory: u64 },
    CreateView { image: u64, format: i32, base_level: u32, level_count: u32 },
    CreateRenderPass { format: i32 },
    CreatePipeline { render_pass: u64, shaders: Shaders },
    CreateFramebuffer { render_pass: u64, attachment: u64, extent: Extent2D },
    AllocateDescriptorSets { count: u32 },
    /// Everything is there.
    Complete,
}

/// What came of a request.
#[derive(Debug)]
pub enum BuildReply {
    Created(u64),
    Bound,
    Allocated(Vec<u64>),
}

/// A descriptor set to fill in: `image_view` at `binding`.
#[derive(Clone, Copy, Debug, PartialEq, Eq, Structural)]
pub struct DescriptorWrite {
    pub descriptor_set: u64,
    pub binding: u32,
    pub image_view: u64,
}

/// How far a scene has been built.
#[derive(Clone, Copy, Debug, PartialEq, Eq, Structural)]
pub enum SceneStage {
    Image,
    Memory,
    Bind,
    AllLevelsView,
    MipViews,
    RenderPass,
    CompositionPipeline,
    DownsamplePipeline,
    Framebuffers,
    OutputPipeline,
    DescriptorSets,
    Complete,
}

/// A scene in the making.
#[derive(Debug)]
pub struct SceneBuild {
    pub resources: BlurResources,
    pub mip_levels: u32,
    pub swapchain_render_pass: u64,
    pub stage: SceneStage,
}

impl SceneStage {
    /// The place of the stage in the order of creation.
    pub open spec fn rank(self) -> int {
        match self {
            SceneStage::Image => 0,
            SceneStage::Memory => 1,
            SceneStage::Bind => 2,
            SceneStage::AllLevelsView => 3,
            SceneStage::MipViews => 4,
            SceneStage::RenderPass => 5,
            SceneStage::CompositionPipeline => 6,
            SceneStage::DownsamplePipeline => 7,
            SceneStage::Framebuffers => 8,
            SceneStage::OutputPipeline => 9,
            SceneStage::DescriptorSets => 10,
            SceneStage::Complete => 11,
        }
    }
}

impl SceneBuild {
    /// What comes at a later stage does not exist yet.
    pub open spec fn later_is_missing(self) -> bool {
        let scene = self.resources;
        let rank = self.stage.rank();
        &&& rank <= 0 ==> scene.image == 0
        &&& rank <= 1 ==> scene.memory == 0
        &&& rank <= 3 ==> scene.all_levels_view == 0
        &&& rank <= 5 ==> scene.render_pass == 0
        &&& rank <= 6 ==> scene.composition_pipeline == 0
        &&& rank <= 7 ==> scene.downsample_pipeline == 0
        &&& rank <= 9 ==> scene.blur_pipeline == 0
        &&& rank <= 10 ==> scene.mix_descriptor_set == 0
            && scene.downsample_descriptor_sets@.len() == 0
    }

    /// As many views and framebuffers exist as the stage says, and nothing of a
    /// later stage.
    pub open spec fn wf(self) -> bool {
        let views = self.resources.mip_views@.len();
        let framebuffers = self.resources.framebuffers@.len();
        &&& self.later_is_missing()
        &&& 1 <= self.mip_levels <= MAX_BLUR_MIP_LEVELS
        &&& match self.stage {
            SceneStage::Image | SceneStage::Memory | SceneStage::Bind | SceneStage::AllLevelsView =>
                views == 0 && framebuffers == 0,
            SceneStage::MipViews => views < self.mip_levels && framebuffers == 0,
            SceneStage::RenderPass | SceneStage::CompositionPipeline
            | SceneStage::DownsamplePipeline => views == self.mip_levels && framebuffers == 0,
            SceneStage::Framebuffers => views == self.mip_levels && framebuffers < self.mip_levels,
            SceneStage::OutputPipeline | SceneStage::DescriptorSets => views == self.mip_levels
                && framebuffers == self.mip_levels,
            SceneStage::Complete => self.resources.complete(self.mip_levels as nat),
        }
    }

    /// The objects that a reply brings.
    pub open spec fn brought(self, reply: BuildReply) -> Seq<Teardown> {
        match reply {
            BuildReply::Bound => seq![],
            BuildReply::Allocated(sets) => each(HandleKind::DescriptorSet, sets@),
            BuildReply::Created(handle) => seq![
                Teardown {
                    kind: match self.stage {
                        SceneStage::Image => HandleKind::Image,
                        SceneStage::Memory => HandleKind::Memory,
                        SceneStage::AllLevelsView | SceneStage::MipViews => HandleKind::ImageView,
                        SceneStage::RenderPass => HandleKind::RenderPass,
                        SceneStage::Framebuffers => HandleKind::Framebuffer,
                        _ => HandleKind::Pipeline,
                    },
                    handle,
                },
            ],
        }
    }

    /// What is needed next.
    pub open spec fn wanted(self) -> BuildRequest {
        let scene = self.resources;
        match self.stage {
            SceneStage::Image => BuildRequest::CreateImage {
                format: scene.format,
                extent: scene.extent,
                mip_levels: self.mip_levels,
            },
            SceneStage::Memory => BuildRequest::AllocateMemory { image: scene.image },
            SceneStage::Bind => BuildRequest::BindMemory {
                image: scene.image,
                memory: scene.memory,
            },
            SceneStage::AllLevelsView => BuildRequest::CreateView {
                image: scene.image,
                format: scene.format,
                base_level: 0,
                level_count: self.mip_levels,
            },
            SceneStage::MipViews => BuildRequest::CreateView {
                image: scene.image,
                format: scene.format,
                base_level: scene.mip_views@.len() as u32,
                level_count: 1,
            },
            SceneStage::RenderPass => BuildRequest::CreateRenderPass { format: scene.format },
            SceneStage::CompositionPipeline => BuildRequest::CreatePipeline {
                render_pass: scene.render_pass,
                shaders: Shaders::Composition,
            },
            SceneStage::DownsamplePipeline => BuildRequest::CreatePipeline {
                render_pass: scene.render_pass,
                shaders: Shaders::Downsample,
            },
            SceneStage::Framebuffers => {
                let level = scene.framebuffers@.len();
                BuildRequest::CreateFramebuffer {
                    render_pass: scene.render_pass,
                    attachment: scene.mip_views@[level as int],
                    extent: Extent2D {
                        width: mip_dimension(scene.extent.width, level) as u32,
                        height: mip_dimension(scene.extent.height, level) as u32,
                    },
                }
            },
            SceneStage::OutputPipeline => BuildRequest::CreatePipeline {
                render_pass: self.swapchain_render_pass,
                shaders: Shaders::Blur,
            },
            SceneStage::DescriptorSets => BuildRequest::AllocateDescriptorSets {
                count: self.mip_levels,
            },
            SceneStage::Complete => BuildRequest::Complete,
        }
    }

    /// The stage after one more object of this stage exists. Only a scene with
    /// several levels is downsampled.
    pub open spec fn stage_after(self) -> SceneStage {
        match self.stage {
            SceneStage::Image => SceneStage::Memory,
            SceneStage::Memory => SceneStage::Bind,
            SceneStage::Bind => SceneStage::AllLevelsView,
            SceneStage::AllLevelsView => SceneStage::MipViews,
            SceneStage::MipViews => if self.resources.mip_views@.len() + 1 < self.mip_levels {
                SceneStage::MipViews
            } else {
                SceneStage::RenderPass
            },
            SceneStage::RenderPass => SceneStage::CompositionPipeline,
            SceneStage::CompositionPipeline => if self.mip_levels > 1 {
                SceneStage::DownsamplePipeline
            } else {
                SceneStage::Framebuffers
            },
            SceneStage::DownsamplePipeline => SceneStage::Framebuffers,
            SceneStage::Framebuffers => if self.resources.framebuffers@.len() + 1
                < self.mip_levels {
                SceneStage::Framebuffers
            } else {
                SceneStage::OutputPipeline
            },
            SceneStage::OutputPipeline => SceneStage::DescriptorSets,
            SceneStage::DescriptorSets => SceneStage::Complete,
            SceneStage::Complete => SceneStage::Complete,
        }
    }

    /// Whether `reply` answers what is needed next.
    pub open spec fn answered_by(self, reply: BuildReply) -> bool {
        match self.stage {
            SceneStage::Bind => reply is Bound,
            SceneStage::DescriptorSets => reply is Allocated && reply->Allocated_0@.len()
                == self.mip_levels,
            SceneStage::Complete => false,
            _ => reply is Created,
        }
    }

    /// How the scene relates to what it was before `reply` was recorded.
    pub open spec fn recorded(self, before: BlurResources, stage: SceneStage, reply: BuildReply)
        -> bool {
        let scene = self.resources;
        let handle = reply->Created_0;
        match stage {
            SceneStage::Image => scene == (BlurResources { image: handle, ..before }),
            SceneStage::Memory => scene == (BlurResources { memory: handle, ..before }),
            SceneStage::Bind => scene == before,
            SceneStage::AllLevelsView => scene == (BlurResources {
                all_levels_view: handle,
                ..before
            }),
            SceneStage::MipViews => {
                &&& scene.mip_views@ == before.mip_views@.push(handle)
                &&& scene == (BlurResources { mip_views: scene.mip_views, ..before })
            },
            SceneStage::RenderPass => scene == (BlurResources { render_pass: handle, ..before }),
            SceneStage::CompositionPipeline => scene == (BlurResources {
                composition_pipeline: handle,
                ..before
            }),
            SceneStage::DownsamplePipeline => scene == (BlurResources {
                downsample_pipeline: handle,
                ..before
            }),
            SceneStage::Framebuffers => {
                &&& scene.framebuffers@ == before.framebuffers@.push(handle)
                &&& scene == (BlurResources { framebuffers: scene.framebuffers, ..before })
            },
            SceneStage::OutputPipeline => scene == (BlurResources {
                blur_pipeline: handle,
                ..before
            }),
            SceneStage::DescriptorSets => {
                let sets = reply->Allocated_0@;
                &&& scene.mix_descriptor_set == sets.last()
                &&& scene.downsample_descriptor_sets@ == sets.drop_last()
                &&& scene == (BlurResources {
                    mix_descriptor_set: scene.mix_descriptor_set,
                    downsample_descriptor_sets: scene.downsample_descriptor_sets,
                    ..before
                })
            },
            SceneStage::Complete => scene == before,
        }
    }

    /// Starts a scene of the given format and size, to be drawn in the render pass
    /// of the swapchain.
    pub fn new(swapchain_render_pass: u64, format: i32, extent: Extent2D) -> (build: SceneBuild)
        ensures
            build.wf(),
            build.stage is Image,
            build.swapchain_render_pass == swapchain_render_pass,
            build.resources.format == format,
            build.resources.extent == extent,
            build.resources.plan() =~= Seq::<Teardown>::empty(),
            !build.resources.base_valid,
            !build.resources.pyramid_valid,
            !build.resources.pyramid_dirty,
            build.mip_levels < MAX_BLUR_MIP_LEVELS ==> mip_is_single_pixel(
                extent,
                (build.mip_levels - 1) as nat,
            ),
            forall|level: nat|
                level < build.mip_levels - 1 ==> !#[trigger] mip_is_single_pixel(extent, level),
    {
        SceneBuild {
            resources: BlurResources::new(format, extent),
            mip_levels: blur_mip_level_count(extent),
            swapchain_render_pass,
            stage: SceneStage::Image,
        }
    }

    /// What is needed next.
    pub fn request(&self) -> (request: BuildRequest)
        requires
            self.wf(),
        ensures
            request == self.wanted(),
    {
        let scene = &self.resources;
        match self.stage {
            SceneStage::Image => BuildRequest::CreateImage {
                format: scene.format,
                extent: scene.extent,
                mip_levels: self.mip_levels,
            },
            SceneStage::Memory => BuildRequest::AllocateMemory { image: scene.image },
            SceneStage::Bind => BuildRequest::BindMemory {
                image: scene.image,
                memory: scene.memory,
            },
            SceneStage::AllLevelsView => BuildRequest::CreateView {
                image: scene.image,
                format: scene.format,
                base_level: 0,
                level_count: self.mip_levels,
            },
            SceneStage::MipViews => BuildRequest::CreateView {
                image: scene.image,
                format: scene.format,
                base_level: scene.mip_views.len() as u32,
                level_count: 1,
            },
            SceneStage::RenderPass => BuildRequest::CreateRenderPass { format: scene.format },
            SceneStage::CompositionPipeline => BuildRequest::CreatePipeline {
                render_pass: scene.render_pass,
                shaders: Shaders::Composition,
            },
            SceneStage::DownsamplePipeline => BuildRequest::CreatePipeline {
                render_pass: scene.render_pass,
                shaders: Shaders::Downsample,
            },
            SceneStage::Framebuffers => {
                let level: usize = scene.framebuffers.len();
                BuildRequest::CreateFramebuffer {
                    render_pass: scene.render_pass,
                    attachment: scene.mip_views[level],
                    extent: blur_mip_extent(scene.extent, level as u32),
                }
            },
            SceneStage::OutputPipeline => BuildRequest::CreatePipeline {
                render_pass: self.swapchain_render_pass,
                shaders: Shaders::Blur,
            },
            SceneStage::DescriptorSets => BuildRequest::AllocateDescriptorSets {
                count: self.mip_levels,
            },
            SceneStage::Complete => BuildRequest::Complete,
        }
    }

    fn record(&mut self, handle: u64)
        requires
            old(self).wf(),
            old(self).stage !is Bind,
            old(self).stage !is DescriptorSets,
            old(self).stage !is Complete,
        ensures
            final(self).stage == old(self).stage_after(),
            final(self).mip_levels == old(self).mip_levels,
            final(self).swapchain_render_pass == old(self).swapchain_render_pass,
            final(self).recorded(
                old(self).resources,
                old(self).stage,
                BuildReply::Created(handle),
            ),
            final(self).wf(),
    {
        match self.stage {
            SceneStage::Image => {
                self.resources.image = handle;
                self.stage = SceneStage::Memory;
            },
            SceneStage::Memory => {
                self.resources.memory = handle;
                self.stage = SceneStage::Bind;
            },
            SceneStage::AllLevelsView => {
                self.resources.all_levels_view = handle;
                self.stage = SceneStage::MipViews;
            },
            SceneStage::MipViews => {
                self.resources.mip_views.push(handle);
                if self.resources.mip_views.len() >= self.mip_levels as usize {
                    self.stage = SceneStage::RenderPass;
                }
            },
            SceneStage::RenderPass => {
                self.resources.render_pass = handle;
                self.stage = SceneStage::CompositionPipeline;
            },
            SceneStage::CompositionPipeline => {
                self.resources.composition_pipeline = handle;
                self.stage = if self.mip_levels > 1 {
                    SceneStage::DownsamplePipeline
                } else {
                    SceneStage::Framebuffers
                };
            },
            SceneStage::DownsamplePipeline => {
                self.resources.downsample_pipeline = handle;
                self.stage = SceneStage::Framebuffers;
            },
            SceneStage::Framebuffers => {
                self.resources.framebuffers.push(handle);
                if self.resources.framebuffers.len() >= self.mip_levels as usize {
                    self.stage = SceneStage::OutputPipeline;
                }
            },
            SceneStage::OutputPipeline => {
                self.resources.blur_pipeline = handle;
                self.stage = SceneStage::DescriptorSets;
            },
            _ => {},
        }
    }

    /// Records what came of the last request.
    pub fn advance(&mut self, reply: BuildReply)
        requires
            old(self).wf(),
            old(self).answered_by(reply),
        ensures
            final(self).stage == old(self).stage_after(),
            final(self).mip_levels == old(self).mip_levels,
            final(self).swapchain_render_pass == old(self).swapchain_render_pass,
            final(self).recorded(old(self).resources, old(self).stage, reply),
            final(self).wf(),
    {
        match reply {
            BuildReply::Created(handle) => self.record(handle),
            BuildReply::Bound => {
                self.stage = SceneStage::AllLevelsView;
            },
            BuildReply::Allocated(sets) => {
                self.resources.assign_descriptor_sets(sets);
                self.stage = SceneStage::Complete;
            },
        }
    }
}

impl BlurResources {
    /// Every level has a view and a framebuffer, and every level but the smallest
    /// one a descriptor set to sample it.
    pub open spec fn complete(self, mip_levels: nat) -> bool {
        &&& self.mip_views@.len() == mip_levels
        &&& self.framebuffers@.len() == mip_levels
        &&& self.downsample_descriptor_sets@.len() == mip_levels - 1
    }

    /// What the descriptor sets of the scene sample: each level but the smallest
    /// one by itself, and all levels together.
    pub open spec fn writes(self) -> Seq<DescriptorWrite> {
        Seq::new(
            self.downsample_descriptor_sets@.len(),
            |level: int|
                DescriptorWrite {
                    descriptor_set: self.downsample_descriptor_sets@[level],
                    binding: 1,
                    image_view: self.mip_views@[level],
                },
        ).push(
            DescriptorWrite {
                descriptor_set: self.mix_descriptor_set,
                binding: 1,
                image_view: self.all_levels_view,
            },
        )
    }

    /// What the descriptor sets of the scene sample.
    pub fn descriptor_writes(&self) -> (writes: Vec<DescriptorWrite>)
        requires
            self.downsample_descriptor_sets@.len() <= self.mip_views@.len(),
        ensures
            writes@ == self.writes(),
    {
        let mut writes: Vec<DescriptorWrite> = Vec::new();
        for level in 0..self.downsample_descriptor_sets.len()
            invariant
                self.downsample_descriptor_sets@.len() <= self.mip_views@.len(),
                writes@ == self.writes().take(level as int),
        {
            writes.push(
                DescriptorWrite {
                    descriptor_set: self.downsample_descriptor_sets[level],
                    binding: 1,
                    image_view: self.mip_views[level],
                },
            );
            assert(writes@ =~= self.writes().take(level + 1));
        }
        writes.push(
            DescriptorWrite {
                descriptor_set: self.mix_descriptor_set,
                binding: 1,
                image_view: self.all_levels_view,
            },
        );
        assert(writes@ =~= self.writes());
        writes
    }
}

/// Whether an object is part of a scene.
pub open spec fn part_of_scene(scene: BlurResources, object: Teardown) -> bool {
    ||| each(HandleKind::DescriptorSet, scene.downsample_descriptor_sets@).contains(object)
    ||| live(HandleKind::DescriptorSet, scene.mix_descriptor_set).contains(object)
    ||| live(HandleKind::Pipeline, scene.blur_pipeline).contains(object)
    ||| each(HandleKind::Framebuffer, scene.framebuffers@).contains(object)
    ||| live(HandleKind::Pipeline, scene.downsample_pipeline).contains(object)
    ||| live(HandleKind::Pipeline, scene.composition_pipeline).contains(object)
    ||| live(HandleKind::RenderPass, scene.render_pass).contains(object)
    ||| each(HandleKind::ImageView, scene.mip_views@).contains(object)
    ||| live(HandleKind::ImageView, scene.all_levels_view).contains(object)
    ||| live(HandleKind::Image, scene.image).contains(object)
    ||| live(HandleKind::Memory, scene.memory).contains(object)
}

proof fn plan_holds_the_parts(scene: BlurResources, object: Teardown)
    ensures
        scene.plan().contains(object) == part_of_scene(scene, object),
{
    broadcast use vstd::seq_lib::lemma_seq_concat_contains_all_elements;

}

proof fn live_holds(kind: HandleKind, handle: u64, object: Teardown)
    ensures
        live(kind, handle).contains(object) == (handle != 0 && object == (Teardown {
            kind,
            handle,
        })),
{
    if handle != 0 {
        assert(live(kind, handle)[0] == (Teardown { kind, handle }));
    }
}

proof fn each_grows(kind: HandleKind, handles: Seq<u64>, handle: u64, object: Teardown)
    ensures
        each(kind, handles.push(handle)).contains(object) == (each(kind, handles).contains(object)
            || object == (Teardown { kind, handle })),
{
    let longer = each(kind, handles.push(handle));
    assert(longer =~= each(kind, handles).push(Teardown { kind, handle }));
    vstd::seq_lib::lemma_seq_contains_after_push(
        each(kind, handles),
        Teardown { kind, handle },
        object,
    );
}

proof fn each_splits(kind: HandleKind, handles: Seq<u64>, object: Teardown)
    requires
        handles.len() > 0,
    ensures
        each(kind, handles).contains(object) == (each(kind, handles.drop_last()).contains(object)
            || object == (Teardown { kind, handle: handles.last() })),
{
    assert(handles =~= handles.drop_last().push(handles.last()));
    each_grows(kind, handles.drop_last(), handles.last(), object);
}

/// A scene that could not be finished leaves nothing behind: what is taken down of
/// it is, at every stage, what the steps so far brought.
pub proof fn unfinished_scene_is_taken_down_whole(
    before: SceneBuild,
    after: SceneBuild,
    reply: BuildReply,
    object: Teardown,
)
    requires
        before.wf(),
        before.answered_by(reply),
        after.recorded(before.resources, before.stage, reply),
        reply is Created ==> reply->Created_0 != 0,
        reply is Allocated ==> reply->Allocated_0@.last() != 0,
    ensures
        after.resources.plan().contains(object) == (before.resources.plan().contains(object)
            || before.brought(reply).contains(object)),
{
    plan_holds_the_parts(before.resources, object);
    plan_holds_the_parts(after.resources, object);
    let old_scene = before.resources;
    let scene = after.resources;
    match reply {
        BuildReply::Created(handle) => {
            let brought = before.brought(reply);
            assert(brought.contains(object) == (object == brought[0]));
            live_holds(HandleKind::Image, scene.image, object);
            live_holds(HandleKind::Image, old_scene.image, object);
            live_holds(HandleKind::Memory, scene.memory, object);
            live_holds(HandleKind::Memory, old_scene.memory, object);
            live_holds(HandleKind::ImageView, scene.all_levels_view, object);
            live_holds(HandleKind::ImageView, old_scene.all_levels_view, object);
            live_holds(HandleKind::RenderPass, scene.render_pass, object);
            live_holds(HandleKind::RenderPass, old_scene.render_pass, object);
            live_holds(HandleKind::Pipeline, scene.composition_pipeline, object);
            live_holds(HandleKind::Pipeline, old_scene.composition_pipeline, object);
            live_holds(HandleKind::Pipeline, scene.downsample_pipeline, object);
            live_holds(HandleKind::Pipeline, old_scene.downsample_pipeline, object);
            live_holds(HandleKind::Pipeline, scene.blur_pipeline, object);
            live_holds(HandleKind::Pipeline, old_scene.blur_pipeline, object);
            each_grows(HandleKind::ImageView, old_scene.mip_views@, handle, object);
            each_grows(HandleKind::Framebuffer, old_scene.framebuffers@, handle, object);
        },
        BuildReply::Bound => {},
        BuildReply::Allocated(sets) => {
            live_holds(HandleKind::DescriptorSet, scene.mix_descriptor_set, object);
            live_holds(HandleKind::DescriptorSet, old_scene.mix_descriptor_set, object);
            each_splits(HandleKind::DescriptorSet, sets@, object);
            assert(each(HandleKind::DescriptorSet, old_scene.downsample_descriptor_sets@).len()
                == 0);
        },
    }
}

/// How far the transition targets have been built. The first stages are passed
/// once per target.
#[derive(Clone, Copy, Debug, PartialEq, Eq, Structural)]
pub enum TargetStage {
    Image,
    Memory,
    Bind,
    View,
    Framebuffer,
    DescriptorSet,
    CapturePipeline,
    CaptureScenePipeline,
    OutputPipeline,
    Complete,
}

/// What the targets take from the scene.
#[derive(Clone, Copy, Debug, PartialEq, Eq, Structural)]
pub struct SceneFacts {
    pub format: i32,
    pub extent: Extent2D,
    pub render_pass: u64,
    pub all_levels_view: u64,
}

/// Transition targets in the making.
#[derive(Debug)]
pub struct TargetsBuild {
    pub resources: TransitionResources,
    pub scene: SceneFacts,
    pub swapchain_render_pass: u64,
    pub stage: TargetStage,
}

impl TargetStage {
    /// The place of the stage in the order of creation.
    pub open spec fn rank(self) -> int {
        match self {
            TargetStage::Image => 0,
            TargetStage::Memory => 1,
            TargetStage::Bind => 2,
            TargetStage::View => 3,
            TargetStage::Framebuffer => 4,
            TargetStage::DescriptorSet => 5,
            TargetStage::CapturePipeline => 6,
            TargetStage::CaptureScenePipeline => 7,
            TargetStage::OutputPipeline => 8,
            TargetStage::Complete => 9,
        }
    }
}

impl TargetsBuild {
    /// What comes at a later stage does not exist yet.
    pub open spec fn later_is_missing(self) -> bool {
        let target = self.resources.targets@.last();
        let rank = self.stage.rank();
        &&& rank == 1 ==> target.memory == 0
        &&& 1 <= rank <= 3 ==> target.image_view == 0
        &&& 1 <= rank <= 4 ==> target.framebuffer == 0
        &&& 1 <= rank <= 5 ==> target.descriptor_set == 0
        &&& rank <= 6 ==> self.resources.capture_pipeline == 0
        &&& rank <= 7 ==> self.resources.capture_scene_pipeline == 0
        &&& rank <= 8 ==> self.resources.output_pipeline == 0
    }

    /// As many targets exist as the stage says, and nothing of a later stage.
    pub open spec fn wf(self) -> bool {
        let count = self.resources.targets@.len();
        &&& self.later_is_missing()
        &&& self.resources.front == 0
        &&& match self.stage {
            TargetStage::Image => count < TRANSITION_TARGET_COUNT,
            TargetStage::Memory | TargetStage::Bind | TargetStage::View | TargetStage::Framebuffer
            | TargetStage::DescriptorSet => 1 <= count <= TRANSITION_TARGET_COUNT,
            _ => count == TRANSITION_TARGET_COUNT,
        }
    }

    /// What is needed next.
    pub open spec fn wanted(self) -> BuildRequest {
        let target = self.resources.targets@.last();
        match self.stage {
            TargetStage::Image => BuildRequest::CreateImage {
                format: self.scene.format,
                extent: self.scene.extent,
                mip_levels: 1,
            },
            TargetStage::Memory => BuildRequest::AllocateMemory { image: target.image },
            TargetStage::Bind => BuildRequest::BindMemory {
                image: target.image,
                memory: target.memory,
            },
            TargetStage::View => BuildRequest::CreateView {
                image: target.image,
                format: self.scene.format,
                base_level: 0,
                level_count: 1,
            },
            TargetStage::Framebuffer => BuildRequest::CreateFramebuffer {
                render_pass: self.scene.render_pass,
                attachment: target.image_view,
                extent: self.scene.extent,
            },
            TargetStage::DescriptorSet => BuildRequest::AllocateDescriptorSets { count: 1 },
            TargetStage::CapturePipeline => BuildRequest::CreatePipeline {
                render_pass: self.scene.render_pass,
                shaders: Shaders::Transition,
            },
            TargetStage::CaptureScenePipeline => BuildRequest::CreatePipeline {
                render_pass: self.scene.render_pass,
                shaders: Shaders::Blur,
            },
            TargetStage::OutputPipeline => BuildRequest::CreatePipeline {
                render_pass: self.swapchain_render_pass,
                shaders: Shaders::Transition,
            },
            TargetStage::Complete => BuildRequest::Complete,
        }
    }

    /// The stage after the object of this stage exists.
    pub open spec fn stage_after(self) -> TargetStage {
        match self.stage {
            TargetStage::Image => TargetStage::Memory,
            TargetStage::Memory => TargetStage::Bind,
            TargetStage::Bind => TargetStage::View,
            TargetStage::View => TargetStage::Framebuffer,
            TargetStage::Framebuffer => TargetStage::DescriptorSet,
            TargetStage::DescriptorSet => if self.resources.targets@.len()
                < TRANSITION_TARGET_COUNT {
                TargetStage::Image
            } else {
                TargetStage::CapturePipeline
            },
            TargetStage::CapturePipeline => TargetStage::CaptureScenePipeline,
            TargetStage::CaptureScenePipeline => TargetStage::OutputPipeline,
            TargetStage::OutputPipeline => TargetStage::Complete,
            TargetStage::Complete => TargetStage::Complete,
        }
    }

    /// The targets after `handle` was recorded.
    pub open spec fn targets_after(self, handle: u64) -> Seq<TransitionTarget> {
        let targets = self.resources.targets@;
        let last = targets.len() - 1;
        match self.stage {
            TargetStage::Image => targets.push(
                TransitionTarget {
                    image: handle,
                    memory: 0,
                    image_view: 0,
                    framebuffer: 0,
                    descriptor_set: 0,
                },
            ),
            TargetStage::Memory => targets.update(
                last,
                TransitionTarget { memory: handle, ..targets[last] },
            ),
            TargetStage::View => targets.update(
                last,
                TransitionTarget { image_view: handle, ..targets[last] },
            ),
            TargetStage::Framebuffer => targets.update(
                last,
                TransitionTarget { framebuffer: handle, ..targets[last] },
            ),
            TargetStage::DescriptorSet => targets.update(
                last,
                TransitionTarget { descriptor_set: handle, ..targets[last] },
            ),
            _ => targets,
        }
    }

    /// The object that `handle` names, once it is recorded.
    pub open spec fn brought(self, handle: u64) -> Seq<Teardown> {
        if self.stage is Bind {
            seq![]
        } else {
            seq![
                Teardown {
                    kind: match self.stage {
                        TargetStage::Image => HandleKind::Image,
                        TargetStage::Memory => HandleKind::Memory,
                        TargetStage::View => HandleKind::ImageView,
                        TargetStage::Framebuffer => HandleKind::Framebuffer,
                        TargetStage::DescriptorSet => HandleKind::DescriptorSet,
                        _ => HandleKind::Pipeline,
                    },
                    handle,
                },
            ]
        }
    }

    /// How the targets relate to what they were before `handle` was recorded.
    pub open spec fn recorded(self, before: TargetsBuild, handle: u64) -> bool {
        &&& self.resources.targets@ == before.targets_after(handle)
        &&& self.resources == (TransitionResources {
            targets: self.resources.targets,
            capture_pipeline: if before.stage is CapturePipeline {
                handle
            } else {
                before.resources.capture_pipeline
            },
            capture_scene_pipeline: if before.stage is CaptureScenePipeline {
                handle
            } else {
                before.resources.capture_scene_pipeline
            },
            output_pipeline: if before.stage is OutputPipeline {
                handle
            } else {
                before.resources.output_pipeline
            },
            ..before.resources
        })
    }

    /// What is needed next.
    pub fn request(&self) -> (request: BuildRequest)
        requires
            self.wf(),
        ensures
            request == self.wanted(),
    {
        let count: usize = self.resources.targets.len();
        match self.stage {
            TargetStage::Image => BuildRequest::CreateImage {
                format: self.scene.format,
                extent: self.scene.extent,
                mip_levels: 1,
            },
            TargetStage::Memory => BuildRequest::AllocateMemory {
                image: self.resources.targets[count - 1].image,
            },
            TargetStage::Bind => BuildRequest::BindMemory {
                image: self.resources.targets[count - 1].image,
                memory: self.resources.targets[count - 1].memory,
            },
            TargetStage::View => BuildRequest::CreateView {
                image: self.resources.targets[count - 1].image,
                format: self.scene.format,
                base_level: 0,
                level_count: 1,
            },
            TargetStage::Framebuffer => BuildRequest::CreateFramebuffer {
                render_pass: self.scene.render_pass,
                attachment: self.resources.targets[count - 1].image_view,
                extent: self.scene.extent,
            },
            TargetStage::DescriptorSet => BuildRequest::AllocateDescriptorSets { count: 1 },
            TargetStage::CapturePipeline => BuildRequest::CreatePipeline {
                render_pass: self.scene.render_pass,
                shaders: Shaders::Transition,
            },
            TargetStage::CaptureScenePipeline => BuildRequest::CreatePipeline {
                render_pass: self.scene.render_pass,
                shaders: Shaders::Blur,
            },
            TargetStage::OutputPipeline => BuildRequest::CreatePipeline {
                render_pass: self.swapchain_render_pass,
                shaders: Shaders::Transition,
            },
            TargetStage::Complete => BuildRequest::Complete,
        }
    }

    /// Records what came of the last request. For bound memory `handle` is not used.
    pub fn advance(&mut self, handle: u64)
        requires
            old(self).wf(),
            old(self).stage !is Complete,
        ensures
            final(self).wf(),
            final(self).stage == old(self).stage_after(),
            final(self).recorded(*old(self), handle),
            final(self).scene == old(self).scene,
            final(self).swapchain_render_pass == old(self).swapchain_render_pass,
    {
        let count: usize = self.resources.targets.len();
        match self.stage {
            TargetStage::Image => {
                self.resources.targets.push(
                    TransitionTarget {
                        image: handle,
                        memory: 0,
                        image_view: 0,
                        framebuffer: 0,
                        descriptor_set: 0,
                    },
                );
                self.stage = TargetStage::Memory;
            },
            TargetStage::Memory => {
                let mut target: TransitionTarget = self.resources.targets[count - 1];
                target.memory = handle;
                self.resources.targets.set(count - 1, target);
                self.stage = TargetStage::Bind;
            },
            TargetStage::Bind => {
                self.stage = TargetStage::View;
            },
            TargetStage::View => {
                let mut target: TransitionTarget = self.resources.targets[count - 1];
                target.image_view = handle;
                self.resources.targets.set(count - 1, target);
                self.stage = TargetStage::Framebuffer;
            },
            TargetStage::Framebuffer => {
                let mut target: TransitionTarget = self.resources.targets[count - 1];
                target.framebuffer = handle;
                self.resources.targets.set(count - 1, target);
                self.stage = TargetStage::DescriptorSet;
            },
            TargetStage::DescriptorSet => {
                let mut target: TransitionTarget = self.resources.targets[count - 1];
                target.descriptor_set = handle;
                self.resources.targets.set(count - 1, target);
                self.stage = if count < TRANSITION_TARGET_COUNT {
                    TargetStage::Image
                } else {
                    TargetStage::CapturePipeline
                };
            },
            TargetStage::CapturePipeline => {
                self.resources.capture_pipeline = handle;
                self.stage = TargetStage::CaptureScenePipeline;
            },
            TargetStage::CaptureScenePipeline => {
                self.resources.capture_scene_pipeline = handle;
                self.stage = TargetStage::OutputPipeline;
            },
            TargetStage::OutputPipeline => {
                self.resources.output_pipeline = handle;
                self.stage = TargetStage::Complete;
            },
            TargetStage::Complete => {},
        }
    }

    /// What the descriptor set of the newest target samples: the scene and the
    /// target itself.
    pub fn descriptor_writes(&self) -> (writes: [DescriptorWrite; 2])
        requires
            self.resources.targets@.len() > 0,
        ensures
            writes@ == seq![
                DescriptorWrite {
                    descriptor_set: self.resources.targets@.last().descriptor_set,
                    binding: 1,
                    image_view: self.scene.all_levels_view,
                },
                DescriptorWrite {
                    descriptor_set: self.resources.targets@.last().descriptor_set,
                    binding: 2,
                    image_view: self.resources.targets@.last().image_view,
                },
            ],
    {
        let target: TransitionTarget = self.resources.targets[self.resources.targets.len() - 1];
        let writes: [DescriptorWrite; 2] = [
            DescriptorWrite {
                descriptor_set: target.descriptor_set,
                binding: 1,
                image_view: self.scene.all_levels_view,
            },
            DescriptorWrite {
                descriptor_set: target.descriptor_set,
                binding: 2,
                image_view: target.image_view,
            },
        ];
        assert(writes@ =~= seq![writes@[0], writes@[1]]);
        writes
    }
}

proof fn target_holds_its_parts(target: TransitionTarget, object: Teardown)
    ensures
        target_plan(target).contains(object) == {
            ||| target.framebuffer != 0 && object == (Teardown {
                kind: HandleKind::Framebuffer,
                handle: target.framebuffer,
            })
            ||| target.image_view != 0 && object == (Teardown {
                kind: HandleKind::ImageView,
                handle: target.image_view,
            })
            ||| target.image != 0 && object == (Teardown {
                kind: HandleKind::Image,
                handle: target.image,
            })
            ||| target.memory != 0 && object == (Teardown {
                kind: HandleKind::Memory,
                handle: target.memory,
            })
        },
{
    broadcast use vstd::seq_lib::lemma_seq_concat_contains_all_elements;

    live_holds(HandleKind::Framebuffer, target.framebuffer, object);
    live_holds(HandleKind::ImageView, target.image_view, object);
    live_holds(HandleKind::Image, target.image, object);
    live_holds(HandleKind::Memory, target.memory, object);
}

/// Whether an object is part of the transition targets.
pub open spec fn part_of_targets(resources: TransitionResources, object: Teardown) -> bool {
    ||| each_live(HandleKind::DescriptorSet, target_sets(resources.targets@)).contains(object)
    ||| live(HandleKind::Pipeline, resources.capture_pipeline).contains(object)
    ||| live(HandleKind::Pipeline, resources.capture_scene_pipeline).contains(object)
    ||| live(HandleKind::Pipeline, resources.output_pipeline).contains(object)
    ||| targets_plan(resources.targets@).contains(object)
}

proof fn plan_holds_the_targets(resources: TransitionResources, object: Teardown)
    ensures
        resources.plan().contains(object) == part_of_targets(resources, object),
{
    broadcast use vstd::seq_lib::lemma_seq_concat_contains_all_elements;

}

proof fn newest_target_splits_off(targets: Seq<TransitionTarget>, object: Teardown)
    requires
        targets.len() > 0,
    ensures
        targets_plan(targets).contains(object) == (targets_plan(targets.drop_last()).contains(
            object,
        ) || target_plan(targets.last()).contains(object)),
        each_live(HandleKind::DescriptorSet, target_sets(targets)).contains(object) == (each_live(
            HandleKind::DescriptorSet,
            target_sets(targets.drop_last()),
        ).contains(object) || live(
            HandleKind::DescriptorSet,
            targets.last().descriptor_set,
        ).contains(object)),
{
    broadcast use vstd::seq_lib::lemma_seq_concat_contains_all_elements;

    assert(target_sets(targets).drop_last() =~= target_sets(targets.drop_last()));
    assert(target_sets(targets).last() == targets.last().descriptor_set);
}

/// Targets that could not be finished leave nothing behind: what is taken down of
/// them is, at every stage, what the steps so far brought.
pub proof fn unfinished_targets_are_taken_down_whole(
    before: TargetsBuild,
    after: TargetsBuild,
    handle: u64,
    object: Teardown,
)
    requires
        before.wf(),
        before.stage !is Complete,
        before.stage !is Bind ==> handle != 0,
        after.recorded(before, handle),
    ensures
        after.resources.plan().contains(object) == (before.resources.plan().contains(object)
            || before.brought(handle).contains(object)),
{
    plan_holds_the_targets(before.resources, object);
    plan_holds_the_targets(after.resources, object);
    let old_targets = before.resources.targets@;
    let targets = after.resources.targets@;
    if before.stage !is Bind {
        assert(before.brought(handle).contains(object) == (object == before.brought(handle)[0]));
    }
    live_holds(HandleKind::Pipeline, after.resources.capture_pipeline, object);
    live_holds(HandleKind::Pipeline, before.resources.capture_pipeline, object);
    live_holds(HandleKind::Pipeline, after.resources.capture_scene_pipeline, object);
    live_holds(HandleKind::Pipeline, before.resources.capture_scene_pipeline, object);
    live_holds(HandleKind::Pipeline, after.resources.output_pipeline, object);
    live_holds(HandleKind::Pipeline, before.resources.output_pipeline, object);
    if before.stage.rank() <= 5 {
        newest_target_splits_off(targets, object);
        target_holds_its_parts(targets.last(), object);
        live_holds(HandleKind::DescriptorSet, targets.last().descriptor_set, object);
        if before.stage is Image {
            assert(targets.drop_last() =~= old_targets);
        } else {
            assert(targets.drop_last() =~= old_targets.drop_last());
            newest_target_splits_off(old_targets, object);
            target_holds_its_parts(old_targets.last(), object);
            live_holds(HandleKind::DescriptorSet, old_targets.last().descriptor_set, object);
        }
    }
}

impl WsiPresenter {
    /// Starts transition targets for the kept scene; without one there are none.
    pub fn begin_targets(&self) -> (build: Option<TargetsBuild>)
        ensures
            build is Some <==> self.blur_resources is Some,
            build is Some ==> {
                &&& build->0.wf()
                &&& build->0.stage is Image
                &&& build->0.resources.targets@.len() == 0
                &&& build->0.resources == (TransitionResources {
                    targets: build->0.resources.targets,
                    front: 0,
                    capture_pipeline: 0,
                    capture_scene_pipeline: 0,
                    output_pipeline: 0,
                })
                &&& build->0.resources.plan() =~= Seq::<Teardown>::empty()
                &&& build->0.swapchain_render_pass == self.swapchain.rendering.render_pass
                &&& build->0.scene == (SceneFacts {
                    format: self.blur_resources->0.format,
                    extent: self.blur_resources->0.extent,
                    render_pass: self.blur_resources->0.render_pass,
                    all_levels_view: self.blur_resources->0.all_levels_view,
                })
            },
    {
        match &self.blur_resources {
            Some(scene) => {
                let resources = TransitionResources {
                    targets: Vec::new(),
                    front: 0,
                    capture_pipeline: 0,
                    capture_scene_pipeline: 0,
                    output_pipeline: 0,
                };
                assert(resources.plan() =~= Seq::<Teardown>::empty());
                Some(
                    TargetsBuild {
                        resources,
                        scene: SceneFacts {
                            format: scene.format,
                            extent: scene.extent,
                            render_pass: scene.render_pass,
                            all_levels_view: scene.all_levels_view,
                        },
                        swapchain_render_pass: self.swapchain.rendering.render_pass,
                        stage: TargetStage::Image,
                    },
                )
            },
            None => None,
        }
    }
}

/// What is requested for a scene is what it is made of: every object is recorded where
/// the request that created it belongs, and every request names the objects that it
/// builds on. Each mip level has a view of exactly that level, and a framebuffer of that
/// view, in the size of the level; the pipelines that draw into the scene are for its
/// own render pass, and the one that draws the scene to the surface is for that of
/// the swapchain.
pub proof fn scene_is_made_of_what_was_requested(
    build: &mut SceneBuild,
    request: BuildRequest,
    reply: BuildReply,
    handle: u64,
)
    requires
        old(build).wf(),
        old(build).answered_by(reply),
        call_ensures(SceneBuild::request, (&*old(build),), request),
        call_ensures(SceneBuild::advance, (build, reply), ()),
        reply is Created ==> handle == reply->Created_0,
    ensures
        ({
            let before = old(build).resources;
            let after = final(build).resources;
            let levels = old(build).mip_levels;
            match request {
                BuildRequest::CreateImage { format, extent, mip_levels } => {
                    &&& format == before.format && extent == before.extent && mip_levels == levels
                    &&& after.image == handle
                    &&& reply is Created
                },
                BuildRequest::AllocateMemory { image } => image == before.image && after.memory
                    == handle && reply is Created,
                BuildRequest::BindMemory { image, memory } => image == before.image && memory
                    == before.memory && reply is Bound,
                BuildRequest::CreateView { image, format, base_level, level_count } => {
                    &&& image == before.image && format == before.format
                    &&& reply is Created
                    &&& old(build).stage is AllLevelsView ==> base_level == 0 && level_count
                        == levels && after.all_levels_view == handle && after.mip_views@
                        == before.mip_views@
                    &&& old(build).stage !is AllLevelsView ==> base_level
                        == before.mip_views@.len() && level_count == 1 && after.mip_views@
                        == before.mip_views@.push(handle) && after.all_levels_view
                        == before.all_levels_view
                },
                BuildRequest::CreateRenderPass { format } => format == before.format
                    && after.render_pass == handle && reply is Created,
                BuildRequest::CreatePipeline { render_pass, shaders } => {
                    &&& reply is Created
                    &&& match shaders {
                        Shaders::Composition => render_pass == before.render_pass
                            && after.composition_pipeline == handle,
                        Shaders::Downsample => render_pass == before.render_pass
                            && after.downsample_pipeline == handle,
                        Shaders::Blur => render_pass == old(build).swapchain_render_pass
                            && after.blur_pipeline == handle,
                        Shaders::Transition => false,
                    }
                },
                BuildRequest::CreateFramebuffer { render_pass, attachment, extent } => {
                    let level = before.framebuffers@.len();
                    &&& reply is Created
                    &&& render_pass == before.render_pass
                    &&& level < before.mip_views@.len()
                    &&& attachment == before.mip_views@[level as int]
                    &&& extent.width == mip_dimension(before.extent.width, level)
                    &&& extent.height == mip_dimension(before.extent.height, level)
                    &&& after.framebuffers@ == before.framebuffers@.push(handle)
                },
                BuildRequest::AllocateDescriptorSets { count } => {
                    &&& count == levels
                    &&& reply matches BuildReply::Allocated(sets) && after.mix_descriptor_set
                        == sets@[levels - 1] && after.downsample_descriptor_sets@.len() == levels
                        - 1 && forall|level: int|
                        0 <= level < levels - 1
                            ==> #[trigger] after.downsample_descriptor_sets@[level] == sets@[level]
                },
                BuildRequest::Complete => false,
            }
        }),
        old(build).stage is CompositionPipeline ==> (final(build).stage is DownsamplePipeline
            <==> old(build).mip_levels > 1),
        final(build).stage is Complete ==> {
            &&& final(build).resources.mip_views@.len() == final(build).mip_levels
            &&& final(build).resources.framebuffers@.len() == final(build).mip_levels
        },
        final(build).mip_levels == old(build).mip_levels,
        final(build).resources.format == old(build).resources.format,
        final(build).resources.extent == old(build).resources.extent,
        final(build).stage.rank() >= old(build).stage.rank(),
{
    if old(build).stage is Framebuffers {
        let level = old(build).resources.framebuffers@.len();
        mip_size_is_a_size(old(build).resources.extent.width, level);
        mip_size_is_a_size(old(build).resources.extent.height, level);
    }
}

proof fn mip_size_is_a_size(dimension: u32, level: nat)
    ensures
        0 <= mip_dimension(dimension, level) <= u32::MAX,
{
    vstd::arithmetic::power2::lemma_pow2_pos(level);
    vstd::arithmetic::div_mod::lemma_div_is_ordered_by_denominator(
        dimension as int,
        1,
        vstd::arithmetic::power2::pow2(level) as int,
    );
}

/// A scene starts with nothing, in the format and of the size asked for, with as many
/// levels as it takes to come down to one pixel, or as many as there may be.
pub proof fn scene_starts_with_nothing(
    swapchain_render_pass: u64,
    format: i32,
    extent: Extent2D,
    build: SceneBuild,
)
    requires
        call_ensures(SceneBuild::new, (swapchain_render_pass, format, extent), build),
    ensures
        build.stage is Image,
        build.swapchain_render_pass == swapchain_render_pass,
        build.resources.format == format,
        build.resources.extent == extent,
        build.resources.image == 0,
        build.resources.mip_views@.len() == 0,
        build.resources.framebuffers@.len() == 0,
        !build.resources.base_valid,
        !build.resources.pyramid_valid,
        !build.resources.pyramid_dirty,
        1 <= build.mip_levels <= 6,
        build.mip_levels < 6 ==> mip_dimension(extent.width, (build.mip_levels - 1) as nat) == 1
            && mip_dimension(extent.height, (build.mip_levels - 1) as nat) == 1,
        build.mip_levels > 1 ==> mip_dimension(extent.width, (build.mip_levels - 2) as nat) > 1
            || mip_dimension(extent.height, (build.mip_levels - 2) as nat) > 1,
{
    if build.mip_levels > 1 {
        let level = (build.mip_levels - 2) as nat;
        assert(!crate::effects::mip_is_single_pixel(extent, level));
        crate::effects::mip_levels_shrink(extent.width, level);
        crate::effects::mip_levels_shrink(extent.height, level);
        assert(mip_dimension(extent.width, level) >= 1 && mip_dimension(extent.height, level) >= 1);
    }
}

/// The descriptor sets of a scene sample what they are for: the set of a level that
/// level alone, and the last one all of them. A level is drawn from the one above it.
pub proof fn descriptor_sets_sample_their_level(
    scene: BlurResources,
    writes: Vec<DescriptorWrite>,
    level: int,
)
    requires
        call_ensures(BlurResources::descriptor_writes, (&scene,), writes),
        0 <= level < scene.downsample_descriptor_sets@.len(),
    ensures
        writes@.len() == scene.downsample_descriptor_sets@.len() + 1,
        writes@[level].descriptor_set == scene.downsample_descriptor_sets@[level],
        writes@[level].image_view == scene.mip_views@[level],
        writes@[level].binding == 1,
        writes@.last().descriptor_set == scene.mix_descriptor_set,
        writes@.last().image_view == scene.all_levels_view,
        writes@.last().binding == 1,
{
}

/// What is requested for transition targets is what they are made of, target by target:
/// an image of the size and format of the scene, with its own memory, view, framebuffer
/// and descriptor set; a pipeline that draws the mix and one that draws the plain scene
/// into a target; and one that draws to the surface.
pub proof fn targets_are_made_of_what_was_requested(
    build: &mut TargetsBuild,
    request: BuildRequest,
    handle: u64,
)
    requires
        old(build).wf(),
        old(build).stage !is Complete,
        call_ensures(TargetsBuild::request, (&*old(build),), request),
        call_ensures(TargetsBuild::advance, (build, handle), ()),
    ensures
        ({
            let before = old(build).resources;
            let after = final(build).resources;
            let scene = old(build).scene;
            let count = after.targets@.len() as int;
            match request {
                BuildRequest::CreateImage { format, extent, mip_levels } => {
                    &&& format == scene.format && extent == scene.extent && mip_levels == 1
                    &&& count == before.targets@.len() + 1
                    &&& after.targets@[count - 1].image == handle
                    &&& forall|index: int|
                        0 <= index < before.targets@.len() ==> #[trigger] after.targets@[index]
                            == before.targets@[index]
                },
                BuildRequest::AllocateMemory { image } => image == before.targets@[count - 1].image
                    && after.targets@[count - 1].memory == handle && after.targets@[count - 1].image
                    == image,
                BuildRequest::BindMemory { image, memory } => image == before.targets@[count
                    - 1].image && memory == before.targets@[count - 1].memory && after.targets@
                    == before.targets@,
                BuildRequest::CreateView { image, format, base_level, level_count } => {
                    &&& image == before.targets@[count - 1].image
                    &&& format == scene.format && base_level == 0 && level_count == 1
                    &&& after.targets@[count - 1].image_view == handle
                },
                BuildRequest::CreateFramebuffer { render_pass, attachment, extent } => {
                    &&& render_pass == scene.render_pass && extent == scene.extent
                    &&& attachment == before.targets@[count - 1].image_view
                    &&& after.targets@[count - 1].framebuffer == handle
                },
                BuildRequest::AllocateDescriptorSets { count: sets } => sets == 1
                    && after.targets@[count - 1].descriptor_set == handle,
                BuildRequest::CreatePipeline { render_pass, shaders } => {
                    &&& after.targets@ == before.targets@
                    &&& old(build).stage is CapturePipeline ==> render_pass == scene.render_pass
                        && shaders is Transition && after.capture_pipeline == handle
                    &&& old(build).stage is CaptureScenePipeline ==> render_pass
                        == scene.render_pass && shaders is Blur && after.capture_scene_pipeline
                        == handle
                    &&& old(build).stage is OutputPipeline ==> render_pass
                        == old(build).swapchain_render_pass && shaders is Transition
                        && after.output_pipeline == handle
                },
                _ => false,
            }
        }),
        final(build).stage is Complete ==> final(build).resources.targets@.len() == 2,
        final(build).stage is CapturePipeline && old(build).stage is DescriptorSet
            ==> final(build).resources.targets@.len() == 2,
        final(build).resources.front == 0,
        final(build).scene == old(build).scene,
{
}

/// The descriptor set of a target samples the scene and the target itself.
pub proof fn target_samples_scene_and_itself(
    build: TargetsBuild,
    writes: [DescriptorWrite; 2],
)
    requires
        call_ensures(TargetsBuild::descriptor_writes, (&build,), writes),
        build.resources.targets@.len() > 0,
    ensures
        ({
            let target = build.resources.targets@[build.resources.targets@.len() - 1];
            &&& writes@[0].descriptor_set == target.descriptor_set
            &&& writes@[1].descriptor_set == target.descriptor_set
            &&& writes@[0].binding == 1 && writes@[0].image_view == build.scene.all_levels_view
            &&& writes@[1].binding == 2 && writes@[1].image_view == target.image_view
        }),
{
}

/// Targets are made for the scene that is kept, to be drawn in its render pass and in
/// that of the swapchain in use; without a scene there are none.
pub proof fn targets_are_made_for_the_scene(presenter: WsiPresenter, build: Option<TargetsBuild>)
    requires
        call_ensures(WsiPresenter::begin_targets, (&presenter,), build),
    ensures
        build is None <==> presenter.blur_resources is None,
        build matches Some(targets) ==> {
            let scene = presenter.blur_resources->0;
            &&& targets.scene.format == scene.format
            &&& targets.scene.extent == scene.extent
            &&& targets.scene.render_pass == scene.render_pass
            &&& targets.scene.all_levels_view == scene.all_levels_view
            &&& targets.swapchain_render_pass == presenter.swapchain.rendering.render_pass
            &&& targets.stage is Image
            &&& targets.resources.targets@.len() == 0
            &&& targets.resources.front == 0
        },
{
}

} // verus!
