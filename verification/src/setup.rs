//! Setting a presenter up, object by object.

use crate::direct::FrameContext;
use crate::effects::MAX_BLUR_MIP_LEVELS;
use crate::geometry::Extent2D;
use crate::presenter::{SharedHandles, WsiPresenter, FRAMES_IN_FLIGHT};
use crate::resources::TRANSITION_TARGET_COUNT;
#[allow(unused_imports)]
use crate::resources::{frames_plan, live, release_fd, HandleKind, Teardown};
use vstd::prelude::*;

verus! {

/// The images that a descriptor set samples.
pub const BINDINGS_PER_SET: u32 = 3;

/// The most descriptor sets in use at a time: one per frame in flight, per mip
/// level and per transition target.
pub const MAX_DESCRIPTOR_SETS: u32 = 10;

/// Bytes that place a frame of the producer.
pub const COMPOSITION_PUSH_CONSTANT_SIZE: u32 = 48;

/// Bytes that weigh the mip levels.
pub const BLUR_PUSH_CONSTANT_SIZE: u32 = 32;

/// Where those bytes start.
pub const BLUR_PUSH_CONSTANT_OFFSET: u32 = 48;

/// Bytes that shape a transition.
pub const TRANSITION_PUSH_CONSTANT_SIZE: u32 = 32;

/// Where those bytes start.
pub const TRANSITION_PUSH_CONSTANT_OFFSET: u32 = 80;

/// All bytes handed to the shaders.
pub const TOTAL_PUSH_CONSTANT_SIZE: u32 = 112;

/// The bytes handed to the shaders lie one after the other and within what every
/// device takes; the descriptor sets suffice for everything that is ever kept.
pub proof fn layout_is_consistent()
    ensures
        BLUR_PUSH_CONSTANT_OFFSET == COMPOSITION_PUSH_CONSTANT_SIZE,
        TRANSITION_PUSH_CONSTANT_OFFSET == BLUR_PUSH_CONSTANT_OFFSET + BLUR_PUSH_CONSTANT_SIZE,
        TOTAL_PUSH_CONSTANT_SIZE == TRANSITION_PUSH_CONSTANT_OFFSET
            + TRANSITION_PUSH_CONSTANT_SIZE,
        TOTAL_PUSH_CONSTANT_SIZE <= 128,
        MAX_DESCRIPTOR_SETS == FRAMES_IN_FLIGHT + MAX_BLUR_MIP_LEVELS + TRANSITION_TARGET_COUNT,
{
}

/// How far a presenter has been set up. The last stages are passed once per frame
/// in flight.
#[derive(Clone, Copy, Debug, PartialEq, Eq, Structural)]
pub enum SetupStage {
    SetLayout,
    Pool,
    Sets,
    PipelineLayout,
    Sampler,
    Limits,
    CommandPool,
    CommandBuffer,
    Semaphore,
    Fence,
    Complete,
}

/// What setting up remembers.
#[derive(Debug)]
pub struct SetupCycle {
    pub stage: SetupStage,
    pub extent: Extent2D,
    /// The descriptor sets for the frames in flight.
    pub sets: Vec<u64>,
}

/// What setting up needs next.
#[derive(Clone, Copy, Debug, PartialEq, Eq, Structural)]
pub enum SetupRequest {
    CreateSetLayout { bindings: u32 },
    CreatePool { max_sets: u32, descriptors: u32 },
    AllocateSets { pool: u64, set_layout: u64, count: u32 },
    CreatePipelineLayout { set_layout: u64 },
    CreateSampler,
    QueryPushConstantLimit,
    CreateCommandPool,
    AllocateCommandBuffer { command_pool: u64 },
    CreateSemaphore,
    CreateFence,
    /// The device takes fewer bytes than the shaders need.
    LimitTooLow { limit: u32, needed: u32 },
    /// Everything but the swapchain is there: build one of this size.
    RecreateSwapchain { extent: Extent2D },
}

/// What came of a request.
#[derive(Debug)]
pub enum SetupReply {
    Created(u64),
    Sets(Vec<u64>),
    Limit(u32),
}

impl SetupStage {
    /// The place of the stage in the order of creation.
    pub open spec fn rank(self) -> int {
        match self {
            SetupStage::SetLayout => 0,
            SetupStage::Pool => 1,
            SetupStage::Sets => 2,
            SetupStage::PipelineLayout => 3,
            SetupStage::Sampler => 4,
            SetupStage::Limits => 5,
            SetupStage::CommandPool => 6,
            SetupStage::CommandBuffer => 7,
            SetupStage::Semaphore => 8,
            SetupStage::Fence => 9,
            SetupStage::Complete => 10,
        }
    }
}

impl SetupCycle {
    /// What comes at a later stage does not exist yet.
    pub open spec fn later_is_missing(self, presenter: WsiPresenter) -> bool {
        let rank = self.stage.rank();
        let newest = presenter.frames@.last();
        &&& rank <= 0 ==> presenter.shared.descriptor_set_layout == 0
        &&& rank <= 1 ==> presenter.shared.descriptor_pool == 0
        &&& rank <= 3 ==> presenter.shared.pipeline_layout == 0
        &&& rank <= 4 ==> presenter.shared.sampler == 0
        &&& rank == 6 ==> newest.command_pool == 0
        &&& 6 <= rank <= 8 ==> newest.image_available == 0
        &&& 6 <= rank <= 9 ==> newest.fence == 0
    }

    /// There is a descriptor set for each frame once they were allocated, the
    /// presenter is a fresh one, and nothing of a later stage exists.
    pub open spec fn wf(self, presenter: WsiPresenter) -> bool {
        let frames = presenter.frames@.len();
        &&& self.later_is_missing(presenter)
        &&& presenter.resources_wf()
        &&& presenter.frame_cursor == 0
        &&& match self.stage {
            SetupStage::SetLayout | SetupStage::Pool | SetupStage::Sets => frames == 0,
            SetupStage::PipelineLayout | SetupStage::Sampler | SetupStage::Limits => frames == 0
                && self.sets@.len() == FRAMES_IN_FLIGHT,
            SetupStage::Complete => true,
            _ => 1 <= frames <= FRAMES_IN_FLIGHT && self.sets@.len() == FRAMES_IN_FLIGHT,
        }
    }

    /// Whether `reply` answers what is needed next.
    pub open spec fn answered_by(self, reply: SetupReply) -> bool {
        match self.stage {
            SetupStage::Sets => reply is Sets && reply->Sets_0@.len() == FRAMES_IN_FLIGHT,
            SetupStage::Limits => reply is Limit,
            SetupStage::Complete => false,
            _ => reply is Created,
        }
    }
}

impl SetupCycle {
    /// The object that `handle` names, where it has to be taken down by itself: a
    /// command buffer goes with its pool.
    pub open spec fn brought(self, handle: u64) -> Seq<Teardown> {
        match self.stage {
            SetupStage::SetLayout => live(HandleKind::DescriptorSetLayout, handle),
            SetupStage::Pool => live(HandleKind::DescriptorPool, handle),
            SetupStage::PipelineLayout => live(HandleKind::PipelineLayout, handle),
            SetupStage::Sampler => live(HandleKind::Sampler, handle),
            SetupStage::CommandPool => live(HandleKind::CommandPool, handle),
            SetupStage::Semaphore => live(HandleKind::Semaphore, handle),
            SetupStage::Fence => live(HandleKind::Fence, handle),
            _ => seq![],
        }
    }
}

/// A frame slot with nothing but its descriptor set.
pub open spec fn bare_frame(descriptor_set: u64) -> FrameContext {
    FrameContext {
        command_pool: 0,
        command_buffer: 0,
        image_available: 0,
        fence: 0,
        descriptor_set,
        pending_release: None,
    }
}

impl WsiPresenter {
    /// The objects of the presenter after `handle` was recorded.
    pub open spec fn shared_after(self, stage: SetupStage, handle: u64) -> SharedHandles {
        match stage {
            SetupStage::SetLayout => SharedHandles {
                descriptor_set_layout: handle,
                ..self.shared
            },
            SetupStage::Pool => SharedHandles { descriptor_pool: handle, ..self.shared },
            SetupStage::PipelineLayout => SharedHandles { pipeline_layout: handle, ..self.shared },
            SetupStage::Sampler => SharedHandles { sampler: handle, ..self.shared },
            _ => self.shared,
        }
    }

    /// The newest frame slot after `handle` was recorded.
    pub open spec fn newest_after(self, stage: SetupStage, handle: u64) -> FrameContext {
        let newest = self.frames@.last();
        match stage {
            SetupStage::CommandPool => FrameContext { command_pool: handle, ..newest },
            SetupStage::CommandBuffer => FrameContext { command_buffer: handle, ..newest },
            SetupStage::Semaphore => FrameContext { image_available: handle, ..newest },
            SetupStage::Fence => FrameContext { fence: handle, ..newest },
            _ => newest,
        }
    }

    /// The frame slots after `handle` was recorded: with the fence a slot is
    /// complete, and the next one starts.
    pub open spec fn frames_after(self, cycle: SetupCycle, handle: u64) -> Seq<FrameContext> {
        let count = self.frames@.len() as int;
        match cycle.stage {
            SetupStage::CommandPool | SetupStage::CommandBuffer
            | SetupStage::Semaphore => self.frames@.update(
                count - 1,
                self.newest_after(cycle.stage, handle),
            ),
            SetupStage::Fence => {
                let filled = self.frames@.update(
                    count - 1,
                    self.newest_after(cycle.stage, handle),
                );
                if count < FRAMES_IN_FLIGHT {
                    filled.push(bare_frame(cycle.sets@[count]))
                } else {
                    filled
                }
            },
            _ => self.frames@,
        }
    }

    /// What follows from the object that the last request created.
    pub open spec fn setup_after(self, cycle: SetupCycle, handle: u64) -> (
        SetupStage,
        SetupRequest,
    ) {
        match cycle.stage {
            SetupStage::SetLayout => (
                SetupStage::Pool,
                SetupRequest::CreatePool {
                    max_sets: MAX_DESCRIPTOR_SETS,
                    descriptors: (MAX_DESCRIPTOR_SETS * BINDINGS_PER_SET) as u32,
                },
            ),
            SetupStage::Pool => (
                SetupStage::Sets,
                SetupRequest::AllocateSets {
                    pool: handle,
                    set_layout: self.shared.descriptor_set_layout,
                    count: FRAMES_IN_FLIGHT as u32,
                },
            ),
            SetupStage::PipelineLayout => (SetupStage::Sampler, SetupRequest::CreateSampler),
            SetupStage::Sampler => (SetupStage::Limits, SetupRequest::QueryPushConstantLimit),
            SetupStage::CommandPool => (
                SetupStage::CommandBuffer,
                SetupRequest::AllocateCommandBuffer { command_pool: handle },
            ),
            SetupStage::CommandBuffer => (SetupStage::Semaphore, SetupRequest::CreateSemaphore),
            SetupStage::Semaphore => (SetupStage::Fence, SetupRequest::CreateFence),
            SetupStage::Fence => if self.frames@.len() < FRAMES_IN_FLIGHT {
                (SetupStage::CommandPool, SetupRequest::CreateCommandPool)
            } else {
                (
                    SetupStage::Complete,
                    SetupRequest::RecreateSwapchain { extent: cycle.extent },
                )
            },
            _ => (cycle.stage, SetupRequest::CreateSampler),
        }
    }

    /// Starts to set a presenter up.
    pub fn begin_setup(&self, extent: Extent2D) -> (step: (SetupCycle, SetupRequest))
        requires
            self.frames@.len() == 0,
            self.frame_cursor == 0,
            self.resources_wf(),
            self.shared == (SharedHandles {
                surface: self.shared.surface,
                descriptor_set_layout: 0,
                descriptor_pool: 0,
                pipeline_layout: 0,
                sampler: 0,
            }),
        ensures
            step.0.wf(*self),
            step.0.stage is SetLayout,
            step.0.extent == extent,
            step.1 == (SetupRequest::CreateSetLayout { bindings: BINDINGS_PER_SET }),
    {
        (
            SetupCycle { stage: SetupStage::SetLayout, extent, sets: Vec::new() },
            SetupRequest::CreateSetLayout { bindings: BINDINGS_PER_SET },
        )
    }

    fn fill_newest(&mut self, stage: SetupStage, handle: u64)
        requires
            old(self).frames@.len() > 0,
        ensures
            final(self).frames@ == old(self).frames@.update(
                old(self).frames@.len() - 1,
                old(self).newest_after(stage, handle),
            ),
            *final(self) == (WsiPresenter { frames: final(self).frames, ..*old(self) }),
    {
        let newest: usize = self.frames.len() - 1;
        let mut frame: FrameContext = self.frames[newest];
        match stage {
            SetupStage::CommandPool => {
                frame.command_pool = handle;
            },
            SetupStage::CommandBuffer => {
                frame.command_buffer = handle;
            },
            SetupStage::Semaphore => {
                frame.image_available = handle;
            },
            SetupStage::Fence => {
                frame.fence = handle;
            },
            _ => {},
        }
        self.frames.set(newest, frame);
    }

    fn record_setup(&mut self, cycle: SetupCycle, handle: u64) -> (step: (SetupCycle, SetupRequest))
        requires
            cycle.wf(*old(self)),
            cycle.stage !is Sets,
            cycle.stage !is Limits,
            cycle.stage !is Complete,
        ensures
            step.0.wf(*final(self)),
            (step.0.stage, step.1) == old(self).setup_after(cycle, handle),
            step.0.extent == cycle.extent,
            step.0.sets == cycle.sets,
            final(self).frames@ == old(self).frames_after(cycle, handle),
            *final(self) == (WsiPresenter {
                shared: old(self).shared_after(cycle.stage, handle),
                frames: final(self).frames,
                ..*old(self)
            }),
    {
        let mut cycle = cycle;
        match cycle.stage {
            SetupStage::SetLayout => {
                self.shared.descriptor_set_layout = handle;
                cycle.stage = SetupStage::Pool;
                (
                    cycle,
                    SetupRequest::CreatePool {
                        max_sets: MAX_DESCRIPTOR_SETS,
                        descriptors: MAX_DESCRIPTOR_SETS * BINDINGS_PER_SET,
                    },
                )
            },
            SetupStage::Pool => {
                self.shared.descriptor_pool = handle;
                cycle.stage = SetupStage::Sets;
                (
                    cycle,
                    SetupRequest::AllocateSets {
                        pool: handle,
                        set_layout: self.shared.descriptor_set_layout,
                        count: FRAMES_IN_FLIGHT as u32,
                    },
                )
            },
            SetupStage::PipelineLayout => {
                self.shared.pipeline_layout = handle;
                cycle.stage = SetupStage::Sampler;
                (cycle, SetupRequest::CreateSampler)
            },
            SetupStage::Sampler => {
                self.shared.sampler = handle;
                cycle.stage = SetupStage::Limits;
                (cycle, SetupRequest::QueryPushConstantLimit)
            },
            SetupStage::CommandPool => {
                self.fill_newest(SetupStage::CommandPool, handle);
                cycle.stage = SetupStage::CommandBuffer;
                (cycle, SetupRequest::AllocateCommandBuffer { command_pool: handle })
            },
            SetupStage::CommandBuffer => {
                self.fill_newest(SetupStage::CommandBuffer, handle);
                cycle.stage = SetupStage::Semaphore;
                (cycle, SetupRequest::CreateSemaphore)
            },
            SetupStage::Semaphore => {
                self.fill_newest(SetupStage::Semaphore, handle);
                cycle.stage = SetupStage::Fence;
                (cycle, SetupRequest::CreateFence)
            },
            SetupStage::Fence => {
                self.fill_newest(SetupStage::Fence, handle);
                let count: usize = self.frames.len();
                if count < FRAMES_IN_FLIGHT {
                    let descriptor_set: u64 = cycle.sets[count];
                    self.add_frame(descriptor_set);
                    cycle.stage = SetupStage::CommandPool;
                    (cycle, SetupRequest::CreateCommandPool)
                } else {
                    cycle.stage = SetupStage::Complete;
                    let extent: Extent2D = cycle.extent;
                    (cycle, SetupRequest::RecreateSwapchain { extent })
                }
            },
            _ => (cycle, SetupRequest::CreateSampler),
        }
    }

    /// Goes on setting a presenter up: `reply` is what came of the last request.
    /// A device that takes too few bytes for the shaders ends it.
    pub fn initialize(&mut self, cycle: SetupCycle, reply: SetupReply) -> (step: (
        SetupCycle,
        SetupRequest,
    ))
        requires
            cycle.wf(*old(self)),
            cycle.answered_by(reply),
        ensures
            step.0.wf(*final(self)),
            step.0.extent == cycle.extent,
            match reply {
                SetupReply::Created(handle) => {
                    &&& (step.0.stage, step.1) == old(self).setup_after(cycle, handle)
                    &&& step.0.sets == cycle.sets
                    &&& final(self).frames@ == old(self).frames_after(cycle, handle)
                    &&& *final(self) == (WsiPresenter {
                        shared: old(self).shared_after(cycle.stage, handle),
                        frames: final(self).frames,
                        ..*old(self)
                    })
                },
                SetupReply::Sets(sets) => {
                    &&& step.0.stage is PipelineLayout
                    &&& step.0.sets == sets
                    &&& step.1 == (SetupRequest::CreatePipelineLayout {
                        set_layout: old(self).shared.descriptor_set_layout,
                    })
                    &&& *final(self) == *old(self)
                },
                SetupReply::Limit(limit) => if limit < TOTAL_PUSH_CONSTANT_SIZE {
                    &&& step.0.stage is Complete
                    &&& step.1 == (SetupRequest::LimitTooLow {
                        limit,
                        needed: TOTAL_PUSH_CONSTANT_SIZE,
                    })
                    &&& *final(self) == *old(self)
                } else {
                    &&& step.0.stage is CommandPool
                    &&& step.0.sets == cycle.sets
                    &&& step.1 == SetupRequest::CreateCommandPool
                    &&& final(self).frames@ == seq![bare_frame(cycle.sets@[0])]
                    &&& *final(self) == (WsiPresenter { frames: final(self).frames, ..*old(self) })
                },
            },
            step.1 is RecreateSwapchain ==> final(self).frames@.len() == FRAMES_IN_FLIGHT
                && final(self).wf(),
    {
        let mut cycle = cycle;
        match reply {
            SetupReply::Created(handle) => self.record_setup(cycle, handle),
            SetupReply::Sets(sets) => {
                cycle.sets = sets;
                cycle.stage = SetupStage::PipelineLayout;
                (
                    cycle,
                    SetupRequest::CreatePipelineLayout {
                        set_layout: self.shared.descriptor_set_layout,
                    },
                )
            },
            SetupReply::Limit(limit) => {
                if limit < TOTAL_PUSH_CONSTANT_SIZE {
                    cycle.stage = SetupStage::Complete;
                    (
                        cycle,
                        SetupRequest::LimitTooLow { limit, needed: TOTAL_PUSH_CONSTANT_SIZE },
                    )
                } else {
                    let descriptor_set: u64 = cycle.sets[0];
                    self.add_frame(descriptor_set);
                    assert(self.frames@ =~= seq![bare_frame(cycle.sets@[0])]);
                    cycle.stage = SetupStage::CommandPool;
                    (cycle, SetupRequest::CreateCommandPool)
                }
            },
        }
    }
}

proof fn plan_holds_the_own_objects(presenter: WsiPresenter, object: Teardown)
    ensures
        presenter.plan().contains(object) == {
            ||| presenter.content_plan().contains(object)
            ||| frames_plan(presenter.frames@).contains(object)
            ||| live(HandleKind::Sampler, presenter.shared.sampler).contains(object)
            ||| live(HandleKind::PipelineLayout, presenter.shared.pipeline_layout).contains(object)
            ||| live(HandleKind::DescriptorPool, presenter.shared.descriptor_pool).contains(object)
            ||| live(
                HandleKind::DescriptorSetLayout,
                presenter.shared.descriptor_set_layout,
            ).contains(object)
            ||| live(HandleKind::Surface, presenter.shared.surface).contains(object)
        },
{
    broadcast use vstd::seq_lib::lemma_seq_concat_contains_all_elements;

}

proof fn newest_slot_splits_off(frames: Seq<FrameContext>, object: Teardown)
    requires
        frames.len() > 0,
    ensures
        frames_plan(frames).contains(object) == {
            let newest = frames.last();
            ||| frames_plan(frames.drop_last()).contains(object)
            ||| newest.pending_release is Some && object == release_fd(newest.pending_release->0)
            ||| live(HandleKind::Fence, newest.fence).contains(object)
            ||| live(HandleKind::Semaphore, newest.image_available).contains(object)
            ||| live(HandleKind::CommandPool, newest.command_pool).contains(object)
        },
{
    broadcast use vstd::seq_lib::lemma_seq_concat_contains_all_elements;

    if let Some(release) = frames.last().pending_release {
        assert(seq![release_fd(release)][0] == release_fd(release));
    }
}

/// A presenter that could not be set up leaves nothing behind: what is taken down
/// of it is, at every stage, what it held before and what the steps so far brought.
pub proof fn unfinished_setup_is_taken_down_whole(
    before: WsiPresenter,
    after: WsiPresenter,
    cycle: SetupCycle,
    handle: u64,
    object: Teardown,
)
    requires
        cycle.wf(before),
        cycle.answered_by(SetupReply::Created(handle)),
        after.frames@ == before.frames_after(cycle, handle),
        after == (WsiPresenter {
            shared: before.shared_after(cycle.stage, handle),
            frames: after.frames,
            ..before
        }),
    ensures
        after.plan().contains(object) == (before.plan().contains(object) || cycle.brought(
            handle,
        ).contains(object)),
{
    plan_holds_the_own_objects(before, object);
    plan_holds_the_own_objects(after, object);
    if cycle.stage.rank() >= 6 {
        let filled = before.frames@.update(
            before.frames@.len() - 1,
            before.newest_after(cycle.stage, handle),
        );
        assert(filled.drop_last() =~= before.frames@.drop_last());
        newest_slot_splits_off(before.frames@, object);
        newest_slot_splits_off(filled, object);
        if after.frames@.len() > filled.len() {
            assert(after.frames@.drop_last() =~= filled);
            newest_slot_splits_off(after.frames@, object);
        }
    }
}

/// Whether `request` is what setting up waits for at a stage.
pub open spec fn awaited(presenter: WsiPresenter, cycle: SetupCycle, request: SetupRequest) -> bool {
    match request {
        SetupRequest::CreateSetLayout { bindings } => cycle.stage is SetLayout && bindings == 3,
        SetupRequest::CreatePool { max_sets, descriptors } => cycle.stage is Pool && max_sets == 10
            && descriptors == 30,
        SetupRequest::AllocateSets { pool, set_layout, count } => cycle.stage is Sets && pool
            == presenter.shared.descriptor_pool && set_layout
            == presenter.shared.descriptor_set_layout && count == 2,
        SetupRequest::CreatePipelineLayout { set_layout } => cycle.stage is PipelineLayout
            && set_layout == presenter.shared.descriptor_set_layout,
        SetupRequest::CreateSampler => cycle.stage is Sampler,
        SetupRequest::QueryPushConstantLimit => cycle.stage is Limits,
        SetupRequest::CreateCommandPool => cycle.stage is CommandPool,
        SetupRequest::AllocateCommandBuffer { command_pool } => cycle.stage is CommandBuffer
            && presenter.frames@.len() > 0 && command_pool == presenter.frames@[
            presenter.frames@.len() - 1].command_pool,
        SetupRequest::CreateSemaphore => cycle.stage is Semaphore,
        SetupRequest::CreateFence => cycle.stage is Fence,
        SetupRequest::LimitTooLow { .. } => cycle.stage is Complete,
        SetupRequest::RecreateSwapchain { extent } => cycle.stage is Complete && extent
            == cycle.extent,
    }
}

/// Setting up asks for one object after the other and records each where it belongs.
/// Every frame slot gets a command pool with its buffer, a semaphore and a fence of its
/// own, and its own descriptor set, in turn. Two slots are there before a swapchain of
/// the size asked for is built, and a device that takes too few bytes for the shaders is
/// turned down.
pub proof fn presenter_is_made_of_what_was_requested(
    presenter: &mut WsiPresenter,
    cycle: SetupCycle,
    reply: SetupReply,
    step: (SetupCycle, SetupRequest),
)
    requires
        call_ensures(WsiPresenter::initialize, (presenter, cycle, reply), step),
        cycle.wf(*old(presenter)),
        cycle.answered_by(reply),
    ensures
        ({
            let before = *old(presenter);
            let after = *final(presenter);
            let last = after.frames@.len() - 1;
            &&& awaited(after, step.0, step.1)
            &&& step.0.extent == cycle.extent
            &&& after.shared.surface == before.shared.surface
            &&& reply matches SetupReply::Limit(limit) ==> {
                &&& step.1 is LimitTooLow <==> limit < 112
                &&& limit >= 112 ==> step.1 is CreateCommandPool && after.frames@.len() == 1
                    && after.frames@[0].descriptor_set == cycle.sets@[0]
            }
            &&& reply matches SetupReply::Sets(sets) ==> step.0.sets@ == sets@ && step.1
                is CreatePipelineLayout
            &&& reply matches SetupReply::Created(handle) ==> match cycle.stage {
                SetupStage::SetLayout => after.shared.descriptor_set_layout == handle && step.1
                    is CreatePool,
                SetupStage::Pool => after.shared.descriptor_pool == handle && step.1 is AllocateSets,
                SetupStage::PipelineLayout => after.shared.pipeline_layout == handle && step.1
                    is CreateSampler,
                SetupStage::Sampler => after.shared.sampler == handle && step.1
                    is QueryPushConstantLimit,
                SetupStage::CommandPool => after.frames@[last].command_pool == handle && step.1
                    is AllocateCommandBuffer,
                SetupStage::CommandBuffer => after.frames@[last].command_buffer == handle && step.1
                    is CreateSemaphore,
                SetupStage::Semaphore => after.frames@[last].image_available == handle && step.1
                    is CreateFence,
                SetupStage::Fence => {
                    let filled = before.frames@.len() - 1;
                    &&& after.frames@[filled].fence == handle
                    &&& after.frames@[filled].image_available
                        == before.frames@[filled].image_available
                    &&& after.frames@[filled].command_buffer == before.frames@[filled].command_buffer
                    &&& before.frames@.len() < 2 ==> after.frames@.len() == before.frames@.len() + 1
                        && after.frames@[last].descriptor_set == cycle.sets@[last] && step.1
                        is CreateCommandPool
                    &&& before.frames@.len() == 2 ==> step.1 is RecreateSwapchain
                        && after.frames@.len() == 2
                },
                _ => false,
            }
            &&& reply is Created ==> step.0.sets@ == cycle.sets@
        }),
{
}

/// Setting up starts with the layout that all descriptor sets share.
pub proof fn setup_starts_with_the_layout(
    presenter: WsiPresenter,
    extent: Extent2D,
    step: (SetupCycle, SetupRequest),
)
    requires
        call_ensures(WsiPresenter::begin_setup, (&presenter, extent), step),
    ensures
        step.0.stage is SetLayout,
        step.0.extent == extent,
        awaited(presenter, step.0, step.1),
{
}

} // verus!
