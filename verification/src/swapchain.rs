//! The swapchain: which one to ask for, how it is built, and what is taken down
//! for it.

use crate::construction::Shaders;
use crate::geometry::Extent2D;
use crate::presenter::{SwapchainState, WsiPresenter, FRAMES_IN_FLIGHT};
use crate::resources::{
    push_each, push_live, push_plan, HandleKind, RenderingStage, RetiredSwapchain,
    SwapchainRendering, Teardown, FORMAT_B8G8R8A8_UNORM, FORMAT_R8G8B8A8_UNORM, FORMAT_UNDEFINED,
};
#[allow(unused_imports)]
use crate::resources::{each, live};
use vstd::prelude::*;
#[allow(unused_imports)]
use vstd::seq_lib::lemma_multiset_commutative;

verus! {

/// Color space: sRGB, not linear.
pub const COLOR_SPACE_SRGB_NONLINEAR: i32 = 0;

/// The surface ignores alpha.
pub const COMPOSITE_ALPHA_OPAQUE: u32 = 1;

/// The surface takes colors that are multiplied by alpha.
pub const COMPOSITE_ALPHA_PRE_MULTIPLIED: u32 = 2;

/// The surface multiplies colors by alpha.
pub const COMPOSITE_ALPHA_POST_MULTIPLIED: u32 = 4;

/// The surface leaves alpha to the window system.
pub const COMPOSITE_ALPHA_INHERIT: u32 = 8;

/// The width by which a surface says that it takes any size.
pub const ANY_EXTENT: u32 = u32::MAX;

/// A format that a surface takes.
#[derive(Clone, Copy, Debug, PartialEq, Eq, Structural)]
pub struct SurfaceFormat {
    pub format: i32,
    pub color_space: i32,
}

/// What a surface takes.
#[derive(Clone, Copy, Debug, PartialEq, Eq, Structural)]
pub struct SurfaceCapabilities {
    pub min_image_count: u32,
    /// Zero for no limit.
    pub max_image_count: u32,
    pub current_extent: Extent2D,
    pub min_image_extent: Extent2D,
    pub max_image_extent: Extent2D,
    pub current_transform: u32,
    pub supported_composite_alpha: u32,
}

/// The swapchain to ask for.
#[derive(Clone, Copy, Debug)]
pub struct SwapchainPlan {
    pub surface: u64,
    pub image_count: u32,
    pub format: SurfaceFormat,
    pub extent: Extent2D,
    pub transform: u32,
    pub composite_alpha: u32,
    /// The two queue families that share the images, where they differ.
    pub shared_by: Option<(u32, u32)>,
    /// The swapchain that is replaced, zero for none.
    pub old_swapchain: u64,
}

/// Why no swapchain can be asked for.
#[derive(Clone, Copy, Debug, PartialEq, Eq, Structural)]
pub enum SwapchainError {
    /// The surface takes no format.
    NoFormats,
}

/// Whether a format is one of those preferred for the surface.
pub open spec fn preferred(format: SurfaceFormat) -> bool {
    (format.format == FORMAT_B8G8R8A8_UNORM || format.format == FORMAT_R8G8B8A8_UNORM)
        && format.color_space == COLOR_SPACE_SRGB_NONLINEAR
}

/// The first preferred format, else the first one. A surface whose only format is
/// undefined takes any.
pub open spec fn surface_format(formats: Seq<SurfaceFormat>) -> SurfaceFormat {
    if formats.len() == 1 && formats[0].format == FORMAT_UNDEFINED {
        SurfaceFormat { format: FORMAT_B8G8R8A8_UNORM, color_space: formats[0].color_space }
    } else {
        let fitting = formats.filter(|format: SurfaceFormat| preferred(format));
        if fitting.len() > 0 {
            fitting[0]
        } else {
            formats[0]
        }
    }
}

/// As many images as there are frames in flight, within what the surface takes.
pub open spec fn image_count(capabilities: SurfaceCapabilities) -> int {
    let wanted = if capabilities.min_image_count < FRAMES_IN_FLIGHT {
        FRAMES_IN_FLIGHT as int
    } else {
        capabilities.min_image_count as int
    };
    if 0 < capabilities.max_image_count < wanted {
        capabilities.max_image_count as int
    } else {
        wanted
    }
}

/// `value`, moved into the range.
pub open spec fn clamped(value: u32, low: u32, high: u32) -> u32 {
    if value < low {
        low
    } else if value > high {
        high
    } else {
        value
    }
}

/// The size the surface has, or the one asked for within what the surface takes.
pub open spec fn swapchain_extent(
    capabilities: SurfaceCapabilities,
    requested: Extent2D,
) -> Extent2D {
    if capabilities.current_extent.width != ANY_EXTENT {
        capabilities.current_extent
    } else {
        Extent2D {
            width: clamped(
                requested.width,
                capabilities.min_image_extent.width,
                capabilities.max_image_extent.width,
            ),
            height: clamped(
                requested.height,
                capabilities.min_image_extent.height,
                capabilities.max_image_extent.height,
            ),
        }
    }
}

/// The first supported mode of the four, opaque first; opaque where none is.
pub open spec fn composite_alpha(supported: u32) -> u32 {
    if supported & COMPOSITE_ALPHA_OPAQUE == COMPOSITE_ALPHA_OPAQUE {
        COMPOSITE_ALPHA_OPAQUE
    } else if supported & COMPOSITE_ALPHA_PRE_MULTIPLIED == COMPOSITE_ALPHA_PRE_MULTIPLIED {
        COMPOSITE_ALPHA_PRE_MULTIPLIED
    } else if supported & COMPOSITE_ALPHA_POST_MULTIPLIED == COMPOSITE_ALPHA_POST_MULTIPLIED {
        COMPOSITE_ALPHA_POST_MULTIPLIED
    } else if supported & COMPOSITE_ALPHA_INHERIT == COMPOSITE_ALPHA_INHERIT {
        COMPOSITE_ALPHA_INHERIT
    } else {
        COMPOSITE_ALPHA_OPAQUE
    }
}

/// The limits on the size of an image can be met.
pub open spec fn has_room(capabilities: SurfaceCapabilities) -> bool {
    capabilities.current_extent.width == ANY_EXTENT ==> {
        &&& capabilities.min_image_extent.width <= capabilities.max_image_extent.width
        &&& capabilities.min_image_extent.height <= capabilities.max_image_extent.height
    }
}

proof fn nothing_fits_so_far(formats: Seq<SurfaceFormat>)
    requires
        forall|at: int| 0 <= at < formats.len() ==> !preferred(#[trigger] formats[at]),
    ensures
        formats.filter(|format: SurfaceFormat| preferred(format)).len() == 0,
    decreases formats.len(),
{
    reveal(Seq::filter);
    if formats.len() > 0 {
        nothing_fits_so_far(formats.drop_last());
    }
}

proof fn first_fitting_stays_first(formats: Seq<SurfaceFormat>, found: int)
    requires
        0 <= found < formats.len(),
        preferred(formats[found]),
        forall|at: int| 0 <= at < found ==> !preferred(#[trigger] formats[at]),
    ensures
        formats.filter(|format: SurfaceFormat| preferred(format)).len() > 0,
        formats.filter(|format: SurfaceFormat| preferred(format))[0] == formats[found],
    decreases formats.len(),
{
    reveal(Seq::filter);
    if found == formats.len() - 1 {
        nothing_fits_so_far(formats.drop_last());
    } else {
        first_fitting_stays_first(formats.drop_last(), found);
    }
}

/// The format for the surface.
pub fn choose_surface_format(formats: &[SurfaceFormat]) -> (chosen: SurfaceFormat)
    requires
        formats@.len() > 0,
    ensures
        chosen == surface_format(formats@),
{
    if formats.len() == 1 && formats[0].format == FORMAT_UNDEFINED {
        return SurfaceFormat {
            format: FORMAT_B8G8R8A8_UNORM,
            color_space: formats[0].color_space,
        };
    }
    for index in 0..formats.len()
        invariant
            formats@.len() > 0,
            !(formats@.len() == 1 && formats@[0].format == FORMAT_UNDEFINED),
            forall|at: int| 0 <= at < index ==> !preferred(#[trigger] formats@[at]),
    {
        let format: SurfaceFormat = formats[index];
        if (format.format == FORMAT_B8G8R8A8_UNORM || format.format == FORMAT_R8G8B8A8_UNORM)
            && format.color_space == COLOR_SPACE_SRGB_NONLINEAR {
            proof {
                first_fitting_stays_first(formats@, index as int);
            }
            return format;
        }
    }
    proof {
        nothing_fits_so_far(formats@);
    }
    formats[0]
}

/// The number of images to ask for.
pub fn choose_image_count(capabilities: &SurfaceCapabilities) -> (count: u32)
    ensures
        count == image_count(*capabilities),
{
    let mut count: u32 = capabilities.min_image_count.max(FRAMES_IN_FLIGHT as u32);
    if capabilities.max_image_count > 0 {
        count = count.min(capabilities.max_image_count);
    }
    count
}

fn clamp_to(value: u32, low: u32, high: u32) -> (result: u32)
    ensures
        result == clamped(value, low, high),
{
    if value < low {
        low
    } else if value > high {
        high
    } else {
        value
    }
}

/// The size of the images to ask for.
pub fn choose_extent(capabilities: &SurfaceCapabilities, requested: Extent2D) -> (extent: Extent2D)
    requires
        has_room(*capabilities),
    ensures
        extent == swapchain_extent(*capabilities, requested),
{
    if capabilities.current_extent.width != ANY_EXTENT {
        return capabilities.current_extent;
    }
    Extent2D {
        width: clamp_to(
            requested.width,
            capabilities.min_image_extent.width,
            capabilities.max_image_extent.width,
        ),
        height: clamp_to(
            requested.height,
            capabilities.min_image_extent.height,
            capabilities.max_image_extent.height,
        ),
    }
}

/// How the surface treats alpha.
pub fn choose_composite_alpha(supported: u32) -> (mode: u32)
    ensures
        mode == composite_alpha(supported),
{
    let modes: [u32; 4] = [
        COMPOSITE_ALPHA_OPAQUE,
        COMPOSITE_ALPHA_PRE_MULTIPLIED,
        COMPOSITE_ALPHA_POST_MULTIPLIED,
        COMPOSITE_ALPHA_INHERIT,
    ];
    for index in 0..4
        invariant
            modes@ == seq![
                COMPOSITE_ALPHA_OPAQUE,
                COMPOSITE_ALPHA_PRE_MULTIPLIED,
                COMPOSITE_ALPHA_POST_MULTIPLIED,
                COMPOSITE_ALPHA_INHERIT,
            ],
            forall|at: int| 0 <= at < index ==> supported & #[trigger] modes@[at] != modes@[at],
    {
        let mode: u32 = modes[index];
        if supported & mode == mode {
            assert(index > 0 ==> supported & modes@[0] != modes@[0]);
            assert(index > 1 ==> supported & modes@[1] != modes@[1]);
            assert(index > 2 ==> supported & modes@[2] != modes@[2]);
            return mode;
        }
    }
    assert(supported & modes@[0] != modes@[0]);
    assert(supported & modes@[1] != modes@[1]);
    assert(supported & modes@[2] != modes@[2]);
    assert(supported & modes@[3] != modes@[3]);
    COMPOSITE_ALPHA_OPAQUE
}

/// How far a swapchain has been built.
#[derive(Clone, Copy, Debug, PartialEq, Eq, Structural)]
pub enum SwapchainStage {
    Swapchain,
    Images,
    Semaphores,
    Rendering(RenderingStage),
    BlurPipeline,
    TransitionPipeline,
    Complete,
}

/// What building a swapchain needs next.
#[derive(Clone, Copy, Debug)]
pub enum SwapchainRequest {
    CreateSwapchain(SwapchainPlan),
    QueryImages { swapchain: u64 },
    CreateSemaphore,
    CreateView { image: u64, format: i32 },
    CreateRenderPass { format: i32 },
    CreatePipeline { render_pass: u64, shaders: Shaders },
    CreateFramebuffer { render_pass: u64, attachment: u64, extent: Extent2D },
    /// Everything is there.
    Complete,
}

/// A swapchain in the making.
#[derive(Debug)]
pub struct SwapchainBuild {
    pub plan: SwapchainPlan,
    pub handle: u64,
    pub images: Vec<u64>,
    pub present_ready: Vec<u64>,
    pub rendering: SwapchainRendering,
    /// The kept scene needs a pipeline for the new render pass.
    pub needs_blur_pipeline: bool,
    /// The transition targets need a pipeline for the new render pass.
    pub needs_transition_pipeline: bool,
    pub blur_pipeline: u64,
    pub transition_pipeline: u64,
    pub stage: SwapchainStage,
}

impl SwapchainBuild {
    /// As many objects exist as the stage says.
    pub open spec fn wf(self) -> bool {
        let images = self.images@.len();
        let semaphores = self.present_ready@.len();
        let views = self.rendering.views@.len();
        let framebuffers = self.rendering.framebuffers@.len();
        let rendering = self.rendering;
        &&& self.stage is Swapchain ==> images == 0 && self.handle == 0
        &&& self.stage is Images ==> images == 0
        &&& (self.stage is Swapchain || self.stage is Images) ==> semaphores == 0
        &&& self.stage is Semaphores ==> semaphores < images
        &&& (self.stage is Swapchain || self.stage is Images || self.stage is Semaphores)
            ==> views == 0 && framebuffers == 0 && rendering.render_pass == 0 && rendering.pipeline
            == 0
        &&& match self.stage {
            SwapchainStage::Rendering(RenderingStage::ImageView) => semaphores == images && views
                < images && framebuffers == 0 && rendering.render_pass == 0 && rendering.pipeline
                == 0,
            SwapchainStage::Rendering(RenderingStage::RenderPass) => semaphores == images && views
                == images && framebuffers == 0 && rendering.render_pass == 0 && rendering.pipeline
                == 0,
            SwapchainStage::Rendering(RenderingStage::Pipeline) => semaphores == images && views
                == images && framebuffers == 0 && rendering.pipeline == 0,
            SwapchainStage::Rendering(RenderingStage::Framebuffer) => semaphores == images && views
                == images && framebuffers < images,
            SwapchainStage::BlurPipeline => self.drawable() && self.needs_blur_pipeline,
            SwapchainStage::TransitionPipeline => self.drawable()
                && self.needs_transition_pipeline,
            SwapchainStage::Complete => self.drawable(),
            _ => true,
        }
        &&& self.blur_pipeline != 0 ==> self.stage is TransitionPipeline || self.stage is Complete
        &&& self.transition_pipeline != 0 ==> self.stage is Complete
    }

    /// Every image has a semaphore, a view and a framebuffer.
    pub open spec fn drawable(self) -> bool {
        &&& self.present_ready@.len() == self.images@.len()
        &&& self.rendering.views@.len() == self.images@.len()
        &&& self.rendering.framebuffers@.len() == self.images@.len()
    }

    /// What is needed next.
    pub open spec fn wanted(self) -> SwapchainRequest {
        match self.stage {
            SwapchainStage::Swapchain => SwapchainRequest::CreateSwapchain(self.plan),
            SwapchainStage::Images => SwapchainRequest::QueryImages { swapchain: self.handle },
            SwapchainStage::Semaphores => SwapchainRequest::CreateSemaphore,
            SwapchainStage::Rendering(RenderingStage::ImageView) => SwapchainRequest::CreateView {
                image: self.images@[self.rendering.views@.len() as int],
                format: self.plan.format.format,
            },
            SwapchainStage::Rendering(
                RenderingStage::RenderPass,
            ) => SwapchainRequest::CreateRenderPass { format: self.plan.format.format },
            SwapchainStage::Rendering(
                RenderingStage::Pipeline,
            ) => SwapchainRequest::CreatePipeline {
                render_pass: self.rendering.render_pass,
                shaders: Shaders::Composition,
            },
            SwapchainStage::Rendering(
                RenderingStage::Framebuffer,
            ) => SwapchainRequest::CreateFramebuffer {
                render_pass: self.rendering.render_pass,
                attachment: self.rendering.views@[self.rendering.framebuffers@.len() as int],
                extent: self.plan.extent,
            },
            SwapchainStage::BlurPipeline => SwapchainRequest::CreatePipeline {
                render_pass: self.rendering.render_pass,
                shaders: Shaders::Blur,
            },
            SwapchainStage::TransitionPipeline => SwapchainRequest::CreatePipeline {
                render_pass: self.rendering.render_pass,
                shaders: Shaders::Transition,
            },
            SwapchainStage::Complete => SwapchainRequest::Complete,
        }
    }

    /// The stage once the images can be drawn to.
    pub open spec fn stage_after_rendering(self) -> SwapchainStage {
        if self.needs_blur_pipeline {
            SwapchainStage::BlurPipeline
        } else {
            self.stage_after_blur()
        }
    }

    /// The stage once the scene can be drawn.
    pub open spec fn stage_after_blur(self) -> SwapchainStage {
        if self.needs_transition_pipeline {
            SwapchainStage::TransitionPipeline
        } else {
            SwapchainStage::Complete
        }
    }

    /// The stage after one more object of this stage exists; for the images, the
    /// stage after all of them are known is told by their number.
    pub open spec fn stage_after(self) -> SwapchainStage {
        let images = self.images@.len();
        match self.stage {
            SwapchainStage::Swapchain => SwapchainStage::Images,
            SwapchainStage::Images => SwapchainStage::Images,
            SwapchainStage::Semaphores => if self.present_ready@.len() + 1 < images {
                SwapchainStage::Semaphores
            } else {
                SwapchainStage::Rendering(RenderingStage::ImageView)
            },
            SwapchainStage::Rendering(RenderingStage::ImageView) => if self.rendering.views@.len()
                + 1 < images {
                self.stage
            } else {
                SwapchainStage::Rendering(RenderingStage::RenderPass)
            },
            SwapchainStage::Rendering(RenderingStage::RenderPass) => SwapchainStage::Rendering(
                RenderingStage::Pipeline,
            ),
            SwapchainStage::Rendering(RenderingStage::Pipeline) => if images > 0 {
                SwapchainStage::Rendering(RenderingStage::Framebuffer)
            } else {
                self.stage_after_rendering()
            },
            SwapchainStage::Rendering(
                RenderingStage::Framebuffer,
            ) => if self.rendering.framebuffers@.len() + 1 < images {
                self.stage
            } else {
                self.stage_after_rendering()
            },
            SwapchainStage::BlurPipeline => self.stage_after_blur(),
            SwapchainStage::TransitionPipeline => SwapchainStage::Complete,
            SwapchainStage::Complete => SwapchainStage::Complete,
        }
    }

    /// What has to be taken down where the next step fails, in order: what was
    /// created last goes first. Where the render pass cannot be created, the views
    /// stay.
    pub open spec fn rollback_plan(self) -> Seq<Teardown> {
        live(HandleKind::Pipeline, self.blur_pipeline) + (match self.stage {
            SwapchainStage::Rendering(stage) => self.rendering.rollback_plan(stage),
            _ => self.rendering.plan(),
        }) + each(HandleKind::Semaphore, self.present_ready@) + live(
            HandleKind::Swapchain,
            self.handle,
        )
    }

    /// Every object created so far, in the order of creation.
    pub open spec fn created(self) -> Seq<Teardown> {
        live(HandleKind::Swapchain, self.handle) + (each(
            HandleKind::Semaphore,
            self.present_ready@,
        ) + (each(HandleKind::ImageView, self.rendering.views@) + (live(
            HandleKind::RenderPass,
            self.rendering.render_pass,
        ) + (live(HandleKind::Pipeline, self.rendering.pipeline) + (each(
            HandleKind::Framebuffer,
            self.rendering.framebuffers@,
        ) + live(HandleKind::Pipeline, self.blur_pipeline))))))
    }

    /// What is needed next.
    pub fn request(&self) -> (request: SwapchainRequest)
        requires
            self.wf(),
        ensures
            request == self.wanted(),
    {
        match self.stage {
            SwapchainStage::Swapchain => SwapchainRequest::CreateSwapchain(self.plan),
            SwapchainStage::Images => SwapchainRequest::QueryImages { swapchain: self.handle },
            SwapchainStage::Semaphores => SwapchainRequest::CreateSemaphore,
            SwapchainStage::Rendering(stage) => match stage {
                RenderingStage::ImageView => SwapchainRequest::CreateView {
                    image: self.images[self.rendering.views.len()],
                    format: self.plan.format.format,
                },
                RenderingStage::RenderPass => SwapchainRequest::CreateRenderPass {
                    format: self.plan.format.format,
                },
                RenderingStage::Pipeline => SwapchainRequest::CreatePipeline {
                    render_pass: self.rendering.render_pass,
                    shaders: Shaders::Composition,
                },
                RenderingStage::Framebuffer => SwapchainRequest::CreateFramebuffer {
                    render_pass: self.rendering.render_pass,
                    attachment: self.rendering.views[self.rendering.framebuffers.len()],
                    extent: self.plan.extent,
                },
            },
            SwapchainStage::BlurPipeline => SwapchainRequest::CreatePipeline {
                render_pass: self.rendering.render_pass,
                shaders: Shaders::Blur,
            },
            SwapchainStage::TransitionPipeline => SwapchainRequest::CreatePipeline {
                render_pass: self.rendering.render_pass,
                shaders: Shaders::Transition,
            },
            SwapchainStage::Complete => SwapchainRequest::Complete,
        }
    }

    fn after_blur(&self) -> (stage: SwapchainStage)
        ensures
            stage == self.stage_after_blur(),
    {
        if self.needs_transition_pipeline {
            SwapchainStage::TransitionPipeline
        } else {
            SwapchainStage::Complete
        }
    }

    fn after_rendering(&self) -> (stage: SwapchainStage)
        ensures
            stage == self.stage_after_rendering(),
    {
        if self.needs_blur_pipeline {
            SwapchainStage::BlurPipeline
        } else {
            self.after_blur()
        }
    }

    /// Records the images of the new swapchain.
    pub fn record_images(&mut self, images: Vec<u64>)
        requires
            old(self).wf(),
            old(self).stage is Images,
        ensures
            final(self).wf(),
            *final(self) == (SwapchainBuild {
                images,
                stage: if images@.len() > 0 {
                    SwapchainStage::Semaphores
                } else {
                    SwapchainStage::Rendering(RenderingStage::RenderPass)
                },
                ..*old(self)
            }),
    {
        self.stage = if images.len() > 0 {
            SwapchainStage::Semaphores
        } else {
            SwapchainStage::Rendering(RenderingStage::RenderPass)
        };
        self.images = images;
    }

    /// Records the object that the last request created.
    pub fn advance(&mut self, handle: u64)
        requires
            old(self).wf(),
            old(self).stage !is Images,
            old(self).stage !is Complete,
        ensures
            final(self).wf(),
            final(self).stage == old(self).stage_after(),
            final(self).present_ready@ == (if old(self).stage is Semaphores {
                old(self).present_ready@.push(handle)
            } else {
                old(self).present_ready@
            }),
            final(self).rendering.views@ == (if old(self).stage == SwapchainStage::Rendering(
                RenderingStage::ImageView,
            ) {
                old(self).rendering.views@.push(handle)
            } else {
                old(self).rendering.views@
            }),
            final(self).rendering.framebuffers@ == (if old(self).stage
                == SwapchainStage::Rendering(RenderingStage::Framebuffer) {
                old(self).rendering.framebuffers@.push(handle)
            } else {
                old(self).rendering.framebuffers@
            }),
            *final(self) == (SwapchainBuild {
                handle: if old(self).stage is Swapchain {
                    handle
                } else {
                    old(self).handle
                },
                present_ready: final(self).present_ready,
                rendering: SwapchainRendering {
                    views: final(self).rendering.views,
                    framebuffers: final(self).rendering.framebuffers,
                    render_pass: if old(self).stage == SwapchainStage::Rendering(
                        RenderingStage::RenderPass,
                    ) {
                        handle
                    } else {
                        old(self).rendering.render_pass
                    },
                    pipeline: if old(self).stage == SwapchainStage::Rendering(
                        RenderingStage::Pipeline,
                    ) {
                        handle
                    } else {
                        old(self).rendering.pipeline
                    },
                },
                blur_pipeline: if old(self).stage is BlurPipeline {
                    handle
                } else {
                    old(self).blur_pipeline
                },
                transition_pipeline: if old(self).stage is TransitionPipeline {
                    handle
                } else {
                    old(self).transition_pipeline
                },
                stage: final(self).stage,
                ..*old(self)
            }),
    {
        match self.stage {
            SwapchainStage::Swapchain => {
                self.handle = handle;
                self.stage = SwapchainStage::Images;
            },
            SwapchainStage::Semaphores => {
                self.present_ready.push(handle);
                if self.present_ready.len() >= self.images.len() {
                    self.stage = SwapchainStage::Rendering(RenderingStage::ImageView);
                }
            },
            SwapchainStage::Rendering(stage) => match stage {
                RenderingStage::ImageView => {
                    self.rendering.views.push(handle);
                    if self.rendering.views.len() >= self.images.len() {
                        self.stage = SwapchainStage::Rendering(RenderingStage::RenderPass);
                    }
                },
                RenderingStage::RenderPass => {
                    self.rendering.render_pass = handle;
                    self.stage = SwapchainStage::Rendering(RenderingStage::Pipeline);
                },
                RenderingStage::Pipeline => {
                    self.rendering.pipeline = handle;
                    self.stage = if self.images.len() > 0 {
                        SwapchainStage::Rendering(RenderingStage::Framebuffer)
                    } else {
                        self.after_rendering()
                    };
                },
                RenderingStage::Framebuffer => {
                    self.rendering.framebuffers.push(handle);
                    if self.rendering.framebuffers.len() >= self.images.len() {
                        self.stage = self.after_rendering();
                    }
                },
            },
            SwapchainStage::BlurPipeline => {
                self.blur_pipeline = handle;
                self.stage = self.after_blur();
            },
            SwapchainStage::TransitionPipeline => {
                self.transition_pipeline = handle;
                self.stage = SwapchainStage::Complete;
            },
            _ => {},
        }
    }

    /// What has to be taken down where the next step fails, in order.
    pub fn rollback(&self) -> (steps: Vec<Teardown>)
        ensures
            steps@ == self.rollback_plan(),
    {
        let mut steps: Vec<Teardown> = Vec::new();
        push_live(&mut steps, HandleKind::Pipeline, self.blur_pipeline);
        let rendering = match self.stage {
            SwapchainStage::Rendering(stage) => self.rendering.rollback(stage),
            _ => self.rendering.teardown(),
        };
        push_plan(&mut steps, &rendering);
        push_each(&mut steps, HandleKind::Semaphore, &self.present_ready);
        push_live(&mut steps, HandleKind::Swapchain, self.handle);
        assert(steps@ =~= self.rollback_plan());
        steps
    }
}

proof fn unfinished_rendering_goes_whole(rendering: SwapchainRendering, stage: RenderingStage)
    requires
        stage !is RenderPass,
        stage is ImageView ==> rendering.render_pass == 0,
        stage is ImageView || stage is Pipeline ==> rendering.pipeline == 0
            && rendering.framebuffers@.len() == 0,
        stage is Pipeline || stage is Framebuffer ==> rendering.render_pass != 0,
        stage is Framebuffer ==> rendering.pipeline != 0,
    ensures
        rendering.rollback_plan(stage) == rendering.plan(),
{
    assert(rendering.rollback_plan(stage) =~= rendering.plan());
}

proof fn same_parts(
    a: Seq<Teardown>,
    b: Seq<Teardown>,
    c: Seq<Teardown>,
    d: Seq<Teardown>,
    e: Seq<Teardown>,
    f: Seq<Teardown>,
    g: Seq<Teardown>,
)
    ensures
        (g + (f + e + d + c) + b + a).to_multiset() =~= (a + (b + (c + (d + (e + (f
            + g)))))).to_multiset(),
{
    assert(g + (f + e + d + c) + b + a =~= g + (f + (e + (d + (c + (b + a))))));
    lemma_multiset_commutative(b, a);
    lemma_multiset_commutative(c, b + a);
    lemma_multiset_commutative(d, c + (b + a));
    lemma_multiset_commutative(e, d + (c + (b + a)));
    lemma_multiset_commutative(f, e + (d + (c + (b + a))));
    lemma_multiset_commutative(g, f + (e + (d + (c + (b + a)))));
    lemma_multiset_commutative(f, g);
    lemma_multiset_commutative(e, f + g);
    lemma_multiset_commutative(d, e + (f + g));
    lemma_multiset_commutative(c, d + (e + (f + g)));
    lemma_multiset_commutative(b, c + (d + (e + (f + g))));
    lemma_multiset_commutative(a, b + (c + (d + (e + (f + g)))));
}

/// A swapchain that could not be finished leaves nothing behind: every object that
/// was created for it is taken down, each once. The views of a swapchain whose
/// render pass could not be created are the exception.
pub proof fn rollback_takes_everything_down(build: SwapchainBuild)
    requires
        build.wf(),
        build.stage !is Complete,
        build.stage != SwapchainStage::Rendering(RenderingStage::RenderPass),
        build.stage == SwapchainStage::Rendering(RenderingStage::Pipeline)
            ==> build.rendering.render_pass != 0,
        build.stage == SwapchainStage::Rendering(RenderingStage::Framebuffer)
            ==> build.rendering.render_pass != 0 && build.rendering.pipeline != 0,
    ensures
        build.rollback_plan().to_multiset() =~= build.created().to_multiset(),
{
    let swapchain = live(HandleKind::Swapchain, build.handle);
    let semaphores = each(HandleKind::Semaphore, build.present_ready@);
    let views = each(HandleKind::ImageView, build.rendering.views@);
    let render_pass = live(HandleKind::RenderPass, build.rendering.render_pass);
    let pipeline = live(HandleKind::Pipeline, build.rendering.pipeline);
    let framebuffers = each(HandleKind::Framebuffer, build.rendering.framebuffers@);
    let blur = live(HandleKind::Pipeline, build.blur_pipeline);
    if let SwapchainStage::Rendering(stage) = build.stage {
        unfinished_rendering_goes_whole(build.rendering, stage);
    }
    same_parts(swapchain, semaphores, views, render_pass, pipeline, framebuffers, blur);
}

/// Whether a swapchain of this size is built at all.
pub fn wants_swapchain(requested: Extent2D) -> (wanted: bool)
    ensures
        wanted == (requested.width > 0 && requested.height > 0),
{
    !(requested.width == 0 || requested.height == 0)
}

impl WsiPresenter {
    /// The swapchain to ask for.
    pub open spec fn swapchain_plan(
        self,
        requested: Extent2D,
        capabilities: SurfaceCapabilities,
        formats: Seq<SurfaceFormat>,
        graphics_family: u32,
        present_family: u32,
    ) -> SwapchainPlan {
        SwapchainPlan {
            surface: self.shared.surface,
            image_count: image_count(capabilities) as u32,
            format: surface_format(formats),
            extent: swapchain_extent(capabilities, requested),
            transform: capabilities.current_transform,
            composite_alpha: composite_alpha(capabilities.supported_composite_alpha),
            shared_by: if graphics_family != present_family {
                Some((graphics_family, present_family))
            } else {
                None
            },
            old_swapchain: self.swapchain.handle,
        }
    }

    /// Starts to replace the swapchain by one of a size that wants one. Pipelines
    /// that draw to the surface are replaced with it.
    pub fn recreate_swapchain(
        &self,
        requested: Extent2D,
        capabilities: &SurfaceCapabilities,
        formats: &[SurfaceFormat],
        graphics_family: u32,
        present_family: u32,
    ) -> (result: Result<SwapchainBuild, SwapchainError>)
        requires
            requested.width > 0,
            requested.height > 0,
            has_room(*capabilities),
        ensures
            result is Err <==> formats@.len() == 0,
            result is Err ==> result->Err_0 == SwapchainError::NoFormats,
            result is Ok ==> {
                let build = result->Ok_0;
                &&& build.wf()
                &&& build.stage is Swapchain
                &&& build.created() =~= Seq::<Teardown>::empty()
                &&& build.transition_pipeline == 0
                &&& build.needs_blur_pipeline == (self.blur_resources is Some)
                &&& build.needs_transition_pipeline == (self.transition_resources is Some)
                &&& build.plan == self.swapchain_plan(
                    requested,
                    *capabilities,
                    formats@,
                    graphics_family,
                    present_family,
                )
            },
    {
        if formats.len() == 0 {
            return Err(SwapchainError::NoFormats);
        }
        let plan = SwapchainPlan {
            surface: self.shared.surface,
            image_count: choose_image_count(capabilities),
            format: choose_surface_format(formats),
            extent: choose_extent(capabilities, requested),
            transform: capabilities.current_transform,
            composite_alpha: choose_composite_alpha(capabilities.supported_composite_alpha),
            shared_by: if graphics_family != present_family {
                Some((graphics_family, present_family))
            } else {
                None
            },
            old_swapchain: self.swapchain.handle,
        };
        Ok(
            SwapchainBuild {
                plan,
                handle: 0,
                images: Vec::new(),
                present_ready: Vec::new(),
                rendering: SwapchainRendering::new(),
                needs_blur_pipeline: self.blur_resources.is_some(),
                needs_transition_pipeline: self.transition_resources.is_some(),
                blur_pipeline: 0,
                transition_pipeline: 0,
                stage: SwapchainStage::Swapchain,
            },
        )
    }

    /// What the old swapchain leaves to be taken down at once, in order.
    pub open spec fn replaced_plan(self) -> Seq<Teardown> {
        (match self.blur_resources {
            Some(scene) => seq![
                Teardown { kind: HandleKind::Pipeline, handle: scene.blur_pipeline },
            ],
            None => seq![],
        }) + (match self.transition_resources {
            Some(targets) => seq![
                Teardown { kind: HandleKind::Pipeline, handle: targets.output_pipeline },
            ],
            None => seq![],
        }) + self.swapchain.rendering.plan()
    }

    /// Takes a finished swapchain into use. The old one stays until the presenter
    /// goes, with the semaphores its images may still wait on; what drew to it is
    /// handed out to be taken down. A black frame has to be drawn again. Without a
    /// format for the scene (`has_scene_format`) the wallpaper cannot be blurred.
    pub fn commit_swapchain(&mut self, build: SwapchainBuild, has_scene_format: bool) -> (steps: Vec<
        Teardown,
    >)
        requires
            old(self).wf(),
            build.wf(),
            build.stage is Complete,
            build.needs_blur_pipeline == (old(self).blur_resources is Some),
            build.needs_transition_pipeline == (old(self).transition_resources is Some),
        ensures
            steps@ == old(self).replaced_plan(),
            final(self).wf(),
            final(self).swapchain == (SwapchainState {
                handle: build.handle,
                format: build.plan.format.format,
                extent: build.plan.extent,
                images: build.images,
                present_ready: build.present_ready,
                rendering: build.rendering,
            }),
            final(self).swapchain.present_ready@.len() == final(self).swapchain.images@.len(),
            final(self).swapchain.rendering.framebuffers@.len()
                == final(self).swapchain.images@.len(),
            final(self).retired_swapchains@ == (if old(self).swapchain.handle == 0 {
                old(self).retired_swapchains@
            } else {
                old(self).retired_swapchains@.push(
                    RetiredSwapchain {
                        handle: old(self).swapchain.handle,
                        present_ready: old(self).swapchain.present_ready,
                    },
                )
            }),
            *final(self) == (WsiPresenter {
                swapchain: final(self).swapchain,
                retired_swapchains: final(self).retired_swapchains,
                blur_resources: match old(self).blur_resources {
                    Some(scene) => Some(
                        crate::resources::BlurResources {
                            blur_pipeline: build.blur_pipeline,
                            ..scene
                        },
                    ),
                    None => None,
                },
                transition_resources: match old(self).transition_resources {
                    Some(targets) => Some(
                        crate::resources::TransitionResources {
                            output_pipeline: build.transition_pipeline,
                            ..targets
                        },
                    ),
                    None => None,
                },
                blank_state: old(self).blank_state.after_invalidation(),
                pause_blur_available: old(self).pause_blur_available && has_scene_format,
                ..*old(self)
            }),
    {
        let mut steps: Vec<Teardown> = Vec::new();
        if let Some(scene) = &mut self.blur_resources {
            steps.push(Teardown { kind: HandleKind::Pipeline, handle: scene.blur_pipeline });
            scene.blur_pipeline = build.blur_pipeline;
        }
        if let Some(targets) = &mut self.transition_resources {
            steps.push(Teardown { kind: HandleKind::Pipeline, handle: targets.output_pipeline });
            targets.output_pipeline = build.transition_pipeline;
        }
        let rendering = self.swapchain.rendering.teardown();
        push_plan(&mut steps, &rendering);
        assert(steps@ =~= old(self).replaced_plan());
        let mut replaced = SwapchainState {
            handle: build.handle,
            format: build.plan.format.format,
            extent: build.plan.extent,
            images: build.images,
            present_ready: build.present_ready,
            rendering: build.rendering,
        };
        std::mem::swap(&mut self.swapchain, &mut replaced);
        if replaced.handle != 0 {
            self.retired_swapchains.push(
                RetiredSwapchain {
                    handle: replaced.handle,
                    present_ready: replaced.present_ready,
                },
            );
        }
        self.blank_state.invalidate_swapchain();
        if !has_scene_format {
            self.pause_blur_available = false;
        }
        steps
    }
}

/// The number of images asked for is within what the surface takes, and enough for
/// the frames in flight wherever the surface takes as many.
pub proof fn image_count_is_within_limits(capabilities: SurfaceCapabilities)
    requires
        capabilities.max_image_count == 0 || capabilities.min_image_count
            <= capabilities.max_image_count,
    ensures
        image_count(capabilities) >= capabilities.min_image_count,
        capabilities.max_image_count > 0 ==> image_count(capabilities)
            <= capabilities.max_image_count,
        capabilities.max_image_count == 0 || capabilities.max_image_count >= FRAMES_IN_FLIGHT
            ==> image_count(capabilities) >= FRAMES_IN_FLIGHT,
{
}

/// A size that the surface leaves open is within its limits.
pub proof fn extent_is_within_limits(capabilities: SurfaceCapabilities, requested: Extent2D)
    requires
        has_room(capabilities),
        capabilities.current_extent.width == ANY_EXTENT,
    ensures
        ({
            let extent = swapchain_extent(capabilities, requested);
            let low = capabilities.min_image_extent;
            let high = capabilities.max_image_extent;
            &&& low.width <= extent.width <= high.width
            &&& low.height <= extent.height <= high.height
            &&& low.width <= requested.width <= high.width && low.height <= requested.height
                <= high.height ==> extent == requested
        }),
{
}

/// What is requested for a swapchain is what it is made of: every image has a semaphore,
/// a view of that image and a framebuffer of that view, in the size and the format that
/// were planned; the pipelines are for the new render pass, and those of a kept scene
/// and of its targets exactly where there are such.
pub proof fn swapchain_is_made_of_what_was_requested(
    build: &mut SwapchainBuild,
    request: SwapchainRequest,
    handle: u64,
)
    requires
        old(build).wf(),
        old(build).stage !is Images,
        old(build).stage !is Complete,
        call_ensures(SwapchainBuild::request, (&*old(build),), request),
        call_ensures(SwapchainBuild::advance, (build, handle), ()),
    ensures
        ({
            let before = old(build).rendering;
            let after = final(build).rendering;
            match request {
                SwapchainRequest::CreateSwapchain(plan) => plan == old(build).plan && final(
                    build).handle == handle,
                SwapchainRequest::QueryImages { .. } => false,
                SwapchainRequest::CreateSemaphore => final(build).present_ready@
                    == old(build).present_ready@.push(handle),
                SwapchainRequest::CreateView { image, format } => {
                    let index = before.views@.len() as int;
                    &&& index < old(build).images@.len()
                    &&& image == old(build).images@[index]
                    &&& format == old(build).plan.format.format
                    &&& after.views@ == before.views@.push(handle)
                },
                SwapchainRequest::CreateRenderPass { format } => format
                    == old(build).plan.format.format && after.render_pass == handle,
                SwapchainRequest::CreatePipeline { render_pass, shaders } => {
                    &&& render_pass == before.render_pass
                    &&& match shaders {
                        Shaders::Composition => after.pipeline == handle,
                        Shaders::Blur => final(build).blur_pipeline == handle
                            && old(build).needs_blur_pipeline,
                        Shaders::Transition => final(build).transition_pipeline == handle
                            && old(build).needs_transition_pipeline,
                        Shaders::Downsample => false,
                    }
                },
                SwapchainRequest::CreateFramebuffer { render_pass, attachment, extent } => {
                    let index = before.framebuffers@.len() as int;
                    &&& index < before.views@.len()
                    &&& render_pass == before.render_pass
                    &&& attachment == before.views@[index]
                    &&& extent == old(build).plan.extent
                    &&& after.framebuffers@ == before.framebuffers@.push(handle)
                },
                SwapchainRequest::Complete => false,
            }
        }),
        final(build).plan == old(build).plan,
        final(build).images == old(build).images,
        final(build).stage is Complete ==> {
            let images = final(build).images@.len();
            &&& final(build).present_ready@.len() == images
            &&& final(build).rendering.views@.len() == images
            &&& final(build).rendering.framebuffers@.len() == images
            &&& old(build).needs_transition_pipeline ==> old(build).stage is TransitionPipeline
            &&& old(build).needs_blur_pipeline && !old(build).needs_transition_pipeline
                ==> old(build).stage is BlurPipeline
        },
        final(build).stage is TransitionPipeline && old(build).stage !is TransitionPipeline
            && old(build).needs_blur_pipeline ==> old(build).stage is BlurPipeline,
{
}

/// A swapchain is asked for as the surface takes it and as the presenter needs it: for
/// its surface, in place of the one in use, shared between the queue families where
/// they differ, in the transform of the surface, and in the size that was asked for
/// where the surface leaves it open.
pub proof fn swapchain_is_planned_for_the_surface(
    presenter: WsiPresenter,
    requested: Extent2D,
    capabilities: SurfaceCapabilities,
    formats: &[SurfaceFormat],
    graphics_family: u32,
    present_family: u32,
    result: Result<SwapchainBuild, SwapchainError>,
)
    requires
        call_ensures(
            WsiPresenter::recreate_swapchain,
            (&presenter, requested, &capabilities, formats, graphics_family, present_family),
            result,
        ),
        has_room(capabilities),
    ensures
        result is Err <==> formats@.len() == 0,
        result matches Ok(build) ==> {
            let plan = build.plan;
            let low = capabilities.min_image_extent;
            let high = capabilities.max_image_extent;
            &&& plan.surface == presenter.shared.surface
            &&& plan.old_swapchain == presenter.swapchain.handle
            &&& plan.transform == capabilities.current_transform
            &&& graphics_family == present_family ==> plan.shared_by is None
            &&& graphics_family != present_family ==> plan.shared_by == Some(
                (graphics_family, present_family),
            )
            &&& plan.image_count >= capabilities.min_image_count || (capabilities.max_image_count
                > 0 && plan.image_count == capabilities.max_image_count)
            &&& capabilities.max_image_count > 0 ==> plan.image_count
                <= capabilities.max_image_count
            &&& capabilities.max_image_count == 0 || capabilities.max_image_count >= 2
                ==> plan.image_count >= 2
            &&& plan.image_count <= 2 || plan.image_count == capabilities.min_image_count
                || plan.image_count == capabilities.max_image_count
            &&& capabilities.current_extent.width != 0xffff_ffff ==> plan.extent
                == capabilities.current_extent
            &&& capabilities.current_extent.width == 0xffff_ffff ==> {
                &&& low.width <= plan.extent.width <= high.width
                &&& low.height <= plan.extent.height <= high.height
                &&& low.width <= requested.width <= high.width ==> plan.extent.width
                    == requested.width
                &&& low.height <= requested.height <= high.height ==> plan.extent.height
                    == requested.height
                &&& requested.width < low.width ==> plan.extent.width == low.width
                &&& requested.width > high.width ==> plan.extent.width == high.width
                &&& requested.height < low.height ==> plan.extent.height == low.height
                &&& requested.height > high.height ==> plan.extent.height == high.height
            }
            &&& build.needs_blur_pipeline == (presenter.blur_resources is Some)
            &&& build.needs_transition_pipeline == (presenter.transition_resources is Some)
        },
{
}

/// The format of the surface is one that it takes: the first of the two plain ones in
/// the standard color space where it takes one, else its first; a surface that takes any
/// gets a plain one.
pub proof fn surface_format_is_one_that_fits(
    formats: &[SurfaceFormat],
    chosen: SurfaceFormat,
    index: int,
)
    requires
        call_ensures(choose_surface_format, (formats,), chosen),
        0 <= index < formats@.len(),
    ensures
        ({
            let plain = |format: SurfaceFormat|
                (format.format == FORMAT_B8G8R8A8_UNORM || format.format == FORMAT_R8G8B8A8_UNORM)
                    && format.color_space == 0;
            let any = formats@.len() == 1 && formats@[0].format == FORMAT_UNDEFINED;
            &&& any ==> chosen.format == FORMAT_B8G8R8A8_UNORM && chosen.color_space
                == formats@[0].color_space
            &&& !any ==> formats@.contains(chosen)
            &&& !any && plain(formats@[index]) ==> plain(chosen)
            &&& !any && !plain(chosen) ==> chosen == formats@[0]
            &&& !any && plain(formats@[index]) && (forall|earlier: int|
                0 <= earlier < index ==> !plain(#[trigger] formats@[earlier])) ==> chosen
                == formats@[index]
        }),
{
    let any = formats@.len() == 1 && formats@[0].format == FORMAT_UNDEFINED;
    if !any {
        if exists|at: int| 0 <= at < formats@.len() && preferred(#[trigger] formats@[at]) {
            let first = first_preferred(formats@);
            first_fitting_stays_first(formats@, first);
            assert(formats@.contains(formats@[first]));
        } else {
            nothing_fits_so_far(formats@);
            assert(formats@.contains(formats@[0]));
        }
        if preferred(formats@[index]) && (forall|earlier: int|
            0 <= earlier < index ==> !preferred(#[trigger] formats@[earlier])) {
            first_fitting_stays_first(formats@, index);
        }
    }
}

proof fn first_preferred(formats: Seq<SurfaceFormat>) -> (first: int)
    requires
        exists|at: int| 0 <= at < formats.len() && preferred(#[trigger] formats[at]),
    ensures
        0 <= first < formats.len(),
        preferred(formats[first]),
        forall|at: int| 0 <= at < first ==> !preferred(#[trigger] formats[at]),
    decreases formats.len(),
{
    let shorter = formats.drop_last();
    if exists|at: int| 0 <= at < shorter.len() && preferred(#[trigger] shorter[at]) {
        let first = first_preferred(shorter);
        assert forall|at: int| 0 <= at < first implies !preferred(#[trigger] formats[at]) by {
            assert(shorter[at] == formats[at]);
        }
        assert(formats[first] == shorter[first]);
        first
    } else {
        let first = formats.len() - 1;
        assert forall|at: int| 0 <= at < first implies !preferred(#[trigger] formats[at]) by {
            assert(shorter[at] == formats[at]);
        }
        first
    }
}

/// The surface is opaque where it can be; else it is treated in a way that it supports.
pub proof fn surface_is_opaque_where_it_can_be(supported: u32, mode: u32)
    requires
        call_ensures(choose_composite_alpha, (supported,), mode),
    ensures
        mode == 1 || mode == 2 || mode == 4 || mode == 8,
        supported & 1 == 1 ==> mode == 1,
        supported & 1 != 1 && supported & 2 == 2 ==> mode == 2,
        supported & 1 != 1 && supported & 2 != 2 && supported & 4 == 4 ==> mode == 4,
        supported & 1 != 1 && supported & 2 != 2 && supported & 4 != 4 && supported & 8 == 8
            ==> mode == 8,
        mode != 1 ==> supported & mode == mode,
{
}

/// A finished swapchain is in use at once, with its images, semaphores and framebuffers.
/// The one that it replaces is kept with its semaphores until the presenter goes, what
/// drew to it is handed out, and a black frame has to be drawn again. What waits to be
/// shown waits on.
pub proof fn finished_swapchain_is_in_use(
    presenter: &mut WsiPresenter,
    build: SwapchainBuild,
    has_scene_format: bool,
    steps: Vec<Teardown>,
)
    requires
        call_ensures(
            WsiPresenter::commit_swapchain,
            (presenter, build, has_scene_format),
            steps,
        ),
    ensures
        ({
            let before = *old(presenter);
            let after = *final(presenter);
            &&& after.swapchain.handle == build.handle
            &&& after.swapchain.extent == build.plan.extent
            &&& after.swapchain.format == build.plan.format.format
            &&& after.swapchain.images@ == build.images@
            &&& after.swapchain.present_ready@ == build.present_ready@
            &&& after.swapchain.rendering.framebuffers@ == build.rendering.framebuffers@
            &&& after.swapchain.rendering.views@ == build.rendering.views@
            &&& after.swapchain.rendering.render_pass == build.rendering.render_pass
            &&& after.swapchain.rendering.pipeline == build.rendering.pipeline
            &&& before.swapchain.handle == 0 ==> after.retired_swapchains@
                == before.retired_swapchains@
            &&& before.swapchain.handle != 0 ==> {
                &&& after.retired_swapchains@.len() == before.retired_swapchains@.len() + 1
                &&& after.retired_swapchains@.last().handle == before.swapchain.handle
                &&& after.retired_swapchains@.last().present_ready == before.swapchain.present_ready
                &&& after.retired_swapchains@.drop_last() =~= before.retired_swapchains@
            }
            &&& before.blur_resources is Some ==> after.blur_resources is Some
                && after.blur_resources->0.blur_pipeline == build.blur_pipeline
                && after.blur_resources->0.base_valid == before.blur_resources->0.base_valid
                && after.blur_resources->0.extent == before.blur_resources->0.extent
            &&& before.transition_resources is Some ==> after.transition_resources is Some
                && after.transition_resources->0.output_pipeline == build.transition_pipeline
                && after.transition_resources->0.front == before.transition_resources->0.front
            &&& before.blank_state is Committed ==> after.blank_state is Pending
            &&& before.blank_state !is Committed ==> after.blank_state == before.blank_state
            &&& after.pause_blur_available == (before.pause_blur_available && has_scene_format)
            &&& after.pending_direct_frame == before.pending_direct_frame
            &&& after.content_presentation == before.content_presentation
            &&& after.frames == before.frames
            &&& after.recreate_extent == before.recreate_extent
            &&& before.blur_resources matches Some(scene) ==> steps@.contains(
                Teardown { kind: HandleKind::Pipeline, handle: scene.blur_pipeline },
            )
            &&& before.transition_resources matches Some(targets) ==> steps@.contains(
                Teardown { kind: HandleKind::Pipeline, handle: targets.output_pipeline },
            )
            &&& forall|index: int|
                0 <= index < before.swapchain.rendering.framebuffers@.len() ==> steps@.contains(
                    Teardown {
                        kind: HandleKind::Framebuffer,
                        handle: #[trigger] before.swapchain.rendering.framebuffers@[index],
                    },
                )
            &&& forall|index: int|
                0 <= index < before.swapchain.rendering.views@.len() ==> steps@.contains(
                    Teardown {
                        kind: HandleKind::ImageView,
                        handle: #[trigger] before.swapchain.rendering.views@[index],
                    },
                )
        }),
{
    broadcast use vstd::seq_lib::lemma_seq_concat_contains_all_elements;

    let before = *old(presenter);
    let rendering = before.swapchain.rendering;
    if let Some(scene) = before.blur_resources {
        let step = Teardown { kind: HandleKind::Pipeline, handle: scene.blur_pipeline };
        assert(seq![step][0] == step);
        assert(seq![step].contains(step));
    }
    if let Some(targets) = before.transition_resources {
        let step = Teardown { kind: HandleKind::Pipeline, handle: targets.output_pipeline };
        assert(seq![step][0] == step);
        assert(seq![step].contains(step));
    }
    assert forall|index: int| 0 <= index < rendering.framebuffers@.len() implies steps@.contains(
        Teardown {
            kind: HandleKind::Framebuffer,
            handle: #[trigger] rendering.framebuffers@[index],
        },
    ) by {
        let all = each(HandleKind::Framebuffer, rendering.framebuffers@);
        assert(all[index] == (Teardown {
            kind: HandleKind::Framebuffer,
            handle: rendering.framebuffers@[index],
        }));
        assert(all.contains(all[index]));
    }
    assert forall|index: int| 0 <= index < rendering.views@.len() implies steps@.contains(
        Teardown { kind: HandleKind::ImageView, handle: #[trigger] rendering.views@[index] },
    ) by {
        let all = each(HandleKind::ImageView, rendering.views@);
        assert(all[index] == (Teardown {
            kind: HandleKind::ImageView,
            handle: rendering.views@[index],
        }));
        assert(all.contains(all[index]));
    }
}

/// Only a surface with an area gets a swapchain, and the images of a new swapchain are
/// those that it tells; each of them gets a semaphore first.
pub proof fn only_a_surface_with_an_area_gets_a_swapchain(
    requested: Extent2D,
    wanted: bool,
    build: &mut SwapchainBuild,
    images: Vec<u64>,
)
    requires
        call_ensures(wants_swapchain, (requested,), wanted),
        call_ensures(SwapchainBuild::record_images, (build, images), ()),
    ensures
        wanted <==> requested.width >= 1 && requested.height >= 1,
        final(build).images@ == images@,
        images@.len() > 0 ==> final(build).stage is Semaphores,
        final(build).handle == old(build).handle,
        final(build).plan == old(build).plan,
{
}

} // verus!
