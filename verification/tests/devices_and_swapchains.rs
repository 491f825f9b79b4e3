use ash::vk;
use waywallen_layer_shell::construction::{Shaders};
use waywallen_layer_shell::device::{
    assess_device, choose_queue_families, device_candidate_sort_key, drm_matches,
    graphics_families, has_extensions, instance_options, probe_presentation, queue_families,
    runtime_teardown, select_physical_device, DeviceCandidate, DrmNode, ProbeStep, QueueFamily,
    RuntimeBuild, RuntimeRequest, RuntimeStage, SelectedDevice, QUEUE_GRAPHICS,
};
use waywallen_layer_shell::geometry::Extent2D;
use waywallen_layer_shell::presenter::{WsiPresenter, FRAMES_IN_FLIGHT};
use waywallen_layer_shell::resources::{
    choose_scene_format, find_memory_type, HandleKind, RenderingStage, SceneFormatStep, Teardown,
    FEATURE_COLOR_ATTACHMENT, FEATURE_SAMPLED_IMAGE, FEATURE_SAMPLED_IMAGE_FILTER_LINEAR,
    FORMAT_B8G8R8A8_UNORM, FORMAT_R8G8B8A8_UNORM, FORMAT_UNDEFINED, SCENE_FORMAT_FEATURES,
};
use waywallen_layer_shell::swapchain::{
    choose_composite_alpha, choose_extent, choose_image_count, choose_surface_format,
    wants_swapchain, SurfaceCapabilities, SurfaceFormat, SwapchainRequest, SwapchainStage,
    COLOR_SPACE_SRGB_NONLINEAR, COMPOSITE_ALPHA_INHERIT, COMPOSITE_ALPHA_OPAQUE,
    COMPOSITE_ALPHA_POST_MULTIPLIED, COMPOSITE_ALPHA_PRE_MULTIPLIED,
};

fn extent(width: u32, height: u32) -> Extent2D {
    Extent2D { width, height }
}

fn capabilities() -> SurfaceCapabilities {
    SurfaceCapabilities {
        min_image_count: 1,
        max_image_count: 2,
        current_extent: extent(u32::MAX, u32::MAX),
        min_image_extent: extent(320, 200),
        max_image_extent: extent(3840, 2160),
        current_transform: 1,
        supported_composite_alpha: COMPOSITE_ALPHA_INHERIT | COMPOSITE_ALPHA_PRE_MULTIPLIED,
    }
}

fn handle(kind: HandleKind, handle: u64) -> Teardown {
    Teardown { kind, handle }
}

#[test]
fn swapchain_choices_obey_surface_limits() {
    let capabilities = SurfaceCapabilities {
        min_image_count: 1,
        max_image_count: 2,
        current_extent: extent(u32::MAX, u32::MAX),
        min_image_extent: extent(320, 200),
        max_image_extent: extent(3840, 2160),
        current_transform: 0,
        supported_composite_alpha: 0,
    };
    assert_eq!(choose_image_count(&capabilities), 2);
    assert_eq!(
        choose_extent(&capabilities, extent(8_000, 100)),
        extent(3840, 200)
    );
}

#[test]
fn surface_format_handles_undefined_offer() {
    let selected = choose_surface_format(&[SurfaceFormat {
        format: vk::Format::UNDEFINED.as_raw(),
        color_space: vk::ColorSpaceKHR::SRGB_NONLINEAR.as_raw(),
    }]);
    assert_eq!(selected.format, vk::Format::B8G8R8A8_UNORM.as_raw());
    assert_eq!(
        selected.color_space,
        vk::ColorSpaceKHR::SRGB_NONLINEAR.as_raw()
    );
}

#[test]
fn drm_match_precedes_queue_shape_for_device_ranking() {
    assert!(device_candidate_sort_key(true, false) < device_candidate_sort_key(false, true));
    assert!(device_candidate_sort_key(true, true) < device_candidate_sort_key(true, false));
}

#[test]
fn unified_graphics_present_queue_is_preferred() {
    assert_eq!(choose_queue_families(&[1, 3], &[2, 3]), Some((3, 3)));
    assert_eq!(choose_queue_families(&[1], &[2]), Some((1, 2)));
    assert_eq!(choose_queue_families(&[], &[2]), None);
}

#[test]
fn queue_families_need_a_presenting_one() {
    assert_eq!(choose_queue_families(&[1], &[]), None);
    assert_eq!(queue_families(4, 4), vec![4]);
    assert_eq!(queue_families(4, 5), vec![4, 5]);
}

#[test]
fn numbers_are_those_of_the_graphics_stack() {
    assert_eq!(FORMAT_UNDEFINED, vk::Format::UNDEFINED.as_raw());
    assert_eq!(FORMAT_R8G8B8A8_UNORM, vk::Format::R8G8B8A8_UNORM.as_raw());
    assert_eq!(FORMAT_B8G8R8A8_UNORM, vk::Format::B8G8R8A8_UNORM.as_raw());
    assert_eq!(
        COLOR_SPACE_SRGB_NONLINEAR,
        vk::ColorSpaceKHR::SRGB_NONLINEAR.as_raw()
    );
    assert_eq!(
        COMPOSITE_ALPHA_OPAQUE,
        vk::CompositeAlphaFlagsKHR::OPAQUE.as_raw()
    );
    assert_eq!(
        COMPOSITE_ALPHA_PRE_MULTIPLIED,
        vk::CompositeAlphaFlagsKHR::PRE_MULTIPLIED.as_raw()
    );
    assert_eq!(
        COMPOSITE_ALPHA_POST_MULTIPLIED,
        vk::CompositeAlphaFlagsKHR::POST_MULTIPLIED.as_raw()
    );
    assert_eq!(
        COMPOSITE_ALPHA_INHERIT,
        vk::CompositeAlphaFlagsKHR::INHERIT.as_raw()
    );
    assert_eq!(QUEUE_GRAPHICS, vk::QueueFlags::GRAPHICS.as_raw());
    assert_eq!(
        FEATURE_COLOR_ATTACHMENT,
        vk::FormatFeatureFlags::COLOR_ATTACHMENT.as_raw()
    );
    assert_eq!(
        FEATURE_SAMPLED_IMAGE,
        vk::FormatFeatureFlags::SAMPLED_IMAGE.as_raw()
    );
    assert_eq!(
        FEATURE_SAMPLED_IMAGE_FILTER_LINEAR,
        vk::FormatFeatureFlags::SAMPLED_IMAGE_FILTER_LINEAR.as_raw()
    );
    assert_eq!(
        SCENE_FORMAT_FEATURES,
        FEATURE_COLOR_ATTACHMENT | FEATURE_SAMPLED_IMAGE | FEATURE_SAMPLED_IMAGE_FILTER_LINEAR
    );
}

#[test]
fn first_preferred_surface_format_wins() {
    let odd = SurfaceFormat {
        format: vk::Format::R5G6B5_UNORM_PACK16.as_raw(),
        color_space: 0,
    };
    let wrong_space = SurfaceFormat {
        format: FORMAT_R8G8B8A8_UNORM,
        color_space: 1,
    };
    let rgba = SurfaceFormat {
        format: FORMAT_R8G8B8A8_UNORM,
        color_space: 0,
    };
    let bgra = SurfaceFormat {
        format: FORMAT_B8G8R8A8_UNORM,
        color_space: 0,
    };
    assert_eq!(choose_surface_format(&[odd, wrong_space, rgba, bgra]), rgba);
    assert_eq!(choose_surface_format(&[odd, wrong_space]), odd);
}

#[test]
fn image_count_and_size_follow_the_surface() {
    let mut surface = capabilities();
    surface.min_image_count = 4;
    surface.max_image_count = 0;
    assert_eq!(choose_image_count(&surface), 4);
    surface.min_image_count = 1;
    assert_eq!(choose_image_count(&surface), FRAMES_IN_FLIGHT as u32);
    surface.max_image_count = 1;
    assert_eq!(choose_image_count(&surface), 1);
    surface.current_extent = extent(640, 480);
    assert_eq!(choose_extent(&surface, extent(1, 1)), extent(640, 480));
    assert!(wants_swapchain(extent(1, 1)));
    assert!(!wants_swapchain(extent(0, 1)));
    assert!(!wants_swapchain(extent(1, 0)));
}

#[test]
fn composite_alpha_prefers_opaque() {
    assert_eq!(choose_composite_alpha(0xf), COMPOSITE_ALPHA_OPAQUE);
    assert_eq!(choose_composite_alpha(0xe), COMPOSITE_ALPHA_PRE_MULTIPLIED);
    assert_eq!(choose_composite_alpha(0xc), COMPOSITE_ALPHA_POST_MULTIPLIED);
    assert_eq!(choose_composite_alpha(0x8), COMPOSITE_ALPHA_INHERIT);
    assert_eq!(choose_composite_alpha(0), COMPOSITE_ALPHA_OPAQUE);
}

#[test]
fn scene_format_is_probed_in_order() {
    let swapchain = vk::Format::R5G6B5_UNORM_PACK16.as_raw();
    assert_eq!(
        choose_scene_format(swapchain, &[]),
        SceneFormatStep::Probe(swapchain)
    );
    assert_eq!(
        choose_scene_format(swapchain, &[SCENE_FORMAT_FEATURES | 2]),
        SceneFormatStep::Found(swapchain)
    );
    assert_eq!(
        choose_scene_format(swapchain, &[FEATURE_SAMPLED_IMAGE]),
        SceneFormatStep::Probe(FORMAT_R8G8B8A8_UNORM)
    );
    assert_eq!(
        choose_scene_format(swapchain, &[0, 0, SCENE_FORMAT_FEATURES]),
        SceneFormatStep::Found(FORMAT_B8G8R8A8_UNORM)
    );
    assert_eq!(
        choose_scene_format(swapchain, &[0, 0, 0]),
        SceneFormatStep::Missing
    );
}

#[test]
fn memory_type_must_be_allowed_and_have_the_properties() {
    assert_eq!(find_memory_type(0b110, &[1, 2, 3], 1), Some(2));
    assert_eq!(find_memory_type(0b010, &[1, 2, 3], 1), None);
    assert_eq!(find_memory_type(0b111, &[1, 2, 3], 1), Some(0));
}

#[test]
fn device_must_have_every_extension() {
    let available = vec![b"VK_KHR_swapchain".to_vec(), b"VK_EXT_one".to_vec()];
    assert!(has_extensions(&available, &vec![b"VK_EXT_one".to_vec()]));
    assert!(has_extensions(&available, &Vec::new()));
    assert!(!has_extensions(
        &available,
        &vec![b"VK_EXT_one".to_vec(), b"VK_EXT_two".to_vec()]
    ));
    assert!(!has_extensions(&available, &vec![b"VK_EXT_on".to_vec()]));
}

#[test]
fn presentation_is_probed_until_a_refusal() {
    let families = [
        QueueFamily {
            queue_count: 0,
            flags: QUEUE_GRAPHICS,
        },
        QueueFamily {
            queue_count: 1,
            flags: 2,
        },
        QueueFamily {
            queue_count: 1,
            flags: QUEUE_GRAPHICS | 2,
        },
    ];
    assert_eq!(graphics_families(&families), vec![2]);
    assert_eq!(
        probe_presentation(families[0], None, &[], 2),
        ProbeStep::Unsupported
    );
    assert_eq!(
        probe_presentation(families[1], None, &[], 2),
        ProbeStep::AskCompositor
    );
    assert_eq!(
        probe_presentation(families[1], Some(false), &[], 2),
        ProbeStep::Unsupported
    );
    assert_eq!(
        probe_presentation(families[1], Some(true), &[true], 2),
        ProbeStep::AskSurface { index: 1 }
    );
    assert_eq!(
        probe_presentation(families[1], Some(true), &[false], 2),
        ProbeStep::Unsupported
    );
    assert_eq!(
        probe_presentation(families[1], Some(true), &[true, true], 2),
        ProbeStep::Supported
    );
}

#[test]
fn compositor_device_is_chosen_and_ties_go_to_the_first() {
    let node = DrmNode {
        has_render: true,
        render_major: 226,
        render_minor: 128,
    };
    assert!(drm_matches((226, 128), &node));
    assert!(!drm_matches((226, 129), &node));
    assert!(!drm_matches(
        (0, 0),
        &DrmNode {
            has_render: true,
            render_major: 0,
            render_minor: 0
        }
    ));
    assert!(!drm_matches(
        (226, 128),
        &DrmNode {
            has_render: false,
            ..node
        }
    ));
    let other = assess_device(&[0], &[0], (226, 1), &node);
    let used = assess_device(&[0], &[1], (226, 128), &node);
    assert_eq!(
        used,
        Some(DeviceCandidate {
            drm_match: true,
            graphics_queue_family: 0,
            present_queue_family: 1
        })
    );
    assert_eq!(assess_device(&[], &[1], (226, 128), &node), None);
    assert_eq!(
        select_physical_device(&[None, other, used, used]),
        Some(SelectedDevice {
            index: 2,
            graphics_queue_family: 0,
            present_queue_family: 1
        })
    );
    assert_eq!(select_physical_device(&[None, None]), None);
}

#[test]
fn debug_messages_need_layer_and_extension_in_a_debug_build() {
    let options = instance_options(true, true, true);
    assert!(options.validation_layer && options.debug_messenger);
    let options = instance_options(true, true, false);
    assert!(options.validation_layer && !options.debug_messenger);
    let options = instance_options(true, false, true);
    assert!(!options.validation_layer && !options.debug_messenger);
    let options = instance_options(false, true, true);
    assert!(!options.validation_layer && !options.debug_messenger);
}

#[test]
fn runtime_is_built_in_order_and_rolled_back() {
    assert!(RuntimeBuild::begin(Vec::new()).is_err());
    let mut build = RuntimeBuild::begin(vec![7, 8]).unwrap();
    assert!(matches!(build.request(), RuntimeRequest::CreateInstance));
    assert_eq!(build.rollback(), Vec::new());
    build.created(100);
    assert!(matches!(
        build.request(),
        RuntimeRequest::CreateSurface { output: 7 }
    ));
    build.created(201);
    assert!(matches!(
        build.request(),
        RuntimeRequest::CreateSurface { output: 8 }
    ));
    build.created(202);
    assert!(matches!(build.request(), RuntimeRequest::SelectDevice));
    assert_eq!(
        build.rollback(),
        vec![
            handle(HandleKind::Surface, 201),
            handle(HandleKind::Surface, 202),
            handle(HandleKind::Instance, 100)
        ]
    );
    build.device_selected(SelectedDevice {
        index: 1,
        graphics_queue_family: 3,
        present_queue_family: 4,
    });
    match build.request() {
        RuntimeRequest::CreateDevice { index, families } => {
            assert_eq!(index, 1);
            assert_eq!(families, vec![3, 4]);
        }
        other => panic!("{other:?}"),
    }
    build.created(300);
    assert_eq!(build.stage, RuntimeStage::Complete);
    assert_eq!(
        runtime_teardown(300, Some(5), 100),
        vec![
            handle(HandleKind::Device, 300),
            handle(HandleKind::DebugMessenger, 5),
            handle(HandleKind::Instance, 100)
        ]
    );
    assert_eq!(runtime_teardown(300, None, 100).len(), 2);
}

#[test]
fn swapchain_is_built_in_order_and_committed() {
    let mut presenter = WsiPresenter::new(9);
    presenter.add_frame(1);
    presenter.add_frame(2);
    assert!(presenter
        .recreate_swapchain(extent(800, 600), &capabilities(), &[], 0, 0)
        .is_err());
    let formats = [SurfaceFormat {
        format: FORMAT_B8G8R8A8_UNORM,
        color_space: 0,
    }];
    let mut build = presenter
        .recreate_swapchain(extent(800, 600), &capabilities(), &formats, 3, 4)
        .unwrap();
    match build.request() {
        SwapchainRequest::CreateSwapchain(plan) => {
            assert_eq!(plan.surface, 9);
            assert_eq!(plan.image_count, 2);
            assert_eq!(plan.format, formats[0]);
            assert_eq!(plan.extent, extent(800, 600));
            assert_eq!(plan.transform, 1);
            assert_eq!(plan.composite_alpha, COMPOSITE_ALPHA_PRE_MULTIPLIED);
            assert_eq!(plan.shared_by, Some((3, 4)));
            assert_eq!(plan.old_swapchain, 0);
        }
        other => panic!("{other:?}"),
    }
    assert_eq!(build.rollback(), Vec::new());
    build.advance(10);
    assert!(matches!(
        build.request(),
        SwapchainRequest::QueryImages { swapchain: 10 }
    ));
    build.record_images(vec![21, 22]);
    build.advance(31);
    assert!(matches!(
        build.request(),
        SwapchainRequest::CreateSemaphore
    ));
    build.advance(32);
    assert!(matches!(
        build.request(),
        SwapchainRequest::CreateView {
            image: 21,
            format: FORMAT_B8G8R8A8_UNORM
        }
    ));
    build.advance(41);
    assert_eq!(
        build.rollback(),
        vec![
            handle(HandleKind::ImageView, 41),
            handle(HandleKind::Semaphore, 31),
            handle(HandleKind::Semaphore, 32),
            handle(HandleKind::Swapchain, 10)
        ]
    );
    build.advance(42);
    assert!(matches!(
        build.request(),
        SwapchainRequest::CreateRenderPass { .. }
    ));
    assert_eq!(
        build.rollback(),
        vec![
            handle(HandleKind::Semaphore, 31),
            handle(HandleKind::Semaphore, 32),
            handle(HandleKind::Swapchain, 10)
        ]
    );
    build.advance(50);
    assert!(matches!(
        build.request(),
        SwapchainRequest::CreatePipeline {
            render_pass: 50,
            shaders: Shaders::Composition
        }
    ));
    build.advance(51);
    assert_eq!(
        build.stage,
        SwapchainStage::Rendering(RenderingStage::Framebuffer)
    );
    build.advance(61);
    assert_eq!(
        build.rollback(),
        vec![
            handle(HandleKind::Framebuffer, 61),
            handle(HandleKind::Pipeline, 51),
            handle(HandleKind::RenderPass, 50),
            handle(HandleKind::ImageView, 41),
            handle(HandleKind::ImageView, 42),
            handle(HandleKind::Semaphore, 31),
            handle(HandleKind::Semaphore, 32),
            handle(HandleKind::Swapchain, 10)
        ]
    );
    build.advance(62);
    assert_eq!(build.stage, SwapchainStage::Complete);
    assert_eq!(presenter.commit_swapchain(build, false), Vec::new());
    assert_eq!(presenter.swapchain.handle, 10);
    assert_eq!(presenter.swapchain.extent, extent(800, 600));
    assert!(!presenter.supports_pause_blur());
    assert!(presenter.retired_swapchains.is_empty());

    let mut second = presenter
        .recreate_swapchain(extent(800, 601), &capabilities(), &formats, 3, 3)
        .unwrap();
    assert_eq!(second.plan.shared_by, None);
    assert_eq!(second.plan.old_swapchain, 10);
    second.advance(11);
    second.record_images(Vec::new());
    second.advance(52);
    second.advance(53);
    assert_eq!(second.stage, SwapchainStage::Complete);
    let steps = presenter.commit_swapchain(second, true);
    assert_eq!(steps.len(), 6);
    assert_eq!(steps[0], handle(HandleKind::Framebuffer, 61));
    assert_eq!(presenter.retired_swapchains.len(), 1);
    assert_eq!(presenter.retired_swapchains[0].handle, 10);
    assert_eq!(presenter.retired_swapchains[0].present_ready, vec![31, 32]);
}
