use sim_engine::render_system::offscreen_rendering::{staging_buffer_len, BYTES_PER_PIXEL};
use sim_engine::render_system::rendering3d::{
    get_device, AcquireOutcome, FlushOutcome, FrameStart, FrameStep, PhysicalDevice,
    PhysicalDeviceType, QueueFamily, Renderer,
};

fn family(graphics: bool, presents: bool) -> QueueFamily {
    QueueFamily { graphics, presents }
}

fn device(supports_extensions: bool, device_type: PhysicalDeviceType, queue_families: Vec<QueueFamily>) -> PhysicalDevice {
    PhysicalDevice { supports_extensions, device_type, queue_families }
}

#[test]
fn device_scores() {
    assert_eq!(PhysicalDeviceType::DiscreteGpu.score(), 0);
    assert_eq!(PhysicalDeviceType::IntegratedGpu.score(), 1);
    assert_eq!(PhysicalDeviceType::VirtualGpu.score(), 2);
    assert_eq!(PhysicalDeviceType::Cpu.score(), 3);
    assert_eq!(PhysicalDeviceType::Other.score(), 4);
    assert_eq!(PhysicalDeviceType::Unknown.score(), 5);
}

#[test]
fn first_family_that_draws_and_presents() {
    let d = device(
        true,
        PhysicalDeviceType::Cpu,
        vec![family(true, false), family(false, true), family(true, true), family(true, true)],
    );
    assert_eq!(d.queue_family(), Some(2));
    let d = device(true, PhysicalDeviceType::Cpu, vec![family(true, false), family(false, true)]);
    assert_eq!(d.queue_family(), None);
    let d = device(true, PhysicalDeviceType::Cpu, vec![]);
    assert_eq!(d.queue_family(), None);
}

#[test]
fn no_device_suits() {
    assert_eq!(get_device(&vec![]), None);
    let devices = vec![
        device(false, PhysicalDeviceType::DiscreteGpu, vec![family(true, true)]),
        device(true, PhysicalDeviceType::DiscreteGpu, vec![family(true, false)]),
        device(true, PhysicalDeviceType::IntegratedGpu, vec![]),
    ];
    assert_eq!(get_device(&devices), None);
}

#[test]
fn lowest_score_wins() {
    let devices = vec![
        device(true, PhysicalDeviceType::Cpu, vec![family(true, true)]),
        device(true, PhysicalDeviceType::IntegratedGpu, vec![family(false, false), family(true, true)]),
        device(false, PhysicalDeviceType::DiscreteGpu, vec![family(true, true)]),
        device(true, PhysicalDeviceType::VirtualGpu, vec![family(true, true)]),
    ];
    assert_eq!(get_device(&devices), Some((1, 1)));
}

#[test]
fn first_of_equal_scores_wins() {
    let devices = vec![
        device(true, PhysicalDeviceType::Other, vec![family(true, true)]),
        device(true, PhysicalDeviceType::DiscreteGpu, vec![family(true, false), family(true, true)]),
        device(true, PhysicalDeviceType::DiscreteGpu, vec![family(true, true)]),
    ];
    assert_eq!(get_device(&devices), Some((1, 1)));
}

#[test]
fn only_device_of_unknown_kind() {
    let devices = vec![device(true, PhysicalDeviceType::Unknown, vec![family(true, true)])];
    assert_eq!(get_device(&devices), Some((0, 0)));
}

#[test]
fn window_without_area_gets_no_frame() {
    let mut renderer = Renderer::new();
    assert!(!renderer.wdd_needs_rebuild);
    assert_eq!(renderer.render([0, 600]), FrameStart::Skip);
    assert_eq!(renderer.render([800, 0]), FrameStart::Skip);
    assert_eq!(renderer.render([800, 600]), FrameStart::Acquire);
    renderer.wdd_needs_rebuild = true;
    assert_eq!(renderer.render([0, 0]), FrameStart::Skip);
    assert!(renderer.wdd_needs_rebuild);
    assert_eq!(renderer.render([800, 600]), FrameStart::Rebuild);
    assert!(!renderer.wdd_needs_rebuild);
    assert_eq!(renderer.render([800, 600]), FrameStart::Acquire);
}

#[test]
fn stale_swapchain_costs_a_frame_and_is_rebuilt() {
    let mut renderer = Renderer::new();
    assert_eq!(renderer.acquired(AcquireOutcome::OutOfDate), FrameStep::Skip);
    assert!(renderer.wdd_needs_rebuild);
    assert_eq!(renderer.render([640, 480]), FrameStart::Rebuild);
    assert_eq!(renderer.acquired(AcquireOutcome::Ready { suboptimal: false }), FrameStep::Proceed);
    assert!(!renderer.wdd_needs_rebuild);
    assert_eq!(renderer.flushed(FlushOutcome::Flushed), FrameStep::Proceed);
    assert!(!renderer.wdd_needs_rebuild);
    assert_eq!(renderer.flushed(FlushOutcome::OutOfDate), FrameStep::Skip);
    assert!(renderer.wdd_needs_rebuild);
}

#[test]
fn suboptimal_swapchain_is_drawn_on_and_then_rebuilt() {
    let mut renderer = Renderer::new();
    assert_eq!(renderer.acquired(AcquireOutcome::Ready { suboptimal: true }), FrameStep::Proceed);
    assert!(renderer.wdd_needs_rebuild);
    assert_eq!(renderer.flushed(FlushOutcome::Flushed), FrameStep::Proceed);
    assert!(renderer.wdd_needs_rebuild);
    assert_eq!(renderer.render([1, 1]), FrameStart::Rebuild);
}

#[test]
fn other_failures_are_fatal() {
    let mut renderer = Renderer::new();
    assert_eq!(renderer.acquired(AcquireOutcome::Failed), FrameStep::Fatal);
    assert!(!renderer.wdd_needs_rebuild);
    assert_eq!(renderer.flushed(FlushOutcome::Failed), FrameStep::Fatal);
    assert!(!renderer.wdd_needs_rebuild);
}

#[test]
fn read_back_takes_four_bytes_a_pixel() {
    assert_eq!(BYTES_PER_PIXEL, 4);
    assert_eq!(staging_buffer_len([640, 480]), Some(1_228_800));
    assert_eq!(staging_buffer_len([1, 1]), Some(4));
    assert_eq!(staging_buffer_len([0, 480]), Some(0));
    assert_eq!(staging_buffer_len([640, 0]), Some(0));
}

#[test]
fn read_back_of_a_huge_image_has_no_buffer() {
    assert_eq!(staging_buffer_len([32768, 32767]), Some(4_294_836_224));
    assert_eq!(staging_buffer_len([32768, 32768]), None);
    assert_eq!(staging_buffer_len([u32::MAX, u32::MAX]), None);
    assert_eq!(staging_buffer_len([u32::MAX, 1]), None);
    assert_eq!(staging_buffer_len([0x3fff_ffff, 1]), Some(0xffff_fffc));
}
