use ash::vk;
use oxidation::engine::{Engine, SwapchainHandle};
use oxidation::error::InvalidHandleError;
use oxidation::swapchain::{
    Extent2D, SurfaceFormat, Swapchain, SwapchainCreateInfo, SwapchainError,
};

fn create_info(width: u32, height: u32) -> SwapchainCreateInfo {
    SwapchainCreateInfo {
        image_extent: Extent2D { width, height },
        image_format: vk::Format::B8G8R8A8_UNORM.as_raw(),
        image_color_space: vk::ColorSpaceKHR::SRGB_NONLINEAR.as_raw(),
        min_image_count: 3,
        present_mode: vk::PresentModeKHR::FIFO.as_raw(),
        pre_transform: vk::SurfaceTransformFlagsKHR::IDENTITY.as_raw(),
        image_array_layers: 1,
        image_usage: vk::ImageUsageFlags::COLOR_ATTACHMENT.as_raw(),
        composite_alpha: vk::CompositeAlphaFlagsKHR::OPAQUE.as_raw(),
        image_sharing_mode: vk::SharingMode::EXCLUSIVE.as_raw(),
    }
}

fn swapchain(instance: u64, width: u32, height: u32) -> Swapchain {
    Swapchain {
        instance,
        extents: Extent2D { width, height },
        surface_format: SurfaceFormat {
            format: vk::Format::B8G8R8A8_UNORM.as_raw(),
            color_space: vk::ColorSpaceKHR::SRGB_NONLINEAR.as_raw(),
        },
    }
}

#[test]
fn new_engine_has_no_current_swapchain() {
    let engine = Engine::new();
    assert_eq!(engine.swapchain_count(), 0);
    assert_eq!(engine.current_swapchain(), Err(InvalidHandleError { id: usize::MAX }));
}

#[test]
fn swapchain_handles_count_up() {
    let mut engine = Engine::new();
    let first = engine.create_swapchain(&create_info(1980, 1080), Ok(5)).unwrap();
    let second = engine.create_swapchain(&create_info(640, 480), Ok(6)).unwrap();
    assert_eq!(first.get_id(), 0);
    assert_eq!(second.get_id(), 1);
    assert!(first.is_valid());
    assert!(second.is_valid());
    assert_eq!(engine.swapchain_count(), 2);
    assert_eq!(engine.get_swapchain(first), Ok(&swapchain(5, 1980, 1080)));
    assert_eq!(engine.get_swapchain(second), Ok(&swapchain(6, 640, 480)));
}

#[test]
fn rejected_swapchain_is_not_taken_up() {
    let mut engine = Engine::new();
    let code = vk::Result::ERROR_NATIVE_WINDOW_IN_USE_KHR.as_raw();
    match engine.create_swapchain(&create_info(1, 1), Err(code)) {
        Err(e) => assert_eq!(e, SwapchainError::SwapchainCreation(code)),
        Ok(_) => panic!("a rejected swapchain was taken up"),
    }
    assert_eq!(engine.swapchain_count(), 0);
}

#[test]
fn current_swapchain_is_the_one_that_was_set() {
    let mut engine = Engine::new();
    let first = engine.create_swapchain(&create_info(1, 1), Ok(5)).unwrap();
    let second = engine.create_swapchain(&create_info(2, 2), Ok(6)).unwrap();
    engine.set_current_swapchain(second);
    assert_eq!(engine.current_swapchain(), Ok(&swapchain(6, 2, 2)));
    engine.set_current_swapchain(first);
    assert_eq!(engine.current_swapchain(), Ok(&swapchain(5, 1, 1)));
}

#[test]
fn handles_that_refer_to_nothing_are_refused() {
    let mut engine = Engine::new();
    let handle = engine.create_swapchain(&create_info(1, 1), Ok(5)).unwrap();

    let beyond = SwapchainHandle::new(1);
    assert_eq!(engine.get_swapchain(beyond), Err(InvalidHandleError { id: 1 }));

    let mut invalidated = handle;
    invalidated.invalidate();
    assert_eq!(engine.get_swapchain(invalidated), Err(InvalidHandleError { id: usize::MAX }));
    assert_eq!(engine.get_swapchain(SwapchainHandle::default()), Err(InvalidHandleError { id: usize::MAX }));

    engine.set_current_swapchain(beyond);
    assert_eq!(engine.current_swapchain(), Err(InvalidHandleError { id: 1 }));
    assert_eq!(engine.get_swapchain(handle), Ok(&swapchain(5, 1, 1)));
}
