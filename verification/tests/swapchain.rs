use ash::vk;
use oxidation::swapchain::{
    Extent2D, SurfaceCapabilities, SurfaceFormat, Swapchain, SwapchainCreateInfo, SwapchainError,
};

fn surface_format(format: vk::Format, color_space: vk::ColorSpaceKHR) -> SurfaceFormat {
    SurfaceFormat { format: format.as_raw(), color_space: color_space.as_raw() }
}

fn bgra_srgb() -> SurfaceFormat {
    surface_format(vk::Format::B8G8R8A8_UNORM, vk::ColorSpaceKHR::SRGB_NONLINEAR)
}

fn caps() -> SurfaceCapabilities {
    SurfaceCapabilities {
        min_image_count: 2,
        max_image_count: 8,
        current_extent: Extent2D { width: 800, height: 600 },
        min_image_extent: Extent2D { width: 1, height: 1 },
        max_image_extent: Extent2D { width: 4096, height: 4096 },
        current_transform: vk::SurfaceTransformFlagsKHR::IDENTITY.as_raw(),
        supported_composite_alpha: vk::CompositeAlphaFlagsKHR::OPAQUE.as_raw(),
    }
}

#[test]
fn undefined_placeholder_gives_bgra_srgb() {
    let formats = [surface_format(vk::Format::UNDEFINED, vk::ColorSpaceKHR::SRGB_NONLINEAR)];
    assert_eq!(Swapchain::find_surface_format(&formats), Ok(bgra_srgb()));

    let other_space = [surface_format(vk::Format::UNDEFINED, vk::ColorSpaceKHR::BT709_LINEAR_EXT)];
    assert_eq!(Swapchain::find_surface_format(&other_space), Ok(bgra_srgb()));
}

#[test]
fn exact_match_is_taken_wherever_it_stands() {
    let formats = [
        surface_format(vk::Format::R8G8B8A8_UNORM, vk::ColorSpaceKHR::SRGB_NONLINEAR),
        bgra_srgb(),
    ];
    assert_eq!(Swapchain::find_surface_format(&formats), Ok(formats[1]));
}

#[test]
fn first_format_is_taken_without_a_match() {
    let formats = [
        surface_format(vk::Format::R8G8B8A8_UNORM, vk::ColorSpaceKHR::SRGB_NONLINEAR),
        surface_format(vk::Format::B8G8R8A8_UNORM, vk::ColorSpaceKHR::BT709_LINEAR_EXT),
        surface_format(vk::Format::R8G8B8A8_SRGB, vk::ColorSpaceKHR::SRGB_NONLINEAR),
    ];
    assert_eq!(Swapchain::find_surface_format(&formats), Ok(formats[0]));
}

#[test]
fn undefined_among_other_formats_is_no_placeholder() {
    let formats = [
        surface_format(vk::Format::UNDEFINED, vk::ColorSpaceKHR::SRGB_NONLINEAR),
        surface_format(vk::Format::R8G8B8A8_UNORM, vk::ColorSpaceKHR::SRGB_NONLINEAR),
    ];
    assert_eq!(Swapchain::find_surface_format(&formats), Ok(formats[0]));
}

#[test]
fn no_surface_formats_is_an_error() {
    assert_eq!(Swapchain::find_surface_format(&[]), Err(SwapchainError::NoSurfaceFormats));
}

#[test]
fn fifo_is_taken_without_mailbox() {
    let modes = [vk::PresentModeKHR::FIFO.as_raw(), vk::PresentModeKHR::IMMEDIATE.as_raw()];
    assert_eq!(Swapchain::find_present_mode(&modes), Ok(vk::PresentModeKHR::FIFO.as_raw()));
}

#[test]
fn mailbox_is_taken_before_fifo() {
    let modes = [vk::PresentModeKHR::MAILBOX.as_raw(), vk::PresentModeKHR::FIFO.as_raw()];
    assert_eq!(Swapchain::find_present_mode(&modes), Ok(vk::PresentModeKHR::MAILBOX.as_raw()));

    let reversed = [vk::PresentModeKHR::FIFO.as_raw(), vk::PresentModeKHR::MAILBOX.as_raw()];
    assert_eq!(Swapchain::find_present_mode(&reversed), Ok(vk::PresentModeKHR::MAILBOX.as_raw()));
}

#[test]
fn immediate_is_the_last_resort() {
    let modes = [vk::PresentModeKHR::IMMEDIATE.as_raw()];
    assert_eq!(Swapchain::find_present_mode(&modes), Ok(vk::PresentModeKHR::IMMEDIATE.as_raw()));

    let unknown = [vk::PresentModeKHR::FIFO_RELAXED.as_raw()];
    assert_eq!(Swapchain::find_present_mode(&unknown), Ok(vk::PresentModeKHR::IMMEDIATE.as_raw()));
}

#[test]
fn no_present_modes_is_an_error() {
    assert_eq!(Swapchain::find_present_mode(&[]), Err(SwapchainError::NoPresentModes));
}

#[test]
fn image_count_is_cut_at_the_maximum() {
    assert_eq!(Swapchain::find_image_count(2, 2), Ok(2));
    assert_eq!(Swapchain::find_image_count(2, 3), Ok(3));
    assert_eq!(Swapchain::find_image_count(5, 3), Ok(3));
}

#[test]
fn image_count_without_maximum_is_one_more_than_the_minimum() {
    assert_eq!(Swapchain::find_image_count(2, 0), Ok(3));
    assert_eq!(Swapchain::find_image_count(0, 0), Ok(1));
    assert_eq!(Swapchain::find_image_count(2, 8), Ok(3));
}

#[test]
fn image_count_at_the_limit_of_counting() {
    assert_eq!(Swapchain::find_image_count(u32::MAX, 0), Err(SwapchainError::ImageCountOutOfRange));
    assert_eq!(Swapchain::find_image_count(u32::MAX, u32::MAX), Ok(u32::MAX));
    assert_eq!(Swapchain::find_image_count(u32::MAX - 1, 0), Ok(u32::MAX));
}

#[test]
fn surface_extent_is_taken_as_it_is() {
    let extent = Swapchain::find_extent(&caps(), 1920, 1080);
    assert_eq!(extent, Extent2D { width: 800, height: 600 });
}

#[test]
fn window_size_is_brought_into_the_limits() {
    let mut caps = caps();
    caps.current_extent = Extent2D { width: u32::MAX, height: u32::MAX };
    caps.min_image_extent = Extent2D { width: 100, height: 200 };
    caps.max_image_extent = Extent2D { width: 1000, height: 2000 };
    assert_eq!(Swapchain::find_extent(&caps, 640, 480), Extent2D { width: 640, height: 480 });
    assert_eq!(Swapchain::find_extent(&caps, 10, 20), Extent2D { width: 100, height: 200 });
    assert_eq!(Swapchain::find_extent(&caps, 5000, 5000), Extent2D { width: 1000, height: 2000 });
    assert_eq!(Swapchain::find_extent(&caps, 10, 5000), Extent2D { width: 100, height: 2000 });
}

#[test]
fn only_the_width_marks_a_surface_without_extent() {
    let mut caps = caps();
    caps.current_extent = Extent2D { width: 800, height: u32::MAX };
    assert_eq!(Swapchain::find_extent(&caps, 640, 480), Extent2D { width: 800, height: u32::MAX });
}

#[test]
fn negotiation_puts_the_choices_together() {
    let mut caps = caps();
    caps.current_extent = Extent2D { width: u32::MAX, height: u32::MAX };
    caps.current_transform = vk::SurfaceTransformFlagsKHR::ROTATE_90.as_raw();
    caps.supported_composite_alpha =
        (vk::CompositeAlphaFlagsKHR::OPAQUE | vk::CompositeAlphaFlagsKHR::INHERIT).as_raw();
    let formats = [
        surface_format(vk::Format::R8G8B8A8_UNORM, vk::ColorSpaceKHR::SRGB_NONLINEAR),
        bgra_srgb(),
    ];
    let modes = [vk::PresentModeKHR::FIFO.as_raw(), vk::PresentModeKHR::MAILBOX.as_raw()];
    let info = SwapchainCreateInfo::new(&caps, &formats, &modes, 0, 0, 1920, 1080).unwrap();
    assert_eq!(
        info,
        SwapchainCreateInfo {
            image_extent: Extent2D { width: 1920, height: 1080 },
            image_format: vk::Format::B8G8R8A8_UNORM.as_raw(),
            image_color_space: vk::ColorSpaceKHR::SRGB_NONLINEAR.as_raw(),
            min_image_count: 3,
            present_mode: vk::PresentModeKHR::MAILBOX.as_raw(),
            pre_transform: vk::SurfaceTransformFlagsKHR::ROTATE_90.as_raw(),
            image_array_layers: 1,
            image_usage: vk::ImageUsageFlags::COLOR_ATTACHMENT.as_raw(),
            composite_alpha: vk::CompositeAlphaFlagsKHR::INHERIT.as_raw(),
            image_sharing_mode: vk::SharingMode::EXCLUSIVE.as_raw(),
        }
    );
}

#[test]
fn opaque_is_taken_without_inherit() {
    let mut caps = caps();
    caps.supported_composite_alpha = (vk::CompositeAlphaFlagsKHR::OPAQUE
        | vk::CompositeAlphaFlagsKHR::PRE_MULTIPLIED
        | vk::CompositeAlphaFlagsKHR::POST_MULTIPLIED)
        .as_raw();
    let modes = [vk::PresentModeKHR::FIFO.as_raw()];
    let info = SwapchainCreateInfo::new(&caps, &[bgra_srgb()], &modes, 0, 0, 1, 1).unwrap();
    assert_eq!(info.composite_alpha, vk::CompositeAlphaFlagsKHR::OPAQUE.as_raw());
}

#[test]
fn separate_present_family_shares_the_images() {
    let modes = [vk::PresentModeKHR::FIFO.as_raw()];
    let info = SwapchainCreateInfo::new(&caps(), &[bgra_srgb()], &modes, 0, 1, 1, 1).unwrap();
    assert_eq!(info.image_sharing_mode, vk::SharingMode::CONCURRENT.as_raw());
}

#[test]
fn negotiation_fails_in_the_order_of_its_steps() {
    let modes = [vk::PresentModeKHR::FIFO.as_raw()];
    let mut uncountable = caps();
    uncountable.min_image_count = u32::MAX;
    uncountable.max_image_count = 0;
    assert_eq!(
        SwapchainCreateInfo::new(&uncountable, &[], &[], 0, 0, 1, 1),
        Err(SwapchainError::NoSurfaceFormats)
    );
    assert_eq!(
        SwapchainCreateInfo::new(&uncountable, &[bgra_srgb()], &[], 0, 0, 1, 1),
        Err(SwapchainError::NoPresentModes)
    );
    assert_eq!(
        SwapchainCreateInfo::new(&uncountable, &[bgra_srgb()], &modes, 0, 0, 1, 1),
        Err(SwapchainError::ImageCountOutOfRange)
    );
}

#[test]
fn swapchain_keeps_extent_and_format() {
    let modes = [vk::PresentModeKHR::FIFO.as_raw()];
    let info = SwapchainCreateInfo::new(&caps(), &[bgra_srgb()], &modes, 0, 0, 1, 1).unwrap();
    let swapchain = Swapchain::new(&info, Ok(42)).unwrap();
    assert_eq!(swapchain.instance, 42);
    assert_eq!(swapchain.extents, Extent2D { width: 800, height: 600 });
    assert_eq!(swapchain.surface_format, bgra_srgb());
}

#[test]
fn rejected_swapchain_creation_is_an_error() {
    let modes = [vk::PresentModeKHR::FIFO.as_raw()];
    let info = SwapchainCreateInfo::new(&caps(), &[bgra_srgb()], &modes, 0, 0, 1, 1).unwrap();
    let lost = vk::Result::ERROR_SURFACE_LOST_KHR.as_raw();
    assert_eq!(Swapchain::new(&info, Err(lost)), Err(SwapchainError::SwapchainCreation(lost)));
}
