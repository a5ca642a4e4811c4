//! Negotiating a swapchain with a presentation surface.

use crate::vk::{
    alpha_inherit, alpha_supports_inherit, color_attachment_usage, usage_color_attachment,
    ColorSpace, CompositeAlpha, Format, PresentMode, SharingMode,
};
use vstd::prelude::*;

verus! {

/// A width and a height in pixels.
#[derive(Debug, Copy, Clone, PartialEq, Eq)]
pub struct Extent2D {
    pub width: u32,
    pub height: u32,
}

/// A pixel format together with the color space it is presented in, both by
/// their API codes.
#[derive(Debug, Copy, Clone, PartialEq, Eq)]
pub struct SurfaceFormat {
    pub format: i32,
    pub color_space: i32,
}

/// What a surface reports of itself on a physical device.
#[derive(Debug, Copy, Clone, PartialEq, Eq)]
pub struct SurfaceCapabilities {
    pub min_image_count: u32,
    /// Zero where the surface sets no upper limit.
    pub max_image_count: u32,
    /// A width of `u32::MAX` says that the swapchain decides the extent.
    pub current_extent: Extent2D,
    pub min_image_extent: Extent2D,
    pub max_image_extent: Extent2D,
    pub current_transform: u32,
    pub supported_composite_alpha: u32,
}

/// Why no swapchain came about.
#[derive(Debug, Copy, Clone, PartialEq, Eq)]
pub enum SwapchainError {
    /// The surface reports no format.
    NoSurfaceFormats,
    /// The surface reports no present mode.
    NoPresentModes,
    /// The surface sets no upper limit on the image count, and one more
    /// image than its minimum cannot be counted.
    ImageCountOutOfRange,
    /// The driver rejected the creation of the swapchain, with this result
    /// code.
    SwapchainCreation(i32),
}

/// Everything that is negotiated before the swapchain is created.
#[derive(Debug, Copy, Clone, PartialEq, Eq)]
pub struct SwapchainCreateInfo {
    pub image_extent: Extent2D,
    pub image_format: i32,
    pub image_color_space: i32,
    pub min_image_count: u32,
    pub present_mode: i32,
    pub pre_transform: u32,
    pub image_array_layers: u32,
    pub image_usage: u32,
    pub composite_alpha: u32,
    pub image_sharing_mode: i32,
}

/// A swapchain is the API's object which deals with rendering an image to
/// the surface: a chain of presentable images, with the extent and the
/// surface format that were negotiated for them.
#[derive(Debug, Copy, Clone, PartialEq, Eq)]
pub struct Swapchain {
    pub instance: u64,
    pub extents: Extent2D,
    pub surface_format: SurfaceFormat,
}

/// The format that is asked for where the surface leaves the choice: a
/// normalised 8-bit BGRA format in the nonlinear sRGB color space.
pub open spec fn preferred_surface_format() -> SurfaceFormat {
    SurfaceFormat {
        format: Format::B8g8r8a8Unorm.code(),
        color_space: ColorSpace::SrgbNonlinear.code(),
    }
}

/// The surface format that is negotiated from the formats a surface reports.
///
/// A single entry with the undefined format is a placeholder: the surface
/// takes any format, and the preferred one is chosen. Otherwise the
/// preferred format is chosen where it is reported, and the first reported
/// format where it is not.
pub open spec fn chosen_surface_format(formats: Seq<SurfaceFormat>) -> SurfaceFormat
    recommends
        formats.len() > 0,
{
    if formats.len() == 1 && formats[0].format == Format::Undefined.code() {
        preferred_surface_format()
    } else if formats.contains(preferred_surface_format()) {
        preferred_surface_format()
    } else {
        formats[0]
    }
}

/// The present mode that is negotiated from the modes a surface reports:
/// mailbox before first-in-first-out before immediate.
pub open spec fn chosen_present_mode(modes: Seq<i32>) -> i32
    recommends
        modes.len() > 0,
{
    if modes.contains(PresentMode::Mailbox.code()) {
        PresentMode::Mailbox.code()
    } else if modes.contains(PresentMode::Fifo.code()) {
        PresentMode::Fifo.code()
    } else {
        PresentMode::Immediate.code()
    }
}

/// `requested` brought into the range from `lowest` to `highest`: raised to
/// `lowest` first, then cut at `highest`.
pub open spec fn clamped(requested: u32, lowest: u32, highest: u32) -> u32 {
    let raised = if requested < lowest {
        lowest
    } else {
        requested
    };
    if raised > highest {
        highest
    } else {
        raised
    }
}

/// The extent of the swapchain's images. Where the surface leaves the
/// extent to the swapchain, the window's size is brought into the range the
/// surface allows; otherwise the surface's own extent is taken as it is and
/// the window's size is not looked at.
pub open spec fn chosen_extent(caps: SurfaceCapabilities, win_width: u32, win_height: u32)
    -> Extent2D {
    if caps.current_extent.width == u32::MAX {
        Extent2D {
            width: clamped(win_width, caps.min_image_extent.width, caps.max_image_extent.width),
            height: clamped(
                win_height,
                caps.min_image_extent.height,
                caps.max_image_extent.height,
            ),
        }
    } else {
        caps.current_extent
    }
}

/// The number of images that is asked for: one more than the surface's
/// minimum, cut at the surface's maximum where it sets one.
pub open spec fn chosen_image_count(min_image_count: u32, max_image_count: u32) -> int {
    if max_image_count > 0 && min_image_count + 1 > max_image_count {
        max_image_count as int
    } else {
        min_image_count + 1
    }
}

/// The composition mode that is asked for: inherited from the window system
/// where the surface supports that, opaque otherwise.
pub open spec fn chosen_composite_alpha(supported: u32) -> u32 {
    if alpha_inherit(supported) {
        CompositeAlpha::Inherit.bit()
    } else {
        CompositeAlpha::Opaque.bit()
    }
}

/// The sharing mode of the images: exclusive where one queue family renders
/// and presents, concurrent where two do.
pub open spec fn chosen_sharing_mode(graphics_queue_idx: u32, present_queue_idx: u32) -> i32 {
    if graphics_queue_idx != present_queue_idx {
        SharingMode::Concurrent.code()
    } else {
        SharingMode::Exclusive.code()
    }
}

/// What is negotiated for a surface with at least one format and one
/// present mode, and an image count that can be counted.
pub open spec fn negotiated(
    caps: SurfaceCapabilities,
    formats: Seq<SurfaceFormat>,
    present_modes: Seq<i32>,
    graphics_queue_idx: u32,
    present_queue_idx: u32,
    win_width: u32,
    win_height: u32,
) -> SwapchainCreateInfo {
    SwapchainCreateInfo {
        image_extent: chosen_extent(caps, win_width, win_height),
        image_format: chosen_surface_format(formats).format,
        image_color_space: chosen_surface_format(formats).color_space,
        min_image_count: chosen_image_count(caps.min_image_count, caps.max_image_count) as u32,
        present_mode: chosen_present_mode(present_modes),
        pre_transform: caps.current_transform,
        image_array_layers: 1,
        image_usage: usage_color_attachment(),
        composite_alpha: chosen_composite_alpha(caps.supported_composite_alpha),
        image_sharing_mode: chosen_sharing_mode(graphics_queue_idx, present_queue_idx),
    }
}

/// Whether `wanted` is among `formats`.
fn contains_format(formats: &[SurfaceFormat], wanted: &SurfaceFormat) -> (found: bool)
    ensures
        found == formats@.contains(*wanted),
{
    let mut i: usize = 0;
    while i < formats.len()
        invariant
            i <= formats@.len(),
            forall|k: int| 0 <= k < i ==> formats@[k] != *wanted,
        decreases formats@.len() - i,
    {
        if formats[i].format == wanted.format && formats[i].color_space == wanted.color_space {
            return true;
        }
        i += 1;
    }
    false
}

/// Whether `wanted` is among `modes`.
fn contains_mode(modes: &[i32], wanted: i32) -> (found: bool)
    ensures
        found == modes@.contains(wanted),
{
    let mut i: usize = 0;
    while i < modes.len()
        invariant
            i <= modes@.len(),
            forall|k: int| 0 <= k < i ==> modes@[k] != wanted,
        decreases modes@.len() - i,
    {
        if modes[i] == wanted {
            return true;
        }
        i += 1;
    }
    false
}

/// `requested` raised to `lowest`, then cut at `highest`.
fn clamp(requested: u32, lowest: u32, highest: u32) -> (value: u32)
    ensures
        value == clamped(requested, lowest, highest),
{
    let raised = if requested < lowest {
        lowest
    } else {
        requested
    };
    if raised > highest {
        highest
    } else {
        raised
    }
}

impl Swapchain {
    /// Find a suitable surface format for rendering to.
    ///
    /// The ideal format is a normalised 8-bit BGRA format in the nonlinear
    /// sRGB color space. If the surface does not report it, the first
    /// reported format is chosen. Fails exactly when nothing is reported.
    pub fn find_surface_format(surface_formats: &[SurfaceFormat]) -> (found: Result<
        SurfaceFormat,
        SwapchainError,
    >)
        ensures
            surface_formats@.len() == 0 ==> found == Err::<SurfaceFormat, SwapchainError>(
                SwapchainError::NoSurfaceFormats,
            ),
            surface_formats@.len() > 0 ==> found == Ok::<SurfaceFormat, SwapchainError>(
                chosen_surface_format(surface_formats@),
            ),
    {
        if surface_formats.len() == 0 {
            return Err(SwapchainError::NoSurfaceFormats);
        }
        let preferred = SurfaceFormat {
            format: Format::B8g8r8a8Unorm.to_vk(),
            color_space: ColorSpace::SrgbNonlinear.to_vk(),
        };
        if surface_formats.len() == 1 && surface_formats[0].format == Format::Undefined.to_vk() {
            return Ok(preferred);
        }
        if contains_format(surface_formats, &preferred) {
            Ok(preferred)
        } else {
            Ok(surface_formats[0])
        }
    }

    /// Find a suitable presentation mode. The order of preference is:
    /// 1. Mailbox -> 2. FIFO -> 3. Immediate, which is also the answer where
    /// none of the three is reported. Fails exactly when nothing is reported.
    pub fn find_present_mode(present_modes: &[i32]) -> (found: Result<i32, SwapchainError>)
        ensures
            present_modes@.len() == 0 ==> found == Err::<i32, SwapchainError>(
                SwapchainError::NoPresentModes,
            ),
            present_modes@.len() > 0 ==> found == Ok::<i32, SwapchainError>(
                chosen_present_mode(present_modes@),
            ),
    {
        if present_modes.len() == 0 {
            return Err(SwapchainError::NoPresentModes);
        }
        let mailbox = PresentMode::Mailbox.to_vk();
        let fifo = PresentMode::Fifo.to_vk();
        if contains_mode(present_modes, mailbox) {
            Ok(mailbox)
        } else if contains_mode(present_modes, fifo) {
            Ok(fifo)
        } else {
            Ok(PresentMode::Immediate.to_vk())
        }
    }

    /// The extent of the swapchain's images for a window of the given size.
    pub fn find_extent(caps: &SurfaceCapabilities, win_width: u32, win_height: u32) -> (extent:
        Extent2D)
        ensures
            extent == chosen_extent(*caps, win_width, win_height),
    {
        let mut extents = caps.current_extent;
        if caps.current_extent.width == u32::MAX {
            extents.width =
            clamp(win_width, caps.min_image_extent.width, caps.max_image_extent.width);
            extents.height =
            clamp(win_height, caps.min_image_extent.height, caps.max_image_extent.height);
        }
        extents
    }

    /// The number of images to ask for. Fails exactly when that number does
    /// not fit the API's 32-bit count: the surface's minimum is the largest
    /// count there is, and it sets no maximum.
    pub fn find_image_count(min_image_count: u32, max_image_count: u32) -> (count: Result<
        u32,
        SwapchainError,
    >)
        ensures
            match count {
                Ok(n) => n == chosen_image_count(min_image_count, max_image_count),
                Err(e) => {
                    &&& e == SwapchainError::ImageCountOutOfRange
                    &&& chosen_image_count(min_image_count, max_image_count) > u32::MAX
                },
            },
    {
        if max_image_count > 0 && min_image_count >= max_image_count {
            Ok(max_image_count)
        } else if min_image_count == u32::MAX {
            Err(SwapchainError::ImageCountOutOfRange)
        } else {
            Ok(min_image_count + 1)
        }
    }

    /// Takes up the outcome of creating the swapchain that `info` describes.
    ///
    /// A rejection by the driver becomes
    /// [`SwapchainError::SwapchainCreation`] with the driver's result code.
    /// Otherwise the swapchain keeps the returned handle beside the extent
    /// and the surface format that were negotiated.
    pub fn new(info: &SwapchainCreateInfo, created: Result<u64, i32>) -> (swapchain: Result<
        Swapchain,
        SwapchainError,
    >)
        ensures
            match created {
                Ok(handle) => swapchain == Ok::<Swapchain, SwapchainError>(
                    Swapchain {
                        instance: handle,
                        extents: info.image_extent,
                        surface_format: SurfaceFormat {
                            format: info.image_format,
                            color_space: info.image_color_space,
                        },
                    },
                ),
                Err(code) => swapchain == Err::<Swapchain, SwapchainError>(
                    SwapchainError::SwapchainCreation(code),
                ),
            },
    {
        match created {
            Ok(handle) => Ok(
                Swapchain {
                    instance: handle,
                    extents: info.image_extent,
                    surface_format: SurfaceFormat {
                        format: info.image_format,
                        color_space: info.image_color_space,
                    },
                },
            ),
            Err(code) => Err(SwapchainError::SwapchainCreation(code)),
        }
    }
}

impl SwapchainCreateInfo {
    /// Negotiates a swapchain for a window of the given size.
    ///
    /// `caps`, `surface_formats` and `present_modes` are what the surface
    /// reports on the physical device. The queue family indices are those
    /// of the logical device that will render and present.
    ///
    /// The negotiation fails where the surface reports no format, where it
    /// reports no present mode, and where the image count cannot be counted,
    /// in this order; nothing falls back beyond the preferences of the
    /// single steps.
    pub fn new(
        caps: &SurfaceCapabilities,
        surface_formats: &[SurfaceFormat],
        present_modes: &[i32],
        graphics_queue_idx: u32,
        present_queue_idx: u32,
        win_width: u32,
        win_height: u32,
    ) -> (info: Result<SwapchainCreateInfo, SwapchainError>)
        ensures
            info == if surface_formats@.len() == 0 {
                Err::<SwapchainCreateInfo, SwapchainError>(SwapchainError::NoSurfaceFormats)
            } else if present_modes@.len() == 0 {
                Err(SwapchainError::NoPresentModes)
            } else if chosen_image_count(caps.min_image_count, caps.max_image_count) > u32::MAX {
                Err(SwapchainError::ImageCountOutOfRange)
            } else {
                Ok(
                    negotiated(
                        *caps,
                        surface_formats@,
                        present_modes@,
                        graphics_queue_idx,
                        present_queue_idx,
                        win_width,
                        win_height,
                    ),
                )
            },
    {
        let surface_format = match Swapchain::find_surface_format(surface_formats) {
            Ok(f) => f,
            Err(e) => {
                return Err(e);
            },
        };
        let present_mode = match Swapchain::find_present_mode(present_modes) {
            Ok(m) => m,
            Err(e) => {
                return Err(e);
            },
        };
        let extents = Swapchain::find_extent(caps, win_width, win_height);

        // Get the number of possible images we can send to the queue.
        let image_count = match Swapchain::find_image_count(
            caps.min_image_count,
            caps.max_image_count,
        ) {
            Ok(n) => n,
            Err(e) => {
                return Err(e);
            },
        };

        let composite_alpha = if alpha_supports_inherit(caps.supported_composite_alpha) {
            CompositeAlpha::Inherit.to_vk()
        } else {
            CompositeAlpha::Opaque.to_vk()
        };

        let image_sharing_mode = if graphics_queue_idx != present_queue_idx {
            SharingMode::Concurrent.to_vk()
        } else {
            SharingMode::Exclusive.to_vk()
        };

        Ok(
            SwapchainCreateInfo {
                image_extent: extents,
                image_format: surface_format.format,
                image_color_space: surface_format.color_space,
                min_image_count: image_count,
                present_mode,
                pre_transform: caps.current_transform,
                image_array_layers: 1,
                image_usage: color_attachment_usage(),
                composite_alpha,
                image_sharing_mode,
            },
        )
    }
}

/// The negotiated surface format is the preferred format or the first
/// reported one, and a reported preferred format is always taken.
pub proof fn lemma_surface_format_choice(formats: Seq<SurfaceFormat>)
    requires
        formats.len() > 0,
    ensures
        chosen_surface_format(formats) == preferred_surface_format() || chosen_surface_format(
            formats,
        ) == formats[0],
        formats.contains(preferred_surface_format()) ==> chosen_surface_format(formats)
            == preferred_surface_format(),
        chosen_surface_format(formats) != preferred_surface_format() ==> formats.contains(
            chosen_surface_format(formats),
        ),
{
    if chosen_surface_format(formats) != preferred_surface_format() {
        assert(formats[0] == chosen_surface_format(formats));
    }
}

/// The negotiated present mode is one of mailbox, first-in-first-out and
/// immediate. It is mailbox exactly when mailbox is reported, and
/// first-in-first-out exactly when that is reported and mailbox is not.
pub proof fn lemma_present_mode_priority(modes: Seq<i32>)
    ensures
        chosen_present_mode(modes) == PresentMode::Mailbox.code() <==> modes.contains(
            PresentMode::Mailbox.code(),
        ),
        chosen_present_mode(modes) == PresentMode::Fifo.code() <==> modes.contains(
            PresentMode::Fifo.code(),
        ) && !modes.contains(PresentMode::Mailbox.code()),
        chosen_present_mode(modes) == PresentMode::Immediate.code() <==> !modes.contains(
            PresentMode::Fifo.code(),
        ) && !modes.contains(PresentMode::Mailbox.code()),
{
}

/// Where the surface leaves the extent to the swapchain and its limits are
/// in order, the negotiated extent lies within them, and a window size
/// within them is taken as it is.
pub proof fn lemma_extent_within_limits(caps: SurfaceCapabilities, win_width: u32, win_height: u32)
    requires
        caps.current_extent.width == u32::MAX,
        caps.min_image_extent.width <= caps.max_image_extent.width,
        caps.min_image_extent.height <= caps.max_image_extent.height,
    ensures
        caps.min_image_extent.width <= chosen_extent(caps, win_width, win_height).width
            <= caps.max_image_extent.width,
        caps.min_image_extent.height <= chosen_extent(caps, win_width, win_height).height
            <= caps.max_image_extent.height,
        caps.min_image_extent.width <= win_width <= caps.max_image_extent.width ==> chosen_extent(
            caps,
            win_width,
            win_height,
        ).width == win_width,
        caps.min_image_extent.height <= win_height <= caps.max_image_extent.height
            ==> chosen_extent(caps, win_width, win_height).height == win_height,
{
}

/// Where the surface states its extent, the window's size has no say.
pub proof fn lemma_surface_extent_wins(
    caps: SurfaceCapabilities,
    win_width: u32,
    win_height: u32,
    other_width: u32,
    other_height: u32,
)
    requires
        caps.current_extent.width != u32::MAX,
    ensures
        chosen_extent(caps, win_width, win_height) == caps.current_extent,
        chosen_extent(caps, win_width, win_height) == chosen_extent(
            caps,
            other_width,
            other_height,
        ),
{
}

/// The image count never exceeds one more than the surface's minimum, never
/// exceeds a maximum that the surface sets, and is one more than the minimum
/// wherever the maximum leaves room for it.
pub proof fn lemma_image_count_limits(min_image_count: u32, max_image_count: u32)
    ensures
        1 <= chosen_image_count(min_image_count, max_image_count) <= min_image_count + 1,
        max_image_count > 0 ==> chosen_image_count(min_image_count, max_image_count)
            <= max_image_count,
        max_image_count == 0 || min_image_count < max_image_count ==> chosen_image_count(
            min_image_count,
            max_image_count,
        ) == min_image_count + 1,
        chosen_image_count(min_image_count, max_image_count) > u32::MAX <==> min_image_count
            == u32::MAX && max_image_count == 0,
{
}

} // verus!
