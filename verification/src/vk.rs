//! The graphics API's own numbers.
//!
//! Formats, modes and capability bits cross this library's boundary as the
//! raw codes that the API defines. What a code means is asked of `ash`, which
//! holds the API's tables; the functions here are the only place where the
//! library does so, and none of them is proved: each states what `ash` is
//! trusted to answer.

use vstd::prelude::*;

verus! {

/// Whether a queue family's capability bits include graphics operations.
pub open spec fn queue_graphics(flags: u32) -> bool {
    flags & 0b1 == 0b1
}

/// Whether a queue family's capability bits include compute operations.
pub open spec fn queue_compute(flags: u32) -> bool {
    flags & 0b10 == 0b10
}

/// Calls `ash::vk::QueueFlags::contains` with `QueueFlags::GRAPHICS`, which is
/// the bit `0b1`. `contains` holds when every bit of its argument is set in
/// the receiver.
#[verifier::external_body]
pub(crate) fn queue_supports_graphics(flags: u32) -> (yes: bool)
    ensures
        yes == queue_graphics(flags),
{
    ash::vk::QueueFlags::from_raw(flags).contains(ash::vk::QueueFlags::GRAPHICS)
}

/// Calls `ash::vk::QueueFlags::contains` with `QueueFlags::COMPUTE`, which is
/// the bit `0b10`.
#[verifier::external_body]
pub(crate) fn queue_supports_compute(flags: u32) -> (yes: bool)
    ensures
        yes == queue_compute(flags),
{
    ash::vk::QueueFlags::from_raw(flags).contains(ash::vk::QueueFlags::COMPUTE)
}

/// The pixel formats that the library tells apart.
#[derive(Debug, Copy, Clone, PartialEq, Eq)]
pub enum Format {
    Undefined,
    B8g8r8a8Unorm,
    D16Unorm,
    X8D24UnormPack32,
    D32Sfloat,
    S8Uint,
    D16UnormS8Uint,
    D24UnormS8Uint,
    D32SfloatS8Uint,
}

impl Format {
    /// The API's code of the format.
    pub open spec fn code(self) -> i32 {
        match self {
            Format::Undefined => 0,
            Format::B8g8r8a8Unorm => 44,
            Format::D16Unorm => 124,
            Format::X8D24UnormPack32 => 125,
            Format::D32Sfloat => 126,
            Format::S8Uint => 127,
            Format::D16UnormS8Uint => 128,
            Format::D24UnormS8Uint => 129,
            Format::D32SfloatS8Uint => 130,
        }
    }

    /// Reads the code from the constant of `ash::vk::Format` that has the
    /// variant's name, by `as_raw`.
    #[verifier::external_body]
    pub(crate) fn to_vk(self) -> (code: i32)
        ensures
            code == self.code(),
    {
        match self {
            Format::Undefined => ash::vk::Format::UNDEFINED,
            Format::B8g8r8a8Unorm => ash::vk::Format::B8G8R8A8_UNORM,
            Format::D16Unorm => ash::vk::Format::D16_UNORM,
            Format::X8D24UnormPack32 => ash::vk::Format::X8_D24_UNORM_PACK32,
            Format::D32Sfloat => ash::vk::Format::D32_SFLOAT,
            Format::S8Uint => ash::vk::Format::S8_UINT,
            Format::D16UnormS8Uint => ash::vk::Format::D16_UNORM_S8_UINT,
            Format::D24UnormS8Uint => ash::vk::Format::D24_UNORM_S8_UINT,
            Format::D32SfloatS8Uint => ash::vk::Format::D32_SFLOAT_S8_UINT,
        }.as_raw()
    }
}

/// The color spaces that the library tells apart.
#[derive(Debug, Copy, Clone, PartialEq, Eq)]
pub enum ColorSpace {
    SrgbNonlinear,
}

impl ColorSpace {
    /// The API's code of the color space.
    pub open spec fn code(self) -> i32 {
        match self {
            ColorSpace::SrgbNonlinear => 0,
        }
    }

    /// Reads the code from `ash::vk::ColorSpaceKHR::SRGB_NONLINEAR`, by
    /// `as_raw`.
    #[verifier::external_body]
    pub(crate) fn to_vk(self) -> (code: i32)
        ensures
            code == self.code(),
    {
        match self {
            ColorSpace::SrgbNonlinear => ash::vk::ColorSpaceKHR::SRGB_NONLINEAR,
        }.as_raw()
    }
}

/// The present modes that the library tells apart.
#[derive(Debug, Copy, Clone, PartialEq, Eq)]
pub enum PresentMode {
    Immediate,
    Mailbox,
    Fifo,
}

impl PresentMode {
    /// The API's code of the present mode.
    pub open spec fn code(self) -> i32 {
        match self {
            PresentMode::Immediate => 0,
            PresentMode::Mailbox => 1,
            PresentMode::Fifo => 2,
        }
    }

    /// Reads the code from the constant of `ash::vk::PresentModeKHR` that
    /// has the variant's name, by `as_raw`.
    #[verifier::external_body]
    pub(crate) fn to_vk(self) -> (code: i32)
        ensures
            code == self.code(),
    {
        match self {
            PresentMode::Immediate => ash::vk::PresentModeKHR::IMMEDIATE,
            PresentMode::Mailbox => ash::vk::PresentModeKHR::MAILBOX,
            PresentMode::Fifo => ash::vk::PresentModeKHR::FIFO,
        }.as_raw()
    }
}

/// How the images of a swapchain are shared between queue families.
#[derive(Debug, Copy, Clone, PartialEq, Eq)]
pub enum SharingMode {
    Exclusive,
    Concurrent,
}

impl SharingMode {
    /// The API's code of the sharing mode.
    pub open spec fn code(self) -> i32 {
        match self {
            SharingMode::Exclusive => 0,
            SharingMode::Concurrent => 1,
        }
    }

    /// Reads the code from the constant of `ash::vk::SharingMode` that has
    /// the variant's name, by `as_raw`.
    #[verifier::external_body]
    pub(crate) fn to_vk(self) -> (code: i32)
        ensures
            code == self.code(),
    {
        match self {
            SharingMode::Exclusive => ash::vk::SharingMode::EXCLUSIVE,
            SharingMode::Concurrent => ash::vk::SharingMode::CONCURRENT,
        }.as_raw()
    }
}

/// How the window system blends a presented image with what lies behind it.
#[derive(Debug, Copy, Clone, PartialEq, Eq)]
pub enum CompositeAlpha {
    Opaque,
    Inherit,
}

impl CompositeAlpha {
    /// The API's bit of the composition mode.
    pub open spec fn bit(self) -> u32 {
        match self {
            CompositeAlpha::Opaque => 0b1,
            CompositeAlpha::Inherit => 0b1000,
        }
    }

    /// Reads the bit from the constant of `ash::vk::CompositeAlphaFlagsKHR`
    /// that has the variant's name, by `as_raw`.
    #[verifier::external_body]
    pub(crate) fn to_vk(self) -> (bit: u32)
        ensures
            bit == self.bit(),
    {
        match self {
            CompositeAlpha::Opaque => ash::vk::CompositeAlphaFlagsKHR::OPAQUE,
            CompositeAlpha::Inherit => ash::vk::CompositeAlphaFlagsKHR::INHERIT,
        }.as_raw()
    }
}

/// Whether a surface's composition bits include inheriting the alpha mode
/// from the window system.
pub open spec fn alpha_inherit(supported: u32) -> bool {
    supported & 0b1000 == 0b1000
}

/// Calls `ash::vk::CompositeAlphaFlagsKHR::contains` with
/// `CompositeAlphaFlagsKHR::INHERIT`, which is the bit `0b1000`.
#[verifier::external_body]
pub(crate) fn alpha_supports_inherit(supported: u32) -> (yes: bool)
    ensures
        yes == alpha_inherit(supported),
{
    ash::vk::CompositeAlphaFlagsKHR::from_raw(supported).contains(
        ash::vk::CompositeAlphaFlagsKHR::INHERIT,
    )
}

/// The usage bit of an image that is rendered to as a color attachment.
pub open spec fn usage_color_attachment() -> u32 {
    0b1_0000
}

/// Reads the bit from `ash::vk::ImageUsageFlags::COLOR_ATTACHMENT`, by
/// `as_raw`.
#[verifier::external_body]
pub(crate) fn color_attachment_usage() -> (bit: u32)
    ensures
        bit == usage_color_attachment(),
{
    ash::vk::ImageUsageFlags::COLOR_ATTACHMENT.as_raw()
}

/// The border color that every sampler is created with: opaque white, in
/// floating point.
pub open spec fn border_float_opaque_white() -> i32 {
    4
}

/// Reads the code from `ash::vk::BorderColor::FLOAT_OPAQUE_WHITE`, by
/// `as_raw`.
#[verifier::external_body]
pub(crate) fn float_opaque_white_border() -> (code: i32)
    ensures
        code == border_float_opaque_white(),
{
    ash::vk::BorderColor::FLOAT_OPAQUE_WHITE.as_raw()
}

/// The mip-map mode that every sampler is created with: linear
/// interpolation between mip levels.
pub open spec fn mipmap_linear() -> i32 {
    1
}

/// Reads the code from `ash::vk::SamplerMipmapMode::LINEAR`, by `as_raw`.
#[verifier::external_body]
pub(crate) fn linear_mipmap_mode() -> (code: i32)
    ensures
        code == mipmap_linear(),
{
    ash::vk::SamplerMipmapMode::LINEAR.as_raw()
}

/// Whether a format, by its code, has a depth component.
pub open spec fn is_depth(format: i32) -> bool {
    ||| format == Format::D16Unorm.code()
    ||| format == Format::D32Sfloat.code()
    ||| format == Format::D32SfloatS8Uint.code()
    ||| format == Format::D24UnormS8Uint.code()
    ||| format == Format::D16UnormS8Uint.code()
    ||| format == Format::X8D24UnormPack32.code()
}

/// Whether a format, by its code, has a stencil component.
pub open spec fn is_stencil(format: i32) -> bool {
    ||| format == Format::S8Uint.code()
    ||| format == Format::D16UnormS8Uint.code()
    ||| format == Format::D24UnormS8Uint.code()
    ||| format == Format::D32SfloatS8Uint.code()
}

/// The layouts of an image that the library tells apart.
#[derive(Debug, Copy, Clone, PartialEq, Eq)]
pub enum ImageLayout {
    Undefined,
    General,
    DepthStencilAttachmentOptimal,
    ShaderReadOnlyOptimal,
}

impl ImageLayout {
    /// The API's code of the layout.
    pub open spec fn code(self) -> i32 {
        match self {
            ImageLayout::Undefined => 0,
            ImageLayout::General => 1,
            ImageLayout::DepthStencilAttachmentOptimal => 3,
            ImageLayout::ShaderReadOnlyOptimal => 5,
        }
    }

    /// Reads the code from the constant of `ash::vk::ImageLayout` that has
    /// the variant's name, by `as_raw`.
    #[verifier::external_body]
    pub(crate) fn to_vk(self) -> (code: i32)
        ensures
            code == self.code(),
    {
        match self {
            ImageLayout::Undefined => ash::vk::ImageLayout::UNDEFINED,
            ImageLayout::General => ash::vk::ImageLayout::GENERAL,
            ImageLayout::DepthStencilAttachmentOptimal => {
                ash::vk::ImageLayout::DEPTH_STENCIL_ATTACHMENT_OPTIMAL
            },
            ImageLayout::ShaderReadOnlyOptimal => ash::vk::ImageLayout::SHADER_READ_ONLY_OPTIMAL,
        }.as_raw()
    }
}

/// The kinds of image view that the library creates.
#[derive(Debug, Copy, Clone, PartialEq, Eq)]
pub enum ImageViewType {
    Type2d,
    Type2dArray,
    Cube,
    CubeArray,
}

impl ImageViewType {
    /// The API's code of the view type.
    pub open spec fn code(self) -> i32 {
        match self {
            ImageViewType::Type2d => 1,
            ImageViewType::Cube => 3,
            ImageViewType::Type2dArray => 5,
            ImageViewType::CubeArray => 6,
        }
    }

    /// Reads the code from the constant of `ash::vk::ImageViewType` that has
    /// the variant's name, by `as_raw`.
    #[verifier::external_body]
    pub(crate) fn to_vk(self) -> (code: i32)
        ensures
            code == self.code(),
    {
        match self {
            ImageViewType::Type2d => ash::vk::ImageViewType::TYPE_2D,
            ImageViewType::Type2dArray => ash::vk::ImageViewType::TYPE_2D_ARRAY,
            ImageViewType::Cube => ash::vk::ImageViewType::CUBE,
            ImageViewType::CubeArray => ash::vk::ImageViewType::CUBE_ARRAY,
        }.as_raw()
    }
}

/// The aspects of an image that a view can select.
#[derive(Debug, Copy, Clone, PartialEq, Eq)]
pub enum ImageAspect {
    Color,
    Depth,
    DepthStencil,
}

impl ImageAspect {
    /// The API's bits of the aspects.
    pub open spec fn bits(self) -> u32 {
        match self {
            ImageAspect::Color => 0b1,
            ImageAspect::Depth => 0b10,
            ImageAspect::DepthStencil => 0b110,
        }
    }

    /// Reads the bits from `ash::vk::ImageAspectFlags`, by `as_raw`: from
    /// `COLOR`, from `DEPTH`, and from `DEPTH | STENCIL`, which has the bits
    /// of both.
    #[verifier::external_body]
    pub(crate) fn to_vk(self) -> (bits: u32)
        ensures
            bits == self.bits(),
    {
        match self {
            ImageAspect::Color => ash::vk::ImageAspectFlags::COLOR,
            ImageAspect::Depth => ash::vk::ImageAspectFlags::DEPTH,
            ImageAspect::DepthStencil => {
                ash::vk::ImageAspectFlags::DEPTH | ash::vk::ImageAspectFlags::STENCIL
            },
        }.as_raw()
    }
}

/// Whether the usage bits of an image include storage-image access.
pub open spec fn usage_storage(usage: u32) -> bool {
    usage & 0b1000 == 0b1000
}

/// Calls `ash::vk::ImageUsageFlags::contains` with
/// `ImageUsageFlags::STORAGE`, which is the bit `0b1000`.
#[verifier::external_body]
pub(crate) fn usage_has_storage(usage: u32) -> (yes: bool)
    ensures
        yes == usage_storage(usage),
{
    ash::vk::ImageUsageFlags::from_raw(usage).contains(ash::vk::ImageUsageFlags::STORAGE)
}

/// The usage bits of an image that can also be the target of a transfer.
pub open spec fn usage_transfer_dst(usage: u32) -> u32 {
    usage | 0b10
}

/// Joins `ash::vk::ImageUsageFlags::TRANSFER_DST`, which is the bit `0b10`,
/// with the given bits by the `|` of `ImageUsageFlags`, which sets every bit
/// that is set on either side.
#[verifier::external_body]
pub(crate) fn usage_with_transfer_dst(usage: u32) -> (bits: u32)
    ensures
        bits == usage_transfer_dst(usage),
{
    (ash::vk::ImageUsageFlags::TRANSFER_DST | ash::vk::ImageUsageFlags::from_raw(usage)).as_raw()
}

/// The fixed choices of every image: two-dimensional, one sample per texel,
/// tiled as the device likes best.
#[derive(Debug, Copy, Clone, PartialEq, Eq)]
pub struct ImageDefaults {
    pub image_type: i32,
    pub samples: u32,
    pub tiling: i32,
}

/// The codes of the fixed choices of every image.
pub open spec fn image_defaults() -> ImageDefaults {
    ImageDefaults { image_type: 1, samples: 0b1, tiling: 0 }
}

/// Reads the codes from `ash::vk::ImageType::TYPE_2D`,
/// `ash::vk::SampleCountFlags::TYPE_1` and `ash::vk::ImageTiling::OPTIMAL`,
/// by `as_raw`.
#[verifier::external_body]
pub(crate) fn default_image_choices() -> (defaults: ImageDefaults)
    ensures
        defaults == image_defaults(),
{
    ImageDefaults {
        image_type: ash::vk::ImageType::TYPE_2D.as_raw(),
        samples: ash::vk::SampleCountFlags::TYPE_1.as_raw(),
        tiling: ash::vk::ImageTiling::OPTIMAL.as_raw(),
    }
}

/// The swizzle that leaves a component of a view where it is.
pub open spec fn swizzle_identity() -> i32 {
    0
}

/// Reads the code from `ash::vk::ComponentSwizzle::IDENTITY`, by `as_raw`.
#[verifier::external_body]
pub(crate) fn identity_swizzle() -> (code: i32)
    ensures
        code == swizzle_identity(),
{
    ash::vk::ComponentSwizzle::IDENTITY.as_raw()
}

/// A version of the API as one number: the variant in the three highest
/// bits, below it seven bits of major version, ten bits of minor version
/// and twelve bits of patch.
pub open spec fn api_version(variant: u32, major: u32, minor: u32, patch: u32) -> u32 {
    (variant << 29u32) | (major << 22u32) | (minor << 12u32) | patch
}

/// Calls `ash::vk::make_api_version`, which shifts the variant by 29 bits,
/// the major version by 22 and the minor version by 12, and joins the three
/// and the patch with `|`.
#[verifier::external_body]
pub(crate) fn make_api_version(variant: u32, major: u32, minor: u32, patch: u32) -> (version: u32)
    ensures
        version == api_version(variant, major, minor, patch),
{
    ash::vk::make_api_version(variant, major, minor, patch)
}

} // verus!
