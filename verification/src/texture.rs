//! Textures: an image, its memory, the views onto its mip levels and the
//! sampler it is read through.

use crate::backend::SamplerInfo;
use crate::driver::Driver;
use crate::error::ResourceError;
use crate::sampler_cache::{sampler_create_info, SamplerCache, SamplerCreateInfo, SamplerRequest};
use crate::vk::{
    default_image_choices, identity_swizzle, image_defaults, is_depth, is_stencil,
    swizzle_identity, usage_has_storage, usage_storage, usage_transfer_dst,
    usage_with_transfer_dst, Format, ImageAspect, ImageLayout, ImageViewType, SharingMode,
};
use vstd::pervasive::unreached;
use vstd::prelude::*;

verus! {

/// The shape of a texture.
#[derive(Debug, Copy, Clone, PartialEq, Eq)]
pub enum TextureType {
    Texture2d,
    Array2d,
    Cube2d,
    CubeArray2d,
}

/// Describes the dimensions and type of the texture.
#[derive(Debug, Copy, Clone, PartialEq, Eq)]
pub struct TextureInfo {
    pub width: u32,
    pub height: u32,
    pub mip_levels: u32,
    pub array_layers: u32,
    pub format: i32,
    pub ty: TextureType,
}

impl Default for TextureInfo {
    /// A plain texture without extent, with one mip level, one array layer
    /// and the undefined format.
    fn default() -> (info: Self)
        ensures
            info == (TextureInfo {
                width: 0,
                height: 0,
                mip_levels: 1,
                array_layers: 1,
                format: Format::Undefined.code(),
                ty: TextureType::Texture2d,
            }),
    {
        Self {
            width: 0,
            height: 0,
            mip_levels: 1,
            array_layers: 1,
            format: Format::Undefined.to_vk(),
            ty: TextureType::Texture2d,
        }
    }
}

/// What an image and its memory are created with.
#[derive(Debug, Copy, Clone, PartialEq, Eq)]
pub struct ImageCreateInfo {
    pub image_type: i32,
    pub format: i32,
    pub width: u32,
    pub height: u32,
    pub depth: u32,
    pub mip_levels: u32,
    pub array_layers: u32,
    pub samples: u32,
    pub tiling: i32,
    pub usage: u32,
    pub sharing_mode: i32,
    pub initial_layout: i32,
    /// The memory is private to the GPU.
    pub gpu_private: bool,
    /// The memory is an allocation of its own, not a part of a shared
    /// block.
    pub dedicated_memory: bool,
}

/// What an image view is created with.
#[derive(Debug, Copy, Clone, PartialEq, Eq)]
pub struct ImageViewCreateInfo {
    pub image: u64,
    pub view_type: i32,
    pub format: i32,
    pub swizzle_r: i32,
    pub swizzle_g: i32,
    pub swizzle_b: i32,
    pub swizzle_a: i32,
    pub aspect_mask: u32,
    pub base_mip_level: u32,
    pub level_count: u32,
    pub base_array_layer: u32,
    pub layer_count: u32,
}

/// The number of array layers of an image, as a number without bound: one
/// for a plain texture, the requested count for an array, six for a cube
/// and six for each requested cube of a cube array.
pub open spec fn array_layers(tex_type: TextureType, array_count: u32) -> int {
    match tex_type {
        TextureType::Array2d => array_count as int,
        TextureType::Cube2d => 6,
        TextureType::CubeArray2d => 6 * array_count,
        TextureType::Texture2d => 1,
    }
}

/// The aspects of an image that its views select: depth and stencil for a
/// format with both, depth for a format with depth alone, color for every
/// other format.
pub open spec fn aspect_of(format: i32) -> ImageAspect {
    if is_depth(format) && is_stencil(format) {
        ImageAspect::DepthStencil
    } else if is_depth(format) {
        ImageAspect::Depth
    } else {
        ImageAspect::Color
    }
}

/// The layout that an image is meant to be in when it is used: that of a
/// depth-stencil attachment for a format with depth or stencil; otherwise
/// the general layout where the image is used as a storage image, and the
/// layout for reading from shaders where it is not.
pub open spec fn layout_of(format: i32, usage_flags: u32) -> ImageLayout {
    if is_depth(format) || is_stencil(format) {
        ImageLayout::DepthStencilAttachmentOptimal
    } else if usage_storage(usage_flags) {
        ImageLayout::General
    } else {
        ImageLayout::ShaderReadOnlyOptimal
    }
}

/// The kind of view that goes with a shape of texture.
pub open spec fn view_type_of(tex_type: TextureType) -> ImageViewType {
    match tex_type {
        TextureType::Cube2d => ImageViewType::Cube,
        TextureType::CubeArray2d => ImageViewType::CubeArray,
        TextureType::Array2d => ImageViewType::Type2dArray,
        TextureType::Texture2d => ImageViewType::Type2d,
    }
}

/// What the image of a texture is created with, where its array layers can
/// be counted.
pub open spec fn image_create_info(info: TextureInfo, usage_flags: u32) -> ImageCreateInfo {
    ImageCreateInfo {
        image_type: image_defaults().image_type,
        format: info.format,
        width: info.width,
        height: info.height,
        depth: 1,
        mip_levels: info.mip_levels,
        array_layers: array_layers(info.ty, info.array_layers) as u32,
        samples: image_defaults().samples,
        tiling: image_defaults().tiling,
        usage: usage_transfer_dst(usage_flags),
        sharing_mode: SharingMode::Exclusive.code(),
        initial_layout: ImageLayout::Undefined.code(),
        gpu_private: true,
        dedicated_memory: true,
    }
}

/// What a view onto `mip_count` mip levels of an image, from `mip_level`
/// on, is created with.
pub open spec fn image_view_create_info(
    image: u64,
    info: TextureInfo,
    mip_level: u32,
    mip_count: u32,
) -> ImageViewCreateInfo {
    ImageViewCreateInfo {
        image,
        view_type: view_type_of(info.ty).code(),
        format: info.format,
        swizzle_r: swizzle_identity(),
        swizzle_g: swizzle_identity(),
        swizzle_b: swizzle_identity(),
        swizzle_a: swizzle_identity(),
        aspect_mask: aspect_of(info.format).bits(),
        base_mip_level: mip_level,
        level_count: mip_count,
        base_array_layer: 0,
        layer_count: 1,
    }
}

/// The number of views of a texture: one onto the whole mip chain, and one
/// onto each mip level after the first.
pub open spec fn view_count(mip_levels: u32) -> int {
    if mip_levels == 0 {
        1
    } else {
        mip_levels as int
    }
}

/// What the view at place `n` of a texture is created with: the first view
/// spans the whole mip chain, the view at each later place the one mip
/// level of that number.
pub open spec fn nth_view_create_info(image: u64, info: TextureInfo, n: int) -> ImageViewCreateInfo {
    if n == 0 {
        image_view_create_info(image, info, 0, info.mip_levels)
    } else {
        image_view_create_info(image, info, n as u32, 1)
    }
}

/// The number of array layers of the image of a texture.
///
/// The requested count is only looked at for the array shapes.
pub fn compute_array_layers(tex_type: &TextureType, array_count: u32) -> (layers: u32)
    requires
        array_layers(*tex_type, array_count) <= u32::MAX,
    ensures
        layers == array_layers(*tex_type, array_count),
{
    match tex_type {
        TextureType::Array2d => array_count,
        TextureType::Cube2d => 6,
        TextureType::CubeArray2d => 6 * array_count,
        TextureType::Texture2d => 1,
    }
}

/// The number of array layers of the image of a texture, where it can be
/// counted in 32 bits.
pub fn checked_array_layers(tex_type: &TextureType, array_count: u32) -> (layers: Option<u32>)
    ensures
        match layers {
            Some(n) => n == array_layers(*tex_type, array_count),
            None => array_layers(*tex_type, array_count) > u32::MAX,
        },
{
    let countable = match tex_type {
        TextureType::CubeArray2d => array_count <= u32::MAX / 6,
        _ => true,
    };
    if countable {
        Some(compute_array_layers(tex_type, array_count))
    } else {
        None
    }
}

/// The aspect bits that the views of an image with the given format select.
pub fn get_aspect_mask(format: i32) -> (aspect_mask: u32)
    ensures
        aspect_mask == aspect_of(format).bits(),
{
    let depth = Driver::is_depth_format(format);
    let stencil = Driver::is_stencil_format(format);
    if depth && stencil {
        ImageAspect::DepthStencil.to_vk()
    } else if depth {
        ImageAspect::Depth.to_vk()
    } else {
        ImageAspect::Color.to_vk()
    }
}

/// The layout that an image with the given format and usage is meant to be
/// in when it is used. Nothing brings the image into that layout here.
pub fn get_image_layout(format: i32, usage_flags: u32) -> (layout: i32)
    ensures
        layout == layout_of(format, usage_flags).code(),
{
    if Driver::is_depth_format(format) || Driver::is_stencil_format(format) {
        ImageLayout::DepthStencilAttachmentOptimal.to_vk()
    } else if usage_has_storage(usage_flags) {
        ImageLayout::General.to_vk()
    } else {
        ImageLayout::ShaderReadOnlyOptimal.to_vk()
    }
}

/// An object that was created on behalf of a texture.
#[derive(Debug, Copy, Clone, PartialEq, Eq)]
pub enum Created {
    /// An image, and the allocation that backs it.
    Image { image: u64, allocation: u64 },
    ImageView(u64),
    Sampler(u64),
}

/// What the construction of a texture asks for next.
#[derive(Debug, Copy, Clone, PartialEq, Eq)]
pub enum TextureRequest {
    CreateImage(ImageCreateInfo),
    CreateImageView(ImageViewCreateInfo),
    CreateSampler(SamplerCreateInfo),
}

/// A texture encompasses an image, its memory allocation and the
/// corresponding image views, as a mathematical value.
pub struct TextureState {
    pub info: TextureInfo,
    pub image_layout: i32,
    pub image: u64,
    pub allocation: u64,
    /// The view onto the whole mip chain, then the view onto each mip level
    /// after the first.
    pub image_views: Seq<u64>,
    /// The sampler belongs to the cache it came from: the texture does not
    /// destroy it.
    pub sampler: u64,
    /// The number of frames to wait until the texture is reclaimed.
    pub frames_until_gc: u32,
}

/// A texture under construction, as a mathematical value: what it is to
/// become, and what was created for it so far.
pub struct BuilderState {
    pub info: TextureInfo,
    pub usage_flags: u32,
    pub sampler_info: SamplerInfo,
    pub image: Option<(u64, u64)>,
    pub image_views: Seq<u64>,
}

/// A construction that failed, as a mathematical value.
pub struct FailureState {
    pub error: ResourceError,
    /// The views to destroy, the last created first.
    pub image_views: Seq<u64>,
    /// The image to destroy and the allocation to free, after the views.
    pub image: Option<(u64, u64)>,
    /// An object that was handed in and found no place: the caller disposes
    /// of it.
    pub stray: Option<Created>,
}

impl TextureState {
    /// The views of the texture in the order of their destruction: the last
    /// created first.
    pub open spec fn views_to_destroy(self) -> Seq<u64> {
        self.image_views.reverse()
    }
}

/// Where a construction stands after a step, as a mathematical value.
pub enum StepState {
    Pending(BuilderState, TextureRequest),
    Done(TextureState),
    Failed(FailureState),
}

impl BuilderState {
    /// Views are only created onto an image, no more of them than the
    /// texture has, and the array layers of the image can be counted.
    pub open spec fn consistent(self) -> bool {
        &&& self.image is None ==> self.image_views.len() == 0
        &&& self.image_views.len() <= view_count(self.info.mip_levels)
        &&& array_layers(self.info.ty, self.info.array_layers) <= u32::MAX
    }

    /// What the construction waits for.
    pub open spec fn pending(self) -> TextureRequest {
        match self.image {
            None => TextureRequest::CreateImage(image_create_info(self.info, self.usage_flags)),
            Some((image, _)) => if self.image_views.len() < view_count(self.info.mip_levels) {
                TextureRequest::CreateImageView(
                    nth_view_create_info(image, self.info, self.image_views.len() as int),
                )
            } else {
                TextureRequest::CreateSampler(sampler_create_info(self.sampler_info))
            },
        }
    }

    /// The number of steps that are still to come at most.
    pub open spec fn steps_left(self) -> int {
        (if self.image is None {
            1int
        } else {
            0int
        }) + (view_count(self.info.mip_levels) - self.image_views.len()) + 1
    }

    /// The failure that gives up everything created so far.
    pub open spec fn fail(self, error: ResourceError, stray: Option<Created>) -> FailureState {
        FailureState { error, image_views: self.image_views.reverse(), image: self.image, stray }
    }

    /// The error that a rejection of the pending request amounts to.
    pub open spec fn rejection(self, code: i32) -> ResourceError {
        match self.pending() {
            TextureRequest::CreateImage(_) => ResourceError::ImageCreation(code),
            TextureRequest::CreateImageView(_) => ResourceError::ImageViewCreation(code),
            TextureRequest::CreateSampler(_) => ResourceError::SamplerCreation(code),
        }
    }

    /// The finished texture, with the given sampler.
    pub open spec fn finish(self, sampler: u64) -> TextureState
        recommends
            self.image is Some,
    {
        let (image, allocation) = match self.image {
            Some(created) => created,
            None => (0u64, 0u64),
        };
        TextureState {
            info: self.info,
            image_layout: layout_of(self.info.format, self.usage_flags).code(),
            image,
            allocation,
            image_views: self.image_views,
            sampler,
            frames_until_gc: 0,
        }
    }

    /// Where the construction stands once every view exists: done with a
    /// cached sampler, or waiting for a sampler to be created.
    pub open spec fn resolve_sampler(self, cache: Map<SamplerInfo, u64>) -> StepState {
        if cache.contains_key(self.sampler_info) {
            StepState::Done(self.finish(cache[self.sampler_info]))
        } else {
            StepState::Pending(self, self.pending())
        }
    }

    /// The step that takes up the outcome of the pending request: where the
    /// construction stands afterwards, and what the sampler cache holds.
    ///
    /// A rejection, and an object of another kind than was asked for, end
    /// the construction and give up everything created so far. An image is
    /// followed by its views, one by one. After the last view the sampler is
    /// looked up in the cache; one that is cached completes the texture, and
    /// one that was created for the texture is filed in the cache first.
    pub open spec fn step(self, cache: Map<SamplerInfo, u64>, outcome: Result<Created, i32>) -> (
        StepState,
        Map<SamplerInfo, u64>,
    ) {
        match outcome {
            Err(code) => (StepState::Failed(self.fail(self.rejection(code), None)), cache),
            Ok(created) => match (self.pending(), created) {
                (TextureRequest::CreateImage(_), Created::Image { image, allocation }) => {
                    let next = BuilderState { image: Some((image, allocation)), ..self };
                    (StepState::Pending(next, next.pending()), cache)
                },
                (TextureRequest::CreateImageView(_), Created::ImageView(view)) => {
                    let next = BuilderState { image_views: self.image_views.push(view), ..self };
                    if next.image_views.len() < view_count(next.info.mip_levels) {
                        (StepState::Pending(next, next.pending()), cache)
                    } else {
                        (next.resolve_sampler(cache), cache)
                    }
                },
                (TextureRequest::CreateSampler(_), Created::Sampler(sampler)) => {
                    if cache.contains_key(self.sampler_info) {
                        (
                            StepState::Failed(
                                self.fail(ResourceError::SamplerAlreadyCached, Some(created)),
                            ),
                            cache,
                        )
                    } else {
                        (
                            StepState::Done(self.finish(sampler)),
                            cache.insert(self.sampler_info, sampler),
                        )
                    }
                },
                _ => (
                    StepState::Failed(self.fail(ResourceError::UnexpectedOutcome, Some(created))),
                    cache,
                ),
            },
        }
    }

    /// Where the construction of a texture starts.
    pub open spec fn begin(info: TextureInfo, usage_flags: u32, sampler_info: SamplerInfo)
        -> StepState {
        let start = BuilderState {
            info,
            usage_flags,
            sampler_info,
            image: None,
            image_views: Seq::empty(),
        };
        if array_layers(info.ty, info.array_layers) > u32::MAX {
            StepState::Failed(start.fail(ResourceError::ArrayLayersOutOfRange, None))
        } else {
            StepState::Pending(start, start.pending())
        }
    }
}

/// A texture encompasses an image, its memory allocation and the
/// corresponding image views.
#[derive(Debug)]
pub struct Texture {
    info: TextureInfo,
    image_layout: i32,
    image: u64,
    allocation: u64,
    image_views: Vec<u64>,
    sampler: u64,
    frames_until_gc: u32,
}

impl View for Texture {
    type V = TextureState;

    closed spec fn view(&self) -> TextureState {
        TextureState {
            info: self.info,
            image_layout: self.image_layout,
            image: self.image,
            allocation: self.allocation,
            image_views: self.image_views@,
            sampler: self.sampler,
            frames_until_gc: self.frames_until_gc,
        }
    }
}

/// A texture under construction.
#[derive(Debug)]
pub struct TextureBuilder {
    info: TextureInfo,
    usage_flags: u32,
    sampler_info: SamplerInfo,
    image: Option<(u64, u64)>,
    image_views: Vec<u64>,
}

impl View for TextureBuilder {
    type V = BuilderState;

    closed spec fn view(&self) -> BuilderState {
        BuilderState {
            info: self.info,
            usage_flags: self.usage_flags,
            sampler_info: self.sampler_info,
            image: self.image,
            image_views: self.image_views@,
        }
    }
}

/// A construction that failed. What is listed here was created for the
/// texture and is to be destroyed, in the order of the fields: nothing of a
/// failed texture stays behind.
#[derive(Debug)]
pub struct TextureFailure {
    pub error: ResourceError,
    /// The views to destroy, the last created first.
    pub image_views: Vec<u64>,
    /// The image to destroy and the allocation to free, after the views.
    pub image: Option<(u64, u64)>,
    /// An object that was handed in and found no place: the caller disposes
    /// of it.
    pub stray: Option<Created>,
}

impl View for TextureFailure {
    type V = FailureState;

    open spec fn view(&self) -> FailureState {
        FailureState {
            error: self.error,
            image_views: self.image_views@,
            image: self.image,
            stray: self.stray,
        }
    }
}

/// What a texture that is destroyed gives up, in the order of the fields.
/// The sampler is not among it: the cache that owns it destroys it.
#[derive(Debug, PartialEq, Eq)]
pub struct TextureRelease {
    /// The views to destroy, the last created first.
    pub image_views: Vec<u64>,
    /// The image to destroy, after the views.
    pub image: u64,
    /// The allocation to free, with the image.
    pub allocation: u64,
}

/// Where the construction of a texture stands after a step.
#[derive(Debug)]
pub enum TextureStep {
    /// The request is to be carried out, and its outcome handed to
    /// [`TextureBuilder::step`].
    Pending(TextureBuilder, TextureRequest),
    /// The texture is complete.
    Done(Texture),
    /// The construction has failed.
    Failed(TextureFailure),
}

impl View for TextureStep {
    type V = StepState;

    open spec fn view(&self) -> StepState {
        match self {
            TextureStep::Pending(builder, request) => StepState::Pending(builder@, *request),
            TextureStep::Done(texture) => StepState::Done(texture@),
            TextureStep::Failed(failure) => StepState::Failed(failure@),
        }
    }
}

impl Texture {
    /// Begins the construction of a texture.
    ///
    /// The answer asks for the image, unless the array layers of the image
    /// cannot be counted: then the construction has failed before anything
    /// was created.
    pub fn new(info: &TextureInfo, usage_flags: u32, sampler_info: &SamplerInfo) -> (step:
        TextureStep)
        ensures
            step@ == BuilderState::begin(*info, usage_flags, *sampler_info),
    {
        match Self::create_image(info, usage_flags) {
            Ok(create_info) => {
                let builder = TextureBuilder {
                    info: *info,
                    usage_flags,
                    sampler_info: *sampler_info,
                    image: None,
                    image_views: Vec::new(),
                };
                TextureStep::Pending(builder, TextureRequest::CreateImage(create_info))
            },
            Err(error) => {
                let failure = TextureFailure {
                    error,
                    image_views: Vec::new(),
                    image: None,
                    stray: None,
                };
                assert(failure@.image_views =~= Seq::<u64>::empty().reverse());
                TextureStep::Failed(failure)
            },
        }
    }

    /// Says what the image of a texture and its memory allocation are
    /// created with.
    ///
    /// The image is two-dimensional and tiled as the device likes best; its
    /// memory is private to the GPU and allocated for it alone. It can
    /// always be the target of a transfer, whatever `usage_flags` say.
    /// Fails exactly when the array layers cannot be counted in 32 bits.
    pub fn create_image(info: &TextureInfo, usage_flags: u32) -> (create_info: Result<
        ImageCreateInfo,
        ResourceError,
    >)
        ensures
            create_info == if array_layers(info.ty, info.array_layers) > u32::MAX {
                Err::<ImageCreateInfo, ResourceError>(ResourceError::ArrayLayersOutOfRange)
            } else {
                Ok(image_create_info(*info, usage_flags))
            },
    {
        let layers = match checked_array_layers(&info.ty, info.array_layers) {
            Some(layers) => layers,
            None => {
                return Err(ResourceError::ArrayLayersOutOfRange);
            },
        };
        let defaults = default_image_choices();
        Ok(
            ImageCreateInfo {
                image_type: defaults.image_type,
                format: info.format,
                width: info.width,
                height: info.height,
                depth: 1,
                mip_levels: info.mip_levels,
                array_layers: layers,
                samples: defaults.samples,
                tiling: defaults.tiling,
                usage: usage_with_transfer_dst(usage_flags),
                sharing_mode: SharingMode::Exclusive.to_vk(),
                initial_layout: ImageLayout::Undefined.to_vk(),
                gpu_private: true,
                dedicated_memory: true,
            },
        )
    }

    /// Says what a view onto `mip_count` mip levels of the image, from
    /// `mip_level` on, is created with.
    pub fn create_image_view(image: u64, info: &TextureInfo, mip_level: u32, mip_count: u32) -> (
        create_info: ImageViewCreateInfo)
        ensures
            create_info == image_view_create_info(image, *info, mip_level, mip_count),
    {
        let view_type = match info.ty {
            TextureType::Cube2d => ImageViewType::Cube,
            TextureType::CubeArray2d => ImageViewType::CubeArray,
            TextureType::Array2d => ImageViewType::Type2dArray,
            TextureType::Texture2d => ImageViewType::Type2d,
        };
        ImageViewCreateInfo {
            image,
            view_type: view_type.to_vk(),
            format: info.format,
            swizzle_r: identity_swizzle(),
            swizzle_g: identity_swizzle(),
            swizzle_b: identity_swizzle(),
            swizzle_a: identity_swizzle(),
            aspect_mask: get_aspect_mask(info.format),
            base_mip_level: mip_level,
            level_count: mip_count,
            base_array_layer: 0,
            layer_count: 1,
        }
    }
}

/// The views in the order of their destruction: the last created first.
fn last_first(views: &Vec<u64>) -> (reversed: Vec<u64>)
    ensures
        reversed@ == views@.reverse(),
{
    let mut reversed: Vec<u64> = Vec::new();
    let mut left: usize = views.len();
    while left > 0
        invariant
            left <= views@.len(),
            reversed@.len() == views@.len() - left,
            forall|k: int|
                0 <= k < reversed@.len() ==> reversed@[k] == views@[views@.len() - 1 - k],
        decreases left,
    {
        left -= 1;
        reversed.push(views[left]);
    }
    assert(reversed@ =~= views@.reverse());
    reversed
}

/// The number of views of a texture.
fn count_views(mip_levels: u32) -> (count: usize)
    ensures
        count == view_count(mip_levels),
{
    if mip_levels == 0 {
        1
    } else {
        mip_levels as usize
    }
}

impl TextureBuilder {
    #[verifier::type_invariant]
    closed spec fn well_formed(&self) -> bool {
        self@.consistent()
    }

    /// What the construction waits for.
    pub fn pending(&self) -> (request: TextureRequest)
        ensures
            self@.consistent(),
            request == self@.pending(),
    {
        proof {
            use_type_invariant(self);
        }
        match self.image {
            None => match Texture::create_image(&self.info, self.usage_flags) {
                Ok(create_info) => TextureRequest::CreateImage(create_info),
                Err(_) => unreached(),
            },
            Some((image, _)) => {
                let created = self.image_views.len();
                if created < count_views(self.info.mip_levels) {
                    if created == 0 {
                        TextureRequest::CreateImageView(
                            Texture::create_image_view(image, &self.info, 0, self.info.mip_levels),
                        )
                    } else {
                        TextureRequest::CreateImageView(
                            Texture::create_image_view(image, &self.info, created as u32, 1),
                        )
                    }
                } else {
                    TextureRequest::CreateSampler(SamplerCache::create_info(&self.sampler_info))
                }
            },
        }
    }

    /// The error that a rejection of the pending request amounts to.
    fn rejection(&self, code: i32) -> (error: ResourceError)
        ensures
            error == self@.rejection(code),
    {
        proof {
            use_type_invariant(self);
        }
        match self.image {
            None => ResourceError::ImageCreation(code),
            Some(_) => if self.image_views.len() < count_views(self.info.mip_levels) {
                ResourceError::ImageViewCreation(code)
            } else {
                ResourceError::SamplerCreation(code)
            },
        }
    }

    /// The finished texture, with the given sampler.
    fn finish(self, sampler: u64) -> (texture: Texture)
        requires
            self@.image is Some,
        ensures
            texture@ == self@.finish(sampler),
    {
        let image_layout = get_image_layout(self.info.format, self.usage_flags);
        match self.image {
            Some((image, allocation)) => Texture {
                info: self.info,
                image_layout,
                image,
                allocation,
                image_views: self.image_views,
                sampler,
                frames_until_gc: 0,
            },
            None => unreached(),
        }
    }

    /// Takes up the outcome of the pending request and says where the
    /// construction stands.
    ///
    /// `outcome` is the object that was created, or the result code of the
    /// driver that rejected it. The sampler is resolved through
    /// `sampler_cache` once the last view exists.
    ///
    /// A failed construction leaves nothing behind: every view and the
    /// image that were created up to the failure are listed for
    /// destruction. The sampler of a texture is never among them: it
    /// belongs to the cache.
    pub fn step(self, sampler_cache: &mut SamplerCache, outcome: Result<Created, i32>) -> (step:
        TextureStep)
        ensures
            self@.consistent(),
            (step@, final(sampler_cache)@) == self@.step(old(sampler_cache)@, outcome),
    {
        proof {
            use_type_invariant(&self);
        }
        let created = match outcome {
            Ok(created) => created,
            Err(code) => {
                let error = self.rejection(code);
                return TextureStep::Failed(self.fail(error, None));
            },
        };
        let views = self.image_views.len();
        let total = count_views(self.info.mip_levels);
        match created {
            Created::Image { image, allocation } => {
                if self.image.is_some() {
                    return TextureStep::Failed(
                        self.fail(ResourceError::UnexpectedOutcome, Some(created)),
                    );
                }
                let next = TextureBuilder {
                    info: self.info,
                    usage_flags: self.usage_flags,
                    sampler_info: self.sampler_info,
                    image: Some((image, allocation)),
                    image_views: self.image_views,
                };
                let request = next.pending();
                TextureStep::Pending(next, request)
            },
            Created::ImageView(view) => {
                if self.image.is_none() || views >= total {
                    return TextureStep::Failed(
                        self.fail(ResourceError::UnexpectedOutcome, Some(created)),
                    );
                }
                let mut image_views = self.image_views;
                image_views.push(view);
                let next = TextureBuilder {
                    info: self.info,
                    usage_flags: self.usage_flags,
                    sampler_info: self.sampler_info,
                    image: self.image,
                    image_views,
                };
                if views + 1 < total {
                    let request = next.pending();
                    TextureStep::Pending(next, request)
                } else {
                    match sampler_cache.get_or_create_sampler(&next.sampler_info) {
                        SamplerRequest::Cached(sampler) => TextureStep::Done(next.finish(sampler)),
                        SamplerRequest::Create(create_info) => TextureStep::Pending(
                            next,
                            TextureRequest::CreateSampler(create_info),
                        ),
                    }
                }
            },
            Created::Sampler(sampler) => {
                if self.image.is_none() || views < total {
                    return TextureStep::Failed(
                        self.fail(ResourceError::UnexpectedOutcome, Some(created)),
                    );
                }
                match sampler_cache.insert(&self.sampler_info, Ok(sampler)) {
                    Ok(sampler) => TextureStep::Done(self.finish(sampler)),
                    Err(error) => TextureStep::Failed(self.fail(error, Some(created))),
                }
            },
        }
    }

    /// Gives up the construction: what was created so far is listed for
    /// destruction, the last view first.
    fn fail(self, error: ResourceError, stray: Option<Created>) -> (failure: TextureFailure)
        ensures
            failure@ == self@.fail(error, stray),
    {
        let image_views = last_first(&self.image_views);
        TextureFailure { error, image_views, image: self.image, stray }
    }
}

impl Texture {
    /// The dimensions and type of the texture.
    pub fn info(&self) -> (info: &TextureInfo)
        ensures
            *info == self@.info,
    {
        &self.info
    }

    /// The layout that the image is meant to be in when it is used.
    pub fn image_layout(&self) -> (layout: i32)
        ensures
            layout == self@.image_layout,
    {
        self.image_layout
    }

    /// The image.
    pub fn image(&self) -> (image: u64)
        ensures
            image == self@.image,
    {
        self.image
    }

    /// The allocation that backs the image.
    pub fn allocation(&self) -> (allocation: u64)
        ensures
            allocation == self@.allocation,
    {
        self.allocation
    }

    /// The views: first the view onto the whole mip chain, then the view
    /// onto each mip level after the first.
    pub fn image_views(&self) -> (views: &Vec<u64>)
        ensures
            views@ == self@.image_views,
    {
        &self.image_views
    }

    /// The sampler, which the cache owns.
    pub fn sampler(&self) -> (sampler: u64)
        ensures
            sampler == self@.sampler,
    {
        self.sampler
    }

    /// The number of frames to wait until the texture is reclaimed.
    pub fn frames_until_gc(&self) -> (frames: u32)
        ensures
            frames == self@.frames_until_gc,
    {
        self.frames_until_gc
    }

    /// Gives up the texture and lists what is to be destroyed: every view,
    /// the last created first, then the image with its allocation. The
    /// sampler stays with the cache.
    pub fn destroy(self) -> (release: TextureRelease)
        ensures
            release.image_views@ == self@.views_to_destroy(),
            release.image == self@.image,
            release.allocation == self@.allocation,
    {
        TextureRelease {
            image_views: last_first(&self.image_views),
            image: self.image,
            allocation: self.allocation,
        }
    }
}

/// A construction starts with nothing created and asks for the image, which
/// leaves as many steps as the texture has views and two more at most.
pub proof fn lemma_begin(info: TextureInfo, usage_flags: u32, sampler_info: SamplerInfo)
    requires
        array_layers(info.ty, info.array_layers) <= u32::MAX,
    ensures
        BuilderState::begin(info, usage_flags, sampler_info) matches StepState::Pending(
            start,
            request,
        ) && {
            &&& start.consistent()
            &&& start.image is None
            &&& start.image_views.len() == 0
            &&& request == TextureRequest::CreateImage(image_create_info(info, usage_flags))
            &&& start.steps_left() == view_count(info.mip_levels) + 2
        },
{
}

/// A construction goes forward: a step that does not end it leaves a
/// consistent construction that waits for its own pending request, keeps
/// everything created before, and has one step less to go.
pub proof fn lemma_step_goes_forward(
    state: BuilderState,
    cache: Map<SamplerInfo, u64>,
    outcome: Result<Created, i32>,
)
    requires
        state.consistent(),
    ensures
        state.steps_left() >= 1,
        state.step(cache, outcome).0 matches StepState::Pending(next, request) ==> {
            &&& next.consistent()
            &&& request == next.pending()
            &&& next.steps_left() == state.steps_left() - 1
            &&& next.info == state.info
            &&& next.usage_flags == state.usage_flags
            &&& next.sampler_info == state.sampler_info
            &&& state.image is Some ==> next.image == state.image
            &&& state.image_views.is_prefix_of(next.image_views)
            &&& state.step(cache, outcome).1 == cache
        },
{
}

/// A completed texture is whole. It has one view onto the whole mip chain
/// and one onto each mip level after the first, its image and its views are
/// those that were created for it, its layout is the one its format and
/// usage call for, its sampler is the one that the cache holds for its
/// parameters, and it is not waiting to be reclaimed.
pub proof fn lemma_done_is_whole(
    state: BuilderState,
    cache: Map<SamplerInfo, u64>,
    outcome: Result<Created, i32>,
)
    requires
        state.consistent(),
    ensures
        state.step(cache, outcome).0 matches StepState::Done(texture) ==> {
            let after = state.step(cache, outcome).1;
            &&& texture.image_views.len() == view_count(state.info.mip_levels)
            &&& state.image_views.is_prefix_of(texture.image_views)
            &&& state.image == Some((texture.image, texture.allocation))
            &&& texture.info == state.info
            &&& texture.image_layout == layout_of(state.info.format, state.usage_flags).code()
            &&& texture.frames_until_gc == 0
            &&& after.contains_key(state.sampler_info)
            &&& after[state.sampler_info] == texture.sampler
            &&& cache.contains_key(state.sampler_info) ==> after == cache
        },
{
}

/// A failed construction leaves nothing behind and changes nothing: the
/// image and every view that were created for the texture are listed for
/// destruction, the views in the reverse of the order of their creation,
/// and the sampler cache is as it was.
pub proof fn lemma_failure_gives_up_everything(
    state: BuilderState,
    cache: Map<SamplerInfo, u64>,
    outcome: Result<Created, i32>,
)
    ensures
        state.step(cache, outcome).0 matches StepState::Failed(failure) ==> {
            &&& failure.image == state.image
            &&& failure.image_views == state.image_views.reverse()
            &&& failure.image_views.len() == state.image_views.len()
            &&& forall|view: u64|
                state.image_views.contains(view) <==> failure.image_views.contains(view)
            &&& state.step(cache, outcome).1 == cache
            &&& outcome is Err ==> failure.stray is None
            &&& outcome matches Ok(created) ==> failure.stray == Some(created)
        },
{
    let views = state.image_views;
    assert forall|view: u64| views.contains(view) <==> views.reverse().contains(view) by {
        if views.contains(view) {
            let i = choose|i: int| 0 <= i < views.len() && views[i] == view;
            assert(views.reverse()[views.len() - 1 - i] == view);
        }
        if views.reverse().contains(view) {
            let i = choose|i: int| 0 <= i < views.reverse().len() && views.reverse()[i] == view;
            assert(views[views.len() - 1 - i] == view);
        }
    }
}

/// The views of a texture cover its mip chain: the first view starts at the
/// first level and spans all of them, and the view at each later place
/// spans the one level of that number.
pub proof fn lemma_views_cover_mip_chain(image: u64, info: TextureInfo, n: int)
    requires
        0 <= n < view_count(info.mip_levels),
    ensures
        nth_view_create_info(image, info, n).image == image,
        nth_view_create_info(image, info, n).base_mip_level == n,
        nth_view_create_info(image, info, n).level_count == if n == 0 {
            info.mip_levels
        } else {
            1
        },
        n > 0 ==> n < info.mip_levels,
{
}

impl StepState {
    /// Where a construction stands after one more outcome. A construction
    /// that is over stays where it is.
    pub open spec fn advance(self, cache: Map<SamplerInfo, u64>, outcome: Result<Created, i32>)
        -> (StepState, Map<SamplerInfo, u64>) {
        match self {
            StepState::Pending(builder, _) => builder.step(cache, outcome),
            _ => (self, cache),
        }
    }

    /// Where a construction stands after a run of outcomes, one for each
    /// step.
    pub open spec fn run(self, cache: Map<SamplerInfo, u64>, outcomes: Seq<Result<Created, i32>>)
        -> (StepState, Map<SamplerInfo, u64>)
        decreases outcomes.len(),
    {
        if outcomes.len() == 0 {
            (self, cache)
        } else {
            let (earlier, cache_earlier) = self.run(cache, outcomes.drop_last());
            earlier.advance(cache_earlier, outcomes.last())
        }
    }

    /// What holds of a construction of the given texture at every step, with
    /// the sampler cache as it then is: while it goes on it is consistent,
    /// waits for its own pending request and has counted the steps that were
    /// taken; once it is done the texture is whole.
    pub open spec fn on_course(
        self,
        cache: Map<SamplerInfo, u64>,
        info: TextureInfo,
        usage_flags: u32,
        sampler_info: SamplerInfo,
        steps_taken: int,
    ) -> bool {
        match self {
            StepState::Pending(builder, request) => {
                &&& builder.consistent()
                &&& request == builder.pending()
                &&& builder.info == info
                &&& builder.usage_flags == usage_flags
                &&& builder.sampler_info == sampler_info
                &&& builder.steps_left() == view_count(info.mip_levels) + 2 - steps_taken
            },
            StepState::Done(texture) => {
                &&& texture.info == info
                &&& texture.image_views.len() == view_count(info.mip_levels)
                &&& texture.image_layout == layout_of(info.format, usage_flags).code()
                &&& texture.frames_until_gc == 0
                &&& cache.contains_key(sampler_info)
                &&& cache[sampler_info] == texture.sampler
            },
            StepState::Failed(_) => true,
        }
    }
}

/// However a construction goes, it stays on course: after any run of
/// outcomes it is consistent, and a texture that it has completed is whole.
/// It has one view onto the whole mip chain and one onto each mip level
/// after the first, the layout that its format and usage call for, and the
/// sampler that the cache holds for its parameters.
pub proof fn lemma_run_stays_on_course(
    info: TextureInfo,
    usage_flags: u32,
    sampler_info: SamplerInfo,
    cache: Map<SamplerInfo, u64>,
    outcomes: Seq<Result<Created, i32>>,
)
    ensures
        ({
            let (state, after) = BuilderState::begin(info, usage_flags, sampler_info).run(
                cache,
                outcomes,
            );
            &&& state.on_course(after, info, usage_flags, sampler_info, outcomes.len() as int)
            &&& state matches StepState::Done(texture) ==> {
                &&& texture.info == info
                &&& texture.image_views.len() == view_count(info.mip_levels)
                &&& texture.image_layout == layout_of(info.format, usage_flags).code()
                &&& texture.frames_until_gc == 0
                &&& after.contains_key(sampler_info)
                &&& after[sampler_info] == texture.sampler
            }
            &&& state is Pending ==> outcomes.len() <= view_count(info.mip_levels) + 1
        }),
    decreases outcomes.len(),
{
    let start = BuilderState::begin(info, usage_flags, sampler_info);
    if outcomes.len() > 0 {
        lemma_run_stays_on_course(info, usage_flags, sampler_info, cache, outcomes.drop_last());
        let (earlier, cache_earlier) = start.run(cache, outcomes.drop_last());
        match earlier {
            StepState::Pending(builder, _) => {
                lemma_step_goes_forward(builder, cache_earlier, outcomes.last());
                lemma_done_is_whole(builder, cache_earlier, outcomes.last());
            },
            _ => {},
        }
    }
}

/// A construction is over after as many steps as the texture has views and
/// two more: one for the image, one for each view, and one for the sampler
/// where the cache holds none.
pub proof fn lemma_run_ends(
    info: TextureInfo,
    usage_flags: u32,
    sampler_info: SamplerInfo,
    cache: Map<SamplerInfo, u64>,
    outcomes: Seq<Result<Created, i32>>,
)
    requires
        outcomes.len() >= view_count(info.mip_levels) + 2,
    ensures
        !(BuilderState::begin(info, usage_flags, sampler_info).run(cache, outcomes).0 is Pending),
{
    lemma_run_stays_on_course(info, usage_flags, sampler_info, cache, outcomes);
}

} // verus!
