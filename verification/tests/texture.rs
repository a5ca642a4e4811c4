use ash::vk;
use oxidation::backend::{CompareOp, SamplerAddressMode, SamplerFilter, SamplerInfo};
use oxidation::driver::Driver;
use oxidation::error::ResourceError;
use oxidation::sampler_cache::{SamplerCache, SamplerRequest};
use oxidation::texture::{
    checked_array_layers, compute_array_layers, get_aspect_mask, get_image_layout, Created,
    ImageCreateInfo, ImageViewCreateInfo, Texture, TextureInfo, TextureRelease, TextureRequest,
    TextureStep, TextureType,
};

fn sampler_info() -> SamplerInfo {
    SamplerInfo {
        min_filter: SamplerFilter::Linear,
        mag_filter: SamplerFilter::Linear,
        addr_mode_u: SamplerAddressMode::Repeat,
        addr_mode_v: SamplerAddressMode::Repeat,
        addr_mode_w: SamplerAddressMode::Repeat,
        compare_op: CompareOp::Never,
        anisotropy: 1,
        mip_levels: 4,
        enable_compare: false,
        enable_anisotropy: false,
    }
}

fn color_texture(mip_levels: u32) -> TextureInfo {
    TextureInfo {
        width: 256,
        height: 128,
        mip_levels,
        format: vk::Format::R8G8B8A8_UNORM.as_raw(),
        ..Default::default()
    }
}

/// Carries a construction through: every request is answered with a new object.
/// The objects are numbered from 100 on, in the order of their creation.
fn build(info: &TextureInfo, usage: vk::ImageUsageFlags, cache: &mut SamplerCache) -> (Texture, Vec<TextureRequest>) {
    let mut requests = Vec::new();
    let mut next_object = 100;
    let mut step = Texture::new(info, usage.as_raw(), &sampler_info());
    loop {
        match step {
            TextureStep::Pending(builder, request) => {
                requests.push(request);
                let created = match request {
                    TextureRequest::CreateImage(_) => {
                        Created::Image { image: next_object, allocation: next_object + 1000 }
                    }
                    TextureRequest::CreateImageView(_) => Created::ImageView(next_object),
                    TextureRequest::CreateSampler(_) => Created::Sampler(next_object),
                };
                next_object += 1;
                step = builder.step(cache, Ok(created));
            }
            TextureStep::Done(texture) => return (texture, requests),
            TextureStep::Failed(failure) => panic!("construction failed: {:?}", failure),
        }
    }
}

#[test]
fn default_texture_info() {
    let info = TextureInfo::default();
    assert_eq!(info.width, 0);
    assert_eq!(info.height, 0);
    assert_eq!(info.mip_levels, 1);
    assert_eq!(info.array_layers, 1);
    assert_eq!(info.format, vk::Format::UNDEFINED.as_raw());
    assert_eq!(info.ty, TextureType::Texture2d);
}

#[test]
fn cube_has_six_layers_whatever_is_requested() {
    assert_eq!(compute_array_layers(&TextureType::Cube2d, 5), 6);
    assert_eq!(compute_array_layers(&TextureType::Cube2d, 0), 6);
}

#[test]
fn cube_array_has_six_layers_for_each_cube() {
    assert_eq!(compute_array_layers(&TextureType::CubeArray2d, 3), 18);
    assert_eq!(compute_array_layers(&TextureType::CubeArray2d, 0), 0);
}

#[test]
fn plain_texture_has_one_layer_and_array_what_is_requested() {
    assert_eq!(compute_array_layers(&TextureType::Texture2d, 5), 1);
    assert_eq!(compute_array_layers(&TextureType::Array2d, 5), 5);
    assert_eq!(compute_array_layers(&TextureType::Array2d, u32::MAX), u32::MAX);
}

#[test]
fn array_layers_at_the_limit_of_counting() {
    assert_eq!(checked_array_layers(&TextureType::CubeArray2d, 715_827_882), Some(4_294_967_292));
    assert_eq!(checked_array_layers(&TextureType::CubeArray2d, 715_827_883), None);
    assert_eq!(checked_array_layers(&TextureType::CubeArray2d, u32::MAX), None);
    assert_eq!(checked_array_layers(&TextureType::Cube2d, u32::MAX), Some(6));
    assert_eq!(checked_array_layers(&TextureType::Array2d, u32::MAX), Some(u32::MAX));
    assert_eq!(checked_array_layers(&TextureType::Texture2d, u32::MAX), Some(1));
}

#[test]
fn depth_and_stencil_formats() {
    let depth = [
        vk::Format::D16_UNORM,
        vk::Format::D32_SFLOAT,
        vk::Format::D32_SFLOAT_S8_UINT,
        vk::Format::D24_UNORM_S8_UINT,
        vk::Format::D16_UNORM_S8_UINT,
        vk::Format::X8_D24_UNORM_PACK32,
    ];
    let stencil = [
        vk::Format::S8_UINT,
        vk::Format::D16_UNORM_S8_UINT,
        vk::Format::D24_UNORM_S8_UINT,
        vk::Format::D32_SFLOAT_S8_UINT,
    ];
    let all = [
        vk::Format::UNDEFINED,
        vk::Format::R8G8B8A8_UNORM,
        vk::Format::B8G8R8A8_UNORM,
        vk::Format::D16_UNORM,
        vk::Format::X8_D24_UNORM_PACK32,
        vk::Format::D32_SFLOAT,
        vk::Format::S8_UINT,
        vk::Format::D16_UNORM_S8_UINT,
        vk::Format::D24_UNORM_S8_UINT,
        vk::Format::D32_SFLOAT_S8_UINT,
        vk::Format::BC1_RGB_UNORM_BLOCK,
    ];
    for format in all {
        assert_eq!(Driver::is_depth_format(format.as_raw()), depth.contains(&format));
        assert_eq!(Driver::is_stencil_format(format.as_raw()), stencil.contains(&format));
    }
}

#[test]
fn aspect_mask_follows_the_format() {
    let both = (vk::ImageAspectFlags::DEPTH | vk::ImageAspectFlags::STENCIL).as_raw();
    assert_eq!(get_aspect_mask(vk::Format::D32_SFLOAT_S8_UINT.as_raw()), both);
    assert_eq!(get_aspect_mask(vk::Format::D24_UNORM_S8_UINT.as_raw()), both);
    assert_eq!(get_aspect_mask(vk::Format::D16_UNORM_S8_UINT.as_raw()), both);
    assert_eq!(get_aspect_mask(vk::Format::D32_SFLOAT.as_raw()), vk::ImageAspectFlags::DEPTH.as_raw());
    assert_eq!(get_aspect_mask(vk::Format::D16_UNORM.as_raw()), vk::ImageAspectFlags::DEPTH.as_raw());
    assert_eq!(
        get_aspect_mask(vk::Format::X8_D24_UNORM_PACK32.as_raw()),
        vk::ImageAspectFlags::DEPTH.as_raw()
    );
    assert_eq!(get_aspect_mask(vk::Format::R8G8B8A8_UNORM.as_raw()), vk::ImageAspectFlags::COLOR.as_raw());
    assert_eq!(get_aspect_mask(vk::Format::S8_UINT.as_raw()), vk::ImageAspectFlags::COLOR.as_raw());
    assert_eq!(get_aspect_mask(vk::Format::UNDEFINED.as_raw()), vk::ImageAspectFlags::COLOR.as_raw());
    assert_eq!(both, 6);
}

#[test]
fn image_layout_follows_format_and_usage() {
    let sampled = vk::ImageUsageFlags::SAMPLED.as_raw();
    let storage = (vk::ImageUsageFlags::SAMPLED | vk::ImageUsageFlags::STORAGE).as_raw();
    let color = vk::Format::R8G8B8A8_UNORM.as_raw();
    assert_eq!(
        get_image_layout(vk::Format::D32_SFLOAT.as_raw(), sampled),
        vk::ImageLayout::DEPTH_STENCIL_ATTACHMENT_OPTIMAL.as_raw()
    );
    assert_eq!(
        get_image_layout(vk::Format::S8_UINT.as_raw(), storage),
        vk::ImageLayout::DEPTH_STENCIL_ATTACHMENT_OPTIMAL.as_raw()
    );
    assert_eq!(get_image_layout(color, storage), vk::ImageLayout::GENERAL.as_raw());
    assert_eq!(get_image_layout(color, sampled), vk::ImageLayout::SHADER_READ_ONLY_OPTIMAL.as_raw());
    assert_eq!(get_image_layout(color, 0), vk::ImageLayout::SHADER_READ_ONLY_OPTIMAL.as_raw());
    assert_eq!(get_image_layout(color, 0), 5);
}

#[test]
fn image_is_created_as_a_transfer_target() {
    let info = TextureInfo {
        width: 64,
        height: 32,
        mip_levels: 3,
        array_layers: 2,
        format: vk::Format::D32_SFLOAT.as_raw(),
        ty: TextureType::CubeArray2d,
    };
    let usage = vk::ImageUsageFlags::DEPTH_STENCIL_ATTACHMENT;
    let create_info = Texture::create_image(&info, usage.as_raw()).unwrap();
    assert_eq!(
        create_info,
        ImageCreateInfo {
            image_type: vk::ImageType::TYPE_2D.as_raw(),
            format: vk::Format::D32_SFLOAT.as_raw(),
            width: 64,
            height: 32,
            depth: 1,
            mip_levels: 3,
            array_layers: 12,
            samples: vk::SampleCountFlags::TYPE_1.as_raw(),
            tiling: vk::ImageTiling::OPTIMAL.as_raw(),
            usage: (vk::ImageUsageFlags::TRANSFER_DST | usage).as_raw(),
            sharing_mode: vk::SharingMode::EXCLUSIVE.as_raw(),
            initial_layout: vk::ImageLayout::UNDEFINED.as_raw(),
            gpu_private: true,
            dedicated_memory: true,
        }
    );
    assert_eq!(create_info.usage, 0b10_0010);
}

#[test]
fn image_with_uncountable_layers_is_an_error() {
    let info = TextureInfo { array_layers: u32::MAX, ty: TextureType::CubeArray2d, ..color_texture(1) };
    assert_eq!(Texture::create_image(&info, 0), Err(ResourceError::ArrayLayersOutOfRange));
    match Texture::new(&info, 0, &sampler_info()) {
        TextureStep::Failed(failure) => {
            assert_eq!(failure.error, ResourceError::ArrayLayersOutOfRange);
            assert!(failure.image_views.is_empty());
            assert_eq!(failure.image, None);
            assert_eq!(failure.stray, None);
        }
        other => panic!("unexpected step: {:?}", other),
    }
}

#[test]
fn image_view_follows_the_shape_of_the_texture() {
    let shapes = [
        (TextureType::Texture2d, vk::ImageViewType::TYPE_2D),
        (TextureType::Array2d, vk::ImageViewType::TYPE_2D_ARRAY),
        (TextureType::Cube2d, vk::ImageViewType::CUBE),
        (TextureType::CubeArray2d, vk::ImageViewType::CUBE_ARRAY),
    ];
    for (ty, view_type) in shapes {
        let info = TextureInfo { ty, ..color_texture(4) };
        let view = Texture::create_image_view(9, &info, 2, 1);
        assert_eq!(
            view,
            ImageViewCreateInfo {
                image: 9,
                view_type: view_type.as_raw(),
                format: vk::Format::R8G8B8A8_UNORM.as_raw(),
                swizzle_r: vk::ComponentSwizzle::IDENTITY.as_raw(),
                swizzle_g: vk::ComponentSwizzle::IDENTITY.as_raw(),
                swizzle_b: vk::ComponentSwizzle::IDENTITY.as_raw(),
                swizzle_a: vk::ComponentSwizzle::IDENTITY.as_raw(),
                aspect_mask: vk::ImageAspectFlags::COLOR.as_raw(),
                base_mip_level: 2,
                level_count: 1,
                base_array_layer: 0,
                layer_count: 1,
            }
        );
    }
}

#[test]
fn four_mip_levels_give_four_views() {
    let mut cache = SamplerCache::new();
    let info = color_texture(4);
    let (texture, requests) = build(&info, vk::ImageUsageFlags::SAMPLED, &mut cache);
    assert_eq!(texture.image_views(), &vec![101, 102, 103, 104]);
    assert_eq!(requests.len(), 6);
    assert_eq!(requests[0], TextureRequest::CreateImage(Texture::create_image(&info, vk::ImageUsageFlags::SAMPLED.as_raw()).unwrap()));
    assert_eq!(requests[1], TextureRequest::CreateImageView(Texture::create_image_view(100, &info, 0, 4)));
    assert_eq!(requests[2], TextureRequest::CreateImageView(Texture::create_image_view(100, &info, 1, 1)));
    assert_eq!(requests[3], TextureRequest::CreateImageView(Texture::create_image_view(100, &info, 2, 1)));
    assert_eq!(requests[4], TextureRequest::CreateImageView(Texture::create_image_view(100, &info, 3, 1)));
    assert_eq!(requests[5], TextureRequest::CreateSampler(SamplerCache::create_info(&sampler_info())));
}

#[test]
fn one_mip_level_gives_one_view() {
    let mut cache = SamplerCache::new();
    let info = color_texture(1);
    let (texture, requests) = build(&info, vk::ImageUsageFlags::SAMPLED, &mut cache);
    assert_eq!(texture.image_views(), &vec![101]);
    assert_eq!(requests.len(), 3);
    assert_eq!(requests[1], TextureRequest::CreateImageView(Texture::create_image_view(100, &info, 0, 1)));
}

#[test]
fn no_mip_level_gives_the_view_onto_the_whole_chain() {
    let mut cache = SamplerCache::new();
    let info = color_texture(0);
    let (texture, requests) = build(&info, vk::ImageUsageFlags::SAMPLED, &mut cache);
    assert_eq!(texture.image_views(), &vec![101]);
    assert_eq!(requests[1], TextureRequest::CreateImageView(Texture::create_image_view(100, &info, 0, 0)));
}

#[test]
fn finished_texture_holds_what_was_created_for_it() {
    let mut cache = SamplerCache::new();
    let info = color_texture(2);
    let usage = vk::ImageUsageFlags::SAMPLED | vk::ImageUsageFlags::STORAGE;
    let (texture, _) = build(&info, usage, &mut cache);
    assert_eq!(texture.info(), &info);
    assert_eq!(texture.image(), 100);
    assert_eq!(texture.allocation(), 1100);
    assert_eq!(texture.image_views(), &vec![101, 102]);
    assert_eq!(texture.sampler(), 103);
    assert_eq!(texture.image_layout(), vk::ImageLayout::GENERAL.as_raw());
    assert_eq!(texture.frames_until_gc(), 0);
    assert_eq!(cache.get_or_create_sampler(&sampler_info()), SamplerRequest::Cached(103));
}

#[test]
fn destroyed_texture_gives_up_views_and_image_but_not_the_sampler() {
    let mut cache = SamplerCache::new();
    let (texture, _) = build(&color_texture(3), vk::ImageUsageFlags::SAMPLED, &mut cache);
    assert_eq!(texture.sampler(), 104);
    assert_eq!(
        texture.destroy(),
        TextureRelease { image_views: vec![103, 102, 101], image: 100, allocation: 1100 }
    );
    assert_eq!(cache.get_or_create_sampler(&sampler_info()), SamplerRequest::Cached(104));
}

#[test]
fn textures_with_the_same_parameters_share_the_sampler() {
    let mut cache = SamplerCache::new();
    let (first, _) = build(&color_texture(1), vk::ImageUsageFlags::SAMPLED, &mut cache);
    let (second, requests) = build(&color_texture(3), vk::ImageUsageFlags::SAMPLED, &mut cache);
    assert_eq!(first.sampler(), 102);
    assert_eq!(second.sampler(), 102);
    assert_eq!(cache.len(), 1);
    assert_eq!(requests.len(), 4);
    assert!(requests.iter().all(|r| !matches!(r, TextureRequest::CreateSampler(_))));
}

fn pending(step: TextureStep) -> oxidation::texture::TextureBuilder {
    match step {
        TextureStep::Pending(builder, _) => builder,
        other => panic!("unexpected step: {:?}", other),
    }
}

#[test]
fn rejected_image_leaves_nothing_to_destroy() {
    let mut cache = SamplerCache::new();
    let builder = pending(Texture::new(&color_texture(3), 0, &sampler_info()));
    let code = vk::Result::ERROR_OUT_OF_DEVICE_MEMORY.as_raw();
    match builder.step(&mut cache, Err(code)) {
        TextureStep::Failed(failure) => {
            assert_eq!(failure.error, ResourceError::ImageCreation(code));
            assert!(failure.image_views.is_empty());
            assert_eq!(failure.image, None);
            assert_eq!(failure.stray, None);
        }
        other => panic!("unexpected step: {:?}", other),
    }
    assert_eq!(cache.len(), 0);
}

#[test]
fn rejected_view_gives_up_image_and_earlier_views() {
    let mut cache = SamplerCache::new();
    let builder = pending(Texture::new(&color_texture(4), 0, &sampler_info()));
    let builder = pending(builder.step(&mut cache, Ok(Created::Image { image: 1, allocation: 2 })));
    let builder = pending(builder.step(&mut cache, Ok(Created::ImageView(10))));
    let builder = pending(builder.step(&mut cache, Ok(Created::ImageView(11))));
    let code = vk::Result::ERROR_OUT_OF_HOST_MEMORY.as_raw();
    match builder.step(&mut cache, Err(code)) {
        TextureStep::Failed(failure) => {
            assert_eq!(failure.error, ResourceError::ImageViewCreation(code));
            assert_eq!(failure.image_views, vec![11, 10]);
            assert_eq!(failure.image, Some((1, 2)));
            assert_eq!(failure.stray, None);
        }
        other => panic!("unexpected step: {:?}", other),
    }
}

#[test]
fn rejected_sampler_gives_up_image_and_views() {
    let mut cache = SamplerCache::new();
    let builder = pending(Texture::new(&color_texture(2), 0, &sampler_info()));
    let builder = pending(builder.step(&mut cache, Ok(Created::Image { image: 1, allocation: 2 })));
    let builder = pending(builder.step(&mut cache, Ok(Created::ImageView(10))));
    let builder = pending(builder.step(&mut cache, Ok(Created::ImageView(11))));
    assert!(matches!(builder.pending(), TextureRequest::CreateSampler(_)));
    let code = vk::Result::ERROR_TOO_MANY_OBJECTS.as_raw();
    match builder.step(&mut cache, Err(code)) {
        TextureStep::Failed(failure) => {
            assert_eq!(failure.error, ResourceError::SamplerCreation(code));
            assert_eq!(failure.image_views, vec![11, 10]);
            assert_eq!(failure.image, Some((1, 2)));
            assert_eq!(failure.stray, None);
        }
        other => panic!("unexpected step: {:?}", other),
    }
    assert_eq!(cache.len(), 0);
}

#[test]
fn sampler_that_was_cached_meanwhile_is_handed_back() {
    let mut cache = SamplerCache::new();
    let builder = pending(Texture::new(&color_texture(1), 0, &sampler_info()));
    let builder = pending(builder.step(&mut cache, Ok(Created::Image { image: 1, allocation: 2 })));
    let builder = pending(builder.step(&mut cache, Ok(Created::ImageView(10))));
    assert_eq!(cache.insert(&sampler_info(), Ok(77)), Ok(77));
    match builder.step(&mut cache, Ok(Created::Sampler(78))) {
        TextureStep::Failed(failure) => {
            assert_eq!(failure.error, ResourceError::SamplerAlreadyCached);
            assert_eq!(failure.image_views, vec![10]);
            assert_eq!(failure.image, Some((1, 2)));
            assert_eq!(failure.stray, Some(Created::Sampler(78)));
        }
        other => panic!("unexpected step: {:?}", other),
    }
    assert_eq!(cache.get_or_create_sampler(&sampler_info()), SamplerRequest::Cached(77));
}

#[test]
fn object_of_another_kind_ends_the_construction() {
    let mut cache = SamplerCache::new();
    let builder = pending(Texture::new(&color_texture(2), 0, &sampler_info()));
    match builder.step(&mut cache, Ok(Created::ImageView(5))) {
        TextureStep::Failed(failure) => {
            assert_eq!(failure.error, ResourceError::UnexpectedOutcome);
            assert!(failure.image_views.is_empty());
            assert_eq!(failure.image, None);
            assert_eq!(failure.stray, Some(Created::ImageView(5)));
        }
        other => panic!("unexpected step: {:?}", other),
    }

    let builder = pending(Texture::new(&color_texture(2), 0, &sampler_info()));
    let builder = pending(builder.step(&mut cache, Ok(Created::Image { image: 1, allocation: 2 })));
    let second_image = Created::Image { image: 3, allocation: 4 };
    match builder.step(&mut cache, Ok(second_image)) {
        TextureStep::Failed(failure) => {
            assert_eq!(failure.error, ResourceError::UnexpectedOutcome);
            assert_eq!(failure.image, Some((1, 2)));
            assert_eq!(failure.stray, Some(second_image));
        }
        other => panic!("unexpected step: {:?}", other),
    }

    let builder = pending(Texture::new(&color_texture(2), 0, &sampler_info()));
    let builder = pending(builder.step(&mut cache, Ok(Created::Image { image: 1, allocation: 2 })));
    let builder = pending(builder.step(&mut cache, Ok(Created::ImageView(10))));
    match builder.step(&mut cache, Ok(Created::Sampler(9))) {
        TextureStep::Failed(failure) => {
            assert_eq!(failure.error, ResourceError::UnexpectedOutcome);
            assert_eq!(failure.image_views, vec![10]);
            assert_eq!(failure.image, Some((1, 2)));
            assert_eq!(failure.stray, Some(Created::Sampler(9)));
        }
        other => panic!("unexpected step: {:?}", other),
    }
    assert_eq!(cache.len(), 0);
}
