use particle_sandbox::pipeline::CompareFunction;
use particle_sandbox::surface::SurfaceConfiguration;
use particle_sandbox::texture::{
    AddressMode, Extent3d, FilterMode, PixelFormat, SamplerDescriptor, TexelCopyBufferLayout,
    Texture2d, TextureCreateError, TextureDescriptor, TextureDimension, TextureUsages,
    TextureWrite, LOD_MAX, LOD_MIN,
};

fn png(width: u32, height: u32, pixels: Vec<u8>) -> Vec<u8> {
    let image = image::RgbaImage::from_raw(width, height, pixels).unwrap();
    let mut bytes = std::io::Cursor::new(Vec::new());
    image::DynamicImage::ImageRgba8(image).write_to(&mut bytes, image::ImageFormat::Png).unwrap();
    bytes.into_inner()
}

fn sampler(filter: FilterMode, compare: Option<CompareFunction>) -> SamplerDescriptor {
    SamplerDescriptor {
        address_mode_u: AddressMode::ClampToEdge,
        address_mode_v: AddressMode::ClampToEdge,
        address_mode_w: AddressMode::ClampToEdge,
        mag_filter: filter,
        min_filter: filter,
        mipmap_filter: FilterMode::Nearest,
        lod_min_clamp: 0.0f32.to_bits(),
        lod_max_clamp: 100.0f32.to_bits(),
        compare,
    }
}

fn config(width: u32, height: u32) -> SurfaceConfiguration {
    SurfaceConfiguration {
        width,
        height,
        format: wgpu::TextureFormat::Bgra8Unorm,
        view_format: wgpu::TextureFormat::Bgra8UnormSrgb,
    }
}

#[test]
fn an_error_carries_its_message() {
    let error = TextureCreateError::new(String::from("no such file"));
    assert_eq!(error.message, "no such file");
    assert_eq!(error.message(), "no such file");
}

#[test]
fn levels_of_detail_run_from_0_to_100() {
    assert_eq!(f32::from_bits(LOD_MIN), 0.0);
    assert_eq!(f32::from_bits(LOD_MAX), 100.0);
}

#[test]
fn from_image_bytes_decodes_the_pixels() {
    let pixels = vec![255, 0, 0, 255, 0, 255, 0, 128, 1, 2, 3, 4, 9, 8, 7, 6, 0, 0, 0, 0, 5, 5, 5, 5];
    let loaded = Texture2d::from_image_bytes(&png(3, 2, pixels.clone()), Some("sprite")).unwrap();
    assert_eq!(loaded.pixels, pixels);
    let size = Extent3d { width: 3, height: 2, depth_or_array_layers: 1 };
    assert_eq!(
        loaded.texture,
        Texture2d {
            texture: TextureDescriptor {
                label: Some("sprite"),
                size,
                mip_level_count: 1,
                sample_count: 1,
                dimension: TextureDimension::D2,
                format: PixelFormat::Rgba8UnormSrgb,
                usage: TextureUsages {
                    copy_dst: true,
                    texture_binding: true,
                    render_attachment: false
                },
            },
            sampler: sampler(FilterMode::Nearest, None),
            size,
        }
    );
    assert_eq!(
        loaded.write,
        TextureWrite {
            mip_level: 0,
            layout: TexelCopyBufferLayout {
                offset: 0,
                bytes_per_row: Some(12),
                rows_per_image: Some(2)
            },
            size,
        }
    );
}

#[test]
fn from_image_bytes_converts_to_rgba() {
    let gray = image::GrayImage::from_raw(2, 1, vec![7, 200]).unwrap();
    let mut bytes = std::io::Cursor::new(Vec::new());
    image::DynamicImage::ImageLuma8(gray).write_to(&mut bytes, image::ImageFormat::Png).unwrap();
    let loaded = Texture2d::from_image_bytes(&bytes.into_inner(), None).unwrap();
    assert_eq!(loaded.pixels, vec![7, 7, 7, 255, 200, 200, 200, 255]);
    assert_eq!(loaded.texture.size, Extent3d { width: 2, height: 1, depth_or_array_layers: 1 });
    assert_eq!(loaded.texture.texture.label, None);
}

#[test]
fn from_image_bytes_refuses_what_is_no_image() {
    let garbage = [1u8, 2, 3, 4, 5];
    let refusal = Texture2d::from_image_bytes(&garbage, None).unwrap_err();
    let cause = image::load_from_memory(&garbage).unwrap_err();
    assert_eq!(refusal.message, format!("Failed to load image from memory: {cause}"));
    assert!(refusal.message.len() > "Failed to load image from memory: ".len());
}

#[test]
fn from_decoded_answers_each_outcome() {
    let bytes = png(1, 1, vec![10, 20, 30, 40]);
    let loaded = Texture2d::from_decoded(image::load_from_memory(&bytes), Some("dot")).unwrap();
    assert_eq!(loaded.pixels, vec![10, 20, 30, 40]);
    assert_eq!(loaded.write.layout.bytes_per_row, Some(4));
    let truncated = &bytes[..bytes.len() / 2];
    let cause = image::load_from_memory(truncated).unwrap_err().to_string();
    let refusal = Texture2d::from_decoded(image::load_from_memory(truncated), None).unwrap_err();
    assert_eq!(refusal.message, format!("Failed to load image from memory: {cause}"));
}

#[test]
fn from_bytes_packs_rows_of_four_byte_texels() {
    let format = PixelFormat::Native(wgpu::TextureFormat::Rgba8Unorm);
    let (texture, write) = Texture2d::from_bytes((640, 480), format, Some("atlas"));
    assert_eq!(
        texture,
        Texture2d::create_texture((640, 480), format, &sampler(FilterMode::Nearest, None), Some("atlas"))
    );
    assert_eq!(
        write,
        TextureWrite {
            mip_level: 0,
            layout: TexelCopyBufferLayout {
                offset: 0,
                bytes_per_row: Some(2560),
                rows_per_image: Some(480)
            },
            size: Extent3d { width: 640, height: 480, depth_or_array_layers: 1 },
        }
    );
    let (_, widest) = Texture2d::from_bytes((u32::MAX / 4, 1), format, None);
    assert_eq!(widest.layout.bytes_per_row, Some(u32::MAX - 3));
}

#[test]
fn create_texture_keeps_the_sampler_it_is_given() {
    let given = SamplerDescriptor {
        address_mode_u: AddressMode::Repeat,
        address_mode_v: AddressMode::MirrorRepeat,
        address_mode_w: AddressMode::ClampToBorder,
        mag_filter: FilterMode::Linear,
        min_filter: FilterMode::Nearest,
        mipmap_filter: FilterMode::Linear,
        lod_min_clamp: 1.0f32.to_bits(),
        lod_max_clamp: 2.0f32.to_bits(),
        compare: Some(CompareFunction::Greater),
    };
    let texture = Texture2d::create_texture((16, 32), PixelFormat::Rgba8UnormSrgb, &given, None);
    assert_eq!(texture.sampler, given);
    assert_eq!(texture.size, Extent3d { width: 16, height: 32, depth_or_array_layers: 1 });
    assert_eq!(texture.texture.size, texture.size);
    assert_eq!(texture.texture.format, PixelFormat::Rgba8UnormSrgb);
    assert_eq!(texture.texture.sample_count, 1);
    assert_eq!(texture.texture.mip_level_count, 1);
    assert_eq!(
        texture.texture.usage,
        TextureUsages { copy_dst: true, texture_binding: true, render_attachment: false }
    );
}

#[test]
fn create_texture_keeps_the_low_bits_of_an_extent() {
    let wide = (u32::MAX as u64 + 6) as usize;
    let texture = Texture2d::create_texture(
        (wide, 3),
        PixelFormat::Rgba8UnormSrgb,
        &sampler(FilterMode::Nearest, None),
        None,
    );
    assert_eq!(texture.size.width, wide as u32);
    assert_eq!(texture.size.height, 3);
}

#[test]
fn a_render_texture_has_the_size_and_format_of_the_surface() {
    let texture = Texture2d::create_render_texture(&config(800, 600), Some("scene"));
    let size = Extent3d { width: 800, height: 600, depth_or_array_layers: 1 };
    assert_eq!(
        texture,
        Texture2d {
            texture: TextureDescriptor {
                label: Some("scene"),
                size,
                mip_level_count: 1,
                sample_count: 1,
                dimension: TextureDimension::D2,
                format: PixelFormat::Native(wgpu::TextureFormat::Bgra8Unorm),
                usage: TextureUsages {
                    copy_dst: false,
                    texture_binding: true,
                    render_attachment: true
                },
            },
            sampler: sampler(FilterMode::Linear, Some(CompareFunction::LessEqual)),
            size,
        }
    );
    let empty = Texture2d::create_render_texture(&config(0, 0), None);
    assert_eq!(empty.size, Extent3d { width: 0, height: 0, depth_or_array_layers: 1 });
}

#[test]
fn a_depth_texture_is_never_empty() {
    assert_eq!(Texture2d::DEPTH_FORMAT, PixelFormat::Depth32Float);
    let texture = Texture2d::create_depth_texture(&config(0, 600), 8, Some("depth"));
    let size = Extent3d { width: 1, height: 600, depth_or_array_layers: 1 };
    assert_eq!(
        texture,
        Texture2d {
            texture: TextureDescriptor {
                label: Some("depth"),
                size,
                mip_level_count: 1,
                sample_count: 8,
                dimension: TextureDimension::D2,
                format: PixelFormat::Depth32Float,
                usage: TextureUsages {
                    copy_dst: false,
                    texture_binding: true,
                    render_attachment: true
                },
            },
            sampler: sampler(FilterMode::Linear, Some(CompareFunction::LessEqual)),
            size,
        }
    );
    let flat = Texture2d::create_depth_texture(&config(5, 0), 1, None);
    assert_eq!(flat.size, Extent3d { width: 5, height: 1, depth_or_array_layers: 1 });
}

#[test]
fn from_decoded_refuses_rows_that_are_too_long() {
    let widest = image::RgbaImage::new(u32::MAX / 4, 0);
    let loaded =
        Texture2d::from_decoded(Ok(image::DynamicImage::ImageRgba8(widest)), Some("wide")).unwrap();
    assert_eq!(loaded.write.layout.bytes_per_row, Some(u32::MAX - 3));
    assert_eq!(loaded.pixels, Vec::<u8>::new());

    let too_wide = image::RgbaImage::new(u32::MAX / 4 + 1, 0);
    let refusal =
        Texture2d::from_decoded(Ok(image::DynamicImage::ImageRgba8(too_wide)), None).unwrap_err();
    assert_eq!(refusal.message, "Image is too wide for a texture");
}
