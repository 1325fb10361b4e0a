//! Texture descriptions: what to create for a render target, a depth target
//! or a sampled image, and how to fill a texture from decoded pixels.

use vstd::prelude::*;
use vstd::string::StringExecFns;
use crate::pipeline::CompareFunction;
use crate::surface::SurfaceConfiguration;

verus! {

/// The pixel format of a surface, as the device library defines it.
#[verifier::external_type_specification]
#[verifier::external_body]
pub struct ExTextureFormat(wgpu::TextureFormat);

/// A decoded image.
#[verifier::external_type_specification]
#[verifier::external_body]
pub struct ExDynamicImage(image::DynamicImage);

/// Why an image could not be decoded.
#[verifier::external_type_specification]
#[verifier::external_body]
pub struct ExImageError(image::ImageError);

/// The pixels of an image as `image::DynamicImage::to_rgba8` returns them.
pub uninterp spec fn rgba8_of(image: image::DynamicImage) -> Seq<u8>;

/// The width and height of an image in pixels.
pub uninterp spec fn dimensions_of(image: image::DynamicImage) -> (u32, u32);

/// Decodes an image with `image::load_from_memory`, which guesses the format
/// from the bytes. Nothing is claimed of the outcome: which formats are
/// known can change while the process runs.
#[verifier::external_body]
fn load_from_memory(bytes: &[u8]) -> (result: Result<image::DynamicImage, image::ImageError>) {
    image::load_from_memory(bytes)
}

/// Converts an image to 8-bit RGBA with `image::DynamicImage::to_rgba8` and
/// hands out the raw buffer of the copy.
#[verifier::external_body]
fn to_rgba8(image: &image::DynamicImage) -> (pixels: Vec<u8>)
    ensures
        pixels@ == rgba8_of(*image),
{
    image.to_rgba8().into_raw()
}

/// Reads width and height with `image::GenericImageView::dimensions`.
#[verifier::external_body]
fn dimensions(image: &image::DynamicImage) -> (size: (u32, u32))
    ensures
        size == dimensions_of(*image),
{
    image::GenericImageView::dimensions(image)
}

/// Renders a decoding error as text, as its `Display` impl writes it.
/// Nothing is claimed of the text: part of it may come from the system.
#[verifier::external_body]
fn describe(error: &image::ImageError) -> (text: String) {
    error.to_string()
}

/// Why a texture could not be created.
#[derive(Debug, Clone)]
pub struct TextureCreateError {
    pub message: String,
}

impl TextureCreateError {
    /// Wraps `message` in an error.
    pub fn new(message: String) -> (e: Self)
        ensures
            e.message == message,
    {
        Self { message }
    }

    /// The message of the error.
    pub fn message(&self) -> (text: &str)
        ensures
            text@ == self.message@,
    {
        self.message.as_str()
    }
}

/// The pixel format of a texture.
#[derive(Clone, Copy, Debug, PartialEq, Eq)]
pub enum PixelFormat {
    /// A format taken over from the surface.
    Native(wgpu::TextureFormat),
    /// Red, green, blue and alpha, 8 bits each, sRGB encoded.
    Rgba8UnormSrgb,
    /// Depth as one 32-bit float.
    Depth32Float,
}

/// Width, height and depth of a texture.
#[derive(Clone, Copy, Debug, PartialEq, Eq, Structural)]
pub struct Extent3d {
    pub width: u32,
    pub height: u32,
    pub depth_or_array_layers: u32,
}

/// The number of dimensions of a texture.
#[derive(Clone, Copy, Debug, PartialEq, Eq, Structural)]
pub enum TextureDimension {
    D1,
    D2,
    D3,
}

/// What a texture may be used for.
#[derive(Clone, Copy, Debug, PartialEq, Eq, Structural)]
pub struct TextureUsages {
    pub copy_dst: bool,
    pub texture_binding: bool,
    pub render_attachment: bool,
}

/// A texture to create.
#[derive(Clone, Copy, Debug, PartialEq, Eq)]
pub struct TextureDescriptor<'a> {
    pub label: Option<&'a str>,
    pub size: Extent3d,
    pub mip_level_count: u32,
    pub sample_count: u32,
    pub dimension: TextureDimension,
    pub format: PixelFormat,
    pub usage: TextureUsages,
}

/// What a sampler does with coordinates outside the texture.
#[derive(Clone, Copy, Debug, PartialEq, Eq, Structural)]
pub enum AddressMode {
    ClampToEdge,
    Repeat,
    MirrorRepeat,
    ClampToBorder,
}

/// How a sampler picks a value between texels.
#[derive(Clone, Copy, Debug, PartialEq, Eq, Structural)]
pub enum FilterMode {
    Nearest,
    Linear,
}

/// A sampler to create.
#[derive(Clone, Copy, Debug, PartialEq, Eq, Structural)]
pub struct SamplerDescriptor {
    pub address_mode_u: AddressMode,
    pub address_mode_v: AddressMode,
    pub address_mode_w: AddressMode,
    pub mag_filter: FilterMode,
    pub min_filter: FilterMode,
    pub mipmap_filter: FilterMode,
    /// Bit pattern of the smallest level of detail.
    pub lod_min_clamp: u32,
    /// Bit pattern of the largest level of detail.
    pub lod_max_clamp: u32,
    /// The comparison of a comparison sampler.
    pub compare: Option<CompareFunction>,
}

/// Bit pattern of `0.0`.
pub const LOD_MIN: u32 = 0;

/// Bit pattern of `100.0`.
pub const LOD_MAX: u32 = 0x42C8_0000;

/// A sampler that clamps to the edge on every axis and filters the levels
/// of detail 0 to 100 with `filter`, picking the nearest mip level.
pub open spec fn clamping_sampler(filter: FilterMode, compare: Option<CompareFunction>)
    -> SamplerDescriptor {
    SamplerDescriptor {
        address_mode_u: AddressMode::ClampToEdge,
        address_mode_v: AddressMode::ClampToEdge,
        address_mode_w: AddressMode::ClampToEdge,
        mag_filter: filter,
        min_filter: filter,
        mipmap_filter: FilterMode::Nearest,
        lod_min_clamp: LOD_MIN,
        lod_max_clamp: LOD_MAX,
        compare,
    }
}

/// How the bytes handed to a texture write are laid out.
#[derive(Clone, Copy, Debug, PartialEq, Eq, Structural)]
pub struct TexelCopyBufferLayout {
    pub offset: u64,
    pub bytes_per_row: Option<u32>,
    pub rows_per_image: Option<u32>,
}

/// A write of pixel data into mip level `mip_level` of a texture, starting
/// at its origin and covering `size`.
#[derive(Clone, Copy, Debug, PartialEq, Eq, Structural)]
pub struct TextureWrite {
    pub mip_level: u32,
    pub layout: TexelCopyBufferLayout,
    pub size: Extent3d,
}

/// A 2D texture with the sampler that reads it.
#[derive(Clone, Copy, Debug, PartialEq, Eq)]
pub struct Texture2d<'a> {
    pub texture: TextureDescriptor<'a>,
    pub sampler: SamplerDescriptor,
    pub size: Extent3d,
}

/// A texture decoded from an encoded image, with the pixels to write into it.
#[derive(Debug)]
pub struct LoadedTexture<'a> {
    pub texture: Texture2d<'a>,
    pub write: TextureWrite,
    /// The pixels as 8-bit RGBA.
    pub pixels: Vec<u8>,
}

/// One layer of `width` by `height` texels.
pub open spec fn layer(width: u32, height: u32) -> Extent3d {
    Extent3d { width, height, depth_or_array_layers: 1 }
}

/// A single-sampled 2D texture of `size` without mip levels.
pub open spec fn plain_texture<'a>(
    label: Option<&'a str>,
    size: Extent3d,
    sample_count: u32,
    format: PixelFormat,
    usage: TextureUsages,
) -> TextureDescriptor<'a> {
    TextureDescriptor {
        label,
        size,
        mip_level_count: 1,
        sample_count,
        dimension: TextureDimension::D2,
        format,
        usage,
    }
}

/// The texture that [`Texture2d::create_texture`] describes.
pub open spec fn sampled_texture<'a>(
    label: Option<&'a str>,
    size: Extent3d,
    format: PixelFormat,
    sampler: SamplerDescriptor,
) -> Texture2d<'a> {
    Texture2d {
        texture: plain_texture(
            label,
            size,
            1,
            format,
            TextureUsages { copy_dst: true, texture_binding: true, render_attachment: false },
        ),
        sampler,
        size,
    }
}

/// The write that fills a texture of `width` by `height` texels of four
/// bytes from tightly packed rows.
pub open spec fn packed_write(width: u32, height: u32) -> TextureWrite {
    TextureWrite {
        mip_level: 0,
        layout: TexelCopyBufferLayout {
            offset: 0,
            bytes_per_row: Some((4 * width) as u32),
            rows_per_image: Some(height),
        },
        size: layer(width, height),
    }
}

/// The texture and the write that [`Texture2d::from_bytes`] describes.
pub open spec fn pixel_texture<'a>(label: Option<&'a str>, size: (u32, u32), format: PixelFormat)
    -> (Texture2d<'a>, TextureWrite) {
    (
        sampled_texture(
            label,
            layer(size.0, size.1),
            format,
            clamping_sampler(FilterMode::Nearest, None),
        ),
        packed_write(size.0, size.1),
    )
}

/// Whether a row of `width` texels of four bytes has a length that fits the
/// 32 bits of a texture write.
pub open spec fn row_fits(width: u32) -> bool {
    4 * width <= u32::MAX
}

/// Whether `message` is the refusal of an image that could not be decoded:
/// the fixed words, then what the decoder has to say.
pub open spec fn decoding_refusal(message: Seq<char>) -> bool {
    exists|text: Seq<char>| message == #[trigger] ("Failed to load image from memory: "@ + text)
}

/// What [`Texture2d::from_decoded`] answers for each outcome of decoding: the
/// decoder's refusal, or a refusal of an image whose rows are too long to
/// write, or else the texture with the decoded pixels.
pub open spec fn decoded_texture<'a>(
    outcome: Result<image::DynamicImage, image::ImageError>,
    label: Option<&'a str>,
    answer: Result<LoadedTexture<'a>, TextureCreateError>,
) -> bool {
    match outcome {
        Err(_) => answer matches Err(refusal) && decoding_refusal(refusal.message@),
        Ok(image) => if row_fits(dimensions_of(image).0) {
            &&& answer matches Ok(loaded)
            &&& (loaded.texture, loaded.write) == pixel_texture(
                label,
                dimensions_of(image),
                PixelFormat::Rgba8UnormSrgb,
            )
            &&& loaded.pixels@ == rgba8_of(image)
        } else {
            answer matches Err(refusal) && refusal.message@ == "Image is too wide for a texture"@
        },
    }
}

impl<'a> Texture2d<'a> {
    /// The format of depth textures.
    pub const DEPTH_FORMAT: PixelFormat = PixelFormat::Depth32Float;

    /// Decodes `bytes`, an encoded image of a format that is guessed from
    /// them, and answers as [`Texture2d::from_decoded`] does for the outcome
    /// of decoding, whichever it is.
    pub fn from_image_bytes(bytes: &[u8], label: Option<&'a str>) -> (answer: Result<
        LoadedTexture<'a>,
        TextureCreateError,
    >)
        ensures
            exists|outcome: Result<image::DynamicImage, image::ImageError>|
                #[trigger] decoded_texture(outcome, label, answer),
    {
        let outcome = load_from_memory(bytes);
        let answer = Self::from_decoded(outcome, label);
        assert(decoded_texture(outcome, label, answer));
        answer
    }

    /// Describes the sRGB texture of a decoded image, or tells why there is
    /// none.
    pub fn from_decoded(
        outcome: Result<image::DynamicImage, image::ImageError>,
        label: Option<&'a str>,
    ) -> (answer: Result<LoadedTexture<'a>, TextureCreateError>)
        ensures
            decoded_texture(outcome, label, answer),
    {
        match outcome {
            Err(error) => {
                let text = describe(&error);
                let message = String::from_str("Failed to load image from memory: ").concat(
                    text.as_str(),
                );
                Err(TextureCreateError::new(message))
            },
            Ok(image) => {
                let size = dimensions(&image);
                if size.0 <= u32::MAX / 4 {
                    let pixels = to_rgba8(&image);
                    let (texture, write) = Self::from_bytes(
                        size,
                        PixelFormat::Rgba8UnormSrgb,
                        label,
                    );
                    Ok(LoadedTexture { texture, write, pixels })
                } else {
                    Err(
                        TextureCreateError::new(String::from_str("Image is too wide for a texture")),
                    )
                }
            },
        }
    }

    /// Describes a texture of `size.0` by `size.1` texels of four bytes that
    /// is sampled texel by texel, and the write that fills it from tightly
    /// packed rows.
    pub fn from_bytes(size: (u32, u32), format: PixelFormat, label: Option<&'a str>) -> (result: (
        Texture2d<'a>,
        TextureWrite,
    ))
        requires
            row_fits(size.0),
        ensures
            result == pixel_texture(label, size, format),
    {
        let texture = Self::create_texture(
            (size.0 as usize, size.1 as usize),
            format,
            &SamplerDescriptor {
                address_mode_u: AddressMode::ClampToEdge,
                address_mode_v: AddressMode::ClampToEdge,
                address_mode_w: AddressMode::ClampToEdge,
                mag_filter: FilterMode::Nearest,
                min_filter: FilterMode::Nearest,
                mipmap_filter: FilterMode::Nearest,
                lod_min_clamp: LOD_MIN,
                lod_max_clamp: LOD_MAX,
                compare: None,
            },
            label,
        );
        let write = TextureWrite {
            mip_level: 0,
            layout: TexelCopyBufferLayout {
                offset: 0,
                bytes_per_row: Some(4 * size.0),
                rows_per_image: Some(size.1),
            },
            size: texture.size,
        };
        (texture, write)
    }

    /// Describes a texture of the surface's size and format that is rendered
    /// to and then sampled.
    pub fn create_render_texture(config: &SurfaceConfiguration, label: Option<&'a str>) -> (texture:
        Self)
        ensures
            texture == (Texture2d {
                texture: plain_texture(
                    label,
                    layer(config.width, config.height),
                    1,
                    PixelFormat::Native(config.format),
                    TextureUsages { copy_dst: false, texture_binding: true, render_attachment: true },
                ),
                sampler: clamping_sampler(FilterMode::Linear, Some(CompareFunction::LessEqual)),
                size: layer(config.width, config.height),
            }),
    {
        let size = Extent3d { width: config.width, height: config.height, depth_or_array_layers: 1 };
        Texture2d {
            texture: TextureDescriptor {
                label,
                size,
                mip_level_count: 1,
                sample_count: 1,
                dimension: TextureDimension::D2,
                format: PixelFormat::Native(config.format),
                usage: TextureUsages {
                    copy_dst: false,
                    texture_binding: true,
                    render_attachment: true,
                },
            },
            sampler: SamplerDescriptor {
                address_mode_u: AddressMode::ClampToEdge,
                address_mode_v: AddressMode::ClampToEdge,
                address_mode_w: AddressMode::ClampToEdge,
                mag_filter: FilterMode::Linear,
                min_filter: FilterMode::Linear,
                mipmap_filter: FilterMode::Nearest,
                lod_min_clamp: LOD_MIN,
                lod_max_clamp: LOD_MAX,
                compare: Some(CompareFunction::LessEqual),
            },
            size,
        }
    }

    /// Describes a texture of `size.0` by `size.1` texels that is written
    /// once and then sampled with `sampler_descriptor`. Each extent keeps its
    /// low 32 bits.
    pub fn create_texture(
        size: (usize, usize),
        format: PixelFormat,
        sampler_descriptor: &SamplerDescriptor,
        label: Option<&'a str>,
    ) -> (texture: Self)
        ensures
            texture == sampled_texture(
                label,
                layer(size.0 as u32, size.1 as u32),
                format,
                *sampler_descriptor,
            ),
    {
        let size = Extent3d {
            width: #[verifier::truncate]
            (size.0 as u32),
            height: #[verifier::truncate]
            (size.1 as u32),
            depth_or_array_layers: 1,
        };
        Texture2d {
            texture: TextureDescriptor {
                label,
                size,
                mip_level_count: 1,
                sample_count: 1,
                dimension: TextureDimension::D2,
                format,
                usage: TextureUsages {
                    copy_dst: true,
                    texture_binding: true,
                    render_attachment: false,
                },
            },
            sampler: *sampler_descriptor,
            size,
        }
    }

    /// Describes a depth texture of the surface's size, at least 1 by 1, with
    /// `sample_count` samples per pixel.
    pub fn create_depth_texture(
        config: &SurfaceConfiguration,
        sample_count: u32,
        label: Option<&'a str>,
    ) -> (texture: Self)
        ensures
            texture == (Texture2d {
                texture: plain_texture(
                    label,
                    layer(crate::surface::clamped(config.width), crate::surface::clamped(config.height)),
                    sample_count,
                    PixelFormat::Depth32Float,
                    TextureUsages { copy_dst: false, texture_binding: true, render_attachment: true },
                ),
                sampler: clamping_sampler(FilterMode::Linear, Some(CompareFunction::LessEqual)),
                size: layer(
                    crate::surface::clamped(config.width),
                    crate::surface::clamped(config.height),
                ),
            }),
    {
        let size = Extent3d {
            width: if config.width == 0 { 1 } else { config.width },
            height: if config.height == 0 { 1 } else { config.height },
            depth_or_array_layers: 1,
        };
        Texture2d {
            texture: TextureDescriptor {
                label,
                size,
                mip_level_count: 1,
                sample_count,
                dimension: TextureDimension::D2,
                format: Self::DEPTH_FORMAT,
                usage: TextureUsages {
                    copy_dst: false,
                    texture_binding: true,
                    render_attachment: true,
                },
            },
            sampler: SamplerDescriptor {
                address_mode_u: AddressMode::ClampToEdge,
                address_mode_v: AddressMode::ClampToEdge,
                address_mode_w: AddressMode::ClampToEdge,
                mag_filter: FilterMode::Linear,
                min_filter: FilterMode::Linear,
                mipmap_filter: FilterMode::Nearest,
                lod_min_clamp: LOD_MIN,
                lod_max_clamp: LOD_MAX,
                compare: Some(CompareFunction::LessEqual),
            },
            size,
        }
    }
}

} // verus!
