//! The surface lifecycle: the configuration of the presentation surface and
//! the multisampled offscreen target that is resolved into it.

use vstd::prelude::*;
use crate::texture::{Extent3d, TextureDescriptor, TextureDimension, PixelFormat, TextureUsages};

verus! {

/// The format that `wgpu::TextureFormat::add_srgb_suffix` returns for
/// `format`.
pub uninterp spec fn srgb_suffixed(format: wgpu::TextureFormat) -> wgpu::TextureFormat;

/// `wgpu::TextureFormat::add_srgb_suffix` computes its result from the format
/// alone: the sRGB variant of a format that has one, the format itself
/// otherwise.
pub assume_specification[ wgpu::TextureFormat::add_srgb_suffix ](
    format: &wgpu::TextureFormat,
) -> (suffixed: wgpu::TextureFormat)
    ensures
        suffixed == srgb_suffixed(*format),
;

/// The part of the surface configuration the orchestrator decides.
#[derive(Clone, Copy, Debug, PartialEq, Eq)]
pub struct SurfaceConfiguration {
    pub width: u32,
    pub height: u32,
    /// The format of the swapchain images.
    pub format: wgpu::TextureFormat,
    /// The format through which the swapchain images are rendered to.
    pub view_format: wgpu::TextureFormat,
}

/// At least one pixel along an axis.
pub open spec fn clamped(extent: u32) -> u32 {
    if extent == 0 {
        1
    } else {
        extent
    }
}

/// The multisampled color target that goes with `config`: one 2D layer of the
/// surface's size and view format, usable as a render attachment only.
pub open spec fn framebuffer_for(config: SurfaceConfiguration, sample_count: u32) -> TextureDescriptor<
    'static,
> {
    TextureDescriptor {
        label: None,
        size: Extent3d { width: config.width, height: config.height, depth_or_array_layers: 1 },
        mip_level_count: 1,
        sample_count,
        dimension: TextureDimension::D2,
        format: PixelFormat::Native(config.view_format),
        usage: TextureUsages { copy_dst: false, texture_binding: false, render_attachment: true },
    }
}

/// Describes the multisampled color target that goes with `config`.
pub fn create_multisampled_framebuffer(config: &SurfaceConfiguration, sample_count: u32) -> (target:
    TextureDescriptor<'static>)
    ensures
        target == framebuffer_for(*config, sample_count),
{
    TextureDescriptor {
        label: None,
        size: Extent3d { width: config.width, height: config.height, depth_or_array_layers: 1 },
        mip_level_count: 1,
        sample_count,
        dimension: TextureDimension::D2,
        format: PixelFormat::Native(config.view_format),
        usage: TextureUsages { copy_dst: false, texture_binding: false, render_attachment: true },
    }
}

/// The surface as last configured, with the multisampled target that is
/// resolved into it.
#[derive(Clone, Copy, Debug, PartialEq, Eq)]
pub struct SurfaceState {
    pub config: SurfaceConfiguration,
    /// Samples per pixel of the multisampled target.
    pub sample_count: u32,
    pub multisample_framebuffer: TextureDescriptor<'static>,
}

impl SurfaceState {
    /// The surface is never empty, and the multisampled target has the size,
    /// format and sample count that go with the configuration.
    pub open spec fn wf(self) -> bool {
        &&& self.config.width >= 1
        &&& self.config.height >= 1
        &&& self.multisample_framebuffer == framebuffer_for(self.config, self.sample_count)
    }

    /// The state after the surface is configured to `width` by `height`.
    pub open spec fn configured(self, width: u32, height: u32) -> SurfaceState {
        let config = SurfaceConfiguration {
            width: clamped(width),
            height: clamped(height),
            format: self.config.format,
            view_format: self.config.view_format,
        };
        SurfaceState {
            config,
            sample_count: self.sample_count,
            multisample_framebuffer: framebuffer_for(config, self.sample_count),
        }
    }

    /// The state of a surface of `format` when it is first configured.
    pub open spec fn initial(width: u32, height: u32, format: wgpu::TextureFormat, sample_count: u32)
        -> SurfaceState {
        let config = SurfaceConfiguration {
            width: clamped(width),
            height: clamped(height),
            format,
            view_format: srgb_suffixed(format),
        };
        SurfaceState { config, sample_count, multisample_framebuffer: framebuffer_for(config, sample_count) }
    }

    /// Configures a surface of `format` for a window of `width` by `height`
    /// pixels. Rendering goes through the sRGB variant of the format.
    pub fn new(width: u32, height: u32, format: wgpu::TextureFormat, sample_count: u32) -> (surface: Self)
        ensures
            surface == Self::initial(width, height, format, sample_count),
            surface.wf(),
    {
        let config = SurfaceConfiguration {
            width: if width == 0 { 1 } else { width },
            height: if height == 0 { 1 } else { height },
            format,
            view_format: format.add_srgb_suffix(),
        };
        let multisample_framebuffer = create_multisampled_framebuffer(&config, sample_count);
        SurfaceState { config, sample_count, multisample_framebuffer }
    }

    /// Applies new dimensions, at least 1 by 1, and rebuilds the multisampled
    /// target to match. Formats and sample count stay.
    pub fn configure(&mut self, width: u32, height: u32)
        ensures
            *final(self) == old(self).configured(width, height),
            final(self).wf(),
    {
        self.config.width = if width == 0 { 1 } else { width };
        self.config.height = if height == 0 { 1 } else { height };
        self.multisample_framebuffer = create_multisampled_framebuffer(&self.config, self.sample_count);
    }
}

/// Configuring twice in a row with the same dimensions leaves the surface and
/// its multisampled target exactly as configuring once does.
pub proof fn lemma_configure_idempotent(surface: SurfaceState, width: u32, height: u32)
    ensures
        surface.configured(width, height).configured(width, height) == surface.configured(
            width,
            height,
        ),
{
}

} // verus!
