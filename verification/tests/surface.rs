use particle_sandbox::surface::{create_multisampled_framebuffer, SurfaceConfiguration, SurfaceState};
use particle_sandbox::texture::{
    Extent3d, PixelFormat, TextureDescriptor, TextureDimension, TextureUsages,
};

#[test]
fn a_new_surface_renders_through_the_srgb_variant() {
    let surface = SurfaceState::new(1280, 720, wgpu::TextureFormat::Bgra8Unorm, 8);
    assert_eq!(
        surface.config,
        SurfaceConfiguration {
            width: 1280,
            height: 720,
            format: wgpu::TextureFormat::Bgra8Unorm,
            view_format: wgpu::TextureFormat::Bgra8UnormSrgb,
        }
    );
    assert_eq!(surface.sample_count, 8);
}

#[test]
fn a_format_without_srgb_variant_is_kept() {
    let surface = SurfaceState::new(4, 4, wgpu::TextureFormat::Rgba16Float, 1);
    assert_eq!(surface.config.view_format, wgpu::TextureFormat::Rgba16Float);
    let srgb = SurfaceState::new(4, 4, wgpu::TextureFormat::Rgba8UnormSrgb, 1);
    assert_eq!(srgb.config.view_format, wgpu::TextureFormat::Rgba8UnormSrgb);
}

#[test]
fn the_multisampled_target_goes_with_the_configuration() {
    let surface = SurfaceState::new(1280, 720, wgpu::TextureFormat::Rgba8Unorm, 8);
    let expected = TextureDescriptor {
        label: None,
        size: Extent3d { width: 1280, height: 720, depth_or_array_layers: 1 },
        mip_level_count: 1,
        sample_count: 8,
        dimension: TextureDimension::D2,
        format: PixelFormat::Native(wgpu::TextureFormat::Rgba8UnormSrgb),
        usage: TextureUsages { copy_dst: false, texture_binding: false, render_attachment: true },
    };
    assert_eq!(surface.multisample_framebuffer, expected);
    assert_eq!(create_multisampled_framebuffer(&surface.config, 8), expected);
}

#[test]
fn a_surface_is_never_empty() {
    let mut surface = SurfaceState::new(0, 0, wgpu::TextureFormat::Bgra8Unorm, 8);
    assert_eq!((surface.config.width, surface.config.height), (1, 1));
    surface.configure(0, 300);
    assert_eq!((surface.config.width, surface.config.height), (1, 300));
    surface.configure(200, 0);
    assert_eq!((surface.config.width, surface.config.height), (200, 1));
    assert_eq!(
        surface.multisample_framebuffer.size,
        Extent3d { width: 200, height: 1, depth_or_array_layers: 1 }
    );
}

#[test]
fn configure_keeps_formats_and_sample_count() {
    let mut surface = SurfaceState::new(10, 10, wgpu::TextureFormat::Bgra8Unorm, 8);
    surface.configure(640, 480);
    assert_eq!(surface.config.format, wgpu::TextureFormat::Bgra8Unorm);
    assert_eq!(surface.config.view_format, wgpu::TextureFormat::Bgra8UnormSrgb);
    assert_eq!(surface.sample_count, 8);
    assert_eq!(surface.multisample_framebuffer.sample_count, 8);
    assert_eq!(
        surface.multisample_framebuffer.format,
        PixelFormat::Native(wgpu::TextureFormat::Bgra8UnormSrgb)
    );
    assert_eq!(
        surface.multisample_framebuffer.size,
        Extent3d { width: 640, height: 480, depth_or_array_layers: 1 }
    );
}

#[test]
fn configuring_twice_is_configuring_once() {
    let mut once = SurfaceState::new(10, 10, wgpu::TextureFormat::Bgra8Unorm, 8);
    let mut twice = once;
    once.configure(800, 600);
    twice.configure(800, 600);
    twice.configure(800, 600);
    assert_eq!(once, twice);
    once.configure(0, 0);
    twice.configure(0, 0);
    twice.configure(0, 0);
    assert_eq!(once, twice);
}
