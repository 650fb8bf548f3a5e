use vectorizer::{ColorScheme, ColorU, DualColors, RendererLevel, RenderingMode};

#[test]
fn dual_colors_pick_by_scheme() {
    let colors = DualColors {
        light_mode: ColorU::new(250, 240, 230, 255),
        dark_mode: ColorU::new(10, 20, 30, 128),
    };
    assert_eq!(*colors.get(ColorScheme::Dark), ColorU { r: 10, g: 20, b: 30, a: 128 });
    assert_eq!(*colors.get(ColorScheme::Light), ColorU { r: 250, g: 240, b: 230, a: 255 });
}

#[test]
fn default_rendering_mode_is_compute() {
    assert_eq!(RenderingMode::default(), RenderingMode::Compute);
}

#[test]
fn rendering_mode_renderer_levels() {
    assert_eq!(RenderingMode::Compute.renderer_level(), RendererLevel::D3D11);
    assert_eq!(RenderingMode::Raster.renderer_level(), RendererLevel::D3D9);
    assert_ne!(RenderingMode::Compute.renderer_level(), RenderingMode::Raster.renderer_level());
}

#[test]
fn color_scheme_equality() {
    assert_eq!(ColorScheme::Dark, ColorScheme::Dark);
    assert_ne!(ColorScheme::Dark, ColorScheme::Light);
}
