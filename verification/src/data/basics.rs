use vstd::prelude::*;

verus! {

/// The system appearance a view is drawn for.
#[derive(Debug, Clone, Copy, PartialEq, Eq, Hash, Structural)]
pub enum ColorScheme {
    Dark,
    Light,
}

/// Which renderer a layer builds its backend with.
///
/// The default is `RenderingMode::Compute`.
#[derive(Debug, Clone, Copy, PartialEq, Eq, Structural)]
pub enum RenderingMode {
    /// A GPU compute-based renderer.
    Compute,
    /// A hybrid CPU-GPU renderer.
    Raster,
}

impl Default for RenderingMode {
    fn default() -> (r: Self)
        ensures
            r == RenderingMode::Compute,
    {
        RenderingMode::Compute
    }
}

/// The hardware level a backend renderer is created at.
#[derive(Debug, Clone, Copy, PartialEq, Eq, Structural)]
pub enum RendererLevel {
    /// Raster pipeline with CPU tiling (Direct3D 9 class hardware).
    D3D9,
    /// Compute pipeline with GPU tiling (Direct3D 11 class hardware).
    D3D11,
}

/// The renderer level that a rendering mode asks for.
pub open spec fn spec_renderer_level(mode: RenderingMode) -> RendererLevel {
    match mode {
        RenderingMode::Compute => RendererLevel::D3D11,
        RenderingMode::Raster => RendererLevel::D3D9,
    }
}

impl RenderingMode {
    /// The renderer level a backend context is created with for this mode.
    pub fn renderer_level(&self) -> (r: RendererLevel)
        ensures
            r == spec_renderer_level(*self),
    {
        match self {
            RenderingMode::Compute => RendererLevel::D3D11,
            RenderingMode::Raster => RendererLevel::D3D9,
        }
    }
}

/// An RGBA color with 8 bits per channel.
#[derive(Debug, Clone, Copy, PartialEq, Eq, Hash, Structural)]
pub struct ColorU {
    pub r: u8,
    pub g: u8,
    pub b: u8,
    pub a: u8,
}

impl ColorU {
    pub fn new(r: u8, g: u8, b: u8, a: u8) -> (c: ColorU)
        ensures
            c == (ColorU { r, g, b, a }),
    {
        ColorU { r, g, b, a }
    }
}

/// A pair of colors, one for each color scheme.
#[derive(Debug, Clone, Copy, PartialEq, Eq, Structural)]
pub struct DualColors {
    pub light_mode: ColorU,
    pub dark_mode: ColorU,
}

impl DualColors {
    /// The color that is shown under `scheme`.
    pub open spec fn color_for(self, scheme: ColorScheme) -> ColorU {
        match scheme {
            ColorScheme::Dark => self.dark_mode,
            ColorScheme::Light => self.light_mode,
        }
    }

    /// The color of this pair for the given color scheme.
    pub fn get(&self, color_scheme: ColorScheme) -> (r: &ColorU)
        ensures
            *r == self.color_for(color_scheme),
    {
        match color_scheme {
            ColorScheme::Dark => &self.dark_mode,
            ColorScheme::Light => &self.light_mode,
        }
    }
}

} // verus!
