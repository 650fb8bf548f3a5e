pub mod data;
pub mod laws;
pub mod renderers;

pub use data::basics::{ColorScheme, ColorU, DualColors, RendererLevel, RenderingMode};
pub use renderers::layer::VLayer;
pub use renderers::dynamic_core::{DynVectorizer, DynVectorizerMut, DynVectorizerRef};
pub use renderers::scene::{
    PaintStyle, PathCommand, PathPoint, SceneType, ShapePath, ShapeType, VScene, VShape,
};
pub use renderers::static_core::{
    draw_layout, DrawJob, DrawLayout, Vectorizer, VectorizerMut, VectorizerRef,
};
