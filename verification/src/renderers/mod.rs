pub mod dynamic_core;
pub mod layer;
pub mod scene;
pub mod static_core;
