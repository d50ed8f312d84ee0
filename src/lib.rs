//! Text shaping core: render plans, shaping with per-script fallback faces,
//! width-bounded truncation and line cutting.

pub mod error;
pub mod fallback;
pub mod font;
pub mod laws;
pub mod plan;
pub mod script;
pub mod shaping;
pub mod style;
pub mod variation;
