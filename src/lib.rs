//! Color model, gradient shader sources and pointer mapping of a color picker.
pub mod color;
pub mod gradient;
pub mod interaction;
pub mod laws;

pub use color::{rgb_to_cymk, rgb_to_hsl, rgb_to_hsv, Channel, Color};
pub use gradient::{get_shader_sources, GradientType};
pub use interaction::{pick, plane_pick, scroll, slider_pick, DragState};
