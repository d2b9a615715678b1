//! What the picture unit's output is made of, on its way to a display.

pub mod buffer;
pub mod logical_size;
pub mod rgb;
pub mod vertex_data;

pub use self::logical_size::LogicalSize;
pub use self::rgb::RGB;
pub use self::vertex_data::{Vec2D, VertexData};
