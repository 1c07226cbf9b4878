//! Pure design tokens: colors, elevations, motion, shapes and type.
pub mod color;
pub mod elevation;
pub mod motion_tokens;
pub mod shape;
pub mod typography;

pub use color::{Argb, ColorScheme};
pub use elevation::ElevationLevel;
pub use motion_tokens::{DurationClass, MotionDurationsMs, SpringSpec};
pub use shape::ShapeStyle;
pub use typography::{TypeRole, TypeStyle};
