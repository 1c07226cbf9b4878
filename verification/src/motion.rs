//! Motion schemes: which spring token each tempo and track uses.
pub mod motion_scheme;

pub use motion_scheme::{MotionScheme, SchemeKind, Tempo, Track};
