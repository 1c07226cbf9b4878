//! Material 3 Expressive design tokens, motion and theme rules with
//! machine-checked contracts.
pub mod tokens;
pub mod motion;
pub mod theme;
pub mod components;
pub mod gallery;
pub mod render;
