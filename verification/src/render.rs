//! Rendering bookkeeping that needs no GPU: where glyphs go in the glyph
//! atlas, and how the instance buffers grow.
pub mod atlas;
pub mod instances;

pub use atlas::ShelfPacker;
pub use instances::instance_capacity;
