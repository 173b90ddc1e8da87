//! Slippy-map tile URLs: decimal rendering, `{x}`/`{y}`/`{z}` template filling,
//! and row-major enumeration of the tiles covering a rectangle.
pub mod digits;
pub mod template;
pub mod source;
pub mod tile_range;

pub use source::TailServerUrl;
pub use tile_range::TailServerUrlIter;
