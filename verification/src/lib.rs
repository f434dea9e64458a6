//! Decision logic of the dualcut engine: cache naming, pixel-buffer
//! reshaping, colour parsing and the request/raster workflows, each with
//! its contract. The media, GPU, file and network work is done by the
//! caller, which feeds the outcomes back into the workflows here.

pub mod text;
pub mod hash;
pub mod color;
pub mod raster;
pub mod vector;
pub mod bitmaps;
pub mod thumbs;
pub mod api;
pub mod playback;
pub mod clips;
