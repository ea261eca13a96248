//! Rendering of images and videos as coloured text in a terminal: the frame
//! pipeline (sizing, recolouring, flipping), the half-block glyph encoding,
//! frame pacing and the playback decisions.

pub mod bitmap;
pub mod glyph;
pub mod text;
pub mod number;
pub mod sizing;
pub mod rate;
pub mod frames;
pub mod playback;
pub mod media;
pub mod report;
