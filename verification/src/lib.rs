//! The core of a Bayer-mosaic to RGB converter for a media pipeline.
//!
//! The converter takes single-channel RGGB mosaic frames and produces packed
//! RGB, BGR or RGBA frames. This library holds everything about it that does
//! not touch the pipeline or the pixels of the mosaic: the formats it knows
//! (`format`, `caps`, `templates`), the negotiation of descriptors between
//! its two sides (`negotiate`), the size of a frame (`size`), the geometry
//! of a configured session (`geometry`, `session`), the decision how a frame
//! is converted (`plan`) and the expansion of an RGB image into a frame with
//! an alpha channel (`alpha`). The demosaicing itself is run by the caller.

pub mod alpha;
pub mod caps;
pub mod error;
pub mod format;
pub mod geometry;
pub mod grid;
pub mod negotiate;
pub mod plan;
pub mod session;
pub mod size;
pub mod templates;
pub mod text;
