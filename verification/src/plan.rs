//! Choosing how one frame is converted.
//!
//! The three-channel layouts are produced in a single pass: the mosaic is
//! demosaiced straight into the output frame. The four-channel layout takes
//! two passes: the mosaic is demosaiced into a packed RGB image held by the
//! session, which is then expanded into the output frame. The demosaicing
//! itself is done by whoever drives the session; what is decided here is
//! which grids it reads and writes, and in which channel order.

use vstd::prelude::*;
use crate::error::TransformError;
use crate::format::VideoFormat;
use crate::geometry::SessionGeometry;
use crate::grid::Grid;

verus! {

/// The order of the colour bytes that the demosaicing writes.
#[derive(Clone, Copy, Debug, PartialEq, Eq, Structural)]
pub enum ChannelOrder {
    Rgb,
    Bgr,
}

/// How a frame reaches its output layout.
#[derive(Clone, Copy, Debug, PartialEq, Eq, Structural)]
pub enum Strategy {
    /// Demosaic straight into the output frame.
    SinglePass(ChannelOrder),
    /// Demosaic into the intermediate RGB image, then add the alpha channel.
    TwoPass,
}

/// Where the demosaicing writes.
#[derive(Clone, Copy, Debug, PartialEq, Eq, Structural)]
pub enum Target {
    /// The output frame.
    Output,
    /// The session's intermediate RGB image.
    Intermediate,
}

/// The one demosaicing of a frame: from a single-channel grid over the input
/// frame to a three-channel grid over the target.
#[derive(Clone, Copy, Debug, PartialEq, Eq, Structural)]
pub struct Conversion {
    pub source: Grid,
    pub dest: Grid,
    pub order: ChannelOrder,
    pub target: Target,
}

impl Strategy {
    /// The strategy for an output layout.
    pub open spec fn spec_select(format: VideoFormat) -> Result<Strategy, TransformError> {
        match format {
            VideoFormat::Rgb => Ok(Strategy::SinglePass(ChannelOrder::Rgb)),
            VideoFormat::Bgr => Ok(Strategy::SinglePass(ChannelOrder::Bgr)),
            VideoFormat::Rgba => Ok(Strategy::TwoPass),
            VideoFormat::Unknown => Err(TransformError::UnsupportedFormat),
        }
    }

    /// The strategy for an output layout. A layout outside the supported set
    /// has none.
    pub fn select(format: VideoFormat) -> (strategy: Result<Strategy, TransformError>)
        ensures
            strategy == Self::spec_select(format),
    {
        match format {
            VideoFormat::Rgb => Ok(Strategy::SinglePass(ChannelOrder::Rgb)),
            VideoFormat::Bgr => Ok(Strategy::SinglePass(ChannelOrder::Bgr)),
            VideoFormat::Rgba => Ok(Strategy::TwoPass),
            VideoFormat::Unknown => Err(TransformError::UnsupportedFormat),
        }
    }
}

/// The mosaic grid over the input frame.
pub open spec fn spec_source_grid(geometry: SessionGeometry) -> Grid {
    Grid {
        width: geometry.input.width,
        height: geometry.input.height,
        stride: geometry.input.stride,
        channels: 1,
    }
}

/// The grid of the output frame, laid out with the frame's own stride.
pub open spec fn spec_output_grid(geometry: SessionGeometry, out_stride: usize) -> Grid {
    Grid {
        width: geometry.output.width,
        height: geometry.output.height,
        stride: out_stride,
        channels: geometry.output.format.spec_channels() as usize,
    }
}

/// The grid of the intermediate RGB image: as large as the input, three
/// bytes per pixel, no padding.
pub open spec fn spec_intermediate_grid(geometry: SessionGeometry) -> Grid {
    Grid {
        width: geometry.input.width,
        height: geometry.input.height,
        stride: (geometry.input.width * 3) as usize,
        channels: 3,
    }
}

/// The bytes of the intermediate RGB image.
pub open spec fn spec_intermediate_len(geometry: SessionGeometry) -> int {
    geometry.input.width * geometry.input.height * 3
}

/// Whether an input frame of `in_len` bytes and an output frame of `out_len`
/// bytes with rows `out_stride` bytes apart can hold a frame of this
/// geometry: both sides have the same dimensions, the input holds `height`
/// whole rows, and every pixel of the output lies within the output frame.
pub open spec fn spec_frames_fit(
    geometry: SessionGeometry,
    in_len: usize,
    out_len: usize,
    out_stride: usize,
) -> bool {
    &&& geometry.output.width == geometry.input.width
    &&& geometry.output.height == geometry.input.height
    &&& spec_source_grid(geometry).spec_fits(in_len as int)
    &&& in_len >= geometry.input.height * geometry.input.stride
    &&& spec_output_grid(geometry, out_stride).spec_fits(out_len as int)
}

/// The demosaicing that a strategy asks for.
pub open spec fn spec_conversion(
    geometry: SessionGeometry,
    strategy: Strategy,
    out_stride: usize,
) -> Conversion {
    match strategy {
        Strategy::SinglePass(order) => Conversion {
            source: spec_source_grid(geometry),
            dest: spec_output_grid(geometry, out_stride),
            order,
            target: Target::Output,
        },
        Strategy::TwoPass => Conversion {
            source: spec_source_grid(geometry),
            dest: spec_intermediate_grid(geometry),
            order: ChannelOrder::Rgb,
            target: Target::Intermediate,
        },
    }
}

/// What is decided for one frame: the demosaicing to run, or the reason why
/// the frame cannot be converted. The layout is looked at first, then the
/// frames.
pub open spec fn spec_plan(
    geometry: SessionGeometry,
    in_len: usize,
    out_len: usize,
    out_stride: usize,
) -> Result<Conversion, TransformError> {
    match Strategy::spec_select(geometry.output.format) {
        Err(e) => Err(e),
        Ok(strategy) => if spec_frames_fit(geometry, in_len, out_len, out_stride) {
            Ok(spec_conversion(geometry, strategy, out_stride))
        } else {
            Err(TransformError::ConversionFailure)
        },
    }
}

/// Where the frames fit a four-channel geometry, the intermediate RGB image
/// is smaller than the output frame, so that its size is a valid length.
pub proof fn lemma_intermediate_len_bounded(
    geometry: SessionGeometry,
    in_len: usize,
    out_len: usize,
    out_stride: usize,
)
    requires
        spec_frames_fit(geometry, in_len, out_len, out_stride),
        geometry.output.format == VideoFormat::Rgba,
    ensures
        0 < spec_intermediate_len(geometry) <= out_len,
        0 < geometry.input.width * 3 <= out_len,
        0 < geometry.input.width * geometry.input.height <= out_len,
{
    let grid = spec_output_grid(geometry, out_stride);
    grid.lemma_fits_pixel_bytes(out_len as int);
    let w = geometry.input.width as int;
    let h = geometry.input.height as int;
    assert(w * h * 3 <= w * h * 4 && w * h <= w * h * 4 && 0 < w * h * 3 && 0 < w * h
        && w * 3 <= w * h * 3) by (nonlinear_arith)
        requires
            w > 0,
            h > 0,
    ;
}

/// Decides how one frame is converted.
pub fn plan(geometry: &SessionGeometry, in_len: usize, out_len: usize, out_stride: usize) -> (decided:
    Result<Conversion, TransformError>)
    ensures
        decided == spec_plan(*geometry, in_len, out_len, out_stride),
{
    let strategy = match Strategy::select(geometry.output.format) {
        Ok(s) => s,
        Err(e) => {
            return Err(e);
        },
    };
    if geometry.output.width != geometry.input.width || geometry.output.height
        != geometry.input.height {
        return Err(TransformError::ConversionFailure);
    }
    let source = Grid {
        width: geometry.input.width,
        height: geometry.input.height,
        stride: geometry.input.stride,
        channels: 1,
    };
    if !source.fits(in_len) {
        return Err(TransformError::ConversionFailure);
    }
    match geometry.input.height.checked_mul(geometry.input.stride) {
        Some(n) => if in_len < n {
            return Err(TransformError::ConversionFailure);
        },
        None => {
            return Err(TransformError::ConversionFailure);
        },
    }
    let output = Grid {
        width: geometry.output.width,
        height: geometry.output.height,
        stride: out_stride,
        channels: geometry.output.format.channels(),
    };
    if !output.fits(out_len) {
        return Err(TransformError::ConversionFailure);
    }
    match strategy {
        Strategy::SinglePass(order) => Ok(
            Conversion { source, dest: output, order, target: Target::Output },
        ),
        Strategy::TwoPass => {
            proof {
                lemma_intermediate_len_bounded(*geometry, in_len, out_len, out_stride);
            }
            Ok(
                Conversion {
                    source,
                    dest: Grid {
                        width: geometry.input.width,
                        height: geometry.input.height,
                        stride: geometry.input.width * 3,
                        channels: 3,
                    },
                    order: ChannelOrder::Rgb,
                    target: Target::Intermediate,
                },
            )
        },
    }
}

} // verus!
