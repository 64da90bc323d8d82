//! The geometry of one negotiated configuration.

use vstd::prelude::*;
use crate::caps::{concrete, spec_concrete, Media, Structure};
use crate::error::ConfigurationError;
use crate::format::VideoFormat;

verus! {

/// The mosaic side: one byte per pixel, rows `stride` bytes apart.
#[derive(Clone, Copy, Debug, PartialEq, Eq, Structural)]
pub struct InputInfo {
    pub width: usize,
    pub height: usize,
    pub stride: usize,
}

/// The colour side: the layout of a pixel and the row stride that the
/// pipeline's buffer layout gives to frames of this format.
#[derive(Clone, Copy, Debug, PartialEq, Eq, Structural)]
pub struct VideoInfo {
    pub format: VideoFormat,
    pub width: usize,
    pub height: usize,
    pub stride: usize,
}

/// Both sides of a configured session.
#[derive(Clone, Copy, Debug, PartialEq, Eq, Structural)]
pub struct SessionGeometry {
    pub input: InputInfo,
    pub output: VideoInfo,
}

/// The output layout a descriptor asks for; `Unknown` where it asks for none
/// that the converter produces.
pub open spec fn spec_output_format(media: Media) -> VideoFormat {
    match media {
        Media::Raw(f) => f,
        _ => VideoFormat::Unknown,
    }
}

/// Whether an output descriptor and a row stride describe a frame that the
/// converter can produce.
pub open spec fn spec_output_parses(outcaps: Structure, out_stride: usize) -> bool {
    &&& spec_output_format(outcaps.media).spec_is_supported()
    &&& spec_concrete(outcaps.width) is Some
    &&& spec_concrete(outcaps.height) is Some
    &&& out_stride >= spec_concrete(outcaps.width)->0 * spec_output_format(
        outcaps.media,
    ).spec_channels()
}

impl SessionGeometry {
    /// What holds of every geometry that was read from descriptors: both
    /// sides have positive dimensions, mosaic rows are not padded, the output
    /// layout is a supported one and its rows do not overlap.
    pub open spec fn wf(self) -> bool {
        &&& 0 < self.input.width <= i32::MAX
        &&& 0 < self.input.height <= i32::MAX
        &&& self.input.stride == self.input.width
        &&& self.output.format.spec_is_supported()
        &&& 0 < self.output.width <= i32::MAX
        &&& 0 < self.output.height <= i32::MAX
        &&& self.output.stride >= self.output.width * self.output.format.spec_channels()
    }

    /// The geometry that a pair of descriptors and an output row stride
    /// describe, or the reason why they describe none. The input's width is
    /// looked at first, then its height, then the output.
    pub open spec fn spec_from_caps(
        incaps: Structure,
        outcaps: Structure,
        out_stride: usize,
    ) -> Result<SessionGeometry, ConfigurationError> {
        if spec_concrete(incaps.width) is None {
            Err(ConfigurationError::NoWidth)
        } else if spec_concrete(incaps.height) is None {
            Err(ConfigurationError::NoHeight)
        } else if !spec_output_parses(outcaps, out_stride) {
            Err(ConfigurationError::BadOutput)
        } else {
            Ok(
                SessionGeometry {
                    input: InputInfo {
                        width: spec_concrete(incaps.width)->0 as usize,
                        height: spec_concrete(incaps.height)->0 as usize,
                        stride: spec_concrete(incaps.width)->0 as usize,
                    },
                    output: VideoInfo {
                        format: spec_output_format(outcaps.media),
                        width: spec_concrete(outcaps.width)->0 as usize,
                        height: spec_concrete(outcaps.height)->0 as usize,
                        stride: out_stride,
                    },
                },
            )
        }
    }

    /// The geometry that a pair of offers describes: that of their first
    /// descriptors. An input offer without a descriptor holds no width. An
    /// output offer without a descriptor describes no frame, which is found
    /// after the input has been looked at.
    pub open spec fn spec_from_offer(
        incaps: Seq<Structure>,
        outcaps: Seq<Structure>,
        out_stride: usize,
    ) -> Result<SessionGeometry, ConfigurationError> {
        if incaps.len() == 0 {
            Err(ConfigurationError::NoWidth)
        } else if outcaps.len() == 0 {
            if spec_concrete(incaps[0].width) is None {
                Err(ConfigurationError::NoWidth)
            } else if spec_concrete(incaps[0].height) is None {
                Err(ConfigurationError::NoHeight)
            } else {
                Err(ConfigurationError::BadOutput)
            }
        } else {
            Self::spec_from_caps(incaps[0], outcaps[0], out_stride)
        }
    }

    /// Reads the geometry of a session from the agreed input and output
    /// descriptors and the row stride of output frames.
    ///
    /// The input must hold a concrete positive width and height; its rows are
    /// taken to be unpadded. The output must name one of the supported
    /// layouts, hold a concrete positive width and height, and its stride must
    /// leave room for a whole row of pixels.
    pub fn from_caps(incaps: &Structure, outcaps: &Structure, out_stride: usize) -> (geometry:
        Result<SessionGeometry, ConfigurationError>)
        ensures
            geometry == Self::spec_from_caps(*incaps, *outcaps, out_stride),
            geometry is Ok ==> geometry->Ok_0.wf(),
    {
        let width = match concrete(incaps.width) {
            Some(w) => w,
            None => {
                return Err(ConfigurationError::NoWidth);
            },
        };
        let height = match concrete(incaps.height) {
            Some(h) => h,
            None => {
                return Err(ConfigurationError::NoHeight);
            },
        };
        let format = match outcaps.media {
            Media::Raw(f) => f,
            _ => VideoFormat::Unknown,
        };
        if !format.is_supported() {
            return Err(ConfigurationError::BadOutput);
        }
        let out_width = match concrete(outcaps.width) {
            Some(w) => w,
            None => {
                return Err(ConfigurationError::BadOutput);
            },
        };
        let out_height = match concrete(outcaps.height) {
            Some(h) => h,
            None => {
                return Err(ConfigurationError::BadOutput);
            },
        };
        let channels = format.channels();
        assert(out_width * channels <= 4 * i32::MAX) by (nonlinear_arith)
            requires
                0 < out_width <= i32::MAX,
                0 <= channels <= 4,
        ;
        if (out_stride as u64) < (out_width as u64) * (channels as u64) {
            return Err(ConfigurationError::BadOutput);
        }
        Ok(
            SessionGeometry {
                input: InputInfo { width, height, stride: width },
                output: VideoInfo { format, width: out_width, height: out_height, stride: out_stride },
            },
        )
    }

    /// Reads the geometry of a session from the agreed input and output
    /// offers, each as the list of its descriptors, and the row stride of
    /// output frames. Only the first descriptor of each offer counts; an
    /// offer without one is a configuration error.
    pub fn from_offer(incaps: &[Structure], outcaps: &[Structure], out_stride: usize) -> (geometry:
        Result<SessionGeometry, ConfigurationError>)
        ensures
            geometry == Self::spec_from_offer(incaps@, outcaps@, out_stride),
            geometry is Ok ==> geometry->Ok_0.wf(),
    {
        if incaps.len() == 0 {
            return Err(ConfigurationError::NoWidth);
        }
        if outcaps.len() == 0 {
            if concrete(incaps[0].width).is_none() {
                return Err(ConfigurationError::NoWidth);
            }
            if concrete(incaps[0].height).is_none() {
                return Err(ConfigurationError::NoHeight);
            }
            return Err(ConfigurationError::BadOutput);
        }
        Self::from_caps(&incaps[0], &outcaps[0], out_stride)
    }
}

} // verus!
