//! The formats this converter understands: one single-channel mosaic layout
//! on the input side and three packed 8-bit colour layouts on the output side.

use vstd::prelude::*;
use crate::text::str_eq;

verus! {

/// A packed 8-bit output layout, or `Unknown` for anything this converter
/// does not produce.
#[derive(Clone, Copy, Debug, PartialEq, Eq, Structural)]
pub enum VideoFormat {
    Rgb,
    Bgr,
    Rgba,
    Unknown,
}

/// The output layouts in the order in which they are offered downstream.
pub open spec fn output_formats() -> Seq<VideoFormat> {
    seq![VideoFormat::Rgb, VideoFormat::Bgr, VideoFormat::Rgba]
}

impl VideoFormat {
    /// Whether this is one of the three layouts the converter produces.
    pub open spec fn spec_is_supported(self) -> bool {
        self != VideoFormat::Unknown
    }

    /// Bytes per pixel; zero for `Unknown`.
    pub open spec fn spec_channels(self) -> nat {
        match self {
            VideoFormat::Rgb => 3,
            VideoFormat::Bgr => 3,
            VideoFormat::Rgba => 4,
            VideoFormat::Unknown => 0,
        }
    }

    /// The name of the layout as it appears in a `format` field.
    pub open spec fn spec_name(self) -> Seq<char> {
        match self {
            VideoFormat::Rgb => "RGB"@,
            VideoFormat::Bgr => "BGR"@,
            VideoFormat::Rgba => "RGBA"@,
            VideoFormat::Unknown => "UNKNOWN"@,
        }
    }

    /// The layout a `format` field names; `Unknown` for every other name.
    pub open spec fn spec_from_name(name: Seq<char>) -> VideoFormat {
        if name == "RGB"@ {
            VideoFormat::Rgb
        } else if name == "BGR"@ {
            VideoFormat::Bgr
        } else if name == "RGBA"@ {
            VideoFormat::Rgba
        } else {
            VideoFormat::Unknown
        }
    }

    /// Whether this is one of the three layouts the converter produces.
    #[verifier::when_used_as_spec(spec_is_supported)]
    pub fn is_supported(self) -> (yes: bool)
        ensures
            yes == self.spec_is_supported(),
    {
        match self {
            VideoFormat::Unknown => false,
            _ => true,
        }
    }

    /// Bytes per pixel; zero for `Unknown`.
    pub fn channels(self) -> (n: usize)
        ensures
            n == self.spec_channels(),
    {
        match self {
            VideoFormat::Rgb => 3,
            VideoFormat::Bgr => 3,
            VideoFormat::Rgba => 4,
            VideoFormat::Unknown => 0,
        }
    }

    /// The name of the layout as it appears in a `format` field.
    pub fn to_str(self) -> (name: &'static str)
        ensures
            name@ == self.spec_name(),
    {
        match self {
            VideoFormat::Rgb => "RGB",
            VideoFormat::Bgr => "BGR",
            VideoFormat::Rgba => "RGBA",
            VideoFormat::Unknown => "UNKNOWN",
        }
    }

    /// The layout a `format` field names; `Unknown` for every other name.
    pub fn from_name(name: &str) -> (format: VideoFormat)
        ensures
            format == Self::spec_from_name(name@),
    {
        if str_eq(name, "RGB") {
            VideoFormat::Rgb
        } else if str_eq(name, "BGR") {
            VideoFormat::Bgr
        } else if str_eq(name, "RGBA") {
            VideoFormat::Rgba
        } else {
            VideoFormat::Unknown
        }
    }

    /// The three output layouts, in the order in which they are offered.
    pub fn supported() -> (formats: Vec<VideoFormat>)
        ensures
            formats@ == output_formats(),
    {
        let mut formats: Vec<VideoFormat> = Vec::new();
        formats.push(VideoFormat::Rgb);
        formats.push(VideoFormat::Bgr);
        formats.push(VideoFormat::Rgba);
        assert(formats@ =~= output_formats());
        formats
    }

    /// A supported layout is found again under its own name.
    pub proof fn lemma_name_round_trip(self)
        requires
            self.spec_is_supported(),
        ensures
            Self::spec_from_name(self.spec_name()) == self,
    {
        reveal_strlit("RGB");
        reveal_strlit("BGR");
        reveal_strlit("RGBA");
        assert("RGB"@.len() == 3);
        assert("RGBA"@.len() == 4);
        assert("RGB"@[0] == 'R');
        assert("BGR"@[0] == 'B');
    }
}

} // verus!
