//! Capability descriptors: what one side of a link offers or accepts.
//!
//! A descriptor names a media format and may carry a width, a height and a
//! frame rate. A field that is absent leaves the matter open. A field that is
//! present holds either one value or a range of values; the converter passes
//! such a field on as it is and only looks inside a width or height when it
//! needs the concrete number.

use vstd::prelude::*;
use crate::format::VideoFormat;
use crate::text::str_eq;

verus! {

/// A frame rate as a fraction, kept exactly as it was given.
#[derive(Clone, Copy, Debug, PartialEq, Eq, Structural)]
pub struct Fraction {
    pub numer: i32,
    pub denom: i32,
}

/// A width or height field.
#[derive(Clone, Copy, Debug, PartialEq, Eq, Structural)]
pub enum Dimension {
    Fixed(i32),
    Range { min: i32, max: i32 },
}

/// A frame-rate field.
#[derive(Clone, Copy, Debug, PartialEq, Eq, Structural)]
pub enum Framerate {
    Fixed(Fraction),
    Range { min: Fraction, max: Fraction },
}

/// What a descriptor says about the pixel data itself.
#[derive(Clone, Copy, Debug, PartialEq, Eq, Structural)]
pub enum Media {
    /// The single-channel RGGB mosaic.
    Bayer,
    /// Packed raw video in the given layout.
    Raw(VideoFormat),
    /// Anything else.
    Other,
}

/// One capability descriptor.
#[derive(Clone, Copy, Debug, PartialEq, Eq)]
pub struct Structure {
    pub media: Media,
    pub width: Option<Dimension>,
    pub height: Option<Dimension>,
    pub framerate: Option<Framerate>,
}

/// On which side of the converter a descriptor was offered.
#[derive(Clone, Copy, Debug, PartialEq, Eq, Structural)]
pub enum PadDirection {
    Unknown,
    Src,
    Sink,
}

impl Dimension {
    /// The concrete positive number the field holds, if it holds one.
    pub open spec fn spec_concrete(self) -> Option<int> {
        match self {
            Dimension::Fixed(v) => if v > 0 {
                Some(v as int)
            } else {
                None
            },
            Dimension::Range { .. } => None,
        }
    }

    /// The concrete positive number the field holds; `None` for a range and
    /// for a number that is zero or negative.
    pub fn concrete(self) -> (value: Option<usize>)
        ensures
            value is Some <==> self.spec_concrete() is Some,
            value is Some ==> value->0 == self.spec_concrete()->0,
    {
        match self {
            Dimension::Fixed(v) => if v > 0 {
                Some(v as usize)
            } else {
                None
            },
            Dimension::Range { .. } => None,
        }
    }
}

/// The concrete positive number in an optional width or height field.
pub open spec fn spec_concrete(field: Option<Dimension>) -> Option<int> {
    match field {
        Some(d) => d.spec_concrete(),
        None => None,
    }
}

/// The concrete positive number in an optional width or height field.
pub fn concrete(field: Option<Dimension>) -> (value: Option<usize>)
    ensures
        value is Some <==> spec_concrete(field) is Some,
        value is Some ==> value->0 == spec_concrete(field)->0,
        value is Some ==> 0 < value->0 <= i32::MAX,
{
    match field {
        Some(d) => d.concrete(),
        None => None,
    }
}

impl Media {
    /// The media a descriptor's name and `format` field stand for.
    ///
    /// A mosaic descriptor stands for the mosaic only in the one supported
    /// tiling, `rggb`; without a `format` field it leaves the tiling open and
    /// is taken for it too. A mosaic descriptor that names another tiling is
    /// not a media the converter knows.
    pub open spec fn spec_parse(name: Seq<char>, format: Option<Seq<char>>) -> Media {
        if name == "video/x-bayer"@ {
            match format {
                Some(f) => if f == "rggb"@ {
                    Media::Bayer
                } else {
                    Media::Other
                },
                None => Media::Bayer,
            }
        } else if name == "video/x-raw"@ {
            match format {
                Some(f) => Media::Raw(VideoFormat::spec_from_name(f)),
                None => Media::Raw(VideoFormat::Unknown),
            }
        } else {
            Media::Other
        }
    }

    /// The descriptor name under which this media is written.
    pub open spec fn spec_name(self) -> Option<Seq<char>> {
        match self {
            Media::Bayer => Some("video/x-bayer"@),
            Media::Raw(_) => Some("video/x-raw"@),
            Media::Other => None,
        }
    }

    /// The `format` field under which this media is written.
    pub open spec fn spec_format_name(self) -> Option<Seq<char>> {
        match self {
            Media::Bayer => Some("rggb"@),
            Media::Raw(f) => if f.spec_is_supported() {
                Some(f.spec_name())
            } else {
                None
            },
            Media::Other => None,
        }
    }

    /// Bytes per pixel, where the media is one the converter handles.
    pub open spec fn spec_channels(self) -> Option<nat> {
        match self {
            Media::Bayer => Some(1),
            Media::Raw(f) => if f.spec_is_supported() {
                Some(f.spec_channels())
            } else {
                None
            },
            Media::Other => None,
        }
    }

    /// Reads a descriptor's name and `format` field. A mosaic descriptor is
    /// the mosaic where its tiling is `rggb` or left open, and an unknown
    /// media where it names any other tiling.
    pub fn parse(name: &str, format: Option<&str>) -> (media: Media)
        ensures
            media == Self::spec_parse(
                name@,
                match format {
                    Some(f) => Some(f@),
                    None => None,
                },
            ),
    {
        if str_eq(name, "video/x-bayer") {
            match format {
                Some(f) => if str_eq(f, "rggb") {
                    Media::Bayer
                } else {
                    Media::Other
                },
                None => Media::Bayer,
            }
        } else if str_eq(name, "video/x-raw") {
            match format {
                Some(f) => Media::Raw(VideoFormat::from_name(f)),
                None => Media::Raw(VideoFormat::Unknown),
            }
        } else {
            Media::Other
        }
    }

    /// A media that the converter handles is read back from the name and
    /// `format` field under which it is written.
    pub proof fn lemma_written_is_read_back(self)
        requires
            self.spec_channels() is Some,
        ensures
            self.spec_name() is Some,
            self.spec_format_name() is Some,
            Self::spec_parse(self.spec_name()->0, self.spec_format_name()) == self,
    {
        reveal_strlit("video/x-bayer");
        reveal_strlit("video/x-raw");
        assert("video/x-bayer"@[8] == 'b');
        assert("video/x-raw"@[8] == 'r');
        match self {
            Media::Raw(f) => {
                f.lemma_name_round_trip();
            },
            _ => {},
        }
    }

    /// The descriptor name under which this media is written; none for
    /// `Other`.
    pub fn name(self) -> (name: Option<&'static str>)
        ensures
            name is Some <==> self.spec_name() is Some,
            name is Some ==> name->0@ == self.spec_name()->0,
    {
        match self {
            Media::Bayer => Some("video/x-bayer"),
            Media::Raw(_) => Some("video/x-raw"),
            Media::Other => None,
        }
    }

    /// The `format` field under which this media is written; none where the
    /// media is not one the converter handles.
    pub fn format_name(self) -> (name: Option<&'static str>)
        ensures
            name is Some <==> self.spec_format_name() is Some,
            name is Some ==> name->0@ == self.spec_format_name()->0,
    {
        match self {
            Media::Bayer => Some("rggb"),
            Media::Raw(f) => if f.is_supported() {
                Some(f.to_str())
            } else {
                None
            },
            Media::Other => None,
        }
    }

    /// Bytes per pixel, where the media is one the converter handles.
    pub fn channels(self) -> (n: Option<usize>)
        ensures
            n is Some <==> self.spec_channels() is Some,
            n is Some ==> n->0 == self.spec_channels()->0,
    {
        match self {
            Media::Bayer => Some(1),
            Media::Raw(f) => if f.is_supported() {
                Some(f.channels())
            } else {
                None
            },
            Media::Other => None,
        }
    }
}

} // verus!
