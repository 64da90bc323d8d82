//! What the converter accepts and offers before anything is negotiated.

use vstd::prelude::*;
use crate::caps::{Dimension, Fraction, Framerate, Media, PadDirection, Structure};
use crate::format::{output_formats, VideoFormat};

verus! {

/// One of the converter's two pads with the descriptors it admits.
#[derive(Debug, PartialEq, Eq)]
pub struct PadTemplate {
    pub direction: PadDirection,
    pub caps: Vec<Structure>,
}

/// Any width or height from one pixel up.
pub open spec fn spec_any_dimension() -> Dimension {
    Dimension::Range { min: 1, max: i32::MAX }
}

/// Any frame rate from zero up.
pub open spec fn spec_any_framerate() -> Framerate {
    Framerate::Range {
        min: Fraction { numer: 0, denom: 1 },
        max: Fraction { numer: i32::MAX, denom: 1 },
    }
}

/// A descriptor of the given media with every width, height and frame rate.
pub open spec fn spec_template(media: Media) -> Structure {
    Structure {
        media,
        width: Some(spec_any_dimension()),
        height: Some(spec_any_dimension()),
        framerate: Some(spec_any_framerate()),
    }
}

/// What the sink pad admits: the mosaic, in every size and at every rate.
pub open spec fn spec_sink_caps() -> Seq<Structure> {
    seq![spec_template(Media::Bayer)]
}

/// What the source pad admits: each output layout, in the order in which
/// they are offered, in every size and at every rate.
pub open spec fn spec_src_caps() -> Seq<Structure> {
    Seq::new(3, |i: int| spec_template(Media::Raw(output_formats()[i])))
}

/// A descriptor of the given media with every width, height and frame rate.
pub fn template(media: Media) -> (s: Structure)
    ensures
        s == spec_template(media),
{
    Structure {
        media,
        width: Some(Dimension::Range { min: 1, max: i32::MAX }),
        height: Some(Dimension::Range { min: 1, max: i32::MAX }),
        framerate: Some(
            Framerate::Range {
                min: Fraction { numer: 0, denom: 1 },
                max: Fraction { numer: i32::MAX, denom: 1 },
            },
        ),
    }
}

impl PadTemplate {
    /// The name under which the pad is registered.
    pub open spec fn spec_name(self) -> Seq<char> {
        if self.direction == PadDirection::Src {
            "src"@
        } else {
            "sink"@
        }
    }

    /// The name under which the pad is registered.
    pub fn name(&self) -> (name: &'static str)
        ensures
            name@ == self.spec_name(),
    {
        match self.direction {
            PadDirection::Src => "src",
            _ => "sink",
        }
    }
}

/// The converter's pad templates: the source pad first, then the sink pad.
pub fn pad_templates() -> (templates: Vec<PadTemplate>)
    ensures
        templates@.len() == 2,
        templates@[0].direction == PadDirection::Src,
        templates@[0].caps@ == spec_src_caps(),
        templates@[1].direction == PadDirection::Sink,
        templates@[1].caps@ == spec_sink_caps(),
{
    let formats = VideoFormat::supported();
    let mut src_caps: Vec<Structure> = Vec::new();
    let mut i: usize = 0;
    while i < 3
        invariant
            i <= 3,
            formats@ == output_formats(),
            src_caps@.len() == i,
            forall|k: int|
                0 <= k < i ==> src_caps@[k] == spec_template(Media::Raw(output_formats()[k])),
        decreases 3 - i,
    {
        src_caps.push(template(Media::Raw(formats[i])));
        i += 1;
    }
    assert(src_caps@ =~= spec_src_caps());
    let mut sink_caps: Vec<Structure> = Vec::new();
    sink_caps.push(template(Media::Bayer));
    assert(sink_caps@ =~= spec_sink_caps());
    let mut templates: Vec<PadTemplate> = Vec::new();
    templates.push(PadTemplate { direction: PadDirection::Src, caps: src_caps });
    templates.push(PadTemplate { direction: PadDirection::Sink, caps: sink_caps });
    templates
}

} // verus!
