//! Capability negotiation: which descriptors the other side of the converter
//! can have, given the descriptors offered on one side.
//!
//! Intersecting the derived descriptors with a filter is left to the caller,
//! who hands the derived list to the pipeline's own caps intersection.

use vstd::prelude::*;
use crate::caps::{Media, PadDirection, Structure};
use crate::format::{output_formats, VideoFormat};
use crate::session::RsBayer2Rgb;

verus! {

/// The mosaic descriptor that can produce what `s` describes: the same width,
/// height and frame rate fields, each present only if `s` has it.
pub open spec fn spec_to_bayer(s: Structure) -> Structure {
    Structure { media: Media::Bayer, width: s.width, height: s.height, framerate: s.framerate }
}

/// The raw descriptor in layout `format` that what `s` describes can be
/// converted to: the same width, height and frame rate fields, each present
/// only if `s` has it.
pub open spec fn spec_to_raw(s: Structure, format: VideoFormat) -> Structure {
    Structure {
        media: Media::Raw(format),
        width: s.width,
        height: s.height,
        framerate: s.framerate,
    }
}

/// The descriptors derived from `caps`.
///
/// For descriptors offered on the source side, one mosaic descriptor per
/// entry. For descriptors offered on the sink side (or on no known side), one
/// raw descriptor per entry and output layout, the layouts of one entry in
/// their fixed order.
pub open spec fn spec_transform_caps(direction: PadDirection, caps: Seq<Structure>) -> Seq<
    Structure,
> {
    if direction == PadDirection::Src {
        Seq::new(caps.len(), |i: int| spec_to_bayer(caps[i]))
    } else {
        Seq::new(3 * caps.len(), |i: int| spec_to_raw(caps[i / 3], output_formats()[i % 3]))
    }
}

/// The mosaic descriptor that can produce what `s` describes.
pub fn to_bayer(s: &Structure) -> (derived: Structure)
    ensures
        derived == spec_to_bayer(*s),
{
    Structure { media: Media::Bayer, width: s.width, height: s.height, framerate: s.framerate }
}

/// The raw descriptor in layout `format` that what `s` describes can be
/// converted to.
pub fn to_raw(s: &Structure, format: VideoFormat) -> (derived: Structure)
    ensures
        derived == spec_to_raw(*s, format),
{
    Structure {
        media: Media::Raw(format),
        width: s.width,
        height: s.height,
        framerate: s.framerate,
    }
}

impl RsBayer2Rgb {
    /// Derives the descriptors of the other side from those offered on one
    /// side. An empty offer gives an empty result.
    pub fn transform_caps(direction: PadDirection, caps: &[Structure]) -> (derived: Vec<Structure>)
        ensures
            derived@ == spec_transform_caps(direction, caps@),
    {
        let mut derived: Vec<Structure> = Vec::new();
        let n = caps.len();
        match direction {
            PadDirection::Src => {
                let mut i: usize = 0;
                while i < n
                    invariant
                        i <= n,
                        n == caps@.len(),
                        derived@.len() == i,
                        forall|k: int| 0 <= k < i ==> derived@[k] == spec_to_bayer(caps@[k]),
                    decreases n - i,
                {
                    derived.push(to_bayer(&caps[i]));
                    i += 1;
                }
                assert(derived@ =~= spec_transform_caps(direction, caps@));
            },
            _ => {
                let formats = VideoFormat::supported();
                let mut i: usize = 0;
                while i < n
                    invariant
                        i <= n,
                        n == caps@.len(),
                        formats@ == output_formats(),
                        derived@.len() == 3 * i,
                        forall|k: int|
                            0 <= k < 3 * i ==> derived@[k] == spec_to_raw(
                                caps@[k / 3],
                                output_formats()[k % 3],
                            ),
                    decreases n - i,
                {
                    let mut j: usize = 0;
                    while j < 3
                        invariant
                            j <= 3,
                            i < n,
                            n == caps@.len(),
                                formats@ == output_formats(),
                            derived@.len() == 3 * i + j,
                            forall|k: int|
                                0 <= k < 3 * i + j ==> derived@[k] == spec_to_raw(
                                    caps@[k / 3],
                                    output_formats()[k % 3],
                                ),
                        decreases 3 - j,
                    {
                        derived.push(to_raw(&caps[i], formats[j]));
                        j += 1;
                    }
                    i += 1;
                }
                assert(derived@ =~= spec_transform_caps(direction, caps@));
            },
        }
        derived
    }
}

/// Negotiating from the sink side to the source side and back gives every
/// mosaic descriptor back unchanged, once for each output layout: format,
/// width, height and frame rate are all preserved.
pub proof fn lemma_round_trip(caps: Seq<Structure>)
    requires
        forall|i: int| 0 <= i < caps.len() ==> (#[trigger] caps[i]).media == Media::Bayer,
    ensures
        spec_transform_caps(PadDirection::Src, spec_transform_caps(PadDirection::Sink, caps)).len()
            == 3 * caps.len(),
        forall|k: int|
            0 <= k < 3 * caps.len() ==> #[trigger] spec_transform_caps(
                PadDirection::Src,
                spec_transform_caps(PadDirection::Sink, caps),
            )[k] == caps[k / 3],
{
}

/// Negotiating a single mosaic descriptor from the sink side to the source
/// side and back reproduces it.
pub proof fn lemma_round_trip_one(s: Structure)
    requires
        s.media == Media::Bayer,
    ensures
        spec_transform_caps(PadDirection::Src, spec_transform_caps(PadDirection::Sink, seq![s]))
            =~= seq![s, s, s],
{
    lemma_round_trip(seq![s]);
}

/// Every derived descriptor carries exactly the width, height and frame rate
/// fields of the descriptor it was derived from: a field that is absent
/// there is absent here, and nothing is filled in.
pub proof fn lemma_fields_carried_over(direction: PadDirection, caps: Seq<Structure>, k: int)
    requires
        0 <= k < spec_transform_caps(direction, caps).len(),
    ensures
        ({
            let derived = spec_transform_caps(direction, caps)[k];
            let origin = if direction == PadDirection::Src {
                caps[k]
            } else {
                caps[k / 3]
            };
            &&& derived.width == origin.width
            &&& derived.height == origin.height
            &&& derived.framerate == origin.framerate
        }),
{
}

} // verus!
