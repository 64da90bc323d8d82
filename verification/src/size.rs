//! The size of one frame in bytes.

use vstd::prelude::*;
use crate::caps::{concrete, spec_concrete, Dimension, Framerate, Media, Structure};
use crate::format::VideoFormat;

verus! {

/// The bytes of one frame of what `s` describes: width times height times the
/// bytes of a pixel, without any padding. There is no size where the media is
/// not one the converter handles, or where the width or the height is not a
/// concrete positive number.
pub open spec fn spec_unit_size(s: Structure) -> Option<int> {
    if s.media.spec_channels() is Some && spec_concrete(s.width) is Some && spec_concrete(
        s.height,
    ) is Some {
        Some(spec_concrete(s.width)->0 * spec_concrete(s.height)->0 * s.media.spec_channels()->0)
    } else {
        None
    }
}

/// The bytes of one frame of what `s` describes, or `None` where the size
/// cannot be determined.
pub fn get_unit_size(s: &Structure) -> (size: Option<u64>)
    ensures
        size is Some <==> spec_unit_size(*s) is Some,
        size is Some ==> size->0 == spec_unit_size(*s)->0,
{
    let width = match concrete(s.width) {
        Some(w) => w,
        None => {
            return None;
        },
    };
    let height = match concrete(s.height) {
        Some(h) => h,
        None => {
            return None;
        },
    };
    let channels = match s.media.channels() {
        Some(c) => c,
        None => {
            return None;
        },
    };
    assert(width * height <= i32::MAX * i32::MAX) by (nonlinear_arith)
        requires
            0 < width <= i32::MAX,
            0 < height <= i32::MAX,
    ;
    assert(width * height * channels <= i32::MAX * i32::MAX * 4) by (nonlinear_arith)
        requires
            0 <= width * height <= i32::MAX * i32::MAX,
            0 <= channels <= 4,
    ;
    Some((width as u64) * (height as u64) * (channels as u64))
}

/// A frame of a supported output layout, or of the mosaic, with a concrete
/// positive width and height takes width times height times the bytes of a
/// pixel: three for the two three-channel layouts, four with alpha, one for
/// the mosaic.
pub proof fn lemma_unit_size(media: Media, width: i32, height: i32, framerate: Option<Framerate>)
    requires
        media == Media::Bayer || (media matches Media::Raw(f) && f.spec_is_supported()),
        width > 0,
        height > 0,
    ensures
        ({
            let s = Structure {
                media,
                width: Some(Dimension::Fixed(width)),
                height: Some(Dimension::Fixed(height)),
                framerate,
            };
            let channels: int = match media {
                Media::Raw(VideoFormat::Rgba) => 4,
                Media::Raw(_) => 3,
                _ => 1,
            };
            &&& spec_unit_size(s) == Some(width * height * channels)
            &&& width * height * channels <= u64::MAX
        }),
{
    assert(width * height <= i32::MAX * i32::MAX) by (nonlinear_arith)
        requires
            0 < width <= i32::MAX,
            0 < height <= i32::MAX,
    ;
    assert(width * height * 4 <= i32::MAX * i32::MAX * 4) by (nonlinear_arith)
        requires
            width * height <= i32::MAX * i32::MAX,
    ;
    assert(0 < width * height) by (nonlinear_arith)
        requires
            0 < width,
            0 < height,
    ;
}

} // verus!
