//! The converter's session: the geometry of the current configuration and
//! the intermediate RGB image that the four-channel conversion reuses from
//! frame to frame.
//!
//! A frame is converted in two calls. `transform` decides which demosaicing
//! the frame needs and makes sure that the intermediate image exists where
//! the demosaicing writes into it. The caller runs that demosaicing and then
//! calls `finish_transform`, which adds the alpha channel where the output
//! has one. Whoever shares a session between threads holds one lock over
//! each of these calls and over the demosaicing between them.

use vstd::prelude::*;
use crate::alpha::{alpha_fits, expand_alpha, spec_expand_alpha};
use crate::caps::{spec_concrete, Media, PadDirection, Structure};
use crate::error::{ConfigurationError, TransformError};
use crate::format::{output_formats, VideoFormat};
use crate::geometry::SessionGeometry;
use crate::negotiate::{spec_to_raw, spec_transform_caps};
use crate::plan::{plan, lemma_intermediate_len_bounded, spec_intermediate_len, spec_plan};
use crate::plan::{spec_frames_fit, spec_output_grid, spec_source_grid};
use crate::plan::{Conversion, Strategy, Target};
use crate::size::spec_unit_size;

verus! {

struct State {
    geometry: SessionGeometry,
    intermediate_rgb: Option<Vec<u8>>,
}

/// The converter's session. It starts out unconfigured.
pub struct RsBayer2Rgb {
    state: Option<State>,
}

/// What `transform` decides for a session with the given geometry.
pub open spec fn spec_transform(
    geometry: Option<SessionGeometry>,
    in_len: usize,
    out_len: usize,
    out_stride: usize,
) -> Result<Conversion, TransformError> {
    match geometry {
        None => Err(TransformError::NotConfigured),
        Some(g) => spec_plan(g, in_len, out_len, out_stride),
    }
}

/// The intermediate image after `transform`. It is touched only where the
/// demosaicing is to write into it: an image of the right size is kept, with
/// its content; otherwise a zeroed one of the right size takes its place.
pub open spec fn spec_intermediate_after(
    geometry: Option<SessionGeometry>,
    held: Option<Seq<u8>>,
    decided: Result<Conversion, TransformError>,
) -> Option<Seq<u8>> {
    if decided is Ok && decided->Ok_0.target == Target::Intermediate && geometry is Some {
        let len = spec_intermediate_len(geometry->0);
        if held is Some && held->0.len() == len {
            held
        } else {
            Some(Seq::new(len as nat, |i: int| 0u8))
        }
    } else {
        held
    }
}

/// The result of `finish_transform` and the output frame after it, for a
/// session with the given geometry and intermediate image. The frame is
/// written only where the result is `Ok` and the output has an alpha channel.
pub open spec fn spec_finish(
    geometry: Option<SessionGeometry>,
    held: Option<Seq<u8>>,
    demosaiced: bool,
    before: Seq<u8>,
    out_stride: usize,
) -> (Result<(), TransformError>, Seq<u8>) {
    match geometry {
        None => (Err(TransformError::NotConfigured), before),
        Some(g) => match Strategy::spec_select(g.output.format) {
            Err(e) => (Err(e), before),
            Ok(strategy) => if !demosaiced {
                (Err(TransformError::ConversionFailure), before)
            } else {
                match strategy {
                    Strategy::SinglePass(_) => (Ok(()), before),
                    Strategy::TwoPass => if held is Some && g.output.width == g.input.width
                        && g.output.height == g.input.height && alpha_fits(
                        held->0.len() as int,
                        g.input.width as int,
                        g.input.height as int,
                        before.len() as int,
                        out_stride as int,
                    ) {
                        (
                            Ok(()),
                            spec_expand_alpha(
                                held->0,
                                before,
                                g.input.width as int,
                                g.input.height as int,
                                out_stride as int,
                            ),
                        )
                    } else {
                        (Err(TransformError::ConversionFailure), before)
                    },
                }
            },
        },
    }
}

impl RsBayer2Rgb {
    /// The configured geometry, if there is one.
    pub closed spec fn spec_geometry(&self) -> Option<SessionGeometry> {
        match self.state {
            Some(s) => Some(s.geometry),
            None => None,
        }
    }

    /// The bytes of the intermediate RGB image, if there is one.
    pub closed spec fn spec_intermediate(&self) -> Option<Seq<u8>> {
        match self.state {
            Some(s) => match s.intermediate_rgb {
                Some(b) => Some(b@),
                None => None,
            },
            None => None,
        }
    }

    /// What every session built through this interface satisfies: its
    /// geometry, if it has one, was read from descriptors, and without a
    /// geometry it holds no intermediate image.
    pub open spec fn wf(&self) -> bool {
        &&& self.spec_geometry() is Some ==> self.spec_geometry()->0.wf()
        &&& self.spec_geometry() is None ==> self.spec_intermediate() is None
    }

    /// A session without a configuration.
    pub fn new() -> (session: Self)
        ensures
            session.spec_geometry() is None,
            session.spec_intermediate() is None,
            session.wf(),
    {
        RsBayer2Rgb { state: None }
    }

    /// The configured geometry, if there is one.
    pub fn geometry(&self) -> (geometry: Option<SessionGeometry>)
        ensures
            geometry == self.spec_geometry(),
    {
        match &self.state {
            Some(s) => Some(s.geometry),
            None => None,
        }
    }

    /// The intermediate RGB image, if there is one.
    pub fn intermediate(&self) -> (image: Option<&[u8]>)
        ensures
            image is Some <==> self.spec_intermediate() is Some,
            image is Some ==> image->0@ == self.spec_intermediate()->0,
    {
        match &self.state {
            Some(s) => match &s.intermediate_rgb {
                Some(b) => Some(b.as_slice()),
                None => None,
            },
            None => None,
        }
    }

    /// The intermediate RGB image, for the demosaicing to write into. What
    /// is written there is what the session holds afterwards; nothing else of
    /// the session changes.
    pub fn intermediate_mut(&mut self) -> (image: Option<&mut [u8]>)
        ensures
            image is Some <==> old(self).spec_intermediate() is Some,
            image is Some ==> image->0@ == old(self).spec_intermediate()->0,
            image is Some ==> final(self).spec_intermediate() == Some(final(image->0)@),
            image is None ==> final(self).spec_intermediate() is None,
            final(self).spec_geometry() == old(self).spec_geometry(),
            old(self).wf() ==> final(self).wf(),
    {
        match &mut self.state {
            Some(s) => match &mut s.intermediate_rgb {
                Some(b) => Some(b.as_mut_slice()),
                None => None,
            },
            None => None,
        }
    }

    /// Takes the agreed input and output descriptors and the row stride of
    /// output frames as the session's configuration.
    ///
    /// On success the session holds the geometry that the descriptors
    /// describe and no intermediate image, whatever it held before. On
    /// failure the session is left as it was.
    pub fn set_caps(&mut self, incaps: &Structure, outcaps: &Structure, out_stride: usize) -> (done:
        Result<(), ConfigurationError>)
        ensures
            match SessionGeometry::spec_from_caps(*incaps, *outcaps, out_stride) {
                Ok(g) => {
                    &&& done == Ok::<(), ConfigurationError>(())
                    &&& final(self).spec_geometry() == Some(g)
                    &&& final(self).spec_intermediate() is None
                    &&& final(self).wf()
                },
                Err(e) => {
                    &&& done == Err::<(), ConfigurationError>(e)
                    &&& final(self).spec_geometry() == old(self).spec_geometry()
                    &&& final(self).spec_intermediate() == old(self).spec_intermediate()
                    &&& old(self).wf() ==> final(self).wf()
                },
            },
    {
        match SessionGeometry::from_caps(incaps, outcaps, out_stride) {
            Ok(geometry) => {
                self.state = Some(State { geometry, intermediate_rgb: None });
                Ok(())
            },
            Err(e) => Err(e),
        }
    }

    /// Takes the agreed input and output offers, each as the list of its
    /// descriptors, and the row stride of output frames as the session's
    /// configuration.
    ///
    /// The first descriptor of each offer is taken as by `set_caps`. An
    /// input offer without a descriptor fails for want of a width; an output
    /// offer without one fails as an unusable output once the input has been
    /// found in order. On failure the session is left as it was.
    pub fn set_caps_from_offer(
        &mut self,
        incaps: &[Structure],
        outcaps: &[Structure],
        out_stride: usize,
    ) -> (done: Result<(), ConfigurationError>)
        ensures
            match SessionGeometry::spec_from_offer(incaps@, outcaps@, out_stride) {
                Ok(g) => {
                    &&& done == Ok::<(), ConfigurationError>(())
                    &&& final(self).spec_geometry() == Some(g)
                    &&& final(self).spec_intermediate() is None
                    &&& final(self).wf()
                },
                Err(e) => {
                    &&& done == Err::<(), ConfigurationError>(e)
                    &&& final(self).spec_geometry() == old(self).spec_geometry()
                    &&& final(self).spec_intermediate() == old(self).spec_intermediate()
                    &&& old(self).wf() ==> final(self).wf()
                },
            },
    {
        match SessionGeometry::from_offer(incaps, outcaps, out_stride) {
            Ok(geometry) => {
                self.state = Some(State { geometry, intermediate_rgb: None });
                Ok(())
            },
            Err(e) => Err(e),
        }
    }

    /// Decides how the next frame is converted, given the sizes of its input
    /// and output buffers and the row stride of the output frame.
    ///
    /// Without a configuration the frame is refused as not configured. With
    /// one, the result is the demosaicing that the caller has to run. The
    /// geometry never changes. The intermediate image is touched only where
    /// the demosaicing writes into it, and is then kept if it has the right
    /// size.
    pub fn transform(&mut self, in_len: usize, out_len: usize, out_stride: usize) -> (decided:
        Result<Conversion, TransformError>)
        ensures
            decided == spec_transform(old(self).spec_geometry(), in_len, out_len, out_stride),
            final(self).spec_geometry() == old(self).spec_geometry(),
            final(self).spec_intermediate() == spec_intermediate_after(
                old(self).spec_geometry(),
                old(self).spec_intermediate(),
                decided,
            ),
            old(self).wf() ==> final(self).wf(),
    {
        match &mut self.state {
            None => Err(TransformError::NotConfigured),
            Some(state) => {
                let decided = plan(&state.geometry, in_len, out_len, out_stride);
                match decided {
                    Err(e) => Err(e),
                    Ok(conversion) => {
                        match conversion.target {
                            Target::Output => {},
                            Target::Intermediate => {
                                proof {
                                    lemma_intermediate_len_bounded(
                                        state.geometry,
                                        in_len,
                                        out_len,
                                        out_stride,
                                    );
                                }
                                let len = state.geometry.input.width * state.geometry.input.height
                                    * 3;
                                let keep = match &state.intermediate_rgb {
                                    Some(b) => b.len() == len,
                                    None => false,
                                };
                                if !keep {
                                    let fresh = vec![0u8; len];
                                    assert(fresh@ =~= Seq::new(len as nat, |i: int| 0u8));
                                    state.intermediate_rgb = Some(fresh);
                                }
                            },
                        }
                        Ok(conversion)
                    },
                }
            },
        }
    }

    /// Completes a frame after the caller has run the demosaicing that
    /// `transform` asked for; `demosaiced` says whether it succeeded.
    ///
    /// For a three-channel output nothing is left to do. For the
    /// four-channel output the intermediate image is expanded into the output
    /// frame through the frame's own stride. A failed demosaicing, a missing
    /// intermediate image or buffers that do not fit the geometry fail the
    /// frame and leave the output untouched.
    pub fn finish_transform(&self, demosaiced: bool, out: &mut [u8], out_stride: usize) -> (done:
        Result<(), TransformError>)
        ensures
            final(out)@.len() == old(out)@.len(),
            done == spec_finish(
                self.spec_geometry(),
                self.spec_intermediate(),
                demosaiced,
                old(out)@,
                out_stride,
            ).0,
            final(out)@ == spec_finish(
                self.spec_geometry(),
                self.spec_intermediate(),
                demosaiced,
                old(out)@,
                out_stride,
            ).1,
    {
        let state = match &self.state {
            None => {
                return Err(TransformError::NotConfigured);
            },
            Some(s) => s,
        };
        let strategy = match Strategy::select(state.geometry.output.format) {
            Err(e) => {
                return Err(e);
            },
            Ok(s) => s,
        };
        if !demosaiced {
            return Err(TransformError::ConversionFailure);
        }
        match strategy {
            Strategy::SinglePass(_) => Ok(()),
            Strategy::TwoPass => {
                if state.geometry.output.width != state.geometry.input.width
                    || state.geometry.output.height != state.geometry.input.height {
                    return Err(TransformError::ConversionFailure);
                }
                match &state.intermediate_rgb {
                    None => Err(TransformError::ConversionFailure),
                    Some(rgb) => expand_alpha(
                        rgb.as_slice(),
                        state.geometry.input.width,
                        state.geometry.input.height,
                        out,
                        out_stride,
                    ),
                }
            },
        }
    }
}

/// A session configured through `set_caps` never refuses a frame for its
/// layout: the output layout is one of the supported three, so every frame is
/// either decided or refused because its buffers do not fit.
pub proof fn lemma_configured_layout_is_supported(
    session: RsBayer2Rgb,
    in_len: usize,
    out_len: usize,
    out_stride: usize,
    frame: Seq<u8>,
    demosaiced: bool,
)
    requires
        session.wf(),
        session.spec_geometry() is Some,
    ensures
        spec_transform(session.spec_geometry(), in_len, out_len, out_stride) != Err::<
            Conversion,
            TransformError,
        >(TransformError::UnsupportedFormat),
        spec_transform(session.spec_geometry(), in_len, out_len, out_stride) != Err::<
            Conversion,
            TransformError,
        >(TransformError::NotConfigured),
        spec_finish(
            session.spec_geometry(),
            session.spec_intermediate(),
            demosaiced,
            frame,
            out_stride,
        ).0 != Err::<(), TransformError>(TransformError::UnsupportedFormat),
{
}

/// What negotiation offers can be configured and converted: each output
/// descriptor derived from a mosaic descriptor with a concrete width and
/// height is taken by `set_caps` together with that mosaic descriptor, given
/// a stride that holds a row of pixels, and a frame whose buffers hold the
/// pixels of both sides is then decided, not refused.
pub proof fn lemma_negotiated_caps_convert(
    incaps: Structure,
    k: int,
    stride: usize,
    in_len: usize,
    out_len: usize,
)
    requires
        spec_concrete(incaps.width) is Some,
        spec_concrete(incaps.height) is Some,
        0 <= k < 3,
        stride >= spec_concrete(incaps.width)->0 * output_formats()[k].spec_channels(),
        in_len >= spec_concrete(incaps.width)->0 * spec_concrete(incaps.height)->0,
        out_len >= (spec_concrete(incaps.height)->0 - 1) * stride + spec_concrete(
            incaps.width,
        )->0 * output_formats()[k].spec_channels(),
    ensures
        ({
            let outcaps = spec_transform_caps(PadDirection::Sink, seq![incaps])[k];
            let configured = SessionGeometry::spec_from_caps(incaps, outcaps, stride);
            &&& configured is Ok
            &&& configured->Ok_0.wf()
            &&& configured->Ok_0.output.format == output_formats()[k]
            &&& spec_transform(Some(configured->Ok_0), in_len, out_len, stride) is Ok
        }),
{
    let w = spec_concrete(incaps.width)->0;
    let h = spec_concrete(incaps.height)->0;
    let format = output_formats()[k];
    let c = format.spec_channels() as int;
    let outcaps = spec_transform_caps(PadDirection::Sink, seq![incaps])[k];
    assert(outcaps == spec_to_raw(incaps, format));
    assert(format.spec_is_supported());
    let geometry = SessionGeometry::spec_from_caps(incaps, outcaps, stride)->Ok_0;
    assert(geometry.input.width == w && geometry.input.height == h && geometry.input.stride == w);
    assert(geometry.output.width == w && geometry.output.height == h);
    assert(geometry.output.format == format);
    assert((h - 1) * w + w == w * h) by (nonlinear_arith);
    assert(h * w == w * h) by (nonlinear_arith);
    assert(spec_source_grid(geometry).spec_fits(in_len as int));
    assert(spec_output_grid(geometry, stride).spec_row_bytes() == w * c);
    assert(spec_output_grid(geometry, stride).spec_fits(out_len as int));
    assert(spec_frames_fit(geometry, in_len, out_len, stride));
}

/// Converting a frame to a three-channel layout leaves the session exactly
/// as it was: the demosaicing writes straight into the output frame, no
/// intermediate image is made or touched, and finishing the frame leaves the
/// output as the demosaicing wrote it. The same frame is therefore decided
/// and finished in the same way however often it is converted.
pub proof fn lemma_single_pass_keeps_session(
    geometry: SessionGeometry,
    held: Option<Seq<u8>>,
    in_len: usize,
    out_len: usize,
    out_stride: usize,
    frame: Seq<u8>,
)
    requires
        geometry.output.format == VideoFormat::Rgb || geometry.output.format == VideoFormat::Bgr,
    ensures
        ({
            let decided = spec_transform(Some(geometry), in_len, out_len, out_stride);
            &&& spec_intermediate_after(Some(geometry), held, decided) == held
            &&& decided is Ok ==> {
                &&& decided->Ok_0.target == Target::Output
                &&& decided->Ok_0.dest.channels == 3
                &&& decided->Ok_0.dest.spec_fits(out_len as int)
            }
            &&& spec_finish(Some(geometry), held, true, frame, out_stride) == (
                Ok::<(), TransformError>(()),
                frame,
            )
        }),
{
}

/// The pixels of a converted frame take exactly as many bytes as
/// `get_unit_size` gives for the output descriptor that the session was
/// configured with, and a frame is only converted where both buffers hold at
/// least as many bytes as `get_unit_size` gives for their descriptors.
pub proof fn lemma_frame_sizes(
    incaps: Structure,
    outcaps: Structure,
    stride: usize,
    in_len: usize,
    out_len: usize,
    out_stride: usize,
)
    requires
        SessionGeometry::spec_from_caps(incaps, outcaps, stride) is Ok,
    ensures
        ({
            let geometry = SessionGeometry::spec_from_caps(incaps, outcaps, stride)->Ok_0;
            let decided = spec_transform(Some(geometry), in_len, out_len, out_stride);
            &&& spec_unit_size(outcaps) == Some(
                spec_output_grid(geometry, out_stride).spec_pixel_bytes(),
            )
            &&& decided is Ok ==> out_len >= spec_unit_size(outcaps)->0
            &&& decided is Ok && incaps.media == Media::Bayer ==> spec_unit_size(incaps) is Some
                && in_len >= spec_unit_size(incaps)->0
        }),
{
    let geometry = SessionGeometry::spec_from_caps(incaps, outcaps, stride)->Ok_0;
    let decided = spec_transform(Some(geometry), in_len, out_len, out_stride);
    if decided is Ok {
        spec_output_grid(geometry, out_stride).lemma_fits_pixel_bytes(out_len as int);
        spec_source_grid(geometry).lemma_fits_pixel_bytes(in_len as int);
    }
}

/// An intermediate image of the right size is reused: whatever frame comes
/// next under the same geometry, and whatever the image holds, deciding the
/// frame leaves the image in place with its content.
pub proof fn lemma_intermediate_reused(
    geometry: SessionGeometry,
    held: Seq<u8>,
    in_len: usize,
    out_len: usize,
    out_stride: usize,
)
    requires
        held.len() == spec_intermediate_len(geometry),
    ensures
        spec_intermediate_after(
            Some(geometry),
            Some(held),
            spec_transform(Some(geometry), in_len, out_len, out_stride),
        ) == Some(held),
{
}

/// Once a four-channel frame has been decided, the session holds an
/// intermediate image sized to the current geometry, whatever it held
/// before: nothing after a reconfiguration, or an image of another size.
/// Finishing the frame then succeeds, and what it writes is taken from that
/// image alone.
pub proof fn lemma_intermediate_sized(
    geometry: SessionGeometry,
    held: Option<Seq<u8>>,
    in_len: usize,
    out_len: usize,
    out_stride: usize,
    image: Seq<u8>,
    frame: Seq<u8>,
)
    requires
        geometry.output.format == VideoFormat::Rgba,
        spec_transform(Some(geometry), in_len, out_len, out_stride) is Ok,
        image.len() == spec_intermediate_len(geometry),
        frame.len() == out_len,
    ensures
        ({
            let decided = spec_transform(Some(geometry), in_len, out_len, out_stride);
            let after = spec_intermediate_after(Some(geometry), held, decided);
            &&& decided->Ok_0.target == Target::Intermediate
            &&& decided->Ok_0.dest.spec_fits(spec_intermediate_len(geometry))
            &&& decided->Ok_0.dest.spec_pixel_bytes() == spec_intermediate_len(geometry)
            &&& after is Some
            &&& after->0.len() == spec_intermediate_len(geometry)
            &&& spec_finish(Some(geometry), Some(image), true, frame, out_stride) == (
                Ok::<(), TransformError>(()),
                spec_expand_alpha(
                    image,
                    frame,
                    geometry.input.width as int,
                    geometry.input.height as int,
                    out_stride as int,
                ),
            )
        }),
{
    lemma_intermediate_len_bounded(geometry, in_len, out_len, out_stride);
    let w = geometry.input.width as int;
    let h = geometry.input.height as int;
    assert((h - 1) * (w * 3) + w * 3 == w * h * 3) by (nonlinear_arith);
}

impl Default for RsBayer2Rgb {
    fn default() -> (session: Self)
        ensures
            session.spec_geometry() is None,
            session.spec_intermediate() is None,
            session.wf(),
    {
        RsBayer2Rgb::new()
    }
}

} // verus!
