//! The second pass of the four-channel conversion: a tightly packed RGB image
//! is written into a four-channel frame, row by row through the frame's own
//! stride, with every alpha byte set to fully opaque.

use vstd::prelude::*;
use vstd::arithmetic::div_mod::{lemma_fundamental_div_mod, lemma_fundamental_div_mod_converse};
use vstd::arithmetic::div_mod::lemma_mod_bound;
use vstd::arithmetic::mul::{lemma_mul_inequality, lemma_mul_is_commutative};
use crate::error::TransformError;
use crate::grid::Grid;

verus! {

/// The alpha value written for every pixel.
pub const OPAQUE: u8 = 255;

/// Whether an RGB image of `width` by `height` pixels, held in `rgb_len`
/// bytes without padding, can be expanded into a frame of `out_len` bytes
/// whose rows start `out_stride` bytes apart.
pub open spec fn alpha_fits(
    rgb_len: int,
    width: int,
    height: int,
    out_len: int,
    out_stride: int,
) -> bool {
    &&& width > 0
    &&& height > 0
    &&& rgb_len == width * height * 3
    &&& out_stride >= width * 4
    &&& out_len >= (height - 1) * out_stride + width * 4
}

/// The byte at column `col` of row `row` of the expanded image.
pub open spec fn pixel_byte(rgb: Seq<u8>, width: int, row: int, col: int) -> u8 {
    if col % 4 == 3 {
        OPAQUE
    } else {
        rgb[(row * width + col / 4) * 3 + col % 4]
    }
}

/// The frame after the expansion: inside the pixel rows every byte is a
/// pixel byte; row padding and whatever lies behind the last row keep their
/// earlier content.
pub open spec fn spec_expand_alpha(
    rgb: Seq<u8>,
    before: Seq<u8>,
    width: int,
    height: int,
    stride: int,
) -> Seq<u8> {
    Seq::new(
        before.len(),
        |i: int|
            if i / stride < height && i % stride < 4 * width {
                pixel_byte(rgb, width, i / stride, i % stride)
            } else {
                before[i]
            },
    )
}

/// Byte `i` of the frame once every pixel before pixel `x` of row `y` has
/// been written.
spec fn expanded_upto(
    rgb: Seq<u8>,
    before: Seq<u8>,
    width: int,
    stride: int,
    y: int,
    x: int,
    i: int,
) -> u8 {
    let row = i / stride;
    let col = i % stride;
    if col < 4 * width && (row < y || (row == y && col < 4 * x)) {
        pixel_byte(rgb, width, row, col)
    } else {
        before[i]
    }
}

proof fn lemma_pixel_step(
    rgb: Seq<u8>,
    before: Seq<u8>,
    cur: Seq<u8>,
    next: Seq<u8>,
    width: int,
    stride: int,
    y: int,
    x: int,
)
    requires
        0 <= x < width,
        0 <= y,
        stride >= 4 * width,
        cur.len() == before.len(),
        next.len() == before.len(),
        y * stride + 4 * x + 4 <= before.len(),
        forall|i: int|
            0 <= i < cur.len() ==> cur[i] == expanded_upto(rgb, before, width, stride, y, x, i),
        forall|c: int|
            0 <= c < 4 ==> #[trigger] next[y * stride + 4 * x + c] == pixel_byte(
                rgb,
                width,
                y,
                4 * x + c,
            ),
        forall|i: int|
            0 <= i < cur.len() && !(y * stride + 4 * x <= i < y * stride + 4 * x + 4) ==> next[i]
                == cur[i],
    ensures
        forall|i: int|
            0 <= i < next.len() ==> next[i] == expanded_upto(
                rgb,
                before,
                width,
                stride,
                y,
                x + 1,
                i,
            ),
{
    let d = y * stride + 4 * x;
    assert forall|i: int| 0 <= i < next.len() implies next[i] == expanded_upto(
        rgb,
        before,
        width,
        stride,
        y,
        x + 1,
        i,
    ) by {
        lemma_fundamental_div_mod(i, stride);
        lemma_mod_bound(i, stride);
        lemma_mul_is_commutative(stride, i / stride);
        if d <= i < d + 4 {
            let c = i - d;
            lemma_fundamental_div_mod_converse(i, stride, y, 4 * x + c);
            assert(next[y * stride + 4 * x + c] == pixel_byte(rgb, width, y, 4 * x + c));
        } else {
            assert(next[i] == cur[i]);
            if i / stride == y {
                assert(i == y * stride + i % stride);
            }
        }
    }
}

proof fn lemma_row_bounds(width: int, height: int, stride: int, y: int, x: int)
    requires
        0 <= x < width,
        0 <= y < height,
        stride >= 4 * width,
    ensures
        0 <= y * stride <= (height - 1) * stride,
        0 <= y * width,
        (y * width + x) * 3 + 3 <= width * height * 3,
{
    lemma_mul_inequality(y, height - 1, stride);
    lemma_mul_inequality(y, height - 1, width);
    assert((height - 1) * width == width * height - width) by (nonlinear_arith);
    assert(0 <= y * stride) by (nonlinear_arith)
        requires
            0 <= y,
            0 <= stride,
    ;
    assert(0 <= y * width) by (nonlinear_arith)
        requires
            0 <= y,
            0 <= width,
    ;
}

/// Pixel `x` of row `y` of the expanded frame holds the three colour bytes of
/// the same pixel of the RGB image, in the same order, and then the opaque
/// alpha byte, whatever the frame held before.
pub proof fn lemma_expanded_pixel(
    rgb: Seq<u8>,
    before: Seq<u8>,
    width: int,
    height: int,
    stride: int,
    x: int,
    y: int,
    c: int,
)
    requires
        alpha_fits(rgb.len() as int, width, height, before.len() as int, stride),
        0 <= x < width,
        0 <= y < height,
        0 <= c < 4,
    ensures
        0 <= y * stride + 4 * x + c < before.len(),
        0 <= (y * width + x) * 3 < (y * width + x) * 3 + 3 <= rgb.len(),
        spec_expand_alpha(rgb, before, width, height, stride)[y * stride + 4 * x + c] == if c
            == 3 {
            OPAQUE
        } else {
            rgb[(y * width + x) * 3 + c]
        },
{
    lemma_row_bounds(width, height, stride, y, x);
    let i = y * stride + 4 * x + c;
    lemma_fundamental_div_mod_converse(i, stride, y, 4 * x + c);
    assert((4 * x + c) / 4 == x);
    assert((4 * x + c) % 4 == c);
}

/// Whether `alpha_fits` holds of the given sizes, decided without overflow.
pub fn sizes_fit(
    rgb_len: usize,
    width: usize,
    height: usize,
    out_len: usize,
    out_stride: usize,
) -> (fits: bool)
    ensures
        fits == alpha_fits(
            rgb_len as int,
            width as int,
            height as int,
            out_len as int,
            out_stride as int,
        ),
{
    let frame = Grid { width, height, stride: out_stride, channels: 4 };
    if !frame.fits(out_len) {
        return false;
    }
    proof {
        frame.lemma_fits_pixel_bytes(out_len as int);
        assert(width * height * 3 <= width * height * 4) by (nonlinear_arith)
            requires
                width > 0,
                height > 0,
        ;
        assert(width * height <= width * height * 4) by (nonlinear_arith)
            requires
                width > 0,
                height > 0,
        ;
    }
    rgb_len == width * height * 3
}

/// Expands a packed RGB image into a four-channel frame.
///
/// Where the sizes fit, every pixel of the frame receives the three colour
/// bytes of the same pixel of `rgb`, in the same order, followed by an opaque
/// alpha byte; all other bytes of the frame are left as they were. Where the
/// sizes do not fit, the frame is left untouched and the conversion fails.
pub fn expand_alpha(
    rgb: &[u8],
    width: usize,
    height: usize,
    out: &mut [u8],
    out_stride: usize,
) -> (done: Result<(), TransformError>)
    ensures
        final(out)@.len() == old(out)@.len(),
        alpha_fits(
            rgb@.len() as int,
            width as int,
            height as int,
            old(out)@.len() as int,
            out_stride as int,
        ) ==> done == Ok::<(), TransformError>(()) && final(out)@ == spec_expand_alpha(
            rgb@,
            old(out)@,
            width as int,
            height as int,
            out_stride as int,
        ),
        !alpha_fits(
            rgb@.len() as int,
            width as int,
            height as int,
            old(out)@.len() as int,
            out_stride as int,
        ) ==> done == Err::<(), TransformError>(TransformError::ConversionFailure) && final(out)@
            == old(out)@,
{
    if !sizes_fit(rgb.len(), width, height, out.len(), out_stride) {
        return Err(TransformError::ConversionFailure);
    }
    let ghost before = out@;
    let out_len = out.len();
    let rgb_len = rgb.len();
    let mut y: usize = 0;
    while y < height
        invariant
            y <= height,
            out@.len() == before.len(),
            out_len == before.len(),
            rgb_len == rgb@.len(),
            alpha_fits(
                rgb@.len() as int,
                width as int,
                height as int,
                before.len() as int,
                out_stride as int,
            ),
            forall|i: int|
                0 <= i < out@.len() ==> out@[i] == expanded_upto(
                    rgb@,
                    before,
                    width as int,
                    out_stride as int,
                    y as int,
                    0,
                    i,
                ),
        decreases height - y,
    {
        proof {
            lemma_row_bounds(width as int, height as int, out_stride as int, y as int, 0);
        }
        let row_start = y * out_stride;
        let src_start = y * width;
        let mut x: usize = 0;
        while x < width
            invariant
                x <= width,
                y < height,
                row_start == y * out_stride,
                src_start == y * width,
                out@.len() == before.len(),
                out_len == before.len(),
                rgb_len == rgb@.len(),
                alpha_fits(
                    rgb@.len() as int,
                    width as int,
                    height as int,
                    before.len() as int,
                    out_stride as int,
                ),
                forall|i: int|
                    0 <= i < out@.len() ==> out@[i] == expanded_upto(
                        rgb@,
                        before,
                        width as int,
                        out_stride as int,
                        y as int,
                        x as int,
                        i,
                    ),
            decreases width - x,
        {
            proof {
                lemma_row_bounds(width as int, height as int, out_stride as int, y as int, x as int);
            }
            let ghost cur = out@;
            let d = row_start + 4 * x;
            let s = (src_start + x) * 3;
            out[d] = rgb[s];
            out[d + 1] = rgb[s + 1];
            out[d + 2] = rgb[s + 2];
            out[d + 3] = OPAQUE;
            proof {
                assert forall|c: int| 0 <= c < 4 implies #[trigger] out@[y * out_stride + 4 * x
                    + c] == pixel_byte(rgb@, width as int, y as int, 4 * x + c) by {
                    assert((4 * x + c) / 4 == x);
                    assert((4 * x + c) % 4 == c);
                }
                lemma_pixel_step(
                    rgb@,
                    before,
                    cur,
                    out@,
                    width as int,
                    out_stride as int,
                    y as int,
                    x as int,
                );
            }
            x += 1;
        }
        y += 1;
    }
    assert(out@ =~= spec_expand_alpha(
        rgb@,
        before,
        width as int,
        height as int,
        out_stride as int,
    ));
    Ok(())
}

} // verus!
