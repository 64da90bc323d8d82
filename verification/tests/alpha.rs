use bayer2rgb::alpha::{sizes_fit, expand_alpha, OPAQUE};
use bayer2rgb::error::TransformError;

#[test]
fn expansion_adds_an_opaque_alpha_byte_to_every_pixel() {
    let rgb = [1u8, 2, 3, 4, 5, 6, 7, 8, 9, 10, 11, 12];
    let mut out = [0u8; 16];
    assert_eq!(expand_alpha(&rgb, 2, 2, &mut out, 8), Ok(()));
    assert_eq!(out, [1, 2, 3, 255, 4, 5, 6, 255, 7, 8, 9, 255, 10, 11, 12, 255]);
    assert_eq!(OPAQUE, 255);
}

#[test]
fn expansion_leaves_padding_and_trailing_bytes_alone() {
    let rgb = [1u8, 2, 3, 4, 5, 6, 7, 8, 9, 10, 11, 12];
    let mut out = [100u8; 24];
    assert_eq!(expand_alpha(&rgb, 2, 2, &mut out, 10), Ok(()));
    assert_eq!(
        out,
        [
            1, 2, 3, 255, 4, 5, 6, 255, 100, 100, 7, 8, 9, 255, 10, 11, 12, 255, 100, 100, 100,
            100, 100, 100
        ]
    );
}

#[test]
fn expansion_of_a_single_row_and_a_single_column() {
    let rgb = [9u8, 8, 7, 6, 5, 4, 3, 2, 1];
    let mut row = [0u8; 12];
    assert_eq!(expand_alpha(&rgb, 3, 1, &mut row, 12), Ok(()));
    assert_eq!(row, [9, 8, 7, 255, 6, 5, 4, 255, 3, 2, 1, 255]);
    let mut column = [0u8; 14];
    assert_eq!(expand_alpha(&rgb, 1, 3, &mut column, 5), Ok(()));
    assert_eq!(column, [9, 8, 7, 255, 0, 6, 5, 4, 255, 0, 3, 2, 1, 255]);
}

#[test]
fn expansion_needs_only_the_pixels_of_the_last_row() {
    let rgb = [1u8, 2, 3, 4, 5, 6];
    let mut out = [0u8; 14];
    assert_eq!(expand_alpha(&rgb, 1, 2, &mut out, 10), Ok(()));
    assert_eq!(out, [1, 2, 3, 255, 0, 0, 0, 0, 0, 0, 4, 5, 6, 255]);
    let mut short = [0u8; 13];
    assert_eq!(expand_alpha(&rgb, 1, 2, &mut short, 10), Err(TransformError::ConversionFailure));
    assert_eq!(short, [0u8; 13]);
}

#[test]
fn expansion_is_refused_when_sizes_do_not_fit() {
    let rgb = [1u8; 12];
    let mut out = [42u8; 16];
    assert_eq!(expand_alpha(&rgb, 2, 2, &mut out, 7), Err(TransformError::ConversionFailure));
    assert_eq!(expand_alpha(&rgb[..11], 2, 2, &mut out, 8), Err(TransformError::ConversionFailure));
    assert_eq!(expand_alpha(&rgb, 2, 2, &mut out[..15], 8), Err(TransformError::ConversionFailure));
    assert_eq!(expand_alpha(&rgb, 4, 1, &mut out, 8), Err(TransformError::ConversionFailure));
    assert_eq!(expand_alpha(&rgb, 0, 2, &mut out, 8), Err(TransformError::ConversionFailure));
    assert_eq!(expand_alpha(&rgb, 2, 0, &mut out, 8), Err(TransformError::ConversionFailure));
    assert_eq!(expand_alpha(&[], 0, 0, &mut out, 0), Err(TransformError::ConversionFailure));
    assert_eq!(out, [42u8; 16]);
}

#[test]
fn expansion_check_survives_huge_numbers() {
    assert!(!sizes_fit(12, usize::MAX, usize::MAX, 16, usize::MAX));
    assert!(!sizes_fit(usize::MAX, usize::MAX / 3, 1, usize::MAX, usize::MAX));
    assert!(sizes_fit(12, 2, 2, 16, 8));
    assert!(sizes_fit(12, 2, 2, 20, 12));
    assert!(!sizes_fit(12, 2, 2, 19, 12));
    assert!(!sizes_fit(13, 2, 2, 16, 8));
}

#[test]
fn expansion_twice_gives_the_same_frame() {
    let rgb: Vec<u8> = (0..27).collect();
    let mut first = vec![0u8; 40];
    let mut second = vec![200u8; 40];
    assert_eq!(expand_alpha(&rgb, 3, 3, &mut first, 13), Ok(()));
    assert_eq!(expand_alpha(&rgb, 3, 3, &mut second, 13), Ok(()));
    for y in 0..3 {
        assert_eq!(first[13 * y..13 * y + 12], second[13 * y..13 * y + 12]);
    }
    assert_eq!(first[12], 0);
    assert_eq!(second[12], 200);
    assert_eq!(expand_alpha(&rgb, 3, 3, &mut first, 13), Ok(()));
    assert_eq!(first[37], 255);
    assert_eq!(first[38], 0);
    assert_eq!(first[39], 0);
}
