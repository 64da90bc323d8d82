use bayer2rgb::caps::{Dimension, Fraction, Framerate, Media, Structure};
use bayer2rgb::format::VideoFormat;
use bayer2rgb::grid::Grid;
use bayer2rgb::size::get_unit_size;
use bayer2rgb::text::str_eq;

fn frame(name: &str, format: Option<&str>, width: i32, height: i32) -> Structure {
    Structure {
        media: Media::parse(name, format),
        width: Some(Dimension::Fixed(width)),
        height: Some(Dimension::Fixed(height)),
        framerate: None,
    }
}

#[test]
fn unit_size_is_width_times_height_times_channels() {
    assert_eq!(get_unit_size(&frame("video/x-raw", Some("RGB"), 640, 480)), Some(921_600));
    assert_eq!(get_unit_size(&frame("video/x-raw", Some("BGR"), 640, 480)), Some(921_600));
    assert_eq!(get_unit_size(&frame("video/x-raw", Some("RGBA"), 640, 480)), Some(1_228_800));
    assert_eq!(get_unit_size(&frame("video/x-bayer", Some("rggb"), 640, 480)), Some(307_200));
    assert_eq!(get_unit_size(&frame("video/x-bayer", None, 640, 480)), Some(307_200));
}

#[test]
fn unit_size_holds_for_many_dimensions() {
    for (w, h) in [(1, 1), (1, 7), (3, 5), (17, 2), (1920, 1080), (4096, 1), (2, 3000)] {
        let pixels = (w as u64) * (h as u64);
        for (format, channels) in [("RGB", 3u64), ("BGR", 3), ("RGBA", 4)] {
            assert_eq!(
                get_unit_size(&frame("video/x-raw", Some(format), w, h)),
                Some(pixels * channels)
            );
        }
        assert_eq!(get_unit_size(&frame("video/x-bayer", Some("rggb"), w, h)), Some(pixels));
    }
}

#[test]
fn unit_size_of_the_largest_frame_does_not_overflow() {
    let max = i32::MAX as u64;
    assert_eq!(
        get_unit_size(&frame("video/x-raw", Some("RGBA"), i32::MAX, i32::MAX)),
        Some(max * max * 4)
    );
    assert_eq!(get_unit_size(&frame("video/x-raw", Some("RGBA"), i32::MAX, i32::MAX)), Some(18_446_744_056_529_682_436));
}

#[test]
fn unit_size_ignores_the_frame_rate() {
    let mut s = frame("video/x-raw", Some("RGB"), 4, 2);
    s.framerate = Some(Framerate::Fixed(Fraction { numer: 30, denom: 1 }));
    assert_eq!(get_unit_size(&s), Some(24));
}

#[test]
fn unit_size_is_refused_for_unrecognized_formats() {
    assert_eq!(get_unit_size(&frame("video/x-raw", Some("I420"), 640, 480)), None);
    assert_eq!(get_unit_size(&frame("video/x-raw", None, 640, 480)), None);
    assert_eq!(get_unit_size(&frame("audio/x-raw", Some("RGB"), 640, 480)), None);
    assert_eq!(get_unit_size(&frame("video/x-raw", Some("UNKNOWN"), 640, 480)), None);
}

#[test]
fn unit_size_is_refused_for_another_mosaic_tiling() {
    assert_eq!(get_unit_size(&frame("video/x-bayer", Some("bggr"), 640, 480)), None);
    assert_eq!(get_unit_size(&frame("video/x-bayer", Some("grbg"), 640, 480)), None);
    assert_eq!(get_unit_size(&frame("video/x-bayer", Some("gbrg"), 640, 480)), None);
    assert_eq!(get_unit_size(&frame("video/x-bayer", Some("RGGB"), 640, 480)), None);
    assert_eq!(get_unit_size(&frame("video/x-bayer", Some("rggb"), 640, 480)), Some(307_200));
}

#[test]
fn unit_size_is_refused_without_concrete_dimensions() {
    let mut s = frame("video/x-raw", Some("RGB"), 640, 480);
    s.width = None;
    assert_eq!(get_unit_size(&s), None);
    let mut s = frame("video/x-raw", Some("RGB"), 640, 480);
    s.height = None;
    assert_eq!(get_unit_size(&s), None);
    let mut s = frame("video/x-bayer", Some("rggb"), 640, 480);
    s.width = Some(Dimension::Range { min: 1, max: 640 });
    assert_eq!(get_unit_size(&s), None);
    assert_eq!(get_unit_size(&frame("video/x-raw", Some("RGB"), 0, 480)), None);
    assert_eq!(get_unit_size(&frame("video/x-raw", Some("RGB"), 640, 0)), None);
    assert_eq!(get_unit_size(&frame("video/x-raw", Some("RGB"), -640, 480)), None);
    assert_eq!(get_unit_size(&frame("video/x-bayer", None, 640, -1)), None);
}

#[test]
fn unit_size_by_layout_value() {
    for (format, channels) in
        [(VideoFormat::Rgb, 3u64), (VideoFormat::Bgr, 3), (VideoFormat::Rgba, 4)]
    {
        let s = Structure {
            media: Media::Raw(format),
            width: Some(Dimension::Fixed(5)),
            height: Some(Dimension::Fixed(7)),
            framerate: None,
        };
        assert_eq!(get_unit_size(&s), Some(35 * channels));
    }
}

#[test]
fn grid_fits_when_every_pixel_lies_in_the_buffer() {
    let packed = Grid { width: 4, height: 2, stride: 12, channels: 3 };
    assert!(packed.fits(24));
    assert!(packed.fits(25));
    assert!(!packed.fits(23));
    let padded = Grid { width: 3, height: 2, stride: 12, channels: 3 };
    assert!(padded.fits(21));
    assert!(padded.fits(24));
    assert!(!padded.fits(20));
}

#[test]
fn grid_does_not_fit_when_rows_overlap_or_it_is_empty() {
    assert!(!Grid { width: 4, height: 2, stride: 11, channels: 3 }.fits(1000));
    assert!(!Grid { width: 0, height: 2, stride: 12, channels: 3 }.fits(1000));
    assert!(!Grid { width: 4, height: 0, stride: 12, channels: 3 }.fits(1000));
    assert!(!Grid { width: 4, height: 2, stride: 12, channels: 0 }.fits(1000));
}

#[test]
fn grid_check_survives_huge_numbers() {
    let huge = Grid { width: usize::MAX, height: usize::MAX, stride: usize::MAX, channels: 4 };
    assert!(!huge.fits(usize::MAX));
    let tall = Grid { width: 1, height: usize::MAX, stride: 2, channels: 1 };
    assert!(!tall.fits(usize::MAX));
    let column = Grid { width: 1, height: usize::MAX, stride: 1, channels: 1 };
    assert!(column.fits(usize::MAX));
    assert!(!column.fits(usize::MAX - 1));
}

#[test]
fn strings_are_compared_by_their_characters() {
    assert!(str_eq("", ""));
    assert!(str_eq("RGB", "RGB"));
    assert!(!str_eq("RGB", "RGBA"));
    assert!(!str_eq("RGB", "BGR"));
    assert!(!str_eq("RGB", "rgb"));
    assert!(str_eq("vidéo/x-raw", "vidéo/x-raw"));
    assert!(!str_eq("vidéo", "video"));
}
