use bayer2rgb::caps::{Dimension, Fraction, Framerate, Media, PadDirection, Structure};
use bayer2rgb::format::VideoFormat;
use bayer2rgb::session::RsBayer2Rgb;
use bayer2rgb::templates::pad_templates;

fn thirty() -> Framerate {
    Framerate::Fixed(Fraction { numer: 30, denom: 1 })
}

fn vga(media: Media) -> Structure {
    Structure {
        media,
        width: Some(Dimension::Fixed(640)),
        height: Some(Dimension::Fixed(480)),
        framerate: Some(thirty()),
    }
}

#[test]
fn sink_to_src_offers_three_layouts_in_order() {
    let derived = RsBayer2Rgb::transform_caps(PadDirection::Sink, &[vga(Media::Bayer)]);
    assert_eq!(
        derived,
        vec![
            vga(Media::Raw(VideoFormat::Rgb)),
            vga(Media::Raw(VideoFormat::Bgr)),
            vga(Media::Raw(VideoFormat::Rgba)),
        ]
    );
    for s in &derived {
        assert_eq!(s.width, Some(Dimension::Fixed(640)));
        assert_eq!(s.height, Some(Dimension::Fixed(480)));
        assert_eq!(s.framerate, Some(Framerate::Fixed(Fraction { numer: 30, denom: 1 })));
    }
}

#[test]
fn src_to_sink_gives_one_mosaic_descriptor_each() {
    for format in [VideoFormat::Rgb, VideoFormat::Bgr, VideoFormat::Rgba] {
        let derived = RsBayer2Rgb::transform_caps(PadDirection::Src, &[vga(Media::Raw(format))]);
        assert_eq!(derived, vec![vga(Media::Bayer)]);
    }
}

#[test]
fn round_trip_reproduces_the_input_descriptor() {
    let input = vga(Media::Bayer);
    let down = RsBayer2Rgb::transform_caps(PadDirection::Sink, &[input]);
    let up = RsBayer2Rgb::transform_caps(PadDirection::Src, &down);
    assert_eq!(up, vec![input, input, input]);
}

#[test]
fn round_trip_of_several_descriptors_keeps_their_order() {
    let a = vga(Media::Bayer);
    let b = Structure { media: Media::Bayer, width: None, height: Some(Dimension::Fixed(2)), framerate: None };
    let down = RsBayer2Rgb::transform_caps(PadDirection::Sink, &[a, b]);
    assert_eq!(down.len(), 6);
    let up = RsBayer2Rgb::transform_caps(PadDirection::Src, &down);
    assert_eq!(up, vec![a, a, a, b, b, b]);
}

#[test]
fn absent_fields_stay_absent() {
    let open = Structure { media: Media::Bayer, width: None, height: None, framerate: None };
    let down = RsBayer2Rgb::transform_caps(PadDirection::Sink, &[open]);
    assert_eq!(down.len(), 3);
    for s in &down {
        assert_eq!(s.width, None);
        assert_eq!(s.height, None);
        assert_eq!(s.framerate, None);
    }
    let only_width = Structure {
        media: Media::Raw(VideoFormat::Rgb),
        width: Some(Dimension::Fixed(16)),
        height: None,
        framerate: None,
    };
    let up = RsBayer2Rgb::transform_caps(PadDirection::Src, &[only_width]);
    assert_eq!(
        up,
        vec![Structure {
            media: Media::Bayer,
            width: Some(Dimension::Fixed(16)),
            height: None,
            framerate: None,
        }]
    );
}

#[test]
fn ranges_are_passed_through_untouched() {
    let ranged = Structure {
        media: Media::Bayer,
        width: Some(Dimension::Range { min: 1, max: 1920 }),
        height: Some(Dimension::Range { min: 1, max: 1080 }),
        framerate: Some(Framerate::Range {
            min: Fraction { numer: 0, denom: 1 },
            max: Fraction { numer: 60, denom: 1 },
        }),
    };
    let down = RsBayer2Rgb::transform_caps(PadDirection::Sink, &[ranged]);
    assert_eq!(down.len(), 3);
    assert_eq!(down[1].media, Media::Raw(VideoFormat::Bgr));
    for s in &down {
        assert_eq!(s.width, ranged.width);
        assert_eq!(s.height, ranged.height);
        assert_eq!(s.framerate, ranged.framerate);
    }
}

#[test]
fn empty_offer_gives_empty_result() {
    assert_eq!(RsBayer2Rgb::transform_caps(PadDirection::Sink, &[]), vec![]);
    assert_eq!(RsBayer2Rgb::transform_caps(PadDirection::Src, &[]), vec![]);
}

#[test]
fn unknown_direction_is_treated_as_sink() {
    let derived = RsBayer2Rgb::transform_caps(PadDirection::Unknown, &[vga(Media::Bayer)]);
    assert_eq!(derived, RsBayer2Rgb::transform_caps(PadDirection::Sink, &[vga(Media::Bayer)]));
    assert_eq!(derived.len(), 3);
}

#[test]
fn source_media_is_not_looked_at() {
    let odd = vga(Media::Other);
    let down = RsBayer2Rgb::transform_caps(PadDirection::Sink, &[odd]);
    assert_eq!(down[0], vga(Media::Raw(VideoFormat::Rgb)));
    let up = RsBayer2Rgb::transform_caps(PadDirection::Src, &[odd]);
    assert_eq!(up, vec![vga(Media::Bayer)]);
}

#[test]
fn templates_list_source_pad_then_sink_pad() {
    let templates = pad_templates();
    assert_eq!(templates.len(), 2);
    let any = Some(Dimension::Range { min: 1, max: i32::MAX });
    let any_rate = Some(Framerate::Range {
        min: Fraction { numer: 0, denom: 1 },
        max: Fraction { numer: i32::MAX, denom: 1 },
    });

    assert_eq!(templates[0].direction, PadDirection::Src);
    assert_eq!(templates[0].name(), "src");
    let medias: Vec<Media> = templates[0].caps.iter().map(|s| s.media).collect();
    assert_eq!(
        medias,
        vec![
            Media::Raw(VideoFormat::Rgb),
            Media::Raw(VideoFormat::Bgr),
            Media::Raw(VideoFormat::Rgba)
        ]
    );
    for s in &templates[0].caps {
        assert_eq!(s.width, any);
        assert_eq!(s.height, any);
        assert_eq!(s.framerate, any_rate);
    }

    assert_eq!(templates[1].direction, PadDirection::Sink);
    assert_eq!(templates[1].name(), "sink");
    assert_eq!(
        templates[1].caps,
        vec![Structure { media: Media::Bayer, width: any, height: any, framerate: any_rate }]
    );
}

#[test]
fn media_is_read_from_name_and_format() {
    assert_eq!(Media::parse("video/x-bayer", Some("rggb")), Media::Bayer);
    assert_eq!(Media::parse("video/x-bayer", None), Media::Bayer);
    assert_eq!(Media::parse("video/x-bayer", Some("bggr")), Media::Other);
    assert_eq!(Media::parse("video/x-bayer", Some("grbg")), Media::Other);
    assert_eq!(Media::parse("video/x-bayer", Some("gbrg")), Media::Other);
    assert_eq!(Media::parse("video/x-bayer", Some("RGGB")), Media::Other);
    assert_eq!(Media::parse("video/x-bayer", Some("")), Media::Other);
    assert_eq!(Media::parse("video/x-bayer", Some("RGB")), Media::Other);
    assert_eq!(Media::parse("video/x-raw", Some("RGB")), Media::Raw(VideoFormat::Rgb));
    assert_eq!(Media::parse("video/x-raw", Some("BGR")), Media::Raw(VideoFormat::Bgr));
    assert_eq!(Media::parse("video/x-raw", Some("RGBA")), Media::Raw(VideoFormat::Rgba));
    assert_eq!(Media::parse("video/x-raw", Some("I420")), Media::Raw(VideoFormat::Unknown));
    assert_eq!(Media::parse("video/x-raw", Some("rgb")), Media::Raw(VideoFormat::Unknown));
    assert_eq!(Media::parse("video/x-raw", None), Media::Raw(VideoFormat::Unknown));
    assert_eq!(Media::parse("video/x-h264", Some("RGB")), Media::Other);
    assert_eq!(Media::parse("", None), Media::Other);
}

#[test]
fn media_is_written_under_its_fixed_names() {
    assert_eq!(Media::Bayer.name(), Some("video/x-bayer"));
    assert_eq!(Media::Bayer.format_name(), Some("rggb"));
    assert_eq!(Media::Raw(VideoFormat::Rgb).name(), Some("video/x-raw"));
    assert_eq!(Media::Raw(VideoFormat::Rgb).format_name(), Some("RGB"));
    assert_eq!(Media::Raw(VideoFormat::Bgr).format_name(), Some("BGR"));
    assert_eq!(Media::Raw(VideoFormat::Rgba).format_name(), Some("RGBA"));
    assert_eq!(Media::Raw(VideoFormat::Unknown).format_name(), None);
    assert_eq!(Media::Other.name(), None);
    assert_eq!(Media::Other.format_name(), None);
    assert_eq!(Media::Bayer.channels(), Some(1));
    assert_eq!(Media::Raw(VideoFormat::Bgr).channels(), Some(3));
    assert_eq!(Media::Raw(VideoFormat::Rgba).channels(), Some(4));
    assert_eq!(Media::Raw(VideoFormat::Unknown).channels(), None);
    assert_eq!(Media::Other.channels(), None);
}

#[test]
fn handled_media_is_read_back_as_written() {
    let mut all = vec![Media::Bayer];
    for f in VideoFormat::supported() {
        all.push(Media::Raw(f));
    }
    for media in all {
        assert_eq!(Media::parse(media.name().unwrap(), media.format_name()), media);
    }
}

#[test]
fn every_supported_layout_is_found_again_under_its_name() {
    let formats = VideoFormat::supported();
    assert_eq!(formats, vec![VideoFormat::Rgb, VideoFormat::Bgr, VideoFormat::Rgba]);
    for f in formats {
        assert!(f.is_supported());
        assert_eq!(VideoFormat::from_name(f.to_str()), f);
        assert_eq!(Media::parse("video/x-raw", Media::Raw(f).format_name()), Media::Raw(f));
    }
    assert!(!VideoFormat::Unknown.is_supported());
    assert_eq!(VideoFormat::from_name("UNKNOWN"), VideoFormat::Unknown);
    assert_eq!(VideoFormat::from_name("RGBx"), VideoFormat::Unknown);
    assert_eq!(VideoFormat::Rgb.channels(), 3);
    assert_eq!(VideoFormat::Bgr.channels(), 3);
    assert_eq!(VideoFormat::Rgba.channels(), 4);
    assert_eq!(VideoFormat::Unknown.channels(), 0);
}

#[test]
fn concrete_dimensions_are_positive_fixed_numbers() {
    assert_eq!(Dimension::Fixed(640).concrete(), Some(640));
    assert_eq!(Dimension::Fixed(1).concrete(), Some(1));
    assert_eq!(Dimension::Fixed(i32::MAX).concrete(), Some(i32::MAX as usize));
    assert_eq!(Dimension::Fixed(0).concrete(), None);
    assert_eq!(Dimension::Fixed(-3).concrete(), None);
    assert_eq!(Dimension::Range { min: 4, max: 4 }.concrete(), None);
}
