use k_shrink::shrink::mime_type_of;
use k_shrink::{shrink, to_png, OutputFormat, ShrinkError, ShrinkOptions};
use std::io::Cursor;

fn make_png() -> Vec<u8> {
    let img = image::DynamicImage::new_rgb8(8, 8);
    let mut buf = Vec::new();
    img.write_to(&mut Cursor::new(&mut buf), image::ImageFormat::Png)
        .unwrap();
    buf
}

fn make_jpeg() -> Vec<u8> {
    let img = image::DynamicImage::new_rgb8(8, 8);
    let mut buf = Vec::new();
    img.write_to(&mut Cursor::new(&mut buf), image::ImageFormat::Jpeg)
        .unwrap();
    buf
}

#[test]
fn png_to_webp() {
    let result = shrink(
        &make_png(),
        &ShrinkOptions {
            quality: 80,
            target_format: OutputFormat::Webp,
        },
    )
    .unwrap();
    assert_eq!(result.mime_type, "image/webp");
    assert!(!result.data.is_empty());
}

#[test]
fn jpeg_quality_50_produces_output() {
    let jpeg = make_jpeg();
    let result = shrink(
        &jpeg,
        &ShrinkOptions {
            quality: 50,
            target_format: OutputFormat::Jpeg,
        },
    )
    .unwrap();
    assert_eq!(result.mime_type, "image/jpeg");
    assert!(!result.data.is_empty());
}

#[test]
fn random_bytes_decoding_failed() {
    let err = shrink(
        b"not an image at all",
        &ShrinkOptions {
            quality: 80,
            target_format: OutputFormat::Webp,
        },
    )
    .unwrap_err();
    assert!(matches!(err, ShrinkError::DecodingFailed(_)));
}

#[test]
fn quality_zero_produces_valid_output() {
    let result = shrink(
        &make_jpeg(),
        &ShrinkOptions {
            quality: 0,
            target_format: OutputFormat::Jpeg,
        },
    )
    .unwrap();
    assert!(!result.data.is_empty());
}

#[test]
fn quality_max_produces_valid_output() {
    let result = shrink(
        &make_jpeg(),
        &ShrinkOptions {
            quality: 100,
            target_format: OutputFormat::Jpeg,
        },
    )
    .unwrap();
    assert!(!result.data.is_empty());
}

#[test]
fn output_is_decodable_in_target_format() {
    let result = shrink(
        &make_png(),
        &ShrinkOptions {
            quality: 80,
            target_format: OutputFormat::Png,
        },
    )
    .unwrap();
    assert_eq!(result.mime_type, "image/png");
    assert_eq!(image::guess_format(&result.data).unwrap(), image::ImageFormat::Png);
}

#[test]
fn lossless_formats_are_labelled() {
    for (format, mime) in [
        (OutputFormat::Qoi, "image/x-qoi"),
        (OutputFormat::Bmp, "image/bmp"),
        (OutputFormat::Tiff, "image/tiff"),
        (OutputFormat::Gif, "image/gif"),
        (OutputFormat::Tga, "image/x-tga"),
        (OutputFormat::Ico, "image/x-icon"),
        (OutputFormat::Pnm, "image/x-portable-anymap"),
    ] {
        let r = shrink(&make_png(), &ShrinkOptions { quality: 10, target_format: format }).unwrap();
        assert_eq!(r.mime_type, mime);
        assert!(!r.data.is_empty());
    }
}

#[test]
fn mime_table() {
    assert_eq!(mime_type_of(OutputFormat::Farbfeld), "image/x-farbfeld");
    assert_eq!(mime_type_of(OutputFormat::Hdr), "image/vnd.radiance");
    assert_eq!(mime_type_of(OutputFormat::OpenExr), "image/x-exr");
    assert_eq!(mime_type_of(OutputFormat::Avif), "image/avif");
}

#[test]
fn to_png_reencodes() {
    let png = to_png(&make_jpeg()).unwrap();
    assert_eq!(image::guess_format(&png).unwrap(), image::ImageFormat::Png);
    assert!(matches!(to_png(b"garbage"), Err(ShrinkError::DecodingFailed(_))));
}

#[test]
fn avif_at_lowest_supported_quality() {
    let r = shrink(&make_png(), &ShrinkOptions { quality: 1, target_format: OutputFormat::Avif }).unwrap();
    assert_eq!(r.mime_type, "image/avif");
    assert!(!r.data.is_empty());
}

#[test]
fn quality_does_not_change_lossless_output() {
    let a = shrink(&make_png(), &ShrinkOptions { quality: 0, target_format: OutputFormat::Webp }).unwrap();
    let b = shrink(&make_png(), &ShrinkOptions { quality: 100, target_format: OutputFormat::Webp }).unwrap();
    assert_eq!(a.data, b.data);
}

#[test]
fn to_png_agrees_with_png_shrink() {
    let a = to_png(&make_jpeg()).unwrap();
    let b = shrink(&make_jpeg(), &ShrinkOptions { quality: 7, target_format: OutputFormat::Png }).unwrap();
    assert_eq!(a, b.data);
}

#[test]
fn openexr_rejects_8_bit_images() {
    let r = shrink(&make_png(), &ShrinkOptions { quality: 80, target_format: OutputFormat::OpenExr });
    assert!(matches!(r, Err(ShrinkError::EncodingFailed(_))));
}

#[test]
fn to_png_starts_with_png_signature() {
    let png = to_png(&make_jpeg()).unwrap();
    assert_eq!(&png[..8], &[137u8, 80, 78, 71, 13, 10, 26, 10]);
    let r = shrink(&make_jpeg(), &ShrinkOptions { quality: 50, target_format: OutputFormat::Png }).unwrap();
    assert_eq!(&r.data[..8], &[137u8, 80, 78, 71, 13, 10, 26, 10]);
}

#[test]
fn avif_output_is_an_avif_container() {
    let r = shrink(&make_png(), &ShrinkOptions { quality: 60, target_format: OutputFormat::Avif }).unwrap();
    assert_eq!(&r.data[4..12], b"ftypavif");
}

#[test]
fn openexr_output_starts_with_magic_number() {
    let img = image::DynamicImage::ImageRgba32F(image::ImageBuffer::from_pixel(
        8,
        8,
        image::Rgba([0.25f32, 0.5, 0.75, 1.0]),
    ));
    let mut exr = Vec::new();
    img.write_to(&mut Cursor::new(&mut exr), image::ImageFormat::OpenExr).unwrap();
    let r = shrink(&exr, &ShrinkOptions { quality: 80, target_format: OutputFormat::OpenExr }).unwrap();
    assert_eq!(r.mime_type, "image/x-exr");
    assert_eq!(&r.data[..4], &[0x76u8, 0x2f, 0x31, 0x01]);
}
