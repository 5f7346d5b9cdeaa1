use vstd::prelude::*;
use crate::errors::ShrinkError;
use image::codecs::avif::AvifEncoder;
use image::codecs::jpeg::JpegEncoder;
use image::{DynamicImage, ImageFormat};
use std::io::Cursor;

verus! {

/// An image format that compressed output can be written in.
#[derive(Debug, Clone, Copy, PartialEq, Eq, Structural)]
pub enum OutputFormat {
    // Compressed / lossy
    Webp,
    Jpeg,
    Avif,
    // Compressed / lossless
    Png,
    Qoi,
    Farbfeld,
    // Uncompressed
    Bmp,
    Tga,
    Tiff,
    Pnm,
    Ico,
    Gif,
    // HDR / floating-point
    Hdr,
    OpenExr,
}

/// How an image is to be re-encoded.
pub struct ShrinkOptions {
    /// Quality 0–100; only the lossy formats (`Jpeg`, `Avif`) use it.
    pub quality: u8,
    pub target_format: OutputFormat,
}

/// Re-encoded bytes and the MIME type that labels them.
#[derive(Debug)]
pub struct ShrinkResult {
    pub data: Vec<u8>,
    pub mime_type: String,
}

/// The MIME type under which output in `format` is advertised.
pub open spec fn format_mime(format: OutputFormat) -> Seq<char> {
    match format {
        OutputFormat::Jpeg => "image/jpeg"@,
        OutputFormat::Avif => "image/avif"@,
        OutputFormat::Webp => "image/webp"@,
        OutputFormat::Png => "image/png"@,
        OutputFormat::Qoi => "image/x-qoi"@,
        OutputFormat::Farbfeld => "image/x-farbfeld"@,
        OutputFormat::Tiff => "image/tiff"@,
        OutputFormat::Gif => "image/gif"@,
        OutputFormat::Hdr => "image/vnd.radiance"@,
        OutputFormat::OpenExr => "image/x-exr"@,
        OutputFormat::Bmp => "image/bmp"@,
        OutputFormat::Tga => "image/x-tga"@,
        OutputFormat::Pnm => "image/x-portable-anymap"@,
        OutputFormat::Ico => "image/x-icon"@,
    }
}

/// The MIME type of a format, as a `String`.
pub fn mime_type_of(format: OutputFormat) -> (m: String)
    ensures
        m@ == format_mime(format),
{
    match format {
        OutputFormat::Jpeg => "image/jpeg".to_owned(),
        OutputFormat::Avif => "image/avif".to_owned(),
        OutputFormat::Webp => "image/webp".to_owned(),
        OutputFormat::Png => "image/png".to_owned(),
        OutputFormat::Qoi => "image/x-qoi".to_owned(),
        OutputFormat::Farbfeld => "image/x-farbfeld".to_owned(),
        OutputFormat::Tiff => "image/tiff".to_owned(),
        OutputFormat::Gif => "image/gif".to_owned(),
        OutputFormat::Hdr => "image/vnd.radiance".to_owned(),
        OutputFormat::OpenExr => "image/x-exr".to_owned(),
        OutputFormat::Bmp => "image/bmp".to_owned(),
        OutputFormat::Tga => "image/x-tga".to_owned(),
        OutputFormat::Pnm => "image/x-portable-anymap".to_owned(),
        OutputFormat::Ico => "image/x-icon".to_owned(),
    }
}

#[verifier::external_type_specification]
#[verifier::external_body]
pub struct ExDynamicImage(DynamicImage);

/// An image decoded from a byte string. Its view is that byte string: the
/// decoded pixels are a function of it.
pub struct DecodedImage {
    image: DynamicImage,
    source: Ghost<Seq<u8>>,
}

impl View for DecodedImage {
    type V = Seq<u8>;

    closed spec fn view(&self) -> Seq<u8> {
        self.source@
    }
}

/// Whether the image crate recognises these bytes by their leading bytes and
/// decodes them.
pub uninterp spec fn image_decodes(data: Seq<u8>) -> bool;

/// Calls `image::guess_format`, then `image::load_from_memory_with_format`
/// with the format found, so that the image crate's built-in decoders are
/// used. Trusted: decoding succeeds exactly when `image_decodes(data@)`, and
/// the image handed back is the one decoded from `data`; an error is handed
/// back as its message.
#[verifier::external_body]
fn decode_image(data: &[u8]) -> (r: Result<DecodedImage, String>)
    ensures
        r is Ok <==> image_decodes(data@),
        r matches Ok(img) ==> img@ == data@,
{
    let format = match image::guess_format(data) {
        Ok(format) => format,
        Err(e) => return Err(e.to_string()),
    };
    match image::load_from_memory_with_format(data, format) {
        Ok(image) => Ok(DecodedImage { image, source: Ghost(data@) }),
        Err(e) => Err(e.to_string()),
    }
}

/// Whether the image crate writes the same bytes for the same image on every
/// run and machine in this format. AVIF (ravif picks its tile count from the
/// number of rayon threads) and OpenEXR (exr writes chunks in the order
/// parallel compression finishes them) do not.
pub open spec fn reproducible(format: OutputFormat) -> bool {
    !(format is Avif || format is OpenExr)
}

/// The bytes that `DynamicImage::write_to` writes for the image decoded from
/// `source`, in the image crate's format of the same name as `format`, or
/// `None` if that encoder fails; only meaningful for a `reproducible` format.
pub uninterp spec fn format_encoded(source: Seq<u8>, format: OutputFormat) -> Option<Seq<u8>>;

/// The bytes that `JpegEncoder::new_with_quality(quality)` writes for the
/// image decoded from `source`, or `None` if the encoder fails.
pub uninterp spec fn jpeg_encoded(source: Seq<u8>, quality: u8) -> Option<Seq<u8>>;

/// Whether `outcome` is one that `AvifEncoder::new_with_speed_quality(speed,
/// quality)` may give for the image decoded from `source`: `Some` of the AVIF
/// file written (which one depends on the machine's threads) or `None` for a
/// failure.
pub uninterp spec fn avif_outcome(
    source: Seq<u8>,
    speed: u8,
    quality: u8,
    outcome: Option<Seq<u8>>,
) -> bool;

/// Whether `outcome` is one that the image crate's OpenEXR encoder may give
/// for the image decoded from `source`: `Some` of the file written (the order
/// of its chunks depends on thread scheduling) or `None` for a failure.
pub uninterp spec fn exr_outcome(source: Seq<u8>, outcome: Option<Seq<u8>>) -> bool;

/// The bytes an encoder handed back, or `None` if it failed.
pub open spec fn written(r: Result<Vec<u8>, String>) -> Option<Seq<u8>> {
    match r {
        Ok(out) => Some(out@),
        Err(_) => None,
    }
}

/// The eight bytes that start every PNG file.
pub open spec fn png_signature() -> Seq<u8> {
    seq![137u8, 80, 78, 71, 13, 10, 26, 10]
}

/// The four bytes that start every OpenEXR file.
pub open spec fn exr_magic() -> Seq<u8> {
    seq![0x76u8, 0x2f, 0x31, 0x01]
}

/// Whether `out` starts as every WebP file does: `RIFF`, the four bytes of
/// the chunk size, then `WEBP`.
pub open spec fn webp_header(out: Seq<u8>) -> bool {
    &&& out.len() >= 12
    &&& out.take(4) == seq![0x52u8, 0x49, 0x46, 0x46]
    &&& out.subrange(8, 12) == seq![0x57u8, 0x45, 0x42, 0x50]
}

/// `out` starts with `prefix`.
pub open spec fn starts_with(out: Seq<u8>, prefix: Seq<u8>) -> bool {
    out.len() >= prefix.len() && out.take(prefix.len() as int) == prefix
}

/// Calls `DynamicImage::write_to` into a fresh buffer, in the
/// `image::ImageFormat` of the same name as `format`. Trusted: for a
/// `reproducible` format the outcome is `format_encoded` of the image's source
/// bytes and the format; for OpenEXR it is one that `exr_outcome` allows, and
/// bytes handed back start with the OpenEXR magic number; for AVIF
/// (`write_to` uses `AvifEncoder::new`, that is speed 4 and quality 80) it is
/// one that `avif_outcome` allows. PNG output starts with the PNG signature;
/// WebP output (written by `image-webp`'s encoder, which puts `RIFF`, the
/// size and `WEBP` first whether or not there is metadata) with the WebP
/// header.
/// Every encoder starts its output with a header, so output that is handed
/// back is never empty. Which AVIF and OpenEXR outcome comes is not claimed.
/// An error is handed back as its message.
#[verifier::external_body]
fn encode_as(img: &DecodedImage, format: OutputFormat) -> (r: Result<Vec<u8>, String>)
    ensures
        reproducible(format) ==> (r is Ok <==> format_encoded(img@, format) is Some),
        reproducible(format) ==> (r matches Ok(out) ==> format_encoded(img@, format) == Some(
            out@,
        )),
        format is OpenExr ==> exr_outcome(img@, written(r)),
        format is OpenExr ==> (r matches Ok(out) ==> starts_with(out@, exr_magic())),
        format is Avif ==> avif_outcome(img@, 4, 80, written(r)),
        format is Png ==> (r matches Ok(out) ==> starts_with(out@, png_signature())),
        format is Webp ==> (r matches Ok(out) ==> webp_header(out@)),
        r matches Ok(out) ==> out@.len() > 0,
{
    let mut out = Vec::new();
    let f = match format {
        OutputFormat::Jpeg => ImageFormat::Jpeg, OutputFormat::Avif => ImageFormat::Avif,
        OutputFormat::Webp => ImageFormat::WebP, OutputFormat::Png => ImageFormat::Png,
        OutputFormat::Qoi => ImageFormat::Qoi, OutputFormat::Farbfeld => ImageFormat::Farbfeld,
        OutputFormat::Tiff => ImageFormat::Tiff, OutputFormat::Gif => ImageFormat::Gif,
        OutputFormat::Hdr => ImageFormat::Hdr, OutputFormat::OpenExr => ImageFormat::OpenExr,
        OutputFormat::Bmp => ImageFormat::Bmp, OutputFormat::Tga => ImageFormat::Tga,
        OutputFormat::Pnm => ImageFormat::Pnm, OutputFormat::Ico => ImageFormat::Ico,
    };
    match img.image.write_to(&mut Cursor::new(&mut out), f) {
        Ok(()) => Ok(out),
        Err(e) => Err(e.to_string()),
    }
}

/// Calls `DynamicImage::write_with_encoder` with
/// `JpegEncoder::new_with_quality(quality)`, which clamps the quality to
/// 1–100. Trusted: the outcome is `jpeg_encoded` of the image's source bytes
/// and the quality, and output starts with the JPEG start-of-image marker, so
/// it is never empty; an error is handed back as its message.
#[verifier::external_body]
fn encode_jpeg(img: &DecodedImage, quality: u8) -> (r: Result<Vec<u8>, String>)
    ensures
        r is Ok <==> jpeg_encoded(img@, quality) is Some,
        r matches Ok(out) ==> jpeg_encoded(img@, quality) == Some(out@),
        r matches Ok(out) ==> out@.len() > 0,
{
    let mut out = Vec::new();
    match img.image.write_with_encoder(JpegEncoder::new_with_quality(&mut out, quality)) {
        Ok(()) => Ok(out),
        Err(e) => Err(e.to_string()),
    }
}

/// Calls `DynamicImage::write_with_encoder` with
/// `AvifEncoder::new_with_speed_quality(speed, quality)`. That constructor
/// lowers values above 10 and 100 to those bounds, and the `ravif` encoder it
/// builds panics on a speed or quality of 0, which `requires` leaves out.
/// The bytes depend on the number of rayon threads: the outcome is one that
/// `avif_outcome` allows for the image's source bytes, the speed and the
/// quality, and bytes handed back (an AVIF container) are never empty. Which
/// outcome comes is not claimed. An error is handed back as its message.
#[verifier::external_body]
fn encode_avif(img: &DecodedImage, speed: u8, quality: u8) -> (r: Result<Vec<u8>, String>)
    requires
        speed >= 1,
        quality >= 1,
    ensures
        avif_outcome(img@, speed, quality, written(r)),
        r matches Ok(out) ==> out@.len() > 0,
{
    let mut out = Vec::new();
    match img.image.write_with_encoder(AvifEncoder::new_with_speed_quality(&mut out, speed, quality)) {
        Ok(()) => Ok(out),
        Err(e) => Err(e.to_string()),
    }
}

/// The encoder speed used for AVIF output.
pub const AVIF_SPEED: u8 = 6;

/// Whether `quality` can be used with `format`: the AVIF encoder panics on a
/// quality of 0.
pub open spec fn quality_supported(format: OutputFormat, quality: u8) -> bool {
    format is Avif ==> quality >= 1
}

/// The bytes that re-encoding the image decoded from `source` gives, for a
/// `reproducible` format: JPEG is encoded at `quality`, every other format
/// through `write_to`, which takes no quality. `None` if the encoder fails.
pub open spec fn shrink_output(source: Seq<u8>, format: OutputFormat, quality: u8) -> Option<
    Seq<u8>,
> {
    match format {
        OutputFormat::Jpeg => jpeg_encoded(source, quality),
        _ => format_encoded(source, format),
    }
}

/// What `shrink` may give for image bytes that decode (`None` for an encoder
/// failure): for a `reproducible` format exactly `shrink_output`; for AVIF an
/// outcome that `avif_outcome` allows at speed `AVIF_SPEED` and `quality`; for
/// OpenEXR one that `exr_outcome` allows. Bytes given are never empty, and
/// OpenEXR bytes start with the OpenEXR magic number.
pub open spec fn possible_output(
    source: Seq<u8>,
    format: OutputFormat,
    quality: u8,
    encoded: Option<Seq<u8>>,
) -> bool {
    if reproducible(format) {
        encoded == shrink_output(source, format, quality)
    } else {
        &&& encoded matches Some(out) ==> out.len() > 0
        &&& format is OpenExr ==> (encoded matches Some(out) ==> starts_with(out, exr_magic()))
        &&& if format is Avif {
            avif_outcome(source, AVIF_SPEED, quality, encoded)
        } else {
            exr_outcome(source, encoded)
        }
    }
}

/// The bytes `shrink` gave, or `None` if it failed.
pub open spec fn shrunk(r: Result<ShrinkResult, ShrinkError>) -> Option<Seq<u8>> {
    match r {
        Ok(res) => Some(res.data@),
        Err(_) => None,
    }
}

/// Decodes arbitrary image bytes and re-encodes them as PNG, a universally
/// pasteable fallback.
pub fn to_png(data: &[u8]) -> (r: Result<Vec<u8>, ShrinkError>)
    ensures
        !image_decodes(data@) ==> r matches Err(ShrinkError::DecodingFailed(_)),
        image_decodes(data@) ==> match format_encoded(data@, OutputFormat::Png) {
            Some(out) => r matches Ok(png) && png@ == out,
            None => r matches Err(ShrinkError::EncodingFailed(_)),
        },
        r matches Ok(png) ==> png@.len() > 0 && starts_with(png@, png_signature()),
{
    let img = match decode_image(data) {
        Ok(img) => img,
        Err(msg) => return Err(ShrinkError::DecodingFailed(msg)),
    };
    match encode_as(&img, OutputFormat::Png) {
        Ok(out) => Ok(out),
        Err(msg) => Err(ShrinkError::EncodingFailed(msg)),
    }
}

/// Decodes `data` and re-encodes it in `opts.target_format`; see
/// `shrink_output` and `possible_output`. On success the output is non-empty
/// and labelled with the target format's MIME type.
pub fn shrink(data: &[u8], opts: &ShrinkOptions) -> (r: Result<ShrinkResult, ShrinkError>)
    requires
        quality_supported(opts.target_format, opts.quality),
    ensures
        !image_decodes(data@) ==> r matches Err(ShrinkError::DecodingFailed(_)),
        image_decodes(data@) ==> r matches Err(ShrinkError::EncodingFailed(_)) || r matches Ok(
            _,
        ),
        image_decodes(data@) && reproducible(opts.target_format) ==> match shrink_output(
            data@,
            opts.target_format,
            opts.quality,
        ) {
            Some(out) => r matches Ok(res) && res.data@ == out,
            None => r matches Err(ShrinkError::EncodingFailed(_)),
        },
        image_decodes(data@) ==> possible_output(
            data@,
            opts.target_format,
            opts.quality,
            shrunk(r),
        ),
        r matches Ok(res) ==> res.data@.len() > 0 && res.mime_type@ == format_mime(
            opts.target_format,
        ),
        opts.target_format is Png ==> (r matches Ok(res) ==> starts_with(
            res.data@,
            png_signature(),
        )),
        opts.target_format is Webp ==> (r matches Ok(res) ==> webp_header(res.data@)),
        image_decodes(data@) && opts.target_format is Jpeg ==> match jpeg_encoded(
            data@,
            opts.quality,
        ) {
            Some(out) => r matches Ok(res) && res.data@ == out,
            None => r matches Err(ShrinkError::EncodingFailed(_)),
        },
        image_decodes(data@) && reproducible(opts.target_format) && !(opts.target_format is Jpeg)
            ==> match format_encoded(data@, opts.target_format) {
            Some(out) => r matches Ok(res) && res.data@ == out,
            None => r matches Err(ShrinkError::EncodingFailed(_)),
        },
{
    let img = match decode_image(data) {
        Ok(img) => img,
        Err(msg) => return Err(ShrinkError::DecodingFailed(msg)),
    };
    let encoded = match opts.target_format {
        OutputFormat::Jpeg => encode_jpeg(&img, opts.quality),
        OutputFormat::Avif => encode_avif(&img, AVIF_SPEED, opts.quality),
        lossless => encode_as(&img, lossless),
    };
    match encoded {
        Ok(out) => Ok(ShrinkResult { data: out, mime_type: mime_type_of(opts.target_format) }),
        Err(msg) => Err(ShrinkError::EncodingFailed(msg)),
    }
}

/// The lossless and uncompressed formats ignore the quality setting: neither
/// the bytes nor the outcomes that `shrink` may give depend on it.
pub proof fn lemma_quality_ignored_when_lossless(
    source: Seq<u8>,
    format: OutputFormat,
    q1: u8,
    q2: u8,
    encoded: Option<Seq<u8>>,
)
    requires
        !(format is Jpeg || format is Avif),
    ensures
        shrink_output(source, format, q1) == shrink_output(source, format, q2),
        possible_output(source, format, q1, encoded) == possible_output(
            source,
            format,
            q2,
            encoded,
        ),
{
}

/// Re-encoding gives a file of the target format: JPEG comes from the JPEG
/// encoder at the requested quality, and every other reproducible format from
/// the image crate's encoder for that same format.
pub proof fn lemma_output_is_target_format(source: Seq<u8>, format: OutputFormat, quality: u8)
    ensures
        format is Jpeg ==> shrink_output(source, format, quality) == jpeg_encoded(source, quality),
        reproducible(format) && !(format is Jpeg) ==> shrink_output(source, format, quality)
            == format_encoded(source, format),
{
}

/// `to_png` re-encodes as `shrink` does for the PNG format.
pub proof fn lemma_to_png_is_png_shrink(source: Seq<u8>, quality: u8)
    ensures
        shrink_output(source, OutputFormat::Png, quality) == format_encoded(
            source,
            OutputFormat::Png,
        ),
{
}

} // verus!
