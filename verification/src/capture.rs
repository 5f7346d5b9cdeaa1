//! The order in which a clipboard offer is searched for an image, and what
//! each answer of the clipboard leads to.
use vstd::prelude::*;
use vstd::utf8::encode_utf8;
use crate::errors::ClipboardError;
use crate::shrink::{format_mime, OutputFormat};
use crate::uri_list::{
    extension_mime, lemma_extension_table, select_image_from_uri_list, uri_list_choice, UriListImage,
};

verus! {

/// The image MIME types asked for, in order. WebP comes first, so that the
/// daemon's own (default) output is found before anything else.
pub open spec fn image_mimes() -> Seq<Seq<char>> {
    seq![
        "image/webp"@,
        "image/avif"@,
        "image/png"@,
        "image/jpeg"@,
        "image/gif"@,
        "image/bmp"@,
        "image/tiff"@,
        "image/x-qoi"@,
        "image/x-tga"@,
        "image/x-icon"@,
        "image/vnd.radiance"@,
        "image/x-exr"@,
        "image/x-portable-anymap"@,
        "image/x-farbfeld"@,
    ]
}

/// How many image MIME types are asked for.
pub const IMAGE_MIME_COUNT: usize = 14;

/// The `i`-th image MIME type to ask for.
pub fn image_mime(i: usize) -> (m: String)
    requires
        i < IMAGE_MIME_COUNT,
    ensures
        m@ == image_mimes()[i as int],
{
    match i {
        0 => "image/webp".to_owned(),
        1 => "image/avif".to_owned(),
        2 => "image/png".to_owned(),
        3 => "image/jpeg".to_owned(),
        4 => "image/gif".to_owned(),
        5 => "image/bmp".to_owned(),
        6 => "image/tiff".to_owned(),
        7 => "image/x-qoi".to_owned(),
        8 => "image/x-tga".to_owned(),
        9 => "image/x-icon".to_owned(),
        10 => "image/vnd.radiance".to_owned(),
        11 => "image/x-exr".to_owned(),
        12 => "image/x-portable-anymap".to_owned(),
        _ => "image/x-farbfeld".to_owned(),
    }
}

/// Why the clipboard did not hand out the contents asked for.
#[derive(Debug)]
pub enum PasteFailure {
    /// The clipboard does not offer the MIME type asked for.
    NoMimeType,
    /// There is no seat to read the clipboard of.
    NoSeats,
    /// The clipboard is empty.
    ClipboardEmpty,
    /// Any other failure, including one while reading the contents.
    Other(String),
}

/// What to do next while capturing the clipboard.
#[derive(Debug)]
pub enum CaptureStep {
    /// Ask for the contents under `image_mime(i)`.
    AskImage(usize),
    /// Ask for the contents under `text/uri-list`.
    AskUriList,
    /// Capturing is over, with this result.
    Finish(Result<(Vec<u8>, String), ClipboardError>),
}

/// The step after image MIME type `attempt` gave nothing usable.
pub open spec fn step_after(attempt: int) -> CaptureStep {
    if attempt + 1 < IMAGE_MIME_COUNT {
        CaptureStep::AskImage((attempt + 1) as usize)
    } else {
        CaptureStep::AskUriList
    }
}

/// Capturing starts by asking for the first image MIME type.
pub fn first_capture_step() -> (s: CaptureStep)
    ensures
        s == CaptureStep::AskImage(0),
{
    CaptureStep::AskImage(0)
}

/// What follows the clipboard's answer to image MIME type `attempt`:
/// non-empty contents end the capture; empty contents or a type that is not
/// offered move on to the next type (after the last one, to the URI list);
/// no seat or an empty clipboard ends it with `Empty`; any other failure ends
/// it with `BackendError`.
pub fn capture_step_after_image(
    attempt: usize,
    answer: Result<(Vec<u8>, String), PasteFailure>,
) -> (s: CaptureStep)
    requires
        attempt < IMAGE_MIME_COUNT,
    ensures
        match answer {
            Ok((data, mime)) => if data@.len() > 0 {
                s == CaptureStep::Finish(Ok((data, mime)))
            } else {
                s == step_after(attempt as int)
            },
            Err(PasteFailure::NoMimeType) => s == step_after(attempt as int),
            Err(PasteFailure::NoSeats) => s == CaptureStep::Finish(Err(ClipboardError::Empty)),
            Err(PasteFailure::ClipboardEmpty) => s == CaptureStep::Finish(
                Err(ClipboardError::Empty),
            ),
            Err(PasteFailure::Other(msg)) => s == CaptureStep::Finish(
                Err(ClipboardError::BackendError(msg)),
            ),
        },
{
    let next = if attempt + 1 < IMAGE_MIME_COUNT {
        CaptureStep::AskImage(attempt + 1)
    } else {
        CaptureStep::AskUriList
    };
    match answer {
        Ok((data, mime)) => {
            if data.len() > 0 {
                CaptureStep::Finish(Ok((data, mime)))
            } else {
                next
            }
        },
        Err(PasteFailure::NoMimeType) => next,
        Err(PasteFailure::NoSeats) => CaptureStep::Finish(Err(ClipboardError::Empty)),
        Err(PasteFailure::ClipboardEmpty) => CaptureStep::Finish(Err(ClipboardError::Empty)),
        Err(PasteFailure::Other(msg)) => CaptureStep::Finish(Err(ClipboardError::BackendError(msg))),
    }
}

/// What follows the clipboard's answer to `text/uri-list`: the one image
/// file named in the text (see `select_image_from_uri_list`); a type that is not offered, no seat or an empty
/// clipboard give `Empty`; any other failure gives `BackendError`.
pub fn capture_from_uri_list(answer: Result<String, PasteFailure>) -> (r: Result<
    UriListImage,
    ClipboardError,
>)
    ensures
        match answer {
            Ok(text) => match uri_list_choice(encode_utf8(text@)) {
                Ok((path, mime)) => r matches Ok(img) && img.path@ == path && img.mime_type@
                    == mime,
                Err(message) => r matches Err(ClipboardError::InvalidType(msg)) && msg@
                    == message,
            },
            Err(PasteFailure::Other(msg)) => r matches Err(ClipboardError::BackendError(m)) && m
                == msg,
            Err(_) => r matches Err(ClipboardError::Empty),
        },
{
    match answer {
        Ok(text) => select_image_from_uri_list(text.as_str()),
        Err(PasteFailure::Other(msg)) => Err(ClipboardError::BackendError(msg)),
        Err(_) => Err(ClipboardError::Empty),
    }
}

/// Completes a capture from a URI list once the chosen file has been read:
/// its bytes under the file's MIME type, or, if the read failed, a
/// `BackendError` that names the path and the read error.
pub fn finish_uri_list_read(img: UriListImage, read: Result<Vec<u8>, String>) -> (r: Result<
    (Vec<u8>, String),
    ClipboardError,
>)
    ensures
        match read {
            Ok(data) => r matches Ok((d, m)) && d@ == data@ && m@ == img.mime_type@,
            Err(e) => r matches Err(ClipboardError::BackendError(msg)) && msg@ == img.path@
                + ": "@ + e@,
        },
{
    proof {
        reveal_strlit(": ");
    }
    match read {
        Ok(data) => Ok((data, img.mime_type)),
        Err(e) => {
            let mut msg = img.path;
            msg.append(": ");
            msg.append(e.as_str());
            Err(ClipboardError::BackendError(msg))
        },
    }
}

/// The image types asked for, in order: WebP (the default output) first,
/// then AVIF, PNG, JPEG, GIF, BMP, TIFF, QOI, TGA, ICO, Radiance HDR,
/// OpenEXR, PNM and farbfeld.
pub proof fn lemma_image_mime_order()
    ensures
        image_mimes() == seq![
            "image/webp"@,
            "image/avif"@,
            "image/png"@,
            "image/jpeg"@,
            "image/gif"@,
            "image/bmp"@,
            "image/tiff"@,
            "image/x-qoi"@,
            "image/x-tga"@,
            "image/x-icon"@,
            "image/vnd.radiance"@,
            "image/x-exr"@,
            "image/x-portable-anymap"@,
            "image/x-farbfeld"@,
        ],
{
}

/// Whatever format the daemon writes, a clipboard holding its output under
/// the format's MIME type is found: that type is asked for. The default
/// output, WebP, is asked for first.
pub proof fn lemma_output_format_is_asked_for(format: OutputFormat)
    ensures
        image_mimes().contains(format_mime(format)),
        image_mimes()[0] == format_mime(OutputFormat::Webp),
{
    let m = image_mimes();
    let k: int = match format {
        OutputFormat::Webp => 0,
        OutputFormat::Avif => 1,
        OutputFormat::Png => 2,
        OutputFormat::Jpeg => 3,
        OutputFormat::Gif => 4,
        OutputFormat::Bmp => 5,
        OutputFormat::Tiff => 6,
        OutputFormat::Qoi => 7,
        OutputFormat::Tga => 8,
        OutputFormat::Ico => 9,
        OutputFormat::Hdr => 10,
        OutputFormat::OpenExr => 11,
        OutputFormat::Pnm => 12,
        OutputFormat::Farbfeld => 13,
    };
    assert(m[k] == format_mime(format));
}

/// The image types asked for and the image file extensions agree: every
/// type asked for is the type of some image file extension, and every image
/// file extension's type is asked for.
pub proof fn lemma_asked_types_match_extensions(i: int, ext: Seq<u8>)
    requires
        0 <= i < IMAGE_MIME_COUNT,
    ensures
        exists|e: Seq<u8>| extension_mime(e) == Some(#[trigger] image_mimes()[i]),
        extension_mime(ext) matches Some(m) ==> image_mimes().contains(m),
{
    lemma_extension_table();
    let m = image_mimes();
    let witness: Seq<u8> = if i == 0 {
        seq![0x77u8, 0x65, 0x62, 0x70]
    } else if i == 1 {
        seq![0x61u8, 0x76, 0x69, 0x66]
    } else if i == 2 {
        seq![0x70u8, 0x6E, 0x67]
    } else if i == 3 {
        seq![0x6Au8, 0x70, 0x67]
    } else if i == 4 {
        seq![0x67u8, 0x69, 0x66]
    } else if i == 5 {
        seq![0x62u8, 0x6D, 0x70]
    } else if i == 6 {
        seq![0x74u8, 0x69, 0x66, 0x66]
    } else if i == 7 {
        seq![0x71u8, 0x6F, 0x69]
    } else if i == 8 {
        seq![0x74u8, 0x67, 0x61]
    } else if i == 9 {
        seq![0x69u8, 0x63, 0x6F]
    } else if i == 10 {
        seq![0x68u8, 0x64, 0x72]
    } else if i == 11 {
        seq![0x65u8, 0x78, 0x72]
    } else if i == 12 {
        seq![0x70u8, 0x70, 0x6D]
    } else {
        seq![0x66u8, 0x66]
    };
    assert(extension_mime(witness) == Some(m[i]));
    if let Some(t) = extension_mime(ext) {
        let k: int = if t == "image/webp"@ {
            0
        } else if t == "image/avif"@ {
            1
        } else if t == "image/png"@ {
            2
        } else if t == "image/jpeg"@ {
            3
        } else if t == "image/gif"@ {
            4
        } else if t == "image/bmp"@ {
            5
        } else if t == "image/tiff"@ {
            6
        } else if t == "image/x-qoi"@ {
            7
        } else if t == "image/x-tga"@ {
            8
        } else if t == "image/x-icon"@ {
            9
        } else if t == "image/vnd.radiance"@ {
            10
        } else if t == "image/x-exr"@ {
            11
        } else if t == "image/x-portable-anymap"@ {
            12
        } else {
            13
        };
        assert(m[k] == t);
    }
}

/// Capturing moves forward: after image MIME type `attempt` the next request
/// is for a later image type, or for the URI list once they are all tried.
pub proof fn lemma_capture_moves_forward(attempt: int)
    requires
        0 <= attempt < IMAGE_MIME_COUNT,
    ensures
        match step_after(attempt) {
            CaptureStep::AskImage(next) => attempt < next < IMAGE_MIME_COUNT,
            CaptureStep::AskUriList => attempt == IMAGE_MIME_COUNT - 1,
            CaptureStep::Finish(_) => false,
        },
{
}

} // verus!
