use k_shrink::capture::{
    capture_from_uri_list, capture_step_after_image, first_capture_step, image_mime, CaptureStep,
    PasteFailure, IMAGE_MIME_COUNT,
};
use k_shrink::ClipboardError;

#[test]
fn webp_is_asked_for_first() {
    assert!(matches!(first_capture_step(), CaptureStep::AskImage(0)));
    assert_eq!(image_mime(0), "image/webp");
    assert_eq!(image_mime(IMAGE_MIME_COUNT - 1), "image/x-farbfeld");
}

#[test]
fn contents_finish_capture() {
    let s = capture_step_after_image(2, Ok((vec![1, 2, 3], "image/png".to_string())));
    match s {
        CaptureStep::Finish(Ok((d, m))) => {
            assert_eq!(d, vec![1, 2, 3]);
            assert_eq!(m, "image/png");
        }
        _ => panic!("expected finish"),
    }
}

#[test]
fn empty_contents_or_missing_type_move_on() {
    assert!(matches!(
        capture_step_after_image(0, Ok((vec![], "image/webp".to_string()))),
        CaptureStep::AskImage(1)
    ));
    assert!(matches!(
        capture_step_after_image(5, Err(PasteFailure::NoMimeType)),
        CaptureStep::AskImage(6)
    ));
    assert!(matches!(
        capture_step_after_image(IMAGE_MIME_COUNT - 1, Err(PasteFailure::NoMimeType)),
        CaptureStep::AskUriList
    ));
}

#[test]
fn failures_end_capture() {
    assert!(matches!(
        capture_step_after_image(0, Err(PasteFailure::NoSeats)),
        CaptureStep::Finish(Err(ClipboardError::Empty))
    ));
    assert!(matches!(
        capture_step_after_image(3, Err(PasteFailure::ClipboardEmpty)),
        CaptureStep::Finish(Err(ClipboardError::Empty))
    ));
    assert!(matches!(
        capture_step_after_image(3, Err(PasteFailure::Other("x".to_string()))),
        CaptureStep::Finish(Err(ClipboardError::BackendError(ref m))) if m == "x"
    ));
}

#[test]
fn uri_list_answers() {
    let img = capture_from_uri_list(Ok("file:///p/q.gif\n".to_string())).unwrap();
    assert_eq!(img.path, "/p/q.gif");
    assert_eq!(img.mime_type, "image/gif");
    assert!(matches!(capture_from_uri_list(Err(PasteFailure::NoMimeType)), Err(ClipboardError::Empty)));
    assert!(matches!(capture_from_uri_list(Err(PasteFailure::ClipboardEmpty)), Err(ClipboardError::Empty)));
    assert!(matches!(
        capture_from_uri_list(Err(PasteFailure::Other("e".to_string()))),
        Err(ClipboardError::BackendError(ref m)) if m == "e"
    ));
}
