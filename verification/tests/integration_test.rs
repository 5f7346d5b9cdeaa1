use k_shrink::{process_once, ClipboardError, ClipboardProvider, OutputFormat, ProcessError, ShrinkOptions};
use std::cell::Cell;
use std::io::Cursor;
use std::sync::{Arc, Mutex};

struct MockClipboard {
    capture_result: Result<(Vec<u8>, String), ClipboardError>,
    distributed: Arc<Mutex<Vec<(Vec<u8>, String)>>>,
    capture_count: Cell<usize>,
    refuse_offer: bool,
}

impl MockClipboard {
    fn new(bytes: Vec<u8>, mime: &str) -> Self {
        Self {
            capture_result: Ok((bytes, mime.to_string())),
            distributed: Arc::new(Mutex::new(Vec::new())),
            capture_count: Cell::new(0),
            refuse_offer: false,
        }
    }

    fn failing(err: ClipboardError) -> Self {
        Self {
            capture_result: Err(err),
            distributed: Arc::new(Mutex::new(Vec::new())),
            capture_count: Cell::new(0),
            refuse_offer: false,
        }
    }
}

impl ClipboardProvider for MockClipboard {
    fn capture(&self) -> Result<(Vec<u8>, String), ClipboardError> {
        self.capture_count.set(self.capture_count.get() + 1);
        match &self.capture_result {
            Ok((b, m)) => Ok((b.clone(), m.clone())),
            Err(ClipboardError::Empty) => Err(ClipboardError::Empty),
            Err(ClipboardError::InvalidType(t)) => Err(ClipboardError::InvalidType(t.clone())),
            Err(ClipboardError::BackendError(t)) => Err(ClipboardError::BackendError(t.clone())),
        }
    }

    fn distribute(&self, items: &[(&[u8], &str)]) -> Result<(), ClipboardError> {
        if self.refuse_offer {
            return Err(ClipboardError::BackendError("refused".to_string()));
        }
        let mut lock = self.distributed.lock().unwrap();
        for (data, mime) in items {
            lock.push((data.to_vec(), mime.to_string()));
        }
        Ok(())
    }
}

fn make_png() -> Vec<u8> {
    let img = image::DynamicImage::new_rgb8(8, 8);
    let mut buf = Vec::new();
    img.write_to(&mut Cursor::new(&mut buf), image::ImageFormat::Png)
        .unwrap();
    buf
}

fn webp_opts() -> ShrinkOptions {
    ShrinkOptions {
        quality: 80,
        target_format: OutputFormat::Webp,
    }
}

#[test]
fn image_bytes_are_shrunk_and_distributed_as_webp() {
    let png = make_png();
    let mock = MockClipboard::new(png, "image/png");
    let mut last_hash = None;

    process_once(&mock, &webp_opts(), &[], &mut last_hash).unwrap();

    let dist = mock.distributed.lock().unwrap();
    assert_eq!(dist.len(), 1, "exactly one item distributed");
    assert_eq!(dist[0].1, "image/webp");
}

#[test]
fn same_webp_output_not_reprocessed() {
    let png = make_png();
    let mock = MockClipboard::new(png, "image/png");
    let mut last_hash = None;

    process_once(&mock, &webp_opts(), &[], &mut last_hash).unwrap();

    // After distributing, the clipboard serves image/webp.
    // Next tick: the clipboard returns the webp just written.
    let webp_data = mock.distributed.lock().unwrap()[0].0.clone();
    let mock2 = MockClipboard::new(webp_data, "image/webp");

    process_once(&mock2, &webp_opts(), &[], &mut last_hash).unwrap();

    // hash(webp) == last_hash → skipped
    assert_eq!(mock2.distributed.lock().unwrap().len(), 0);
}

#[test]
fn non_image_mime_not_processed() {
    let mock = MockClipboard::new(b"hello world".to_vec(), "text/plain");
    let mut last_hash = None;

    process_once(&mock, &webp_opts(), &[], &mut last_hash).unwrap();

    assert_eq!(mock.distributed.lock().unwrap().len(), 0);
}

#[test]
fn remembered_hash_is_hash_of_offered_bytes() {
    let mock = MockClipboard::new(make_png(), "image/png");
    let mut last_hash = None;
    process_once(&mock, &webp_opts(), &[], &mut last_hash).unwrap();
    let offered = mock.distributed.lock().unwrap()[0].0.clone();
    assert_eq!(last_hash, Some(k_shrink::image_hash(&offered)));
    assert_eq!(mock.capture_count.get(), 1);
}

#[test]
fn extra_mimes_offered_after_primary_without_duplicate() {
    let mock = MockClipboard::new(make_png(), "image/png");
    let mut last_hash = None;
    let extra = vec![
        "image/png".to_string(),
        "image/webp".to_string(),
        "image/x-custom".to_string(),
    ];
    process_once(&mock, &webp_opts(), &extra, &mut last_hash).unwrap();
    let dist = mock.distributed.lock().unwrap();
    let mimes: Vec<&str> = dist.iter().map(|(_, m)| m.as_str()).collect();
    assert_eq!(mimes, vec!["image/webp", "image/png", "image/x-custom"]);
    assert!(dist.iter().all(|(d, _)| *d == dist[0].0));
}

#[test]
fn empty_and_non_image_clipboard_are_left_alone() {
    let mut last_hash = Some([7u8; 32]);
    let empty = MockClipboard::failing(ClipboardError::Empty);
    process_once(&empty, &webp_opts(), &[], &mut last_hash).unwrap();
    let invalid = MockClipboard::failing(ClipboardError::InvalidType("x".to_string()));
    process_once(&invalid, &webp_opts(), &[], &mut last_hash).unwrap();
    assert_eq!(last_hash, Some([7u8; 32]));
}

#[test]
fn backend_error_is_returned_and_hash_kept() {
    let mut last_hash = Some([1u8; 32]);
    let broken = MockClipboard::failing(ClipboardError::BackendError("boom".to_string()));
    let r = process_once(&broken, &webp_opts(), &[], &mut last_hash);
    assert!(matches!(r, Err(ProcessError::Clipboard(ClipboardError::BackendError(ref m))) if m == "boom"));
    assert_eq!(last_hash, Some([1u8; 32]));
}

#[test]
fn undecodable_image_fails_with_decoding_error() {
    let mock = MockClipboard::new(b"not an image".to_vec(), "image/png");
    let mut last_hash = None;
    let r = process_once(&mock, &webp_opts(), &[], &mut last_hash);
    assert!(matches!(r, Err(ProcessError::Shrink(k_shrink::ShrinkError::DecodingFailed(_)))));
    assert_eq!(last_hash, None);
    assert_eq!(mock.distributed.lock().unwrap().len(), 0);
}

#[test]
fn refused_offer_keeps_hash() {
    let mut mock = MockClipboard::new(make_png(), "image/png");
    mock.refuse_offer = true;
    let mut last_hash = None;
    let r = process_once(&mock, &webp_opts(), &[], &mut last_hash);
    assert!(matches!(r, Err(ProcessError::Clipboard(ClipboardError::BackendError(_)))));
    assert_eq!(last_hash, None);
}

#[test]
fn provider_can_be_a_trait_object() {
    let mock = MockClipboard::new(make_png(), "image/png");
    let provider: &dyn ClipboardProvider = &mock;
    let mut last_hash = None;
    process_once(provider, &webp_opts(), &[], &mut last_hash).unwrap();
    assert!(last_hash.is_some());
    // The same bytes handed back under an image type are left alone.
    let offered = mock.distributed.lock().unwrap()[0].0.clone();
    let again = MockClipboard::new(offered, "image/webp");
    let before = last_hash;
    process_once(&again, &webp_opts(), &[], &mut last_hash).unwrap();
    assert_eq!(last_hash, before);
    assert_eq!(again.distributed.lock().unwrap().len(), 0);
}

#[test]
fn offer_is_prepared_and_round_finished() {
    let extra = vec!["image/webp".to_string(), "image/png".to_string()];
    let offer = k_shrink::prepare_offer(&make_png(), &webp_opts(), &extra).unwrap();
    assert_eq!(offer.mimes, vec!["image/webp".to_string(), "image/png".to_string()]);
    assert_eq!(offer.hash, k_shrink::image_hash(&offer.data));
    let mut last = None;
    k_shrink::finish_round(offer.hash, Ok(()), &mut last).unwrap();
    assert_eq!(last, Some(offer.hash));
    let mut kept = Some([3u8; 32]);
    let r = k_shrink::finish_round(offer.hash, Err(ClipboardError::Empty), &mut kept);
    assert!(matches!(r, Err(ProcessError::Clipboard(ClipboardError::Empty))));
    assert_eq!(kept, Some([3u8; 32]));
}
