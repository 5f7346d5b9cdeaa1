use k_shrink::capture::finish_uri_list_read;
use k_shrink::{percent_decode, select_image_from_uri_list, ClipboardError};

#[test]
fn percent_decode_spaces() {
    assert_eq!(
        percent_decode("/home/user/my%20file.png"),
        "/home/user/my file.png"
    );
}

#[test]
fn percent_decode_no_encoding() {
    assert_eq!(
        percent_decode("/home/user/photo.jpg"),
        "/home/user/photo.jpg"
    );
}

#[test]
fn percent_decode_edge_cases() {
    assert_eq!(percent_decode("%41%42"), "AB");
    assert_eq!(percent_decode("%4"), "%4");
    assert_eq!(percent_decode("%zz"), "%zz");
    assert_eq!(percent_decode("%+a"), "\n");
    assert_eq!(percent_decode("%C3%A9"), "é");
    assert_eq!(percent_decode("%FF"), "\u{FFFD}");
    assert_eq!(percent_decode("100%"), "100%");
}

#[test]
fn uri_list_skips_comments_and_non_image() {
    let input = "# comment\nfile:///home/user/doc.pdf\nfile:///home/user/photo.png\n";
    // doc.pdf is skipped and photo.png chosen; reading it fails because the
    // file does not exist, which gives a BackendError (not InvalidType).
    let img = select_image_from_uri_list(input).unwrap();
    assert_eq!(img.path, "/home/user/photo.png");
    assert_eq!(img.mime_type, "image/png");
    let result = finish_uri_list_read(img, Err("No such file or directory (os error 2)".to_string()));
    assert!(matches!(result, Err(ClipboardError::BackendError(_))));
}

#[test]
fn uri_list_read_outcomes() {
    let img = select_image_from_uri_list("file:///tmp/a.png").unwrap();
    let failed = finish_uri_list_read(img, Err("denied".to_string()));
    assert!(matches!(failed, Err(ClipboardError::BackendError(ref m)) if m == "/tmp/a.png: denied"));
    let img = select_image_from_uri_list("file:///tmp/a.png").unwrap();
    let (data, mime) = finish_uri_list_read(img, Ok(vec![1, 2, 3])).unwrap();
    assert_eq!(data, vec![1, 2, 3]);
    assert_eq!(mime, "image/png");
}

#[test]
fn uri_list_no_images_returns_invalid_type() {
    let input = "file:///home/user/doc.pdf\nfile:///home/user/notes.txt\n";
    let result = select_image_from_uri_list(input);
    assert!(matches!(result, Err(ClipboardError::InvalidType(ref m)) if m == "no image files in uri-list"));
}

#[test]
fn uri_list_trims_and_handles_crlf_and_case() {
    let input = "  \r\n\thttp://x/y.png\r\n  file:///tmp/A%20B.JPEG \r\n";
    let img = select_image_from_uri_list(input).unwrap();
    assert_eq!(img.path, "/tmp/A B.JPEG");
    assert_eq!(img.mime_type, "image/jpeg");
}

#[test]
fn uri_list_unicode_whitespace_is_trimmed() {
    let input = "\u{3000}file:///tmp/x.webp\u{00A0}";
    let img = select_image_from_uri_list(input).unwrap();
    assert_eq!(img.path, "/tmp/x.webp");
    assert_eq!(img.mime_type, "image/webp");
}

#[test]
fn uri_list_extension_rules() {
    assert!(select_image_from_uri_list("file:///tmp/.png").is_err());
    assert!(select_image_from_uri_list("file:///tmp/png").is_err());
    assert!(select_image_from_uri_list("file:///tmp/x.png/..").is_err());
    let img = select_image_from_uri_list("file:///tmp/x.tif/./").unwrap();
    assert_eq!(img.mime_type, "image/tiff");
    let img = select_image_from_uri_list("file:///a/b.c.pam").unwrap();
    assert_eq!(img.mime_type, "image/x-portable-anymap");
    let img = select_image_from_uri_list("file:///a/b.ff").unwrap();
    assert_eq!(img.mime_type, "image/x-farbfeld");
}

#[test]
fn empty_uri_list_is_invalid_type() {
    assert!(matches!(select_image_from_uri_list(""), Err(ClipboardError::InvalidType(_))));
}

#[test]
fn multi_file_selection_is_ignored() {
    let input = "file:///home/user/a.png\nfile:///home/user/b.jpg\n";
    let result = select_image_from_uri_list(input);
    assert!(matches!(result, Err(ClipboardError::InvalidType(ref m)) if m == "several image files in uri-list"));
}

#[test]
fn one_image_among_other_files_is_chosen() {
    let input = "file:///home/user/a.txt\n# note\nfile:///home/user/b.gif\nfile:///home/user/c.pdf";
    let img = select_image_from_uri_list(input).unwrap();
    assert_eq!(img.path, "/home/user/b.gif");
}

#[test]
fn percent_encoding_round_trip() {
    let original = "/home/ü ser/%x.png";
    let encoded: String = original.bytes().map(|b| format!("%{:02X}", b)).collect();
    assert_eq!(percent_decode(&encoded), original);
}
