//! Picking an image file out of a `text/uri-list` clipboard offer, as file
//! managers place it there on a copy.
use vstd::prelude::*;
use vstd::utf8::encode_utf8;
use crate::errors::ClipboardError;
use crate::percent::{percent_decode_range, percent_decoded, string_from_utf8_lossy, utf8_lossy};
use crate::text::{ascii_lower, find_byte, find_last_byte, has_prefix, index_of, last_index_of, trim, trim_range};

verus! {

/// The file name of a Unix path, as `Path::file_name` finds it: the last
/// component, where empty and `.` components are skipped, and none when that
/// component is `..` or the path has no component left.
pub open spec fn file_name(p: Seq<u8>) -> Option<Seq<u8>>
    decreases p.len(),
{
    let i = last_index_of(p, 0x2F);
    let seg = p.skip(i + 1);
    if seg.len() == 0 || seg == seq![0x2Eu8] {
        if 0 <= i < p.len() {
            file_name(p.take(i))
        } else {
            None
        }
    } else if seg == seq![0x2Eu8, 0x2Eu8] {
        None
    } else {
        Some(seg)
    }
}

/// The extension of a file name, as `Path::extension` finds it: what follows
/// the last `.`, unless there is no `.` or the name starts with its only one.
pub open spec fn extension(name: Seq<u8>) -> Option<Seq<u8>> {
    let j = last_index_of(name, 0x2E);
    if j <= 0 {
        None
    } else {
        Some(name.skip(j + 1))
    }
}

/// The image MIME type of a file extension, compared without regard to case.
///
/// The comparison folds ASCII letters only. Full Unicode lower-casing, as
/// `str::to_lowercase` does it, classifies every extension the same way: the
/// only non-ASCII characters that lower-case into ASCII are U+212A (into `k`,
/// which no name below holds) and U+0130 (into `i` followed by U+0307).
pub open spec fn extension_mime(ext: Seq<u8>) -> Option<Seq<char>> {
    let e = ascii_lower(ext);
    if e == seq![0x70u8, 0x6E, 0x67] {
        Some("image/png"@)
    } else if e == seq![0x6Au8, 0x70, 0x67] || e == seq![0x6Au8, 0x70, 0x65, 0x67] {
        Some("image/jpeg"@)
    } else if e == seq![0x77u8, 0x65, 0x62, 0x70] {
        Some("image/webp"@)
    } else if e == seq![0x61u8, 0x76, 0x69, 0x66] {
        Some("image/avif"@)
    } else if e == seq![0x67u8, 0x69, 0x66] {
        Some("image/gif"@)
    } else if e == seq![0x62u8, 0x6D, 0x70] {
        Some("image/bmp"@)
    } else if e == seq![0x74u8, 0x69, 0x66, 0x66] || e == seq![0x74u8, 0x69, 0x66] {
        Some("image/tiff"@)
    } else if e == seq![0x71u8, 0x6F, 0x69] {
        Some("image/x-qoi"@)
    } else if e == seq![0x74u8, 0x67, 0x61] {
        Some("image/x-tga"@)
    } else if e == seq![0x69u8, 0x63, 0x6F] {
        Some("image/x-icon"@)
    } else if e == seq![0x68u8, 0x64, 0x72] {
        Some("image/vnd.radiance"@)
    } else if e == seq![0x65u8, 0x78, 0x72] {
        Some("image/x-exr"@)
    } else if e == seq![0x70u8, 0x70, 0x6D] || e == seq![0x70u8, 0x67, 0x6D] || e == seq![
        0x70u8,
        0x62,
        0x6D,
    ] || e == seq![0x70u8, 0x61, 0x6D] {
        Some("image/x-portable-anymap"@)
    } else if e == seq![0x66u8, 0x66] {
        Some("image/x-farbfeld"@)
    } else {
        None
    }
}

/// Lower-casing a byte string without upper-case ASCII letters leaves it as
/// it is.
proof fn lemma_lower_unchanged(s: Seq<u8>)
    requires
        forall|i: int| 0 <= i < s.len() ==> !(0x41 <= #[trigger] s[i] <= 0x5A),
    ensures
        ascii_lower(s) == s,
{
    assert(ascii_lower(s) =~= s);
}

/// Extensions are compared without regard to ASCII case: an extension has
/// the MIME type of its lower-case form (so `BMP`, `Bmp` and `bmp` agree).
pub proof fn lemma_extension_case_insensitive(ext: Seq<u8>)
    ensures
        extension_mime(ext) == extension_mime(ascii_lower(ext)),
{
    assert(ascii_lower(ascii_lower(ext)) =~= ascii_lower(ext));
}

/// The image extensions and their MIME types (written in lower case; by
/// `lemma_extension_case_insensitive` any case gives the same): png, jpg and
/// jpeg, webp, avif, gif, bmp, tiff and tif, qoi, tga, ico, hdr, exr, the
/// PNM family ppm, pgm, pbm and pam, and ff for farbfeld.
pub proof fn lemma_extension_table()
    ensures
        extension_mime(seq![0x70u8, 0x6E, 0x67]) == Some("image/png"@),
        extension_mime(seq![0x6Au8, 0x70, 0x67]) == Some("image/jpeg"@),
        extension_mime(seq![0x6Au8, 0x70, 0x65, 0x67]) == Some("image/jpeg"@),
        extension_mime(seq![0x77u8, 0x65, 0x62, 0x70]) == Some("image/webp"@),
        extension_mime(seq![0x61u8, 0x76, 0x69, 0x66]) == Some("image/avif"@),
        extension_mime(seq![0x67u8, 0x69, 0x66]) == Some("image/gif"@),
        extension_mime(seq![0x62u8, 0x6D, 0x70]) == Some("image/bmp"@),
        extension_mime(seq![0x74u8, 0x69, 0x66, 0x66]) == Some("image/tiff"@),
        extension_mime(seq![0x74u8, 0x69, 0x66]) == Some("image/tiff"@),
        extension_mime(seq![0x71u8, 0x6F, 0x69]) == Some("image/x-qoi"@),
        extension_mime(seq![0x74u8, 0x67, 0x61]) == Some("image/x-tga"@),
        extension_mime(seq![0x69u8, 0x63, 0x6F]) == Some("image/x-icon"@),
        extension_mime(seq![0x68u8, 0x64, 0x72]) == Some("image/vnd.radiance"@),
        extension_mime(seq![0x65u8, 0x78, 0x72]) == Some("image/x-exr"@),
        extension_mime(seq![0x70u8, 0x70, 0x6D]) == Some("image/x-portable-anymap"@),
        extension_mime(seq![0x70u8, 0x67, 0x6D]) == Some("image/x-portable-anymap"@),
        extension_mime(seq![0x70u8, 0x62, 0x6D]) == Some("image/x-portable-anymap"@),
        extension_mime(seq![0x70u8, 0x61, 0x6D]) == Some("image/x-portable-anymap"@),
        extension_mime(seq![0x66u8, 0x66]) == Some("image/x-farbfeld"@),
{
    lemma_lower_unchanged(seq![0x70u8, 0x6E, 0x67]);
    lemma_lower_unchanged(seq![0x6Au8, 0x70, 0x67]);
    lemma_lower_unchanged(seq![0x6Au8, 0x70, 0x65, 0x67]);
    lemma_lower_unchanged(seq![0x77u8, 0x65, 0x62, 0x70]);
    lemma_lower_unchanged(seq![0x61u8, 0x76, 0x69, 0x66]);
    lemma_lower_unchanged(seq![0x67u8, 0x69, 0x66]);
    lemma_lower_unchanged(seq![0x62u8, 0x6D, 0x70]);
    lemma_lower_unchanged(seq![0x74u8, 0x69, 0x66, 0x66]);
    lemma_lower_unchanged(seq![0x74u8, 0x69, 0x66]);
    lemma_lower_unchanged(seq![0x71u8, 0x6F, 0x69]);
    lemma_lower_unchanged(seq![0x74u8, 0x67, 0x61]);
    lemma_lower_unchanged(seq![0x69u8, 0x63, 0x6F]);
    lemma_lower_unchanged(seq![0x68u8, 0x64, 0x72]);
    lemma_lower_unchanged(seq![0x65u8, 0x78, 0x72]);
    lemma_lower_unchanged(seq![0x70u8, 0x70, 0x6D]);
    lemma_lower_unchanged(seq![0x70u8, 0x67, 0x6D]);
    lemma_lower_unchanged(seq![0x70u8, 0x62, 0x6D]);
    lemma_lower_unchanged(seq![0x70u8, 0x61, 0x6D]);
    lemma_lower_unchanged(seq![0x66u8, 0x66]);
}

/// The image MIME type of a file path, by its extension.
pub open spec fn path_image_mime(path: Seq<u8>) -> Option<Seq<char>> {
    match file_name(path) {
        Some(name) => match extension(name) {
            Some(ext) => extension_mime(ext),
            None => None,
        },
        None => None,
    }
}

/// The bytes `file://`.
pub open spec fn file_scheme() -> Seq<u8> {
    seq![0x66u8, 0x69, 0x6C, 0x65, 0x3A, 0x2F, 0x2F]
}

/// The image file that one line of a URI list names, with its MIME type: the
/// line is trimmed; blank lines, `#` comments, URIs that are not `file://` and
/// files whose extension is not an image one name none. The path is the
/// percent-decoded rest of the URI.
pub open spec fn line_image(line: Seq<u8>) -> Option<(Seq<char>, Seq<char>)> {
    let t = trim(line);
    if t.len() == 0 || t[0] == 0x23 {
        None
    } else if !has_prefix(t, file_scheme()) {
        None
    } else {
        let path = utf8_lossy(percent_decoded(t.skip(7)));
        match path_image_mime(encode_utf8(path)) {
            Some(mime) => Some((path, mime)),
            None => None,
        }
    }
}

/// The image files that a URI list names, in order, lines being separated by
/// line feeds.
pub open spec fn image_entries(text: Seq<u8>) -> Seq<(Seq<char>, Seq<char>)>
    decreases text.len(),
{
    let j = index_of(text, 0x0A);
    let here = match line_image(text.take(j)) {
        Some(found) => seq![found],
        None => Seq::empty(),
    };
    if 0 <= j < text.len() {
        here + image_entries(text.skip(j + 1))
    } else {
        here
    }
}

/// What a URI list gives: the one image file it names, or, when it names
/// none or several (a multi-file selection, which is ignored), the message of
/// the `InvalidType` error.
pub open spec fn uri_list_choice(text: Seq<u8>) -> Result<(Seq<char>, Seq<char>), Seq<char>> {
    let entries = image_entries(text);
    if entries.len() == 1 {
        Ok(entries[0])
    } else if entries.len() == 0 {
        Err(no_image_message())
    } else {
        Err(several_images_message())
    }
}

/// An image file named in a URI list.
#[derive(Debug)]
pub struct UriListImage {
    pub path: String,
    pub mime_type: String,
}

/// The message of the error given when a URI list names no image file.
pub open spec fn no_image_message() -> Seq<char> {
    "no image files in uri-list"@
}

/// The message of the error given when a URI list names several image files.
pub open spec fn several_images_message() -> Seq<char> {
    "several image files in uri-list"@
}

/// What a found image is, seen as a sequence of at most one entry.
pub open spec fn found_entries(found: Option<UriListImage>) -> Seq<(Seq<char>, Seq<char>)> {
    match found {
        Some(img) => seq![(img.path@, img.mime_type@)],
        None => Seq::empty(),
    }
}

proof fn lemma_last_index_of_bounds(s: Seq<u8>, b: u8)
    ensures
        -1 <= last_index_of(s, b) < s.len(),
        last_index_of(s, b) >= 0 ==> s[last_index_of(s, b)] == b,
    decreases s.len(),
{
    if s.len() > 0 && s.last() != b {
        lemma_last_index_of_bounds(s.drop_last(), b);
    }
}

/// The lower-cased copy of `bytes[start..end]`.
fn ascii_lower_range(bytes: &[u8], start: usize, end: usize) -> (r: Vec<u8>)
    requires
        start <= end <= bytes@.len(),
    ensures
        r@ == ascii_lower(bytes@.subrange(start as int, end as int)),
{
    let mut r: Vec<u8> = Vec::new();
    let mut i = start;
    while i < end
        invariant
            start <= i <= end,
            end <= bytes@.len(),
            r@ == ascii_lower(bytes@.subrange(start as int, i as int)),
        decreases end - i,
    {
        let b = bytes[i];
        let l = if 0x41 <= b && b <= 0x5A { b + 32 } else { b };
        r.push(l);
        i = i + 1;
        assert(r@ =~= ascii_lower(bytes@.subrange(start as int, i as int)));
    }
    r
}

fn bytes_equal(a: &[u8], b: &[u8]) -> (eq: bool)
    ensures
        eq == (a@ == b@),
{
    if a.len() != b.len() {
        return false;
    }
    let mut i: usize = 0;
    while i < a.len()
        invariant
            i <= a@.len(),
            a@.len() == b@.len(),
            forall|k: int| 0 <= k < i ==> a@[k] == b@[k],
        decreases a@.len() - i,
    {
        if a[i] != b[i] {
            return false;
        }
        i = i + 1;
    }
    assert(a@ =~= b@);
    true
}

/// The image MIME type of the extension `bytes[start..end]`.
fn extension_mime_of(bytes: &[u8], start: usize, end: usize) -> (r: Option<String>)
    requires
        start <= end <= bytes@.len(),
    ensures
        match r {
            Some(m) => extension_mime(bytes@.subrange(start as int, end as int)) == Some(m@),
            None => extension_mime(bytes@.subrange(start as int, end as int)) is None,
        },
{
    let lower = ascii_lower_range(bytes, start, end);
    let e = lower.as_slice();
    let png: [u8; 3] = [0x70, 0x6E, 0x67];
    let jpg: [u8; 3] = [0x6A, 0x70, 0x67];
    let jpeg: [u8; 4] = [0x6A, 0x70, 0x65, 0x67];
    let webp: [u8; 4] = [0x77, 0x65, 0x62, 0x70];
    let avif: [u8; 4] = [0x61, 0x76, 0x69, 0x66];
    let gif: [u8; 3] = [0x67, 0x69, 0x66];
    let bmp: [u8; 3] = [0x62, 0x6D, 0x70];
    let tiff: [u8; 4] = [0x74, 0x69, 0x66, 0x66];
    let tif: [u8; 3] = [0x74, 0x69, 0x66];
    let qoi: [u8; 3] = [0x71, 0x6F, 0x69];
    let tga: [u8; 3] = [0x74, 0x67, 0x61];
    let ico: [u8; 3] = [0x69, 0x63, 0x6F];
    let hdr: [u8; 3] = [0x68, 0x64, 0x72];
    let exr: [u8; 3] = [0x65, 0x78, 0x72];
    let ppm: [u8; 3] = [0x70, 0x70, 0x6D];
    let pgm: [u8; 3] = [0x70, 0x67, 0x6D];
    let pbm: [u8; 3] = [0x70, 0x62, 0x6D];
    let pam: [u8; 3] = [0x70, 0x61, 0x6D];
    let ff: [u8; 2] = [0x66, 0x66];
    assert(png@ =~= seq![0x70u8, 0x6E, 0x67]);
    assert(jpg@ =~= seq![0x6Au8, 0x70, 0x67]);
    assert(jpeg@ =~= seq![0x6Au8, 0x70, 0x65, 0x67]);
    assert(webp@ =~= seq![0x77u8, 0x65, 0x62, 0x70]);
    assert(avif@ =~= seq![0x61u8, 0x76, 0x69, 0x66]);
    assert(gif@ =~= seq![0x67u8, 0x69, 0x66]);
    assert(bmp@ =~= seq![0x62u8, 0x6D, 0x70]);
    assert(tiff@ =~= seq![0x74u8, 0x69, 0x66, 0x66]);
    assert(tif@ =~= seq![0x74u8, 0x69, 0x66]);
    assert(qoi@ =~= seq![0x71u8, 0x6F, 0x69]);
    assert(tga@ =~= seq![0x74u8, 0x67, 0x61]);
    assert(ico@ =~= seq![0x69u8, 0x63, 0x6F]);
    assert(hdr@ =~= seq![0x68u8, 0x64, 0x72]);
    assert(exr@ =~= seq![0x65u8, 0x78, 0x72]);
    assert(ppm@ =~= seq![0x70u8, 0x70, 0x6D]);
    assert(pgm@ =~= seq![0x70u8, 0x67, 0x6D]);
    assert(pbm@ =~= seq![0x70u8, 0x62, 0x6D]);
    assert(pam@ =~= seq![0x70u8, 0x61, 0x6D]);
    assert(ff@ =~= seq![0x66u8, 0x66]);
    if bytes_equal(e, png.as_slice()) {
        Some("image/png".to_owned())
    } else if bytes_equal(e, jpg.as_slice()) || bytes_equal(e, jpeg.as_slice()) {
        Some("image/jpeg".to_owned())
    } else if bytes_equal(e, webp.as_slice()) {
        Some("image/webp".to_owned())
    } else if bytes_equal(e, avif.as_slice()) {
        Some("image/avif".to_owned())
    } else if bytes_equal(e, gif.as_slice()) {
        Some("image/gif".to_owned())
    } else if bytes_equal(e, bmp.as_slice()) {
        Some("image/bmp".to_owned())
    } else if bytes_equal(e, tiff.as_slice()) || bytes_equal(e, tif.as_slice()) {
        Some("image/tiff".to_owned())
    } else if bytes_equal(e, qoi.as_slice()) {
        Some("image/x-qoi".to_owned())
    } else if bytes_equal(e, tga.as_slice()) {
        Some("image/x-tga".to_owned())
    } else if bytes_equal(e, ico.as_slice()) {
        Some("image/x-icon".to_owned())
    } else if bytes_equal(e, hdr.as_slice()) {
        Some("image/vnd.radiance".to_owned())
    } else if bytes_equal(e, exr.as_slice()) {
        Some("image/x-exr".to_owned())
    } else if bytes_equal(e, ppm.as_slice()) || bytes_equal(e, pgm.as_slice()) || bytes_equal(
        e,
        pbm.as_slice(),
    ) || bytes_equal(e, pam.as_slice()) {
        Some("image/x-portable-anymap".to_owned())
    } else if bytes_equal(e, ff.as_slice()) {
        Some("image/x-farbfeld".to_owned())
    } else {
        None
    }
}

/// The bounds of the file name of the path `bytes`.
fn file_name_range(bytes: &[u8]) -> (r: Option<(usize, usize)>)
    ensures
        match r {
            Some((s, e)) => s <= e <= bytes@.len() && file_name(bytes@) == Some(
                bytes@.subrange(s as int, e as int),
            ),
            None => file_name(bytes@) is None,
        },
{
    let mut end = bytes.len();
    assert(bytes@.subrange(0, end as int) =~= bytes@);
    loop
        invariant
            end <= bytes@.len(),
            file_name(bytes@) == file_name(bytes@.subrange(0, end as int)),
        decreases end,
    {
        let ghost p = bytes@.subrange(0, end as int);
        let slash = find_last_byte(bytes, 0, end, 0x2F);
        let seg_start = match slash {
            Some(k) => k + 1,
            None => 0,
        };
        proof {
            lemma_last_index_of_bounds(p, 0x2F);
            assert(p.skip(last_index_of(p, 0x2F) + 1) =~= bytes@.subrange(
                seg_start as int,
                end as int,
            ));
        }
        let ghost seg = bytes@.subrange(seg_start as int, end as int);
        let seg_len = end - seg_start;
        if seg_len == 0 || (seg_len == 1 && bytes[seg_start] == 0x2E) {
            assert(seg_len == 1 ==> seg =~= seq![0x2Eu8]);
            assert(seg_len == 0 ==> seg.len() == 0);
            match slash {
                Some(k) => {
                    assert(p.take(k as int) =~= bytes@.subrange(0, k as int));
                    end = k;
                },
                None => {
                    return None;
                },
            }
        } else if seg_len == 2 && bytes[seg_start] == 0x2E && bytes[seg_start + 1] == 0x2E {
            assert(seg =~= seq![0x2Eu8, 0x2Eu8]);
            return None;
        } else {
            assert(seg.len() != 0);
            assert(seg != seq![0x2Eu8]) by {
                if seg_len == 1 {
                    assert(seg[0] != 0x2Eu8);
                }
            }
            assert(seg != seq![0x2Eu8, 0x2Eu8]) by {
                if seg_len == 2 {
                    assert(seg[0] != 0x2Eu8 || seg[1] != 0x2Eu8);
                }
            }
            return Some((seg_start, end));
        }
    }
}

/// The image MIME type of the path `bytes`, by its extension.
pub fn path_image_mime_of(bytes: &[u8]) -> (r: Option<String>)
    ensures
        match r {
            Some(m) => path_image_mime(bytes@) == Some(m@),
            None => path_image_mime(bytes@) is None,
        },
{
    let (s, e) = match file_name_range(bytes) {
        Some(range) => range,
        None => return None,
    };
    let ghost name = bytes@.subrange(s as int, e as int);
    let dot = find_last_byte(bytes, s, e, 0x2E);
    match dot {
        Some(j) => {
            if j == s {
                return None;
            }
            proof {
                assert(name.skip(last_index_of(name, 0x2E) + 1) =~= bytes@.subrange(
                    j + 1,
                    e as int,
                ));
            }
            extension_mime_of(bytes, j + 1, e)
        },
        None => None,
    }
}

/// Whether `bytes[start..end]` starts with `prefix`.
fn range_has_prefix(bytes: &[u8], start: usize, end: usize, prefix: &[u8]) -> (r: bool)
    requires
        start <= end <= bytes@.len(),
    ensures
        r == has_prefix(bytes@.subrange(start as int, end as int), prefix@),
{
    let ghost t = bytes@.subrange(start as int, end as int);
    if end - start < prefix.len() {
        return false;
    }
    let mut i: usize = 0;
    while i < prefix.len()
        invariant
            i <= prefix@.len(),
            start + prefix@.len() <= end <= bytes@.len(),
            t == bytes@.subrange(start as int, end as int),
            forall|k: int| 0 <= k < i ==> t[k] == prefix@[k],
        decreases prefix@.len() - i,
    {
        if bytes[start + i] != prefix[i] {
            assert(t.take(prefix@.len() as int)[i as int] != prefix@[i as int]);
            return false;
        }
        i = i + 1;
    }
    assert(t.take(prefix@.len() as int) =~= prefix@);
    true
}

/// What a found image is, seen as its path and MIME type.
pub open spec fn found_view(r: Option<UriListImage>) -> Option<(Seq<char>, Seq<char>)> {
    match r {
        Some(img) => Some((img.path@, img.mime_type@)),
        None => None,
    }
}

/// The image file that the line `bytes[start..end]` names, if any.
fn line_image_of(bytes: &[u8], start: usize, end: usize) -> (r: Option<UriListImage>)
    requires
        start <= end <= bytes@.len(),
    ensures
        found_view(r) == line_image(bytes@.subrange(start as int, end as int)),
{
    let (s, e) = trim_range(bytes, start, end);
    let ghost t = bytes@.subrange(s as int, e as int);
    if s == e || bytes[s] == 0x23 {
        return None;
    }
    let scheme: [u8; 7] = [0x66, 0x69, 0x6C, 0x65, 0x3A, 0x2F, 0x2F];
    assert(scheme@ =~= file_scheme());
    if !range_has_prefix(bytes, s, e, scheme.as_slice()) {
        return None;
    }
    assert(t.skip(7) =~= bytes@.subrange(s + 7, e as int));
    let decoded = percent_decode_range(bytes, s + 7, e);
    let path = string_from_utf8_lossy(decoded.as_slice());
    let mime = match path_image_mime_of(path.as_str().as_bytes()) {
        Some(m) => m,
        None => return None,
    };
    Some(UriListImage { path, mime_type: mime })
}

/// Picks the image file that a `text/uri-list` offer names: lines are
/// trimmed, blank lines and `#` comments are skipped, as are URIs that are
/// not `file://` and files without an image extension. When no line, or more
/// than one, names an image file, the error is `InvalidType`.
pub fn select_image_from_uri_list(text: &str) -> (r: Result<UriListImage, ClipboardError>)
    ensures
        match uri_list_choice(encode_utf8(text@)) {
            Ok((path, mime)) => r matches Ok(img) && img.path@ == path && img.mime_type@ == mime,
            Err(message) => r matches Err(ClipboardError::InvalidType(msg)) && msg@ == message,
        },
{
    let bytes = text.as_bytes();
    let n = bytes.len();
    let mut i: usize = 0;
    let mut found: Option<UriListImage> = None;
    assert(bytes@.subrange(0, n as int) =~= bytes@);
    assert(found_entries(found) + image_entries(bytes@) =~= image_entries(bytes@));
    loop
        invariant
            i <= n,
            n == bytes@.len(),
            bytes@ == encode_utf8(text@),
            image_entries(bytes@) == found_entries(found) + image_entries(
                bytes@.subrange(i as int, n as int),
            ),
        decreases n - i,
    {
        let ghost rest = bytes@.subrange(i as int, n as int);
        let j = find_byte(bytes, i, n, 0x0A);
        assert(rest.take(j - i) =~= bytes@.subrange(i as int, j as int));
        let line = line_image_of(bytes, i, j);
        let ghost here = match line_image(rest.take(j - i)) {
            Some(e) => seq![e],
            None => Seq::<(Seq<char>, Seq<char>)>::empty(),
        };
        let ghost before = found_entries(found);
        let ghost tail = if j < n {
            image_entries(bytes@.subrange(j + 1, n as int))
        } else {
            Seq::<(Seq<char>, Seq<char>)>::empty()
        };
        proof {
            if j < n {
                assert(rest.skip(j - i + 1) =~= bytes@.subrange(j + 1, n as int));
            }
            assert(image_entries(rest) =~= here + tail);
        }
        match line {
            Some(img) => {
                if found.is_some() {
                    assert(image_entries(bytes@) =~= before + (here + tail));
                    assert(image_entries(bytes@).len() >= 2);
                    return Err(ClipboardError::InvalidType("several image files in uri-list".to_owned()));
                }
                found = Some(img);
                assert(found_entries(found) =~= before + here);
            },
            None => {
                assert(here =~= Seq::<(Seq<char>, Seq<char>)>::empty());
                assert(before + here =~= before);
            },
        }
        assert(image_entries(bytes@) =~= found_entries(found) + tail);
        if j < n {
            i = j + 1;
        } else {
            return match found {
                Some(img) => Ok(img),
                None => Err(ClipboardError::InvalidType("no image files in uri-list".to_owned())),
            };
        }
    }
}

} // verus!
