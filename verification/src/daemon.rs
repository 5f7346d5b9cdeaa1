//! One round of the daemon: take the clipboard's image, shrink it, and offer
//! the result back, skipping what it produced itself.
use vstd::prelude::*;
use crate::errors::{clipboard_message, shrink_message, ClipboardError, ShrinkError};
use crate::hash::{hashes_equal, image_hash, sha256};
use crate::shrink::{
    format_mime, image_decodes, png_signature, possible_output, quality_supported, reproducible,
    shrink, shrink_output, starts_with, OutputFormat, ShrinkOptions,
};

verus! {

/// A clipboard that the daemon reads images from and writes them back to.
pub trait ClipboardProvider {
    /// Whether `contents` is something this clipboard may hand out when read.
    /// A clipboard that says nothing of its contents allows anything.
    open spec fn handed_out(&self, contents: Result<(Vec<u8>, String), ClipboardError>) -> bool {
        true
    }

    /// Whether this clipboard has taken up `items`, (data, MIME type) pairs in
    /// the order they were offered. A clipboard that keeps no record of what
    /// it took allows anything.
    open spec fn took(&self, items: Seq<(Seq<u8>, Seq<char>)>) -> bool {
        true
    }

    /// The clipboard's contents and their MIME type.
    fn capture(&self) -> (r: Result<(Vec<u8>, String), ClipboardError>)
        ensures
            self.handed_out(r),
    ;

    /// Offers one or more (data, MIME type) pairs on the clipboard, so that a
    /// receiver can pick the type it supports; once it succeeds, the clipboard
    /// has taken them up.
    fn distribute(&self, items: &[(&[u8], &str)]) -> (r: Result<(), ClipboardError>)
        ensures
            r is Ok ==> self.took(item_views(items@)),
    ;
}

/// The (data, MIME type) pairs of offered items, as plain values.
pub open spec fn item_views(items: Seq<(&[u8], &str)>) -> Seq<(Seq<u8>, Seq<char>)> {
    items.map_values(|p: (&[u8], &str)| (p.0@, p.1@))
}

/// The items that offer the same bytes under each of `mimes`, in order.
pub open spec fn offer_view(data: Seq<u8>, mimes: Seq<Seq<char>>) -> Seq<(Seq<u8>, Seq<char>)> {
    mimes.map_values(|m: Seq<char>| (data, m))
}

/// Why a round failed.
#[derive(Debug)]
pub enum ProcessError {
    Clipboard(ClipboardError),
    Shrink(ShrinkError),
}

/// The text that describes why a round failed: that of the error inside.
pub open spec fn process_message(e: ProcessError) -> Seq<char> {
    match e {
        ProcessError::Clipboard(c) => clipboard_message(c),
        ProcessError::Shrink(k) => shrink_message(k),
    }
}

impl ProcessError {
    /// A human-readable description of the error.
    pub fn message(&self) -> (m: String)
        ensures
            m@ == process_message(*self),
    {
        match self {
            ProcessError::Clipboard(c) => c.message(),
            ProcessError::Shrink(k) => k.message(),
        }
    }
}

/// Whether a MIME type names an image, that is, starts with `image/`.
pub open spec fn is_image_mime(m: Seq<char>) -> bool {
    m.len() >= 6 && m.take(6) == seq!['i', 'm', 'a', 'g', 'e', '/']
}

/// Whether `mime` starts with `image/`.
pub fn is_image_mime_type(mime: &String) -> (r: bool)
    ensures
        r == is_image_mime(mime@),
{
    let s = mime.as_str();
    if s.unicode_len() < 6 {
        return false;
    }
    let r = s.get_char(0) == 'i' && s.get_char(1) == 'm' && s.get_char(2) == 'a' && s.get_char(3)
        == 'g' && s.get_char(4) == 'e' && s.get_char(5) == '/';
    assert(r == (s@.take(6) =~= seq!['i', 'm', 'a', 'g', 'e', '/']));
    r
}

/// What a captured clipboard leads to before any compression: bytes to
/// compress (`Some`), nothing to do (`None`), or an error. An empty clipboard
/// or one without an image is nothing to do, as are contents whose type is
/// not an image and image bytes whose hash is the one last offered.
pub open spec fn triage(
    captured: Result<(Vec<u8>, String), ClipboardError>,
    last_hash: Option<[u8; 32]>,
) -> Result<Option<Vec<u8>>, ClipboardError> {
    match captured {
        Err(ClipboardError::Empty) => Ok(None),
        Err(ClipboardError::InvalidType(_)) => Ok(None),
        Err(e) => Err(e),
        Ok((data, mime)) => if !is_image_mime(mime@) {
            Ok(None)
        } else if last_hash matches Some(h) && h@ == sha256(data@) {
            Ok(None)
        } else {
            Ok(Some(data))
        },
    }
}

/// Decides what a captured clipboard leads to; see `triage`.
pub fn triage_capture(
    captured: Result<(Vec<u8>, String), ClipboardError>,
    last_hash: &Option<[u8; 32]>,
) -> (r: Result<Option<Vec<u8>>, ClipboardError>)
    ensures
        r == triage(captured, *last_hash),
{
    match captured {
        Err(ClipboardError::Empty) => Ok(None),
        Err(ClipboardError::InvalidType(_)) => Ok(None),
        Err(e) => Err(e),
        Ok((data, mime)) => {
            if !is_image_mime_type(&mime) {
                return Ok(None);
            }
            let incoming = image_hash(data.as_slice());
            match last_hash {
                Some(h) => {
                    if hashes_equal(&incoming, h) {
                        return Ok(None);
                    }
                },
                None => {},
            }
            Ok(Some(data))
        },
    }
}

/// The MIME types under which compressed bytes are offered: the primary type
/// first, then each extra alias that differs from it, in order.
pub open spec fn offered_mimes(primary: Seq<char>, extra: Seq<Seq<char>>) -> Seq<Seq<char>> {
    seq![primary] + extra.filter(differs_from(primary))
}

/// The test that a MIME type differs from `primary`.
pub open spec fn differs_from(primary: Seq<char>) -> spec_fn(Seq<char>) -> bool {
    |a: Seq<char>| a != primary
}

/// The views of a list of strings.
pub open spec fn views(v: Seq<String>) -> Seq<Seq<char>> {
    v.map_values(|s: String| s@)
}

/// Lists the MIME types to offer: `primary`, then the aliases in `extra`
/// that differ from it.
pub fn offered_mime_types(primary: &String, extra: &[String]) -> (r: Vec<String>)
    ensures
        views(r@) == offered_mimes(primary@, views(extra@)),
{
    let mut r: Vec<String> = Vec::new();
    r.push(primary.clone());
    let ghost pred = differs_from(primary@);
    let mut i: usize = 0;
    while i < extra.len()
        invariant
            i <= extra@.len(),
            pred == differs_from(primary@),
            views(r@) == seq![primary@] + views(extra@).take(i as int).filter(pred),
        decreases extra@.len() - i,
    {
        proof {
            reveal(Seq::filter);
        }
        let ghost before = views(r@);
        let ghost t = views(extra@).take(i + 1);
        assert(t.drop_last() =~= views(extra@).take(i as int));
        assert(t.last() == extra@[i as int]@);
        if extra[i] != *primary {
            r.push(extra[i].clone());
            assert(t.filter(pred) == t.drop_last().filter(pred).push(t.last()));
            assert(views(r@) =~= before.push(extra@[i as int]@));
            assert(views(r@) =~= seq![primary@] + t.filter(pred));
        } else {
            assert(t.filter(pred) == t.drop_last().filter(pred));
            assert(views(r@) =~= before);
        }
        i = i + 1;
    }
    assert(views(extra@).take(extra@.len() as int) =~= views(extra@));
    r
}

/// Pairs the same bytes with each MIME type, in order.
pub fn offer_items<'a>(data: &'a [u8], mimes: &'a [String]) -> (items: Vec<(&'a [u8], &'a str)>)
    ensures
        items@.len() == mimes@.len(),
        forall|i: int|
            0 <= i < items@.len() ==> (#[trigger] items@[i]).0@ == data@ && items@[i].1@
                == mimes@[i]@,
{
    let mut items: Vec<(&'a [u8], &'a str)> = Vec::new();
    let mut i: usize = 0;
    while i < mimes.len()
        invariant
            i <= mimes@.len(),
            items@.len() == i,
            forall|k: int|
                0 <= k < i ==> (#[trigger] items@[k]).0@ == data@ && items@[k].1@ == mimes@[k]@,
        decreases mimes@.len() - i,
    {
        items.push((data, mimes[i].as_str()));
        i = i + 1;
    }
    items
}

/// What is offered on the clipboard after compression: the compressed bytes,
/// the MIME types to offer them under, and their hash.
pub struct Offer {
    pub data: Vec<u8>,
    pub mimes: Vec<String>,
    pub hash: [u8; 32],
}

/// The bytes an offer holds, or `None` if none could be prepared.
pub open spec fn offered_bytes(r: Result<Offer, ShrinkError>) -> Option<Seq<u8>> {
    match r {
        Ok(offer) => Some(offer.data@),
        Err(_) => None,
    }
}

/// Shrinks captured image bytes and prepares what to offer: the bytes of
/// `shrink`, the target format's MIME type followed by the aliases that
/// differ from it, and the hash of the offered bytes.
pub fn prepare_offer(data: &[u8], opts: &ShrinkOptions, extra_mimes: &[String]) -> (r: Result<
    Offer,
    ShrinkError,
>)
    requires
        quality_supported(opts.target_format, opts.quality),
    ensures
        !image_decodes(data@) ==> r matches Err(ShrinkError::DecodingFailed(_)),
        image_decodes(data@) ==> r matches Err(ShrinkError::EncodingFailed(_)) || r matches Ok(
            _,
        ),
        image_decodes(data@) && reproducible(opts.target_format) ==> match shrink_output(
            data@,
            opts.target_format,
            opts.quality,
        ) {
            Some(out) => r matches Ok(offer) && offer.data@ == out,
            None => r matches Err(ShrinkError::EncodingFailed(_)),
        },
        image_decodes(data@) ==> possible_output(
            data@,
            opts.target_format,
            opts.quality,
            offered_bytes(r),
        ),
        r matches Ok(offer) ==> offer.data@.len() > 0,
        r matches Ok(offer) ==> views(offer.mimes@) == offered_mimes(
            format_mime(opts.target_format),
            views(extra_mimes@),
        ) && offer.hash@ == sha256(offer.data@),
        opts.target_format is Png ==> (r matches Ok(offer) ==> starts_with(
            offer.data@,
            png_signature(),
        )),
{
    let result = shrink(data, opts)?;
    let mimes = offered_mime_types(&result.mime_type, extra_mimes);
    let hash = image_hash(result.data.as_slice());
    Ok(Offer { data: result.data, mimes, hash })
}

/// Ends a round once the offer has been made: an accepted offer is
/// remembered by its hash; a refused one is an error and changes nothing.
pub fn finish_round(
    offer_hash: [u8; 32],
    offered: Result<(), ClipboardError>,
    last_hash: &mut Option<[u8; 32]>,
) -> (r: Result<(), ProcessError>)
    ensures
        match offered {
            Ok(()) => r is Ok && *final(last_hash) == Some(offer_hash),
            Err(e) => r == Err::<(), ProcessError>(ProcessError::Clipboard(e)) && *final(last_hash)
                == *old(last_hash),
        },
{
    match offered {
        Ok(()) => {
            *last_hash = Some(offer_hash);
            Ok(())
        },
        Err(e) => Err(ProcessError::Clipboard(e)),
    }
}

/// The compressed bytes that a round offers, if it gets that far, given what
/// the encoder gave (`encoded`): the encoder's output on captured image bytes
/// that are not skipped, when that output is one `shrink` may give.
pub open spec fn offered_output(
    captured: Result<(Vec<u8>, String), ClipboardError>,
    encoded: Option<Seq<u8>>,
    before: Option<[u8; 32]>,
    format: OutputFormat,
    quality: u8,
) -> Option<Seq<u8>> {
    match triage(captured, before) {
        Ok(Some(data)) => if image_decodes(data@) && possible_output(
            data@,
            format,
            quality,
            encoded,
        ) {
            encoded
        } else {
            None
        },
        _ => None,
    }
}

/// What one round does, given what the clipboard handed out (`captured`),
/// what the encoder gave (`encoded`), how the clipboard answered the offer
/// (`offered`), the settings, and the remembered hash before: the result and
/// the remembered hash after.
///
/// An error while capturing is returned and nothing changes; nothing to do
/// (see `triage`) changes nothing either. Otherwise the bytes are shrunk, and
/// the encoder's outcome is one `shrink` may give (`possible_output`): bytes
/// that do not decode fail with `DecodingFailed`, a failed encoding with
/// `EncodingFailed`, a refused offer with the clipboard's error, all leaving
/// the hash as it was; an accepted offer is remembered by the hash of the
/// offered bytes.
pub open spec fn round_outcome(
    captured: Result<(Vec<u8>, String), ClipboardError>,
    encoded: Option<Seq<u8>>,
    offered: Result<(), ClipboardError>,
    format: OutputFormat,
    quality: u8,
    before: Option<[u8; 32]>,
    result: Result<(), ProcessError>,
    after: Option<[u8; 32]>,
) -> bool {
    match triage(captured, before) {
        Err(e) => result == Err::<(), ProcessError>(ProcessError::Clipboard(e)) && after == before,
        Ok(None) => result is Ok && after == before,
        Ok(Some(data)) => if !image_decodes(data@) {
            result matches Err(ProcessError::Shrink(ShrinkError::DecodingFailed(_))) && after
                == before
        } else {
            possible_output(data@, format, quality, encoded) && match encoded {
                None => result matches Err(ProcessError::Shrink(ShrinkError::EncodingFailed(_)))
                    && after == before,
                Some(out) => match offered {
                    Ok(()) => result is Ok && (after matches Some(h) && h@ == sha256(out)),
                    Err(e) => result == Err::<(), ProcessError>(ProcessError::Clipboard(e))
                        && after == before,
                },
            }
        },
    }
}

/// One round: captures the clipboard; unless that leads to nothing to do
/// (`triage_capture`), shrinks the image and prepares the offer
/// (`prepare_offer`), hands `distribute` the items of `offer_items` for it,
/// and ends the round with `finish_round`, so that an accepted offer's hash
/// keeps its bytes from being shrunk again. The round's outcome is the one
/// `round_outcome` gives for what the clipboard handed out; when the
/// remembered hash changes, the clipboard took the shrunk bytes under each
/// offered MIME type (`offer_view`), and the hash is theirs.
pub fn process_once<P: ClipboardProvider + ?Sized>(
    provider: &P,
    opts: &ShrinkOptions,
    extra_mimes: &[String],
    last_hash: &mut Option<[u8; 32]>,
) -> (r: Result<(), ProcessError>)
    requires
        quality_supported(opts.target_format, opts.quality),
    ensures
        exists|
            captured: Result<(Vec<u8>, String), ClipboardError>,
            encoded: Option<Seq<u8>>,
            offered: Result<(), ClipboardError>,
        |
            provider.handed_out(captured) && round_outcome(
                captured,
                encoded,
                offered,
                opts.target_format,
                opts.quality,
                *old(last_hash),
                r,
                *final(last_hash),
            ),
        r is Err ==> *final(last_hash) == *old(last_hash),
        *final(last_hash) != *old(last_hash) ==> r is Ok && exists|
            captured: Result<(Vec<u8>, String), ClipboardError>,
            encoded: Option<Seq<u8>>,
        |
            #[trigger] offered_output(
                captured,
                encoded,
                *old(last_hash),
                opts.target_format,
                opts.quality,
            ) matches Some(out) && *final(last_hash) matches Some(h) && h@ == sha256(out)
                && provider.handed_out(captured) && provider.took(
                offer_view(out, offered_mimes(format_mime(opts.target_format), views(extra_mimes@))),
            ),
{
    let ghost before = *last_hash;
    let captured = provider.capture();
    let ghost seen = captured;
    let data = match triage_capture(captured, last_hash) {
        Ok(Some(data)) => data,
        Ok(None) => {
            let r = Ok(());
            assert(round_outcome(seen, None, Ok(()), opts.target_format, opts.quality, before, r, *last_hash));
            return r;
        },
        Err(e) => {
            let r = Err(ProcessError::Clipboard(e));
            assert(round_outcome(seen, None, Ok(()), opts.target_format, opts.quality, before, r, *last_hash));
            return r;
        },
    };
    let offer = match prepare_offer(data.as_slice(), opts, extra_mimes) {
        Ok(offer) => offer,
        Err(e) => {
            let r = Err(ProcessError::Shrink(e));
            assert(round_outcome(seen, None, Ok(()), opts.target_format, opts.quality, before, r, *last_hash));
            return r;
        },
    };
    let items = offer_items(offer.data.as_slice(), offer.mimes.as_slice());
    let offered = provider.distribute(items.as_slice());
    let ghost answer = offered;
    assert(item_views(items@) =~= offer_view(offer.data@, views(offer.mimes@)));
    let r = finish_round(offer.hash, offered, last_hash);
    assert(round_outcome(
        seen,
        Some(offer.data@),
        answer,
        opts.target_format,
        opts.quality,
        before,
        r,
        *last_hash,
    ));
    assert(offered_output(seen, Some(offer.data@), before, opts.target_format, opts.quality)
        == Some(offer.data@));
    r
}

/// The daemon does not reprocess its own output: when the clipboard hands
/// back image bytes whose hash is the one remembered, the round succeeds and
/// leaves the remembered hash as it is.
pub proof fn lemma_own_output_not_reprocessed(
    data: Vec<u8>,
    mime: String,
    h: [u8; 32],
    encoded: Option<Seq<u8>>,
    offered: Result<(), ClipboardError>,
    format: OutputFormat,
    quality: u8,
    result: Result<(), ProcessError>,
    after: Option<[u8; 32]>,
)
    requires
        is_image_mime(mime@),
        h@ == sha256(data@),
        round_outcome(Ok((data, mime)), encoded, offered, format, quality, Some(h), result, after),
    ensures
        result is Ok,
        after == Some(h),
{
}

/// No loop: after a round whose offer was accepted, a round on the offered
/// bytes (under any image MIME type) skips them and keeps the remembered hash.
pub proof fn lemma_accepted_offer_not_reprocessed(
    first: Result<(Vec<u8>, String), ClipboardError>,
    encoded: Option<Seq<u8>>,
    format: OutputFormat,
    quality: u8,
    before: Option<[u8; 32]>,
    after_first: Option<[u8; 32]>,
    offered_bytes: Vec<u8>,
    mime: String,
    encoded_again: Option<Seq<u8>>,
    answer: Result<(), ClipboardError>,
    result: Result<(), ProcessError>,
    after_second: Option<[u8; 32]>,
)
    requires
        round_outcome(first, encoded, Ok(()), format, quality, before, Ok(()), after_first),
        offered_output(first, encoded, before, format, quality) == Some(offered_bytes@),
        is_image_mime(mime@),
        round_outcome(
            Ok((offered_bytes, mime)),
            encoded_again,
            answer,
            format,
            quality,
            after_first,
            result,
            after_second,
        ),
    ensures
        result is Ok,
        after_second == after_first,
{
}

/// A round on an empty clipboard, on one without an image, or on contents
/// whose type is not an image succeeds and changes nothing.
pub proof fn lemma_non_image_left_alone(
    captured: Result<(Vec<u8>, String), ClipboardError>,
    encoded: Option<Seq<u8>>,
    offered: Result<(), ClipboardError>,
    format: OutputFormat,
    quality: u8,
    before: Option<[u8; 32]>,
    result: Result<(), ProcessError>,
    after: Option<[u8; 32]>,
)
    requires
        captured matches Err(ClipboardError::Empty) || captured matches Err(
            ClipboardError::InvalidType(_),
        ) || (captured matches Ok((data, mime)) && !is_image_mime(mime@)),
        round_outcome(captured, encoded, offered, format, quality, before, result, after),
    ensures
        result is Ok,
        after == before,
{
}

/// A newly copied image is not skipped: image bytes under an image MIME
/// type are handed on for shrinking exactly when no hash is remembered or
/// their hash differs from the remembered one, and skipped exactly when it is
/// the same.
pub proof fn lemma_new_image_not_skipped(data: Vec<u8>, mime: String, last_hash: Option<[u8; 32]>)
    requires
        is_image_mime(mime@),
    ensures
        triage(Ok((data, mime)), last_hash) is Ok,
        (triage(Ok((data, mime)), last_hash) == Ok::<Option<Vec<u8>>, ClipboardError>(Some(data)))
            <==> (last_hash is None || last_hash->0@ != sha256(data@)),
        triage(Ok((data, mime)), last_hash) matches Ok(None) <==> (last_hash matches Some(h) && h@
            == sha256(data@)),
{
}

/// A round on a newly copied image (an image MIME type, bytes that decode,
/// and a hash other than the remembered one) whose shrunk bytes the
/// clipboard accepts succeeds, and afterwards remembers the hash of the
/// shrunk bytes; those bytes are an outcome `shrink` may give for the image.
pub proof fn lemma_new_image_offer_remembered(
    data: Vec<u8>,
    mime: String,
    before: Option<[u8; 32]>,
    out: Seq<u8>,
    format: OutputFormat,
    quality: u8,
    result: Result<(), ProcessError>,
    after: Option<[u8; 32]>,
)
    requires
        is_image_mime(mime@),
        image_decodes(data@),
        before is None || before->0@ != sha256(data@),
        round_outcome(Ok((data, mime)), Some(out), Ok(()), format, quality, before, result, after),
    ensures
        result is Ok,
        after matches Some(h) && h@ == sha256(out),
        possible_output(data@, format, quality, Some(out)),
{
}

/// The offered MIME types start with the primary one, hold it only there, and
/// hold every extra alias that differs from it.
pub proof fn lemma_offered_mimes(primary: Seq<char>, extra: Seq<Seq<char>>)
    ensures
        offered_mimes(primary, extra)[0] == primary,
        forall|i: int|
            1 <= i < offered_mimes(primary, extra).len() ==> #[trigger] offered_mimes(
                primary,
                extra,
            )[i] != primary,
        forall|j: int|
            0 <= j < extra.len() && extra[j] != primary ==> #[trigger] offered_mimes(
                primary,
                extra,
            ).contains(extra[j]),
{
    broadcast use vstd::seq_lib::group_filter_ensures;

    let pred = differs_from(primary);
    let f = extra.filter(pred);
    let o = offered_mimes(primary, extra);
    assert forall|i: int| 1 <= i < o.len() implies #[trigger] o[i] != primary by {
        assert(o[i] == f[i - 1]);
        assert(pred(f[i - 1]));
    }
    assert forall|j: int| 0 <= j < extra.len() && extra[j] != primary implies #[trigger] o.contains(
        extra[j],
    ) by {
        assert(pred(extra[j]));
        assert(f.contains(extra[j]));
        let k = choose|k: int| 0 <= k < f.len() && f[k] == extra[j];
        assert(o[k + 1] == extra[j]);
    }
}

} // verus!
