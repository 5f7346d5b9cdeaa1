use vstd::prelude::*;
use vstd::utf8::{decode_utf8, encode_utf8, valid_utf8};

verus! {

broadcast use vstd::utf8::encode_utf8_valid_utf8, vstd::utf8::encode_utf8_decode_utf8;

/// The value of an ASCII hexadecimal digit.
pub open spec fn hex_value(b: u8) -> Option<u8> {
    if 0x30 <= b <= 0x39 {
        Some((b - 0x30) as u8)
    } else if 0x61 <= b <= 0x66 {
        Some((b - 0x61 + 10) as u8)
    } else if 0x41 <= b <= 0x46 {
        Some((b - 0x41 + 10) as u8)
    } else {
        None
    }
}

/// The byte that the two bytes after a `%` stand for, read as
/// `u8::from_str_radix(.., 16)` reads them: an optional `+` sign followed by
/// hexadecimal digits.
pub open spec fn escape_value(b1: u8, b2: u8) -> Option<u8> {
    if b1 == 0x2B {
        hex_value(b2)
    } else {
        match (hex_value(b1), hex_value(b2)) {
            (Some(h), Some(l)) => Some((h * 16 + l) as u8),
            _ => None,
        }
    }
}

/// Percent-decoding of a byte string: each `%` followed by two bytes that
/// form an escape is replaced by the byte it stands for; every other byte is
/// kept as it is.
pub open spec fn percent_decoded(s: Seq<u8>) -> Seq<u8>
    decreases s.len(),
{
    if s.len() == 0 {
        Seq::empty()
    } else if s[0] == 0x25 && s.len() >= 3 && escape_value(s[1], s[2]) is Some {
        seq![escape_value(s[1], s[2])->0] + percent_decoded(s.skip(3))
    } else {
        seq![s[0]] + percent_decoded(s.skip(1))
    }
}

/// Whether a byte string ends outside any escape: neither of its last two
/// bytes is a `%`, so no escape can start in it and run past its end.
pub open spec fn ends_outside_escape(a: Seq<u8>) -> bool {
    &&& a.len() >= 1 ==> a[a.len() - 1] != 0x25
    &&& a.len() >= 2 ==> a[a.len() - 2] != 0x25
}

/// Percent-decoding works piece by piece: decoding two byte strings one
/// after the other gives the two decodings one after the other, when the
/// first does not end inside an escape.
pub proof fn lemma_percent_decoded_concat(a: Seq<u8>, b: Seq<u8>)
    requires
        ends_outside_escape(a),
    ensures
        percent_decoded(a + b) == percent_decoded(a) + percent_decoded(b),
    decreases a.len(),
{
    let s = a + b;
    if a.len() == 0 {
        assert(s =~= b);
        assert(percent_decoded(a) + percent_decoded(b) =~= percent_decoded(b));
    } else if a[0] == 0x25 && a.len() >= 3 && escape_value(a[1], a[2]) is Some {
        assert(s[0] == a[0] && s[1] == a[1] && s[2] == a[2]);
        assert(s.skip(3) =~= a.skip(3) + b);
        lemma_percent_decoded_concat(a.skip(3), b);
        let v = escape_value(a[1], a[2])->0;
        assert(percent_decoded(s) =~= seq![v] + percent_decoded(s.skip(3)));
        assert(percent_decoded(a) =~= seq![v] + percent_decoded(a.skip(3)));
        assert(percent_decoded(s) =~= percent_decoded(a) + percent_decoded(b));
    } else {
        assert(s[0] == a[0]);
        assert(a.len() < 3 ==> a[0] != 0x25);
        if a.len() >= 3 {
            assert(s[1] == a[1] && s[2] == a[2]);
        }
        assert(s.skip(1) =~= a.skip(1) + b);
        lemma_percent_decoded_concat(a.skip(1), b);
        assert(percent_decoded(s) =~= seq![a[0]] + percent_decoded(s.skip(1)));
        assert(percent_decoded(a) =~= seq![a[0]] + percent_decoded(a.skip(1)));
        assert(percent_decoded(s) =~= percent_decoded(a) + percent_decoded(b));
    }
}

/// An escape anywhere in a byte string is replaced by its byte, and what
/// stands before and after it is decoded as it would be alone; for example
/// `x%20y` decodes as `x`, a space, then `y` decoded.
pub proof fn lemma_escape_decoded_in_place(x: Seq<u8>, hi: u8, lo: u8, y: Seq<u8>)
    requires
        ends_outside_escape(x),
        escape_value(hi, lo) is Some,
    ensures
        percent_decoded(x + seq![0x25u8, hi, lo] + y) == percent_decoded(x) + seq![
            escape_value(hi, lo)->0,
        ] + percent_decoded(y),
{
    let e = seq![0x25u8, hi, lo];
    lemma_percent_decoded_concat(x, e + y);
    assert(x + e + y =~= x + (e + y));
    assert((e + y)[0] == 0x25 && (e + y)[1] == hi && (e + y)[2] == lo);
    assert((e + y).skip(3) =~= y);
    assert(percent_decoded(e + y) =~= seq![escape_value(hi, lo)->0] + percent_decoded(y));
    assert(percent_decoded(x) + (seq![escape_value(hi, lo)->0] + percent_decoded(y))
        =~= percent_decoded(x) + seq![escape_value(hi, lo)->0] + percent_decoded(y));
}

/// What `String::from_utf8_lossy` makes of a byte string.
pub uninterp spec fn utf8_lossy(bytes: Seq<u8>) -> Seq<char>;

/// A byte that cannot begin a UTF-8 sequence after complete characters: a
/// continuation byte, or one of 0xC0, 0xC1 and 0xF5 to 0xFF.
pub open spec fn is_stray_byte(b: u8) -> bool {
    0x80 <= b <= 0xC1 || b >= 0xF5
}

/// Calls `String::from_utf8_lossy` (and takes the owned string). Trusted:
/// the result is `utf8_lossy(bytes@)`; as its documentation says, a byte
/// string that is valid UTF-8 is decoded as it is, and an invalid sequence is
/// replaced by U+FFFD, here a stray byte between valid text.
#[verifier::external_body]
pub(crate) fn string_from_utf8_lossy(bytes: &[u8]) -> (s: String)
    ensures
        s@ == utf8_lossy(bytes@),
        valid_utf8(bytes@) ==> s@ == decode_utf8(bytes@),
        forall|a: Seq<u8>, b: u8, c: Seq<u8>|
            #![trigger a + seq![b] + c]
            bytes@ == a + seq![b] + c && valid_utf8(a) && valid_utf8(c) && is_stray_byte(b) ==> s@
                == decode_utf8(a) + seq!['\u{FFFD}'] + decode_utf8(c),
{
    String::from_utf8_lossy(bytes).into_owned()
}

fn hex_value_of(b: u8) -> (r: Option<u8>)
    ensures
        r == hex_value(b),
{
    if 0x30 <= b && b <= 0x39 {
        Some(b - 0x30)
    } else if 0x61 <= b && b <= 0x66 {
        Some(b - 0x61 + 10)
    } else if 0x41 <= b && b <= 0x46 {
        Some(b - 0x41 + 10)
    } else {
        None
    }
}

fn escape_value_of(b1: u8, b2: u8) -> (r: Option<u8>)
    ensures
        r == escape_value(b1, b2),
{
    if b1 == 0x2B {
        hex_value_of(b2)
    } else {
        match (hex_value_of(b1), hex_value_of(b2)) {
            (Some(h), Some(l)) => Some(h * 16 + l),
            _ => None,
        }
    }
}

/// Percent-decodes the bytes `bytes[start..end]`.
pub fn percent_decode_range(bytes: &[u8], start: usize, end: usize) -> (out: Vec<u8>)
    requires
        start <= end <= bytes@.len(),
    ensures
        out@ == percent_decoded(bytes@.subrange(start as int, end as int)),
{
    let mut out: Vec<u8> = Vec::new();
    let mut i: usize = start;
    while i < end
        invariant
            start <= i <= end,
            end <= bytes@.len(),
            percent_decoded(bytes@.subrange(start as int, end as int)) == out@ + percent_decoded(
                bytes@.subrange(i as int, end as int),
            ),
        decreases end - i,
    {
        let ghost rest = bytes@.subrange(i as int, end as int);
        if bytes[i] == 0x25 && end - i > 2 {
            match escape_value_of(bytes[i + 1], bytes[i + 2]) {
                Some(v) => {
                    assert(rest.skip(3) =~= bytes@.subrange(i + 3, end as int));
                    assert(percent_decoded(rest) == seq![v] + percent_decoded(rest.skip(3)));
                    out.push(v);
                    assert(out@ + percent_decoded(rest.skip(3)) =~= (out@.drop_last() + seq![v])
                        + percent_decoded(rest.skip(3)));
                    i = i + 3;
                    continue ;
                },
                None => {},
            }
        }
        assert(rest.skip(1) =~= bytes@.subrange(i + 1, end as int));
        assert(percent_decoded(rest) == seq![bytes@[i as int]] + percent_decoded(rest.skip(1)));
        out.push(bytes[i]);
        i = i + 1;
    }
    assert(bytes@.subrange(end as int, end as int) =~= Seq::<u8>::empty());
    assert(out@ + Seq::<u8>::empty() =~= out@);
    out
}

/// Decodes percent escapes in a path, as found in a `file://` URI. The
/// decoded bytes are turned into text the way `String::from_utf8_lossy` does.
pub fn percent_decode(s: &str) -> (r: String)
    ensures
        r@ == utf8_lossy(percent_decoded(encode_utf8(s@))),
        valid_utf8(percent_decoded(encode_utf8(s@))) ==> r@ == decode_utf8(
            percent_decoded(encode_utf8(s@)),
        ),
        !s@.contains('%') ==> r@ == s@,
        forall|a: Seq<u8>, b: u8, c: Seq<u8>|
            #![trigger a + seq![b] + c]
            percent_decoded(encode_utf8(s@)) == a + seq![b] + c && valid_utf8(a) && valid_utf8(c)
                && is_stray_byte(b) ==> r@ == decode_utf8(a) + seq!['\u{FFFD}'] + decode_utf8(c),
{
    let bytes = s.as_bytes();
    let out = percent_decode_range(bytes, 0, bytes.len());
    assert(bytes@.subrange(0, bytes@.len() as int) =~= bytes@);
    proof {
        if !s@.contains('%') {
            lemma_percent_decode_without_escape(s@);
        }
    }
    string_from_utf8_lossy(out.as_slice())
}

/// The ASCII character of a hexadecimal digit value (upper case).
pub open spec fn hex_digit(v: u8) -> u8 {
    if v < 10 {
        (0x30 + v) as u8
    } else {
        (0x41 + v - 10) as u8
    }
}

/// Percent-encoding of a byte string: every byte written as `%` and two
/// hexadecimal digits.
pub open spec fn percent_encoded(s: Seq<u8>) -> Seq<u8>
    decreases s.len(),
{
    if s.len() == 0 {
        Seq::empty()
    } else {
        seq![0x25u8, hex_digit(s[0] / 16), hex_digit(s[0] % 16)] + percent_encoded(s.skip(1))
    }
}

/// Percent-decoding undoes percent-encoding.
pub proof fn lemma_percent_round_trip(s: Seq<u8>)
    ensures
        percent_decoded(percent_encoded(s)) == s,
    decreases s.len(),
{
    if s.len() > 0 {
        let e = percent_encoded(s);
        let hi = hex_digit(s[0] / 16);
        let lo = hex_digit(s[0] % 16);
        assert(hex_value(hi) == Some((s[0] / 16) as u8));
        assert(hex_value(lo) == Some((s[0] % 16) as u8));
        assert(e[0] == 0x25u8 && e[1] == hi && e[2] == lo);
        assert(e.skip(3) =~= percent_encoded(s.skip(1)));
        lemma_percent_round_trip(s.skip(1));
        assert(s =~= seq![s[0]] + s.skip(1));
    }
}

/// A byte string without `%` is left unchanged by percent-decoding.
pub proof fn lemma_percent_decoded_without_escape(s: Seq<u8>)
    requires
        !s.contains(0x25u8),
    ensures
        percent_decoded(s) == s,
    decreases s.len(),
{
    if s.len() > 0 {
        assert(s[0] != 0x25u8) by {
            assert(s.contains(s[0]));
        }
        assert forall|x: u8| s.skip(1).contains(x) implies s.contains(x) by {
            let k = choose|k: int| 0 <= k < s.skip(1).len() && s.skip(1)[k] == x;
            assert(s[k + 1] == x);
        }
        lemma_percent_decoded_without_escape(s.skip(1));
        assert(s =~= seq![s[0]] + s.skip(1));
    }
}

/// Every byte of the UTF-8 encoding of a character other than `%` differs
/// from the byte `%`.
proof fn lemma_encode_scalar_no_percent(c: char)
    requires
        c != '%',
    ensures
        !vstd::utf8::encode_scalar(c as u32).contains(0x25u8),
{
    let v = c as u32;
    let e = vstd::utf8::encode_scalar(v);
    if vstd::utf8::has_width_1_encoding(v) {
        assert(v != 0x25u32);
        assert(v <= 0x7F ==> v & 0x7F == v) by (bit_vector);
        assert(e =~= seq![(v & 0x7F) as u8]);
        assert forall|k: int| 0 <= k < e.len() implies e[k] != 0x25u8 by {}
    } else {
        assert forall|y: u8| (0x80u8 | y) != 0x25u8 by {
            assert((0x80u8 | y) != 0x25u8) by (bit_vector);
        }
        assert forall|y: u8| (0xC0u8 | y) != 0x25u8 by {
            assert((0xC0u8 | y) != 0x25u8) by (bit_vector);
        }
        assert forall|y: u8| (0xE0u8 | y) != 0x25u8 by {
            assert((0xE0u8 | y) != 0x25u8) by (bit_vector);
        }
        assert forall|y: u8| (0xF0u8 | y) != 0x25u8 by {
            assert((0xF0u8 | y) != 0x25u8) by (bit_vector);
        }
        assert forall|k: int| 0 <= k < e.len() implies e[k] != 0x25u8 by {}
    }
}

/// The UTF-8 encoding of text without `%` holds no `%` byte.
proof fn lemma_encode_utf8_no_percent(cs: Seq<char>)
    requires
        !cs.contains('%'),
    ensures
        !encode_utf8(cs).contains(0x25u8),
    decreases cs.len(),
{
    if cs.len() > 0 {
        assert(cs[0] != '%') by {
            assert(cs.contains(cs[0]));
        }
        assert forall|x: char| cs.drop_first().contains(x) implies cs.contains(x) by {
            let k = choose|k: int| 0 <= k < cs.drop_first().len() && cs.drop_first()[k] == x;
            assert(cs[k + 1] == x);
        }
        lemma_encode_scalar_no_percent(cs[0]);
        lemma_encode_utf8_no_percent(cs.drop_first());
        let a = vstd::utf8::encode_scalar(cs[0] as u32);
        let b = encode_utf8(cs.drop_first());
        assert(encode_utf8(cs) == a + b);
        assert forall|k: int| 0 <= k < (a + b).len() implies (a + b)[k] != 0x25u8 by {
            if k < a.len() {
                assert(a.contains(a[k]));
            } else {
                assert(b.contains(b[k - a.len()]));
            }
        }
    }
}

/// Text without `%` comes out of `percent_decode` unchanged.
pub proof fn lemma_percent_decode_without_escape(s: Seq<char>)
    requires
        !s.contains('%'),
    ensures
        percent_decoded(encode_utf8(s)) == encode_utf8(s),
        valid_utf8(encode_utf8(s)),
        decode_utf8(encode_utf8(s)) == s,
{
    lemma_encode_utf8_no_percent(s);
    lemma_percent_decoded_without_escape(encode_utf8(s));
}

} // verus!
