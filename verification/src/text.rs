//! Byte-level views of `str` operations on UTF-8 text: whitespace trimming,
//! line splitting and searching.
use vstd::prelude::*;

verus! {

/// An ASCII byte that `char::is_whitespace` accepts (tab, line feed, vertical
/// tab, form feed, carriage return, space).
pub open spec fn is_ascii_space(b: u8) -> bool {
    b == 0x09 || b == 0x0A || b == 0x0B || b == 0x0C || b == 0x0D || b == 0x20
}

/// Whether three bytes are the UTF-8 encoding of a whitespace character of
/// width three: U+1680, U+2000 to U+200A, U+2028, U+2029, U+202F, U+205F,
/// U+3000.
pub open spec fn is_wide_space(a: u8, b: u8, c: u8) -> bool {
    ||| a == 0xE1 && b == 0x9A && c == 0x80
    ||| a == 0xE2 && b == 0x80 && ((0x80 <= c <= 0x8A) || c == 0xA8 || c == 0xA9 || c == 0xAF)
    ||| a == 0xE2 && b == 0x81 && c == 0x9F
    ||| a == 0xE3 && b == 0x80 && c == 0x80
}

/// Whether two bytes are the UTF-8 encoding of U+0085 or U+00A0.
pub open spec fn is_latin1_space(a: u8, b: u8) -> bool {
    a == 0xC2 && (b == 0x85 || b == 0xA0)
}

/// The width in bytes of the whitespace character (in the sense of
/// `char::is_whitespace`) at the start of UTF-8 text, or 0 if it starts with
/// none.
pub open spec fn leading_space_width(s: Seq<u8>) -> int {
    if s.len() >= 1 && is_ascii_space(s[0]) {
        1
    } else if s.len() >= 2 && is_latin1_space(s[0], s[1]) {
        2
    } else if s.len() >= 3 && is_wide_space(s[0], s[1], s[2]) {
        3
    } else {
        0
    }
}

/// The width in bytes of the whitespace character at the end of UTF-8 text,
/// or 0 if it ends with none.
pub open spec fn trailing_space_width(s: Seq<u8>) -> int {
    let n = s.len() as int;
    if n >= 1 && is_ascii_space(s[n - 1]) {
        1
    } else if n >= 2 && is_latin1_space(s[n - 2], s[n - 1]) {
        2
    } else if n >= 3 && is_wide_space(s[n - 3], s[n - 2], s[n - 1]) {
        3
    } else {
        0
    }
}

/// UTF-8 text with its leading whitespace removed.
pub open spec fn trim_start(s: Seq<u8>) -> Seq<u8>
    decreases s.len(),
{
    let w = leading_space_width(s);
    if 0 < w <= s.len() {
        trim_start(s.skip(w))
    } else {
        s
    }
}

/// UTF-8 text with its trailing whitespace removed.
pub open spec fn trim_end(s: Seq<u8>) -> Seq<u8>
    decreases s.len(),
{
    let w = trailing_space_width(s);
    if 0 < w <= s.len() {
        trim_end(s.take(s.len() - w))
    } else {
        s
    }
}

/// `str::trim`: UTF-8 text with leading and trailing whitespace removed.
pub open spec fn trim(s: Seq<u8>) -> Seq<u8> {
    trim_end(trim_start(s))
}

/// The index of the first occurrence of `b` in `s`, or `s.len()` if none.
pub open spec fn index_of(s: Seq<u8>, b: u8) -> int
    decreases s.len(),
{
    if s.len() == 0 {
        0
    } else if s[0] == b {
        0
    } else {
        1 + index_of(s.skip(1), b)
    }
}

/// The index of the last occurrence of `b` in `s`, or -1 if none.
pub open spec fn last_index_of(s: Seq<u8>, b: u8) -> int
    decreases s.len(),
{
    if s.len() == 0 {
        -1
    } else if s.last() == b {
        s.len() - 1
    } else {
        last_index_of(s.drop_last(), b)
    }
}

/// `s` starts with `prefix`.
pub open spec fn has_prefix(s: Seq<u8>, prefix: Seq<u8>) -> bool {
    s.len() >= prefix.len() && s.take(prefix.len() as int) == prefix
}

/// ASCII letters turned into lower case; every other byte is kept.
pub open spec fn ascii_lower(s: Seq<u8>) -> Seq<u8> {
    s.map_values(|b: u8| if 0x41 <= b <= 0x5A { (b + 32) as u8 } else { b })
}

/// The width of the whitespace character that starts `bytes[start..end]`.
pub fn leading_space_width_at(bytes: &[u8], start: usize, end: usize) -> (w: usize)
    requires
        start <= end <= bytes@.len(),
    ensures
        w == leading_space_width(bytes@.subrange(start as int, end as int)),
        w <= end - start,
{
    let n = end - start;
    if n >= 1 {
        let a = bytes[start];
        if a == 0x09 || a == 0x0A || a == 0x0B || a == 0x0C || a == 0x0D || a == 0x20 {
            return 1;
        }
    }
    if n >= 2 {
        let a = bytes[start];
        let b = bytes[start + 1];
        if a == 0xC2 && (b == 0x85 || b == 0xA0) {
            return 2;
        }
    }
    if n >= 3 {
        let a = bytes[start];
        let b = bytes[start + 1];
        let c = bytes[start + 2];
        if (a == 0xE1 && b == 0x9A && c == 0x80) || (a == 0xE2 && b == 0x80 && ((0x80 <= c && c
            <= 0x8A) || c == 0xA8 || c == 0xA9 || c == 0xAF)) || (a == 0xE2 && b == 0x81 && c
            == 0x9F) || (a == 0xE3 && b == 0x80 && c == 0x80) {
            return 3;
        }
    }
    0
}

/// The width of the whitespace character that ends `bytes[start..end]`.
pub fn trailing_space_width_at(bytes: &[u8], start: usize, end: usize) -> (w: usize)
    requires
        start <= end <= bytes@.len(),
    ensures
        w == trailing_space_width(bytes@.subrange(start as int, end as int)),
        w <= end - start,
{
    let n = end - start;
    if n >= 1 {
        let a = bytes[end - 1];
        if a == 0x09 || a == 0x0A || a == 0x0B || a == 0x0C || a == 0x0D || a == 0x20 {
            return 1;
        }
    }
    if n >= 2 {
        let a = bytes[end - 2];
        let b = bytes[end - 1];
        if a == 0xC2 && (b == 0x85 || b == 0xA0) {
            return 2;
        }
    }
    if n >= 3 {
        let a = bytes[end - 3];
        let b = bytes[end - 2];
        let c = bytes[end - 1];
        if (a == 0xE1 && b == 0x9A && c == 0x80) || (a == 0xE2 && b == 0x80 && ((0x80 <= c && c
            <= 0x8A) || c == 0xA8 || c == 0xA9 || c == 0xAF)) || (a == 0xE2 && b == 0x81 && c
            == 0x9F) || (a == 0xE3 && b == 0x80 && c == 0x80) {
            return 3;
        }
    }
    0
}

/// The bounds of `bytes[start..end]` once trimmed.
pub fn trim_range(bytes: &[u8], start: usize, end: usize) -> (r: (usize, usize))
    requires
        start <= end <= bytes@.len(),
    ensures
        start <= r.0 <= r.1 <= end,
        bytes@.subrange(r.0 as int, r.1 as int) == trim(bytes@.subrange(start as int, end as int)),
{
    let mut s = start;
    loop
        invariant
            start <= s <= end,
            end <= bytes@.len(),
            trim_start(bytes@.subrange(start as int, end as int)) == trim_start(
                bytes@.subrange(s as int, end as int),
            ),
        ensures
            start <= s <= end,
            trim_start(bytes@.subrange(start as int, end as int)) == bytes@.subrange(
                s as int,
                end as int,
            ),
        decreases end - s,
    {
        let w = leading_space_width_at(bytes, s, end);
        if w == 0 {
            break;
        }
        assert(bytes@.subrange(s as int, end as int).skip(w as int) =~= bytes@.subrange(
            s + w,
            end as int,
        ));
        s = s + w;
    }
    let mut e = end;
    loop
        invariant
            s <= e <= end,
            end <= bytes@.len(),
            trim_end(bytes@.subrange(s as int, end as int)) == trim_end(
                bytes@.subrange(s as int, e as int),
            ),
        ensures
            s <= e <= end,
            trim_end(bytes@.subrange(s as int, end as int)) == bytes@.subrange(s as int, e as int),
        decreases e - s,
    {
        let w = trailing_space_width_at(bytes, s, e);
        if w == 0 {
            break;
        }
        assert(bytes@.subrange(s as int, e as int).take(e - s - w) =~= bytes@.subrange(
            s as int,
            e - w,
        ));
        e = e - w;
    }
    (s, e)
}

/// The index of the first `b` in `bytes[start..end]`, or `end`.
pub fn find_byte(bytes: &[u8], start: usize, end: usize, b: u8) -> (j: usize)
    requires
        start <= end <= bytes@.len(),
    ensures
        start <= j <= end,
        j - start == index_of(bytes@.subrange(start as int, end as int), b),
{
    let mut j = start;
    while j < end && bytes[j] != b
        invariant
            start <= j <= end,
            end <= bytes@.len(),
            index_of(bytes@.subrange(start as int, end as int), b) == (j - start) + index_of(
                bytes@.subrange(j as int, end as int),
                b,
            ),
        decreases end - j,
    {
        assert(bytes@.subrange(j as int, end as int).skip(1) =~= bytes@.subrange(
            j + 1,
            end as int,
        ));
        j = j + 1;
    }
    j
}

/// The index of the last `b` in `bytes[start..end]`, or `None`.
pub fn find_last_byte(bytes: &[u8], start: usize, end: usize, b: u8) -> (r: Option<usize>)
    requires
        start <= end <= bytes@.len(),
    ensures
        match r {
            Some(j) => start <= j < end && j - start == last_index_of(
                bytes@.subrange(start as int, end as int),
                b,
            ),
            None => last_index_of(bytes@.subrange(start as int, end as int), b) == -1,
        },
{
    let mut e = end;
    while e > start && bytes[e - 1] != b
        invariant
            start <= e <= end,
            end <= bytes@.len(),
            last_index_of(bytes@.subrange(start as int, end as int), b) == last_index_of(
                bytes@.subrange(start as int, e as int),
                b,
            ),
        decreases e - start,
    {
        assert(bytes@.subrange(start as int, e as int).drop_last() =~= bytes@.subrange(
            start as int,
            e - 1,
        ));
        e = e - 1;
    }
    if e == start {
        None
    } else {
        Some(e - 1)
    }
}

} // verus!
