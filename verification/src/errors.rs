use vstd::prelude::*;

verus! {

/// Why a clipboard could not hand out (or take) image bytes.
#[derive(Debug)]
pub enum ClipboardError {
    /// Nothing is on the clipboard.
    Empty,
    /// The clipboard holds something, but not an image.
    InvalidType(String),
    /// The clipboard backend failed.
    BackendError(String),
}

/// Why an image could not be re-encoded.
#[derive(Debug)]
pub enum ShrinkError {
    /// The requested output format is not supported.
    UnsupportedFormat(String),
    /// The decoded image could not be encoded in the target format.
    EncodingFailed(String),
    /// The input bytes are not an image that can be decoded.
    DecodingFailed(String),
}

/// The text that describes a clipboard error.
pub open spec fn clipboard_message(e: ClipboardError) -> Seq<char> {
    match e {
        ClipboardError::Empty => "Clipboard is empty"@,
        ClipboardError::InvalidType(t) => "Invalid clipboard type: "@ + t@,
        ClipboardError::BackendError(t) => "Backend error: "@ + t@,
    }
}

/// The text that describes a shrink error.
pub open spec fn shrink_message(e: ShrinkError) -> Seq<char> {
    match e {
        ShrinkError::UnsupportedFormat(t) => "Unsupported format: "@ + t@,
        ShrinkError::EncodingFailed(t) => "Encoding failed: "@ + t@,
        ShrinkError::DecodingFailed(t) => "Decoding failed: "@ + t@,
    }
}

/// `prefix` followed by `detail`.
pub fn labelled(prefix: &str, detail: &String) -> (r: String)
    ensures
        r@ == prefix@ + detail@,
{
    let mut r = String::from_str(prefix);
    r.append(detail.as_str());
    r
}

impl ClipboardError {
    /// A human-readable description of the error.
    pub fn message(&self) -> (m: String)
        ensures
            m@ == clipboard_message(*self),
    {
        proof {
            reveal_strlit("Clipboard is empty");
            reveal_strlit("Invalid clipboard type: ");
            reveal_strlit("Backend error: ");
        }
        match self {
            ClipboardError::Empty => String::from_str("Clipboard is empty"),
            ClipboardError::InvalidType(t) => labelled("Invalid clipboard type: ", t),
            ClipboardError::BackendError(t) => labelled("Backend error: ", t),
        }
    }
}

impl ShrinkError {
    /// A human-readable description of the error.
    pub fn message(&self) -> (m: String)
        ensures
            m@ == shrink_message(*self),
    {
        proof {
            reveal_strlit("Unsupported format: ");
            reveal_strlit("Encoding failed: ");
            reveal_strlit("Decoding failed: ");
        }
        match self {
            ShrinkError::UnsupportedFormat(t) => labelled("Unsupported format: ", t),
            ShrinkError::EncodingFailed(t) => labelled("Encoding failed: ", t),
            ShrinkError::DecodingFailed(t) => labelled("Decoding failed: ", t),
        }
    }
}

/// The decimal digit for `d` (taken modulo ten).
pub open spec fn digit(d: nat) -> char {
    let d = d % 10;
    if d == 0 {
        '0'
    } else if d == 1 {
        '1'
    } else if d == 2 {
        '2'
    } else if d == 3 {
        '3'
    } else if d == 4 {
        '4'
    } else if d == 5 {
        '5'
    } else if d == 6 {
        '6'
    } else if d == 7 {
        '7'
    } else if d == 8 {
        '8'
    } else {
        '9'
    }
}

/// `n` written in decimal, without leading zeros.
pub open spec fn decimal(n: nat) -> Seq<char>
    decreases n,
{
    if n < 10 {
        seq![digit(n)]
    } else {
        decimal(n / 10).push(digit(n % 10))
    }
}

/// The one-character string for the last decimal digit of `n`.
fn digit_str(n: u64) -> (s: &'static str)
    ensures
        s@ == seq![digit(n as nat)],
{
    proof {
        reveal_strlit("0");
        reveal_strlit("1");
        reveal_strlit("2");
        reveal_strlit("3");
        reveal_strlit("4");
        reveal_strlit("5");
        reveal_strlit("6");
        reveal_strlit("7");
        reveal_strlit("8");
        reveal_strlit("9");
    }
    let d: u64 = n % 10;
    if d == 0 {
        "0"
    } else if d == 1 {
        "1"
    } else if d == 2 {
        "2"
    } else if d == 3 {
        "3"
    } else if d == 4 {
        "4"
    } else if d == 5 {
        "5"
    } else if d == 6 {
        "6"
    } else if d == 7 {
        "7"
    } else if d == 8 {
        "8"
    } else {
        "9"
    }
}

/// Appends `n` in decimal to `s`.
pub fn push_decimal(s: &mut String, n: u64)
    ensures
        final(s)@ == old(s)@ + decimal(n as nat),
    decreases n,
{
    if n >= 10 {
        push_decimal(s, n / 10);
    }
    s.append(digit_str(n));
}

} // verus!
