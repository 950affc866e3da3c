use vstd::prelude::*;

verus! {

/// What the decoder of `bytes` as UTF-8 gives: the text, or `None` where `bytes` is not
/// valid UTF-8.
pub uninterp spec fn utf8_decoded(bytes: Seq<u8>) -> Option<Seq<char>>;

/// Whether `c` has the Unicode property White_Space.
pub open spec fn is_white_space(c: char) -> bool {
    ('\u{9}' <= c && c <= '\u{d}') || c == ' ' || c == '\u{85}' || c == '\u{a0}' || c
        == '\u{1680}' || ('\u{2000}' <= c && c <= '\u{200a}') || c == '\u{2028}' || c
        == '\u{2029}' || c == '\u{202f}' || c == '\u{205f}' || c == '\u{3000}'
}

/// `s` without the White_Space characters at its end: its longest prefix after which
/// only such characters follow.
pub open spec fn trimmed_end(s: Seq<char>) -> Seq<char>
    decreases s.len(),
{
    if s.len() > 0 && is_white_space(s.last()) {
        trimmed_end(s.drop_last())
    } else {
        s
    }
}

/// Relies on `String::from_utf8`: it accepts exactly the valid UTF-8 sequences, and the
/// text depends on the bytes alone.
#[verifier::external_body]
fn decode_utf8(bytes: Vec<u8>) -> (r: Option<String>)
    ensures
        match r {
            Some(s) => utf8_decoded(bytes@) == Some(s@),
            None => utf8_decoded(bytes@) is None,
        },
{
    String::from_utf8(bytes).ok()
}

/// Relies on `str::trim_end`, which removes the trailing characters that have the
/// Unicode property White_Space.
#[verifier::external_body]
fn trim_trailing_whitespace(s: &str) -> (r: String)
    ensures
        r@ == trimmed_end(s@),
{
    s.trim_end().to_string()
}

/// The two streams of the time tracker's export run.
#[derive(Clone, Copy, Debug, PartialEq, Eq, Structural)]
pub enum Stream {
    Output,
    Error,
}

/// The outcome of one export run, as raw bytes: what it wrote on its output stream, or
/// what it wrote on its error stream where that is not empty.
#[derive(Debug)]
pub enum TimewOutBytes {
    Output(Vec<u8>),
    Error(Vec<u8>),
}

/// The outcome of one export run, as text with trailing whitespace removed.
#[derive(Debug)]
pub enum TimewOutString {
    Output(String),
    Error(String),
}

/// Why the outcome of an export run yields no export text.
#[derive(Debug)]
pub enum ExportError {
    /// The stream held bytes that are not UTF-8.
    Encoding(Stream),
    /// The time tracker reported an error; its text, verbatim.
    Failure(String),
}

impl TimewOutBytes {
    /// Tags the captured streams of one run: `Error` where the error stream is not
    /// empty, whatever the exit status; `Output` otherwise.
    pub fn new(output: Vec<u8>, error: Vec<u8>) -> (r: TimewOutBytes)
        ensures
            error@.len() > 0 ==> (r matches TimewOutBytes::Error(e) && e@ == error@),
            error@.len() == 0 ==> (r matches TimewOutBytes::Output(o) && o@ == output@),
    {
        if error.len() > 0 {
            TimewOutBytes::Error(error)
        } else {
            TimewOutBytes::Output(output)
        }
    }
}

impl TimewOutString {
    /// Decodes the selected stream as UTF-8 and trims its trailing whitespace. Bytes
    /// that are not UTF-8 are reported as an encoding error naming the stream, never
    /// replaced: the caller ends the run on it, as on every error.
    pub fn from_bytes(bytes: TimewOutBytes) -> (r: Result<TimewOutString, ExportError>)
        ensures
            match bytes {
                TimewOutBytes::Output(o) => match utf8_decoded(o@) {
                    Some(t) => r matches Ok(TimewOutString::Output(s)) && s@ == trimmed_end(t),
                    None => r matches Err(ExportError::Encoding(Stream::Output)),
                },
                TimewOutBytes::Error(e) => match utf8_decoded(e@) {
                    Some(t) => r matches Ok(TimewOutString::Error(s)) && s@ == trimmed_end(t),
                    None => r matches Err(ExportError::Encoding(Stream::Error)),
                },
            },
    {
        match bytes {
            TimewOutBytes::Output(o) => match decode_utf8(o) {
                Some(t) => Ok(TimewOutString::Output(trim_trailing_whitespace(t.as_str()))),
                None => Err(ExportError::Encoding(Stream::Output)),
            },
            TimewOutBytes::Error(e) => match decode_utf8(e) {
                Some(t) => Ok(TimewOutString::Error(trim_trailing_whitespace(t.as_str()))),
                None => Err(ExportError::Encoding(Stream::Error)),
            },
        }
    }

    /// The export text of a successful run; a failed run ends here with its error text,
    /// before anything is decoded.
    pub fn into_export_text(self) -> (r: Result<String, ExportError>)
        ensures
            match self {
                TimewOutString::Output(o) => r matches Ok(t) && t@ == o@,
                TimewOutString::Error(e) => r matches Err(ExportError::Failure(m)) && m@ == e@,
            },
    {
        match self {
            TimewOutString::Output(o) => Ok(o),
            TimewOutString::Error(e) => Err(ExportError::Failure(e)),
        }
    }
}

/// Takes the export outcome from raw bytes to export text: the stream is decoded, and
/// a failed run yields its error text verbatim.
pub fn export_text(bytes: TimewOutBytes) -> (r: Result<String, ExportError>)
    ensures
        match bytes {
            TimewOutBytes::Output(o) => match utf8_decoded(o@) {
                Some(t) => r matches Ok(s) && s@ == trimmed_end(t),
                None => r matches Err(ExportError::Encoding(Stream::Output)),
            },
            TimewOutBytes::Error(e) => match utf8_decoded(e@) {
                Some(t) => r matches Err(ExportError::Failure(m)) && m@ == trimmed_end(t),
                None => r matches Err(ExportError::Encoding(Stream::Error)),
            },
        },
{
    match TimewOutString::from_bytes(bytes) {
        Ok(s) => s.into_export_text(),
        Err(e) => Err(e),
    }
}

} // verus!
