//! The content-length framing of messages on the agent's standard streams:
//! `Content-Length: N\r\n\r\n` followed by N bytes of JSON.
use vstd::prelude::*;
use vstd::utf8::{
    decode_utf8, encode_utf8, encode_utf8_decode_utf8, encode_utf8_valid_utf8, is_ascii_chars,
    is_ascii_chars_encode_utf8, valid_utf8,
};
use crate::text::{
    all_digits, ascii_lower, ascii_lower_char, chars_of, decimal, digits_value, is_digit, is_ws,
    lemma_decimal, occurs_at, occurs_at_exec, parse_unsigned, parse_unsigned_chars, push_decimal,
    strip_plus, trim_end, trim_start, str_ascii_lower, str_eq, string_from_chars, trim, trimmed,
};

verus! {

/// The header that announces a body of `n` bytes, with the blank line after it.
pub open spec fn frame_header(n: nat) -> Seq<char> {
    "Content-Length: "@ + decimal(n) + "\r\n\r\n"@
}

/// The framed message for a JSON body.
pub open spec fn frame(body: Seq<char>) -> Seq<u8> {
    encode_utf8(frame_header(encode_utf8(body).len())) + encode_utf8(body)
}

/// Appends bytes.
pub fn append_bytes(v: &mut Vec<u8>, s: &[u8])
    ensures
        final(v)@ == old(v)@ + s@,
{
    let n = s.len();
    let mut i: usize = 0;
    while i < n
        invariant
            n == s@.len(),
            i <= n,
            v@ == old(v)@ + s@.subrange(0, i as int),
        decreases n - i,
    {
        v.push(s[i]);
        assert(s@.subrange(0, i + 1) =~= s@.subrange(0, i as int).push(s@[i as int]));
        i = i + 1;
    }
    assert(s@.subrange(0, n as int) =~= s@);
}

/// Frames a JSON body for the agent's standard input.
pub fn encode_json_content_length_message(body: &str) -> (r: Vec<u8>)
    ensures
        r@ == frame(body@),
{
    let bytes = body.as_bytes();
    let mut header = String::new();
    header.append("Content-Length: ");
    push_decimal(&mut header, bytes.len() as u128);
    header.append("\r\n\r\n");
    let mut message: Vec<u8> = Vec::new();
    append_bytes(&mut message, header.as_str().as_bytes());
    append_bytes(&mut message, bytes);
    message
}

/// Why a framed message could not be read.
#[derive(Clone, Copy, Debug, PartialEq, Eq)]
pub enum FrameError {
    /// A header line is not UTF-8.
    InvalidUtf8,
    /// The `Content-Length` value is not a number that fits a `usize`.
    InvalidContentLength,
    /// The headers ended without a `Content-Length`.
    MissingContentLength,
    /// The input ended before the announced body.
    Truncated,
}

impl FrameError {
    /// The message reported for the error.
    pub fn message(&self) -> (r: &'static str)
        ensures
            r@ == match self {
                FrameError::InvalidUtf8 => "stream did not contain valid UTF-8"@,
                FrameError::InvalidContentLength => "invalid Content-Length value"@,
                FrameError::MissingContentLength => "ACP message is missing Content-Length"@,
                FrameError::Truncated => "failed to fill whole buffer"@,
            },
    {
        match self {
            FrameError::InvalidUtf8 => "stream did not contain valid UTF-8",
            FrameError::InvalidContentLength => "invalid Content-Length value",
            FrameError::MissingContentLength => "ACP message is missing Content-Length",
            FrameError::Truncated => "failed to fill whole buffer",
        }
    }
}

/// The end of the line that starts at `start`: just after its newline, or
/// the end of the input.
pub open spec fn line_end(input: Seq<u8>, start: int) -> int
    decreases input.len() - start,
{
    if start >= input.len() {
        input.len() as int
    } else if input[start] == 10 {
        start + 1
    } else {
        line_end(input, start + 1)
    }
}

pub proof fn lemma_line_end(input: Seq<u8>, start: int)
    requires
        0 <= start < input.len(),
    ensures
        start < line_end(input, start) <= input.len(),
    decreases input.len() - start,
{
    if input[start] == 10 {
    } else if start + 1 < input.len() {
        lemma_line_end(input, start + 1);
    } else {
        assert(line_end(input, start + 1) == input.len());
    }
}

/// The first position at or after `i` where `p` occurs in `s`.
pub open spec fn occurrence_from(s: Seq<char>, p: Seq<char>, i: int) -> Option<int>
    decreases s.len() + 1 - i,
{
    if i < 0 || i + p.len() > s.len() {
        None
    } else if occurs_at(s, p, i) {
        Some(i)
    } else {
        occurrence_from(s, p, i + 1)
    }
}

/// The value of a header line that names `Content-Length` in any ASCII case:
/// the line is trimmed and split at its first `": "`.
pub open spec fn content_length_value(line: Seq<char>) -> Option<Seq<char>> {
    let t = trim(line);
    match occurrence_from(t, ": "@, 0) {
        Some(i) => if ascii_lower(t.subrange(0, i)) == "content-length"@ {
            Some(t.subrange(i + 2, t.len() as int))
        } else {
            None
        },
        None => None,
    }
}

proof fn lemma_occurrence_from(s: Seq<char>, p: Seq<char>, i: int)
    ensures
        occurrence_from(s, p, i) matches Some(k) ==> i <= k && k + p.len() <= s.len() && occurs_at(
            s,
            p,
            k,
        ),
    decreases s.len() + 1 - i,
{
    if !(i < 0 || i + p.len() > s.len()) && !occurs_at(s, p, i) {
        lemma_occurrence_from(s, p, i + 1);
    }
}

/// How reading header lines from `pos` ends.
pub enum HeaderScan {
    /// The input ended before the blank line.
    Eof,
    /// A header line could not be read.
    Invalid(FrameError),
    /// The blank line ends the headers at `body_start`.
    Done { content_length: Option<nat>, body_start: int },
}

/// Reads header lines from `pos` on, keeping the last `Content-Length`.
pub open spec fn scan_headers(input: Seq<u8>, pos: int, length: Option<nat>) -> HeaderScan
    decreases input.len() - pos,
{
    if pos < 0 || pos >= input.len() {
        HeaderScan::Eof
    } else {
        let end = line_end(input, pos);
        proof {
            lemma_line_end(input, pos);
        }
        let bytes = input.subrange(pos, end);
        if !valid_utf8(bytes) {
            HeaderScan::Invalid(FrameError::InvalidUtf8)
        } else {
            let line = decode_utf8(bytes);
            if line == "\r\n"@ {
                HeaderScan::Done { content_length: length, body_start: end }
            } else {
                match content_length_value(line) {
                    Some(v) => match parse_unsigned(v, usize::MAX as nat) {
                        Some(n) => scan_headers(input, end, Some(n)),
                        None => HeaderScan::Invalid(FrameError::InvalidContentLength),
                    },
                    None => scan_headers(input, end, length),
                }
            }
        }
    }
}

/// Reading one framed message from the input: nothing when the input ends
/// within the headers; else the body and the number of bytes read.
pub open spec fn decoded(input: Seq<u8>) -> Result<Option<(Seq<u8>, int)>, FrameError> {
    match scan_headers(input, 0, None) {
        HeaderScan::Eof => Ok(None),
        HeaderScan::Invalid(e) => Err(e),
        HeaderScan::Done { content_length, body_start } => match content_length {
            None => Err(FrameError::MissingContentLength),
            Some(n) => if body_start + n <= input.len() {
                Ok(Some((input.subrange(body_start, body_start + n), body_start + n)))
            } else {
                Err(FrameError::Truncated)
            },
        },
    }
}

/// `std::str::from_utf8`: the text of the bytes, copied into an owned
/// string, when they are valid UTF-8, and nothing otherwise.
#[verifier::external_body]
fn utf8_text(bytes: &[u8]) -> (r: Option<String>)
    ensures
        r is Some <==> valid_utf8(bytes@),
        r matches Some(s) ==> s@ == decode_utf8(bytes@),
{
    std::str::from_utf8(bytes).ok().map(|s| s.to_string())
}

fn find_line_end(input: &[u8], start: usize) -> (r: usize)
    requires
        start < input@.len(),
    ensures
        r as int == line_end(input@, start as int),
        start < r <= input@.len(),
{
    let n = input.len();
    let mut k: usize = start;
    while k < n && input[k] != 10
        invariant
            n == input@.len(),
            start <= k <= n,
            line_end(input@, start as int) == line_end(input@, k as int),
        decreases n - k,
    {
        k = k + 1;
    }
    if k < n {
        k + 1
    } else {
        n
    }
}

fn find_occurrence(s: &[char], p: &[char]) -> (r: Option<usize>)
    ensures
        match r {
            Some(i) => occurrence_from(s@, p@, 0) == Some(i as int),
            None => occurrence_from(s@, p@, 0) is None,
        },
{
    let n = s.len();
    if p.len() > n {
        return None;
    }
    let last = n - p.len();
    let mut i: usize = 0;
    loop
        invariant
            n == s@.len(),
            last + p@.len() == n,
            i <= last,
            occurrence_from(s@, p@, 0) == occurrence_from(s@, p@, i as int),
        decreases last - i,
    {
        if occurs_at_exec(s, p, i) {
            return Some(i);
        }
        if i == last {
            assert(occurrence_from(s@, p@, i + 1) is None);
            return None;
        }
        i = i + 1;
    }
}

fn header_value(line: &str) -> (r: Option<Vec<char>>)
    ensures
        match r {
            Some(v) => content_length_value(line@) == Some(v@),
            None => content_length_value(line@) is None,
        },
{
    let t = trimmed(line);
    let cs = chars_of(t.as_str());
    let sep = chars_of(": ");
    proof {
        reveal_strlit(": ");
    }
    let i = match find_occurrence(cs.as_slice(), sep.as_slice()) {
        Some(i) => i,
        None => return None,
    };
    proof {
        lemma_occurrence_from(cs@, sep@, 0);
    }
    let name = string_from_chars(&cs.as_slice()[0..i]);
    let lower = str_ascii_lower(name.as_str());
    if !str_eq(lower.as_str(), "content-length") {
        return None;
    }
    let mut value: Vec<char> = Vec::new();
    let n = cs.len();
    let mut k: usize = i + 2;
    while k < n
        invariant
            n == cs@.len(),
            i + 2 <= k <= n,
            value@ == cs@.subrange(i + 2, k as int),
        decreases n - k,
    {
        value.push(cs[k]);
        assert(cs@.subrange(i + 2, k + 1) =~= cs@.subrange(i + 2, k as int).push(cs@[k as int]));
        k = k + 1;
    }
    Some(value)
}

/// The headers of a framed message: nothing when the input ends within
/// them, else where the body starts and how long it is.
pub open spec fn frame_header_of(input: Seq<u8>) -> Result<Option<(int, nat)>, FrameError> {
    match scan_headers(input, 0, None) {
        HeaderScan::Eof => Ok(None),
        HeaderScan::Invalid(e) => Err(e),
        HeaderScan::Done { content_length, body_start } => match content_length {
            None => Err(FrameError::MissingContentLength),
            Some(n) => Ok(Some((body_start, n))),
        },
    }
}

/// Reads the headers of a framed message: `Ok(None)` when the input ends
/// within them, else where the body starts and its announced length.
pub fn read_frame_header(input: &[u8]) -> (r: Result<Option<(usize, usize)>, FrameError>)
    ensures
        match r {
            Ok(None) => frame_header_of(input@) == Ok::<Option<(int, nat)>, FrameError>(None),
            Ok(Some((start, len))) => {
                &&& frame_header_of(input@) == Ok::<Option<(int, nat)>, FrameError>(
                    Some((start as int, len as nat)),
                )
                &&& start <= input@.len()
            },
            Err(e) => frame_header_of(input@) == Err::<Option<(int, nat)>, FrameError>(e),
        },
{
    let n = input.len();
    let mut pos: usize = 0;
    let mut length: Option<usize> = None;
    let ghost mut glength: Option<nat> = None;
    loop
        invariant
            n == input@.len(),
            pos <= n,
            glength == match length {
                Some(l) => Some(l as nat),
                None => None::<nat>,
            },
            scan_headers(input@, 0, None) == scan_headers(input@, pos as int, glength),
        decreases n - pos,
    {
        if pos >= n {
            return Ok(None);
        }
        let end = find_line_end(input, pos);
        let line = match utf8_text(&input[pos..end]) {
            Some(l) => l,
            None => return Err(FrameError::InvalidUtf8),
        };
        if str_eq(line.as_str(), "\r\n") {
            return match length {
                Some(l) => Ok(Some((end, l))),
                None => Err(FrameError::MissingContentLength),
            };
        }
        match header_value(line.as_str()) {
            Some(v) => {
                match parse_unsigned_chars(v.as_slice(), usize::MAX as u64) {
                    Some(l) => {
                        length = Some(l as usize);
                        proof {
                            glength = Some(l as nat);
                        }
                    },
                    None => return Err(FrameError::InvalidContentLength),
                }
            },
            None => {},
        }
        pos = end;
    }
}

/// Reads one framed message: `Ok(None)` when the input ends within the
/// headers, else the body bytes and the number of bytes consumed.
pub fn decode_content_length_message(input: &[u8]) -> (r: Result<Option<(Vec<u8>, usize)>, FrameError>)
    ensures
        match r {
            Ok(None) => decoded(input@) == Ok::<Option<(Seq<u8>, int)>, FrameError>(None),
            Ok(Some((body, used))) => decoded(input@) == Ok::<Option<(Seq<u8>, int)>, FrameError>(
                Some((body@, used as int)),
            ),
            Err(e) => decoded(input@) == Err::<Option<(Seq<u8>, int)>, FrameError>(e),
        },
{
    let n = input.len();
    match read_frame_header(input) {
        Err(e) => Err(e),
        Ok(None) => Ok(None),
        Ok(Some((start, body_len))) => {
            if body_len > n - start {
                return Err(FrameError::Truncated);
            }
            let mut body: Vec<u8> = Vec::new();
            append_bytes(&mut body, &input[start..start + body_len]);
            Ok(Some((body, start + body_len)))
        },
    }
}

proof fn lemma_line_end_at(input: Seq<u8>, start: int, e: int)
    requires
        0 <= start < e <= input.len(),
        input[e - 1] == 10,
        forall|k: int| start <= k < e - 1 ==> input[k] != 10,
    ensures
        line_end(input, start) == e,
    decreases e - start,
{
    if start < e - 1 {
        lemma_line_end_at(input, start + 1, e);
    }
}

proof fn lemma_first_occurrence(s: Seq<char>, p: Seq<char>, j: int, i: int)
    requires
        0 <= j <= i,
        i + p.len() <= s.len(),
        occurs_at(s, p, i),
        forall|k: int| j <= k < i ==> !occurs_at(s, p, k),
    ensures
        occurrence_from(s, p, j) == Some(i),
    decreases i - j,
{
    if j < i {
        lemma_first_occurrence(s, p, j + 1, i);
    }
}

proof fn lemma_ascii_encode(s: Seq<char>)
    requires
        is_ascii_chars(s),
    ensures
        encode_utf8(s) == s.map_values(|c: char| c as u8),
{
    is_ascii_chars_encode_utf8(s);
    assert(encode_utf8(s) =~= s.map_values(|c: char| c as u8));
}

/// Law: reading a framed body back, whatever follows it, gives the body's
/// bytes and consumes exactly the frame.
pub proof fn law_frame_roundtrip(body: Seq<char>, rest: Seq<u8>)
    requires
        encode_utf8(body).len() <= usize::MAX,
    ensures
        decoded(frame(body) + rest) == Ok::<Option<(Seq<u8>, int)>, FrameError>(
            Some((encode_utf8(body), frame(body).len() as int)),
        ),
{
    reveal_strlit("Content-Length: ");
    reveal_strlit("\r\n\r\n");
    reveal_strlit("\r\n");
    reveal_strlit(": ");
    reveal_strlit("content-length");
    let n = encode_utf8(body).len();
    let dec = decimal(n);
    lemma_decimal(n);
    let lit = "Content-Length: "@;
    let t = lit + dec;
    let h1 = t + "\r\n"@;
    let h = frame_header(n);
    assert(h =~= h1 + "\r\n"@);
    let ln = lit.len() as int;
    let dn = dec.len() as int;
    assert(ln == 16);
    assert forall|k: int| 0 <= k < dn implies is_digit(#[trigger] dec[k]) by {}
    assert forall|k: int| 0 <= k < h.len() implies '\0' <= #[trigger] h[k] <= '\u{7f}' by {
        if k < ln {
            assert(h[k] == lit[k]);
        } else if k < ln + dn {
            assert(h[k] == dec[k - ln]);
            assert(is_digit(dec[k - ln]));
        }
    }
    assert(is_ascii_chars(h));
    assert(is_ascii_chars(h1)) by {
        assert forall|k: int| 0 <= k < h1.len() implies '\0' <= #[trigger] h1[k] <= '\u{7f}' by {
            assert(h1[k] == h[k]);
        }
    }
    let crlf = "\r\n"@;
    assert(is_ascii_chars(crlf));
    lemma_ascii_encode(h);
    lemma_ascii_encode(h1);
    lemma_ascii_encode(crlf);
    let hb = encode_utf8(h);
    let input = frame(body) + rest;
    let e1 = h1.len() as int;
    assert(hb.len() == h.len());
    assert forall|k: int| 0 <= k < h.len() implies #[trigger] input[k] == h[k] as u8 by {
        assert(input[k] == hb[k]);
    }
    // First line: the Content-Length header.
    assert forall|k: int| 0 <= k < e1 - 1 implies input[k] != 10 by {
        assert(input[k] == h[k] as u8);
        if k < ln {
            assert(h[k] == lit[k]);
        } else if k < ln + dn {
            assert(h[k] == dec[k - ln]);
            assert(is_digit(dec[k - ln]));
        } else {
            assert(h[k] == '\r');
        }
    }
    assert(input[e1 - 1] == h[e1 - 1] as u8);
    lemma_line_end_at(input, 0, e1);
    let b1 = input.subrange(0, e1);
    assert(b1 =~= encode_utf8(h1)) by {
        assert forall|k: int| 0 <= k < e1 implies #[trigger] b1[k] == encode_utf8(h1)[k] by {
            assert(b1[k] == input[k]);
            assert(h1[k] == h[k]);
        }
    }
    encode_utf8_valid_utf8(h1);
    encode_utf8_decode_utf8(h1);
    assert(decode_utf8(b1) == h1);
    assert(h1 != "\r\n"@) by {
        assert(h1.len() != crlf.len());
    }
    // Its trimmed form and value.
    assert(!is_ws(h1[0])) by {
        assert(h1[0] == 'C');
    }
    assert(trim_start(h1) == h1);
    let h1a = h1.drop_last();
    assert(h1a =~= t + seq!['\r']);
    assert(is_ws(h1.last()));
    assert(trim_end(h1) == trim_end(h1a));
    assert(is_ws(h1a.last()));
    assert(h1a.drop_last() =~= t);
    assert(trim_end(h1a) == trim_end(t));
    assert(t.last() == dec[dn - 1]);
    assert(is_digit(dec[dn - 1]));
    assert(!is_ws(t.last()));
    assert(trim_end(t) == t);
    assert(trim(h1) == t);
    let sep = ": "@;
    assert(t.subrange(14, 16) =~= sep) by {
        assert(t[14] == lit[14]);
        assert(t[15] == lit[15]);
    }
    assert forall|k: int| 0 <= k < 14 implies !occurs_at(t, sep, k) by {
        assert(t[k] == lit[k]);
        assert(t.subrange(k, k + 2)[0] == t[k]);
    }
    lemma_first_occurrence(t, sep, 0, 14);
    assert(ascii_lower(t.subrange(0, 14)) =~= "content-length"@) by {
        assert forall|k: int| 0 <= k < 14 implies #[trigger] ascii_lower(t.subrange(0, 14))[k]
            == "content-length"@[k] by {
            assert(t.subrange(0, 14)[k] == lit[k]);
        }
    }
    assert(t.subrange(16, t.len() as int) =~= dec);
    assert(content_length_value(h1) == Some(dec));
    assert(strip_plus(dec) == dec) by {
        assert(is_digit(dec[0]));
    }
    assert(parse_unsigned(dec, usize::MAX as nat) == Some(n));
    // Second line: the blank line.
    assert(input[e1] == h[e1] as u8);
    assert(input[e1 + 1] == h[e1 + 1] as u8);
    lemma_line_end_at(input, e1, e1 + 2);
    let b2 = input.subrange(e1, e1 + 2);
    assert(b2 =~= encode_utf8(crlf)) by {
        assert(b2[0] == input[e1]);
        assert(b2[1] == input[e1 + 1]);
    }
    encode_utf8_valid_utf8(crlf);
    encode_utf8_decode_utf8(crlf);
    assert(scan_headers(input, e1, Some(n)) == (HeaderScan::Done {
        content_length: Some(n),
        body_start: e1 + 2,
    }));
    assert(scan_headers(input, 0, None) == scan_headers(input, e1, Some(n)));
    // The body.
    assert(input.subrange(e1 + 2, e1 + 2 + n) =~= encode_utf8(body)) by {
        assert forall|k: int| 0 <= k < n implies #[trigger] input.subrange(
            e1 + 2,
            e1 + 2 + n,
        )[k] == encode_utf8(body)[k] by {
            assert(input[e1 + 2 + k] == frame(body)[e1 + 2 + k]);
        }
    }
}

} // verus!
