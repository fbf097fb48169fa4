//! Wire-level encoding of replies.
//!
//! A reply is a status line, a `Content-Length` header computed from the
//! byte length of the body (never from a textual rendering of it), for a
//! redirect a `Location` header instead of a body, and the body bytes.
//! The spec functions here state the exact byte sequence of each reply
//! shape, and the encoders are proved to produce it.

use vstd::prelude::*;
use vstd::string::StringSliceAdditionalSpecFns;
use vstd::utf8::encode_utf8;
use vstd::utf8::is_ascii_chars;
use vstd::utf8::is_ascii_chars_encode_utf8;

verus! {

/// The status lines this server can send.
#[derive(Clone, Copy, PartialEq, Eq, Structural, Debug)]
pub enum StatusCode {
    OK,
    NotFound,
    InternalServerError,
    PermanentRedirect,
}

/// The bytes of the status line for `code`, without the trailing CRLF.
pub open spec fn spec_status_line(code: StatusCode) -> Seq<u8> {
    match code {
        StatusCode::OK => "HTTP/1.1 200 OK".spec_bytes(),
        StatusCode::NotFound => "HTTP/1.1 404 NOT FOUND".spec_bytes(),
        StatusCode::InternalServerError => "HTTP/1.1 500 INTERNAL SERVER ERROR".spec_bytes(),
        StatusCode::PermanentRedirect => "HTTP/1.1 301 PERMANENT REDIRECT".spec_bytes(),
    }
}

impl StatusCode {
    /// The status line as text, e.g. `HTTP/1.1 200 OK`.
    pub fn status_line(&self) -> (r: &'static str)
        ensures
            r.spec_bytes() == spec_status_line(*self),
    {
        match self {
            StatusCode::OK => "HTTP/1.1 200 OK",
            StatusCode::NotFound => "HTTP/1.1 404 NOT FOUND",
            StatusCode::InternalServerError => "HTTP/1.1 500 INTERNAL SERVER ERROR",
            StatusCode::PermanentRedirect => "HTTP/1.1 301 PERMANENT REDIRECT",
        }
    }
}

/// The shortest decimal rendering of `n`, as ASCII digit bytes.
pub open spec fn spec_decimal(n: nat) -> Seq<u8>
    decreases n,
{
    if n < 10 {
        seq![(48 + n) as u8]
    } else {
        spec_decimal(n / 10) + seq![(48 + n % 10) as u8]
    }
}

/// A reply carrying a body: status line, `Content-Length` counted in bytes
/// of the body, a blank line, then the raw body bytes. Page and binary
/// replies both take this shape; the built-in fallback replies are the
/// special case of an empty body.
pub open spec fn spec_page_reply(code: StatusCode, body: Seq<u8>) -> Seq<u8> {
    spec_status_line(code) + "\r\nContent-Length: ".spec_bytes() + spec_decimal(body.len())
        + "\r\n\r\n".spec_bytes() + body
}

/// A redirect reply: status line, `Location` header naming the target,
/// a zero `Content-Length`, and no body.
pub open spec fn spec_redirect_reply(code: StatusCode, location: Seq<char>) -> Seq<u8> {
    spec_status_line(code) + "\r\nLocation: ".spec_bytes() + encode_utf8(location)
        + "\r\nContent-Length: 0\r\n\r\n".spec_bytes()
}

/// The built-in minimal reply: a status line and a zero-length body.
pub open spec fn spec_empty_reply(code: StatusCode) -> Seq<u8> {
    spec_page_reply(code, Seq::empty())
}

/// The decimal rendering of `n`.
pub fn format_decimal(n: usize) -> (r: Vec<u8>)
    ensures
        r@ == spec_decimal(n as nat),
    decreases n,
{
    if n < 10 {
        let mut v: Vec<u8> = Vec::new();
        v.push((48 + n) as u8);
        proof {
            assert(v@ =~= spec_decimal(n as nat));
        }
        v
    } else {
        let mut v = format_decimal(n / 10);
        v.push((48 + n % 10) as u8);
        proof {
            assert(v@ =~= spec_decimal(n as nat));
        }
        v
    }
}

/// Appends all of `bytes` to `out`.
fn append_bytes(out: &mut Vec<u8>, bytes: &[u8])
    ensures
        final(out)@ == old(out)@ + bytes@,
{
    let mut i: usize = 0;
    while i < bytes.len()
        invariant
            i <= bytes@.len(),
            out@ == old(out)@ + bytes@.subrange(0, i as int),
        decreases bytes@.len() - i,
    {
        let b = bytes[i];
        out.push(b);
        i = i + 1;
        proof {
            assert(out@ =~= old(out)@ + bytes@.subrange(0, i as int));
        }
    }
    proof {
        assert(out@ =~= old(out)@ + bytes@);
    }
}

/// Encodes a reply that carries `body`, be it page text or raw binary.
pub fn encode_page(code: StatusCode, body: &[u8]) -> (r: Vec<u8>)
    ensures
        r@ == spec_page_reply(code, body@),
{
    let mut out: Vec<u8> = Vec::new();
    append_bytes(&mut out, code.status_line().as_bytes());
    append_bytes(&mut out, "\r\nContent-Length: ".as_bytes());
    let digits = format_decimal(body.len());
    append_bytes(&mut out, digits.as_slice());
    append_bytes(&mut out, "\r\n\r\n".as_bytes());
    append_bytes(&mut out, body);
    proof {
        assert(out@ =~= spec_page_reply(code, body@));
    }
    out
}

/// Encodes a redirect reply pointing at `location`.
pub fn encode_redirect(code: StatusCode, location: &str) -> (r: Vec<u8>)
    ensures
        r@ == spec_redirect_reply(code, location@),
{
    let mut out: Vec<u8> = Vec::new();
    append_bytes(&mut out, code.status_line().as_bytes());
    append_bytes(&mut out, "\r\nLocation: ".as_bytes());
    append_bytes(&mut out, location.as_bytes());
    append_bytes(&mut out, "\r\nContent-Length: 0\r\n\r\n".as_bytes());
    proof {
        assert(out@ =~= spec_redirect_reply(code, location@));
    }
    out
}

/// UTF-8 encoding distributes over concatenation of character sequences.
pub proof fn lemma_encode_utf8_concat(a: Seq<char>, b: Seq<char>)
    ensures
        encode_utf8(a + b) =~= encode_utf8(a) + encode_utf8(b),
    decreases a.len(),
{
    if a.len() == 0 {
        assert(a + b =~= b);
    } else {
        assert((a + b)[0] == a[0]);
        assert((a + b).drop_first() =~= a.drop_first() + b);
        lemma_encode_utf8_concat(a.drop_first(), b);
    }
}

/// The built-in minimal reply for `code` is the status line followed
/// by a literal zero content length and nothing else.
pub proof fn lemma_empty_reply_bytes(code: StatusCode)
    ensures
        spec_empty_reply(code) =~= spec_status_line(code)
            + "\r\nContent-Length: 0\r\n\r\n".spec_bytes(),
{
    reveal_strlit("\r\nContent-Length: ");
    reveal_strlit("0");
    reveal_strlit("\r\n\r\n");
    reveal_strlit("\r\nContent-Length: 0\r\n\r\n");
    assert("\r\nContent-Length: 0\r\n\r\n"@ =~= ("\r\nContent-Length: "@ + "0"@) + "\r\n\r\n"@);
    lemma_encode_utf8_concat("\r\nContent-Length: "@ + "0"@, "\r\n\r\n"@);
    lemma_encode_utf8_concat("\r\nContent-Length: "@, "0"@);
    assert(is_ascii_chars("0"@));
    is_ascii_chars_encode_utf8("0"@);
    assert(spec_decimal(0) =~= encode_utf8("0"@));
}

/// The exact bytes of the two built-in fallback replies: the reply sent
/// for an unmatched request with no not-found route registered, and the
/// reply sent for a failed handler with no error route registered.
pub proof fn lemma_built_in_reply_bytes()
    ensures
        spec_empty_reply(StatusCode::NotFound)
            =~= "HTTP/1.1 404 NOT FOUND\r\nContent-Length: 0\r\n\r\n".spec_bytes(),
        spec_empty_reply(StatusCode::InternalServerError)
            =~= "HTTP/1.1 500 INTERNAL SERVER ERROR\r\nContent-Length: 0\r\n\r\n".spec_bytes(),
{
    lemma_empty_reply_bytes(StatusCode::NotFound);
    lemma_empty_reply_bytes(StatusCode::InternalServerError);
    reveal_strlit("HTTP/1.1 404 NOT FOUND");
    reveal_strlit("HTTP/1.1 404 NOT FOUND\r\nContent-Length: 0\r\n\r\n");
    reveal_strlit("HTTP/1.1 500 INTERNAL SERVER ERROR");
    reveal_strlit("HTTP/1.1 500 INTERNAL SERVER ERROR\r\nContent-Length: 0\r\n\r\n");
    reveal_strlit("\r\nContent-Length: 0\r\n\r\n");
    assert("HTTP/1.1 404 NOT FOUND\r\nContent-Length: 0\r\n\r\n"@ =~= "HTTP/1.1 404 NOT FOUND"@
        + "\r\nContent-Length: 0\r\n\r\n"@);
    lemma_encode_utf8_concat("HTTP/1.1 404 NOT FOUND"@, "\r\nContent-Length: 0\r\n\r\n"@);
    assert("HTTP/1.1 500 INTERNAL SERVER ERROR\r\nContent-Length: 0\r\n\r\n"@
        =~= "HTTP/1.1 500 INTERNAL SERVER ERROR"@ + "\r\nContent-Length: 0\r\n\r\n"@);
    lemma_encode_utf8_concat(
        "HTTP/1.1 500 INTERNAL SERVER ERROR"@,
        "\r\nContent-Length: 0\r\n\r\n"@,
    );
}

/// Encodes the built-in minimal reply for `code`.
pub fn encode_empty(code: StatusCode) -> (r: Vec<u8>)
    ensures
        r@ == spec_empty_reply(code),
{
    let body: Vec<u8> = Vec::new();
    proof {
        assert(body@ =~= Seq::<u8>::empty());
    }
    encode_page(code, body.as_slice())
}

} // verus!
