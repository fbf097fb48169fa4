//! Request-line parsing.
//!
//! Only the first line of a request is read: `<METHOD> <PATH> <ignored>`.
//! The line is split on ASCII whitespace. A line with fewer than two
//! tokens, or whose method token is not one this server understands,
//! parses to nothing and the connection is dropped without an answer.

use vstd::prelude::*;
use vstd::slice::slice_subrange;
use vstd::slice::slice_to_vec;
use vstd::string::StringSliceAdditionalSpecFns;

verus! {

/// The request methods this server understands.
#[derive(Clone, Copy, PartialEq, Eq, Structural, Debug)]
pub enum RequestType {
    GET,
    POST,
    PUT,
    DELETE,
}

/// ASCII whitespace, the separator of request-line tokens.
pub open spec fn is_space(b: u8) -> bool {
    b == 32 || 9 <= b <= 13
}

/// The first index at or after `i` holding a byte that is not whitespace,
/// or the length of `s` if only whitespace remains.
pub open spec fn skip_spaces(s: Seq<u8>, i: int) -> int
    decreases s.len() - i when 0 <= i <= s.len()
{
    if i == s.len() || !is_space(s[i]) {
        i
    } else {
        skip_spaces(s, i + 1)
    }
}

/// The first index at or after `i` holding whitespace, or the length of
/// `s`: the end of a token that starts at `i`.
pub open spec fn token_end(s: Seq<u8>, i: int) -> int
    decreases s.len() - i when 0 <= i <= s.len()
{
    if i == s.len() || is_space(s[i]) {
        i
    } else {
        token_end(s, i + 1)
    }
}

pub proof fn lemma_skip_spaces_bounds(s: Seq<u8>, i: int)
    requires
        0 <= i <= s.len(),
    ensures
        i <= skip_spaces(s, i) <= s.len(),
        skip_spaces(s, i) < s.len() ==> !is_space(s[skip_spaces(s, i)]),
    decreases s.len() - i,
{
    if i < s.len() && is_space(s[i]) {
        lemma_skip_spaces_bounds(s, i + 1);
    }
}

pub proof fn lemma_token_end_bounds(s: Seq<u8>, i: int)
    requires
        0 <= i <= s.len(),
    ensures
        i <= token_end(s, i) <= s.len(),
        i < s.len() && !is_space(s[i]) ==> token_end(s, i) >= i + 1,
    decreases s.len() - i,
{
    if i < s.len() && !is_space(s[i]) {
        lemma_token_end_bounds(s, i + 1);
    }
}

/// The whitespace-separated tokens of `s`, from index `i` on.
pub open spec fn tokens_from(s: Seq<u8>, i: int) -> Seq<Seq<u8>>
    decreases s.len() - i when 0 <= i <= s.len()
{
    let a = skip_spaces(s, i);
    if a == s.len() {
        Seq::empty()
    } else {
        proof {
            lemma_skip_spaces_bounds(s, i);
            lemma_token_end_bounds(s, a);
        }
        seq![s.subrange(a, token_end(s, a))] + tokens_from(s, token_end(s, a))
    }
}

/// The whitespace-separated tokens of `s`.
pub open spec fn tokens(s: Seq<u8>) -> Seq<Seq<u8>> {
    tokens_from(s, 0)
}

/// The method named by a request-line token, if any.
pub open spec fn spec_method(tok: Seq<u8>) -> Option<RequestType> {
    if tok == "GET".spec_bytes() {
        Some(RequestType::GET)
    } else if tok == "POST".spec_bytes() {
        Some(RequestType::POST)
    } else if tok == "PUT".spec_bytes() {
        Some(RequestType::PUT)
    } else if tok == "DELETE".spec_bytes() {
        Some(RequestType::DELETE)
    } else {
        None
    }
}

/// What a request line parses to: its method and its path token, or
/// nothing when the line has fewer than two tokens or an unknown method.
pub open spec fn spec_parse(line: Seq<u8>) -> Option<(RequestType, Seq<u8>)> {
    let toks = tokens(line);
    if toks.len() < 2 {
        None
    } else {
        match spec_method(toks[0]) {
            Some(m) => Some((m, toks[1])),
            None => None,
        }
    }
}

fn is_space_byte(b: u8) -> (r: bool)
    ensures
        r == is_space(b),
{
    b == 32 || (9 <= b && b <= 13)
}

fn scan_spaces(s: &[u8], from: usize) -> (r: usize)
    requires
        from <= s@.len(),
    ensures
        r == skip_spaces(s@, from as int),
{
    let mut i: usize = from;
    while i < s.len()
        invariant
            from <= i <= s@.len(),
            skip_spaces(s@, from as int) == skip_spaces(s@, i as int),
        decreases s@.len() - i,
    {
        if !is_space_byte(s[i]) {
            return i;
        }
        i = i + 1;
    }
    i
}

fn scan_token(s: &[u8], from: usize) -> (r: usize)
    requires
        from <= s@.len(),
    ensures
        r == token_end(s@, from as int),
{
    let mut i: usize = from;
    while i < s.len()
        invariant
            from <= i <= s@.len(),
            token_end(s@, from as int) == token_end(s@, i as int),
        decreases s@.len() - i,
    {
        if is_space_byte(s[i]) {
            return i;
        }
        i = i + 1;
    }
    i
}

/// Whether two byte slices hold the same bytes.
pub fn bytes_equal(a: &[u8], b: &[u8]) -> (r: bool)
    ensures
        r == (a@ == b@),
{
    if a.len() != b.len() {
        return false;
    }
    let mut i: usize = 0;
    while i < a.len()
        invariant
            i <= a@.len(),
            a@.len() == b@.len(),
            forall|j: int| 0 <= j < i ==> a@[j] == b@[j],
        decreases a@.len() - i,
    {
        if a[i] != b[i] {
            return false;
        }
        i = i + 1;
    }
    proof {
        assert(a@ =~= b@);
    }
    true
}

/// The method named by a request-line token, if any.
pub fn parse_method(tok: &[u8]) -> (r: Option<RequestType>)
    ensures
        r == spec_method(tok@),
{
    if bytes_equal(tok, "GET".as_bytes()) {
        Some(RequestType::GET)
    } else if bytes_equal(tok, "POST".as_bytes()) {
        Some(RequestType::POST)
    } else if bytes_equal(tok, "PUT".as_bytes()) {
        Some(RequestType::PUT)
    } else if bytes_equal(tok, "DELETE".as_bytes()) {
        Some(RequestType::DELETE)
    } else {
        None
    }
}

/// Splits a request line into its method and its path token.
pub fn parse_request_line(line: &[u8]) -> (r: Option<(RequestType, Vec<u8>)>)
    ensures
        match r {
            None => spec_parse(line@) is None,
            Some(p) => spec_parse(line@) == Some((p.0, p.1@)),
        },
{
    let a = scan_spaces(line, 0);
    proof {
        lemma_skip_spaces_bounds(line@, 0);
    }
    if a == line.len() {
        return None;
    }
    let b = scan_token(line, a);
    proof {
        lemma_token_end_bounds(line@, a as int);
        assert(tokens(line@) =~= seq![line@.subrange(a as int, b as int)]
            + tokens_from(line@, b as int));
        lemma_skip_spaces_bounds(line@, b as int);
    }
    let c = scan_spaces(line, b);
    if c == line.len() {
        proof {
            assert(tokens_from(line@, b as int) =~= Seq::<Seq<u8>>::empty());
            assert(tokens(line@).len() == 1);
        }
        return None;
    }
    let d = scan_token(line, c);
    proof {
        lemma_token_end_bounds(line@, c as int);
        assert(tokens_from(line@, b as int) =~= seq![line@.subrange(c as int, d as int)]
            + tokens_from(line@, d as int));
        assert(tokens(line@).len() >= 2);
        assert(tokens(line@)[0] == line@.subrange(a as int, b as int));
        assert(tokens(line@)[1] == line@.subrange(c as int, d as int));
    }
    let method_tok = slice_subrange(line, a, b);
    match parse_method(method_tok) {
        Some(m) => {
            let path = slice_to_vec(slice_subrange(line, c, d));
            Some((m, path))
        },
        None => None,
    }
}

} // verus!
