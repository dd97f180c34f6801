//! Protocol request builder.
//!
//! Builds the one conformant request the simulator sends: a pipelined
//! execute-statement message (a fixed `SELECT 1` with rows requested —
//! the payload's content is not under test, only its framing), wrapped in
//! the HTTP framing the server expects.  The length header is recomputed
//! from the actual serialized body on every build, so the normal path never
//! carries a framing mismatch.

use vstd::prelude::*;
use vstd::string::StrSliceExecFns;
use vstd::string::StringSliceAdditionalSpecFns;
use vstd::utf8::encode_utf8;
use vstd::arithmetic::div_mod::lemma_fundamental_div_mod;

verus! {

/// The decimal digits (ASCII) of `n`, most significant first, no leading
/// zeros (a single `0` for zero).
pub open spec fn dec_bytes(n: nat) -> Seq<u8>
    decreases n,
{
    if n < 10 {
        seq![(48 + n) as u8]
    } else {
        dec_bytes(n / 10).push((48 + n % 10) as u8)
    }
}

/// The number a sequence of ASCII digits denotes, most significant first.
pub open spec fn dec_val(s: Seq<u8>) -> nat
    decreases s.len(),
{
    if s.len() == 0 {
        0
    } else {
        (dec_val(s.drop_last()) * 10 + (s.last() - 48)) as nat
    }
}

/// Law: printing a number as decimal digits and reading the digits back
/// yields the number itself.
pub proof fn lemma_dec_round_trip(n: nat)
    ensures
        dec_val(dec_bytes(n)) == n,
    decreases n,
{
    let s = dec_bytes(n);
    if n < 10 {
        assert(s =~= seq![(48 + n) as u8]);
        assert(s.drop_last() =~= Seq::<u8>::empty());
        assert(dec_val(s.drop_last()) == 0);
        assert(s.last() == (48 + n) as u8);
        assert((48 + n) as u8 == 48 + n);
        assert(dec_val(s) == n);
    } else {
        lemma_dec_round_trip(n / 10);
        assert(s == dec_bytes(n / 10).push((48 + n % 10) as u8));
        assert(s.drop_last() =~= dec_bytes(n / 10));
        assert(s.last() == (48 + n % 10) as u8);
        assert((48 + n % 10) as u8 == 48 + n % 10);
        lemma_fundamental_div_mod(n as int, 10);
        assert(dec_val(s) == (dec_val(s.drop_last()) * 10 + (s.last() - 48)) as nat);
        assert(dec_val(s) == n);
    }
}

/// `n` written in decimal ASCII.
pub fn u64_to_dec(n: u64) -> (v: Vec<u8>)
    ensures
        v@ == dec_bytes(n as nat),
    decreases n,
{
    if n < 10 {
        let mut v: Vec<u8> = Vec::new();
        v.push((48 + n) as u8);
        proof {
            assert(v@ =~= dec_bytes(n as nat));
        }
        v
    } else {
        let mut v = u64_to_dec(n / 10);
        v.push((48 + n % 10) as u8);
        v
    }
}

/// The serialized protocol body: one pipelined execute-statement request,
/// a `SELECT 1` with rows requested and no arguments, no baton.
pub open spec fn spec_request_body() -> Seq<u8> {
    encode_utf8(request_body_chars())
}

pub open spec fn request_body_chars() -> Seq<char> {
    "{\"baton\":null,\"requests\":[{\"type\":\"execute\",\"stmt\":{\"sql\":\"SELECT 1\",\"args\":[],\"named_args\":[],\"want_rows\":true}}]}"@
}

/// Everything of the request head up to the value of the length header: the
/// request line, the virtual host header, and the length header's name.
pub open spec fn head_prefix_chars() -> Seq<char> {
    "POST /v2/pipeline HTTP/1.1\r\nHost: test.localhost\r\nContent-Length: "@
}

pub open spec fn head_tail_chars() -> Seq<char> {
    "\r\n\r\n"@
}

/// A body wrapped in its HTTP framing: the fixed head, then the decimal
/// digits of the body's exact byte length, then the blank line, then the
/// body itself.
pub open spec fn spec_frame(body: Seq<u8>) -> Seq<u8> {
    encode_utf8(head_prefix_chars()) + dec_bytes(body.len()) + encode_utf8(head_tail_chars())
        + body
}

/// The one well-formed request of a cycle, framing included.  Every cycle of
/// every run builds these same bytes.
pub open spec fn spec_request_bytes() -> Seq<u8> {
    spec_frame(spec_request_body())
}

/// Law: in a framed request, the digits standing where the length header's
/// value goes decode to exactly the byte length of the body that ends the
/// request — the transmitted length always matches the transmitted body.
pub proof fn lemma_framing_correct(body: Seq<u8>)
    ensures
        ({
            let framed = spec_frame(body);
            let head = encode_utf8(head_prefix_chars());
            let digits = dec_bytes(body.len());
            &&& framed.subrange(head.len() as int, (head.len() + digits.len()) as int) == digits
            &&& framed.subrange((framed.len() - body.len()) as int, framed.len() as int) == body
            &&& dec_val(digits) == body.len()
        }),
{
    lemma_dec_round_trip(body.len());
    let framed = spec_frame(body);
    let head = encode_utf8(head_prefix_chars());
    let digits = dec_bytes(body.len());
    assert(framed.subrange(head.len() as int, (head.len() + digits.len()) as int) =~= digits);
    assert(framed.subrange((framed.len() - body.len()) as int, framed.len() as int) =~= body);
}

/// Serializes the fixed pipelined execute-statement request.
pub fn build_request_body() -> (v: Vec<u8>)
    ensures
        v@ == spec_request_body(),
{
    let s = "{\"baton\":null,\"requests\":[{\"type\":\"execute\",\"stmt\":{\"sql\":\"SELECT 1\",\"args\":[],\"named_args\":[],\"want_rows\":true}}]}";
    s.as_bytes_vec()
}

/// Wraps a serialized body in the transport framing, with the length header
/// recomputed from the body's actual size.
pub fn frame_http_request(body: Vec<u8>) -> (r: Vec<u8>)
    ensures
        r@ == spec_frame(body@),
{
    let head = "POST /v2/pipeline HTTP/1.1\r\nHost: test.localhost\r\nContent-Length: ";
    let mut out = head.as_bytes_vec();
    let mut digits = u64_to_dec(body.len() as u64);
    out.append(&mut digits);
    let tail = "\r\n\r\n";
    let mut tail_bytes = tail.as_bytes_vec();
    out.append(&mut tail_bytes);
    let mut body = body;
    out.append(&mut body);
    out
}

/// Builds the complete well-formed request of a cycle: serialized body plus
/// framing.
pub fn build_request() -> (r: Vec<u8>)
    ensures
        r@ == spec_request_bytes(),
{
    let body = build_request_body();
    frame_http_request(body)
}

} // verus!
