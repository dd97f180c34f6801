//! Response-verification oracle.
//!
//! Parses the raw bytes a receive completion delivered as an HTTP response
//! (status line plus headers), extracts the numeric status code and the
//! offset of the body, and compares the status against the one the cycle's
//! fault class makes the server owe.  A mismatch, or an unparsable response,
//! is the defect the simulator exists to find: the caller aborts the run
//! after printing the diagnostic this module hands back.

use vstd::prelude::*;

verus! {

/// The status code and body offset of a byte sequence read as a complete
/// HTTP response with a fixed header-table capacity, or `None` when the
/// bytes are not a complete well-formed response.  The outside parser is a
/// pure function of the bytes, so this is too.
pub uninterp spec fn http_response_of(buf: Seq<u8>) -> Option<(u16, nat)>;

/// Relies on `httparse::Response::parse` (with a table of 64 headers): on a
/// complete parse it yields the bytes consumed by status line and headers —
/// the body offset, at most the buffer's length — and the status code is
/// set; the parse reads nothing but the buffer.
#[verifier::external_body]
fn parse_response(buf: &[u8]) -> (r: Option<(u16, usize)>)
    ensures
        r matches Some(p) ==> http_response_of(buf@) == Some((p.0, p.1 as nat)) && p.1
            <= buf@.len(),
        r is None ==> http_response_of(buf@) is None,
{
    let mut headers = [httparse::EMPTY_HEADER; 64];
    let mut resp = httparse::Response::new(&mut headers);
    match resp.parse(buf) {
        Ok(httparse::Status::Complete(off)) => match resp.code {
            Some(code) => Some((code, off)),
            None => None,
        },
        Ok(httparse::Status::Partial) => None,
        Err(_) => None,
    }
}

/// What the oracle found in one response.
#[derive(PartialEq, Eq, Debug)]
pub enum OracleOutcome {
    /// The response parsed and carried exactly the expected status.
    Pass { body_offset: usize },
    /// The response parsed but carried another status: the defect signal.
    Mismatch { got: u16, body_offset: usize },
    /// The bytes were not a complete well-formed response.
    Malformed,
}

/// Checks one raw response against the status the cycle's fault class makes
/// the server owe.
pub fn validate_response(expected: u16, buf: &[u8]) -> (out: OracleOutcome)
    ensures
        out matches OracleOutcome::Pass { body_offset } ==> http_response_of(buf@) == Some(
            (expected, body_offset as nat),
        ) && body_offset <= buf@.len(),
        out matches OracleOutcome::Mismatch { got, body_offset } ==> http_response_of(buf@)
            == Some((got, body_offset as nat)) && got != expected && body_offset <= buf@.len(),
        out is Malformed <==> http_response_of(buf@) is None,
        (http_response_of(buf@) matches Some(p) && p.0 == expected) <==> out is Pass,
{
    match parse_response(buf) {
        Some((code, off)) => {
            if code == expected {
                OracleOutcome::Pass { body_offset: off }
            } else {
                OracleOutcome::Mismatch { got: code, body_offset: off }
            }
        },
        None => OracleOutcome::Malformed,
    }
}

} // verus!
