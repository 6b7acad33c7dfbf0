//! The health probe's wire framing: the request it sends, the body it takes
//! out of the reply, and what a probe's outcome says about readiness.
use vstd::prelude::*;
use vstd::string::*;
use crate::config::{loopback_address, loopback_authority};

verus! {

/// The service's answer to a health probe.
pub struct HealthResponse {
    pub status: String,
    pub model_loaded: bool,
    pub version: String,
}

/// A probe that did not yield a health answer, with a human-readable reason.
pub struct ProbeFailure {
    pub message: String,
}

/// The blank line that ends the headers of an HTTP message.
pub open spec fn header_end() -> Seq<char> {
    seq!['\r', '\n', '\r', '\n']
}

/// Whether the blank-line delimiter starts at position `i` of `s`.
pub open spec fn delimiter_at(s: Seq<char>, i: int) -> bool {
    0 <= i && i + 4 <= s.len() && s.subrange(i, i + 4) == header_end()
}

/// The first position at or after `from` where the delimiter starts.
pub open spec fn find_delimiter(s: Seq<char>, from: int) -> Option<int>
    decreases s.len() - from,
{
    if from < 0 || from + 4 > s.len() {
        None
    } else if delimiter_at(s, from) {
        Some(from)
    } else {
        find_delimiter(s, from + 1)
    }
}

/// The body of a reply: all the text after the first delimiter. `None` when
/// the reply holds no delimiter.
pub open spec fn body_of(reply: Seq<char>) -> Option<Seq<char>> {
    match find_delimiter(reply, 0) {
        None => None,
        Some(i) => Some(reply.subrange(i + 4, reply.len() as int)),
    }
}

/// The request a probe sends.
pub open spec fn health_request_text() -> Seq<char> {
    "GET /health HTTP/1.1\r\nHost: "@ + loopback_authority() + "\r\nConnection: close\r\n\r\n"@
}

/// A probe reports the service ready when it answered and its model is loaded.
pub open spec fn reports_ready(probe: Result<HealthResponse, ProbeFailure>) -> bool {
    match probe {
        Ok(h) => h.model_loaded,
        Err(_) => false,
    }
}

/// The text of the request that a probe sends.
pub fn health_request() -> (r: String)
    ensures
        r@ == health_request_text(),
{
    let mut r = String::from_str("GET /health HTTP/1.1\r\nHost: ");
    let authority = loopback_address();
    r.append(authority.as_str());
    r.append("\r\nConnection: close\r\n\r\n");
    r
}

/// The first position at or after `from` where the delimiter starts in `s`.
fn delimiter_position(s: &str, from: usize) -> (r: Option<usize>)
    requires
        from <= s@.len(),
    ensures
        match r {
            Some(i) => find_delimiter(s@, from as int) == Some(i as int) && from <= i && i + 4
                <= s@.len(),
            None => find_delimiter(s@, from as int) is None,
        },
{
    let len = s.unicode_len();
    let mut i = from;
    while i < len && len - i >= 4
        invariant
            len == s@.len(),
            from <= i <= len,
            find_delimiter(s@, from as int) == find_delimiter(s@, i as int),
        decreases len - i,
    {
        let c0 = s.get_char(i);
        let c1 = s.get_char(i + 1);
        let c2 = s.get_char(i + 2);
        let c3 = s.get_char(i + 3);
        assert(s@.subrange(i as int, i + 4) =~= seq![c0, c1, c2, c3]);
        if c0 == '\r' && c1 == '\n' && c2 == '\r' && c3 == '\n' {
            return Some(i);
        }
        i = i + 1;
    }
    None
}

/// The body of a raw HTTP reply: everything after the blank line that ends
/// its headers. A reply without that delimiter is a probe failure.
pub fn response_body(reply: &str) -> (r: Result<String, ProbeFailure>)
    ensures
        match body_of(reply@) {
            Some(b) => r is Ok && r->Ok_0@ == b,
            None => r is Err,
        },
{
    let len = reply.unicode_len();
    match delimiter_position(reply, 0) {
        None => Err(ProbeFailure { message: String::from_str("Invalid HTTP response") }),
        Some(i) => Ok(String::from_str(reply.substring_char(i + 4, len))),
    }
}

/// Whether a probe's outcome reports the service ready.
pub fn probe_ready(probe: &Result<HealthResponse, ProbeFailure>) -> (r: bool)
    ensures
        r == reports_ready(*probe),
{
    match probe {
        Ok(h) => h.model_loaded,
        Err(_) => false,
    }
}

} // verus!
