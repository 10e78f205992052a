//! What the web server answers to a request: the route chosen from the request
//! line, and the bytes of the response built from a status line and a body.
//! Reading the request, waiting, reading the body's file and writing the
//! response are the caller's.

use crate::text::{decimal_spec, push_decimal};
use vstd::prelude::*;

verus! {

/// The request line of the front page.
pub const HOME_REQUEST: &'static str = "GET / HTTP/1.1";

/// The request line of the front page served after a delay.
pub const SLOW_REQUEST: &'static str = "GET /sleep HTTP/1.1";

pub const STATUS_OK: &'static str = "HTTP/1.1 200 OK";

pub const STATUS_NOT_FOUND: &'static str = "HTTP/1.1 404 NOT FOUND";

pub const HOME_PAGE: &'static str = "hello.html";

pub const NOT_FOUND_PAGE: &'static str = "404.html";

/// Seconds that the slow route waits before it answers.
pub const SLOW_DELAY_SECS: u64 = 10;

/// How to answer one request.
pub struct Route {
    pub status_line: &'static str,
    /// The file whose text is the response's body.
    pub file_name: &'static str,
    /// Seconds to wait before answering.
    pub delay_secs: u64,
}

/// The route for a request line: (status line, body file, delay in seconds).
pub open spec fn route_spec(line: Seq<char>) -> (Seq<char>, Seq<char>, nat) {
    if line == HOME_REQUEST@ {
        (STATUS_OK@, HOME_PAGE@, 0)
    } else if line == SLOW_REQUEST@ {
        (STATUS_OK@, HOME_PAGE@, SLOW_DELAY_SECS as nat)
    } else {
        (STATUS_NOT_FOUND@, NOT_FOUND_PAGE@, 0)
    }
}

/// Whether two strings hold the same characters.
pub fn same_text(a: &str, b: &str) -> (r: bool)
    ensures
        r == (a@ == b@),
{
    let n = a.unicode_len();
    if n != b.unicode_len() {
        return false;
    }
    let mut i: usize = 0;
    while i < n
        invariant
            n == a@.len() == b@.len(),
            i <= n,
            a@.subrange(0, i as int) == b@.subrange(0, i as int),
        decreases n - i,
    {
        if a.get_char(i) != b.get_char(i) {
            assert(a@[i as int] != b@[i as int]);
            return false;
        }
        i = i + 1;
        assert(a@.subrange(0, i as int) =~= a@.subrange(0, i - 1 as int).push(a@[i - 1]));
        assert(b@.subrange(0, i as int) =~= b@.subrange(0, i - 1 as int).push(b@[i - 1]));
    }
    assert(a@ =~= a@.subrange(0, n as int));
    assert(b@ =~= b@.subrange(0, n as int));
    true
}

/// Chooses how to answer a request from its first line.
pub fn route(request_line: &str) -> (r: Route)
    ensures
        (r.status_line@, r.file_name@, r.delay_secs as nat) == route_spec(request_line@),
{
    if same_text(request_line, HOME_REQUEST) {
        Route { status_line: STATUS_OK, file_name: HOME_PAGE, delay_secs: 0 }
    } else if same_text(request_line, SLOW_REQUEST) {
        Route { status_line: STATUS_OK, file_name: HOME_PAGE, delay_secs: SLOW_DELAY_SECS }
    } else {
        Route { status_line: STATUS_NOT_FOUND, file_name: NOT_FOUND_PAGE, delay_secs: 0 }
    }
}

/// The response text: the status line, a `Content-Length` header with the
/// body's length in bytes, an empty line, and the body.
pub open spec fn response_spec(status_line: Seq<char>, body: Seq<char>, body_bytes: nat) -> Seq<char> {
    status_line + "\r\nContent-Length: "@ + decimal_spec(body_bytes) + "\r\n\r\n"@ + body
}

/// Builds the response for a status line and a body.
pub fn response(status_line: &str, contents: &str) -> (r: String)
    ensures
        r@ == response_spec(status_line@, contents@, contents.len() as nat),
{
    let mut out = String::from_str(status_line);
    out.append("\r\nContent-Length: ");
    push_decimal(&mut out, contents.len() as u64);
    out.append("\r\n\r\n");
    out.append(contents);
    out
}

} // verus!
