//! Builders for the run server's two responses.
//!
//! A dispatch outcome is always answered with a `200 OK` whose plain-text
//! body starts with `OK` or `ERROR` on a line of its own — the tag, not the
//! HTTP status, signals how the run went.  Every other target is answered
//! with a fixed `404 Not Found`.  The `Content-Length` header carries the
//! UTF-8 byte length of the body.

use vstd::prelude::*;

use crate::text::chars_of;
use crate::text::dec_chars;
use crate::text::dec_digits;
use crate::text::string_from_chars;
use crate::text::utf8_len;
use crate::text::utf8_length;

verus! {

pub open spec fn outcome_view(r: Result<String, String>) -> Result<Seq<char>, Seq<char>> {
    match r {
        Ok(s) => Ok(s@),
        Err(s) => Err(s@),
    }
}

/// Body sent back for a dispatch outcome: the tag line, then the combined
/// output (or the error text).
pub open spec fn run_body_spec(outcome: Result<Seq<char>, Seq<char>>) -> Seq<char> {
    match outcome {
        Ok(out) => "OK\n"@ + out,
        Err(e) => "ERROR\n"@ + e,
    }
}

pub open spec fn http_ok_response(body: Seq<char>) -> Seq<char> {
    "HTTP/1.1 200 OK\r\nContent-Type: text/plain; charset=utf-8\r\nContent-Length: "@
        + dec_digits(utf8_len(body)) + "\r\n\r\n"@ + body
}

pub open spec fn not_found_body() -> Seq<char> {
    "Not Found"@
}

pub open spec fn http_not_found_response() -> Seq<char> {
    "HTTP/1.1 404 Not Found\r\nContent-Length: "@ + dec_digits(utf8_len(not_found_body()))
        + "\r\n\r\n"@ + not_found_body()
}

fn with_content_length(head: &str, body: &str) -> (r: String)
    ensures
        r@ == head@ + dec_digits(utf8_len(body@)) + "\r\n\r\n"@ + body@,
{
    let bchars = chars_of(body);
    let blen = utf8_length(&bchars);
    let digits = dec_chars(blen);
    let digit_text = string_from_chars(&digits);
    let mut r = String::from_str(head);
    r.append(digit_text.as_str());
    r.append("\r\n\r\n");
    r.append(body);
    r
}

/// The full response for a dispatch outcome.
pub fn run_response(outcome: &Result<String, String>) -> (r: String)
    ensures
        r@ == http_ok_response(run_body_spec(outcome_view(*outcome))),
{
    let body: String = match outcome {
        Ok(out) => {
            let mut b = String::from_str("OK\n");
            b.append(out.as_str());
            b
        },
        Err(e) => {
            let mut b = String::from_str("ERROR\n");
            b.append(e.as_str());
            b
        },
    };
    with_content_length(
        "HTTP/1.1 200 OK\r\nContent-Type: text/plain; charset=utf-8\r\nContent-Length: ",
        body.as_str(),
    )
}

/// The full response for a target outside the run-trigger prefix.
pub fn not_found_response() -> (r: String)
    ensures
        r@ == http_not_found_response(),
{
    with_content_length("HTTP/1.1 404 Not Found\r\nContent-Length: ", "Not Found")
}

} // verus!
