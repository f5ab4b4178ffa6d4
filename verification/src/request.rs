//! Decoder for the run server's requests.
//!
//! A request buffer is read as text; its first line (up to the first
//! carriage return or line feed) is split on blanks, and the second token is
//! the request target.  A target under the run-trigger prefix carries the
//! exports directory in its `exports_dir` query parameter, percent-decoded;
//! any other target is answered with the not-found response; a first line
//! with fewer than two tokens gets no response at all.

use vstd::prelude::*;

use crate::decode::decode_chars;
use crate::decode::decode_spec;
use crate::text::blank_pred;
use crate::text::break_pred;
use crate::text::char_pred;
use crate::text::chars_of;
use crate::text::has_prefix_at;
use crate::text::lemma_scan_bounds;
use crate::text::nonblank_pred;
use crate::text::scan;
use crate::text::scan_to_blank;
use crate::text::scan_to_break;
use crate::text::scan_to_char;
use crate::text::scan_to_nonblank;
use crate::text::starts_with_at;
use crate::text::string_from_chars;
use crate::text::subvec;

verus! {

pub open spec fn run_prefix() -> Seq<char> {
    "/run"@
}

pub open spec fn param_prefix() -> Seq<char> {
    "exports_dir="@
}

/// Raw (still percent-encoded) value of the first `&`-separated query
/// segment that starts with `exports_dir=`, scanning segments that start at
/// index `i`; empty when no segment matches.
pub open spec fn param_from(qs: Seq<char>, i: int) -> Seq<char>
    decreases qs.len() - i,
    via param_from_decreases
{
    if !(0 <= i <= qs.len()) {
        Seq::empty()
    } else if has_prefix_at(qs, i, param_prefix()) {
        qs.subrange(
            i + param_prefix().len(),
            scan(qs, i + param_prefix().len(), char_pred('&')),
        )
    } else {
        let e = scan(qs, i, char_pred('&'));
        if e >= qs.len() {
            Seq::empty()
        } else {
            param_from(qs, e + 1)
        }
    }
}

#[via_fn]
proof fn param_from_decreases(qs: Seq<char>, i: int) {
    if 0 <= i <= qs.len() {
        lemma_scan_bounds(qs, i, char_pred('&'));
    }
}

/// The first line of the buffer: everything before the first `\r` or `\n`.
pub open spec fn first_line(s: Seq<char>) -> Seq<char> {
    s.subrange(0, scan(s, 0, break_pred()))
}

/// The second blank-separated token of `line`, if the line has two tokens.
pub open spec fn second_token(line: Seq<char>) -> Option<Seq<char>> {
    let a1 = scan(line, 0, nonblank_pred());
    if a1 >= line.len() {
        None
    } else {
        let e1 = scan(line, a1, blank_pred());
        let a2 = scan(line, e1, nonblank_pred());
        if a2 >= line.len() {
            None
        } else {
            Some(line.subrange(a2, scan(line, a2, blank_pred())))
        }
    }
}

/// Raw value of the `exports_dir` parameter of the target `t`: the part of
/// `t` after `?` is split on `&`, and the first segment with the parameter
/// prefix supplies the value.  Without `?`, or without a matching segment,
/// the value is empty.
pub open spec fn target_exports_dir(t: Seq<char>) -> Seq<char> {
    let q = scan(t, 0, char_pred('?'));
    if q >= t.len() {
        Seq::empty()
    } else {
        param_from(t.subrange(q + 1, t.len() as int), 0)
    }
}

/// How a request buffer is answered.
pub enum ReqOutcome {
    /// Fewer than two tokens on the first line: the connection gets no
    /// response.
    NoReply,
    /// A target outside the run-trigger prefix.
    NotFound,
    /// A run-trigger target; `exports_dir` is the decoded parameter value.
    Run { exports_dir: String },
}

pub enum ReqOutcomeView {
    NoReply,
    NotFound,
    Run { exports_dir: Seq<char> },
}

impl View for ReqOutcome {
    type V = ReqOutcomeView;

    open spec fn view(&self) -> ReqOutcomeView {
        match self {
            ReqOutcome::NoReply => ReqOutcomeView::NoReply,
            ReqOutcome::NotFound => ReqOutcomeView::NotFound,
            ReqOutcome::Run { exports_dir } => ReqOutcomeView::Run {
                exports_dir: exports_dir@,
            },
        }
    }
}

pub open spec fn parse_request_spec(s: Seq<char>) -> ReqOutcomeView {
    match second_token(first_line(s)) {
        None => ReqOutcomeView::NoReply,
        Some(t) => if has_prefix_at(t, 0, run_prefix()) {
            ReqOutcomeView::Run { exports_dir: decode_spec(target_exports_dir(t)) }
        } else {
            ReqOutcomeView::NotFound
        },
    }
}

fn find_param(qs: &Vec<char>) -> (r: Vec<char>)
    ensures
        r@ == param_from(qs@, 0),
{
    let p = "exports_dir=";
    let n = qs.len();
    let mut i: usize = 0;
    loop
        invariant
            i <= n,
            n == qs@.len(),
            p@ == param_prefix(),
            param_from(qs@, 0) == param_from(qs@, i as int),
        decreases n - i,
    {
        if starts_with_at(qs, i, p) {
            let start = i + p.unicode_len();
            let amp = scan_to_char(qs, start, '&');
            return subvec(qs, start, amp);
        }
        let e = scan_to_char(qs, i, '&');
        if e >= n {
            return Vec::new();
        }
        i = e + 1;
    }
}

/// Parse a raw request buffer into the outcome the server acts on.
pub fn parse_request(req: &str) -> (r: ReqOutcome)
    ensures
        r@ == parse_request_spec(req@),
{
    let v = chars_of(req);
    let eol = scan_to_break(&v, 0);
    let line = subvec(&v, 0, eol);
    let a1 = scan_to_nonblank(&line, 0);
    if a1 >= line.len() {
        return ReqOutcome::NoReply;
    }
    let e1 = scan_to_blank(&line, a1);
    let a2 = scan_to_nonblank(&line, e1);
    if a2 >= line.len() {
        return ReqOutcome::NoReply;
    }
    let e2 = scan_to_blank(&line, a2);
    let t = subvec(&line, a2, e2);
    if !starts_with_at(&t, 0, "/run") {
        return ReqOutcome::NotFound;
    }
    let q = scan_to_char(&t, 0, '?');
    let raw: Vec<char> = if q >= t.len() {
        Vec::new()
    } else {
        let qs = subvec(&t, q + 1, t.len());
        find_param(&qs)
    };
    let decoded = decode_chars(&raw);
    ReqOutcome::Run { exports_dir: string_from_chars(&decoded) }
}

} // verus!
