//! The partial-content delivery engine: byte-range parsing and response
//! planning.
//!
//! A stored resource is a byte sequence of known length `L`. A request may
//! carry a byte-range expression of the single-range form
//! `bytes=<start>-<end>` with `<end>` optional; the parser turns it into a
//! concrete interval against `L`, and the planner decides the response:
//! the full resource, a partial interval, or a client error. The actual
//! seek-and-read against storage, and the response assembly around it, live
//! with the caller.

use crate::numfmt::{dec_rep, u64_to_string};
use crate::strutil::{all_digits, digits_val, find_char, find_char_at, parse_u64_digits};
use vstd::prelude::*;
use vstd::string::StringExecFns;
use vstd::string::StrSliceExecFns;

verus! {

/// What `parse_range_header` accepts and yields: the expression must begin
/// with `bytes=`, the start bound must be a decimal number below the
/// resource length, and the end bound is either absent (meaning "to the end
/// of the resource") or a decimal number. Anything else — wrong prefix, a
/// missing dash, non-digits, a number too large for 64 bits, a start at or
/// past the resource length — is no match. Multi-range expressions are
/// deliberately not supported.
pub open spec fn spec_parse_range(s: Seq<char>, file_size: u64) -> Option<(u64, Option<u64>)> {
    if s.len() < 6 || s.subrange(0, 6) != "bytes="@ {
        None
    } else {
        match find_char(s, '-', 6) {
            None => None,
            Some(i) => {
                if i <= 6 || !all_digits(s, 6, i) || digits_val(s, 6, i) > u64::MAX || digits_val(
                    s,
                    6,
                    i,
                ) >= file_size {
                    None
                } else {
                    let start = digits_val(s, 6, i) as u64;
                    if i + 1 == s.len() {
                        Some((start, None))
                    } else {
                        if all_digits(s, i + 1, s.len() as int) && digits_val(
                            s,
                            i + 1,
                            s.len() as int,
                        ) <= u64::MAX {
                            Some((start, Some(digits_val(s, i + 1, s.len() as int) as u64)))
                        } else {
                            None
                        }
                    }
                }
            },
        }
    }
}

/// Parse a byte-range expression against a resource of `file_size` bytes,
/// exactly as `spec_parse_range` describes it.
pub fn parse_range_header(range: &str, file_size: u64) -> (r: Option<(u64, Option<u64>)>)
    ensures
        r == spec_parse_range(range@, file_size),
{
    let n = range.unicode_len();
    proof {
        reveal_strlit("bytes=");
    }
    if n < 6 {
        return None;
    }
    if !(range.get_char(0) == 'b' && range.get_char(1) == 'y' && range.get_char(2) == 't'
        && range.get_char(3) == 'e' && range.get_char(4) == 's' && range.get_char(5) == '=') {
        proof {
            if range@.subrange(0, 6) == "bytes="@ {
                assert(range@[0] == range@.subrange(0, 6)[0]);
                assert(range@[1] == range@.subrange(0, 6)[1]);
                assert(range@[2] == range@.subrange(0, 6)[2]);
                assert(range@[3] == range@.subrange(0, 6)[3]);
                assert(range@[4] == range@.subrange(0, 6)[4]);
                assert(range@[5] == range@.subrange(0, 6)[5]);
                assert(false);
            }
        }
        return None;
    }
    proof {
        assert(range@.subrange(0, 6) =~= "bytes="@);
    }
    let dash = match find_char_at(range, '-', 6) {
        None => {
            return None;
        },
        Some(i) => i,
    };
    proof {
        crate::strutil::lemma_find_char(range@, '-', 6);
    }
    if dash <= 6 {
        return None;
    }
    let start = match parse_u64_digits(range, 6, dash) {
        None => {
            return None;
        },
        Some(v) => v,
    };
    if start >= file_size {
        return None;
    }
    if dash + 1 == n {
        Some((start, None))
    } else {
        match parse_u64_digits(range, dash + 1, n) {
            None => None,
            Some(e) => Some((start, Some(e))),
        }
    }
}

/// The response owed for a request, before any byte is read.
#[derive(Clone, Copy, PartialEq, Eq, Structural, Debug)]
pub enum ResponsePlan {
    /// No range was asked for: serve the whole resource.
    Full {
        /// The resource length, owed as the Content-Length header.
        content_length: u64,
    },
    /// A satisfiable range: serve exactly `[start, end]`, both inclusive.
    Partial {
        /// First byte to serve.
        start: u64,
        /// Last byte to serve, inclusive.
        end: u64,
        /// `end - start + 1`, the bytes owed and the Content-Length header.
        chunk_size: u64,
    },
    /// The range was malformed or out of bounds: answer a client error
    /// rather than silently serving something the client did not ask for.
    BadRange,
}

impl ResponsePlan {
    /// The HTTP status code owed for this plan.
    pub fn status_code(&self) -> (code: u16)
        ensures
            self is Full ==> code == 200,
            self is Partial ==> code == 206,
            self is BadRange ==> code == 400,
    {
        match self {
            ResponsePlan::Full { .. } => 200,
            ResponsePlan::Partial { .. } => 206,
            ResponsePlan::BadRange => 400,
        }
    }
}

/// The plan a request resolves to, given its parsed range (if a range header
/// was present at all) and the resource length: no header serves the whole
/// resource; a parsed range has a missing end resolved to `file_size - 1`
/// and must describe a non-empty interval inside the resource; everything
/// else is a client error.
pub open spec fn spec_plan(parsed: Option<Option<(u64, Option<u64>)>>, file_size: u64) -> ResponsePlan {
    match parsed {
        None => ResponsePlan::Full { content_length: file_size },
        Some(None) => ResponsePlan::BadRange,
        Some(Some((start, end_opt))) => {
            let end = match end_opt {
                Some(e) => e as int,
                None => file_size - 1,
            };
            if start <= end < file_size {
                ResponsePlan::Partial {
                    start,
                    end: end as u64,
                    chunk_size: (end - start + 1) as u64,
                }
            } else {
                ResponsePlan::BadRange
            }
        },
    }
}

/// Decide the response for a request: `range_header` is the request's range
/// header verbatim, if it carried one. The result is
/// `spec_plan` of the parsed header against the resource length.
pub fn plan_response(range_header: Option<&str>, file_size: u64) -> (p: ResponsePlan)
    ensures
        p == spec_plan(
            match range_header {
                Some(h) => Some(spec_parse_range(h@, file_size)),
                None => None::<Option<(u64, Option<u64>)>>,
            },
            file_size,
        ),
{
    match range_header {
        None => ResponsePlan::Full { content_length: file_size },
        Some(h) => {
            match parse_range_header(h, file_size) {
                None => ResponsePlan::BadRange,
                Some((start, end_opt)) => {
                    let end = match end_opt {
                        Some(e) => e,
                        None => if file_size > 0 {
                            file_size - 1
                        } else {
                            0
                        },
                    };
                    if start <= end && end < file_size {
                        ResponsePlan::Partial { start, end, chunk_size: end - start + 1 }
                    } else {
                        ResponsePlan::BadRange
                    }
                },
            }
        },
    }
}

/// The Content-Range header value for a served interval: the exact writing
/// `bytes <start>-<end>/<total>` in decimal.
pub open spec fn content_range_rep(start: int, end: int, total: int) -> Seq<char> {
    "bytes "@ + dec_rep(start) + "-"@ + dec_rep(end) + "/"@ + dec_rep(total)
}

/// Render the Content-Range header value for a served interval.
pub fn get_content_range(start: u64, end: u64, total: u64) -> (r: String)
    ensures
        r@ == content_range_rep(start as int, end as int, total as int),
{
    let mut r = String::from_str("bytes ");
    let a = u64_to_string(start);
    r.append(a.as_str());
    r.append("-");
    let b = u64_to_string(end);
    r.append(b.as_str());
    r.append("/");
    let c = u64_to_string(total);
    r.append(c.as_str());
    proof {
        assert(r@ =~= content_range_rep(start as int, end as int, total as int));
    }
    r
}

} // verus!
