//! Encoder tuning options: a comma-separated `key=value` string parsed into
//! a configuration list.
//!
//! Every item must contain exactly one `=`; a trailing comma is allowed; a
//! single malformed item fails the parse as a whole, so no partial
//! configuration is ever accepted.

use crate::strutil::{find_char, find_char_at};
use vstd::prelude::*;
use vstd::string::StrSliceExecFns;

verus! {

/// The tuning options a video encoder is opened with when the caller names
/// none.
pub const DEFAULT_X264_OPTS: &'static str = "preset=medium";

/// One `key=value` item: `s[from..end)` split at its single `=`. An item
/// without `=`, or with more than one, is malformed.
pub open spec fn opt_item(s: Seq<char>, from: int, end: int) -> Option<(Seq<char>, Seq<char>)> {
    match find_char(s, '=', from) {
        None => None,
        Some(j) => {
            if j >= end {
                None
            } else {
                let dup = match find_char(s, '=', j + 1) {
                    Some(j2) => j2 < end,
                    None => false,
                };
                if dup {
                    None
                } else {
                    Some((s.subrange(from, j), s.subrange(j + 1, end)))
                }
            }
        },
    }
}

/// The options written in `s[from..)`: comma-separated items, a trailing
/// comma allowed, each with exactly one `=`.
pub open spec fn opts_from(s: Seq<char>, from: int) -> Option<Seq<(Seq<char>, Seq<char>)>>
    decreases s.len() + 1 - from,
        when 0 <= from <= s.len() + 1
{
    if from >= s.len() {
        Some(Seq::empty())
    } else {
        let cut = match find_char(s, ',', from) {
            Some(i) => i,
            None => s.len() as int,
        };
        let end = if cut < from {
            from
        } else if cut > s.len() {
            s.len() as int
        } else {
            cut
        };
        match opt_item(s, from, end) {
            None => None,
            Some(kv) => match opts_from(s, end + 1) {
                None => None,
                Some(rest) => Some(seq![kv] + rest),
            },
        }
    }
}

/// What `parse_opts` accepts and yields.
pub open spec fn spec_parse_opts(s: Seq<char>) -> Option<Seq<(Seq<char>, Seq<char>)>> {
    opts_from(s, 0)
}

/// The key/value views of a parsed option list.
pub open spec fn opt_pairs_view(v: Seq<(String, String)>) -> Seq<(Seq<char>, Seq<char>)> {
    v.map_values(|p: (String, String)| (p.0@, p.1@))
}

/// Parse a comma-separated `key=value` option string, as `spec_parse_opts`
/// describes it: every item must have exactly one `=`, and one malformed
/// item rejects the whole string.
pub fn parse_opts(s: &str) -> (r: Option<Vec<(String, String)>>)
    ensures
        r is Some <==> spec_parse_opts(s@) is Some,
        r matches Some(v) ==> spec_parse_opts(s@) == Some(opt_pairs_view(v@)),
{
    let n = s.unicode_len();
    let mut out: Vec<(String, String)> = Vec::new();
    let mut pos: usize = 0;
    while pos < n
        invariant
            pos <= n,
            n == s@.len(),
            spec_parse_opts(s@) == (match opts_from(s@, pos as int) {
                Some(rest) => Some(opt_pairs_view(out@) + rest),
                None => None::<Seq<(Seq<char>, Seq<char>)>>,
            }),
        decreases n - pos,
    {
        let cut = match find_char_at(s, ',', pos) {
            Some(i) => i,
            None => n,
        };
        proof {
            crate::strutil::lemma_find_char(s@, ',', pos as int);
        }
        let eq = match find_char_at(s, '=', pos) {
            None => {
                proof {
                    assert(opt_item(s@, pos as int, cut as int) is None);
                    assert(opts_from(s@, pos as int) is None);
                }
                return None;
            },
            Some(j) => j,
        };
        proof {
            crate::strutil::lemma_find_char(s@, '=', pos as int);
        }
        if eq >= cut {
            proof {
                assert(opt_item(s@, pos as int, cut as int) is None);
                assert(opts_from(s@, pos as int) is None);
            }
            return None;
        }
        let dup = match find_char_at(s, '=', eq + 1) {
            Some(j2) => j2 < cut,
            None => false,
        };
        if dup {
            proof {
                assert(opt_item(s@, pos as int, cut as int) is None);
                assert(opts_from(s@, pos as int) is None);
            }
            return None;
        }
        let key = s.substring_char(pos, eq).to_owned();
        let val = s.substring_char(eq + 1, cut).to_owned();
        proof {
            let sv = s@;
            let p = pos as int;
            let end = cut as int;
            assert(opt_item(sv, p, end) == Some((key@, val@)));
            if cut == n {
                assert(opts_from(sv, end + 1) == Some(Seq::<(Seq<char>, Seq<char>)>::empty()));
                assert(opts_from(sv, n as int) == Some(Seq::<(Seq<char>, Seq<char>)>::empty()));
            }
            match opts_from(sv, end + 1) {
                Some(rest) => {
                    assert(opts_from(sv, p) == Some(seq![(key@, val@)] + rest));
                    assert(opt_pairs_view(out@.push((key, val))) =~= opt_pairs_view(out@) + seq![
                        (key@, val@),
                    ]);
                    assert((opt_pairs_view(out@) + seq![(key@, val@)]) + rest =~= opt_pairs_view(
                        out@,
                    ) + (seq![(key@, val@)] + rest));
                },
                None => {
                    assert(opts_from(sv, p) is None);
                },
            }
        }
        out.push((key, val));
        pos = if cut < n {
            cut + 1
        } else {
            n
        };
    }
    proof {
        assert(opt_pairs_view(out@) + Seq::<(Seq<char>, Seq<char>)>::empty() =~= opt_pairs_view(
            out@,
        ));
    }
    Some(out)
}

} // verus!
