//! Stream classification: deciding, for each input stream, whether it is
//! re-encoded, copied through, or excluded from the output.
//!
//! Video streams are re-encoded; subtitle streams route to their own
//! re-encode path; audio streams are copied through; any other medium is
//! dropped. Output stream indices are assigned densely, in input order,
//! among the streams that are kept.

use vstd::prelude::*;

verus! {

/// The medium of an elementary stream.
#[derive(Clone, Copy, PartialEq, Eq, Structural, Debug)]
pub enum Medium {
    Video,
    Audio,
    Subtitle,
    Data,
    Attachment,
    Unknown,
}

/// Which re-encode path an encoded route uses.
#[derive(Clone, Copy, PartialEq, Eq, Structural, Debug)]
pub enum EncodeKind {
    Video,
    Subtitle,
}

/// The route of one input stream.
#[derive(Clone, Copy, PartialEq, Eq, Structural, Debug)]
pub enum Route {
    /// Re-encode through a decoder/encoder pair bound to this stream.
    Encode { kind: EncodeKind, out_index: usize, log_enabled: bool },
    /// Copy packets through unmodified, besides rescaling and re-indexing.
    CopyThrough { out_index: usize },
    /// Exclude the stream from all further processing.
    Discard,
}

impl Route {
    /// A route that keeps the stream in the output.
    pub open spec fn is_routed(self) -> bool {
        !(self is Discard)
    }

    /// The output stream index of a kept stream (meaningless for `Discard`).
    pub open spec fn spec_out_index(self) -> int {
        match self {
            Route::Encode { out_index, .. } => out_index as int,
            Route::CopyThrough { out_index } => out_index as int,
            Route::Discard => 0,
        }
    }
}

/// Whether a stream of this medium is kept in the output.
pub open spec fn medium_routed(m: Medium) -> bool {
    m is Video || m is Audio || m is Subtitle
}

/// How many of the first `i` streams are kept.
pub open spec fn count_routed(media: Seq<Medium>, i: int) -> int
    decreases i,
{
    if i <= 0 {
        0
    } else {
        count_routed(media, i - 1) + if medium_routed(media[i - 1]) {
            1 as int
        } else {
            0
        }
    }
}

/// Whether stream `i` is the container's best video stream, the one whose
/// transcoder gets progress logging.
pub open spec fn is_best_video(best_video: Option<usize>, i: int) -> bool {
    match best_video {
        Some(b) => b == i,
        None => false,
    }
}

/// The route the classifier assigns to stream `i`.
pub open spec fn route_for(media: Seq<Medium>, best_video: Option<usize>, i: int) -> Route {
    match media[i] {
        Medium::Video => Route::Encode {
            kind: EncodeKind::Video,
            out_index: count_routed(media, i) as usize,
            log_enabled: is_best_video(best_video, i),
        },
        Medium::Subtitle => Route::Encode {
            kind: EncodeKind::Subtitle,
            out_index: count_routed(media, i) as usize,
            log_enabled: is_best_video(best_video, i),
        },
        Medium::Audio => Route::CopyThrough { out_index: count_routed(media, i) as usize },
        _ => Route::Discard,
    }
}

proof fn lemma_count_routed_bounds(media: Seq<Medium>, i: int)
    requires
        0 <= i,
    ensures
        0 <= count_routed(media, i) <= i,
    decreases i,
{
    if i > 0 {
        lemma_count_routed_bounds(media, i - 1);
    }
}

proof fn lemma_count_routed_monotone(media: Seq<Medium>, i: int, j: int)
    requires
        0 <= i <= j,
    ensures
        count_routed(media, i) <= count_routed(media, j),
    decreases j,
{
    if i < j {
        lemma_count_routed_monotone(media, i, j - 1);
    }
}

/// Every output index below `count_routed(media, n)` is hit by some kept
/// stream before `n`.
proof fn lemma_count_routed_surjective(media: Seq<Medium>, n: int, v: int)
    requires
        0 <= n,
        0 <= v < count_routed(media, n),
    ensures
        exists|i: int|
            0 <= i < n && medium_routed(media[i]) && count_routed(media, i) == v,
    decreases n,
{
    if v < count_routed(media, n - 1) {
        lemma_count_routed_surjective(media, n - 1, v);
        let i = choose|i: int|
            0 <= i < n - 1 && medium_routed(media[i]) && count_routed(media, i) == v;
        assert(0 <= i < n && medium_routed(media[i]) && count_routed(media, i) == v);
    } else {
        assert(medium_routed(media[n - 1]) && count_routed(media, n - 1) == v);
    }
}

/// Build the route table for a job: one route per input stream, in input
/// order. `media` lists each stream's medium by input index; `best_video` is
/// the container's own choice of best video stream, and only that stream's
/// transcoder gets progress logging.
pub fn build_routes(media: &Vec<Medium>, best_video: Option<usize>) -> (routes: Vec<Route>)
    ensures
        routes@.len() == media@.len(),
        forall|i: int|
            0 <= i < media@.len() ==> routes@[i] == route_for(media@, best_video, i),
{
    let mut routes: Vec<Route> = Vec::new();
    let mut next_out: usize = 0;
    let n = media.len();
    let mut idx: usize = 0;
    while idx < n
        invariant
            n == media@.len(),
            idx <= n,
            routes@.len() == idx,
            next_out == count_routed(media@, idx as int),
            forall|i: int|
                0 <= i < idx ==> routes@[i] == route_for(media@, best_video, i),
        decreases n - idx,
    {
        proof {
            lemma_count_routed_bounds(media@, idx as int);
        }
        let m = media[idx];
        let is_best = match best_video {
            Some(b) => b == idx,
            None => false,
        };
        let route = match m {
            Medium::Video => Route::Encode {
                kind: EncodeKind::Video,
                out_index: next_out,
                log_enabled: is_best,
            },
            Medium::Subtitle => Route::Encode {
                kind: EncodeKind::Subtitle,
                out_index: next_out,
                log_enabled: is_best,
            },
            Medium::Audio => Route::CopyThrough { out_index: next_out },
            _ => Route::Discard,
        };
        routes.push(route);
        if !matches!(route, Route::Discard) {
            next_out = next_out + 1;
        }
        idx = idx + 1;
    }
    routes
}

/// Law: in the classifier's route table every input stream index carries
/// exactly one route (the table has one entry per stream, at that stream's
/// index), a stream is kept exactly when its medium is video, audio or
/// subtitle, and the output indices of the kept streams form a dense
/// 0-based sequence in input order: the k-th kept stream gets output index k,
/// indices strictly increase with input order, and every index below the
/// number of kept streams is used.
pub proof fn lemma_route_table_dense(media: Seq<Medium>, best_video: Option<usize>)
    requires
        media.len() <= usize::MAX,
    ensures
        forall|i: int|
            0 <= i < media.len() ==> (#[trigger] route_for(media, best_video, i)).is_routed()
                == medium_routed(media[i]),
        forall|i: int|
            0 <= i < media.len() && medium_routed(media[i]) ==> (#[trigger] route_for(
                media,
                best_video,
                i,
            )).spec_out_index() == count_routed(media, i),
        forall|i: int, j: int|
            0 <= i < j < media.len() && medium_routed(media[i]) && medium_routed(media[j])
                ==> route_for(media, best_video, i).spec_out_index() < route_for(
                media,
                best_video,
                j,
            ).spec_out_index(),
        forall|i: int|
            0 <= i < media.len() && medium_routed(media[i]) ==> 0 <= route_for(
                media,
                best_video,
                i,
            ).spec_out_index() < count_routed(media, media.len() as int),
{
    assert forall|i: int|
        0 <= i < media.len() && medium_routed(media[i]) implies (#[trigger] route_for(
        media,
        best_video,
        i,
    )).spec_out_index() == count_routed(media, i) by {
        lemma_count_routed_bounds(media, i);
    }
    assert forall|i: int, j: int|
        0 <= i < j < media.len() && medium_routed(media[i]) && medium_routed(media[j])
        implies route_for(media, best_video, i).spec_out_index() < route_for(
        media,
        best_video,
        j,
    ).spec_out_index() by {
        lemma_count_routed_bounds(media, i);
        lemma_count_routed_bounds(media, j);
        assert(count_routed(media, i + 1) == count_routed(media, i) + 1);
        lemma_count_routed_monotone(media, i + 1, j);
    }
    assert forall|i: int| 0 <= i < media.len() && medium_routed(media[i]) implies 0 <= route_for(
        media,
        best_video,
        i,
    ).spec_out_index() < count_routed(media, media.len() as int) by {
        lemma_count_routed_bounds(media, i);
        assert(count_routed(media, i + 1) == count_routed(media, i) + 1);
        lemma_count_routed_monotone(media, i + 1, media.len() as int);
    }
}

/// Law, continued: the output indices are dense — every index below the
/// number of kept streams is the output index of some kept stream.
pub proof fn lemma_route_index_used(media: Seq<Medium>, best_video: Option<usize>, v: int)
    requires
        media.len() <= usize::MAX,
        0 <= v < count_routed(media, media.len() as int),
    ensures
        exists|i: int|
            0 <= i < media.len() && medium_routed(media[i]) && (#[trigger] route_for(
                media,
                best_video,
                i,
            )).spec_out_index() == v,
{
    lemma_count_routed_surjective(media, media.len() as int, v);
    let i = choose|i: int|
        0 <= i < media.len() && medium_routed(media[i]) && count_routed(media, i) == v;
    lemma_count_routed_bounds(media, i);
    assert(route_for(media, best_video, i).spec_out_index() == v);
}

} // verus!
