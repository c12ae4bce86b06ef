//! Cutting a decorative line into the pieces that stay clear of the glyphs.
//!
//! The line runs between two sentinels, one on each side of the run. Every
//! place where it would cross a glyph is a collision. Sentinels and
//! collisions, put in ascending order, bound the candidate pieces: one
//! between each two neighbours, drawn in by one padding on either side. A
//! piece is emitted where its neighbours lie at least one padding apart and
//! what is left between the paddings is at least the minimum width.

use vstd::prelude::*;
use vstd::relations::{sorted_by, total_ordering};
use vstd::seq_lib::lemma_sorted_unique;
use crate::length::{Abs, in_range, is_coordinate};

verus! {

/// A piece of a decorative line, from one x-coordinate to another.
#[derive(Clone, Copy, Debug, PartialEq, Eq, Hash)]
pub struct Segment {
    pub from: Abs,
    pub to: Abs,
}

impl View for Segment {
    type V = (int, int);

    open spec fn view(&self) -> (int, int) {
        (self.from as int, self.to as int)
    }
}

/// The largest magnitude that a sentinel can have: that of a coordinate and a
/// length in range together.
pub const MAX_SENTINEL: i64 = 0x2800_0000_0000_0000;

/// Whether an x-coordinate can be a sentinel, and so a point.
pub open spec fn is_point(v: int) -> bool {
    -MAX_SENTINEL <= v <= MAX_SENTINEL
}

/// The largest magnitude that an end of a piece can have: that of a point and
/// a length in range together.
pub const MAX_REACH: i64 = 0x3000_0000_0000_0000;

/// Whether an x-coordinate can be an end of a piece.
pub open spec fn is_reach(v: int) -> bool {
    -MAX_REACH <= v <= MAX_REACH
}

/// The ends of each piece in a list, as pairs of numbers.
pub open spec fn spans(segments: Seq<Segment>) -> Seq<(int, int)> {
    Seq::new(segments.len(), |i: int| segments[i]@)
}

/// The order that points are put in.
pub open spec fn ascending() -> spec_fn(i64, i64) -> bool {
    |a: i64, b: i64| a <= b
}

/// The collisions and the two sentinels, in ascending order.
pub open spec fn edge_points(collisions: Seq<i64>, lo: i64, hi: i64) -> Seq<i64> {
    collisions.push(lo).push(hi).sort_by(ascending())
}

/// Whether a piece is emitted between two neighbouring points `l <= r`: they
/// lie at least one padding apart, and what is left between the paddings is
/// at least the minimum width.
pub open spec fn leaves_room(l: int, r: int, gap: int, min_width: int) -> bool {
    r - l >= gap && (r - gap) - (l + gap) >= min_width
}

/// The pieces emitted between the first `n + 1` of the points, from left to right.
pub open spec fn emitted_upto(points: Seq<i64>, gap: int, min_width: int, n: nat) -> Seq<(int, int)>
    decreases n,
{
    if n == 0 {
        Seq::empty()
    } else {
        let before = emitted_upto(points, gap, min_width, (n - 1) as nat);
        let l = points[n - 1] as int;
        let r = points[n as int] as int;
        if leaves_room(l, r, gap, min_width) {
            before.push((l + gap, r - gap))
        } else {
            before
        }
    }
}

/// The pieces emitted between points in ascending order, from left to right.
pub open spec fn emitted(points: Seq<i64>, gap: int, min_width: int) -> Seq<(int, int)> {
    if points.len() == 0 {
        Seq::empty()
    } else {
        emitted_upto(points, gap, min_width, (points.len() - 1) as nat)
    }
}

/// Calls `sort` of std's slices on the vector. Trusted: afterwards the vector
/// holds the values it held before, each as often as before, in ascending order.
#[verifier::external_body]
fn sort_ascending(v: &mut Vec<Abs>)
    ensures
        final(v)@.to_multiset() == old(v)@.to_multiset(),
        forall|i: int, j: int| 0 <= i < j < final(v)@.len() ==> final(v)@[i] <= final(v)@[j],
{
    v.sort()
}

/// Ascending order of machine integers is a total order.
pub proof fn lemma_ascending_total()
    ensures
        total_ordering(ascending()),
{
}

/// The points are in ascending order and there are two more of them than collisions.
pub proof fn lemma_edge_points(collisions: Seq<i64>, lo: i64, hi: i64)
    ensures
        edge_points(collisions, lo, hi).len() == collisions.len() + 2,
        is_ascending(edge_points(collisions, lo, hi)),
        edge_points(collisions, lo, hi).to_multiset() == collisions.push(lo).push(
            hi,
        ).to_multiset(),
{
    broadcast use vstd::seq_lib::group_to_multiset_ensures;

    let all = collisions.push(lo).push(hi);
    let pts = edge_points(collisions, lo, hi);
    lemma_ascending_total();
    all.lemma_sort_by_ensures(ascending());
    assert(pts.to_multiset().len() == all.to_multiset().len());
    assert(pts.len() == all.len());
    assert forall|i: int, j: int| 0 <= i <= j < pts.len() implies pts[i] <= pts[j] by {
        if i < j {
            assert(ascending()(pts[i], pts[j]));
        }
    }
}

/// The collisions and the two sentinels, in ascending order.
fn sorted_edge_points(collisions: &Vec<Abs>, lo: Abs, hi: Abs) -> (points: Vec<Abs>)
    ensures
        points@ == edge_points(collisions@, lo, hi),
{
    let mut points: Vec<Abs> = Vec::new();
    let mut i: usize = 0;
    while i < collisions.len()
        invariant
            i <= collisions@.len(),
            points@ == collisions@.subrange(0, i as int),
        decreases collisions@.len() - i,
    {
        points.push(collisions[i]);
        i += 1;
        assert(points@ =~= collisions@.subrange(0, i as int));
    }
    assert(collisions@.subrange(0, i as int) =~= collisions@);
    points.push(lo);
    points.push(hi);
    let ghost all = points@;
    sort_ascending(&mut points);
    proof {
        lemma_ascending_total();
        lemma_edge_points(collisions@, lo, hi);
        assert(sorted_by(points@, ascending()));
        assert(sorted_by(edge_points(collisions@, lo, hi), ascending())) by {
            all.lemma_sort_by_ensures(ascending());
        }
        lemma_sorted_unique(points@, edge_points(collisions@, lo, hi), ascending());
    }
    points
}

/// Cut the line between `start` and `end` into the pieces that stay clear of
/// the collisions.
///
/// The sentinels lie one padding outside `start` and `end`. The result holds,
/// from left to right, the piece between each two neighbouring points that
/// [`leaves_room`], drawn in by one padding on either side.
pub fn assemble_segments(
    collisions: &Vec<Abs>,
    start: Abs,
    end: Abs,
    gap_padding: Abs,
    min_width: Abs,
) -> (segments: Vec<Segment>)
    requires
        forall|i: int| 0 <= i < collisions@.len() ==> is_coordinate(#[trigger] collisions@[i] as int),
        is_coordinate(start as int),
        is_coordinate(end as int),
        in_range(gap_padding as int),
        in_range(min_width as int),
    ensures
        spans(segments@) == emitted(
            edge_points(collisions@, (start - gap_padding) as i64, (end + gap_padding) as i64),
            gap_padding as int,
            min_width as int,
        ),
        forall|i: int|
            0 <= i < segments@.len() ==> is_reach((#[trigger] segments@[i]).from as int)
                && is_reach(segments@[i].to as int),
{
    let lo: Abs = start - gap_padding;
    let hi: Abs = end + gap_padding;
    let points = sorted_edge_points(collisions, lo, hi);
    proof {
        lemma_edge_points(collisions@, lo, hi);
        lemma_points_bounded(collisions@, lo, hi);
    }
    let mut segments: Vec<Segment> = Vec::new();
    let mut i: usize = 1;
    while i < points.len()
        invariant
            1 <= i <= points@.len(),
            points@.len() >= 2,
            in_range(gap_padding as int),
            in_range(min_width as int),
            forall|k: int| 0 <= k < points@.len() ==> is_point(#[trigger] points@[k] as int),
            spans(segments@) == emitted_upto(
                points@,
                gap_padding as int,
                min_width as int,
                (i - 1) as nat,
            ),
            forall|j: int|
                0 <= j < segments@.len() ==> is_reach((#[trigger] segments@[j]).from as int)
                    && is_reach(segments@[j].to as int),
        decreases points@.len() - i,
    {
        let l: Abs = points[i - 1];
        let r: Abs = points[i];
        if r - l >= gap_padding {
            let from: Abs = l + gap_padding;
            let to: Abs = r - gap_padding;
            if to - from >= min_width {
                segments.push(Segment { from, to });
            }
        }
        i += 1;
        assert(spans(segments@) =~= emitted_upto(
            points@,
            gap_padding as int,
            min_width as int,
            (i - 1) as nat,
        ));
    }
    segments
}

/// Every point lies where a collision or a sentinel lies.
proof fn lemma_points_bounded(collisions: Seq<i64>, lo: i64, hi: i64)
    requires
        forall|i: int| 0 <= i < collisions.len() ==> is_coordinate(#[trigger] collisions[i] as int),
        is_point(lo as int),
        is_point(hi as int),
    ensures
        forall|k: int|
            0 <= k < edge_points(collisions, lo, hi).len() ==> is_point(
                #[trigger] edge_points(collisions, lo, hi)[k] as int,
            ),
{
    let pts = edge_points(collisions, lo, hi);
    assert forall|k: int| 0 <= k < pts.len() implies is_point(#[trigger] pts[k] as int) by {
        lemma_point_is_collision_or_sentinel(collisions, lo, hi, k);
    }
}

/// Each point is one of the collisions or one of the two sentinels.
pub proof fn lemma_point_is_collision_or_sentinel(collisions: Seq<i64>, lo: i64, hi: i64, k: int)
    requires
        0 <= k < edge_points(collisions, lo, hi).len(),
    ensures
        edge_points(collisions, lo, hi)[k] == lo || edge_points(collisions, lo, hi)[k] == hi
            || collisions.contains(edge_points(collisions, lo, hi)[k]),
{
    broadcast use vstd::seq_lib::group_to_multiset_ensures;

    let all = collisions.push(lo).push(hi);
    let pts = edge_points(collisions, lo, hi);
    lemma_edge_points(collisions, lo, hi);
    let v = pts[k];
    assert(pts.contains(v));
    assert(pts.to_multiset().count(v) > 0);
    assert(all.to_multiset().count(v) > 0);
    assert(all.contains(v));
    let j = choose|j: int| 0 <= j < all.len() && all[j] == v;
    if j < collisions.len() {
        assert(collisions[j] == v);
    }
}

/// Whether `piece` is the piece emitted between the points `i` and `i + 1`.
pub open spec fn is_piece_at(
    piece: (int, int),
    points: Seq<i64>,
    i: int,
    gap: int,
    min_width: int,
) -> bool {
    &&& 0 <= i < points.len() - 1
    &&& leaves_room(points[i] as int, points[i + 1] as int, gap, min_width)
    &&& piece == (points[i] + gap, points[i + 1] - gap)
}

/// Whether `piece` is the piece emitted between two neighbours among the
/// first `n + 1` points.
pub open spec fn is_piece_before(
    piece: (int, int),
    points: Seq<i64>,
    n: int,
    gap: int,
    min_width: int,
) -> bool {
    exists|i: int| i < n && #[trigger] is_piece_at(piece, points, i, gap, min_width)
}

/// Whether the points are in ascending order.
pub open spec fn is_ascending(points: Seq<i64>) -> bool {
    forall|i: int, j: int| 0 <= i <= j < points.len() ==> points[i] <= points[j]
}

/// Among the first `n + 1` points: each emitted piece lies between two
/// neighbouring points that leave room for it, ends one padding before the
/// last of those points or earlier, and begins two paddings after the piece
/// before it or later.
pub proof fn lemma_emitted_upto(points: Seq<i64>, gap: int, min_width: int, n: nat)
    requires
        is_ascending(points),
        n < points.len(),
    ensures
        ({
            let pieces = emitted_upto(points, gap, min_width, n);
            &&& forall|j: int|
                0 <= j < pieces.len() ==> is_piece_before(
                    #[trigger] pieces[j],
                    points,
                    n as int,
                    gap,
                    min_width,
                )
            &&& forall|j: int|
                0 <= j < pieces.len() ==> (#[trigger] pieces[j]).1 <= points[n as int] - gap
            &&& forall|j: int|
                0 <= j < pieces.len() - 1 ==> (#[trigger] pieces[j + 1]).0 - pieces[j].1 >= 2
                    * gap
        }),
    decreases n,
{
    if n > 0 {
        let before = emitted_upto(points, gap, min_width, (n - 1) as nat);
        let now = emitted_upto(points, gap, min_width, n);
        lemma_emitted_upto(points, gap, min_width, (n - 1) as nat);
        let l = points[n - 1] as int;
        let r = points[n as int] as int;
        assert(l <= r);
        assert forall|j: int| 0 <= j < now.len() implies is_piece_before(
            #[trigger] now[j],
            points,
            n as int,
            gap,
            min_width,
        ) by {
            if j < before.len() {
                assert(now[j] == before[j]);
                assert(is_piece_before(before[j], points, n - 1, gap, min_width));
                let i = choose|i: int|
                    i < n - 1 && #[trigger] is_piece_at(before[j], points, i, gap, min_width);
                assert(i < n && is_piece_at(now[j], points, i, gap, min_width));
            } else {
                assert(is_piece_at(now[j], points, n - 1, gap, min_width));
            }
        }
        assert forall|j: int| 0 <= j < now.len() implies (#[trigger] now[j]).1 <= points[n as int]
            - gap by {
            if j < before.len() {
                assert(now[j] == before[j]);
            }
        }
        assert forall|j: int| 0 <= j < now.len() - 1 implies (#[trigger] now[j + 1]).0 - now[j].1
            >= 2 * gap by {
            if j + 1 < before.len() {
                assert(now[j] == before[j]);
                assert(now[j + 1] == before[j + 1]);
            } else {
                assert(now[j] == before[j]);
                assert(before[j].1 <= l - gap);
            }
        }
    }
}

/// No piece is shorter than the minimum width, and so none is empty where the
/// minimum width is positive. Two pieces that follow one another lie at least
/// one padding apart.
pub proof fn lemma_pieces_apart(collisions: Seq<i64>, lo: i64, hi: i64, gap: int, min_width: int)
    requires
        gap >= 0,
    ensures
        ({
            let pieces = emitted(edge_points(collisions, lo, hi), gap, min_width);
            &&& forall|j: int|
                0 <= j < pieces.len() ==> (#[trigger] pieces[j]).1 - pieces[j].0 >= min_width
            &&& min_width > 0 ==> forall|j: int|
                0 <= j < pieces.len() ==> (#[trigger] pieces[j]).0 < pieces[j].1
            &&& forall|j: int|
                0 <= j < pieces.len() - 1 ==> (#[trigger] pieces[j + 1]).0 - pieces[j].1 >= gap
        }),
{
    let points = edge_points(collisions, lo, hi);
    let pieces = emitted(points, gap, min_width);
    lemma_edge_points(collisions, lo, hi);
    lemma_emitted_upto(points, gap, min_width, (points.len() - 1) as nat);
    assert forall|j: int| 0 <= j < pieces.len() implies (#[trigger] pieces[j]).1 - pieces[j].0
        >= min_width by {
        assert(is_piece_before(pieces[j], points, points.len() - 1, gap, min_width));
        let i = choose|i: int| #[trigger] is_piece_at(pieces[j], points, i, gap, min_width);
    }
}

/// Whether some piece is emitted that begins left of the left sentinel or
/// ends right of the right one.
pub open spec fn has_outlying_piece(points: Seq<i64>, lo: int, hi: int, gap: int, min_width: int) -> bool {
    exists|i: int|
        0 <= i < points.len() - 1 && leaves_room(
            #[trigger] points[i] as int,
            points[i + 1] as int,
            gap,
            min_width,
        ) && (points[i] + gap < lo || points[i + 1] - gap > hi)
}

/// Unless a piece is emitted outside the sentinels, every piece begins at the
/// left sentinel or right of it and ends at the right sentinel or left of it.
pub proof fn lemma_pieces_within_sentinels(
    collisions: Seq<i64>,
    lo: i64,
    hi: i64,
    gap: int,
    min_width: int,
)
    requires
        !has_outlying_piece(edge_points(collisions, lo, hi), lo as int, hi as int, gap, min_width),
    ensures
        ({
            let pieces = emitted(edge_points(collisions, lo, hi), gap, min_width);
            forall|j: int|
                0 <= j < pieces.len() ==> lo <= (#[trigger] pieces[j]).0 && pieces[j].1 <= hi
        }),
{
    let points = edge_points(collisions, lo, hi);
    let pieces = emitted(points, gap, min_width);
    lemma_edge_points(collisions, lo, hi);
    lemma_emitted_upto(points, gap, min_width, (points.len() - 1) as nat);
    assert forall|j: int| 0 <= j < pieces.len() implies lo <= (#[trigger] pieces[j]).0
        && pieces[j].1 <= hi by {
        assert(is_piece_before(pieces[j], points, points.len() - 1, gap, min_width));
        let i = choose|i: int| #[trigger] is_piece_at(pieces[j], points, i, gap, min_width);
        assert(leaves_room(points[i] as int, points[i + 1] as int, gap, min_width));
    }
}

/// No piece is emitted outside the sentinels where the left sentinel is not
/// right of the right one and every collision lies between them or at most
/// one padding outside.
pub proof fn lemma_no_outlying_piece(
    collisions: Seq<i64>,
    lo: i64,
    hi: i64,
    gap: int,
    min_width: int,
)
    requires
        gap >= 0,
        lo <= hi,
        forall|k: int|
            0 <= k < collisions.len() ==> lo - gap <= #[trigger] collisions[k] <= hi + gap,
    ensures
        !has_outlying_piece(edge_points(collisions, lo, hi), lo as int, hi as int, gap, min_width),
{
    let points = edge_points(collisions, lo, hi);
    assert forall|i: int| 0 <= i < points.len() implies lo - gap <= #[trigger] points[i] <= hi
        + gap by {
        lemma_point_is_collision_or_sentinel(collisions, lo, hi, i);
        if collisions.contains(points[i]) {
            let k = choose|k: int| 0 <= k < collisions.len() && collisions[k] == points[i];
        }
    }
    assert forall|i: int| 0 <= i < points.len() - 1 implies !(leaves_room(
        #[trigger] points[i] as int,
        points[i + 1] as int,
        gap,
        min_width,
    ) && (points[i] + gap < lo || points[i + 1] - gap > hi)) by {
        assert(lo - gap <= points[i + 1] <= hi + gap);
    }
}

/// Each end of a piece lies within reach, where the collisions lie where a
/// line can be cut and the sentinels where a sentinel can lie.
pub proof fn lemma_pieces_in_reach(
    collisions: Seq<i64>,
    lo: i64,
    hi: i64,
    gap: int,
    min_width: int,
)
    requires
        forall|i: int| 0 <= i < collisions.len() ==> is_coordinate(#[trigger] collisions[i] as int),
        is_point(lo as int),
        is_point(hi as int),
        in_range(gap),
    ensures
        ({
            let pieces = emitted(edge_points(collisions, lo, hi), gap, min_width);
            forall|j: int|
                0 <= j < pieces.len() ==> is_reach((#[trigger] pieces[j]).0) && is_reach(
                    pieces[j].1,
                )
        }),
{
    let points = edge_points(collisions, lo, hi);
    let pieces = emitted(points, gap, min_width);
    lemma_edge_points(collisions, lo, hi);
    lemma_points_bounded(collisions, lo, hi);
    lemma_emitted_upto(points, gap, min_width, (points.len() - 1) as nat);
    assert forall|j: int| 0 <= j < pieces.len() implies is_reach((#[trigger] pieces[j]).0)
        && is_reach(pieces[j].1) by {
        assert(is_piece_before(pieces[j], points, points.len() - 1, gap, min_width));
        let i = choose|i: int| #[trigger] is_piece_at(pieces[j], points, i, gap, min_width);
        assert(is_point(points[i] as int));
        assert(is_point(points[i + 1] as int));
    }
}

} // verus!
