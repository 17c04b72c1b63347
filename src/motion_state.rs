use vstd::prelude::*;

use crate::cursor::{adjust_position, moved, set_position, Cursor};
use crate::mode::Mode;
use crate::renderer::{Cell, Renderer};
use crate::vec2::Vec2;

verus! {

/// A grid position and the shape that owns it, if any.
pub type Position = (Vec2<u16>, Option<u32>);

/// Row-major order: by row, then by column.
pub open spec fn before(a: Vec2<u16>, b: Vec2<u16>) -> bool {
    a.y < b.y || (a.y == b.y && a.x < b.x)
}

pub open spec fn distinct_positions(pts: Seq<Position>) -> bool {
    forall|i: int, j: int| 0 <= i < pts.len() && 0 <= j < pts.len() && i != j ==> pts[i].0 != pts[j].0
}

/// `pts[j]` comes right before `pts[i]` in row-major order.
pub open spec fn is_pred(pts: Seq<Position>, j: int, i: int) -> bool {
    0 <= j < pts.len() && 0 <= i < pts.len() && before(pts[j].0, pts[i].0) && forall|k: int|
        0 <= k < pts.len() && #[trigger] before(pts[k].0, pts[i].0) ==> !before(pts[j].0, pts[k].0)
}

/// `pts[j]` comes right after `pts[i]` in row-major order.
pub open spec fn is_succ(pts: Seq<Position>, j: int, i: int) -> bool {
    0 <= j < pts.len() && 0 <= i < pts.len() && before(pts[i].0, pts[j].0) && forall|k: int|
        0 <= k < pts.len() && #[trigger] before(pts[i].0, pts[k].0) ==> !before(pts[k].0, pts[j].0)
}

/// An owned cell whose predecessor exists and has another owner.
pub open spec fn opens_next_word(pts: Seq<Position>, i: int) -> bool {
    pts[i].1 is Some && exists|j: int| is_pred(pts, j, i) && pts[j].1 != pts[i].1
}

/// An owned cell with no predecessor or a predecessor of another owner.
pub open spec fn opens_word(pts: Seq<Position>, i: int) -> bool {
    pts[i].1 is Some && forall|j: int| is_pred(pts, j, i) ==> pts[j].1 != pts[i].1
}

/// An owned cell with no successor or a successor of another owner.
pub open spec fn closes_word(pts: Seq<Position>, i: int) -> bool {
    pts[i].1 is Some && forall|j: int| is_succ(pts, j, i) ==> pts[j].1 != pts[i].1
}

pub open spec fn next_start_at(cursor: Vec2<u16>, pts: Seq<Position>, i: int) -> bool {
    0 <= i < pts.len() && before(cursor, pts[i].0) && opens_next_word(pts, i)
}

pub open spec fn prev_start_at(cursor: Vec2<u16>, pts: Seq<Position>, i: int) -> bool {
    0 <= i < pts.len() && before(pts[i].0, cursor) && opens_word(pts, i)
}

pub open spec fn next_end_at(cursor: Vec2<u16>, pts: Seq<Position>, i: int) -> bool {
    0 <= i < pts.len() && before(cursor, pts[i].0) && closes_word(pts, i)
}

/// The first cell after the cursor that starts a word.
pub open spec fn next_word_start_spec(cursor: Vec2<u16>, pts: Seq<Position>) -> Option<Vec2<u16>> {
    if exists|i: int| next_start_at(cursor, pts, i) && forall|k: int| #[trigger]
        next_start_at(cursor, pts, k) ==> !before(pts[k].0, pts[i].0) {
        let i = choose|i: int| next_start_at(cursor, pts, i) && forall|k: int| #[trigger]
            next_start_at(cursor, pts, k) ==> !before(pts[k].0, pts[i].0);
        Some(pts[i].0)
    } else {
        None
    }
}

/// The last cell before the cursor that starts a word.
pub open spec fn previous_word_start_spec(cursor: Vec2<u16>, pts: Seq<Position>) -> Option<Vec2<u16>> {
    if exists|i: int| prev_start_at(cursor, pts, i) && forall|k: int| #[trigger]
        prev_start_at(cursor, pts, k) ==> !before(pts[i].0, pts[k].0) {
        let i = choose|i: int| prev_start_at(cursor, pts, i) && forall|k: int| #[trigger]
            prev_start_at(cursor, pts, k) ==> !before(pts[i].0, pts[k].0);
        Some(pts[i].0)
    } else {
        None
    }
}

/// The first cell after the cursor that ends a word.
pub open spec fn next_word_end_spec(cursor: Vec2<u16>, pts: Seq<Position>) -> Option<Vec2<u16>> {
    if exists|i: int| next_end_at(cursor, pts, i) && forall|k: int| #[trigger]
        next_end_at(cursor, pts, k) ==> !before(pts[k].0, pts[i].0) {
        let i = choose|i: int| next_end_at(cursor, pts, i) && forall|k: int| #[trigger]
            next_end_at(cursor, pts, k) ==> !before(pts[k].0, pts[i].0);
        Some(pts[i].0)
    } else {
        None
    }
}

pub open spec fn listed(order: Seq<usize>, k: int) -> bool {
    exists|m: int| 0 <= m < order.len() && order[m] == k
}

/// `order` lists every index of `pts` once, in row-major order of the positions.
pub open spec fn sorted_order(pts: Seq<Position>, order: Seq<usize>) -> bool {
    &&& order.len() == pts.len()
    &&& forall|m: int| 0 <= m < order.len() ==> #[trigger] order[m] < pts.len()
    &&& forall|k: int| 0 <= k < pts.len() ==> #[trigger] listed(order, k)
    &&& forall|m1: int, m2: int|
        0 <= m1 < m2 < order.len() ==> before(#[trigger] pts[order[m1] as int].0, #[trigger] pts[order[m2] as int].0)
}

fn before_exec(a: Vec2<u16>, b: Vec2<u16>) -> (r: bool)
    ensures
        r == before(a, b),
{
    a.y < b.y || (a.y == b.y && a.x < b.x)
}

/// The indices of `pts` in row-major order of their positions. Input already in that
/// order takes one comparison per point.
fn sort_order(pts: &Vec<Position>) -> (order: Vec<usize>)
    requires
        distinct_positions(pts@),
    ensures
        sorted_order(pts@, order@),
{
    let mut order: Vec<usize> = Vec::new();
    let n = pts.len();
    let mut k: usize = 0;
    while k < n
        invariant
            n == pts@.len(),
            k <= n,
            distinct_positions(pts@),
            order@.len() == k,
            forall|m: int| 0 <= m < order@.len() ==> #[trigger] order@[m] < k,
            forall|t: int| 0 <= t < k ==> #[trigger] listed(order@, t),
            forall|m1: int, m2: int|
                0 <= m1 < m2 < order@.len() ==> before(
                    #[trigger] pts@[order@[m1] as int].0,
                    #[trigger] pts@[order@[m2] as int].0,
                ),
        decreases n - k,
    {
        let mut p: usize = order.len();
        while p > 0 && before_exec(pts[k].0, pts[order[p - 1]].0)
            invariant
                n == pts@.len(),
                k < n,
                p <= order@.len(),
                forall|m: int| 0 <= m < order@.len() ==> #[trigger] order@[m] < k,
                forall|m: int| p <= m < order@.len() ==> before(pts@[k as int].0, #[trigger] pts@[order@[m] as int].0),
            decreases p,
        {
            p = p - 1;
        }
        let ghost old_order = order@;
        proof {
            if p > 0 {
                let q = old_order[p - 1] as int;
                assert(q != k);
                assert(pts@[q].0 != pts@[k as int].0);
                assert(before(pts@[q].0, pts@[k as int].0));
            }
        }
        order.insert(p, k);
        proof {
            assert(order@ == old_order.insert(p as int, k));
            assert forall|t: int| 0 <= t < k + 1 implies #[trigger] listed(order@, t) by {
                if t == k {
                    assert(order@[p as int] == t);
                } else {
                    assert(listed(old_order, t));
                    let m0 = choose|m: int| 0 <= m < old_order.len() && old_order[m] == t;
                    if m0 < p {
                        assert(order@[m0] == t);
                    } else {
                        assert(order@[m0 + 1] == t);
                    }
                }
            }
            assert forall|m1: int, m2: int| 0 <= m1 < m2 < order@.len() implies before(
                #[trigger] pts@[order@[m1] as int].0,
                #[trigger] pts@[order@[m2] as int].0,
            ) by {
                if m1 < p && m2 < p {
                    assert(order@[m1] == old_order[m1] && order@[m2] == old_order[m2]);
                } else if m1 < p && m2 == p {
                    assert(order@[m1] == old_order[m1]);
                    if m1 < p - 1 {
                        assert(before(pts@[old_order[m1] as int].0, pts@[old_order[p - 1] as int].0));
                    }
                } else if m1 < p && m2 > p {
                    assert(order@[m1] == old_order[m1] && order@[m2] == old_order[m2 - 1]);
                } else if m1 == p {
                    assert(order@[m2] == old_order[m2 - 1]);
                } else {
                    assert(order@[m1] == old_order[m1 - 1] && order@[m2] == old_order[m2 - 1]);
                }
            }
        }
        k = k + 1;
    }
    order
}

} // verus!

verus! {

proof fn lemma_rank_order(pts: Seq<Position>, order: Seq<usize>, a: int, b: int)
    requires
        sorted_order(pts, order),
        0 <= a < order.len(),
        0 <= b < order.len(),
        before(pts[order[a] as int].0, pts[order[b] as int].0),
    ensures
        a < b,
{
    if a > b {
        assert(before(pts[order[b] as int].0, pts[order[a] as int].0));
    }
}

proof fn lemma_rank_of(pts: Seq<Position>, order: Seq<usize>, k: int) -> (m: int)
    requires
        sorted_order(pts, order),
        0 <= k < pts.len(),
    ensures
        0 <= m < order.len(),
        order[m] == k,
{
    assert(listed(order, k));
    choose|m: int| 0 <= m < order.len() && order[m] == k
}

/// In the sorted order, the neighbors of a cell are the cells next to it in the list.
proof fn lemma_neighbors(pts: Seq<Position>, order: Seq<usize>, m: int)
    requires
        sorted_order(pts, order),
        distinct_positions(pts),
        0 <= m < order.len(),
    ensures
        opens_next_word(pts, order[m] as int) <==> (m > 0 && pts[order[m] as int].1 is Some
            && pts[order[m - 1] as int].1 != pts[order[m] as int].1),
        opens_word(pts, order[m] as int) <==> (pts[order[m] as int].1 is Some && (m == 0 || pts[order[m
            - 1] as int].1 != pts[order[m] as int].1)),
        closes_word(pts, order[m] as int) <==> (pts[order[m] as int].1 is Some && (m == order.len() - 1
            || pts[order[m + 1] as int].1 != pts[order[m] as int].1)),
{
    let i = order[m] as int;
    let n = order.len() as int;
    if m > 0 {
        let j = order[m - 1] as int;
        assert forall|k: int| 0 <= k < pts.len() && #[trigger] before(pts[k].0, pts[i].0) implies !before(
            pts[j].0,
            pts[k].0,
        ) by {
            let mk = lemma_rank_of(pts, order, k);
            lemma_rank_order(pts, order, mk, m);
            if before(pts[j].0, pts[k].0) {
                lemma_rank_order(pts, order, m - 1, mk);
            }
        }
        assert(is_pred(pts, j, i));
        assert forall|j2: int| is_pred(pts, j2, i) implies j2 == j by {
            let m2 = lemma_rank_of(pts, order, j2);
            lemma_rank_order(pts, order, m2, m);
            if m2 < m - 1 {
                assert(before(pts[j2].0, pts[j].0));
                assert(before(pts[j].0, pts[i].0));
            }
        }
    } else {
        assert forall|j2: int| !is_pred(pts, j2, i) by {
            if is_pred(pts, j2, i) {
                let m2 = lemma_rank_of(pts, order, j2);
                lemma_rank_order(pts, order, m2, m);
            }
        }
    }
    if m < n - 1 {
        let j = order[m + 1] as int;
        assert forall|k: int| 0 <= k < pts.len() && #[trigger] before(pts[i].0, pts[k].0) implies !before(
            pts[k].0,
            pts[j].0,
        ) by {
            let mk = lemma_rank_of(pts, order, k);
            lemma_rank_order(pts, order, m, mk);
            if before(pts[k].0, pts[j].0) {
                lemma_rank_order(pts, order, mk, m + 1);
            }
        }
        assert(is_succ(pts, j, i));
        assert forall|j2: int| is_succ(pts, j2, i) implies j2 == j by {
            let m2 = lemma_rank_of(pts, order, j2);
            lemma_rank_order(pts, order, m, m2);
            if m2 > m + 1 {
                assert(before(pts[j].0, pts[j2].0));
                assert(before(pts[i].0, pts[j].0));
            }
        }
    } else {
        assert forall|j2: int| !is_succ(pts, j2, i) by {
            if is_succ(pts, j2, i) {
                let m2 = lemma_rank_of(pts, order, j2);
                lemma_rank_order(pts, order, m, m2);
            }
        }
    }
}

fn same_owner(a: Option<u32>, b: Option<u32>) -> (r: bool)
    ensures
        r == (a == b),
{
    match (a, b) {
        (Some(x), Some(y)) => x == y,
        (None, None) => true,
        _ => false,
    }
}

/// The first cell after the cursor, in row-major order, that has an owner and whose
/// predecessor has another owner (the very first cell has none, and starts no word).
pub fn get_next_word_start(cursor_position: Vec2<u16>, points: Vec<Position>) -> (r: Option<Vec2<u16>>)
    requires
        distinct_positions(points@),
    ensures
        r == next_word_start_spec(cursor_position, points@),
{
    let ghost pts = points@;
    let order = sort_order(&points);
    let n = order.len();
    let mut m: usize = 0;
    while m < n
        invariant
            n == order@.len(),
            pts == points@,
            sorted_order(pts, order@),
            distinct_positions(pts),
            m <= n,
            forall|m2: int| 0 <= m2 < m ==> !next_start_at(cursor_position, pts, #[trigger] order@[m2] as int),
        decreases n - m,
    {
        let i = order[m];
        proof {
            lemma_neighbors(pts, order@, m as int);
        }
        if m > 0 && points[i].1.is_some() && !same_owner(points[order[m - 1]].1, points[i].1)
            && before_exec(cursor_position, points[i].0) {
            proof {
                assert(next_start_at(cursor_position, pts, i as int));
                assert forall|k: int| #[trigger] next_start_at(cursor_position, pts, k) implies !before(
                    pts[k].0,
                    pts[i as int].0,
                ) by {
                    let mk = lemma_rank_of(pts, order@, k);
                    if before(pts[k].0, pts[i as int].0) {
                        lemma_rank_order(pts, order@, mk, m as int);
                    }
                }
                let i2 = choose|i2: int| next_start_at(cursor_position, pts, i2) && forall|k: int| #[trigger]
                    next_start_at(cursor_position, pts, k) ==> !before(pts[k].0, pts[i2].0);
                assert(!before(pts[i2].0, pts[i as int].0));
                assert(!before(pts[i as int].0, pts[i2].0));
                assert(pts[i2].0 == pts[i as int].0);
            }
            return Some(points[i].0);
        }
        m = m + 1;
    }
    proof {
        assert forall|k: int| !next_start_at(cursor_position, pts, k) by {
            if 0 <= k < pts.len() {
                let mk = lemma_rank_of(pts, order@, k);
                assert(!next_start_at(cursor_position, pts, order@[mk] as int));
            }
        }
    }
    None
}

/// The last cell before the cursor, in row-major order, that has an owner and whose
/// predecessor, if any, has another owner.
pub fn get_previous_word_start(cursor_position: Vec2<u16>, points: Vec<Position>) -> (r: Option<Vec2<u16>>)
    requires
        distinct_positions(points@),
    ensures
        r == previous_word_start_spec(cursor_position, points@),
{
    let ghost pts = points@;
    let order = sort_order(&points);
    let n = order.len();
    let mut m: usize = n;
    while m > 0
        invariant
            n == order@.len(),
            pts == points@,
            sorted_order(pts, order@),
            distinct_positions(pts),
            m <= n,
            forall|m2: int| m <= m2 < n ==> !prev_start_at(cursor_position, pts, #[trigger] order@[m2] as int),
        decreases m,
    {
        let i = order[m - 1];
        proof {
            lemma_neighbors(pts, order@, m - 1);
        }
        if points[i].1.is_some() && (m == 1 || !same_owner(points[order[m - 2]].1, points[i].1))
            && before_exec(points[i].0, cursor_position) {
            proof {
                assert(prev_start_at(cursor_position, pts, i as int));
                assert forall|k: int| #[trigger] prev_start_at(cursor_position, pts, k) implies !before(
                    pts[i as int].0,
                    pts[k].0,
                ) by {
                    let mk = lemma_rank_of(pts, order@, k);
                    if before(pts[i as int].0, pts[k].0) {
                        lemma_rank_order(pts, order@, m - 1, mk);
                    }
                }
                let i2 = choose|i2: int| prev_start_at(cursor_position, pts, i2) && forall|k: int| #[trigger]
                    prev_start_at(cursor_position, pts, k) ==> !before(pts[i2].0, pts[k].0);
                assert(!before(pts[i2].0, pts[i as int].0));
                assert(!before(pts[i as int].0, pts[i2].0));
                assert(pts[i2].0 == pts[i as int].0);
            }
            return Some(points[i].0);
        }
        m = m - 1;
    }
    proof {
        assert forall|k: int| !prev_start_at(cursor_position, pts, k) by {
            if 0 <= k < pts.len() {
                let mk = lemma_rank_of(pts, order@, k);
                assert(!prev_start_at(cursor_position, pts, order@[mk] as int));
            }
        }
    }
    None
}

/// The first cell after the cursor, in row-major order, that has an owner and whose
/// successor, if any, has another owner.
pub fn get_next_word_end(cursor_position: Vec2<u16>, points: Vec<Position>) -> (r: Option<Vec2<u16>>)
    requires
        distinct_positions(points@),
    ensures
        r == next_word_end_spec(cursor_position, points@),
{
    let ghost pts = points@;
    let order = sort_order(&points);
    let n = order.len();
    let mut m: usize = 0;
    while m < n
        invariant
            n == order@.len(),
            pts == points@,
            sorted_order(pts, order@),
            distinct_positions(pts),
            m <= n,
            forall|m2: int| 0 <= m2 < m ==> !next_end_at(cursor_position, pts, #[trigger] order@[m2] as int),
        decreases n - m,
    {
        let i = order[m];
        proof {
            lemma_neighbors(pts, order@, m as int);
        }
        if points[i].1.is_some() && (m + 1 == n || !same_owner(points[order[m + 1]].1, points[i].1))
            && before_exec(cursor_position, points[i].0) {
            proof {
                assert(next_end_at(cursor_position, pts, i as int));
                assert forall|k: int| #[trigger] next_end_at(cursor_position, pts, k) implies !before(
                    pts[k].0,
                    pts[i as int].0,
                ) by {
                    let mk = lemma_rank_of(pts, order@, k);
                    if before(pts[k].0, pts[i as int].0) {
                        lemma_rank_order(pts, order@, mk, m as int);
                    }
                }
                let i2 = choose|i2: int| next_end_at(cursor_position, pts, i2) && forall|k: int| #[trigger]
                    next_end_at(cursor_position, pts, k) ==> !before(pts[k].0, pts[i2].0);
                assert(!before(pts[i2].0, pts[i as int].0));
                assert(!before(pts[i as int].0, pts[i2].0));
                assert(pts[i2].0 == pts[i as int].0);
            }
            return Some(points[i].0);
        }
        m = m + 1;
    }
    proof {
        assert forall|k: int| !next_end_at(cursor_position, pts, k) by {
            if 0 <= k < pts.len() {
                let mk = lemma_rank_of(pts, order@, k);
                assert(!next_end_at(cursor_position, pts, order@[mk] as int));
            }
        }
    }
    None
}

} // verus!

verus! {

/// The word motions.
#[derive(Clone, Copy, Debug, PartialEq, Eq, Structural)]
pub enum WordMotion {
    NextStart,
    PreviousStart,
    NextEnd,
}

pub open spec fn word_target(kind: WordMotion, cursor: Vec2<u16>, pts: Seq<Position>) -> Option<Vec2<u16>> {
    match kind {
        WordMotion::NextStart => next_word_start_spec(cursor, pts),
        WordMotion::PreviousStart => previous_word_start_spec(cursor, pts),
        WordMotion::NextEnd => next_word_end_spec(cursor, pts),
    }
}

/// Row `r` of a grid, left to right, with each cell's owner.
pub open spec fn row_positions(g: Seq<Seq<Cell>>, w: int, r: int) -> Seq<Position> {
    Seq::new(w as nat, |x: int| (Vec2 { x: x as u16, y: r as u16 }, g[x][r].shape_id))
}

/// The first `n` rows of a grid in row-major order.
pub open spec fn grid_positions(g: Seq<Seq<Cell>>, w: int, n: int) -> Seq<Position>
    decreases n,
{
    if n <= 0 {
        seq![]
    } else {
        grid_positions(g, w, n - 1) + row_positions(g, w, n - 1)
    }
}

/// Every cell of the frame being built, in row-major order; nothing before the first frame.
pub open spec fn screen_positions(r: Renderer) -> Seq<Position> {
    if r.current().len() == 0 {
        seq![]
    } else {
        grid_positions(r.current(), r.width as int, r.height as int)
    }
}

/// The cells of the frame being built, row by row, with their owners.
pub fn screen_cells(renderer: &Renderer) -> (pts: Vec<Position>)
    requires
        renderer.wf(),
    ensures
        pts@ == screen_positions(*renderer),
        distinct_positions(pts@),
{
    let mut pts: Vec<Position> = Vec::new();
    if renderer.state.len() == 0 {
        return pts;
    }
    let w = renderer.width;
    let h = renderer.height;
    let ghost g = renderer.current();
    let mut y: u16 = 0;
    while y < h
        invariant
            renderer.wf(),
            g == renderer.current(),
            g.len() == w,
            w == renderer.width,
            h == renderer.height,
            y <= h,
            pts@ == grid_positions(g, w as int, y as int),
            forall|i: int, j: int| 0 <= i < j < pts@.len() ==> before(#[trigger] pts@[i].0, #[trigger] pts@[j].0),
            forall|i: int| 0 <= i < pts@.len() ==> (#[trigger] pts@[i].0).y < y,
        decreases h - y,
    {
        let mut x: u16 = 0;
        while x < w
            invariant
                renderer.wf(),
                g == renderer.current(),
                g.len() == w,
                w == renderer.width,
                h == renderer.height,
                y < h,
                x <= w,
                pts@ == grid_positions(g, w as int, y as int) + row_positions(g, w as int, y as int).take(x as int),
                forall|i: int, j: int| 0 <= i < j < pts@.len() ==> before(#[trigger] pts@[i].0, #[trigger] pts@[j].0),
                forall|i: int| 0 <= i < pts@.len() ==> (#[trigger] pts@[i].0).y < y || (pts@[i].0.y == y && pts@[i].0.x < x),
            decreases w - x,
        {
            assert(renderer.state@[x as int]@ == g[x as int]);
            let owner = renderer.state[x as usize][y as usize].shape_id;
            pts.push((Vec2 { x, y }, owner));
            assert(row_positions(g, w as int, y as int).take(x + 1) =~= row_positions(g, w as int, y as int).take(
                x as int,
            ).push((Vec2 { x, y }, owner)));
            x = x + 1;
        }
        assert(row_positions(g, w as int, y as int).take(x as int) =~= row_positions(g, w as int, y as int));
        y = y + 1;
    }
    proof {
        assert forall|i: int, j: int| 0 <= i < pts@.len() && 0 <= j < pts@.len() && i != j implies pts@[i].0
            != pts@[j].0 by {
            if i < j {
                assert(before(pts@[i].0, pts@[j].0));
            } else {
                assert(before(pts@[j].0, pts@[i].0));
            }
        }
    }
    pts
}

/// Moves the cursor to the target of a word motion on the frame being built; it stays
/// where there is none.
pub fn word_motion(renderer: &Renderer, kind: WordMotion, cursor: &mut Cursor)
    requires
        renderer.wf(),
    ensures
        final(cursor).position == (match word_target(kind, old(cursor).position, screen_positions(*renderer)) {
            Some(p) => p,
            None => old(cursor).position,
        }),
        final(cursor).saved_position == old(cursor).saved_position,
{
    let points = screen_cells(renderer);
    let current = cursor.position;
    let next = match kind {
        WordMotion::NextStart => get_next_word_start(current, points),
        WordMotion::PreviousStart => get_previous_word_start(current, points),
        WordMotion::NextEnd => get_next_word_end(current, points),
    };
    if let Some(p) = next {
        set_position(cursor, p);
    }
}

/// The digits typed before a motion key.
#[derive(Debug)]
pub struct MotionState {
    pub count: Vec<char>,
}

pub open spec fn is_digit(c: char) -> bool {
    '0' <= c <= '9'
}

/// The decimal value of a string of digits.
pub open spec fn digits_value(s: Seq<char>) -> int
    decreases s.len(),
{
    if s.len() == 0 {
        0
    } else {
        digits_value(s.drop_last()) * 10 + (s.last() as int - '0' as int)
    }
}

/// The repeat count that typed digits give: their value where it is a `u16`, else one.
pub open spec fn count_of(s: Seq<char>) -> u16 {
    if s.len() > 0 && (forall|i: int| 0 <= i < s.len() ==> is_digit(#[trigger] s[i])) && digits_value(s) <= u16::MAX {
        digits_value(s) as u16
    } else {
        1
    }
}

proof fn lemma_digits_nonneg(s: Seq<char>)
    requires
        forall|i: int| 0 <= i < s.len() ==> is_digit(#[trigger] s[i]),
    ensures
        digits_value(s) >= 0,
    decreases s.len(),
{
    if s.len() > 0 {
        lemma_digits_nonneg(s.drop_last());
    }
}

impl MotionState {
    pub fn new() -> (r: MotionState)
        ensures
            r.count@.len() == 0,
    {
        MotionState { count: Vec::new() }
    }

    /// Takes the typed count, leaving none.
    fn get_count(&mut self) -> (r: u16)
        ensures
            r == count_of(old(self).count@),
            final(self).count@.len() == 0,
    {
        let mut chars: Vec<char> = Vec::new();
        core::mem::swap(&mut chars, &mut self.count);
        let n = chars.len();
        let mut acc: u32 = 0;
        let mut i: usize = 0;
        while i < n
            invariant
                n == chars@.len(),
                chars@ == old(self).count@,
                self.count@.len() == 0,
                i <= n,
                forall|k: int| 0 <= k < i ==> is_digit(#[trigger] chars@[k]),
                acc as int == if digits_value(chars@.take(i as int)) > 65536 {
                    65536
                } else {
                    digits_value(chars@.take(i as int))
                },
            decreases n - i,
        {
            let c = chars[i];
            if !('0' <= c && c <= '9') {
                assert(!is_digit(chars@[i as int]));
                return 1;
            }
            proof {
                assert(chars@.take(i + 1).drop_last() =~= chars@.take(i as int));
                lemma_digits_nonneg(chars@.take(i as int));
            }
            let d = (c as u32) - ('0' as u32);
            acc = if acc * 10 + d > 65536 {
                65536
            } else {
                acc * 10 + d
            };
            i = i + 1;
        }
        assert(chars@.take(n as int) =~= chars@);
        if n == 0 || acc > 65535 {
            1
        } else {
            acc as u16
        }
    }

    /// Digits add to the count. `h`, `j`, `k` and `l` move the cursor by the count,
    /// one cell where none was typed. `w`, `b` and `e` jump by words in normal mode,
    /// one word whatever the count. Any key but a digit clears the count.
    pub fn handle_motions(&mut self, key: char, renderer: &Renderer, mode: &Mode, cursor: &mut Cursor)
        requires
            renderer.wf(),
        ensures
            final(cursor).saved_position == old(cursor).saved_position,
            is_digit(key) ==> final(self).count@ == old(self).count@.push(key) && *final(cursor) == *old(cursor),
            !is_digit(key) ==> final(self).count@.len() == 0,
            ({
                let n = count_of(old(self).count@) as int;
                let p = old(cursor).position;
                let q = final(cursor).position;
                if key == 'h' {
                    q == Vec2 { x: moved(p.x, -n), y: moved(p.y, 0) }
                } else if key == 'j' {
                    q == Vec2 { x: moved(p.x, 0), y: moved(p.y, n) }
                } else if key == 'k' {
                    q == Vec2 { x: moved(p.x, 0), y: moved(p.y, -n) }
                } else if key == 'l' {
                    q == Vec2 { x: moved(p.x, n), y: moved(p.y, 0) }
                } else if (key == 'w' || key == 'b' || key == 'e') && mode is Normal {
                    q == (match word_target(
                        if key == 'w' {
                            WordMotion::NextStart
                        } else if key == 'b' {
                            WordMotion::PreviousStart
                        } else {
                            WordMotion::NextEnd
                        },
                        p,
                        screen_positions(*renderer),
                    ) {
                        Some(t) => t,
                        None => p,
                    })
                } else {
                    q == p
                }
            }),
    {
        if '0' <= key && key <= '9' {
            self.count.push(key);
            return;
        }
        let move_count = self.get_count() as i32;
        if key == 'h' {
            adjust_position(cursor, -move_count, 0);
        } else if key == 'j' {
            adjust_position(cursor, 0, move_count);
        } else if key == 'k' {
            adjust_position(cursor, 0, -move_count);
        } else if key == 'l' {
            adjust_position(cursor, move_count, 0);
        } else if key == 'w' {
            if mode.is_normal() {
                word_motion(renderer, WordMotion::NextStart, cursor);
            }
        } else if key == 'b' {
            if mode.is_normal() {
                word_motion(renderer, WordMotion::PreviousStart, cursor);
            }
        } else if key == 'e' {
            if mode.is_normal() {
                word_motion(renderer, WordMotion::NextEnd, cursor);
            }
        }
    }
}

} // verus!
