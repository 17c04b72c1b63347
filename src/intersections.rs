use vstd::prelude::*;

use crate::arrow::Arrow;
use crate::characters::{INTERSECTION_DOWN, INTERSECTION_LEFT, INTERSECTION_RIGHT, INTERSECTION_UP};
use crate::draw::{Color, Draw, Intersection, Point};
use crate::mode::Mode;
use crate::rectangle::Rectangle;
use crate::shape::Shape;
use crate::state::State;
use crate::vec2::Vec2;

verus! {

/// Tee glyphs where arrows end on a rectangle's border.
pub struct Intersections {
    pub points: Vec<Point<i32>>,
}

/// The rectangles among the first `k` shapes, in order.
pub open spec fn rects_prefix(shapes: Seq<Shape>, k: int) -> Seq<Rectangle>
    decreases k,
{
    if k <= 0 {
        seq![]
    } else {
        rects_prefix(shapes, k - 1) + match shapes[k - 1] {
            Shape::Rectangle(r) => seq![r],
            Shape::Arrow(_) => seq![],
        }
    }
}

/// The arrows among the first `k` shapes, in order.
pub open spec fn arrows_prefix(shapes: Seq<Shape>, k: int) -> Seq<Arrow>
    decreases k,
{
    if k <= 0 {
        seq![]
    } else {
        arrows_prefix(shapes, k - 1) + match shapes[k - 1] {
            Shape::Arrow(a) => seq![a],
            Shape::Rectangle(_) => seq![],
        }
    }
}

/// Every rectangle on screen: the committed ones, then the one being edited.
pub open spec fn all_rects(state: State) -> Seq<Rectangle> {
    rects_prefix(state.shapes@, state.shapes@.len() as int) + match state.mode {
        Mode::DrawRectangle(r, _) => seq![r],
        Mode::Text(r) => seq![r],
        _ => seq![],
    }
}

/// Every arrow on screen: the committed ones, then the one being drawn.
pub open spec fn all_arrows(state: State) -> Seq<Arrow> {
    arrows_prefix(state.shapes@, state.shapes@.len() as int) + match state.mode {
        Mode::DrawArrow(a) => seq![a],
        _ => seq![],
    }
}

/// The tee that joins an arrow's end at `p` to a border, opening towards the arrow's
/// next point `reference`; none where that point is the end itself.
pub open spec fn tee_glyph(p: Vec2<i32>, reference: Vec2<i32>) -> Option<char> {
    if reference.x > p.x {
        Some(INTERSECTION_RIGHT)
    } else if reference.x < p.x {
        Some(INTERSECTION_LEFT)
    } else if reference.y < p.y {
        Some(INTERSECTION_UP)
    } else if reference.y > p.y {
        Some(INTERSECTION_DOWN)
    } else {
        None
    }
}

pub open spec fn tee_on(r: Rectangle, p: Vec2<i32>, reference: Vec2<i32>) -> Seq<Point<i32>> {
    if r.intersection_spec(p.x as int, p.y as int) is Edge && tee_glyph(p, reference) is Some {
        seq![Point { x: p.x, y: p.y, character: tee_glyph(p, reference)->Some_0, foreground: Color::Border, background: Color::BorderBackground }]
    } else {
        seq![]
    }
}

/// One tee for each rectangle among the first `k` whose border `p` is on.
pub open spec fn tees(rects: Seq<Rectangle>, p: Vec2<i32>, reference: Vec2<i32>, k: int) -> Seq<Point<i32>>
    decreases k,
{
    if k <= 0 {
        seq![]
    } else {
        tees(rects, p, reference, k - 1) + tee_on(rects[k - 1], p, reference)
    }
}

/// The tees at both ends of an arrow of at least two points.
pub open spec fn arrow_tees(rects: Seq<Rectangle>, a: Arrow) -> Seq<Point<i32>> {
    let pts = a.points@;
    let n = pts.len() as int;
    if n < 2 {
        seq![]
    } else {
        tees(rects, pts[0], pts[1], rects.len() as int) + tees(rects, pts[n - 1], pts[n - 2], rects.len() as int)
    }
}

pub open spec fn all_tees(rects: Seq<Rectangle>, arrows: Seq<Arrow>, k: int) -> Seq<Point<i32>>
    decreases k,
{
    if k <= 0 {
        seq![]
    } else {
        all_tees(rects, arrows, k - 1) + arrow_tees(rects, arrows[k - 1])
    }
}

fn tee_glyph_exec(p: &Vec2<i32>, reference: &Vec2<i32>) -> (r: Option<char>)
    ensures
        r == tee_glyph(*p, *reference),
{
    if reference.x > p.x {
        Some(INTERSECTION_RIGHT)
    } else if reference.x < p.x {
        Some(INTERSECTION_LEFT)
    } else if reference.y < p.y {
        Some(INTERSECTION_UP)
    } else if reference.y > p.y {
        Some(INTERSECTION_DOWN)
    } else {
        None
    }
}

fn push_tee(r: &Rectangle, p: &Vec2<i32>, reference: &Vec2<i32>, out: &mut Vec<Point<i32>>)
    ensures
        final(out)@ == old(out)@ + tee_on(*r, *p, *reference),
{
    let hit = r.get_intersection(p);
    if let Intersection::Edge(_) = hit {
        if let Some(character) = tee_glyph_exec(p, reference) {
            out.push(Point { x: p.x, y: p.y, character, foreground: Color::Border, background: Color::BorderBackground });
            return;
        }
    }
    assert(old(out)@ + tee_on(*r, *p, *reference) =~= old(out)@);
}

proof fn lemma_rects_prefix_len(shapes: Seq<Shape>, k: int)
    requires
        0 <= k <= shapes.len(),
    ensures
        rects_prefix(shapes, k).len() <= k,
    decreases k,
{
    if k > 0 {
        lemma_rects_prefix_len(shapes, k - 1);
    }
}

/// Appends the tees of one arrow end against every rectangle on screen.
fn push_end_tees(state: &State, p: &Vec2<i32>, reference: &Vec2<i32>, out: &mut Vec<Point<i32>>)
    ensures
        final(out)@ == old(out)@ + tees(all_rects(*state), *p, *reference, all_rects(*state).len() as int),
{
    let ghost rects = all_rects(*state);
    let ghost start = old(out)@;
    let n = state.shapes.len();
    let mut i: usize = 0;
    while i < n
        invariant
            n == state.shapes@.len(),
            i <= n,
            rects == all_rects(*state),
            out@ == start + tees(rects, *p, *reference, rects_prefix(state.shapes@, i as int).len() as int),
        decreases n - i,
    {
        proof {
            lemma_rects_prefix_len(state.shapes@, i + 1);
            assert forall|j: int| 0 <= j < rects_prefix(state.shapes@, i + 1).len() implies rects[j]
                == rects_prefix(state.shapes@, i + 1)[j] by {
                lemma_prefix_of_all(state.shapes@, i + 1, state.shapes@.len() as int, j);
            }
        }
        if let Shape::Rectangle(r) = &state.shapes[i] {
            let ghost k = rects_prefix(state.shapes@, i as int).len() as int;
            proof {
                assert(rects_prefix(state.shapes@, i + 1)[k] == *r);
                assert(rects[k] == *r);
            }
            push_tee(r, p, reference, out);
        }
        i = i + 1;
    }
    let ghost k = rects_prefix(state.shapes@, n as int).len() as int;
    match &state.mode {
        Mode::DrawRectangle(r, _) => {
            assert(rects[k] == *r);
            push_tee(r, p, reference, out);
        },
        Mode::Text(r) => {
            assert(rects[k] == *r);
            push_tee(r, p, reference, out);
        },
        _ => {},
    }
}

proof fn lemma_prefix_of_all(shapes: Seq<Shape>, k: int, n: int, j: int)
    requires
        0 <= k <= n <= shapes.len(),
        0 <= j < rects_prefix(shapes, k).len(),
    ensures
        rects_prefix(shapes, n).len() >= rects_prefix(shapes, k).len(),
        rects_prefix(shapes, n)[j] == rects_prefix(shapes, k)[j],
    decreases n - k,
{
    if k < n {
        lemma_prefix_of_all(shapes, k, n - 1, j);
    }
}

} // verus!

verus! {

proof fn lemma_arrows_prefix_of_all(shapes: Seq<Shape>, k: int, n: int, j: int)
    requires
        0 <= k <= n <= shapes.len(),
        0 <= j < arrows_prefix(shapes, k).len(),
    ensures
        arrows_prefix(shapes, n).len() >= arrows_prefix(shapes, k).len(),
        arrows_prefix(shapes, n)[j] == arrows_prefix(shapes, k)[j],
    decreases n - k,
{
    if k < n {
        lemma_arrows_prefix_of_all(shapes, k, n - 1, j);
    }
}

fn push_arrow_tees(state: &State, a: &Arrow, out: &mut Vec<Point<i32>>)
    ensures
        final(out)@ == old(out)@ + arrow_tees(all_rects(*state), *a),
{
    let n = a.points.len();
    if n >= 2 {
        push_end_tees(state, &a.points[0], &a.points[1], out);
        push_end_tees(state, &a.points[n - 1], &a.points[n - 2], out);
        assert(out@ =~= old(out)@ + arrow_tees(all_rects(*state), *a));
    } else {
        assert(out@ =~= old(out)@ + arrow_tees(all_rects(*state), *a));
    }
}

impl Intersections {
    /// Tees at each end of each arrow on screen, one for every rectangle on screen whose
    /// border that end lies on, arrows and rectangles each in list order with the one
    /// being edited last. An arrow of one point has no direction and gets none.
    pub fn new(state: &State) -> (r: Intersections)
        ensures
            r.points@ == all_tees(all_rects(*state), all_arrows(*state), all_arrows(*state).len() as int),
    {
        let ghost rects = all_rects(*state);
        let ghost arrows = all_arrows(*state);
        let mut out: Vec<Point<i32>> = Vec::new();
        let n = state.shapes.len();
        let mut i: usize = 0;
        while i < n
            invariant
                n == state.shapes@.len(),
                i <= n,
                rects == all_rects(*state),
                arrows == all_arrows(*state),
                out@ == all_tees(rects, arrows, arrows_prefix(state.shapes@, i as int).len() as int),
            decreases n - i,
        {
            proof {
                assert forall|j: int| 0 <= j < arrows_prefix(state.shapes@, i + 1).len() implies arrows[j]
                    == arrows_prefix(state.shapes@, i + 1)[j] by {
                    lemma_arrows_prefix_of_all(state.shapes@, i + 1, state.shapes@.len() as int, j);
                }
            }
            if let Shape::Arrow(a) = &state.shapes[i] {
                let ghost k = arrows_prefix(state.shapes@, i as int).len() as int;
                proof {
                    assert(arrows_prefix(state.shapes@, i + 1)[k] == *a);
                    assert(arrows[k] == *a);
                }
                push_arrow_tees(state, a, &mut out);
            }
            i = i + 1;
        }
        let ghost k = arrows_prefix(state.shapes@, n as int).len() as int;
        if let Mode::DrawArrow(a) = &state.mode {
            assert(arrows[k] == *a);
            push_arrow_tees(state, a, &mut out);
        }
        Intersections { points: out }
    }
}

impl Draw for Intersections {
    open spec fn drawable(&self) -> bool {
        true
    }

    open spec fn drawn(&self) -> Seq<Point<i32>> {
        self.points@
    }

    fn draw(&self) -> (r: Vec<Point<i32>>) {
        let mut r: Vec<Point<i32>> = Vec::new();
        let mut i: usize = 0;
        while i < self.points.len()
            invariant
                i <= self.points@.len(),
                r@ == self.points@.take(i as int),
            decreases self.points.len() - i,
        {
            r.push(self.points[i]);
            i = i + 1;
            assert(r@ =~= self.points@.take(i as int));
        }
        assert(r@ =~= self.points@);
        r
    }
}

} // verus!
