use vstd::prelude::*;

use core::cmp::Ordering;

use crate::characters::{
    ARROW_DOWN, ARROW_LEFT, ARROW_RIGHT, ARROW_UP, CORNER_1, CORNER_2, CORNER_3, CORNER_4,
    HORIZONTAL_BAR, VERTICAL_BAR,
};
use crate::draw::{Color, Draw, EdgeIntersection, Intersection, Point};
use crate::shape_id::ShapeIdStore;
use crate::vec2::Vec2;

verus! {

/// A path of cells. The first point is where it was started, the last one
/// where it is being extended.
#[derive(Debug)]
pub struct Arrow {
    pub points: Vec<Vec2<i32>>,
    pub shape_id: u32,
}

pub open spec fn order(a: i32, b: i32) -> Ordering {
    if a < b {
        Ordering::Less
    } else if a == b {
        Ordering::Equal
    } else {
        Ordering::Greater
    }
}

fn order_of(a: i32, b: i32) -> (r: Ordering)
    ensures
        r == order(a, b),
{
    if a < b {
        Ordering::Less
    } else if a == b {
        Ordering::Equal
    } else {
        Ordering::Greater
    }
}

/// The glyph of an inner point of a path, from how it is entered and left, and
/// whether the arrowhead is still to be placed (it takes the first straight run
/// that asks for it).
pub open spec fn glyph_spec(prev: Vec2<i32>, cur: Vec2<i32>, next: Vec2<i32>, try_arrow: bool) -> (char, bool) {
    let a = (order(prev.x, cur.x), order(prev.y, cur.y));
    let b = (order(cur.x, next.x), order(cur.y, next.y));
    if a == (Ordering::Equal, Ordering::Greater) && b == (Ordering::Equal, Ordering::Greater) {
        if try_arrow { (ARROW_UP, false) } else { (VERTICAL_BAR, false) }
    } else if a == (Ordering::Equal, Ordering::Less) && b == (Ordering::Equal, Ordering::Less) {
        if try_arrow { (ARROW_DOWN, false) } else { (VERTICAL_BAR, false) }
    } else if a == (Ordering::Greater, Ordering::Equal) && b == (Ordering::Greater, Ordering::Equal) {
        if try_arrow { (ARROW_LEFT, false) } else { (HORIZONTAL_BAR, false) }
    } else if a == (Ordering::Less, Ordering::Equal) && b == (Ordering::Less, Ordering::Equal) {
        if try_arrow { (ARROW_RIGHT, false) } else { (HORIZONTAL_BAR, false) }
    } else if (a == (Ordering::Greater, Ordering::Equal) && b == (Ordering::Equal, Ordering::Less))
        || (a == (Ordering::Equal, Ordering::Greater) && b == (Ordering::Less, Ordering::Equal)) {
        (CORNER_3, try_arrow)
    } else if (a == (Ordering::Less, Ordering::Equal) && b == (Ordering::Equal, Ordering::Greater))
        || (a == (Ordering::Equal, Ordering::Less) && b == (Ordering::Greater, Ordering::Equal)) {
        (CORNER_1, try_arrow)
    } else if (a == (Ordering::Less, Ordering::Equal) && b == (Ordering::Equal, Ordering::Less))
        || (a == (Ordering::Equal, Ordering::Greater) && b == (Ordering::Greater, Ordering::Equal)) {
        (CORNER_4, try_arrow)
    } else if (a == (Ordering::Equal, Ordering::Less) && b == (Ordering::Less, Ordering::Equal))
        || (a == (Ordering::Greater, Ordering::Equal) && b == (Ordering::Equal, Ordering::Greater)) {
        (CORNER_2, try_arrow)
    } else {
        (' ', try_arrow)
    }
}

/// The bar that ends a path: vertical where the neighbor is straight above or below.
pub open spec fn endpoint_glyph(point: Vec2<i32>, neighbor: Vec2<i32>) -> char {
    if point.y != neighbor.y && point.x == neighbor.x {
        VERTICAL_BAR
    } else {
        HORIZONTAL_BAR
    }
}

pub open spec fn path_point(p: Vec2<i32>, c: char) -> Point<i32> {
    Point { x: p.x, y: p.y, character: c, foreground: Color::Border, background: Color::BorderBackground }
}

impl Arrow {
    pub fn init(ids: &mut ShapeIdStore) -> (r: Arrow)
        requires
            old(ids).can_generate(),
        ensures
            r.points@.len() == 0,
            r.shape_id == old(ids).current + 1,
            final(ids).current == r.shape_id,
    {
        Arrow { points: Vec::new(), shape_id: crate::shape_id::generate_shape_id(ids) }
    }

    /// The points after the path is extended to `position`: going back onto the
    /// second to last point takes the last one away instead.
    pub open spec fn updated(points: Seq<Vec2<i32>>, position: Vec2<i32>) -> Seq<Vec2<i32>> {
        if points.len() > 1 && points[points.len() - 2] == position {
            points.drop_last()
        } else {
            points.push(position)
        }
    }

    pub fn update(&mut self, position: Vec2<i32>)
        ensures
            final(self).points@ == Self::updated(old(self).points@, position),
            final(self).shape_id == old(self).shape_id,
    {
        let n = self.points.len();
        if n > 1 && self.points[n - 2].x == position.x && self.points[n - 2].y == position.y {
            self.points.pop();
        } else {
            self.points.push(position);
        }
    }

    /// The glyph of an inner point; `try_arrow` is cleared once an arrowhead is drawn.
    pub fn get_char(prev: &Vec2<i32>, current: &Vec2<i32>, next: &Vec2<i32>, try_arrow: &mut bool) -> (c: char)
        ensures
            (c, *final(try_arrow)) == glyph_spec(*prev, *current, *next, *old(try_arrow)),
    {
        let a = (order_of(prev.x, current.x), order_of(prev.y, current.y));
        let b = (order_of(current.x, next.x), order_of(current.y, next.y));
        let mut straight = |normal: char, arrow: char, t: &mut bool| -> (r: char)
            ensures
                r == (if *old(t) { arrow } else { normal }),
                *final(t) == false,
            {
                if *t {
                    *t = false;
                    arrow
                } else {
                    normal
                }
            };
        match (a, b) {
            ((Ordering::Equal, Ordering::Greater), (Ordering::Equal, Ordering::Greater)) => straight(VERTICAL_BAR, ARROW_UP, try_arrow),
            ((Ordering::Equal, Ordering::Less), (Ordering::Equal, Ordering::Less)) => straight(VERTICAL_BAR, ARROW_DOWN, try_arrow),
            ((Ordering::Greater, Ordering::Equal), (Ordering::Greater, Ordering::Equal)) => straight(HORIZONTAL_BAR, ARROW_LEFT, try_arrow),
            ((Ordering::Less, Ordering::Equal), (Ordering::Less, Ordering::Equal)) => straight(HORIZONTAL_BAR, ARROW_RIGHT, try_arrow),
            ((Ordering::Greater, Ordering::Equal), (Ordering::Equal, Ordering::Less))
            | ((Ordering::Equal, Ordering::Greater), (Ordering::Less, Ordering::Equal)) => CORNER_3,
            ((Ordering::Less, Ordering::Equal), (Ordering::Equal, Ordering::Greater))
            | ((Ordering::Equal, Ordering::Less), (Ordering::Greater, Ordering::Equal)) => CORNER_1,
            ((Ordering::Less, Ordering::Equal), (Ordering::Equal, Ordering::Less))
            | ((Ordering::Equal, Ordering::Greater), (Ordering::Greater, Ordering::Equal)) => CORNER_4,
            ((Ordering::Equal, Ordering::Less), (Ordering::Less, Ordering::Equal))
            | ((Ordering::Greater, Ordering::Equal), (Ordering::Equal, Ordering::Greater)) => CORNER_2,
            _ => ' ',
        }
    }
}

} // verus!

verus! {

impl Arrow {
    /// What point `i` of a path adds to the drawing, given whether the arrowhead is
    /// still to be placed, and whether it still is afterwards.
    pub open spec fn point_step(pts: Seq<Vec2<i32>>, i: int, try_arrow: bool) -> (Seq<Point<i32>>, bool) {
        let n = pts.len() as int;
        if n < 2 {
            (seq![], try_arrow)
        } else if i == 0 {
            (seq![path_point(pts[0], endpoint_glyph(pts[0], pts[1]))], try_arrow)
        } else if i == n - 1 {
            (seq![path_point(pts[i], endpoint_glyph(pts[i], pts[i - 1]))], try_arrow)
        } else {
            let (c, t) = glyph_spec(pts[i - 1], pts[i], pts[i + 1], try_arrow);
            (seq![path_point(pts[i], c)], t)
        }
    }

    /// The drawing of the first `k` points. The arrowhead becomes eligible at the
    /// middle point and goes to the first straight run from there on.
    pub open spec fn drawn_prefix(pts: Seq<Vec2<i32>>, k: int) -> (Seq<Point<i32>>, bool)
        decreases k,
    {
        if k <= 0 {
            (seq![], false)
        } else {
            let (s, t) = Self::drawn_prefix(pts, k - 1);
            let t1 = if k - 1 == pts.len() as int / 2 { true } else { t };
            let (u, t2) = Self::point_step(pts, k - 1, t1);
            (s + u, t2)
        }
    }

    fn get_endpoint(point: &Vec2<i32>, neighbor: &Vec2<i32>) -> (r: Point<i32>)
        ensures
            r == path_point(*point, endpoint_glyph(*point, *neighbor)),
    {
        let c = if point.y != neighbor.y && point.x == neighbor.x {
            VERTICAL_BAR
        } else {
            HORIZONTAL_BAR
        };
        Self::get_point(point, c)
    }

    fn get_point(p: &Vec2<i32>, c: char) -> (r: Point<i32>)
        ensures
            r == path_point(*p, c),
    {
        Point { x: p.x, y: p.y, character: c, foreground: Color::Border, background: Color::BorderBackground }
    }

    pub open spec fn hit_spec(&self, p: Vec2<i32>) -> Intersection {
        if exists|i: int| 0 <= i < self.points@.len() && self.points@[i] == p {
            Intersection::Edge(EdgeIntersection::Side)
        } else {
            Intersection::Outside
        }
    }

    /// A position on the path is on its edge; an arrow has no corners and no inside.
    pub fn get_intersection(&self, p: &Vec2<i32>) -> (r: Intersection)
        ensures
            r == self.hit_spec(*p),
    {
        let mut i: usize = 0;
        while i < self.points.len()
            invariant
                i <= self.points@.len(),
                forall|j: int| 0 <= j < i ==> self.points@[j] != *p,
            decreases self.points.len() - i,
        {
            if self.points[i].x == p.x && self.points[i].y == p.y {
                return Intersection::Edge(EdgeIntersection::Side);
            }
            i = i + 1;
        }
        Intersection::Outside
    }

    /// The two ends of the path, or the one point of a path of one point.
    pub open spec fn ends_spec(&self) -> Seq<Vec2<i32>> {
        let n = self.points@.len();
        if n == 0 {
            seq![]
        } else {
            seq![self.points@[0], self.points@[n - 1]]
        }
    }

    pub fn get_intersection_points(&self) -> (r: Vec<Vec2<i32>>)
        ensures
            r@ == self.ends_spec(),
    {
        let mut r: Vec<Vec2<i32>> = Vec::new();
        let n = self.points.len();
        if n > 0 {
            r.push(self.points[0]);
            r.push(self.points[n - 1]);
        }
        assert(r@ =~= self.ends_spec());
        r
    }
}

impl Draw for Arrow {
    open spec fn drawable(&self) -> bool {
        true
    }

    open spec fn drawn(&self) -> Seq<Point<i32>> {
        Self::drawn_prefix(self.points@, self.points@.len() as int).0
    }

    fn draw(&self) -> (r: Vec<Point<i32>>) {
        let mut points: Vec<Point<i32>> = Vec::new();
        let mut add_arrow = false;
        let n = self.points.len();
        let mut i: usize = 0;
        while i < n
            invariant
                n == self.points@.len(),
                i <= n,
                (points@, add_arrow) == Self::drawn_prefix(self.points@, i as int),
            decreases n - i,
        {
            if i == n / 2 {
                add_arrow = true;
            }
            if n >= 2 {
                if i == 0 {
                    points.push(Self::get_endpoint(&self.points[0], &self.points[1]));
                } else if i == n - 1 {
                    points.push(Self::get_endpoint(&self.points[i], &self.points[i - 1]));
                } else {
                    let c = Self::get_char(&self.points[i - 1], &self.points[i], &self.points[i + 1], &mut add_arrow);
                    points.push(Self::get_point(&self.points[i], c));
                }
            }
            i = i + 1;
            proof {
                let (s, t) = Self::drawn_prefix(self.points@, i - 1);
                let t1 = if i - 1 == n as int / 2 { true } else { t };
                let (u, t2) = Self::point_step(self.points@, i - 1, t1);
                assert(points@ =~= s + u);
            }
        }
        points
    }
}

} // verus!

verus! {

/// A path and its reverse show the same glyph at an inner point, once no arrowhead is
/// to be placed there.
pub proof fn lemma_glyph_reversal(prev: Vec2<i32>, cur: Vec2<i32>, next: Vec2<i32>)
    ensures
        glyph_spec(prev, cur, next, false).0 == glyph_spec(next, cur, prev, false).0,
{
}

} // verus!
