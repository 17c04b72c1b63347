use vstd::prelude::*;

use crate::arrow::Arrow;
use crate::draw::{Draw, Intersection, Point};
use crate::rectangle::Rectangle;
use crate::vec2::Vec2;

verus! {

/// The two kinds of drawable things.
#[derive(Debug)]
pub enum Shape {
    Rectangle(Rectangle),
    Arrow(Arrow),
}

impl Shape {
    pub open spec fn id(&self) -> u32 {
        match self {
            Shape::Rectangle(r) => r.shape_id,
            Shape::Arrow(a) => a.shape_id,
        }
    }

    pub fn shape_id(&self) -> (r: u32)
        ensures
            r == self.id(),
    {
        match self {
            Shape::Rectangle(r) => r.shape_id,
            Shape::Arrow(a) => a.shape_id,
        }
    }

    pub open spec fn hit(&self, p: Vec2<i32>) -> Intersection {
        match self {
            Shape::Rectangle(r) => r.intersection_spec(p.x as int, p.y as int),
            Shape::Arrow(a) => a.hit_spec(p),
        }
    }

    pub fn get_intersection(&self, p: &Vec2<i32>) -> (r: Intersection)
        ensures
            r == self.hit(*p),
    {
        match self {
            Shape::Rectangle(r) => r.get_intersection(p),
            Shape::Arrow(a) => a.get_intersection(p),
        }
    }

    pub open spec fn guide_points(&self) -> Seq<Vec2<i32>> {
        match self {
            Shape::Rectangle(r) => r.corners_spec(),
            Shape::Arrow(a) => a.ends_spec(),
        }
    }

    /// The corners of a rectangle, the ends of an arrow.
    pub fn get_intersection_points(&self) -> (r: Vec<Vec2<i32>>)
        ensures
            r@ == self.guide_points(),
    {
        match self {
            Shape::Rectangle(r) => r.get_intersection_points(),
            Shape::Arrow(a) => a.get_intersection_points(),
        }
    }
}

impl Draw for Shape {
    open spec fn drawable(&self) -> bool {
        match self {
            Shape::Rectangle(r) => r.drawable(),
            Shape::Arrow(a) => a.drawable(),
        }
    }

    open spec fn drawn(&self) -> Seq<Point<i32>> {
        match self {
            Shape::Rectangle(r) => r.drawn(),
            Shape::Arrow(a) => a.drawn(),
        }
    }

    fn draw(&self) -> (r: Vec<Point<i32>>) {
        match self {
            Shape::Rectangle(r) => r.draw(),
            Shape::Arrow(a) => a.draw(),
        }
    }
}

} // verus!
