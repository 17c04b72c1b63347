use vstd::prelude::*;

use crate::mode::Anchor;

verus! {

/// One character to place at a position, with its colors.
#[derive(Clone, Copy, Debug, PartialEq, Eq)]
pub struct Point<T> {
    pub x: T,
    pub y: T,
    pub character: char,
    pub foreground: Color,
    pub background: Color,
}

/// A position whose colors an overlay changes.
#[derive(Clone, Copy, Debug, PartialEq, Eq)]
pub struct OverlayPoint {
    pub x: i32,
    pub y: i32,
}

/// How a position relates to a shape.
#[derive(Clone, Copy, Debug, PartialEq, Eq, Structural)]
pub enum Intersection {
    Outside,
    Edge(EdgeIntersection),
    Inner,
}

#[derive(Clone, Copy, Debug, PartialEq, Eq, Structural)]
pub enum EdgeIntersection {
    /// If intersecting a rectangle, which corner is intersected
    Corner(Option<Anchor>),
    Side,
}

/// The fixed palette of the editor.
#[derive(Clone, Copy, Debug, PartialEq, Eq, Structural)]
pub enum Color {
    Empty,
    EmptyBackground,
    Border,
    BorderBackground,
    BorderBackgroundHover,
    Debug,
    DebugBackground,
    Grid,
    Guide,
}

impl Color {
    /// The red, green and blue components that the terminal shows for this color.
    pub fn rgb(&self) -> (r: (u8, u8, u8))
        ensures
            r == self.rgb_spec(),
    {
        match self {
            Color::Border => (255, 255, 255),
            Color::BorderBackground => (0, 0, 0),
            Color::BorderBackgroundHover => (70, 70, 70),
            Color::Debug => (240, 240, 240),
            Color::DebugBackground => (40, 40, 40),
            Color::Empty => (255, 255, 255),
            Color::EmptyBackground => (0, 0, 0),
            Color::Grid => (100, 100, 40),
            Color::Guide => (120, 20, 20),
        }
    }

    pub open spec fn rgb_spec(&self) -> (u8, u8, u8) {
        match self {
            Color::Border => (255, 255, 255),
            Color::BorderBackground => (0, 0, 0),
            Color::BorderBackgroundHover => (70, 70, 70),
            Color::Debug => (240, 240, 240),
            Color::DebugBackground => (40, 40, 40),
            Color::Empty => (255, 255, 255),
            Color::EmptyBackground => (0, 0, 0),
            Color::Grid => (100, 100, 40),
            Color::Guide => (120, 20, 20),
        }
    }
}

/// Widens a point given in screen coordinates to canvas coordinates.
pub fn widen_point(p: Point<u16>) -> (r: Point<i32>)
    ensures
        r.x == p.x as i32,
        r.y == p.y as i32,
        r.character == p.character,
        r.foreground == p.foreground,
        r.background == p.background,
{
    Point {
        x: p.x as i32,
        y: p.y as i32,
        character: p.character,
        foreground: p.foreground,
        background: p.background,
    }
}

/// Used for rendering an object at a specific location on the canvas
pub trait Draw {
    spec fn drawable(&self) -> bool;

    spec fn drawn(&self) -> Seq<Point<i32>>;

    fn draw(&self) -> (r: Vec<Point<i32>>)
        requires
            self.drawable(),
        ensures
            r@ == self.drawn(),
    ;
}

/// Used for rendering an object at a specific location on the screen
pub trait DrawSticky {
    spec fn drawn_sticky(&self) -> Seq<Point<u16>>;

    fn draw(&self) -> (r: Vec<Point<u16>>)
        ensures
            r@ == self.drawn_sticky(),
    ;
}

/// Used for changing the color of rendered content
pub trait DrawOverlay {
    spec fn overlay(&self) -> (Seq<OverlayPoint>, Option<Color>, Option<Color>);

    fn draw_overlay(&self) -> (r: (Vec<OverlayPoint>, Option<Color>, Option<Color>))
        ensures
            r.0@ == self.overlay().0,
            r.1 == self.overlay().1,
            r.2 == self.overlay().2,
    ;
}

} // verus!
