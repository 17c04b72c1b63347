use vstd::prelude::*;

verus! {

/// A position on the character grid.
#[derive(Clone, Copy, Debug, PartialEq, Eq)]
pub struct Vec2<T> {
    pub x: T,
    pub y: T,
}

impl<T> Vec2<T> {
    pub fn new(x: T, y: T) -> (r: Vec2<T>)
        ensures
            r.x == x,
            r.y == y,
    {
        Vec2 { x, y }
    }
}

impl<T> From<(T, T)> for Vec2<T> {
    fn from(v: (T, T)) -> (r: Vec2<T>) {
        Vec2 { x: v.0, y: v.1 }
    }
}

impl<T> vstd::std_specs::convert::FromSpecImpl<(T, T)> for Vec2<T> {
    open spec fn obeys_from_spec() -> bool {
        true
    }

    open spec fn from_spec(v: (T, T)) -> Vec2<T> {
        Vec2 { x: v.0, y: v.1 }
    }
}

} // verus!
