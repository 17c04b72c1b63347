use vstd::prelude::*;

use crate::vec2::Vec2;

verus! {

/// Where the editing cursor stands on the screen, tracked here so that the terminal
/// need not be asked.
#[derive(Clone, Copy, Debug)]
pub struct Cursor {
    pub position: Vec2<u16>,
    pub saved_position: Option<Vec2<u16>>,
}

impl Cursor {
    pub fn new(position: Vec2<u16>) -> (r: Cursor)
        ensures
            r.position == position,
            r.saved_position is None,
    {
        Cursor { position, saved_position: None }
    }
}

/// `v + d`, held within the range of `u16`.
pub open spec fn moved(v: u16, d: int) -> u16 {
    if v + d < 0 {
        0
    } else if v + d > u16::MAX {
        u16::MAX
    } else {
        (v + d) as u16
    }
}

fn move_by(v: u16, d: i32) -> (r: u16)
    ensures
        r == moved(v, d as int),
{
    let t: i64 = v as i64 + d as i64;
    if t < 0 {
        0
    } else if t > u16::MAX as i64 {
        u16::MAX
    } else {
        t as u16
    }
}

pub fn cursor_position(cursor: &Cursor) -> (r: Vec2<u16>)
    ensures
        r == cursor.position,
{
    cursor.position
}

/// Moves the cursor by the given steps; it stops at the screen's first row and column.
pub fn adjust_position(cursor: &mut Cursor, dx: i32, dy: i32)
    ensures
        final(cursor).position.x == moved(old(cursor).position.x, dx as int),
        final(cursor).position.y == moved(old(cursor).position.y, dy as int),
        final(cursor).saved_position == old(cursor).saved_position,
{
    cursor.position = Vec2 { x: move_by(cursor.position.x, dx), y: move_by(cursor.position.y, dy) };
}

pub fn set_position(cursor: &mut Cursor, position: Vec2<u16>)
    ensures
        final(cursor).position == position,
        final(cursor).saved_position == old(cursor).saved_position,
{
    cursor.position = position;
}

/// Remembers the current position, to come back to it after drawing elsewhere.
pub fn save_position(cursor: &mut Cursor)
    ensures
        final(cursor).position == old(cursor).position,
        final(cursor).saved_position == Some(old(cursor).position),
{
    cursor.saved_position = Some(cursor.position);
}

/// Goes back to the saved position and forgets it; without one the cursor stays.
pub fn restore_position(cursor: &mut Cursor) -> (restored: bool)
    ensures
        restored == old(cursor).saved_position is Some,
        final(cursor).position == (match old(cursor).saved_position {
            Some(p) => p,
            None => old(cursor).position,
        }),
        final(cursor).saved_position is None,
{
    match cursor.saved_position {
        Some(p) => {
            cursor.position = p;
            cursor.saved_position = None;
            true
        },
        None => false,
    }
}

} // verus!
