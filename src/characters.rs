use vstd::prelude::*;

verus! {

pub const VERTICAL_BAR: char = '│';
pub const HORIZONTAL_BAR: char = '─';

pub const CORNER_1: char = '┘';
pub const CORNER_2: char = '└';
pub const CORNER_3: char = '┌';
pub const CORNER_4: char = '┐';

pub const CORNER_1_ROUNDED: char = '╯';
pub const CORNER_2_ROUNDED: char = '╰';
pub const CORNER_3_ROUNDED: char = '╭';
pub const CORNER_4_ROUNDED: char = '╮';

pub const INTERSECTION_UP: char = '┴';
pub const INTERSECTION_DOWN: char = '┬';
pub const INTERSECTION_LEFT: char = '┤';
pub const INTERSECTION_RIGHT: char = '├';

pub const ARROW_UP: char = '▲';
pub const ARROW_DOWN: char = '▼';
pub const ARROW_LEFT: char = '◀';
pub const ARROW_RIGHT: char = '▶';

} // verus!
