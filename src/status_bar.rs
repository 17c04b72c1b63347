use vstd::prelude::*;

use crate::draw::{Color, DrawSticky, Point};
use crate::mode::Mode;
use crate::vec2::Vec2;

verus! {

/// A row near the bottom of the screen: the mode on the left, the cursor's
/// `column:row` on the right.
pub struct StatusBar {
    pub mode_text: Vec<char>,
    pub cursor_text: Vec<char>,
    /// How many rows up from the bottom edge the bar sits.
    pub y: u16,
    pub width: u16,
    pub height: u16,
}

pub open spec fn mode_name(mode: Mode) -> Seq<char> {
    match mode {
        Mode::Normal => seq!['N', 'o', 'r', 'm', 'a', 'l'],
        Mode::DrawRectangle(_, _) => seq!['D', 'r', 'a', 'w'],
        Mode::DrawArrow(_) => seq!['A', 'r', 'r', 'o', 'w'],
        Mode::Text(_) => seq!['T', 'e', 'x', 't'],
        Mode::Select(_) => seq!['S', 'e', 'l', 'e', 'c', 't'],
    }
}

pub open spec fn digit(d: nat) -> char {
    ('0' as nat + d) as char
}

/// The decimal digits of `n`, most significant first.
pub open spec fn decimal(n: nat) -> Seq<char>
    decreases n,
{
    if n < 10 {
        seq![digit(n)]
    } else {
        decimal(n / 10).push(digit(n % 10))
    }
}

pub open spec fn position_text(p: Vec2<u16>) -> Seq<char> {
    decimal(p.x as nat) + seq![':'] + decimal(p.y as nat)
}

fn push_decimal(n: u16, out: &mut Vec<char>)
    ensures
        final(out)@ == old(out)@ + decimal(n as nat),
    decreases n,
{
    if n >= 10 {
        push_decimal(n / 10, out);
    }
    let d = (n % 10) as u8;
    let c = ('0' as u8 + d) as char;
    assert(c == digit((n % 10) as nat));
    out.push(c);
    assert(out@ =~= old(out)@ + decimal(n as nat));
}

fn mode_text(mode: &Mode) -> (r: Vec<char>)
    ensures
        r@ == mode_name(*mode),
{
    let r = match mode {
        Mode::Normal => vec!['N', 'o', 'r', 'm', 'a', 'l'],
        Mode::DrawRectangle(_, _) => vec!['D', 'r', 'a', 'w'],
        Mode::DrawArrow(_) => vec!['A', 'r', 'r', 'o', 'w'],
        Mode::Text(_) => vec!['T', 'e', 'x', 't'],
        Mode::Select(_) => vec!['S', 'e', 'l', 'e', 'c', 't'],
    };
    assert(r@ =~= mode_name(*mode));
    r
}

/// The character at column `x` of a bar `w` wide: the cursor text flush right wins
/// over the mode text flush left; blank elsewhere.
pub open spec fn bar_char(left: Seq<char>, right: Seq<char>, w: int, x: int) -> char {
    let d = w - x;
    if d <= right.len() && 0 <= right.len() - d < right.len() {
        right[right.len() - d]
    } else if x < left.len() {
        left[x]
    } else {
        ' '
    }
}

/// One cell per column, on row `h - y`; nothing where the screen is too short.
pub open spec fn status_row(left: Seq<char>, right: Seq<char>, y: int, w: int, h: int) -> Seq<Point<u16>> {
    if h < y {
        seq![]
    } else {
        Seq::new(
            w as nat,
            |x: int|
                Point {
                    x: x as u16,
                    y: (h - y) as u16,
                    character: bar_char(left, right, w, x),
                    foreground: Color::Empty,
                    background: Color::EmptyBackground,
                },
        )
    }
}

impl StatusBar {
    pub fn new(mode: &Mode, y_offset: u16, cursor: Vec2<u16>, width: u16, height: u16) -> (r: StatusBar)
        requires
            y_offset < u16::MAX,
        ensures
            r.mode_text@ == mode_name(*mode),
            r.cursor_text@ == position_text(cursor),
            r.y == y_offset + 1,
            r.width == width && r.height == height,
    {
        let mut cursor_text: Vec<char> = Vec::new();
        push_decimal(cursor.x, &mut cursor_text);
        cursor_text.push(':');
        push_decimal(cursor.y, &mut cursor_text);
        assert(cursor_text@ =~= position_text(cursor));
        StatusBar { mode_text: mode_text(mode), cursor_text, y: y_offset + 1, width, height }
    }
}

impl DrawSticky for StatusBar {
    /// One cell per column, on row `height - y`; nothing where the screen is too short.
    open spec fn drawn_sticky(&self) -> Seq<Point<u16>> {
        status_row(self.mode_text@, self.cursor_text@, self.y as int, self.width as int, self.height as int)
    }

    fn draw(&self) -> (r: Vec<Point<u16>>) {
        let mut row: Vec<Point<u16>> = Vec::new();
        if self.height < self.y {
            return row;
        }
        let n = self.cursor_text.len();
        let mut x: u16 = 0;
        while x < self.width
            invariant
                self.height >= self.y,
                n == self.cursor_text@.len(),
                x <= self.width,
                row@ == self.drawn_sticky().take(x as int),
            decreases self.width - x,
        {
            let d: usize = (self.width - x) as usize;
            let mut c = ' ';
            if (x as usize) < self.mode_text.len() {
                c = self.mode_text[x as usize];
            }
            if d <= n && n - d < n {
                c = self.cursor_text[n - d];
            }
            assert(c == bar_char(self.mode_text@, self.cursor_text@, self.width as int, x as int));
            row.push(Point { x, y: self.height - self.y, character: c, foreground: Color::Empty, background: Color::EmptyBackground });
            assert(row@.last() == self.drawn_sticky()[x as int]);
            x = x + 1;
            assert(row@ =~= self.drawn_sticky().take(x as int));
        }
        assert(row@ =~= self.drawn_sticky());
        row
    }
}

} // verus!
