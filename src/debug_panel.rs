use vstd::prelude::*;

use crate::draw::{Color, DrawSticky, Point};

verus! {

pub const DEBUG_PANEL_HEIGHT: u16 = 20;

/// The last messages of a log, one per row, at the bottom of the screen.
pub struct DebugPanel {
    pub messages: Vec<Vec<char>>,
    pub width: u16,
    pub height: u16,
}

/// Adds a message to the log.
pub fn debug(panel: &mut DebugPanel, message: Vec<char>)
    ensures
        final(panel).messages@ == old(panel).messages@.push(message),
        final(panel).width == old(panel).width,
        final(panel).height == old(panel).height,
{
    panel.messages.push(message);
}

impl DebugPanel {
    /// The message on row `y` of the panel: the newest one on the last row, older ones
    /// above, and none where the log is shorter than the panel.
    pub open spec fn message_line(&self, y: int) -> Seq<char> {
        let n = self.messages@.len() as int;
        let back = DEBUG_PANEL_HEIGHT as int - y;
        if n >= back {
            self.messages@[n - back]@
        } else {
            seq![]
        }
    }

    pub open spec fn char_at(&self, x: int, y: int) -> char {
        if x < self.message_line(y).len() {
            self.message_line(y)[x]
        } else {
            ' '
        }
    }

    pub open spec fn panel_row(&self, y: int) -> Seq<Point<u16>> {
        Seq::new(
            self.width as nat,
            |x: int|
                Point {
                    x: x as u16,
                    y: (self.height - DEBUG_PANEL_HEIGHT + y) as u16,
                    character: self.char_at(x, y),
                    foreground: Color::Debug,
                    background: Color::DebugBackground,
                },
        )
    }

    pub open spec fn panel_rows(&self, k: int) -> Seq<Point<u16>>
        decreases k,
    {
        if k <= 0 {
            seq![]
        } else {
            self.panel_rows(k - 1) + self.panel_row(k - 1)
        }
    }
}

impl DrawSticky for DebugPanel {
    /// The panel's rows, top to bottom, each as wide as the screen; nothing where the
    /// screen is shorter than the panel.
    open spec fn drawn_sticky(&self) -> Seq<Point<u16>> {
        if self.height < DEBUG_PANEL_HEIGHT {
            seq![]
        } else {
            self.panel_rows(DEBUG_PANEL_HEIGHT as int)
        }
    }

    fn draw(&self) -> (r: Vec<Point<u16>>) {
        let mut points: Vec<Point<u16>> = Vec::new();
        if self.height < DEBUG_PANEL_HEIGHT {
            return points;
        }
        let n = self.messages.len();
        let mut y: u16 = 0;
        while y < DEBUG_PANEL_HEIGHT
            invariant
                self.height >= DEBUG_PANEL_HEIGHT,
                n == self.messages@.len(),
                y <= DEBUG_PANEL_HEIGHT,
                points@ == self.panel_rows(y as int),
            decreases DEBUG_PANEL_HEIGHT - y,
        {
            let back = (DEBUG_PANEL_HEIGHT - y) as usize;
            let mut x: u16 = 0;
            while x < self.width
                invariant
                    self.height >= DEBUG_PANEL_HEIGHT,
                    y < DEBUG_PANEL_HEIGHT,
                    x <= self.width,
                    n == self.messages@.len(),
                    back as int == DEBUG_PANEL_HEIGHT - y,
                    points@ == self.panel_rows(y as int) + self.panel_row(y as int).take(x as int),
                decreases self.width - x,
            {
                let c = if n >= back && (x as usize) < self.messages[n - back].len() {
                    self.messages[n - back][x as usize]
                } else {
                    ' '
                };
                points.push(Point {
                    x,
                    y: self.height - DEBUG_PANEL_HEIGHT + y,
                    character: c,
                    foreground: Color::Debug,
                    background: Color::DebugBackground,
                });
                assert(points@.last() == self.panel_row(y as int)[x as int]);
                x = x + 1;
                assert(points@ =~= self.panel_rows(y as int) + self.panel_row(y as int).take(x as int));
            }
            assert(self.panel_row(y as int).take(x as int) =~= self.panel_row(y as int));
            y = y + 1;
        }
        points
    }
}

} // verus!
