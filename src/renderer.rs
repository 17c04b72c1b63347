use vstd::prelude::*;

use crate::draw::{Color, DrawOverlay, OverlayPoint, Point};

verus! {

/// What one screen position shows, and the shape that put it there.
#[derive(Clone, Copy, Debug, PartialEq, Eq, Structural)]
pub struct Cell {
    pub character: char,
    pub shape_id: Option<u32>,
    pub foreground: Color,
    pub background: Color,
}

/// One terminal write: move to (x, y), set the colors, print the character.
#[derive(Clone, Copy, Debug, PartialEq, Eq, Structural)]
pub struct CellWrite {
    pub x: u16,
    pub y: u16,
    pub character: char,
    pub foreground: Color,
    pub background: Color,
}

/// Two grids, indexed by column and then row: the frame being built and the one
/// on screen. Only cells that differ between them are written out.
#[derive(Debug)]
pub struct Renderer {
    pub state: Vec<Vec<Cell>>,
    pub prev_state: Vec<Vec<Cell>>,
    pub width: u16,
    pub height: u16,
    pub is_first_frame: bool,
}

pub open spec fn blank_cell() -> Cell {
    Cell { character: ' ', shape_id: None, foreground: Color::Empty, background: Color::EmptyBackground }
}

pub open spec fn blank_grid(w: int, h: int) -> Seq<Seq<Cell>> {
    Seq::new(w as nat, |i: int| Seq::new(h as nat, |j: int| blank_cell()))
}

pub open spec fn is_grid(g: Seq<Seq<Cell>>, w: int, h: int) -> bool {
    g.len() == w && forall|i: int| 0 <= i < w ==> #[trigger] g[i].len() == h
}

pub open spec fn grid_of(v: Seq<Vec<Cell>>) -> Seq<Seq<Cell>> {
    v.map_values(|col: Vec<Cell>| col@)
}

pub open spec fn in_grid(g: Seq<Seq<Cell>>, x: int, y: int) -> bool {
    0 <= x < g.len() && 0 <= y < g[x].len()
}

/// The grid after one point is stamped; a point off the grid changes nothing.
pub open spec fn stamp(g: Seq<Seq<Cell>>, p: Point<i32>, owner: Option<u32>) -> Seq<Seq<Cell>> {
    if in_grid(g, p.x as int, p.y as int) {
        g.update(
            p.x as int,
            g[p.x as int].update(
                p.y as int,
                Cell { character: p.character, shape_id: owner, foreground: p.foreground, background: p.background },
            ),
        )
    } else {
        g
    }
}

/// The grid after the first `k` points are stamped, in order.
pub open spec fn stamp_all(g: Seq<Seq<Cell>>, pts: Seq<Point<i32>>, owner: Option<u32>, k: int) -> Seq<Seq<Cell>>
    decreases k,
{
    if k <= 0 {
        g
    } else {
        stamp(stamp_all(g, pts, owner, k - 1), pts[k - 1], owner)
    }
}

pub open spec fn widened(pts: Seq<Point<u16>>) -> Seq<Point<i32>> {
    pts.map_values(|p: Point<u16>| Point { x: p.x as i32, y: p.y as i32, character: p.character, foreground: p.foreground, background: p.background })
}

/// The grid after the colors of one position are changed; characters and owners stay.
pub open spec fn recolor(g: Seq<Seq<Cell>>, p: OverlayPoint, fg: Option<Color>, bg: Option<Color>) -> Seq<Seq<Cell>> {
    if in_grid(g, p.x as int, p.y as int) {
        let c = g[p.x as int][p.y as int];
        let c1 = Cell {
            foreground: match fg { Some(f) => f, None => c.foreground },
            background: match bg { Some(b) => b, None => c.background },
            ..c
        };
        g.update(p.x as int, g[p.x as int].update(p.y as int, c1))
    } else {
        g
    }
}

pub open spec fn recolor_all(g: Seq<Seq<Cell>>, pts: Seq<OverlayPoint>, fg: Option<Color>, bg: Option<Color>, k: int) -> Seq<Seq<Cell>>
    decreases k,
{
    if k <= 0 {
        g
    } else {
        recolor(recolor_all(g, pts, fg, bg, k - 1), pts[k - 1], fg, bg)
    }
}

/// A cell is written when it looks different from the cell on screen, or on the first frame.
pub open spec fn changed(cur: Seq<Seq<Cell>>, prev: Seq<Seq<Cell>>, first: bool, x: int, y: int) -> bool {
    first || cur[x][y].character != prev[x][y].character || cur[x][y].foreground != prev[x][y].foreground
        || cur[x][y].background != prev[x][y].background
}

pub open spec fn write_of(cur: Seq<Seq<Cell>>, x: int, y: int) -> CellWrite {
    CellWrite {
        x: x as u16,
        y: y as u16,
        character: cur[x][y].character,
        foreground: cur[x][y].foreground,
        background: cur[x][y].background,
    }
}

/// The writes for the first `n` cells of column `x`, top to bottom.
pub open spec fn column_writes(cur: Seq<Seq<Cell>>, prev: Seq<Seq<Cell>>, first: bool, x: int, n: int) -> Seq<CellWrite>
    decreases n,
{
    if n <= 0 {
        seq![]
    } else {
        column_writes(cur, prev, first, x, n - 1) + if changed(cur, prev, first, x, n - 1) {
            seq![write_of(cur, x, n - 1)]
        } else {
            seq![]
        }
    }
}

/// The writes for the first `m` columns, left to right.
pub open spec fn grid_writes(cur: Seq<Seq<Cell>>, prev: Seq<Seq<Cell>>, first: bool, m: int) -> Seq<CellWrite>
    decreases m,
{
    if m <= 0 {
        seq![]
    } else {
        grid_writes(cur, prev, first, m - 1) + column_writes(cur, prev, first, m - 1, cur[m - 1].len() as int)
    }
}

pub open spec fn diff_writes(cur: Seq<Seq<Cell>>, prev: Seq<Seq<Cell>>, first: bool) -> Seq<CellWrite> {
    grid_writes(cur, prev, first, cur.len() as int)
}

proof fn lemma_same_column_no_writes(g: Seq<Seq<Cell>>, x: int, n: int)
    requires
        0 <= x < g.len(),
        n <= g[x].len(),
    ensures
        column_writes(g, g, false, x, n).len() == 0,
    decreases n,
{
    if n > 0 {
        lemma_same_column_no_writes(g, x, n - 1);
    }
}

proof fn lemma_same_grid_no_writes(g: Seq<Seq<Cell>>, m: int)
    requires
        m <= g.len(),
    ensures
        grid_writes(g, g, false, m).len() == 0,
    decreases m,
{
    if m > 0 {
        lemma_same_grid_no_writes(g, m - 1);
        lemma_same_column_no_writes(g, m - 1, g[m - 1].len() as int);
    }
}

/// After the first frame, a frame that shows the same grid as the one on screen
/// writes nothing.
pub proof fn lemma_identical_frame_writes_nothing(g: Seq<Seq<Cell>>)
    ensures
        diff_writes(g, g, false).len() == 0,
{
    lemma_same_grid_no_writes(g, g.len() as int);
}

fn blank_grid_exec(w: u16, h: u16) -> (r: Vec<Vec<Cell>>)
    ensures
        grid_of(r@) == blank_grid(w as int, h as int),
{
    let mut grid: Vec<Vec<Cell>> = Vec::new();
    let mut x: u16 = 0;
    while x < w
        invariant
            x <= w,
            grid@.len() == x,
            grid_of(grid@) == blank_grid(x as int, h as int),
        decreases w - x,
    {
        let mut col: Vec<Cell> = Vec::new();
        let mut y: u16 = 0;
        while y < h
            invariant
                y <= h,
                col@ == Seq::new(y as nat, |j: int| blank_cell()),
            decreases h - y,
        {
            col.push(Cell { character: ' ', shape_id: None, foreground: Color::Empty, background: Color::EmptyBackground });
            y = y + 1;
            assert(col@ =~= Seq::new(y as nat, |j: int| blank_cell()));
        }
        assert(col@ =~= Seq::new(h as nat, |j: int| blank_cell()));
        let ghost g0 = grid@;
        grid.push(col);
        proof {
            assert forall|i: int| 0 <= i < x + 1 implies #[trigger] grid_of(grid@)[i] == blank_grid(
                x + 1,
                h as int,
            )[i] by {
                if i < x {
                    assert(grid@[i] == g0[i]);
                    assert(grid_of(g0)[i] == blank_grid(x as int, h as int)[i]);
                }
            }
        }
        x = x + 1;
        assert(grid_of(grid@) =~= blank_grid(x as int, h as int));
    }
    grid
}

impl Renderer {
    pub open spec fn current(&self) -> Seq<Seq<Cell>> {
        grid_of(self.state@)
    }

    pub open spec fn previous(&self) -> Seq<Seq<Cell>> {
        grid_of(self.prev_state@)
    }

    /// Both grids are empty before the first frame, and are full grids of the
    /// screen's size from then on.
    pub open spec fn wf(&self) -> bool {
        (self.current().len() == 0 && self.previous().len() == 0) || (is_grid(
            self.current(),
            self.width as int,
            self.height as int,
        ) && is_grid(self.previous(), self.width as int, self.height as int))
    }

    pub fn new(width: u16, height: u16) -> (r: Renderer)
        ensures
            r.wf(),
            r.width == width && r.height == height,
            r.is_first_frame,
            r.current().len() == 0 && r.previous().len() == 0,
    {
        let r = Renderer { state: Vec::new(), prev_state: Vec::new(), width, height, is_first_frame: true };
        assert(r.current() =~= Seq::<Seq<Cell>>::empty());
        assert(r.previous() =~= Seq::<Seq<Cell>>::empty());
        r
    }

    /// Starts a blank frame; the frame before it becomes the one to compare against.
    pub fn start_frame(&mut self)
        requires
            old(self).wf(),
        ensures
            final(self).wf(),
            final(self).current() == blank_grid(old(self).width as int, old(self).height as int),
            final(self).previous() == (if old(self).previous().len() == 0 {
                blank_grid(old(self).width as int, old(self).height as int)
            } else {
                old(self).current()
            }),
            final(self).width == old(self).width,
            final(self).height == old(self).height,
            final(self).is_first_frame == old(self).is_first_frame,
    {
        let empty = blank_grid_exec(self.width, self.height);
        if self.prev_state.len() == 0 {
            self.prev_state = blank_grid_exec(self.width, self.height);
        } else {
            core::mem::swap(&mut self.prev_state, &mut self.state);
        }
        self.state = empty;
        proof {
            let g = blank_grid(self.width as int, self.height as int);
            assert(is_grid(g, self.width as int, self.height as int));
            if old(self).previous().len() == 0 {
                assert(grid_of(old(self).prev_state@).len() == old(self).prev_state@.len());
            }
        }
    }

    fn draw_at(&mut self, point: Point<i32>, shape_id: Option<u32>)
        requires
            old(self).wf(),
        ensures
            final(self).wf(),
            final(self).current() == stamp(old(self).current(), point, shape_id),
            final(self).previous() == old(self).previous(),
            final(self).width == old(self).width,
            final(self).height == old(self).height,
            final(self).is_first_frame == old(self).is_first_frame,
    {
        if point.x >= 0 && point.y >= 0 && (point.x as u64) < self.state.len() as u64 {
            let x = point.x as usize;
            if (point.y as u64) < self.state[x].len() as u64 {
                let y = point.y as usize;
                self.state[x][y] = Cell {
                    character: point.character,
                    foreground: point.foreground,
                    background: point.background,
                    shape_id,
                };
                assert(self.current() =~= stamp(old(self).current(), point, shape_id));
            }
        }
    }

    /// Stamps the points into the frame in order, each tagged with `shape_id`.
    pub fn render(&mut self, points: Vec<Point<i32>>, shape_id: Option<u32>)
        requires
            old(self).wf(),
        ensures
            final(self).wf(),
            final(self).current() == stamp_all(old(self).current(), points@, shape_id, points@.len() as int),
            final(self).previous() == old(self).previous(),
            final(self).width == old(self).width,
            final(self).height == old(self).height,
            final(self).is_first_frame == old(self).is_first_frame,
    {
        let mut i: usize = 0;
        while i < points.len()
            invariant
                self.wf(),
                i <= points@.len(),
                self.current() == stamp_all(old(self).current(), points@, shape_id, i as int),
                self.previous() == old(self).previous(),
                self.width == old(self).width,
                self.height == old(self).height,
                self.is_first_frame == old(self).is_first_frame,
            decreases points.len() - i,
        {
            self.draw_at(points[i], shape_id);
            i = i + 1;
        }
    }

    /// Stamps points given in screen coordinates, owned by no shape.
    pub fn render_sticky(&mut self, points: Vec<Point<u16>>)
        requires
            old(self).wf(),
        ensures
            final(self).wf(),
            final(self).current() == stamp_all(old(self).current(), widened(points@), None, points@.len() as int),
            final(self).previous() == old(self).previous(),
            final(self).width == old(self).width,
            final(self).height == old(self).height,
            final(self).is_first_frame == old(self).is_first_frame,
    {
        let mut i: usize = 0;
        while i < points.len()
            invariant
                self.wf(),
                i <= points@.len(),
                self.current() == stamp_all(old(self).current(), widened(points@), None, i as int),
                self.previous() == old(self).previous(),
                self.width == old(self).width,
                self.height == old(self).height,
                self.is_first_frame == old(self).is_first_frame,
            decreases points.len() - i,
        {
            let p = crate::draw::widen_point(points[i]);
            assert(p == widened(points@)[i as int]);
            self.draw_at(p, None);
            i = i + 1;
        }
    }

    fn recolor_at(&mut self, p: OverlayPoint, fg: Option<Color>, bg: Option<Color>)
        requires
            old(self).wf(),
        ensures
            final(self).wf(),
            final(self).current() == recolor(old(self).current(), p, fg, bg),
            final(self).previous() == old(self).previous(),
            final(self).width == old(self).width,
            final(self).height == old(self).height,
            final(self).is_first_frame == old(self).is_first_frame,
    {
        if p.x >= 0 && p.y >= 0 && (p.x as u64) < self.state.len() as u64 {
            let x = p.x as usize;
            if (p.y as u64) < self.state[x].len() as u64 {
                let y = p.y as usize;
                let mut c = self.state[x][y];
                if let Some(f) = fg {
                    c.foreground = f;
                }
                if let Some(b) = bg {
                    c.background = b;
                }
                self.state[x][y] = c;
                assert(self.current() =~= recolor(old(self).current(), p, fg, bg));
            }
        }
    }

    /// Changes only the colors of cells already in the frame.
    pub fn render_overlay<O: DrawOverlay>(&mut self, overlay: &O)
        requires
            old(self).wf(),
        ensures
            final(self).wf(),
            final(self).current() == recolor_all(
                old(self).current(),
                overlay.overlay().0,
                overlay.overlay().1,
                overlay.overlay().2,
                overlay.overlay().0.len() as int,
            ),
            final(self).previous() == old(self).previous(),
            final(self).width == old(self).width,
            final(self).height == old(self).height,
            final(self).is_first_frame == old(self).is_first_frame,
    {
        let (points, foreground, background) = overlay.draw_overlay();
        let mut i: usize = 0;
        while i < points.len()
            invariant
                self.wf(),
                i <= points@.len(),
                points@ == overlay.overlay().0,
                foreground == overlay.overlay().1,
                background == overlay.overlay().2,
                self.current() == recolor_all(old(self).current(), points@, foreground, background, i as int),
                self.previous() == old(self).previous(),
                self.width == old(self).width,
                self.height == old(self).height,
                self.is_first_frame == old(self).is_first_frame,
            decreases points.len() - i,
        {
            self.recolor_at(points[i], foreground, background);
            i = i + 1;
        }
    }

    /// The writes that bring the screen from the previous frame to this one: each
    /// changed cell once, column by column, every cell on the first frame. After it,
    /// no frame is the first.
    pub fn finish_frame(&mut self) -> (writes: Vec<CellWrite>)
        requires
            old(self).wf(),
        ensures
            final(self).wf(),
            writes@ == diff_writes(old(self).current(), old(self).previous(), old(self).is_first_frame),
            final(self).current() == old(self).current(),
            final(self).previous() == old(self).previous(),
            final(self).width == old(self).width,
            final(self).height == old(self).height,
            !final(self).is_first_frame,
    {
        let ghost cur = self.current();
        let ghost prev = self.previous();
        let first = self.is_first_frame;
        let mut writes: Vec<CellWrite> = Vec::new();
        let mut x: usize = 0;
        while x < self.state.len()
            invariant
                self.wf(),
                cur == self.current(),
                prev == self.previous(),
                first == self.is_first_frame,
                x <= cur.len(),
                writes@ == grid_writes(cur, prev, first, x as int),
            decreases self.state.len() - x,
        {
            let mut y: usize = 0;
            assert(cur[x as int] == self.state@[x as int]@);
            while y < self.state[x].len()
                invariant
                    self.wf(),
                    cur == self.current(),
                    prev == self.previous(),
                    first == self.is_first_frame,
                    x < cur.len(),
                    y <= cur[x as int].len(),
                    cur[x as int] == self.state@[x as int]@,
                    writes@ == grid_writes(cur, prev, first, x as int) + column_writes(cur, prev, first, x as int, y as int),
                decreases self.state[x as int]@.len() - y,
            {
                assert(prev[x as int] == self.prev_state@[x as int]@);
                let point = self.state[x][y];
                let before = self.prev_state[x][y];
                if first || point.character != before.character || point.foreground != before.foreground
                    || point.background != before.background {
                    writes.push(CellWrite {
                        x: x as u16,
                        y: y as u16,
                        character: point.character,
                        foreground: point.foreground,
                        background: point.background,
                    });
                }
                y = y + 1;
                assert(writes@ =~= grid_writes(cur, prev, first, x as int) + column_writes(cur, prev, first, x as int, y as int));
            }
            x = x + 1;
        }
        self.is_first_frame = false;
        writes
    }
}

} // verus!
