use vstd::prelude::*;

use crate::arrow::Arrow;
use crate::cursor_guide::{guide_drawn, guide_points_prefix, CursorGuide};
use crate::debug_panel::{DebugPanel, DEBUG_PANEL_HEIGHT};
use crate::draw::{Color, Draw, DrawOverlay, DrawSticky, OverlayPoint, Point};
use crate::grid_background::{grid_dots, GridBackground};
use crate::intersections::{all_arrows, all_rects, all_tees, Intersections};
use crate::mode::{Anchor, Mode};
use crate::rectangle::drag_spec;
use crate::renderer::{recolor_all, stamp_all, widened, Renderer};
use crate::shape::Shape;
use crate::state::{canvas_pos, State};
use crate::status_bar::{mode_name, position_text, status_row, StatusBar};
use crate::vec2::Vec2;

verus! {

/// The grid after all points are stamped, in order.
pub open spec fn stamped(g: Seq<Seq<crate::renderer::Cell>>, pts: Seq<Point<i32>>, owner: Option<u32>) -> Seq<Seq<crate::renderer::Cell>> {
    stamp_all(g, pts, owner, pts.len() as int)
}

/// The first `k` committed shapes drawn in order, each tagged with its identifier;
/// a rectangle too close to the edge of the coordinate range is left out.
pub open spec fn shapes_layer(g: Seq<Seq<crate::renderer::Cell>>, shapes: Seq<Shape>, k: int) -> Seq<Seq<crate::renderer::Cell>>
    decreases k,
{
    if k <= 0 {
        g
    } else {
        let g1 = shapes_layer(g, shapes, k - 1);
        if shapes[k - 1].drawable() {
            stamped(g1, shapes[k - 1].drawn(), Some(shapes[k - 1].id()))
        } else {
            g1
        }
    }
}

/// The shape being edited drawn over the committed ones; a selection only tints.
pub open spec fn mode_layer(g: Seq<Seq<crate::renderer::Cell>>, mode: Mode) -> Seq<Seq<crate::renderer::Cell>> {
    match mode {
        Mode::DrawRectangle(r, _) => if r.drawable() { stamped(g, r.drawn(), Some(r.shape_id)) } else { g },
        Mode::Text(r) => if r.drawable() { stamped(g, r.drawn(), Some(r.shape_id)) } else { g },
        Mode::DrawArrow(a) => stamped(g, a.drawn(), Some(a.shape_id)),
        Mode::Select(s) => recolor_all(g, s.overlay().0, s.overlay().1, s.overlay().2, s.overlay().0.len() as int),
        Mode::Normal => g,
    }
}

pub open spec fn overlay_of(pts: Seq<Point<i32>>) -> Seq<OverlayPoint> {
    pts.map_values(|p: Point<i32>| OverlayPoint { x: p.x, y: p.y })
}

/// The cells of each of the first `k` committed shapes under the cursor.
pub open spec fn hover_prefix(shapes: Seq<Shape>, c: Vec2<i32>, k: int) -> Seq<OverlayPoint>
    decreases k,
{
    if k <= 0 {
        seq![]
    } else {
        hover_prefix(shapes, c, k - 1) + if !(shapes[k - 1].hit(c) is Outside) && shapes[k - 1].drawable() {
            overlay_of(shapes[k - 1].drawn())
        } else {
            seq![]
        }
    }
}

/// The committed shapes under the cursor, lit up.
pub struct Hover {
    pub points: Vec<OverlayPoint>,
}

impl Hover {
    pub fn new(shapes: &Vec<Shape>, cursor: Vec2<u16>) -> (r: Hover)
        ensures
            r.points@ == hover_prefix(shapes@, canvas_pos(cursor), shapes@.len() as int),
    {
        let c = Vec2 { x: cursor.x as i32, y: cursor.y as i32 };
        let mut points: Vec<OverlayPoint> = Vec::new();
        let mut i: usize = 0;
        while i < shapes.len()
            invariant
                c == canvas_pos(cursor),
                i <= shapes@.len(),
                points@ == hover_prefix(shapes@, c, i as int),
            decreases shapes.len() - i,
        {
            let shape = &shapes[i];
            let hit = shape.get_intersection(&c);
            let drawable = match shape {
                Shape::Rectangle(r) => r.fits_canvas(),
                Shape::Arrow(_) => true,
            };
            let touched = match hit {
                crate::draw::Intersection::Outside => false,
                _ => true,
            };
            if touched && drawable {
                let drawn = shape.draw();
                let ghost start = points@;
                let mut j: usize = 0;
                while j < drawn.len()
                    invariant
                        j <= drawn@.len(),
                        points@ == start + overlay_of(drawn@).take(j as int),
                    decreases drawn.len() - j,
                {
                    points.push(OverlayPoint { x: drawn[j].x, y: drawn[j].y });
                    j = j + 1;
                    assert(points@ =~= start + overlay_of(drawn@).take(j as int));
                }
                assert(overlay_of(drawn@).take(j as int) =~= overlay_of(drawn@));
            }
            i = i + 1;
        }
        Hover { points }
    }
}

impl DrawOverlay for Hover {
    open spec fn overlay(&self) -> (Seq<OverlayPoint>, Option<Color>, Option<Color>) {
        (self.points@, None, Some(Color::BorderBackgroundHover))
    }

    fn draw_overlay(&self) -> (r: (Vec<OverlayPoint>, Option<Color>, Option<Color>)) {
        let mut points: Vec<OverlayPoint> = Vec::new();
        let mut i: usize = 0;
        while i < self.points.len()
            invariant
                i <= self.points@.len(),
                points@ == self.points@.take(i as int),
            decreases self.points.len() - i,
        {
            points.push(self.points[i]);
            i = i + 1;
            assert(points@ =~= self.points@.take(i as int));
        }
        assert(points@ =~= self.points@);
        (points, None, Some(Color::BorderBackgroundHover))
    }
}

} // verus!

verus! {

/// The frame for a state: dots, status bar, debug panel when it is on, cursor guide,
/// committed shapes, the shape being edited, tees where arrows meet borders, and the
/// shapes under the cursor lit up, each layer over the one before.
pub open spec fn scene_grid(
    g0: Seq<Seq<crate::renderer::Cell>>,
    w: int,
    h: int,
    st: State,
    cursor: Vec2<u16>,
    panel: DebugPanel,
) -> Seq<Seq<crate::renderer::Cell>> {
    let c = canvas_pos(cursor);
    let n = st.shapes@.len() as int;
    let off = if st.debug_enabled { DEBUG_PANEL_HEIGHT as int } else { 0 };
    let g1 = stamped(g0, grid_dots(w, h), None);
    let g2 = stamped(g1, widened(status_row(mode_name(st.mode), position_text(cursor), off + 1, w, h)), None);
    let g3 = if st.debug_enabled { stamped(g2, widened(panel.drawn_sticky()), None) } else { g2 };
    let g4 = stamped(g3, guide_drawn(guide_points_prefix(st.shapes@, n), c), None);
    let g5 = shapes_layer(g4, st.shapes@, n);
    let g6 = mode_layer(g5, st.mode);
    let g7 = stamped(g6, all_tees(all_rects(st), all_arrows(st), all_arrows(st).len() as int), None);
    let hv = hover_prefix(st.shapes@, c, n);
    recolor_all(g7, hv, None, Some(Color::BorderBackgroundHover), hv.len() as int)
}

/// Draws one frame into the renderer, after the shape being edited has followed the cursor.
pub fn render_scene(renderer: &mut Renderer, state: &mut State, cursor: Vec2<u16>, panel: &DebugPanel)
    requires
        old(renderer).wf(),
    ensures
        crate::state::follows_cursor(*old(state), *final(state), cursor),
        final(renderer).wf(),
        final(renderer).current() == scene_grid(
            old(renderer).current(),
            old(renderer).width as int,
            old(renderer).height as int,
            *final(state),
            cursor,
            *panel,
        ),
        final(renderer).previous() == old(renderer).previous(),
        final(renderer).width == old(renderer).width,
        final(renderer).height == old(renderer).height,
        final(renderer).is_first_frame == old(renderer).is_first_frame,
{
    state.follow_cursor(cursor);
    let w = renderer.width;
    let h = renderer.height;
    renderer.render(GridBackground::new(w, h).draw(), None);
    let off: u16 = if state.debug_enabled { DEBUG_PANEL_HEIGHT } else { 0 };
    let bar = StatusBar::new(&state.mode, off, cursor, w, h);
    renderer.render_sticky(bar.draw());
    if state.debug_enabled {
        renderer.render_sticky(panel.draw());
    }
    let guide = CursorGuide::new(&state.shapes, cursor);
    renderer.render(guide.draw(), None);
    let ghost g4 = renderer.current();
    let n = state.shapes.len();
    let mut i: usize = 0;
    while i < n
        invariant
            n == state.shapes@.len(),
            i <= n,
            renderer.wf(),
            renderer.current() == shapes_layer(g4, state.shapes@, i as int),
            renderer.previous() == old(renderer).previous(),
            renderer.width == old(renderer).width,
            renderer.height == old(renderer).height,
            renderer.is_first_frame == old(renderer).is_first_frame,
        decreases n - i,
    {
        let shape = &state.shapes[i];
        let drawable = match shape {
            Shape::Rectangle(r) => r.fits_canvas(),
            Shape::Arrow(_) => true,
        };
        if drawable {
            renderer.render(shape.draw(), Some(shape.shape_id()));
        }
        i = i + 1;
    }
    match &state.mode {
        Mode::DrawRectangle(rect, _) => {
            if rect.fits_canvas() {
                renderer.render(rect.draw(), Some(rect.shape_id));
            }
        },
        Mode::Text(rect) => {
            if rect.fits_canvas() {
                renderer.render(rect.draw(), Some(rect.shape_id));
            }
        },
        Mode::DrawArrow(arrow) => {
            renderer.render(arrow.draw(), Some(arrow.shape_id));
        },
        Mode::Select(selection) => {
            renderer.render_overlay(selection);
        },
        Mode::Normal => {},
    }
    renderer.render(Intersections::new(state).draw(), None);
    let hover = Hover::new(&state.shapes, cursor);
    renderer.render_overlay(&hover);
}

} // verus!
