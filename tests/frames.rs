use traw::characters::{HORIZONTAL_BAR, INTERSECTION_RIGHT, VERTICAL_BAR};
use traw::cursor_guide::CursorGuide;
use traw::debug_panel::{debug, DebugPanel};
use traw::draw::{Color, Draw, DrawSticky, Point};
use traw::grid_background::GridBackground;
use traw::intersections::Intersections;
use traw::mode::{Mode, Selection};
use traw::arrow::Arrow;
use traw::rectangle::{Rectangle, Shrink};
use traw::renderer::Renderer;
use traw::scene::render_scene;
use traw::shape::Shape;
use traw::shape_id::ShapeIdStore;
use traw::state::State;
use traw::status_bar::StatusBar;
use traw::vec2::Vec2;
use traw::yank::selection_text;

fn pt(x: i32, y: i32, c: char) -> Point<i32> {
    Point { x, y, character: c, foreground: Color::Border, background: Color::BorderBackground }
}

#[test]
fn first_frame_writes_every_cell_then_identical_frame_writes_nothing() {
    let mut r = Renderer::new(4, 3);
    r.start_frame();
    r.render(vec![pt(1, 1, 'a')], Some(1));
    let first = r.finish_frame();
    assert_eq!(first.len(), 12);
    r.start_frame();
    r.render(vec![pt(1, 1, 'a')], Some(1));
    let second = r.finish_frame();
    assert!(second.is_empty());
}

#[test]
fn only_changed_cells_are_written() {
    let mut r = Renderer::new(4, 3);
    r.start_frame();
    r.render(vec![pt(1, 1, 'a')], Some(1));
    r.finish_frame();
    r.start_frame();
    r.render(vec![pt(2, 0, 'b')], Some(1));
    let writes = r.finish_frame();
    assert_eq!(writes.len(), 2);
    assert_eq!((writes[0].x, writes[0].y, writes[0].character), (1, 1, ' '));
    assert_eq!((writes[1].x, writes[1].y, writes[1].character), (2, 0, 'b'));
}

#[test]
fn points_off_the_grid_are_ignored_and_owners_are_kept() {
    let mut r = Renderer::new(2, 2);
    r.start_frame();
    r.render(vec![pt(-1, 0, 'x'), pt(5, 5, 'y'), pt(1, 0, 'z')], Some(9));
    assert_eq!(r.state[1][0].character, 'z');
    assert_eq!(r.state[1][0].shape_id, Some(9));
    r.render_sticky(vec![Point { x: 0, y: 1, character: 's', foreground: Color::Empty, background: Color::EmptyBackground }]);
    assert_eq!(r.state[0][1].character, 's');
    assert_eq!(r.state[0][1].shape_id, None);
}

#[test]
fn overlay_changes_only_colors() {
    let mut r = Renderer::new(3, 3);
    r.start_frame();
    r.render(vec![pt(1, 1, 'q')], Some(4));
    r.render_overlay(&Selection { x: 1, y: 1, width: 1, height: 1 });
    let cell = r.state[1][1];
    assert_eq!(cell.character, 'q');
    assert_eq!(cell.shape_id, Some(4));
    assert_eq!(cell.background, Color::BorderBackgroundHover);
    assert_eq!(cell.foreground, Color::Border);
}

#[test]
fn yank_copies_shape_characters_row_by_row() {
    let mut r = Renderer::new(4, 2);
    r.start_frame();
    r.render(vec![pt(0, 0, 'a'), pt(1, 0, 'b'), pt(1, 1, 'c')], Some(1));
    r.render(vec![pt(2, 1, 'z')], None);
    let text: String = selection_text(&r, &Selection { x: 0, y: 0, width: 3, height: 2 }).into_iter().collect();
    assert_eq!(text, "ab\nc\n");
}

#[test]
fn grid_background_places_staggered_dots() {
    let drawn = GridBackground::new(13, 7).draw();
    let positions: Vec<(i32, i32)> = drawn.iter().map(|p| (p.x, p.y)).collect();
    assert_eq!(positions, vec![(0, 0), (0, 6), (6, 3), (12, 0), (12, 6)]);
    assert!(drawn.iter().all(|p| p.character == '*' && p.foreground == Color::Grid));
}

#[test]
fn status_bar_shows_mode_and_cursor() {
    let bar = StatusBar::new(&Mode::Normal, 0, Vec2::new(5, 12), 12, 10);
    let row = bar.draw();
    let text: String = row.iter().map(|p| p.character).collect();
    assert_eq!(text, "Normal  5:12");
    assert!(row.iter().all(|p| p.y == 9));
}

#[test]
fn debug_panel_shows_newest_message_last() {
    let mut panel = DebugPanel { messages: vec![], width: 3, height: 25 };
    debug(&mut panel, vec!['o', 'n', 'e']);
    debug(&mut panel, vec!['t', 'w', 'o']);
    let points = panel.draw();
    assert_eq!(points.len(), 60);
    let last_row: String = points[57..].iter().map(|p| p.character).collect();
    let row_before: String = points[54..57].iter().map(|p| p.character).collect();
    assert_eq!(last_row, "two");
    assert_eq!(row_before, "one");
    assert_eq!(points[57].y, 24);
    assert_eq!(points[0].character, ' ');
}

#[test]
fn cursor_guide_runs_to_the_nearest_aligned_corner() {
    let shapes = vec![Shape::Rectangle(Rectangle {
        x: 5,
        y: 2,
        width: 3,
        height: 3,
        text: vec![],
        shape_id: 1,
        shrink: Shrink::Unchanged,
    })];
    let guide = CursorGuide::new(&shapes, Vec2::new(1, 2));
    let drawn = guide.draw();
    let cells: Vec<(i32, i32, char)> = drawn.iter().map(|p| (p.x, p.y, p.character)).collect();
    assert_eq!(cells, vec![(2, 2, HORIZONTAL_BAR), (3, 2, HORIZONTAL_BAR), (4, 2, HORIZONTAL_BAR)]);
    let vertical = CursorGuide::new(&shapes, Vec2::new(5, 7)).draw();
    let cells: Vec<(i32, i32, char)> = vertical.iter().map(|p| (p.x, p.y, p.character)).collect();
    assert_eq!(cells, vec![(5, 5, VERTICAL_BAR), (5, 6, VERTICAL_BAR)]);
}

#[test]
fn arrow_ending_on_a_border_gets_a_tee() {
    let mut state = State::init();
    state.add_shape(Shape::Rectangle(Rectangle {
        x: 0,
        y: 0,
        width: 4,
        height: 4,
        text: vec![],
        shape_id: 1,
        shrink: Shrink::Unchanged,
    }));
    let mut ids = ShapeIdStore::new();
    let mut arrow = Arrow::init(&mut ids);
    arrow.points = vec![Vec2::new(3, 1), Vec2::new(4, 1), Vec2::new(5, 1)];
    state.add_shape(Shape::Arrow(arrow));
    let tees = Intersections::new(&state).draw();
    assert_eq!(tees.len(), 1);
    assert_eq!((tees[0].x, tees[0].y, tees[0].character), (3, 1, INTERSECTION_RIGHT));
}

#[test]
fn scene_tags_shapes_with_their_ids_and_lights_the_hovered_one() {
    let mut state = State::init();
    state.add_shape(Shape::Rectangle(Rectangle {
        x: 1,
        y: 1,
        width: 3,
        height: 3,
        text: vec![],
        shape_id: 42,
        shrink: Shrink::Unchanged,
    }));
    let panel = DebugPanel { messages: vec![], width: 10, height: 8 };
    let mut r = Renderer::new(10, 8);
    r.start_frame();
    render_scene(&mut r, &mut state, Vec2::new(2, 2), &panel);
    assert_eq!(r.state[1][1].character, '╭');
    assert_eq!(r.state[1][1].shape_id, Some(42));
    assert_eq!(r.state[2][2].background, Color::BorderBackgroundHover);
    assert_eq!(r.state[0][0].character, '*');
    assert_eq!(r.state[0][0].shape_id, None);
    let status: String = (0..10).map(|x| r.state[x][7].character).collect();
    assert_eq!(status, "Normal 2:2");
}

#[test]
fn colors_have_fixed_rgb_values() {
    assert_eq!(Color::Grid.rgb(), (100, 100, 40));
    assert_eq!(Color::Guide.rgb(), (120, 20, 20));
    assert_eq!(Color::BorderBackgroundHover.rgb(), (70, 70, 70));
}
