use traw::arrow::Arrow;
use traw::cursor::Cursor;
use traw::draw::{EdgeIntersection, Intersection};
use traw::mode::{Anchor, Mode, Selection};
use traw::rectangle::{Rectangle, Shrink};
use traw::shape::Shape;
use traw::shape_id::{generate_shape_id, ShapeIdStore};
use traw::state::State;
use traw::vec2::Vec2;

fn boxed(x: i32, y: i32, w: i32, h: i32, id: u32) -> Shape {
    Shape::Rectangle(Rectangle { x, y, width: w, height: h, text: vec!['t'], shape_id: id, shrink: Shrink::Unchanged })
}

fn selection_of(state: &State) -> Option<Selection> {
    match &state.mode {
        Mode::Select(s) => Some(*s),
        _ => None,
    }
}

fn ids_of(state: &State) -> Vec<u32> {
    state.shapes.iter().map(|s| s.shape_id()).collect()
}

#[test]
fn undo_then_redo_of_an_added_shape() {
    let mut state = State::init();
    state.add_shape(boxed(0, 0, 3, 3, 10));
    state.add_shape(boxed(5, 5, 3, 3, 11));
    let before = ids_of(&state);
    state.add_shape(boxed(9, 9, 3, 3, 12));
    state.undo();
    assert_eq!(ids_of(&state), before);
    state.undo();
    state.undo();
    assert!(state.shapes.is_empty());
    state.redo();
    state.redo();
    state.redo();
    assert_eq!(ids_of(&state), vec![10, 11, 12]);
}

#[test]
fn undo_and_redo_on_empty_logs_change_nothing() {
    let mut state = State::init();
    state.undo();
    state.redo();
    assert!(state.shapes.is_empty());
}

#[test]
fn delete_under_cursor_and_undo_brings_it_back() {
    let mut state = State::init();
    state.add_shape(boxed(0, 0, 4, 4, 1));
    state.add_shape(boxed(10, 0, 4, 4, 2));
    state.handle_delete(Vec2::new(11, 1));
    assert_eq!(ids_of(&state), vec![1]);
    state.handle_delete(Vec2::new(30, 30));
    assert_eq!(ids_of(&state), vec![1]);
    state.undo();
    assert_eq!(ids_of(&state), vec![1, 2]);
}

#[test]
fn cursor_intersection_reports_first_hit_shape() {
    let mut state = State::init();
    state.add_shape(boxed(0, 0, 4, 4, 1));
    state.add_shape(boxed(2, 2, 4, 4, 2));
    let (hit, i) = state.get_cursor_intersection(Vec2::new(3, 3));
    assert_eq!(hit, Intersection::Edge(EdgeIntersection::Corner(Some(Anchor::BottomRight))));
    assert_eq!(i, 0);
    let (hit, i) = state.get_cursor_intersection(Vec2::new(4, 4));
    assert_eq!(hit, Intersection::Inner);
    assert_eq!(i, 1);
    assert_eq!(state.get_cursor_intersection(Vec2::new(40, 4)), (Intersection::Outside, 0));
}

#[test]
fn insert_draw_type_and_commit_a_rectangle() {
    let mut state = State::init();
    let mut cursor = Cursor::new(Vec2::new(3, 3));
    state.handle_insert(&mut cursor);
    match &state.mode {
        Mode::DrawRectangle(r, anchor) => {
            assert_eq!((r.x, r.y, r.width, r.height, r.shape_id), (3, 3, 1, 1, 1));
            assert_eq!(*anchor, Anchor::BottomRight);
        }
        _ => panic!("expected a rectangle being drawn"),
    }
    cursor.position = Vec2::new(7, 6);
    state.follow_cursor(cursor.position);
    state.handle_enter(&mut cursor);
    assert!(matches!(state.mode, Mode::Text(_)));
    assert_eq!(cursor.position, Vec2::new(4, 4));
    state.handle_char('o', &mut cursor);
    state.handle_char('k', &mut cursor);
    state.handle_char('!', &mut cursor);
    state.handle_backspace(&mut cursor);
    assert_eq!(cursor.position, Vec2::new(6, 4));
    state.handle_enter(&mut cursor);
    assert!(state.mode.is_normal());
    assert_eq!(state.shapes.len(), 1);
    match &state.shapes[0] {
        Shape::Rectangle(r) => {
            assert_eq!((r.x, r.y, r.width, r.height), (3, 3, 5, 4));
            assert_eq!(r.text, vec!['o', 'k']);
        }
        _ => panic!("expected a rectangle"),
    }
    state.undo();
    assert!(state.shapes.is_empty());
}

#[test]
fn insert_inside_a_rectangle_edits_its_text() {
    let mut state = State::init();
    state.add_shape(boxed(0, 0, 5, 4, 7));
    let mut cursor = Cursor::new(Vec2::new(2, 2));
    state.handle_insert(&mut cursor);
    assert!(state.shapes.is_empty());
    match &state.mode {
        Mode::Text(r) => assert_eq!(r.shape_id, 7),
        _ => panic!("expected text mode"),
    }
    assert_eq!(cursor.position, Vec2::new(2, 1));
}

#[test]
fn insert_on_a_border_starts_an_arrow_and_commits_it() {
    let mut state = State::init();
    state.add_shape(boxed(0, 0, 5, 4, 7));
    let mut cursor = Cursor::new(Vec2::new(2, 0));
    state.handle_insert(&mut cursor);
    assert_eq!(state.shapes.len(), 1);
    match &state.mode {
        Mode::DrawArrow(a) => assert!(a.points.is_empty()),
        _ => panic!("expected an arrow"),
    }
    state.follow_cursor(Vec2::new(2, 0));
    state.follow_cursor(Vec2::new(3, 0));
    state.handle_enter(&mut cursor);
    assert_eq!(state.shapes.len(), 2);
    assert!(state.mode.is_normal());
}

#[test]
fn insert_on_an_arrow_reopens_it() {
    let mut state = State::init();
    let mut ids = ShapeIdStore::new();
    let mut arrow = Arrow::init(&mut ids);
    arrow.points = vec![Vec2::new(1, 1), Vec2::new(2, 1)];
    state.add_shape(Shape::Arrow(arrow));
    let mut cursor = Cursor::new(Vec2::new(2, 1));
    state.handle_insert(&mut cursor);
    assert!(state.shapes.is_empty());
    match &state.mode {
        Mode::DrawArrow(a) => assert_eq!(a.points.len(), 2),
        _ => panic!("expected the arrow to be reopened"),
    }
}

#[test]
fn drag_a_corner_takes_the_rectangle_out() {
    let mut state = State::init();
    state.add_shape(boxed(0, 0, 5, 4, 7));
    state.handle_drag(Vec2::new(2, 2));
    assert_eq!(state.shapes.len(), 1);
    state.handle_drag(Vec2::new(4, 3));
    assert!(state.shapes.is_empty());
    match &state.mode {
        Mode::DrawRectangle(r, anchor) => {
            assert_eq!(r.shape_id, 7);
            assert_eq!(*anchor, Anchor::BottomRight);
        }
        _ => panic!("expected a resize"),
    }
}

#[test]
fn select_grows_and_enter_leaves_it() {
    let mut state = State::init();
    state.handle_select(Vec2::new(2, 3));
    assert_eq!(selection_of(&state), Some(Selection { x: 2, y: 3, width: 1, height: 1 }));
    state.follow_cursor(Vec2::new(5, 4));
    assert_eq!(selection_of(&state), Some(Selection { x: 2, y: 3, width: 4, height: 2 }));
    let mut cursor = Cursor::new(Vec2::new(5, 4));
    state.handle_enter(&mut cursor);
    assert!(state.mode.is_normal());
}

#[test]
fn shape_ids_increase() {
    let mut ids = ShapeIdStore::new();
    assert_eq!(generate_shape_id(&mut ids), 1);
    assert_eq!(generate_shape_id(&mut ids), 2);
    let r = Rectangle::new_at(0, 0, &mut ids);
    assert_eq!(r.shape_id, 3);
}
