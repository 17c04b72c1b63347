use traw::cursor::Cursor;
use traw::draw::Draw;
use traw::keys::{key_action, Action, Key};
use traw::mode::{Anchor, Mode, Selection};
use traw::rectangle::{Rectangle, Shrink};
use traw::shape::Shape;
use traw::state::State;
use traw::vec2::Vec2;

fn shrunk(text: Vec<char>) -> Rectangle {
    Rectangle { x: 1, y: 1, width: 3, height: 3, text, shape_id: 4, shrink: Shrink::Right }
}

#[test]
fn committed_rectangle_clears_no_strip() {
    let mut state = State::init();
    state.mode = Mode::DrawRectangle(shrunk(vec!['a']), Anchor::BottomRight);
    let mut cursor = Cursor::new(Vec2::new(3, 3));
    state.handle_enter(&mut cursor);
    match &state.shapes[0] {
        Shape::Rectangle(r) => {
            assert_eq!(r.shrink, Shrink::Unchanged);
            assert_eq!(r.draw().len(), 9);
        }
        _ => panic!("expected a rectangle"),
    }
}

#[test]
fn rectangle_entering_text_clears_no_strip() {
    let mut state = State::init();
    state.mode = Mode::DrawRectangle(shrunk(vec![]), Anchor::BottomRight);
    let mut cursor = Cursor::new(Vec2::new(3, 3));
    state.handle_enter(&mut cursor);
    match &state.mode {
        Mode::Text(r) => assert_eq!(r.shrink, Shrink::Unchanged),
        _ => panic!("expected text entry"),
    }
}

#[test]
fn loaded_rectangles_clear_no_strip() {
    let state = State::restored(vec![Shape::Rectangle(shrunk(vec![]))], Mode::Text(shrunk(vec!['t'])));
    match (&state.shapes[0], &state.mode) {
        (Shape::Rectangle(r), Mode::Text(t)) => {
            assert_eq!(r.shrink, Shrink::Unchanged);
            assert_eq!(t.shrink, Shrink::Unchanged);
        }
        _ => panic!("expected rectangles"),
    }
    assert_eq!(state.ids.current, 4);
}

#[test]
fn insert_without_identifiers_left_changes_nothing() {
    let mut state = State::init();
    state.ids.current = u32::MAX;
    let mut cursor = Cursor::new(Vec2::new(3, 3));
    state.handle_insert(&mut cursor);
    assert!(state.mode.is_normal());
    state.add_shape(Shape::Rectangle(Rectangle { x: 0, y: 0, width: 5, height: 5, text: vec![], shape_id: 1, shrink: Shrink::Unchanged }));
    let mut inside = Cursor::new(Vec2::new(2, 2));
    state.handle_insert(&mut inside);
    assert!(matches!(state.mode, Mode::Text(_)));
}

#[test]
fn key_bindings() {
    let normal = Mode::Normal;
    assert_eq!(key_action(&normal, Key::Char('q', false)), Action::Quit);
    assert_eq!(key_action(&normal, Key::Char('r', false)), Action::Drag);
    assert_eq!(key_action(&normal, Key::Char('r', true)), Action::Redo);
    assert_eq!(key_action(&normal, Key::Char('u', false)), Action::Undo);
    assert_eq!(key_action(&normal, Key::Char('w', false)), Action::Motion('w'));
    assert_eq!(key_action(&normal, Key::Enter), Action::Commit(false));
    let text = Mode::Text(shrunk(vec![]));
    assert_eq!(key_action(&text, Key::Char('q', false)), Action::Type('q'));
    assert_eq!(key_action(&text, Key::Backspace), Action::Erase);
    let select = Mode::Select(Selection { x: 0, y: 0, width: 1, height: 1 });
    assert_eq!(key_action(&select, Key::Char('y', false)), Action::CopyThenMotion('y'));
    assert_eq!(key_action(&select, Key::Char('l', false)), Action::Motion('l'));
    assert_eq!(key_action(&select, Key::Enter), Action::Commit(true));
    assert_eq!(key_action(&select, Key::Other), Action::Ignore);
}
