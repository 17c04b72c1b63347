use traw::cursor::Cursor;
use traw::mode::Mode;
use traw::motion_state::{get_next_word_end, get_next_word_start, get_previous_word_start, MotionState};
use traw::renderer::Renderer;
use traw::vec2::Vec2;

#[test]
fn should_get_next_in_row() {
    let current_position = Vec2::new(0, 0);
    let points = vec![(current_position.clone(), None), (Vec2::new(1, 0), Some(1))];
    let result = get_next_word_start(current_position, points);
    assert!(result.is_some());
    assert!(result.as_ref().unwrap().x == 1);
    assert!(result.unwrap().y == 0);
}

#[test]
fn should_get_next_shape_id() {
    let current_position = Vec2::new(0, 0);
    let points = vec![
        (current_position.clone(), Some(0)),
        (Vec2::new(1, 0), Some(0)),
        (Vec2::new(2, 0), Some(1)),
    ];
    let result = get_next_word_start(current_position, points);
    assert!(result.is_some());
    assert!(result.as_ref().unwrap().x == 2);
    assert!(result.unwrap().y == 0);
}

#[test]
fn should_get_next_row_if_none_in_row() {
    let current_position = Vec2::new(0, 0);
    let points = vec![
        (current_position.clone(), Some(0)),
        (Vec2::new(1, 0), Some(0)),
        (Vec2::new(0, 1), Some(1)),
    ];
    let result = get_next_word_start(current_position, points);
    assert!(result.is_some());
    assert!(result.as_ref().unwrap().x == 0);
    assert!(result.unwrap().y == 1);
}

#[test]
fn motion_state_should_search_by_row() {
    let current_position = Vec2::new(0, 0);
    let points = vec![
        (current_position.clone(), Some(0)),
        (Vec2::new(0, 1), Some(1)),
        (Vec2::new(1, 0), Some(1)),
    ];
    let result = get_next_word_start(current_position, points);
    assert!(result.is_some());
    assert!(result.as_ref().unwrap().x == 1, "Expected {} to equal 1", result.as_ref().unwrap().x);
    assert!(result.unwrap().y == 0);

    let current_position = Vec2::new(2, 1);
    let points = vec![
        (Vec2::new(0, 0), None),
        (Vec2::new(1, 0), None),
        (Vec2::new(2, 0), Some(1)),
        (Vec2::new(0, 1), None),
        (Vec2::new(1, 1), Some(1)),
        (current_position.clone(), Some(1)),
    ];
    let result = get_previous_word_start(current_position, points);
    assert!(result.is_some());
    assert!(result.as_ref().unwrap().x == 1, "Expected {} to equal 1", result.as_ref().unwrap().x);
    assert!(result.unwrap().y == 1);
}

#[test]
fn motion_state_should_get_row_in_order() {
    let current_position = Vec2::new(0, 0);
    let points = vec![
        (current_position.clone(), Some(0)),
        (Vec2::new(2, 0), Some(2)),
        (Vec2::new(1, 0), Some(1)),
    ];
    let result = get_next_word_start(current_position, points);
    assert!(result.is_some());
    assert!(result.as_ref().unwrap().x == 1, "Expected {} to equal 1", result.as_ref().unwrap().x);
    assert!(result.unwrap().y == 0);

    let current_position = Vec2::new(2, 0);
    let points = vec![
        (Vec2::new(0, 0), Some(0)),
        (current_position.clone(), Some(2)),
        (Vec2::new(1, 0), Some(1)),
    ];
    let result = get_previous_word_start(current_position, points);
    assert!(result.is_some());
    assert!(result.as_ref().unwrap().x == 1, "Expected {} to equal 1", result.as_ref().unwrap().x);
    assert!(result.unwrap().y == 0);
}

#[test]
fn should_get_same_word_next_line() {
    let current_position = Vec2::new(0, 0);
    let points = vec![
        (current_position.clone(), Some(0)),
        (Vec2::new(1, 0), None),
        (Vec2::new(0, 1), Some(0)),
    ];
    let result = get_next_word_start(current_position, points);
    assert!(result.is_some());
    assert!(result.as_ref().unwrap().x == 0, "Expected {} to equal 0", result.as_ref().unwrap().x);
    assert!(result.unwrap().y == 1);
}

#[test]
fn should_get_prev_in_row() {
    let current_position = Vec2::new(1, 0);
    let points = vec![(Vec2::new(0, 0), Some(1)), (current_position.clone(), None)];
    let result = get_previous_word_start(current_position, points);
    assert!(result.is_some());
    assert!(result.as_ref().unwrap().x == 0);
    assert!(result.unwrap().y == 0);
}

#[test]
fn should_go_to_beginning_of_previous() {
    let current_position = Vec2::new(2, 0);
    let points = vec![
        (Vec2::new(0, 0), Some(1)),
        (Vec2::new(1, 0), Some(1)),
        (current_position.clone(), None),
    ];
    let result = get_previous_word_start(current_position, points);
    assert!(result.is_some());
    assert!(result.as_ref().unwrap().x == 0);
    assert!(result.unwrap().y == 0);
}

#[test]
fn should_get_prev_row_if_none_in_row() {
    let current_position = Vec2::new(1, 1);
    let points = vec![
        (Vec2::new(0, 0), Some(0)),
        (Vec2::new(1, 0), Some(0)),
        (Vec2::new(0, 1), None),
        (current_position.clone(), Some(1)),
    ];
    let result = get_previous_word_start(current_position, points);
    assert!(result.is_some());
    assert!(result.as_ref().unwrap().x == 0);
    assert!(result.unwrap().y == 0);
}

#[test]
fn should_get_end_of_next_word() {
    let current_position = Vec2::new(0, 0);
    let points = vec![
        (current_position.clone(), Some(0)),
        (Vec2::new(1, 0), Some(1)),
        (Vec2::new(2, 0), Some(1)),
    ];
    let result = get_next_word_end(current_position, points);
    assert!(result.is_some());
    assert!(result.as_ref().unwrap().x == 2, "Expected {} to equal 2", result.as_ref().unwrap().x);
    assert!(result.unwrap().y == 0);
}

#[test]
fn should_get_end_of_current_word() {
    let current_position = Vec2::new(0, 0);
    let points = vec![
        (current_position.clone(), Some(0)),
        (Vec2::new(1, 0), Some(0)),
        (Vec2::new(2, 0), Some(1)),
    ];
    let result = get_next_word_end(current_position, points);
    assert!(result.is_some());
    assert!(result.as_ref().unwrap().x == 1, "Expected {} to equal 2", result.as_ref().unwrap().x);
    assert!(result.unwrap().y == 0);
}

#[test]
fn should_stay_on_current_line() {
    let current_position = Vec2::new(0, 0);
    let points = vec![
        (current_position.clone(), Some(0)),
        (Vec2::new(1, 0), Some(0)),
        (Vec2::new(2, 0), Some(1)),
        (Vec2::new(0, 1), Some(0)),
        (Vec2::new(1, 1), Some(0)),
        (Vec2::new(2, 1), Some(1)),
    ];
    let result = get_next_word_end(current_position, points);
    assert!(result.is_some());
    assert!(result.as_ref().unwrap().x == 1, "Expected {} to equal 2", result.as_ref().unwrap().x);
    assert!(result.unwrap().y == 0);
}

#[test]
fn should_jump_to_end_of_first_shape() {
    let current_position = Vec2::new(0, 0);
    let points = vec![
        (current_position.clone(), None),
        (Vec2::new(1, 0), None),
        (Vec2::new(2, 0), Some(1)),
        (Vec2::new(3, 0), Some(1)),
    ];
    let result = get_next_word_end(current_position, points);
    assert!(result.is_some());
    assert!(result.as_ref().unwrap().x == 3, "Expected {} to equal 2", result.as_ref().unwrap().x);
    assert!(result.unwrap().y == 0);
}

#[test]
fn word_starts_on_both_sides_of_two_owners() {
    let points = vec![
        (Vec2::new(0, 0), Some(0)),
        (Vec2::new(1, 0), Some(0)),
        (Vec2::new(2, 0), Some(1)),
    ];
    assert_eq!(get_next_word_start(Vec2::new(0, 0), points.clone()), Some(Vec2::new(2, 0)));
    assert_eq!(get_previous_word_start(Vec2::new(2, 0), points), Some(Vec2::new(0, 0)));
}

#[test]
fn no_word_start_after_the_last_word() {
    let points = vec![(Vec2::new(0, 0), Some(3)), (Vec2::new(1, 0), None)];
    assert_eq!(get_next_word_start(Vec2::new(0, 0), points.clone()), None);
    assert_eq!(get_next_word_end(Vec2::new(1, 0), points.clone()), None);
    assert_eq!(get_previous_word_start(Vec2::new(0, 0), points), None);
    assert_eq!(get_next_word_start(Vec2::new(0, 0), vec![]), None);
}

#[test]
fn count_prefix_multiplies_steps_then_resets() {
    let renderer = Renderer::new(10, 10);
    let mode = Mode::Normal;
    let mut motion = MotionState::new();
    let mut cursor = Cursor::new(Vec2::new(0, 0));
    motion.handle_motions('1', &renderer, &mode, &mut cursor);
    motion.handle_motions('2', &renderer, &mode, &mut cursor);
    motion.handle_motions('l', &renderer, &mode, &mut cursor);
    assert_eq!(cursor.position, Vec2::new(12, 0));
    motion.handle_motions('j', &renderer, &mode, &mut cursor);
    assert_eq!(cursor.position, Vec2::new(12, 1));
    motion.handle_motions('3', &renderer, &mode, &mut cursor);
    motion.handle_motions('k', &renderer, &mode, &mut cursor);
    assert_eq!(cursor.position, Vec2::new(12, 0));
    motion.handle_motions('h', &renderer, &mode, &mut cursor);
    assert_eq!(cursor.position, Vec2::new(11, 0));
}

#[test]
fn zero_count_and_oversized_count() {
    let renderer = Renderer::new(10, 10);
    let mode = Mode::Normal;
    let mut motion = MotionState::new();
    let mut cursor = Cursor::new(Vec2::new(5, 5));
    motion.handle_motions('0', &renderer, &mode, &mut cursor);
    motion.handle_motions('l', &renderer, &mode, &mut cursor);
    assert_eq!(cursor.position, Vec2::new(5, 5));
    for c in ['9', '9', '9', '9', '9'] {
        motion.handle_motions(c, &renderer, &mode, &mut cursor);
    }
    motion.handle_motions('l', &renderer, &mode, &mut cursor);
    assert_eq!(cursor.position, Vec2::new(6, 5));
}

#[test]
fn cursor_stops_at_the_screen_edge() {
    let renderer = Renderer::new(10, 10);
    let mut motion = MotionState::new();
    let mut cursor = Cursor::new(Vec2::new(1, 0));
    motion.handle_motions('5', &renderer, &Mode::Normal, &mut cursor);
    motion.handle_motions('h', &renderer, &Mode::Normal, &mut cursor);
    assert_eq!(cursor.position, Vec2::new(0, 0));
}
