use traw::arrow::Arrow;
use traw::characters::{
    ARROW_DOWN, ARROW_LEFT, ARROW_RIGHT, ARROW_UP, CORNER_1, CORNER_2, CORNER_3, CORNER_4,
    HORIZONTAL_BAR, VERTICAL_BAR,
};
use traw::draw::Draw;
use traw::shape_id::ShapeIdStore;
use traw::vec2::Vec2;

fn v(x: i32, y: i32) -> Vec2<i32> {
    Vec2::new(x, y)
}

#[test]
fn arrow_should_get_horizontal_bar() {
    assert_eq!(HORIZONTAL_BAR, Arrow::get_char(&(0, 0).into(), &(1, 0).into(), &(2, 0).into(), &mut false));
}

#[test]
fn arrow_should_get_vertical_bar() {
    assert_eq!(VERTICAL_BAR, Arrow::get_char(&(0, 0).into(), &(0, 1).into(), &(0, 2).into(), &mut false));
}

#[test]
fn arrow_should_get_corner_1() {
    assert_eq!(CORNER_1, Arrow::get_char(&(0, 1).into(), &(1, 1).into(), &(1, 0).into(), &mut false));
    assert_eq!(CORNER_1, Arrow::get_char(&(1, 0).into(), &(1, 1).into(), &(0, 1).into(), &mut false));
}

#[test]
fn arrow_should_get_corner_2() {
    assert_eq!(CORNER_2, Arrow::get_char(&(0, 0).into(), &(0, 1).into(), &(1, 1).into(), &mut false));
    assert_eq!(CORNER_2, Arrow::get_char(&(1, 1).into(), &(0, 1).into(), &(0, 0).into(), &mut false));
}

#[test]
fn arrow_should_get_corner_3() {
    assert_eq!(CORNER_3, Arrow::get_char(&(0, 1).into(), &(0, 0).into(), &(1, 0).into(), &mut false));
    assert_eq!(CORNER_3, Arrow::get_char(&(1, 0).into(), &(0, 0).into(), &(0, 1).into(), &mut false));
}

#[test]
fn arrow_should_get_corner_4() {
    assert_eq!(CORNER_4, Arrow::get_char(&(0, 0).into(), &(1, 0).into(), &(1, 1).into(), &mut false));
    assert_eq!(CORNER_4, Arrow::get_char(&(1, 1).into(), &(1, 0).into(), &(0, 0).into(), &mut false));
}

#[test]
fn arrow_should_get_down_arrow() {
    assert_eq!(ARROW_DOWN, Arrow::get_char(&(0, 0).into(), &(0, 1).into(), &(0, 2).into(), &mut true));
}

#[test]
fn arrow_should_get_up_arrow() {
    assert_eq!(ARROW_UP, Arrow::get_char(&(0, 2).into(), &(0, 1).into(), &(0, 0).into(), &mut true));
}

#[test]
fn arrow_should_get_left_arrow() {
    assert_eq!(ARROW_LEFT, Arrow::get_char(&(2, 0).into(), &(1, 0).into(), &(0, 0).into(), &mut true));
}

#[test]
fn arrow_should_get_right_arrow() {
    assert_eq!(ARROW_RIGHT, Arrow::get_char(&(0, 0).into(), &(1, 0).into(), &(2, 0).into(), &mut true));
}

#[test]
fn arrow_should_remove_point_when_revisiting_previous_point() {
    let mut ids = ShapeIdStore::new();
    let mut arrow = Arrow::init(&mut ids);
    arrow.points = vec![Vec2::new(0, 0), Vec2::new(1, 0), Vec2::new(2, 0)];
    arrow.update((1, 0).into());
    let expected = vec![Vec2::new(0, 0), Vec2::new(1, 0)];
    assert_eq!(arrow.points, expected);
}

#[test]
fn arrowhead_flag_is_consumed_once() {
    let mut try_arrow = true;
    assert_eq!(ARROW_RIGHT, Arrow::get_char(&v(0, 0), &v(1, 0), &v(2, 0), &mut try_arrow));
    assert!(!try_arrow);
    assert_eq!(HORIZONTAL_BAR, Arrow::get_char(&v(1, 0), &v(2, 0), &v(3, 0), &mut try_arrow));
}

#[test]
fn corner_keeps_arrowhead_pending() {
    let mut try_arrow = true;
    assert_eq!(CORNER_4, Arrow::get_char(&v(0, 0), &v(1, 0), &v(1, 1), &mut try_arrow));
    assert!(try_arrow);
}

#[test]
fn glyph_is_the_same_on_a_reversed_path() {
    let cases = [
        (v(0, 1), v(1, 1), v(1, 0)),
        (v(0, 0), v(0, 1), v(1, 1)),
        (v(0, 0), v(1, 0), v(2, 0)),
        (v(0, 0), v(2, 2), v(0, 0)),
    ];
    for (a, b, c) in cases {
        let forward = Arrow::get_char(&a, &b, &c, &mut false);
        let backward = Arrow::get_char(&c, &b, &a, &mut false);
        assert_eq!(forward, backward);
    }
}

#[test]
fn non_adjacent_step_draws_blank() {
    assert_eq!(' ', Arrow::get_char(&v(0, 0), &v(2, 2), &v(4, 4), &mut false));
}

#[test]
fn update_appends_new_position() {
    let mut ids = ShapeIdStore::new();
    let mut arrow = Arrow::init(&mut ids);
    arrow.update(Vec2::new(3, 4));
    arrow.update(Vec2::new(4, 4));
    assert_eq!(arrow.points, vec![Vec2::new(3, 4), Vec2::new(4, 4)]);
    assert_eq!(arrow.shape_id, 1);
}

#[test]
fn arrow_draw_puts_one_arrowhead_at_the_middle_run() {
    let mut ids = ShapeIdStore::new();
    let mut arrow = Arrow::init(&mut ids);
    arrow.points = vec![v(0, 0), v(1, 0), v(2, 0), v(3, 0), v(4, 0)];
    let drawn = arrow.draw();
    let chars: Vec<char> = drawn.iter().map(|p| p.character).collect();
    assert_eq!(chars, vec![HORIZONTAL_BAR, HORIZONTAL_BAR, ARROW_RIGHT, HORIZONTAL_BAR, HORIZONTAL_BAR]);
    assert_eq!(drawn[2].x, 2);
}

#[test]
fn arrow_endpoints_are_vertical_bars_on_a_vertical_path() {
    let mut ids = ShapeIdStore::new();
    let mut arrow = Arrow::init(&mut ids);
    arrow.points = vec![v(0, 0), v(0, 1)];
    let chars: Vec<char> = arrow.draw().iter().map(|p| p.character).collect();
    assert_eq!(chars, vec![VERTICAL_BAR, VERTICAL_BAR]);
}

#[test]
fn single_point_arrow_draws_nothing() {
    let mut ids = ShapeIdStore::new();
    let mut arrow = Arrow::init(&mut ids);
    arrow.points = vec![v(5, 5)];
    assert!(arrow.draw().is_empty());
}
