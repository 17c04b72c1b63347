use traw::characters::{CORNER_1_ROUNDED, CORNER_3_ROUNDED, HORIZONTAL_BAR, VERTICAL_BAR};
use traw::cursor::Cursor;
use traw::draw::{Draw, EdgeIntersection, Intersection};
use traw::mode::Anchor;
use traw::rectangle::{Rectangle, Shrink};
use traw::shape_id::ShapeIdStore;
use traw::vec2::Vec2;

fn rect(x: i32, y: i32, width: i32, height: i32, text: Vec<char>) -> Rectangle {
    Rectangle { x, y, width, height, text, shape_id: 1, shrink: Shrink::Unchanged }
}

#[test]
fn rectangle_should_get_cursor_position_when_editing_text() {
    let rect = Rectangle {
        x: 5,
        y: 5,
        width: 4,
        height: 4,
        text: vec!['0', '1', '2'],
        shape_id: 1,
        shrink: Shrink::Unchanged,
    };
    let pos = rect.get_inner_cursor_position();
    let expected = (7, 7);
    assert_eq!(pos, expected);
}

#[test]
fn hit_test_classifies_corner_side_inner_and_outside() {
    let r = rect(5, 5, 4, 4, vec![]);
    assert_eq!(r.get_intersection(&Vec2::new(5, 5)), Intersection::Edge(EdgeIntersection::Corner(Some(Anchor::TopLeft))));
    assert_eq!(r.get_intersection(&Vec2::new(6, 5)), Intersection::Edge(EdgeIntersection::Side));
    assert_eq!(r.get_intersection(&Vec2::new(7, 7)), Intersection::Inner);
    assert_eq!(r.get_intersection(&Vec2::new(20, 20)), Intersection::Outside);
    assert_eq!(r.get_intersection(&Vec2::new(8, 8)), Intersection::Edge(EdgeIntersection::Corner(Some(Anchor::BottomRight))));
    assert_eq!(r.get_intersection(&Vec2::new(8, 5)), Intersection::Edge(EdgeIntersection::Corner(Some(Anchor::TopRight))));
    assert_eq!(r.get_intersection(&Vec2::new(5, 8)), Intersection::Edge(EdgeIntersection::Corner(Some(Anchor::BottomLeft))));
}

#[test]
fn inner_cursor_of_small_box_is_its_corner() {
    let r = rect(2, 3, 2, 5, vec!['a']);
    assert_eq!(r.get_inner_cursor_position(), (2, 3));
}

#[test]
fn inner_cursor_wraps_to_next_row() {
    let r = rect(0, 0, 4, 5, vec!['a', 'b']);
    assert_eq!(r.get_inner_cursor_position(), (1, 2));
}

#[test]
fn draw_places_corners_bars_and_text() {
    let r = rect(1, 1, 4, 3, vec!['h', 'i', '!']);
    let drawn = r.draw();
    assert_eq!(drawn.len(), 12);
    let chars: String = drawn.iter().map(|p| p.character).collect();
    assert_eq!(chars, "╭──╮│hi│╰──╯");
    assert_eq!((drawn[0].x, drawn[0].y), (1, 1));
    assert_eq!(drawn[0].character, CORNER_3_ROUNDED);
    assert_eq!(drawn[11].character, CORNER_1_ROUNDED);
    assert_eq!((drawn[11].x, drawn[11].y), (4, 3));
}

#[test]
fn draw_clears_the_strip_left_by_shrinking() {
    let mut r = rect(0, 0, 3, 2, vec![]);
    r.shrink = Shrink::Right;
    let drawn = r.draw();
    assert_eq!(drawn.len(), 8);
    assert_eq!((drawn[6].x, drawn[6].y, drawn[6].character), (3, 0, ' '));
    assert_eq!((drawn[7].x, drawn[7].y, drawn[7].character), (3, 1, ' '));
}

#[test]
fn drag_bottom_right_follows_the_cursor() {
    let mut ids = ShapeIdStore::new();
    let mut r = Rectangle::new_at(2, 2, &mut ids);
    let mut anchor = Anchor::BottomRight;
    r.drag_corner(&mut anchor, Vec2::new(6, 4));
    assert_eq!((r.x, r.y, r.width, r.height), (2, 2, 5, 3));
    assert_eq!(anchor, Anchor::BottomRight);
    r.drag_corner(&mut anchor, Vec2::new(5, 4));
    assert_eq!(r.width, 4);
    assert_eq!(r.shrink, Shrink::Right);
}

#[test]
fn drag_past_the_left_edge_flips_the_anchor() {
    let mut ids = ShapeIdStore::new();
    let mut r = Rectangle::new_at(5, 5, &mut ids);
    let mut anchor = Anchor::BottomRight;
    r.drag_corner(&mut anchor, Vec2::new(3, 5));
    assert_eq!(anchor, Anchor::BottomLeft);
    assert_eq!((r.x, r.width), (3, 2));
}

#[test]
fn drag_top_left_grows_by_one_when_moving_out() {
    let mut r = rect(5, 5, 3, 3, vec![]);
    let mut anchor = Anchor::TopLeft;
    r.drag_corner(&mut anchor, Vec2::new(4, 4));
    assert_eq!((r.x, r.y, r.width, r.height), (4, 4, 4, 4));
    r.drag_corner(&mut anchor, Vec2::new(5, 5));
    assert_eq!((r.x, r.y, r.width, r.height), (5, 5, 3, 3));
    assert_eq!(r.shrink, Shrink::Left);
}

#[test]
fn typing_moves_the_cursor_inside_the_box() {
    let mut r = rect(0, 0, 5, 5, vec![]);
    let mut cursor = Cursor::new(Vec2::new(0, 0));
    r.on_char('a', &mut cursor);
    assert_eq!(cursor.position, Vec2::new(2, 1));
    r.on_char('b', &mut cursor);
    r.on_backspace(&mut cursor);
    assert_eq!(r.text, vec!['a']);
    assert_eq!(cursor.position, Vec2::new(2, 1));
}

#[test]
fn corners_are_guide_points() {
    let r = rect(1, 2, 3, 4, vec![]);
    assert_eq!(
        r.get_intersection_points(),
        vec![Vec2::new(1, 2), Vec2::new(3, 2), Vec2::new(3, 5), Vec2::new(1, 5)]
    );
    assert_eq!(HORIZONTAL_BAR, '─');
    assert_eq!(VERTICAL_BAR, '│');
}
