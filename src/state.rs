use vstd::prelude::*;

use crate::arrow::Arrow;
use crate::cursor::Cursor;
use crate::draw::{EdgeIntersection, Intersection};
use crate::mode::{Anchor, Mode, Selection};
use crate::mutate::Mutate;
use crate::rectangle::{drag_spec, Rectangle, Shrink};
use crate::shape::Shape;
use crate::shape_id::ShapeIdStore;
use crate::vec2::Vec2;

verus! {

/// A change of the shape list, recorded so that it can be undone.
#[derive(Debug)]
pub enum StateChange {
    DeleteShape(usize),
    AddShape(Shape),
}

/// The committed shapes, the interaction mode, and the undo and redo logs.
///
/// A new change goes on the undo log and leaves the redo log as it is.
#[derive(Debug)]
pub struct State {
    pub shapes: Vec<Shape>,
    pub mode: Mode,
    pub debug_enabled: bool,
    pub ids: ShapeIdStore,
    pub undo_stack: Vec<StateChange>,
    pub redo_stack: Vec<StateChange>,
}

/// The shape list with the undo log and the redo log, the top of each log last.
pub type History = (Seq<Shape>, Seq<StateChange>, Seq<StateChange>);

/// A deletion needs its index to be in the list.
pub open spec fn applicable(shapes: Seq<Shape>, mx: StateChange) -> bool {
    match mx {
        StateChange::DeleteShape(i) => i < shapes.len(),
        StateChange::AddShape(_) => true,
    }
}

/// The list after a change, and the change that undoes it.
pub open spec fn apply_spec(shapes: Seq<Shape>, mx: StateChange) -> (Seq<Shape>, StateChange) {
    match mx {
        StateChange::DeleteShape(i) => (shapes.remove(i as int), StateChange::AddShape(shapes[i as int])),
        StateChange::AddShape(s) => (shapes.push(s), StateChange::DeleteShape(shapes.len() as usize)),
    }
}

/// A new change: applied, and its inverse put on the undo log.
pub open spec fn record_spec(h: History, mx: StateChange) -> History {
    let (s, inv) = apply_spec(h.0, mx);
    (s, h.1.push(inv), h.2)
}

/// The top of the undo log is applied and its inverse goes on the redo log; an entry
/// whose shape is no longer in the list is dropped.
pub open spec fn undo_spec(h: History) -> History {
    if h.1.len() == 0 {
        h
    } else {
        let top = h.1.last();
        if applicable(h.0, top) {
            let (s, inv) = apply_spec(h.0, top);
            (s, h.1.drop_last(), h.2.push(inv))
        } else {
            (h.0, h.1.drop_last(), h.2)
        }
    }
}

/// The mirror of `undo_spec`, from the redo log to the undo log.
pub open spec fn redo_spec(h: History) -> History {
    if h.2.len() == 0 {
        h
    } else {
        let top = h.2.last();
        if applicable(h.0, top) {
            let (s, inv) = apply_spec(h.0, top);
            (s, h.1.push(inv), h.2.drop_last())
        } else {
            (h.0, h.1, h.2.drop_last())
        }
    }
}

/// The canvas position under a screen position.
pub open spec fn canvas_pos(c: Vec2<u16>) -> Vec2<i32> {
    Vec2 { x: c.x as i32, y: c.y as i32 }
}

/// The first shape of the list, from index `i` on, that the position touches, with its index.
pub open spec fn first_hit_from(shapes: Seq<Shape>, p: Vec2<i32>, i: int) -> (Intersection, int)
    decreases shapes.len() - i,
{
    if i < 0 || i >= shapes.len() {
        (Intersection::Outside, 0)
    } else if !(shapes[i].hit(p) is Outside) {
        (shapes[i].hit(p), i)
    } else {
        first_hit_from(shapes, p, i + 1)
    }
}

pub open spec fn first_hit(shapes: Seq<Shape>, p: Vec2<i32>) -> (Intersection, int) {
    first_hit_from(shapes, p, 0)
}

/// A hit names a shape of the list, and that shape's own classification.
pub proof fn lemma_first_hit_in_list(shapes: Seq<Shape>, p: Vec2<i32>, i: int)
    requires
        0 <= i,
    ensures
        !(first_hit_from(shapes, p, i).0 is Outside) ==> i <= first_hit_from(shapes, p, i).1
            < shapes.len() && shapes[first_hit_from(shapes, p, i).1].hit(p) == first_hit_from(
            shapes,
            p,
            i,
        ).0,
    decreases shapes.len() - i,
{
    if i < shapes.len() && shapes[i].hit(p) is Outside {
        lemma_first_hit_in_list(shapes, p, i + 1);
    }
}

/// Where the cursor goes to type into a rectangle.
pub open spec fn text_cursor(r: Rectangle) -> Vec2<u16> {
    Vec2 { x: r.inner_cursor_spec().0 as u16, y: r.inner_cursor_spec().1 as u16 }
}

/// The corner that a hit names, if it names one.
pub open spec fn corner_of(hit: Intersection) -> Option<Anchor> {
    match hit {
        Intersection::Edge(EdgeIntersection::Corner(Some(a))) => Some(a),
        _ => None,
    }
}

/// A rectangle that is no longer being resized: it clears no strip beside it.
pub open spec fn settled(r: Rectangle) -> Rectangle {
    Rectangle { shrink: Shrink::Unchanged, ..r }
}

pub open spec fn settle_shape(s: Shape) -> Shape {
    match s {
        Shape::Rectangle(r) => Shape::Rectangle(settled(r)),
        Shape::Arrow(a) => Shape::Arrow(a),
    }
}

/// The mode that editing a committed shape's inside opens.
pub open spec fn edit_mode(s: Shape) -> Mode {
    match s {
        Shape::Rectangle(r) => Mode::Text(settled(r)),
        Shape::Arrow(a) => Mode::DrawArrow(a),
    }
}

impl Mutate for State {
    type Mutation = StateChange;

    open spec fn can_apply(&self, mx: StateChange) -> bool {
        applicable(self.shapes@, mx)
    }

    fn mutate(&mut self, mx: StateChange) -> (inv: StateChange)
        ensures
            (final(self).shapes@, inv) == apply_spec(old(self).shapes@, mx),
            final(self).mode == old(self).mode,
            final(self).ids == old(self).ids,
            final(self).debug_enabled == old(self).debug_enabled,
            final(self).undo_stack == old(self).undo_stack,
            final(self).redo_stack == old(self).redo_stack,
    {
        match mx {
            StateChange::DeleteShape(index) => {
                let removed = self.shapes.remove(index);
                StateChange::AddShape(removed)
            },
            StateChange::AddShape(shape) => {
                let index = self.shapes.len();
                self.shapes.push(shape);
                StateChange::DeleteShape(index)
            },
        }
    }
}

} // verus!

verus! {

impl State {
    pub open spec fn history(&self) -> History {
        (self.shapes@, self.undo_stack@, self.redo_stack@)
    }

    pub fn init() -> (r: State)
        ensures
            r.shapes@.len() == 0,
            r.mode is Normal,
            !r.debug_enabled,
            r.ids.current == 0,
            r.undo_stack@.len() == 0,
            r.redo_stack@.len() == 0,
    {
        State {
            shapes: Vec::new(),
            mode: Mode::Normal,
            debug_enabled: false,
            ids: ShapeIdStore::new(),
            undo_stack: Vec::new(),
            redo_stack: Vec::new(),
        }
    }

    /// Commits a shape to the end of the list, recording how to undo it.
    pub fn add_shape(&mut self, shape: Shape)
        ensures
            final(self).history() == record_spec(old(self).history(), StateChange::AddShape(shape)),
            final(self).mode == old(self).mode,
            final(self).ids == old(self).ids,
            final(self).debug_enabled == old(self).debug_enabled,
    {
        let mx = self.mutate(StateChange::AddShape(shape));
        self.undo_stack.push(mx);
    }

    pub fn undo(&mut self)
        ensures
            final(self).history() == undo_spec(old(self).history()),
            final(self).mode == old(self).mode,
            final(self).ids == old(self).ids,
            final(self).debug_enabled == old(self).debug_enabled,
    {
        if let Some(undo) = self.undo_stack.pop() {
            if self.applies(&undo) {
                let redo = self.mutate(undo);
                self.redo_stack.push(redo);
            }
        }
    }

    pub fn redo(&mut self)
        ensures
            final(self).history() == redo_spec(old(self).history()),
            final(self).mode == old(self).mode,
            final(self).ids == old(self).ids,
            final(self).debug_enabled == old(self).debug_enabled,
    {
        if let Some(redo) = self.redo_stack.pop() {
            if self.applies(&redo) {
                let undo = self.mutate(redo);
                self.undo_stack.push(undo);
            }
        }
    }

    fn applies(&self, mx: &StateChange) -> (r: bool)
        ensures
            r == applicable(self.shapes@, *mx),
    {
        match mx {
            StateChange::DeleteShape(i) => *i < self.shapes.len(),
            StateChange::AddShape(_) => true,
        }
    }

    /// The first committed shape under the cursor and its index; `Outside` and 0 where none is.
    pub fn get_cursor_intersection(&self, cursor: Vec2<u16>) -> (r: (Intersection, usize))
        ensures
            (r.0, r.1 as int) == first_hit(self.shapes@, canvas_pos(cursor)),
            !(r.0 is Outside) ==> r.1 < self.shapes@.len(),
    {
        proof {
            lemma_first_hit_in_list(self.shapes@, canvas_pos(cursor), 0);
        }
        let p = Vec2 { x: cursor.x as i32, y: cursor.y as i32 };
        let mut i: usize = 0;
        while i < self.shapes.len()
            invariant
                i <= self.shapes@.len(),
                p == canvas_pos(cursor),
                first_hit(self.shapes@, p) == first_hit_from(self.shapes@, p, i as int),
            decreases self.shapes.len() - i,
        {
            let hit = self.shapes[i].get_intersection(&p);
            match hit {
                Intersection::Outside => {},
                _ => {
                    return (hit, i);
                },
            }
            i = i + 1;
        }
        (Intersection::Outside, 0)
    }

    fn enter_text_mode(&mut self, rect: Rectangle, cursor: &mut Cursor)
        ensures
            final(self).mode == Mode::Text(settled(rect)),
            final(self).shapes == old(self).shapes,
            final(self).ids == old(self).ids,
            final(self).debug_enabled == old(self).debug_enabled,
            final(self).undo_stack == old(self).undo_stack,
            final(self).redo_stack == old(self).redo_stack,
            final(cursor).position == text_cursor(rect),
            final(cursor).saved_position == old(cursor).saved_position,
    {
        let (next_x, next_y) = rect.get_inner_cursor_position();
        let mut rect = rect;
        rect.shrink = Shrink::Unchanged;
        self.mode = Mode::Text(rect);
        crate::cursor::set_position(cursor, Vec2 { x: next_x as u16, y: next_y as u16 });
    }

    /// `i` over empty space starts a rectangle; over a shape's side it starts an arrow,
    /// or opens the arrow that the side belongs to; over a shape's inside it takes the
    /// shape out of the list to edit it. Only in normal mode.
    /// Where a new shape would need an identifier and none is left, nothing changes.
    pub fn handle_insert(&mut self, cursor: &mut Cursor)
        ensures
            final(self).debug_enabled == old(self).debug_enabled,
            final(self).undo_stack == old(self).undo_stack,
            final(self).redo_stack == old(self).redo_stack,
            final(cursor).saved_position == old(cursor).saved_position,
            !(old(self).mode is Normal) ==> *final(self) == *old(self) && *final(cursor) == *old(cursor),
            ({
                let (hit, i) = first_hit(old(self).shapes@, canvas_pos(old(cursor).position));
                old(self).mode is Normal ==> match hit {
                    Intersection::Outside => if !old(self).ids.can_generate() {
                        *final(self) == *old(self) && *final(cursor) == *old(cursor)
                    } else {
                        final(self).mode matches Mode::DrawRectangle(r, a) && a
                        == Anchor::BottomRight && r.x == old(cursor).position.x && r.y == old(cursor).position.y
                        && r.width == 1 && r.height == 1 && r.text@.len() == 0 && r.shrink == Shrink::Unchanged
                        && r.shape_id == old(self).ids.current + 1 && final(self).ids.current == r.shape_id
                        && final(self).shapes == old(self).shapes && *final(cursor) == *old(cursor)
                    },
                    Intersection::Edge(EdgeIntersection::Side) => if old(self).shapes@[i] is Arrow {
                        final(self).mode == edit_mode(old(self).shapes@[i]) && final(self).shapes@ == old(
                            self,
                        ).shapes@.remove(i) && final(self).ids == old(self).ids && *final(cursor) == *old(cursor)
                    } else if !old(self).ids.can_generate() {
                        *final(self) == *old(self) && *final(cursor) == *old(cursor)
                    } else {
                        final(self).mode matches Mode::DrawArrow(a) && a.points@.len() == 0 && a.shape_id
                            == old(self).ids.current + 1 && final(self).ids.current == a.shape_id
                            && final(self).shapes == old(self).shapes && *final(cursor) == *old(cursor)
                    },
                    Intersection::Inner => final(self).mode == edit_mode(old(self).shapes@[i])
                        && final(self).shapes@ == old(self).shapes@.remove(i) && final(self).ids == old(self).ids
                        && (match old(self).shapes@[i] {
                        Shape::Rectangle(r) => final(cursor).position == text_cursor(r),
                        Shape::Arrow(_) => final(cursor).position == old(cursor).position,
                    }),
                    Intersection::Edge(EdgeIntersection::Corner(_)) => *final(self) == *old(self)
                        && *final(cursor) == *old(cursor),
                }
            }),
    {
        if let Mode::Normal = self.mode {
            let (intersection, i) = self.get_cursor_intersection(cursor.position);
            match intersection {
                Intersection::Outside => {
                    if self.ids.current == u32::MAX {
                        return;
                    }
                    let rect = Rectangle::new_at(cursor.position.x as i32, cursor.position.y as i32, &mut self.ids);
                    self.mode = Mode::DrawRectangle(rect, Anchor::BottomRight);
                },
                Intersection::Edge(EdgeIntersection::Side) => {
                    if let Shape::Arrow(_) = &self.shapes[i] {
                        let edited = self.shapes.remove(i);
                        if let Shape::Arrow(arrow) = edited {
                            self.mode = Mode::DrawArrow(arrow);
                        }
                    } else if self.ids.current < u32::MAX {
                        let arrow = Arrow::init(&mut self.ids);
                        self.mode = Mode::DrawArrow(arrow);
                    }
                },
                Intersection::Inner => {
                    let edited = self.shapes.remove(i);
                    match edited {
                        Shape::Rectangle(rectangle) => {
                            self.enter_text_mode(rectangle, cursor);
                        },
                        Shape::Arrow(arrow) => {
                            self.mode = Mode::DrawArrow(arrow);
                        },
                    }
                },
                Intersection::Edge(EdgeIntersection::Corner(_)) => {},
            }
        }
    }
}

} // verus!

verus! {

impl State {
    /// `r` over a rectangle's corner takes it out of the list to resize it from that corner.
    pub fn handle_drag(&mut self, cursor: Vec2<u16>)
        ensures
            ({
                let (hit, i) = first_hit(old(self).shapes@, canvas_pos(cursor));
                if old(self).mode is Normal && corner_of(hit) is Some && old(self).shapes@[i] is Rectangle {
                    final(self).mode == Mode::DrawRectangle(
                        old(self).shapes@[i]->Rectangle_0,
                        corner_of(hit)->Some_0,
                    )
                        && final(self).shapes@ == old(self).shapes@.remove(i) && final(self).ids == old(self).ids
                        && final(self).debug_enabled == old(self).debug_enabled
                        && final(self).undo_stack == old(self).undo_stack
                        && final(self).redo_stack == old(self).redo_stack
                } else {
                    *final(self) == *old(self)
                }
            }),
    {
        if let Mode::Normal = self.mode {
            let (intersection, i) = self.get_cursor_intersection(cursor);
            if let Intersection::Edge(EdgeIntersection::Corner(Some(anchor))) = intersection {
                if let Shape::Rectangle(_) = &self.shapes[i] {
                    if let Shape::Rectangle(rectangle) = self.shapes.remove(i) {
                        self.mode = Mode::DrawRectangle(rectangle, anchor);
                    }
                }
            }
        }
    }

    /// `v` starts a one-cell selection at the cursor. Only in normal mode.
    pub fn handle_select(&mut self, cursor: Vec2<u16>)
        ensures
            old(self).mode is Normal ==> final(self).mode == Mode::Select(
                Selection { x: cursor.x as i32, y: cursor.y as i32, width: 1, height: 1 },
            ) && final(self).shapes == old(self).shapes && final(self).ids == old(self).ids
                && final(self).debug_enabled == old(self).debug_enabled
                && final(self).undo_stack == old(self).undo_stack
                && final(self).redo_stack == old(self).redo_stack,
            !(old(self).mode is Normal) ==> *final(self) == *old(self),
    {
        if let Mode::Normal = self.mode {
            self.mode = Mode::Select(Selection { x: cursor.x as i32, y: cursor.y as i32, width: 1, height: 1 });
        }
    }

    /// Enter commits the shape being edited and goes back to normal mode; a new
    /// rectangle without text goes on to text entry first. A rectangle that leaves
    /// resizing or text entry no longer clears a strip beside it.
    pub fn handle_enter(&mut self, cursor: &mut Cursor)
        ensures
            final(self).ids == old(self).ids,
            final(self).debug_enabled == old(self).debug_enabled,
            final(cursor).saved_position == old(cursor).saved_position,
            match old(self).mode {
                Mode::DrawRectangle(r, _) => if r.text@.len() == 0 {
                    final(self).mode == Mode::Text(settled(r)) && final(self).history() == old(self).history()
                        && final(cursor).position == text_cursor(r)
                } else {
                    final(self).mode is Normal && final(self).history() == record_spec(
                        old(self).history(),
                        StateChange::AddShape(Shape::Rectangle(settled(r))),
                    ) && *final(cursor) == *old(cursor)
                },
                Mode::Text(r) => final(self).mode is Normal && final(self).history() == record_spec(
                    old(self).history(),
                    StateChange::AddShape(Shape::Rectangle(settled(r))),
                ) && *final(cursor) == *old(cursor),
                Mode::DrawArrow(a) => final(self).mode is Normal && final(self).history() == record_spec(
                    old(self).history(),
                    StateChange::AddShape(Shape::Arrow(a)),
                ) && *final(cursor) == *old(cursor),
                Mode::Select(_) => final(self).mode is Normal && final(self).history() == old(self).history()
                    && *final(cursor) == *old(cursor),
                Mode::Normal => *final(self) == *old(self) && *final(cursor) == *old(cursor),
            },
    {
        let mut mode = Mode::Normal;
        core::mem::swap(&mut mode, &mut self.mode);
        match mode {
            Mode::DrawRectangle(rect, _) => {
                if rect.text.len() == 0 {
                    self.enter_text_mode(rect, cursor);
                } else {
                    let mut rect = rect;
                    rect.shrink = Shrink::Unchanged;
                    self.add_shape(Shape::Rectangle(rect));
                }
            },
            Mode::Text(rect) => {
                let mut rect = rect;
                rect.shrink = Shrink::Unchanged;
                self.add_shape(Shape::Rectangle(rect));
            },
            Mode::DrawArrow(arrow) => {
                self.add_shape(Shape::Arrow(arrow));
            },
            Mode::Select(_) => {},
            Mode::Normal => {},
        }
    }

    /// `x` over a shape removes it, recording how to bring it back.
    pub fn handle_delete(&mut self, cursor: Vec2<u16>)
        ensures
            ({
                let (hit, i) = first_hit(old(self).shapes@, canvas_pos(cursor));
                if old(self).mode is Normal && !(hit is Outside) {
                    final(self).history() == record_spec(old(self).history(), StateChange::DeleteShape(i as usize))
                        && final(self).mode == old(self).mode && final(self).ids == old(self).ids
                        && final(self).debug_enabled == old(self).debug_enabled
                } else {
                    *final(self) == *old(self)
                }
            }),
    {
        if let Mode::Normal = self.mode {
            let (intersection, i) = self.get_cursor_intersection(cursor);
            match intersection {
                Intersection::Outside => {},
                _ => {
                    let mx = self.mutate(StateChange::DeleteShape(i));
                    self.undo_stack.push(mx);
                },
            }
        }
    }

    /// Backspace in text mode takes the last character away.
    pub fn handle_backspace(&mut self, cursor: &mut Cursor)
        ensures
            final(self).shapes == old(self).shapes,
            final(self).history() == old(self).history(),
            final(self).ids == old(self).ids,
            !(old(self).mode is Text) ==> *final(self) == *old(self) && *final(cursor) == *old(cursor),
            old(self).mode is Text ==> final(self).mode is Text && final(self).mode->Text_0.text@ == (if old(
                self,
            ).mode->Text_0.text@.len() > 0 {
                old(self).mode->Text_0.text@.drop_last()
            } else {
                old(self).mode->Text_0.text@
            }) && final(self).mode->Text_0.bounds() == old(self).mode->Text_0.bounds()
                && final(self).mode->Text_0.shape_id == old(self).mode->Text_0.shape_id
                && final(self).mode->Text_0.shrink == old(self).mode->Text_0.shrink
                && final(cursor).position == text_cursor(final(self).mode->Text_0),
    {
        if let Mode::Text(rect) = &mut self.mode {
            rect.on_backspace(cursor);
        }
    }

    /// A typed character in text mode goes into the rectangle's text.
    pub fn handle_char(&mut self, key: char, cursor: &mut Cursor)
        ensures
            final(self).shapes == old(self).shapes,
            final(self).history() == old(self).history(),
            final(self).ids == old(self).ids,
            !(old(self).mode is Text) ==> *final(self) == *old(self) && *final(cursor) == *old(cursor),
            old(self).mode is Text ==> final(self).mode is Text && final(self).mode->Text_0.text@ == old(
                self,
            ).mode->Text_0.text@.push(key) && final(self).mode->Text_0.bounds() == old(self).mode->Text_0.bounds()
                && final(self).mode->Text_0.shape_id == old(self).mode->Text_0.shape_id
                && final(self).mode->Text_0.shrink == old(self).mode->Text_0.shrink
                && final(cursor).position == text_cursor(final(self).mode->Text_0),
    {
        if let Mode::Text(rect) = &mut self.mode {
            rect.on_char(key, cursor);
        }
    }
}

/// Undoing a newly added shape gives the list back as it was, and redoing it puts the
/// same shape back at the same index.
pub proof fn lemma_undo_redo_round_trip(h: History, s: Shape)
    requires
        h.0.len() < usize::MAX,
    ensures
        undo_spec(record_spec(h, StateChange::AddShape(s))).0 == h.0,
        redo_spec(undo_spec(record_spec(h, StateChange::AddShape(s)))).0 == h.0.push(s),
        redo_spec(undo_spec(record_spec(h, StateChange::AddShape(s)))).0[h.0.len() as int] == s,
        undo_spec(record_spec(h, StateChange::AddShape(s))).1 == h.1,
{
    let h1 = record_spec(h, StateChange::AddShape(s));
    assert(h1.0 == h.0.push(s));
    assert(h1.1.last() == StateChange::DeleteShape(h.0.len() as usize));
    assert(h.0.push(s).remove(h.0.len() as int) =~= h.0);
    let h2 = undo_spec(h1);
    assert(h1.1.drop_last() =~= h.1);
    assert(h2.2.last() == StateChange::AddShape(s));
}

} // verus!

verus! {

/// How the shape being edited follows the cursor in one frame.
pub open spec fn follows_cursor(before: State, after: State, cursor: Vec2<u16>) -> bool {
    match before.mode {
        Mode::DrawRectangle(r, a) => after.mode matches Mode::DrawRectangle(r2, a2)
            && r2.bounds() == drag_spec(r.bounds(), a, cursor.x as int, cursor.y as int).0
            && a2 == drag_spec(r.bounds(), a, cursor.x as int, cursor.y as int).1
            && r2.shrink == drag_spec(r.bounds(), a, cursor.x as int, cursor.y as int).2
            && r2.text == r.text && r2.shape_id == r.shape_id,
        Mode::DrawArrow(ar) => after.mode matches Mode::DrawArrow(ar2) && ar2.points@
            == Arrow::updated(ar.points@, canvas_pos(cursor)) && ar2.shape_id == ar.shape_id,
        Mode::Select(s) => after.mode matches Mode::Select(s2) && s2.bounds() == drag_spec(
            s.bounds(),
            Anchor::BottomRight,
            cursor.x as int,
            cursor.y as int,
        ).0,
        _ => after.mode == before.mode,
    }
}

impl State {
    /// Once per frame the shape being edited follows the cursor: a rectangle is
    /// resized from its anchor, an arrow is extended (or retraced), a selection grows
    /// from its top left corner.
    pub fn follow_cursor(&mut self, cursor: Vec2<u16>)
        ensures
            final(self).shapes == old(self).shapes,
            final(self).history() == old(self).history(),
            final(self).ids == old(self).ids,
            final(self).debug_enabled == old(self).debug_enabled,
            follows_cursor(*old(self), *final(self), cursor),
    {
        match &mut self.mode {
            Mode::DrawRectangle(rect, anchor) => {
                rect.drag_corner(anchor, cursor);
            },
            Mode::DrawArrow(arrow) => {
                arrow.update(Vec2 { x: cursor.x as i32, y: cursor.y as i32 });
            },
            Mode::Select(selection) => {
                let mut anchor = Anchor::BottomRight;
                selection.drag_corner(&mut anchor, cursor);
            },
            _ => {},
        }
    }
}

} // verus!

verus! {

impl State {
    /// A state holding loaded shapes and mode, with empty logs; committed rectangles and
    /// one in text entry clear no strip. Identifiers given out from here on are larger
    /// than every identifier it holds.
    pub fn restored(shapes: Vec<Shape>, mode: Mode) -> (r: State)
        ensures
            r.shapes@ == Seq::new(shapes@.len(), |i: int| settle_shape(shapes@[i])),
            r.mode == (match mode {
                Mode::Text(rect) => Mode::Text(settled(rect)),
                _ => mode,
            }),
            !r.debug_enabled,
            r.undo_stack@.len() == 0,
            r.redo_stack@.len() == 0,
            forall|i: int| 0 <= i < shapes@.len() ==> #[trigger] shapes@[i].id() <= r.ids.current,
            match mode {
                Mode::DrawRectangle(rect, _) => rect.shape_id <= r.ids.current,
                Mode::Text(rect) => rect.shape_id <= r.ids.current,
                Mode::DrawArrow(a) => a.shape_id <= r.ids.current,
                _ => true,
            },
    {
        let mut top: u32 = match &mode {
            Mode::DrawRectangle(rect, _) => rect.shape_id,
            Mode::Text(rect) => rect.shape_id,
            Mode::DrawArrow(a) => a.shape_id,
            _ => 0,
        };
        let ghost first = top;
        let mut i: usize = 0;
        while i < shapes.len()
            invariant
                i <= shapes@.len(),
                first <= top,
                forall|j: int| 0 <= j < i ==> #[trigger] shapes@[j].id() <= top,
            decreases shapes.len() - i,
        {
            let id = shapes[i].shape_id();
            if id > top {
                top = id;
            }
            i = i + 1;
        }
        let ghost orig = shapes@;
        let mut shapes = shapes;
        let n = shapes.len();
        let mut j: usize = 0;
        while j < n
            invariant
                n == orig.len(),
                shapes@.len() == n,
                j <= n,
                forall|k: int| 0 <= k < j ==> #[trigger] shapes@[k] == settle_shape(orig[k]),
                forall|k: int| j <= k < n ==> #[trigger] shapes@[k] == orig[k],
            decreases n - j,
        {
            if let Shape::Rectangle(r) = &mut shapes[j] {
                r.shrink = Shrink::Unchanged;
            }
            j = j + 1;
        }
        assert(shapes@ =~= Seq::new(orig.len(), |k: int| settle_shape(orig[k])));
        let mut mode = mode;
        if let Mode::Text(rect) = &mut mode {
            rect.shrink = Shrink::Unchanged;
        }
        State {
            shapes,
            mode,
            debug_enabled: false,
            ids: ShapeIdStore { current: top },
            undo_stack: Vec::new(),
            redo_stack: Vec::new(),
        }
    }
}

} // verus!
