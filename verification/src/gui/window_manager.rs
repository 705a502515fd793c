//! Window identities and per-window placement state.

use vstd::prelude::*;

use crate::graphics::{spec_clamp, Point, Rectangle, Size, Vector2d};
use crate::gui::windows::MoveNeedRedraw;

verus! {

/// A unique identity for a window, drawn from a monotonic counter.
#[derive(Copy, Clone, PartialEq, Eq, Hash, Debug, Structural)]
pub struct WindowId(usize);

impl WindowId {
    pub closed spec fn spec_id(&self) -> int {
        self.0 as int
    }

    /// Draws the next identity from the counter the window manager owns.
    pub fn generate(counter: &mut usize) -> (w: WindowId)
        requires
            *old(counter) < usize::MAX,
        ensures
            w.spec_id() == *old(counter),
            *final(counter) == *old(counter) + 1,
    {
        let id = *counter;
        *counter = *counter + 1;
        WindowId(id)
    }
}

/// A window's placement: its identity, its top-left position on screen,
/// whether dragging may move it, and the screen it is clamped to.
#[derive(Debug)]
pub struct WindowState {
    id: WindowId,
    position: Point,
    draggable: bool,
    screen_size: Size,
}

impl WindowState {
    pub closed spec fn spec_id(&self) -> WindowId {
        self.id
    }

    pub closed spec fn spec_position(&self) -> Point {
        self.position
    }

    pub closed spec fn spec_draggable(&self) -> bool {
        self.draggable
    }

    pub closed spec fn spec_screen_size(&self) -> Size {
        self.screen_size
    }

    /// A window starts draggable at the screen's top-left corner.
    pub fn new(id: WindowId, screen_size: Size) -> (w: WindowState)
        ensures
            w.spec_id() == id,
            w.spec_position() == (Point { x: 0, y: 0 }),
            w.spec_draggable(),
            w.spec_screen_size() == screen_size,
    {
        WindowState { id, position: Point::zero(), draggable: true, screen_size }
    }

    /// Moves the window by `v`, clamped into the screen, and reports the
    /// positions before and after so the covered areas can be redrawn.
    #[must_use]
    pub fn move_relative(&mut self, v: Vector2d) -> (r: MoveNeedRedraw)
        requires
            old(self).spec_screen_size().x <= i32::MAX,
            old(self).spec_screen_size().y <= i32::MAX,
            i32::MIN <= old(self).spec_position().x + v.x <= i32::MAX,
            i32::MIN <= old(self).spec_position().y + v.y <= i32::MAX,
        ensures
            final(self).spec_id() == old(self).spec_id(),
            final(self).spec_draggable() == old(self).spec_draggable(),
            final(self).spec_screen_size() == old(self).spec_screen_size(),
            r.start_pos == old(self).spec_position(),
            r.end_pos == final(self).spec_position(),
            final(self).spec_position().x == spec_clamp(
                old(self).spec_position().x + v.x,
                0,
                old(self).spec_screen_size().x as int,
            ),
            final(self).spec_position().y == spec_clamp(
                old(self).spec_position().y + v.y,
                0,
                old(self).spec_screen_size().x as int,
            ),
    {
        let old_position = self.position;
        let moved = Point::new(self.position.x + v.x, self.position.y + v.y);
        self.position = moved.clamped(Rectangle::new(Point::zero(), self.screen_size));
        MoveNeedRedraw { start_pos: old_position, end_pos: self.position }
    }
}

} // verus!
