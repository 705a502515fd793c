//! Window events and the redraw notices a window move produces.

use vstd::prelude::*;

use crate::events::{fire_redraw, fire_redraw_area, Event, RedrawQueue};
use crate::graphics::{spec_max, spec_min, Point, Rectangle, Size};
use crate::keyboard::KeyCode;
use crate::task::{TaskManager, TypedTaskHandle};

verus! {

/// A notice that a window moved and the screen areas it covered before and
/// after need redrawing.
pub struct MoveNeedRedraw {
    pub start_pos: Point,
    pub end_pos: Point,
}

impl MoveNeedRedraw {
    /// Requests a redraw of the union of the window's old and new extent,
    /// given the window's size.
    pub fn redraw_with_size(
        self,
        queue: &mut RedrawQueue,
        m: &mut TaskManager,
        gui: &TypedTaskHandle<Event>,
        size: Size,
    )
        requires
            old(m).wf(),
            gui.valid(old(m)),
            size.x <= i32::MAX,
            size.y <= i32::MAX,
            self.start_pos.x + size.x <= i32::MAX,
            self.start_pos.y + size.y <= i32::MAX,
            self.end_pos.x + size.x <= i32::MAX,
            self.end_pos.y + size.y <= i32::MAX,
            spec_max(self.start_pos.x + size.x, self.end_pos.x + size.x) - spec_min(
                self.start_pos.x as int,
                self.end_pos.x as int,
            ) <= i32::MAX,
            spec_max(self.start_pos.y + size.y, self.end_pos.y + size.y) - spec_min(
                self.start_pos.y as int,
                self.end_pos.y as int,
            ) <= i32::MAX,
        ensures
            final(m).wf(),
            final(queue)@.len() <= old(queue)@.len() + 1,
    {
        let start_rectangle = Rectangle::new(self.start_pos, size);
        let end_rectangle = Rectangle::new(self.end_pos, size);
        fire_redraw_area(queue, m, gui, start_rectangle.union(&end_rectangle));
    }

    /// Requests a redraw of the whole screen.
    pub fn redraw_all(self, queue: &mut RedrawQueue, m: &mut TaskManager, gui: &TypedTaskHandle<Event>)
        requires
            old(m).wf(),
            gui.valid(old(m)),
        ensures
            final(m).wf(),
            final(queue)@ =~= seq![Event::Redraw],
    {
        fire_redraw(queue, m, gui);
    }
}

/// An event delivered to a window's owning task.
#[derive(Clone, Copy, Debug)]
pub enum WindowEvent {
    Focus,
    Blur,
    KeyPress(KeyCode),
}

/// How a window reacts to the events the window manager routes to it;
/// windows owned by plain widgets implement whichever reactions they need.
pub trait WindowEventHandler {
    fn on_focus(&mut self) {
    }

    fn on_blur(&mut self) {
    }

    fn on_key_press(&mut self, key: KeyCode) {
    }

    fn handle_window_event(&mut self, e: WindowEvent) {
        match e {
            WindowEvent::Focus => self.on_focus(),
            WindowEvent::Blur => self.on_blur(),
            WindowEvent::KeyPress(k) => self.on_key_press(k),
        }
    }
}

/// A handler that ignores every event.
pub struct NopWindowEventHandler;

impl WindowEventHandler for NopWindowEventHandler {

}

} // verus!
