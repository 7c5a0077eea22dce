//! Screen areas and mouse events located in them.
use vstd::prelude::*;

verus! {

/// What a mouse event did.
#[derive(Clone, Copy, Debug, PartialEq, Eq, Structural)]
pub enum MouseEventKind {
    Down,
    Up,
    Drag,
    Moved,
    ScrollDown,
    ScrollUp,
    ScrollLeft,
    ScrollRight,
}

/// Modifier keys held during an input event.
#[derive(Clone, Copy, Debug, PartialEq, Eq, Structural)]
pub struct KeyModifiers {
    pub shift: bool,
    pub control: bool,
    pub alt: bool,
    pub super_key: bool,
    pub hyper: bool,
    pub meta: bool,
}

impl KeyModifiers {
    /// No modifier held.
    pub open spec fn none() -> KeyModifiers {
        KeyModifiers { shift: false, control: false, alt: false, super_key: false, hyper: false, meta: false }
    }

    /// Exactly the control key held.
    pub open spec fn is_control(&self) -> bool {
        *self == KeyModifiers { control: true, ..KeyModifiers::none() }
    }

    /// Exactly the shift key held.
    pub open spec fn is_shift(&self) -> bool {
        *self == KeyModifiers { shift: true, ..KeyModifiers::none() }
    }

    /// Whether exactly the control key is held.
    pub fn control_only(&self) -> (r: bool)
        ensures
            r == self.is_control(),
    {
        self.control && !self.shift && !self.alt && !self.super_key && !self.hyper && !self.meta
    }

    /// Whether exactly the shift key is held.
    pub fn shift_only(&self) -> (r: bool)
        ensures
            r == self.is_shift(),
    {
        self.shift && !self.control && !self.alt && !self.super_key && !self.hyper && !self.meta
    }
}

/// A mouse event at a screen cell.
#[derive(Clone, Copy, Debug)]
pub struct MouseEvent {
    pub kind: MouseEventKind,
    pub column: u16,
    pub row: u16,
    pub modifiers: KeyModifiers,
}

/// A rectangle of screen cells.
#[derive(Clone, Copy, Debug)]
pub struct Area {
    /// The starting column position of the area.
    pub column: u16,
    /// The starting row position of the area.
    pub row: u16,
    /// The vertical extent or height of the area.
    pub height: u16,
    /// The horizontal extent or width of the area.
    pub width: u16,
}

impl Default for Area {
    fn default() -> (a: Self)
        ensures
            a.column == 0 && a.row == 0 && a.height == 0 && a.width == 0,
    {
        Area { column: 0, row: 0, height: 0, width: 0 }
    }
}

impl Area {
    /// Whether the cell `(column, row)` lies in the area.
    pub open spec fn contains(&self, column: int, row: int) -> bool {
        &&& self.row <= row < self.row + self.height
        &&& self.column <= column < self.column + self.width
    }

    /// The event shifted to coordinates relative to the area when it lies
    /// within the area, and `None` otherwise.
    pub fn maybe_mouse_event(&self, evt: MouseEvent) -> (r: Option<MouseEvent>)
        ensures
            self.contains(evt.column as int, evt.row as int) ==> r == Some(
                MouseEvent {
                    row: (evt.row - self.row) as u16,
                    column: (evt.column - self.column) as u16,
                    ..evt
                },
            ),
            !self.contains(evt.column as int, evt.row as int) ==> r == None::<MouseEvent>,
    {
        if evt.row < self.row || evt.row - self.row >= self.height {
            return None;
        }
        if evt.column < self.column || evt.column - self.column >= self.width {
            return None;
        }
        let mut evt = evt;
        evt.row = evt.row - self.row;
        evt.column = evt.column - self.column;
        Some(evt)
    }
}

} // verus!
