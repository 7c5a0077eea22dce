//! Which part of the interface has the keyboard focus.
use vstd::prelude::*;

verus! {

/// A focusable part of the interface.
#[derive(Copy, Clone, Debug, PartialEq, Eq, Structural)]
pub enum Focused {
    InputEditor,
    Messages,
    SessionManager,
}

/// A component that can hold the focus.
pub trait Focusable {
    /// Whether the component currently holds the focus.
    spec fn has_focus(&self) -> bool;

    /// Which focusable part this component is.
    spec fn kind(&self) -> Focused;

    fn set_focus(&mut self, focused: bool)
        ensures
            final(self).has_focus() == focused,
            final(self).kind() == old(self).kind(),
    ;

    fn is_focused(&self) -> (r: bool)
        ensures
            r == self.has_focus(),
    ;

    fn to_focused(&self) -> (r: Focused)
        ensures
            r == self.kind(),
    ;
}

} // verus!
