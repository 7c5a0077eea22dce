//! What the session view decides when it is drawn: the heights of the
//! transcript and of the input editor, the areas it records for mouse events,
//! and where the terminal cursor goes; and the error popup's content.
use crate::area::Area;
use crate::focus::Focusable;
use crate::scroll::ScrollState;
use crate::session::Session;
use vstd::prelude::*;

verus! {

/// An error message shown over the interface.
pub struct ErrorPopup<'a> {
    pub msg: &'a str,
}

impl<'a> ErrorPopup<'a> {
    pub fn new(msg: &'a str) -> (p: Self)
        ensures
            p.msg == msg,
    {
        ErrorPopup { msg }
    }
}

/// What drawing a session leaves behind: the cursor position and the areas of
/// the transcript and of the input editor.
#[derive(Clone, Copy, Debug)]
pub struct SessionState {
    pub cursor_position: Option<(u16, u16)>,
    pub messages_area: Area,
    pub input_editor_area: Area,
}

impl Default for SessionState {
    fn default() -> (s: Self)
        ensures
            s.cursor_position is None,
            s.messages_area == (Area { column: 0, row: 0, height: 0, width: 0 }),
            s.input_editor_area == (Area { column: 0, row: 0, height: 0, width: 0 }),
    {
        SessionState {
            cursor_position: None,
            messages_area: Area::default(),
            input_editor_area: Area::default(),
        }
    }
}

/// `x` clamped to `[lo, hi]`.
pub open spec fn clamp(x: int, lo: int, hi: int) -> int {
    if x < lo {
        lo
    } else if x > hi {
        hi
    } else {
        x
    }
}

/// `a - b`, or 0 when `b` exceeds `a`.
pub open spec fn saturating_sub(a: int, b: int) -> int {
    if b > a {
        0
    } else {
        a - b
    }
}

/// The input editor's height: one line more than its text takes, between
/// `min` and `max`, cut to 16 bits; and the transcript's height: what is left.
pub open spec fn session_heights(height: u16, n_lines: int, min: int, max: int) -> (u16, u16) {
    let input = clamp(n_lines + 1, min, max) as u16;
    (saturating_sub(height as int, input as int) as u16, input)
}

/// The areas a drawing records: the transcript's height grows by its height
/// and its width is the session's; the editor's row grows by the transcript's
/// height and one, and its height and width become that same number.
pub open spec fn areas_recorded(before: SessionState, after: SessionState, width: u16, messages_height: u16) -> bool {
    &&& after.messages_area == (Area {
        height: (before.messages_area.height + messages_height) as u16,
        width,
        ..before.messages_area
    })
    &&& after.input_editor_area == (Area {
        row: (before.input_editor_area.row + messages_height + 1) as u16,
        height: (messages_height + 1) as u16,
        width: (messages_height + 1) as u16,
        ..before.input_editor_area
    })
    &&& after.cursor_position == before.cursor_position
}

/// The areas can grow without overflow.
pub open spec fn areas_fit(state: SessionState, messages_height: u16) -> bool {
    &&& state.messages_area.height + messages_height <= u16::MAX
    &&& state.input_editor_area.row + messages_height + 1 <= u16::MAX
    &&& messages_height + 1 <= u16::MAX
}

/// Lays a session out in a `width` by `height` area: the editor's viewport is
/// the width less its two border columns; the editor is one line taller than
/// its text, between `min_input_height` and `max_input_height`; the transcript
/// takes the rest. Returns the transcript's and the editor's heights.
pub fn layout_session(
    session: &mut Session,
    width: u16,
    height: u16,
    min_input_height: usize,
    max_input_height: usize,
) -> (r: (u16, u16))
    requires
        old(session).wf(),
        min_input_height <= max_input_height,
    ensures
        final(session).wf(),
        final(session).msgs() == old(session).msgs(),
        final(session).editor().text() == old(session).editor().text(),
        final(session).editor().cursor() == old(session).editor().cursor(),
        final(session).editor().vp().width() == saturating_sub(width as int, 2),
        final(session).editor().has_focus() == old(session).editor().has_focus(),
        final(session).id() == old(session).id(),
        final(session).settings() == old(session).settings(),
        r == session_heights(
            height,
            crate::layout::all_lines(final(session).editor().vp().paras()).len() as int,
            min_input_height as int,
            max_input_height as int,
        ),
{
    let content_width: usize = if width >= 2 {
        (width - 2) as usize
    } else {
        0
    };
    session.input_editor.set_viewport_width(content_width);
    let lines = session.input_editor.viewport().lines();
    let n = lines.len();
    proof {
        assert(lines@.map_values(|l: String| l@).len() == n);
    }
    let clamped: usize = if n >= max_input_height {
        max_input_height
    } else if n + 1 < min_input_height {
        min_input_height
    } else {
        n + 1
    };
    let input_height: u16 = #[verifier::truncate] (clamped as u16);
    let messages_height: u16 = if input_height > height {
        0
    } else {
        height - input_height
    };
    (messages_height, input_height)
}

/// Records the areas a drawing laid out (see `areas_recorded`).
pub fn record_areas(state: &mut SessionState, width: u16, messages_height: u16)
    requires
        areas_fit(*old(state), messages_height),
    ensures
        areas_recorded(*old(state), *final(state), width, messages_height),
{
    state.messages_area.height = state.messages_area.height + messages_height;
    state.messages_area.width = width;
    state.input_editor_area.row = state.input_editor_area.row + messages_height + 1;
    state.input_editor_area.height = messages_height + 1;
    state.input_editor_area.width = messages_height + 1;
}

/// The cursor relative to the visible part of a view, moved right by `dx` and
/// down by `dy`; `None` without a cursor, or when it lies above the view or
/// past the 16-bit range.
pub open spec fn shifted_cursor(s: ScrollState, dx: int, dy: int) -> Option<(u16, u16)> {
    match s.cursor_position {
        Some((x, y)) => {
            let top = s.vertical_scroll_offset as u16;
            if y >= top && x + dx <= u16::MAX && y - top + dy <= u16::MAX {
                Some(((x + dx) as u16, (y - top + dy) as u16))
            } else {
                None
            }
        },
        None => None,
    }
}

/// Where the terminal cursor goes: below the transcript's title line when the
/// transcript has the focus, inside the editor's border below the transcript
/// when the editor has it, nowhere otherwise.
pub open spec fn session_cursor(
    messages_focused: bool,
    editor_focused: bool,
    messages_scroll: ScrollState,
    editor_scroll: ScrollState,
    messages_height: u16,
) -> Option<(u16, u16)> {
    if messages_focused {
        shifted_cursor(messages_scroll, 0, 1)
    } else if editor_focused {
        shifted_cursor(editor_scroll, 1, messages_height + 2)
    } else {
        None
    }
}

/// The cursor of `s` shifted (see `shifted_cursor`).
fn shift_cursor(s: ScrollState, dx: u16, dy: u16) -> (r: Option<(u16, u16)>)
    ensures
        r == shifted_cursor(s, dx as int, dy as int),
{
    match s.cursor_position {
        Some((x, y)) => {
            let top = s.vertical_scroll_offset as u16;
            if y >= top && x <= u16::MAX - dx && y - top <= u16::MAX - dy {
                Some((x + dx, y - top + dy))
            } else {
                None
            }
        },
        None => None,
    }
}

/// Where the terminal cursor goes after the session was laid out with a
/// transcript `messages_height` lines high (see `session_cursor`).
pub fn session_cursor_position(session: &Session, messages_height: u16) -> (r: Option<(u16, u16)>)
    ensures
        r == session_cursor(
            session.msgs().has_focus(),
            session.editor().has_focus(),
            session.msgs().vp().scroll(),
            session.editor().vp().scroll(),
            messages_height,
        ),
{
    if session.messages.is_focused() {
        let s: ScrollState = session.messages.viewport().current_scroll();
        shift_cursor(s, 0, 1)
    } else if session.input_editor.is_focused() {
        if messages_height > u16::MAX - 2 {
            return None;
        }
        let s: ScrollState = session.input_editor.viewport().current_scroll();
        shift_cursor(s, 1, messages_height + 2)
    } else {
        None
    }
}

} // verus!
