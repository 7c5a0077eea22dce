//! Vertical scroll offset and cursor of a scrollable text view.
use vstd::prelude::*;

verus! {

/// Scroll state of a view: its vertical offset in lines and, where the view
/// has one, the cursor position `(x, y)` in content coordinates.
#[derive(Clone, Copy, Debug)]
pub struct ScrollState {
    pub vertical_scroll_offset: usize,
    pub cursor_position: Option<(u16, u16)>,
}

impl Default for ScrollState {
    fn default() -> (s: Self)
        ensures
            s.vertical_scroll_offset == 0,
            s.cursor_position == None::<(u16, u16)>,
    {
        ScrollState { vertical_scroll_offset: 0, cursor_position: None }
    }
}

/// Offset after scrolling just enough that `line` lies in
/// `[offset, offset + height)`.
pub open spec fn visible_offset(offset: int, line: int, height: int) -> int {
    if line < offset {
        line
    } else if line >= offset + height {
        if line + 1 - height > 0 {
            line + 1 - height
        } else {
            0
        }
    } else {
        offset
    }
}

impl ScrollState {
    /// The same state with a cursor at the origin.
    pub fn with_cursor(self) -> (s: Self)
        ensures
            s.vertical_scroll_offset == self.vertical_scroll_offset,
            s.cursor_position == Some((0u16, 0u16)),
    {
        let mut s = self;
        s.cursor_position = Some((0, 0));
        s
    }

    /// Scroll offset as `(rows, columns)`; the row offset is truncated to 16 bits.
    pub fn scroll_offset(&self) -> (r: (u16, u16))
        ensures
            r == (self.vertical_scroll_offset as u16, 0u16),
    {
        (self.vertical_scroll_offset as u16, 0)
    }

    pub fn cursor_position(&self) -> (r: Option<(u16, u16)>)
        ensures
            r == self.cursor_position,
    {
        self.cursor_position
    }

    pub fn set_cursor_position(&mut self, cursor_position: (u16, u16))
        ensures
            final(self).cursor_position == Some(cursor_position),
            final(self).vertical_scroll_offset == old(self).vertical_scroll_offset,
    {
        self.cursor_position = Some(cursor_position);
    }

    pub fn set_vertical_scroll_offset(&mut self, offset: usize)
        ensures
            final(self).vertical_scroll_offset == offset,
            final(self).cursor_position == old(self).cursor_position,
    {
        self.vertical_scroll_offset = offset;
    }

    /// Cursor position relative to the visible part of the view.
    pub fn cursor_viewport_position(&self) -> (r: Option<(u16, u16)>)
        requires
            self.cursor_position matches Some((_, y)) ==> y >= self.vertical_scroll_offset as u16,
        ensures
            r == match self.cursor_position {
                Some((x, y)) => Some((x, (y - self.vertical_scroll_offset as u16) as u16)),
                None => None,
            },
    {
        match self.cursor_position {
            Some((x, y)) => Some((x, y - self.vertical_scroll_offset as u16)),
            None => None,
        }
    }

    pub fn scroll_down(&mut self)
        ensures
            final(self).vertical_scroll_offset == if old(self).vertical_scroll_offset
                == usize::MAX {
                usize::MAX
            } else {
                (old(self).vertical_scroll_offset + 1) as usize
            },
            final(self).cursor_position == old(self).cursor_position,
    {
        self.vertical_scroll_offset = self.vertical_scroll_offset.saturating_add(1);
    }

    pub fn scroll_up(&mut self)
        ensures
            final(self).vertical_scroll_offset == if old(self).vertical_scroll_offset == 0 {
                0
            } else {
                (old(self).vertical_scroll_offset - 1) as usize
            },
            final(self).cursor_position == old(self).cursor_position,
    {
        self.vertical_scroll_offset = self.vertical_scroll_offset.saturating_sub(1);
    }

    /// Scrolls just enough that the cursor's line lies within the `height`
    /// visible lines.
    pub fn ensure_line_visible(&mut self, height: usize)
        ensures
            final(self).cursor_position == old(self).cursor_position,
            final(self).vertical_scroll_offset == match old(self).cursor_position {
                Some((_, y)) => visible_offset(
                    old(self).vertical_scroll_offset as int,
                    y as int,
                    height as int,
                ),
                None => old(self).vertical_scroll_offset as int,
            },
    {
        if let Some((_, y)) = self.cursor_position {
            let line = y as usize;
            if line < self.vertical_scroll_offset {
                self.vertical_scroll_offset = line;
            } else if line - self.vertical_scroll_offset >= height {
                self.vertical_scroll_offset = (line + 1).saturating_sub(height);
            }
        }
    }

    pub fn reset(&mut self)
        ensures
            final(self).vertical_scroll_offset == 0,
            final(self).cursor_position == old(self).cursor_position,
    {
        self.vertical_scroll_offset = 0;
    }
}

/// After scrolling to make the cursor's line visible in a view of at least one
/// line, that line lies among the visible ones.
pub proof fn law_cursor_line_visible(offset: int, line: int, height: int)
    requires
        0 <= offset,
        0 <= line,
        height > 0,
    ensures
        visible_offset(offset, line, height) <= line < visible_offset(offset, line, height) + height,
        visible_offset(offset, line, height) >= 0,
{
}

} // verus!
