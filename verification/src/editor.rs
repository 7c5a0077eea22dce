//! The input editor: its text, its cursor and their layout.
use crate::editor_viewport::{
    is_layout_of, layout_fits, resized, EditorViewport, WrapMode,
};
use crate::focus::{Focusable, Focused};
use crate::layout::{layout_cursor_byte_idx, layout_cursor_position};
use crate::text::{
    byte_len, byte_offset_of_char, byte_offset_of_char_idx, bytes_len_upto, chars_of,
    chars_within_bytes, char_count_within_bytes, lemma_byte_len_add, lemma_byte_len_bounds,
};
use crate::unicode::string_from_chars;
use vstd::prelude::*;

verus! {

/// Where a viewport places its cursor for byte `b`: the layout's cursor
/// position when a paragraph holds `b`, and `prev` otherwise.
pub open spec fn placed_cursor(vp: EditorViewport, prev: Option<(u16, u16)>, b: int) -> Option<
    (u16, u16),
> {
    match layout_cursor_position(vp.paras(), vp.width(), b) {
        Some(p) => Some(p),
        None => prev,
    }
}

/// The viewport `after` is `before` laid out anew for `text`: same mode and
/// width, the layout of `text` when it fits (else the old layout), scroll
/// offset and cursor unchanged.
pub open spec fn relaid(before: EditorViewport, after: EditorViewport, text: Seq<char>) -> bool {
    &&& after.wf()
    &&& after.mode() == before.mode()
    &&& after.width() == before.width()
    &&& after.mouse_area() == before.mouse_area()
    &&& layout_fits(text, before.mode(), before.width()) ==> is_layout_of(
        after.paras(),
        text,
        before.mode(),
        before.width(),
    )
    &&& !layout_fits(text, before.mode(), before.width()) ==> after.paras() == before.paras()
}

/// The viewport `after` is `before` with its cursor placed for byte `b`.
pub open spec fn cursor_placed(before: EditorViewport, after: EditorViewport, b: int) -> bool {
    &&& after.wf()
    &&& after.paras() == before.paras()
    &&& after.mode() == before.mode()
    &&& after.width() == before.width()
    &&& after.mouse_area() == before.mouse_area()
    &&& after.scroll().vertical_scroll_offset == before.scroll().vertical_scroll_offset
    &&& after.scroll().cursor_position == placed_cursor(before, before.scroll().cursor_position, b)
}

/// The viewport `after` is `before` laid out anew for `text` with its cursor
/// placed for byte `b` (see `relaid` and `placed_cursor`).
pub open spec fn edited_view(
    before: EditorViewport,
    after: EditorViewport,
    text: Seq<char>,
    b: int,
) -> bool {
    &&& relaid(before, after, text)
    &&& after.scroll().vertical_scroll_offset == before.scroll().vertical_scroll_offset
    &&& after.scroll().cursor_position == placed_cursor(after, before.scroll().cursor_position, b)
}

/// `k + 1`, saturating at `usize::MAX`.
pub open spec fn saturating_inc(k: usize) -> int {
    if k == usize::MAX {
        usize::MAX as int
    } else {
        k + 1
    }
}

/// The index a cursor at `k` moves to when clamped to a text of `n` characters.
pub open spec fn clamp_index(k: int, n: int) -> int {
    if k > n {
        n
    } else {
        k
    }
}

/// The editor's text after deleting the character before cursor index `c`
/// (the characters before index `c - 1` followed by those from index `c`).
pub open spec fn delete_before(s: Seq<char>, c: int) -> Seq<char> {
    s.take(clamp_index(c - 1, s.len() as int)) + s.skip(clamp_index(c, s.len() as int))
}

/// `after` is the editor `before` with `c` typed at the cursor (see
/// `Editor::enter_char`).
pub open spec fn entered(before: Editor, after: Editor, c: char) -> bool {
    &&& after.wf()
    &&& after.editing() == before.editing()
    &&& after.focus_flag() == before.focus_flag()
    &&& byte_len(before.text()) + 4 > usize::MAX ==> after == before
    &&& byte_len(before.text()) + 4 <= usize::MAX ==> {
        let k = clamp_index(before.cursor() as int, before.text().len() as int);
        let text = before.text().insert(k, c);
        let cur = clamp_index(saturating_inc(before.cursor()), text.len() as int);
        &&& after.text() == text
        &&& after.cursor() == cur
        &&& edited_view(before.vp(), after.vp(), text, byte_offset_of_char(text, cur) as int)
    }
}

/// `after` is the editor `before` with the character before the cursor
/// deleted (see `Editor::delete_char`).
pub open spec fn deleted(before: Editor, after: Editor) -> bool {
    &&& after.wf()
    &&& after.editing() == before.editing()
    &&& after.focus_flag() == before.focus_flag()
    &&& before.cursor() == 0 ==> after == before
    &&& before.cursor() != 0 ==> {
        let text = delete_before(before.text(), before.cursor() as int);
        let c = clamp_index(before.cursor() - 1, text.len() as int);
        &&& after.text() == text
        &&& after.cursor() == c
        &&& edited_view(before.vp(), after.vp(), text, byte_offset_of_char(text, c) as int)
    }
}

/// `after` is the editor `before` with its editing flag set to `v`.
pub open spec fn editing_set(before: Editor, after: Editor, v: bool) -> bool {
    &&& after.editing() == v
    &&& after.text() == before.text()
    &&& after.cursor() == before.cursor()
    &&& after.vp() == before.vp()
    &&& after.focus_flag() == before.focus_flag()
}

/// `after` is the editor `before` with `data` pasted at the cursor (see
/// `Editor::paste_data`).
pub open spec fn pasted(before: Editor, after: Editor, data: Seq<char>) -> bool {
    let k = clamp_index(before.cursor() as int, before.text().len() as int);
    let text = before.text().take(k) + data + before.text().skip(k);
    let c = clamp_index(k + data.len(), text.len() as int);
    &&& after.wf()
    &&& after.editing() == before.editing()
    &&& after.focus_flag() == before.focus_flag()
    &&& after.text() == text
    &&& after.cursor() == c
    &&& edited_view(before.vp(), after.vp(), text, byte_offset_of_char(text, c) as int)
}

/// `after` is the editor `before` with its text replaced by `data` and the
/// cursor at its end (see `Editor::handle_editting_in_editor`).
pub open spec fn replaced(before: Editor, after: Editor, data: Seq<char>) -> bool {
    &&& after.wf()
    &&& after.editing() == before.editing()
    &&& after.focus_flag() == before.focus_flag()
    &&& after.text() == data
    &&& after.cursor() == data.len()
    &&& edited_view(before.vp(), after.vp(), data, byte_len(data) as int)
}

/// `after` is the editor `before` emptied (see `Editor::clear`).
pub open spec fn cleared(before: Editor, after: Editor) -> bool {
    &&& after.wf()
    &&& after.editing() == before.editing()
    &&& after.focus_flag() == before.focus_flag()
    &&& after.text() == Seq::<char>::empty()
    &&& after.cursor() == 0
    &&& edited_view(before.vp(), after.vp(), Seq::<char>::empty(), 0)
}

/// `after` is the editor `before` with its cursor moved to character index
/// `target` clamped to the text.
pub open spec fn cursor_moved(before: Editor, after: Editor, target: int) -> bool {
    &&& after.wf()
    &&& after.text() == before.text()
    &&& after.editing() == before.editing()
    &&& after.focus_flag() == before.focus_flag()
    &&& after.cursor() == clamp_index(target, before.text().len() as int)
    &&& cursor_placed(before.vp(), after.vp(), after.cursor_byte())
}

/// `after` is the editor `before` with its cursor one character left.
pub open spec fn moved_left(before: Editor, after: Editor) -> bool {
    cursor_moved(before, after, if before.cursor() == 0 { 0 } else { before.cursor() - 1 })
}

/// `after` is the editor `before` with its cursor one character right.
pub open spec fn moved_right(before: Editor, after: Editor) -> bool {
    cursor_moved(before, after, saturating_inc(before.cursor()))
}

/// `after` is the editor `before` with its cursor moved one visual line down
/// (`down`) or up; without a layout nothing changes.
pub open spec fn moved_vertically(before: Editor, after: Editor, down: bool) -> bool {
    &&& after.wf()
    &&& after.text() == before.text()
    &&& after.editing() == before.editing()
    &&& after.focus_flag() == before.focus_flag()
    &&& before.vp().paras().len() == 0 ==> after == before
    &&& before.vp().paras().len() > 0 ==> {
        let y = if down {
            if before.cursor_row() == u16::MAX { u16::MAX as int } else { before.cursor_row() + 1 }
        } else {
            if before.cursor_row() == 0 { 0 } else { before.cursor_row() - 1 }
        };
        &&& after.cursor() == before.vertical_target(y)
        &&& cursor_placed(before.vp(), after.vp(), after.cursor_byte())
    }
}

/// `a` and `b` are the same editor but for the focus.
pub open spec fn same_but_focus(a: Editor, b: Editor) -> bool {
    &&& a.text() == b.text()
    &&& a.cursor() == b.cursor()
    &&& a.vp() == b.vp()
    &&& a.editing() == b.editing()
}

/// The text input editor.
pub struct Editor {
    /// Current value of the input.
    input: Vec<char>,
    /// Current cursor char idx in input.
    pub cursor_char_idx: usize,
    focused: bool,
    is_editing: bool,
    pub viewport: EditorViewport,
}

impl Focusable for Editor {
    open spec fn has_focus(&self) -> bool {
        self.focus_flag()
    }

    closed spec fn kind(&self) -> Focused {
        Focused::InputEditor
    }

    fn set_focus(&mut self, focused: bool)
        ensures
            same_but_focus(*old(self), *final(self)),
            final(self).focus_flag() == focused,
    {
        self.focused = focused;
    }

    fn is_focused(&self) -> (r: bool) {
        self.focused
    }

    fn to_focused(&self) -> (r: Focused) {
        Focused::InputEditor
    }
}

impl Editor {
    /// The editor's text.
    pub closed spec fn text(&self) -> Seq<char> {
        self.input@
    }

    pub closed spec fn vp(&self) -> EditorViewport {
        self.viewport
    }

    pub closed spec fn cursor(&self) -> usize {
        self.cursor_char_idx
    }

    pub closed spec fn editing(&self) -> bool {
        self.is_editing
    }

    pub closed spec fn focus_flag(&self) -> bool {
        self.focused
    }

    /// The text's byte length fits in `usize` and the layout is well laid.
    pub open spec fn wf(&self) -> bool {
        &&& byte_len(self.text()) <= usize::MAX
        &&& self.vp().wf()
    }

    /// Byte offset of the cursor in the text.
    pub open spec fn cursor_byte(&self) -> int {
        byte_offset_of_char(self.text(), self.cursor() as int) as int
    }

    /// An editor holding `input` with the cursor at its end, not focused and
    /// not editing, with a viewport in wrap mode `wrap_mode` that has no
    /// layout yet.
    pub fn new(input: String, wrap_mode: WrapMode) -> (e: Self)
        requires
            byte_len(input@) <= usize::MAX,
        ensures
            e.wf(),
            e.text() == input@,
            e.cursor() == input@.len(),
            !e.editing(),
            !e.focus_flag(),
            e.vp().is_fresh(wrap_mode),
    {
        let chars = chars_of(input.as_str());
        let n = chars.len();
        Editor {
            input: chars,
            cursor_char_idx: n,
            focused: false,
            is_editing: false,
            viewport: EditorViewport::new(wrap_mode),
        }
    }

    pub fn viewport(&self) -> (r: &EditorViewport)
        ensures
            *r == self.vp(),
    {
        &self.viewport
    }

    /// The current input.
    pub fn input(&self) -> (s: String)
        ensures
            s@ == self.text(),
    {
        string_from_chars(self.input.as_slice())
    }

    /// Replaces the text, leaving the cursor and the layout as they are.
    pub fn set_input(&mut self, input: String)
        requires
            old(self).wf(),
            byte_len(input@) <= usize::MAX,
        ensures
            final(self).wf(),
            final(self).text() == input@,
            final(self).cursor() == old(self).cursor(),
            final(self).vp() == old(self).vp(),
            final(self).editing() == old(self).editing(),
            final(self).focus_flag() == old(self).focus_flag(),
    {
        self.input = chars_of(input.as_str());
    }

    pub fn is_editing(&self) -> (r: bool)
        ensures
            r == self.editing(),
    {
        self.is_editing
    }

    pub fn set_is_editing(&mut self, is_editing: bool)
        ensures
            editing_set(*old(self), *final(self), is_editing),
    {
        self.is_editing = is_editing;
    }

    /// Byte offset of the cursor: that of the character at the cursor's
    /// index, or the text's length when the cursor is past its end.
    fn cursor_byte_idx(&self) -> (b: usize)
        requires
            self.wf(),
        ensures
            b == self.cursor_byte(),
    {
        byte_offset_of_char_idx(self.input.as_slice(), self.cursor_char_idx)
    }

    /// Sets the viewport width, laying the text out anew when it changes.
    pub fn set_viewport_width(&mut self, viewport_width: usize)
        requires
            old(self).wf(),
        ensures
            final(self).wf(),
            final(self).text() == old(self).text(),
            final(self).cursor() == old(self).cursor(),
            final(self).editing() == old(self).editing(),
            final(self).focus_flag() == old(self).focus_flag(),
            resized(
                old(self).vp(),
                final(self).vp(),
                viewport_width,
                old(self).text(),
                old(self).cursor_byte(),
            ),
    {
        let b = self.cursor_byte_idx();
        self.viewport.set_viewport_width_chars(viewport_width, self.input.as_slice(), b);
    }

    /// Inserts `new_char` at the cursor and moves the cursor after it. When
    /// the text's byte length could no longer be held in `usize`, the editor
    /// is left as it is.
    pub fn enter_char(&mut self, new_char: char)
        requires
            old(self).wf(),
        ensures
            entered(*old(self), *final(self), new_char),
    {
        if bytes_len_upto(self.input.as_slice(), usize::MAX - 4).is_none() {
            return;
        }
        let k = if self.cursor_char_idx > self.input.len() {
            self.input.len()
        } else {
            self.cursor_char_idx
        };
        proof {
            crate::text::lemma_byte_len_insert(self.input@, k as int, new_char);
        }
        self.input.insert(k, new_char);
        self.viewport.reflow_chars(self.input.as_slice());
        self.move_cursor_right();
    }

    /// Deletes the character before the cursor and moves the cursor left;
    /// nothing happens with the cursor at the start.
    pub fn delete_char(&mut self)
        requires
            old(self).wf(),
        ensures
            deleted(*old(self), *final(self)),
    {
        if self.cursor_char_idx != 0 {
            let current_idx = self.cursor_char_idx;
            let n = self.input.len();
            let keep_before = if current_idx - 1 > n {
                n
            } else {
                current_idx - 1
            };
            let resume = if current_idx > n {
                n
            } else {
                current_idx
            };
            let mut rest: Vec<char> = Vec::new();
            let mut i: usize = 0;
            while i < keep_before
                invariant
                    keep_before <= resume <= n,
                    n == self.input@.len(),
                    i <= keep_before,
                    rest@ == self.input@.take(i as int),
                decreases keep_before - i,
            {
                rest.push(self.input[i]);
                assert(rest@ =~= self.input@.take(i as int + 1));
                i = i + 1;
            }
            let mut j: usize = resume;
            while j < n
                invariant
                    keep_before <= resume <= j <= n,
                    n == self.input@.len(),
                    rest@ == self.input@.take(keep_before as int) + self.input@.subrange(
                        resume as int,
                        j as int,
                    ),
                decreases n - j,
            {
                rest.push(self.input[j]);
                assert(rest@ =~= self.input@.take(keep_before as int) + self.input@.subrange(
                    resume as int,
                    j as int + 1,
                ));
                j = j + 1;
            }
            assert(self.input@.subrange(resume as int, n as int) =~= self.input@.skip(
                resume as int,
            ));
            proof {
                crate::text::lemma_byte_len_cut(self.input@, keep_before as int, resume as int);
            }
            self.input = rest;
            self.viewport.reflow_chars(self.input.as_slice());
            self.move_cursor_left();
        }
    }

    /// Inserts the pasted text `data` at the cursor and moves the cursor
    /// after it.
    pub fn paste_data(&mut self, data: &str)
        requires
            old(self).wf(),
        ensures
            pasted(*old(self), *final(self), data@),
    {
        let pasted = chars_of(data);
        let n = self.input.len();
        let k = if self.cursor_char_idx > n {
            n
        } else {
            self.cursor_char_idx
        };
        let mut text: Vec<char> = Vec::new();
        let mut i: usize = 0;
        while i < k
            invariant
                k <= n == self.input@.len(),
                i <= k,
                text@ == self.input@.take(i as int),
            decreases k - i,
        {
            text.push(self.input[i]);
            assert(text@ =~= self.input@.take(i as int + 1));
            i = i + 1;
        }
        crate::text::append_chars(&mut text, pasted.as_slice());
        let mut j: usize = k;
        while j < n
            invariant
                k <= j <= n == self.input@.len(),
                text@ == self.input@.take(k as int) + pasted@ + self.input@.subrange(k as int, j as int),
            decreases n - j,
        {
            text.push(self.input[j]);
            assert(text@ =~= self.input@.take(k as int) + pasted@ + self.input@.subrange(k as int, j as int + 1));
            j = j + 1;
        }
        assert(self.input@.subrange(k as int, n as int) =~= self.input@.skip(k as int));
        crate::unicode::chars_fit(text.as_slice());
        let target = if pasted.len() > usize::MAX - k {
            usize::MAX
        } else {
            k + pasted.len()
        };
        assert(target == k + pasted@.len()) by {
            crate::text::lemma_byte_len_bounds(text@);
        }
        self.input = text;
        self.viewport.reflow_chars(self.input.as_slice());
        self.clamp_and_update_cursor_position(target);
    }

    /// Replaces the text with `data`, edited in an external editor, and puts
    /// the cursor at its end.
    pub fn handle_editting_in_editor(&mut self, data: String)
        requires
            old(self).wf(),
        ensures
            replaced(*old(self), *final(self), data@),
    {
        let text = chars_of(data.as_str());
        crate::unicode::chars_fit(text.as_slice());
        let n = text.len();
        self.input = text;
        self.viewport.reflow_chars(self.input.as_slice());
        self.clamp_and_update_cursor_position(n);
    }

    /// Clears the text and puts the cursor at its start.
    pub fn clear(&mut self)
        requires
            old(self).wf(),
        ensures
            cleared(*old(self), *final(self)),
    {
        self.input = Vec::new();
        self.viewport.reflow_chars(self.input.as_slice());
        self.cursor_char_idx = 0;
        let b = self.cursor_byte_idx();
        self.viewport.update_cursor_position(b);
    }

    /// Moves the cursor to the character at `target_cursor_char_idx`, clamped
    /// to the end of the text, and places the viewport's cursor there.
    fn clamp_and_update_cursor_position(&mut self, target_cursor_char_idx: usize)
        requires
            old(self).wf(),
        ensures
            cursor_moved(*old(self), *final(self), target_cursor_char_idx as int),
    {
        self.cursor_char_idx = if target_cursor_char_idx > self.input.len() {
            self.input.len()
        } else {
            target_cursor_char_idx
        };
        let b = self.cursor_byte_idx();
        self.viewport.update_cursor_position(b);
    }

    pub fn move_cursor_left(&mut self)
        requires
            old(self).wf(),
        ensures
            moved_left(*old(self), *final(self)),
    {
        let target_cursor_char_idx = self.cursor_char_idx.saturating_sub(1);
        self.clamp_and_update_cursor_position(target_cursor_char_idx);
    }

    pub fn move_cursor_right(&mut self)
        requires
            old(self).wf(),
        ensures
            moved_right(*old(self), *final(self)),
    {
        let target_cursor_char_idx = self.cursor_char_idx.saturating_add(1);
        self.clamp_and_update_cursor_position(target_cursor_char_idx);
    }

    /// Character index selected by moving the cursor to row `y` at its column.
    pub open spec fn vertical_target(&self, y: int) -> int {
        let (x, _) = match self.vp().scroll().cursor_position {
            Some(p) => p,
            None => (0u16, 0u16),
        };
        clamp_index(
            chars_within_bytes(
                self.text(),
                layout_cursor_byte_idx(self.vp().paras(), x as int, y),
            ) as int,
            self.text().len() as int,
        )
    }

    /// The cursor's row.
    pub open spec fn cursor_row(&self) -> u16 {
        match self.vp().scroll().cursor_position {
            Some(p) => p.1,
            None => 0u16,
        }
    }

    /// Moves the cursor one visual line down, keeping its column where the
    /// line allows. Before the text has any layout the cursor stays.
    pub fn move_cursor_down(&mut self)
        requires
            old(self).wf(),
        ensures
            moved_vertically(*old(self), *final(self), true),
    {
        self.move_cursor_vertically(true);
    }

    /// Moves the cursor one visual line up, keeping its column where the line
    /// allows. Before the text has any layout the cursor stays.
    pub fn move_cursor_up(&mut self)
        requires
            old(self).wf(),
        ensures
            moved_vertically(*old(self), *final(self), false),
    {
        self.move_cursor_vertically(false);
    }

    fn move_cursor_vertically(&mut self, down: bool)
        requires
            old(self).wf(),
        ensures
            moved_vertically(*old(self), *final(self), down),
    {
        if !self.viewport.has_layout() {
            return;
        }
        let (x, mut y) = self.viewport.cursor_position();
        y = if down {
            y.saturating_add(1)
        } else {
            y.saturating_sub(1)
        };
        let target_cursor_byte_idx = self.viewport.find_cursor_byte_idx((x, y));
        let target_cursor_char_idx = char_count_within_bytes(
            self.input.as_slice(),
            target_cursor_byte_idx,
        );
        self.clamp_and_update_cursor_position(target_cursor_char_idx);
    }
}

/// Typing a character and then deleting the one before the cursor gives back
/// the text and the cursor, when the cursor lies within the text and the
/// longer text still fits.
pub proof fn law_type_then_delete(e0: Editor, e1: Editor, e2: Editor, c: char)
    requires
        e0.wf(),
        e0.cursor() <= e0.text().len(),
        byte_len(e0.text()) + 4 <= usize::MAX,
        entered(e0, e1, c),
        deleted(e1, e2),
    ensures
        e2.text() == e0.text(),
        e2.cursor() == e0.cursor(),
        e2.editing() == e0.editing(),
        e2.focus_flag() == e0.focus_flag(),
{
    lemma_byte_len_bounds(e0.text());
    let k = e0.cursor() as int;
    let text = e0.text().insert(k, c);
    assert(e1.text() == text);
    assert(e1.cursor() == k + 1);
    assert(delete_before(text, k + 1) =~= e0.text());
}

/// Deleting with the cursor at the start of the text changes nothing.
pub proof fn law_delete_at_start(e0: Editor, e1: Editor)
    requires
        e0.wf(),
        e0.cursor() == 0,
        deleted(e0, e1),
    ensures
        e1 == e0,
{
}

} // verus!
