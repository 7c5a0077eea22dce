//! Layout of the input editor's text: logical paragraphs split at line
//! breaks, visual lines wrapped to the viewport width, and the cursor's
//! position among them.
use crate::area::Area;
use crate::paragraph::{
    LineLike,
    clamped_line_index, cursor_byte_idx_of, cursor_position_of, Paragraph,
};
use crate::layout::{
    all_lines, layout_byte_idx, layout_cursor_byte_idx, layout_cursor_position, lemma_all_lines_take,
    locate_cursor, well_laid,
};
use crate::scroll::ScrollState;
use crate::text::{byte_len, total_bytes, lemma_total_bytes_take};
use crate::unicode::{
    clusters_of, display_width, grapheme_clusters, str_width, string_from_chars, word_wrap,
    word_wrap_lines,
};
use vstd::prelude::*;

verus! {

/// How the editor wraps a paragraph into visual lines.
#[derive(Debug, Clone, Copy, PartialEq, Eq)]
pub enum WrapMode {
    /// Vim-style: fill to the column limit, then break.
    Character,
    /// Word-wrap: only break at word boundaries (spaces, punctuation, etc).
    Word,
}

impl Default for WrapMode {
    fn default() -> (m: Self)
        ensures
            m == WrapMode::Character,
    {
        WrapMode::Character
    }
}

/// The pieces of `s` between line breaks (`'\n'`), as `str::split('\n')`
/// yields them: an empty text is one empty piece and a trailing line break
/// ends with an empty piece.
pub open spec fn split_newlines(s: Seq<char>) -> Seq<Seq<char>>
    decreases s.len(),
{
    if s.len() == 0 {
        seq![Seq::<char>::empty()]
    } else {
        let prev = split_newlines(s.drop_last());
        if s.last() == '\n' {
            prev.push(Seq::<char>::empty())
        } else {
            prev.update(prev.len() - 1, prev.last().push(s.last()))
        }
    }
}

/// Greedy character wrapping of the grapheme clusters `gs` into lines of at
/// most `width` columns: the closed lines, the open line and its width. A
/// cluster that would make the open line wider than `width` starts a new line.
pub open spec fn char_wrap_state(gs: Seq<Seq<char>>, width: int) -> (
    Seq<Seq<char>>,
    Seq<char>,
    int,
)
    decreases gs.len(),
{
    if gs.len() == 0 {
        (Seq::empty(), Seq::empty(), 0)
    } else {
        let (lines, cur, w) = char_wrap_state(gs.drop_last(), width);
        let g = gs.last();
        let gw = display_width(g) as int;
        if w + gw > width {
            (lines.push(cur), g, gw)
        } else {
            (lines, cur + g, w + gw)
        }
    }
}

/// Visual lines of `s` in character mode: the greedy wrapping of its grapheme
/// clusters, with the open line closed at the end; an empty text is one empty
/// line.
pub open spec fn char_wrap(s: Seq<char>, width: int) -> Seq<Seq<char>> {
    let (lines, cur, _) = char_wrap_state(grapheme_clusters(s), width);
    let closed = if cur.len() > 0 {
        lines.push(cur)
    } else {
        lines
    };
    if s.len() == 0 {
        closed.push(Seq::<char>::empty())
    } else {
        closed
    }
}

/// Visual lines of the paragraph `s` in wrap mode `mode` at `width` columns.
pub open spec fn wrap_text(s: Seq<char>, mode: WrapMode, width: usize) -> Seq<Seq<char>> {
    match mode {
        WrapMode::Character => char_wrap(s, width as int),
        WrapMode::Word => word_wrap(s, width),
    }
}

/// Byte offset of the `i`-th of the pieces `ps` in their text joined by line
/// breaks.
pub open spec fn bytes_before(ps: Seq<Seq<char>>, i: int) -> int
    decreases i,
{
    if i <= 0 {
        0
    } else {
        bytes_before(ps, i - 1) + byte_len(ps[i - 1]) + 1
    }
}

/// Index of the first visual line of the `i`-th of the pieces `ps`.
pub open spec fn lines_before(ps: Seq<Seq<char>>, mode: WrapMode, width: usize, i: int) -> int
    decreases i,
{
    if i <= 0 {
        0
    } else {
        lines_before(ps, mode, width, i - 1) + wrap_text(ps[i - 1], mode, width).len()
    }
}

/// The offsets and sizes of the layout of `input` fit in `usize` arithmetic.
pub open spec fn layout_fits(input: Seq<char>, mode: WrapMode, width: usize) -> bool {
    let ps = split_newlines(input);
    forall|i: int|
        0 <= i < ps.len() ==> {
            &&& bytes_before(ps, i) + byte_len(#[trigger] ps[i]) + 1 <= usize::MAX
            &&& bytes_before(ps, i) + total_bytes(wrap_text(ps[i], mode, width)) <= usize::MAX
            &&& lines_before(ps, mode, width, i) + wrap_text(ps[i], mode, width).len()
                <= usize::MAX
        }
}

/// `ps` is the layout of `input`: one paragraph per piece between line
/// breaks, wrapped in mode `mode` at `width` columns, at consecutive byte and
/// line offsets.
pub open spec fn is_layout_of(
    paras: Seq<Paragraph<Vec<char>>>,
    input: Seq<char>,
    mode: WrapMode,
    width: usize,
) -> bool {
    let ps = split_newlines(input);
    &&& paras.len() == ps.len()
    &&& forall|i: int|
        0 <= i < ps.len() ==> {
            &&& (#[trigger] paras[i]).text() == ps[i]
            &&& paras[i].line_texts() == wrap_text(ps[i], mode, width)
            &&& paras[i].start_byte() == bytes_before(ps, i)
            &&& paras[i].start_line() == lines_before(ps, mode, width, i)
        }
}

/// The viewport `after` is `before` set to `width` columns for the text
/// `input` with the cursor at byte `b`: when the width changes, the text is
/// laid out anew (the old layout stays when the new one would not fit in
/// `usize` offsets) and the cursor is placed for `b` when a paragraph holds it;
/// otherwise nothing changes.
pub open spec fn resized(
    before: EditorViewport,
    after: EditorViewport,
    width: usize,
    input: Seq<char>,
    b: int,
) -> bool {
    &&& after.wf()
    &&& after.mode() == before.mode()
    &&& after.mouse_area() == before.mouse_area()
    &&& after.width() == width
    &&& width == before.width() ==> after.paras() == before.paras() && after.scroll()
        == before.scroll()
    &&& width != before.width() ==> {
        &&& layout_fits(input, before.mode(), width) ==> is_layout_of(
            after.paras(),
            input,
            before.mode(),
            width,
        )
        &&& !layout_fits(input, before.mode(), width) ==> after.paras() == before.paras()
        &&& after.scroll().vertical_scroll_offset == before.scroll().vertical_scroll_offset
        &&& after.scroll().cursor_position == match layout_cursor_position(
            after.paras(),
            width,
            b,
        ) {
            Some(p) => Some(p),
            None => before.scroll().cursor_position,
        }
    }
}

/// The input editor's layout.
pub struct EditorViewport {
    /// Wrap mode, should not change after bootstrap.
    wrap_mode: WrapMode,
    /// Logical paragraphs wrapped with viewport_width.
    paragraphs: Vec<Paragraph<Vec<char>>>,
    /// Available visual width.
    viewport_width: usize,
    scroll_state: ScrollState,
    area: Area,
}


/// The pieces of `s` between line breaks (see `split_newlines`).
pub fn split_newlines_of(s: &[char]) -> (ps: Vec<Vec<char>>)
    ensures
        ps@.map_values(|p: Vec<char>| p@) == split_newlines(s@),
        ps.len() >= 1,
{
    let mut done: Vec<Vec<char>> = Vec::new();
    let mut cur: Vec<char> = Vec::new();
    let mut i: usize = 0;
    assert(s@.take(0) =~= Seq::<char>::empty());
    assert(done@.map_values(|p: Vec<char>| p@).push(cur@) =~= split_newlines(s@.take(0)));
    while i < s.len()
        invariant
            i <= s@.len(),
            done@.map_values(|p: Vec<char>| p@).push(cur@) == split_newlines(s@.take(i as int)),
        decreases s.len() - i,
    {
        let ghost before = done@.map_values(|p: Vec<char>| p@).push(cur@);
        assert(s@.take(i as int + 1).drop_last() =~= s@.take(i as int));
        assert(s@.take(i as int + 1).last() == s@[i as int]);
        if s[i] == '\n' {
            done.push(cur);
            cur = Vec::new();
            assert(done@.map_values(|p: Vec<char>| p@).push(cur@) =~= before.push(
                Seq::<char>::empty(),
            ));
        } else {
            cur.push(s[i]);
            assert(done@.map_values(|p: Vec<char>| p@).push(cur@) =~= before.update(
                before.len() - 1,
                before.last().push(s@[i as int]),
            ));
        }
        i = i + 1;
    }
    assert(s@.take(s@.len() as int) =~= s@);
    done.push(cur);
    done
}

/// Visual lines of `s` in character mode at `width` columns (see `char_wrap`).
fn wrap_characters(s: &[char], width: usize) -> (lines: Vec<Vec<char>>)
    ensures
        lines@.map_values(|l: Vec<char>| l@) == char_wrap(s@, width as int),
        lines.len() >= 1,
{
    let gs = clusters_of(s);
    let ghost gv = gs@.map_values(|g: Vec<char>| g@);
    assert(gv =~= grapheme_clusters(s@));
    let mut lines: Vec<Vec<char>> = Vec::new();
    let mut cur: Vec<char> = Vec::new();
    let mut current_width: usize = 0;
    let mut k: usize = 0;
    assert(gv.take(0) =~= Seq::<Seq<char>>::empty());
    assert(lines@.map_values(|l: Vec<char>| l@) =~= Seq::<Seq<char>>::empty());
    while k < gs.len()
        invariant
            gv == gs@.map_values(|g: Vec<char>| g@),
            forall|i: int| 0 <= i < gs.len() ==> #[trigger] gs@[i]@.len() > 0,
            k <= gs.len(),
            char_wrap_state(gv.take(k as int), width as int) == (
                lines@.map_values(|l: Vec<char>| l@),
                cur@,
                current_width as int,
            ),
            k > 0 ==> cur@.len() > 0,
        decreases gs.len() - k,
    {
        let g = gs[k].as_slice();
        assert(g@ == gv[k as int]);
        let grapheme_width = str_width(g);
        assert(gv.take(k as int + 1).drop_last() =~= gv.take(k as int));
        assert(gv.take(k as int + 1).last() == gv[k as int]);
        let ghost closed = lines@.map_values(|l: Vec<char>| l@);
        if current_width > width || grapheme_width > width - current_width {
            lines.push(cur);
            cur = Vec::new();
            current_width = 0;
            assert(lines@.map_values(|l: Vec<char>| l@) =~= closed.push(
                char_wrap_state(gv.take(k as int), width as int).1,
            ));
        }
        crate::text::append_chars(&mut cur, g);
        current_width = current_width + grapheme_width;
        k = k + 1;
    }
    assert(gv.take(gs.len() as int) =~= gv);
    let ghost closed = lines@.map_values(|l: Vec<char>| l@);
    if cur.len() > 0 {
        lines.push(cur);
        assert(lines@.map_values(|l: Vec<char>| l@) =~= closed.push(
            char_wrap_state(gv, width as int).1,
        ));
    }
    let ghost closed2 = lines@.map_values(|l: Vec<char>| l@);
    if s.len() == 0 {
        lines.push(Vec::new());
        assert(lines@.map_values(|l: Vec<char>| l@) =~= closed2.push(Seq::<char>::empty()));
    } else {
        proof {
            if gs.len() == 0 {
                assert(gv =~= Seq::<Seq<char>>::empty());
            }
        }
    }
    lines
}


impl EditorViewport {
    pub closed spec fn mode(&self) -> WrapMode {
        self.wrap_mode
    }

    pub closed spec fn paras(&self) -> Seq<Paragraph<Vec<char>>> {
        self.paragraphs@
    }

    pub closed spec fn width(&self) -> usize {
        self.viewport_width
    }

    pub closed spec fn scroll(&self) -> ScrollState {
        self.scroll_state
    }

    pub closed spec fn mouse_area(&self) -> Area {
        self.area
    }

    /// A viewport in wrap mode `mode` with no layout, zero columns wide, not
    /// scrolled, with its cursor at the origin and an empty mouse area.
    pub open spec fn is_fresh(&self, mode: WrapMode) -> bool {
        &&& self.mode() == mode
        &&& self.paras() == Seq::<Paragraph<Vec<char>>>::empty()
        &&& self.width() == 0
        &&& self.scroll().vertical_scroll_offset == 0
        &&& self.scroll().cursor_position == Some((0u16, 0u16))
        &&& self.mouse_area() == (Area { column: 0, row: 0, height: 0, width: 0 })
    }

    /// The layout's paragraphs are well laid (see `well_laid`).
    pub open spec fn wf(&self) -> bool {
        well_laid(self.paras())
    }

    /// A viewport with no layout yet, zero columns wide, with its cursor at
    /// the origin.
    pub fn new(wrap_mode: WrapMode) -> (v: Self)
        ensures
            v.is_fresh(wrap_mode),
            v.wf(),
    {
        EditorViewport {
            wrap_mode,
            paragraphs: Vec::new(),
            viewport_width: 0,
            scroll_state: ScrollState::default().with_cursor(),
            area: Area::default(),
        }
    }

    /// Whether the text has been laid out.
    pub fn has_layout(&self) -> (r: bool)
        ensures
            r == (self.paras().len() > 0),
    {
        self.paragraphs.len() > 0
    }

    /// Current cursor position, the origin when there is none.
    pub fn cursor_position(&self) -> (pos: (u16, u16))
        ensures
            pos == match self.scroll().cursor_position {
                Some(p) => p,
                None => (0u16, 0u16),
            },
    {
        match self.scroll_state.cursor_position() {
            Some(p) => p,
            None => (0, 0),
        }
    }

    /// A copy of the scroll state.
    pub fn current_scroll(&self) -> (r: ScrollState)
        ensures
            r == self.scroll(),
    {
        self.scroll_state
    }

    pub fn scroll_state(&mut self) -> (r: &mut ScrollState)
        ensures
            *r == old(self).scroll(),
            final(self).scroll() == *final(r),
            final(self).paras() == old(self).paras(),
            final(self).mode() == old(self).mode(),
            final(self).width() == old(self).width(),
            final(self).mouse_area() == old(self).mouse_area(),
    {
        &mut self.scroll_state
    }

    pub fn area(&self) -> (r: &Area)
        ensures
            *r == self.mouse_area(),
    {
        &self.area
    }

    pub fn set_area(&mut self, area: Area)
        ensures
            final(self).mouse_area() == area,
            final(self).paras() == old(self).paras(),
            final(self).mode() == old(self).mode(),
            final(self).width() == old(self).width(),
            final(self).scroll() == old(self).scroll(),
    {
        self.area = area;
    }

    /// All visual lines, in order.
    pub fn lines(&self) -> (r: Vec<String>)
        ensures
            r@.map_values(|l: String| l@) == all_lines(self.paras()),
    {
        let ghost ps = self.paragraphs@;
        let mut r: Vec<String> = Vec::new();
        let mut i: usize = 0;
        assert(ps.take(0).map_values(|p: Paragraph<Vec<char>>| p.line_texts()) =~= Seq::<
            Seq<Seq<char>>,
        >::empty());
        assert(r@.map_values(|l: String| l@) =~= all_lines(ps.take(0)));
        while i < self.paragraphs.len()
            invariant
                ps == self.paragraphs@,
                i <= ps.len(),
                r@.map_values(|l: String| l@) == all_lines(ps.take(i as int)),
            decreases self.paragraphs.len() - i,
        {
            let ls = self.paragraphs[i].lines();
            let ghost lt = ps[i as int].line_texts();
            assert(ls@.map_values(|l: Vec<char>| l.text()) == lt);
            let ghost base = r@.map_values(|l: String| l@);
            let mut j: usize = 0;
            assert(base + lt.take(0) =~= base);
            while j < ls.len()
                invariant
                    j <= ls@.len(),
                    ls@.map_values(|l: Vec<char>| l.text()) == lt,
                    r@.map_values(|l: String| l@) == base + lt.take(j as int),
                decreases ls.len() - j,
            {
                let line = string_from_chars(ls[j].as_chars());
                assert(lt[j as int] == ls@[j as int]@);
                let ghost before = r@.map_values(|l: String| l@);
                r.push(line);
                assert(r@.map_values(|l: String| l@) =~= before.push(line@));
                assert(lt.take(j as int + 1) =~= lt.take(j as int).push(lt[j as int]));
                assert(r@.map_values(|l: String| l@) =~= base + lt.take(j as int + 1));
                j = j + 1;
            }
            assert(lt.take(ls@.len() as int) =~= lt);
            proof {
                lemma_all_lines_take(ps, i as int);
            }
            i = i + 1;
        }
        assert(ps.take(ps.len() as int) =~= ps);
        r
    }

    /// Visual lines of the paragraph `input` in this viewport's wrap mode and
    /// width.
    fn wrap(&self, input: &[char]) -> (lines: Vec<Vec<char>>)
        ensures
            lines@.map_values(|l: Vec<char>| l@) == wrap_text(
                input@,
                self.mode(),
                self.width(),
            ),
            lines.len() >= 1,
    {
        match self.wrap_mode {
            WrapMode::Character => wrap_characters(input, self.viewport_width),
            WrapMode::Word => word_wrap_lines(input, self.viewport_width),
        }
    }

    /// Recalculates the layout for `input`.
    pub fn reflow(&mut self, input: &str)
        requires
            old(self).wf(),
        ensures
            final(self).wf(),
            layout_fits(input@, old(self).mode(), old(self).width()) ==> is_layout_of(
                final(self).paras(),
                input@,
                old(self).mode(),
                old(self).width(),
            ),
            !layout_fits(input@, old(self).mode(), old(self).width()) ==> final(self).paras()
                == old(self).paras(),
            final(self).mode() == old(self).mode(),
            final(self).width() == old(self).width(),
            final(self).scroll() == old(self).scroll(),
            final(self).mouse_area() == old(self).mouse_area(),
    {
        let chars = crate::text::chars_of(input);
        self.reflow_chars(chars.as_slice());
    }

    /// Recalculates the layout for the characters `input`. When the layout's
    /// offsets would not fit in `usize`, the layout is left as it was.
    pub fn reflow_chars(&mut self, input: &[char])
        requires
            old(self).wf(),
        ensures
            final(self).wf(),
            layout_fits(input@, old(self).mode(), old(self).width()) ==> is_layout_of(
                final(self).paras(),
                input@,
                old(self).mode(),
                old(self).width(),
            ),
            !layout_fits(input@, old(self).mode(), old(self).width()) ==> final(self).paras()
                == old(self).paras(),
            final(self).mode() == old(self).mode(),
            final(self).width() == old(self).width(),
            final(self).scroll() == old(self).scroll(),
            final(self).mouse_area() == old(self).mouse_area(),
    {
        let pieces = split_newlines_of(input);
        let ghost ps = pieces@.map_values(|p: Vec<char>| p@);
        let ghost mode = self.wrap_mode;
        let ghost width = self.viewport_width;
        let mut paragraphs: Vec<Paragraph<Vec<char>>> = Vec::new();
        let mut byte_offset: usize = 0;
        let mut line_offset: usize = 0;
        let mut i: usize = 0;
        while i < pieces.len()
            invariant
                ps == pieces@.map_values(|p: Vec<char>| p@),
                ps == split_newlines(input@),
                mode == self.mode(),
                width == self.width(),
                i <= ps.len(),
                paragraphs@.len() == i,
                byte_offset == bytes_before(ps, i as int),
                line_offset == lines_before(ps, mode, width, i as int),
                forall|j: int|
                    0 <= j < i ==> {
                        &&& (#[trigger] paragraphs@[j]).text() == ps[j]
                        &&& paragraphs@[j].line_texts() == wrap_text(ps[j], mode, width)
                        &&& paragraphs@[j].start_byte() == bytes_before(ps, j)
                        &&& paragraphs@[j].start_line() == lines_before(ps, mode, width, j)
                    },
                forall|j: int|
                    0 <= j < i ==> {
                        &&& bytes_before(ps, j) + byte_len(#[trigger] ps[j]) + 1 <= usize::MAX
                        &&& bytes_before(ps, j) + total_bytes(wrap_text(ps[j], mode, width))
                            <= usize::MAX
                        &&& lines_before(ps, mode, width, j) + wrap_text(ps[j], mode, width).len()
                            <= usize::MAX
                    },
                well_laid(paragraphs@),
                i > 0 ==> line_offset == paragraphs@[i - 1].start_line()
                    + paragraphs@[i - 1].line_texts().len(),
                self.wf(),
            decreases pieces.len() - i,
        {
            let piece = pieces[i].as_slice();
            assert(piece@ == ps[i as int]);
            let lines = self.wrap(piece);
            let ghost lv = lines@.map_values(|l: Vec<char>| l@);
            let piece_len = match crate::text::bytes_len_upto(piece, usize::MAX - byte_offset) {
                Some(n) => n,
                None => {
                    return;
                },
            };
            if piece_len == usize::MAX - byte_offset {
                return;
            }
            match crate::text::total_bytes_bounded(&lines, usize::MAX - byte_offset) {
                Some(_) => {},
                None => {
                    return;
                },
            }
            let line_count = lines.len();
            if line_count > usize::MAX - line_offset {
                return;
            }
            let mut paragraph = Paragraph::build(crate::text::copy_chars(piece));
            paragraph.reflow(lines, byte_offset, line_offset);
            assert(paragraph.line_texts() =~= lv);
            let ghost prev = paragraphs@;
            paragraphs.push(paragraph);
            proof {
                assert(paragraphs@[i as int] == paragraph);
                assert forall|j: int| 0 < j < paragraphs@.len() implies (
                #[trigger] paragraphs@[j]).start_line() == paragraphs@[j - 1].start_line()
                    + paragraphs@[j - 1].line_texts().len() by {
                    if j < i {
                        assert(paragraphs@[j] == prev[j]);
                    }
                }
            }
            byte_offset = byte_offset + piece_len + 1;
            line_offset = line_offset + line_count;
            i = i + 1;
        }
        assert(layout_fits(input@, mode, width));
        self.paragraphs = paragraphs;
    }

    /// Sets the cursor position from the cursor's byte index, when a
    /// paragraph holds it (see `layout_cursor_position`).
    pub fn update_cursor_position(&mut self, cursor_byte_idx: usize)
        requires
            old(self).wf(),
        ensures
            final(self).paras() == old(self).paras(),
            final(self).mode() == old(self).mode(),
            final(self).width() == old(self).width(),
            final(self).mouse_area() == old(self).mouse_area(),
            final(self).scroll().vertical_scroll_offset == old(
                self,
            ).scroll().vertical_scroll_offset,
            final(self).scroll().cursor_position == match layout_cursor_position(
                old(self).paras(),
                old(self).width(),
                cursor_byte_idx as int,
            ) {
                Some(p) => Some(p),
                None => old(self).scroll().cursor_position,
            },
    {
        match locate_cursor(self.paragraphs.as_slice(), self.viewport_width, cursor_byte_idx) {
            Some(pos) => self.scroll_state.set_cursor_position(pos),
            None => {},
        }
    }

    /// Byte index that the cursor position `cursor_position` selects (see
    /// `layout_cursor_byte_idx`).
    pub fn find_cursor_byte_idx(&self, cursor_position: (u16, u16)) -> (b: usize)
        requires
            self.wf(),
            self.paras().len() >= 1,
        ensures
            b == layout_cursor_byte_idx(
                self.paras(),
                cursor_position.0 as int,
                cursor_position.1 as int,
            ),
    {
        layout_byte_idx(self.paragraphs.as_slice(), cursor_position)
    }

    /// Sets the viewport width; when it changes, recalculates the layout of
    /// `input` and places the cursor at `cursor_byte_idx`.
    pub fn set_viewport_width(&mut self, viewport_width: usize, input: &str, cursor_byte_idx: usize)
        requires
            old(self).wf(),
        ensures
            resized(*old(self), *final(self), viewport_width, input@, cursor_byte_idx as int),
    {
        let chars = crate::text::chars_of(input);
        self.set_viewport_width_chars(viewport_width, chars.as_slice(), cursor_byte_idx);
    }

    /// Sets the viewport width; when it changes, recalculates the layout of
    /// the characters `input` and places the cursor at `cursor_byte_idx`.
    pub fn set_viewport_width_chars(
        &mut self,
        viewport_width: usize,
        input: &[char],
        cursor_byte_idx: usize,
    )
        requires
            old(self).wf(),
        ensures
            resized(*old(self), *final(self), viewport_width, input@, cursor_byte_idx as int),
    {
        if viewport_width != self.viewport_width {
            self.viewport_width = viewport_width;
            self.reflow_chars(input);
            self.update_cursor_position(cursor_byte_idx);
        }
    }
}

/// The closed lines of a character wrapping, followed by its open line, hold
/// the clusters it was given, in order.
proof fn lemma_char_wrap_state_keeps_text(gs: Seq<Seq<char>>, width: int)
    ensures
        ({
            let (lines, cur, _) = char_wrap_state(gs, width);
            lines.flatten() + cur == gs.flatten()
        }),
    decreases gs.len(),
{
    if gs.len() > 0 {
        lemma_char_wrap_state_keeps_text(gs.drop_last(), width);
        let (lines, cur, w) = char_wrap_state(gs.drop_last(), width);
        let g = gs.last();
        gs.drop_last().lemma_flatten_push(g);
        assert(gs.drop_last().push(g) =~= gs);
        lines.lemma_flatten_push(cur);
        assert(lines.flatten() + (cur + g) =~= (lines.flatten() + cur) + g);
    }
}

/// Wrapping by character neither loses nor adds text: the visual lines, put
/// together, are the text's grapheme clusters put together.
pub proof fn law_char_wrap_keeps_text(s: Seq<char>, width: int)
    ensures
        char_wrap(s, width).flatten() == grapheme_clusters(s).flatten(),
{
    let gs = grapheme_clusters(s);
    lemma_char_wrap_state_keeps_text(gs, width);
    let (lines, cur, _) = char_wrap_state(gs, width);
    lines.lemma_flatten_push(cur);
    let closed = if cur.len() > 0 {
        lines.push(cur)
    } else {
        lines
    };
    if cur.len() == 0 {
        assert(lines.flatten() + cur =~= lines.flatten());
    }
    closed.lemma_flatten_push(Seq::<char>::empty());
    assert(closed.flatten() + Seq::<char>::empty() =~= closed.flatten());
}

/// After `reflow` of `input` (when its layout fits): one paragraph for each
/// piece of the input between line breaks, holding that piece and its
/// wrapped visual lines, at least one of them; the first paragraph starts at
/// byte 0 on row 0, and each other one byte after the previous one's text
/// and on the row after the previous one's last visual line.
pub proof fn law_reflow_layout(v: EditorViewport, input: Seq<char>)
    requires
        v.wf(),
        is_layout_of(v.paras(), input, v.mode(), v.width()),
    ensures
        v.paras().len() == split_newlines(input).len(),
        forall|i: int|
            0 <= i < v.paras().len() ==> {
                &&& (#[trigger] v.paras()[i]).text() == split_newlines(input)[i]
                &&& v.paras()[i].line_texts() == wrap_text(split_newlines(input)[i], v.mode(), v.width())
                &&& v.paras()[i].line_texts().len() >= 1
            },
        v.paras().len() > 0 ==> v.paras()[0].start_byte() == 0 && v.paras()[0].start_line() == 0,
        forall|i: int|
            0 < i < v.paras().len() ==> (#[trigger] v.paras()[i]).start_byte() == v.paras()[i - 1].start_byte()
                + byte_len(v.paras()[i - 1].text()) + 1,
        forall|i: int|
            0 < i < v.paras().len() ==> (#[trigger] v.paras()[i]).start_line() == v.paras()[i - 1].start_line()
                + v.paras()[i - 1].line_texts().len(),
{
    let ps = split_newlines(input);
    assert forall|i: int| 0 < i < v.paras().len() implies (#[trigger] v.paras()[i]).start_byte()
        == v.paras()[i - 1].start_byte() + byte_len(v.paras()[i - 1].text()) + 1 by {
        assert(v.paras()[i - 1].text() == ps[i - 1]);
    }
}

} // verus!
