//! Layout of the chat transcript: styled paragraphs wrapped to the viewport
//! width, a read-only cursor moving over the transcript's text, and a visual
//! selection that can be highlighted and copied.
use crate::area::Area;
use crate::chat::{ChatEvent, MessageDelta, Payload, Timestamp};
use crate::llm::{provider_display_name, settings_model_name, LlmSettings};
use crate::markdown::{decimal, decimal_of, from_str, lines_of, markdown_events, md_render, md_render_lines, str_lines};
use crate::editor::{clamp_index, saturating_inc};
use crate::editor_viewport::bytes_before;
use crate::layout::{
    all_lines, layout_byte_idx, layout_cursor_byte_idx, layout_cursor_position, lemma_all_lines_take,
    locate_cursor, well_laid,
};
use crate::paragraph::{byte_slice, LineLike, Paragraph, Slicable};
use crate::scroll::ScrollState;
use crate::style::{emphasis_bit, plain, with_bg, with_fg, with_flags, Emphasis, Style, Tint};
use crate::styled_line::{
    appended, clip_slice, empty_line, is_part, plain_line, prefixed, range_parts, LineView, StyleSlice, StyledLine,
};
use crate::text::{
    copy_chars,
    byte_len, byte_offset_of_char, byte_offset_of_char_idx, bytes_len_upto, char_count_within_bytes,
    chars_within_bytes, lemma_total_bytes_take, total_bytes,
};
use crate::unicode::{string_from_chars, word_wrap, word_wrap_lines};
use vstd::prelude::*;

verus! {

/// `text` cut at consecutive byte offsets into pieces of the byte lengths of
/// the pieces of `pieces`.
pub open spec fn cut_like(text: Seq<char>, pieces: Seq<Seq<char>>) -> Seq<Seq<char>> {
    Seq::new(
        pieces.len(),
        |k: int|
            byte_slice(
                text,
                total_bytes(pieces.take(k)) as int,
                total_bytes(pieces.take(k + 1)) as int,
            ),
    )
}

/// Visual lines of a transcript paragraph of text `s` at `width` columns: `s`
/// cut like its word wrapping.
pub open spec fn message_lines(s: Seq<char>, width: usize) -> Seq<Seq<char>> {
    cut_like(s, word_wrap(s, width))
}

/// The texts of the paragraphs.
pub open spec fn para_texts(paras: Seq<Paragraph<StyledLine>>) -> Seq<Seq<char>> {
    paras.map_values(|p: Paragraph<StyledLine>| p.text())
}

/// Index of the first visual line of the `i`-th of the paragraph texts `ts`.
pub open spec fn message_lines_before(ts: Seq<Seq<char>>, width: usize, i: int) -> int
    decreases i,
{
    if i <= 0 {
        0
    } else {
        message_lines_before(ts, width, i - 1) + word_wrap(ts[i - 1], width).len()
    }
}

/// The offsets and sizes of the layout of paragraph texts `ts` at `width`
/// columns fit in `usize` arithmetic.
pub open spec fn message_layout_fits(ts: Seq<Seq<char>>, width: usize) -> bool {
    forall|i: int|
        0 <= i < ts.len() ==> {
            &&& bytes_before(ts, i) + byte_len(#[trigger] ts[i]) + 1 <= usize::MAX
            &&& total_bytes(word_wrap(ts[i], width)) <= usize::MAX
            &&& bytes_before(ts, i) + total_bytes(message_lines(ts[i], width)) <= usize::MAX
            &&& message_lines_before(ts, width, i) + word_wrap(ts[i], width).len() <= usize::MAX
        }
}

/// The style slices of the `k`-th visual line of `content` at `width`
/// columns: the content's slices clipped to the line's byte range.
pub open spec fn line_slices(content: StyledLine, width: usize, k: int) -> Seq<StyleSlice> {
    let pieces = word_wrap(content.text(), width);
    let offset = total_bytes(pieces.take(k)) as int;
    let len = byte_len(pieces[k]) as int;
    content.slices().filter_map(|s: StyleSlice| clip_slice(s, offset, len))
}

/// `line` is the `k`-th visual line of `content` at `width` columns: its
/// text is cut from the content's, its slices clipped from the content's,
/// and it keeps the content's line style.
pub open spec fn is_message_line(line: StyledLine, content: StyledLine, width: usize, k: int) -> bool {
    &&& line.text() == message_lines(content.text(), width)[k]
    &&& line.slices() == line_slices(content, width, k)
    &&& line.line_style() == content.line_style()
    &&& line.wf()
}

/// The texts of `contents`.
pub open spec fn content_texts(contents: Seq<StyledLine>) -> Seq<Seq<char>> {
    contents.map_values(|c: StyledLine| c.text())
}

/// `after` is the layout of the paragraph contents `contents` at `width`
/// columns: one paragraph per content with the same text, slices and line
/// style, each wrapped and cut into visual lines, at consecutive byte offsets
/// (one byte between paragraphs for the line break) and line offsets.
pub open spec fn laid_out_from(
    after: Seq<Paragraph<StyledLine>>,
    contents: Seq<StyledLine>,
    width: usize,
) -> bool {
    let ts = content_texts(contents);
    &&& after.len() == contents.len()
    &&& forall|i: int|
        0 <= i < contents.len() ==> {
            &&& (#[trigger] after[i]).text() == ts[i]
            &&& after[i].content_value().slices() == contents[i].slices()
            &&& after[i].content_value().line_style() == contents[i].line_style()
            &&& after[i].line_texts() == message_lines(ts[i], width)
            &&& after[i].line_values().len() == word_wrap(ts[i], width).len()
            &&& forall|k: int|
                0 <= k < after[i].line_values().len() ==> is_message_line(
                    #[trigger] after[i].line_values()[k],
                    contents[i],
                    width,
                    k,
                )
            &&& after[i].start_byte() == bytes_before(ts, i)
            &&& after[i].start_line() == message_lines_before(ts, width, i)
        }
}

/// The contents of the paragraphs.
pub open spec fn para_contents(paras: Seq<Paragraph<StyledLine>>) -> Seq<StyledLine> {
    paras.map_values(|p: Paragraph<StyledLine>| p.content_value())
}

/// `after` is the paragraphs `before` laid out anew at `width` columns (see
/// `laid_out_from`).
pub open spec fn is_message_layout(
    after: Seq<Paragraph<StyledLine>>,
    before: Seq<Paragraph<StyledLine>>,
    width: usize,
) -> bool {
    laid_out_from(after, para_contents(before), width)
}

/// Total byte length of the texts of `lines` when it is at most `limit`,
/// and `None` when it exceeds `limit`.
fn lines_bytes_upto<L: LineLike>(lines: &[L], limit: usize) -> (r: Option<usize>)
    ensures
        match r {
            Some(n) => n == total_bytes(lines@.map_values(|l: L| l.text())) && n <= limit,
            None => total_bytes(lines@.map_values(|l: L| l.text())) > limit,
        },
{
    let ghost ts = lines@.map_values(|l: L| l.text());
    let mut used: usize = 0;
    let mut i: usize = 0;
    while i < lines.len()
        invariant
            ts == lines@.map_values(|l: L| l.text()),
            i <= lines@.len(),
            used == total_bytes(ts.take(i as int)),
            used <= limit,
        decreases lines.len() - i,
    {
        proof {
            lemma_total_bytes_take(ts, i as int);
        }
        let line = lines[i].as_chars();
        assert(line@ == ts[i as int]);
        match bytes_len_upto(line, limit - used) {
            Some(n) => {
                used = used + n;
            },
            None => {
                proof {
                    crate::text::lemma_total_bytes_take_mono(ts, i + 1, ts.len() as int);
                    assert(ts.take(ts.len() as int) =~= ts);
                }
                return None;
            },
        }
        i = i + 1;
    }
    assert(ts.take(ts.len() as int) =~= ts);
    Some(used)
}

/// The visual lines of `content` at `width` columns (see `is_message_line`),
/// or `None` when the byte offsets of its word wrapping exceed `usize`.
fn cut_message_lines(content: &StyledLine, width: usize) -> (r: Option<Vec<StyledLine>>)
    ensures
        match r {
            Some(v) => {
                &&& total_bytes(word_wrap(content.text(), width)) <= usize::MAX
                &&& v@.len() == word_wrap(content.text(), width).len()
                &&& v@.len() >= 1
            &&& forall|k: int| 0 <= k < v@.len() ==> is_message_line(#[trigger] v@[k], *content, width, k)
            },
            None => total_bytes(word_wrap(content.text(), width)) > usize::MAX,
        },
{
    let pieces = word_wrap_lines(content.content(), width);
    let ghost pv = pieces@.map_values(|l: Vec<char>| l@);
    assert(pv == word_wrap(content.text(), width));
    let mut out: Vec<StyledLine> = Vec::new();
    let mut offset: usize = 0;
    let mut k: usize = 0;
    while k < pieces.len()
        invariant
            pv == pieces@.map_values(|l: Vec<char>| l@),
            pv == word_wrap(content.text(), width),
            k <= pv.len(),
            out@.len() == k,
            offset == total_bytes(pv.take(k as int)),
            forall|q: int| 0 <= q < k ==> is_message_line(#[trigger] out@[q], *content, width, q),
        decreases pieces.len() - k,
    {
        proof {
            lemma_total_bytes_take(pv, k as int);
        }
        let piece = pieces[k].as_slice();
        assert(piece@ == pv[k as int]);
        let len = match bytes_len_upto(piece, usize::MAX - offset) {
            Some(n) => n,
            None => {
                proof {
                    crate::text::lemma_total_bytes_take_mono(pv, k + 1, pv.len() as int);
                    assert(pv.take(pv.len() as int) =~= pv);
                }
                return None;
            },
        };
        let line = content.slice(offset, len);
        proof {
            assert(line.text() == message_lines(content.text(), width)[k as int]);
        }
        out.push(line);
        offset = offset + len;
        k = k + 1;
    }
    assert(pv.take(pv.len() as int) =~= pv);
    Some(out)
}

/// The layout of the paragraph contents `contents` at `width` columns (see
/// `laid_out_from`), or `None` when its offsets would not fit in `usize`.
#[verifier::rlimit(60)]
#[verifier::spinoff_prover]
fn lay_out(contents: Vec<StyledLine>, width: usize) -> (r: Option<Vec<Paragraph<StyledLine>>>)
    requires
        forall|i: int| 0 <= i < contents@.len() ==> (#[trigger] contents@[i]).wf(),
    ensures
        match r {
            Some(ps) => {
                &&& message_layout_fits(content_texts(contents@), width)
                &&& laid_out_from(ps@, contents@, width)
                &&& well_laid(ps@)
                &&& forall|i: int| 0 <= i < ps@.len() ==> (#[trigger] ps@[i]).content_value().wf()
                &&& forall|i: int, k: int|
                    0 <= i < ps@.len() && 0 <= k < ps@[i].line_values().len()
                        ==> (#[trigger] ps@[i].line_values()[k]).wf()
            },
            None => !message_layout_fits(content_texts(contents@), width),
        },
{
    let ghost cs = contents@;
    let ghost ts = content_texts(cs);
    let mut paragraphs: Vec<Paragraph<StyledLine>> = Vec::new();
    let mut byte_offset: usize = 0;
    let mut line_offset: usize = 0;
    let mut i: usize = 0;
    while i < contents.len()
        invariant
            cs == contents@,
            ts == content_texts(cs),
            forall|j: int| 0 <= j < cs.len() ==> (#[trigger] cs[j]).wf(),
            i <= cs.len(),
            paragraphs@.len() == i,
            byte_offset == bytes_before(ts, i as int),
            line_offset == message_lines_before(ts, width, i as int),
            forall|j: int|
                0 <= j < i ==> {
                    &&& (#[trigger] paragraphs@[j]).text() == ts[j]
                    &&& paragraphs@[j].content_value().slices() == cs[j].slices()
                    &&& paragraphs@[j].content_value().line_style() == cs[j].line_style()
                    &&& paragraphs@[j].content_value().wf()
                    &&& paragraphs@[j].line_texts() == message_lines(ts[j], width)
                    &&& paragraphs@[j].line_values().len() == word_wrap(ts[j], width).len()
                    &&& forall|k: int|
                        0 <= k < paragraphs@[j].line_values().len() ==> is_message_line(
                            #[trigger] paragraphs@[j].line_values()[k],
                            cs[j],
                            width,
                            k,
                        )
                    &&& paragraphs@[j].start_byte() == bytes_before(ts, j)
                    &&& paragraphs@[j].start_line() == message_lines_before(ts, width, j)
                },
            forall|j: int|
                0 <= j < i ==> {
                    &&& bytes_before(ts, j) + byte_len(#[trigger] ts[j]) + 1 <= usize::MAX
                    &&& total_bytes(word_wrap(ts[j], width)) <= usize::MAX
                    &&& bytes_before(ts, j) + total_bytes(message_lines(ts[j], width)) <= usize::MAX
                    &&& message_lines_before(ts, width, j) + word_wrap(ts[j], width).len() <= usize::MAX
                },
            well_laid(paragraphs@),
            i > 0 ==> line_offset == paragraphs@[i - 1].start_line() + paragraphs@[i - 1].line_texts().len(),
        decreases contents.len() - i,
    {
        let content = &contents[i];
        assert(ts[i as int] == content.text());
        let lines = match cut_message_lines(content, width) {
            Some(v) => v,
            None => {
                return None;
            },
        };
        let text_len = match bytes_len_upto(content.content(), usize::MAX - byte_offset) {
            Some(n) => n,
            None => {
                return None;
            },
        };
        if text_len == usize::MAX - byte_offset {
            return None;
        }
        let ghost lt = lines@.map_values(|l: StyledLine| l.text());
        assert(lt =~= message_lines(ts[i as int], width));
        match lines_bytes_upto(lines.as_slice(), usize::MAX - byte_offset) {
            Some(_) => {},
            None => {
                return None;
            },
        }
        let line_count = lines.len();
        if line_count > usize::MAX - line_offset {
            return None;
        }
        let mut paragraph = Paragraph::build(content.duplicate());
        paragraph.reflow(lines, byte_offset, line_offset);
        proof {
            paragraph.lemma_views();
        }
        let ghost prev = paragraphs@;
        paragraphs.push(paragraph);
        proof {
            assert(paragraphs@[i as int] == paragraph);
            assert forall|j: int| 0 < j < paragraphs@.len() implies (
            #[trigger] paragraphs@[j]).start_line() == paragraphs@[j - 1].start_line()
                + paragraphs@[j - 1].line_texts().len() by {
                if j < i {
                    assert(paragraphs@[j] == prev[j]);
                }
            }
        }
        byte_offset = byte_offset + text_len + 1;
        line_offset = line_offset + line_count;
        i = i + 1;
    }
    assert(message_layout_fits(ts, width));
    Some(paragraphs)
}

/// The style laid over selected text: dark text on a light background.
pub fn highlight_style() -> (s: Style)
    ensures
        s == with_bg(with_fg(plain(), Tint::Rgb(0x27, 0x27, 0x2a)), Tint::Rgb(0xe4, 0xe4, 0xe7)),
{
    Style::new().fg(Tint::Rgb(0x27, 0x27, 0x2a)).bg(Tint::Rgb(0xe4, 0xe4, 0xe7))
}

/// The chat transcript's layout, cursor and selection.
pub struct MessagesViewport {
    /// Aggregate paragraphs content.
    input: Vec<char>,
    /// Logical paragraphs.
    paragraphs: Vec<Paragraph<StyledLine>>,
    /// Available visual width.
    viewport_width: usize,
    scroll_state: ScrollState,
    /// Current cursor char index.
    cursor_char_idx: usize,
    /// Selection start char index.
    selection_start_char_idx: Option<usize>,
    area: Area,
}

impl MessagesViewport {
    /// The transcript's text.
    pub closed spec fn text(&self) -> Seq<char> {
        self.input@
    }

    pub closed spec fn paras(&self) -> Seq<Paragraph<StyledLine>> {
        self.paragraphs@
    }

    pub closed spec fn width(&self) -> usize {
        self.viewport_width
    }

    pub closed spec fn scroll(&self) -> ScrollState {
        self.scroll_state
    }

    /// The cursor's character index.
    pub closed spec fn cursor(&self) -> usize {
        self.cursor_char_idx
    }

    /// The character index where the visual selection starts, if any.
    pub closed spec fn selection(&self) -> Option<usize> {
        self.selection_start_char_idx
    }

    pub closed spec fn mouse_area(&self) -> Area {
        self.area
    }

    /// The layout is well laid, every paragraph's content is well formed, and
    /// the text's byte length fits in `usize`.
    pub open spec fn wf(&self) -> bool {
        &&& well_laid(self.paras())
        &&& forall|i: int| 0 <= i < self.paras().len() ==> (#[trigger] self.paras()[i]).content_value().wf()
        &&& forall|i: int, k: int|
            0 <= i < self.paras().len() && 0 <= k < self.paras()[i].line_values().len()
                ==> (#[trigger] self.paras()[i].line_values()[k]).wf()
        &&& byte_len(self.text()) <= usize::MAX
    }

    /// Byte offset of character index `k` of the text (its byte length past
    /// the end).
    pub open spec fn byte_of(&self, k: int) -> int {
        byte_offset_of_char(self.text(), k) as int
    }

    /// An empty transcript: no text, no layout, zero columns wide, not
    /// scrolled, no cursor, no selection.
    pub fn new() -> (v: Self)
        ensures
            v.wf(),
            v.text() == Seq::<char>::empty(),
            v.paras() == Seq::<Paragraph<StyledLine>>::empty(),
            v.width() == 0,
            v.scroll().vertical_scroll_offset == 0,
            v.scroll().cursor_position == None::<(u16, u16)>,
            v.cursor() == 0,
            v.selection() == None::<usize>,
            v.mouse_area() == (Area { column: 0, row: 0, height: 0, width: 0 }),
    {
        MessagesViewport {
            input: Vec::new(),
            paragraphs: Vec::new(),
            viewport_width: 0,
            scroll_state: ScrollState::default(),
            cursor_char_idx: 0,
            selection_start_char_idx: None,
            area: Area::default(),
        }
    }

    /// The transcript's text.
    pub fn input(&self) -> (s: String)
        ensures
            s@ == self.text(),
    {
        string_from_chars(self.input.as_slice())
    }

    /// A copy of the scroll state.
    pub fn current_scroll(&self) -> (r: ScrollState)
        ensures
            r == self.scroll(),
    {
        self.scroll_state
    }

    pub fn scroll_state(&mut self) -> (r: &mut ScrollState)
        ensures
            *r == old(self).scroll(),
            final(self).scroll() == *final(r),
            final(self).text() == old(self).text(),
            final(self).paras() == old(self).paras(),
            final(self).width() == old(self).width(),
            final(self).cursor() == old(self).cursor(),
            final(self).selection() == old(self).selection(),
            final(self).mouse_area() == old(self).mouse_area(),
    {
        &mut self.scroll_state
    }

    pub fn scroll_state_mut(&mut self) -> (r: &mut ScrollState)
        ensures
            *r == old(self).scroll(),
            final(self).scroll() == *final(r),
            final(self).text() == old(self).text(),
            final(self).paras() == old(self).paras(),
            final(self).width() == old(self).width(),
            final(self).cursor() == old(self).cursor(),
            final(self).selection() == old(self).selection(),
            final(self).mouse_area() == old(self).mouse_area(),
    {
        &mut self.scroll_state
    }

    pub fn area(&self) -> (r: &Area)
        ensures
            *r == self.mouse_area(),
    {
        &self.area
    }

    pub fn set_area(&mut self, area: Area)
        ensures
            final(self).mouse_area() == area,
            final(self).text() == old(self).text(),
            final(self).paras() == old(self).paras(),
            final(self).width() == old(self).width(),
            final(self).scroll() == old(self).scroll(),
            final(self).cursor() == old(self).cursor(),
            final(self).selection() == old(self).selection(),
    {
        self.area = area;
    }

    /// Current cursor position, the origin when there is none.
    pub fn cursor_position(&self) -> (pos: (u16, u16))
        ensures
            pos == match self.scroll().cursor_position {
                Some(p) => p,
                None => (0u16, 0u16),
            },
    {
        match self.scroll_state.cursor_position() {
            Some(p) => p,
            None => (0, 0),
        }
    }
}


/// The viewport `after` is `before` with its cursor placed for byte `b`: the
/// layout's cursor position when a paragraph holds `b`, else unchanged.
pub open spec fn cursor_placed_at(before: MessagesViewport, after: MessagesViewport, b: int) -> bool {
    &&& after.wf()
    &&& after.text() == before.text()
    &&& after.paras() == before.paras()
    &&& after.width() == before.width()
    &&& after.mouse_area() == before.mouse_area()
    &&& after.selection() == before.selection()
    &&& after.scroll().vertical_scroll_offset == before.scroll().vertical_scroll_offset
    &&& after.scroll().cursor_position == match layout_cursor_position(before.paras(), before.width(), b) {
        Some(p) => Some(p),
        None => before.scroll().cursor_position,
    }
}


/// `after` is the viewport `before` with its cursor moved to character index
/// `target` clamped to the text.
pub open spec fn cursor_set(before: MessagesViewport, after: MessagesViewport, target: int) -> bool {
    &&& after.cursor() == clamp_index(target, before.text().len() as int)
    &&& cursor_placed_at(before, after, after.byte_of(after.cursor() as int))
}

/// `after` is the viewport `before` with its cursor one character left.
pub open spec fn moved_left_in(before: MessagesViewport, after: MessagesViewport) -> bool {
    cursor_set(before, after, if before.cursor() == 0 { 0 } else { before.cursor() - 1 })
}

/// `after` is the viewport `before` with its cursor one character right.
pub open spec fn moved_right_in(before: MessagesViewport, after: MessagesViewport) -> bool {
    cursor_set(before, after, saturating_inc(before.cursor()))
}

/// `after` is the viewport `before` with its cursor one visual line down
/// (`down`) or up; without a layout nothing changes.
pub open spec fn moved_vertically_in(before: MessagesViewport, after: MessagesViewport, down: bool) -> bool {
    &&& after.wf()
    &&& before.paras().len() == 0 ==> after == before
    &&& before.paras().len() > 0 ==> {
        let y = if down {
            if before.cursor_row() == u16::MAX { u16::MAX as int } else { before.cursor_row() + 1 }
        } else {
            if before.cursor_row() == 0 { 0 } else { before.cursor_row() - 1 }
        };
        &&& after.cursor() == before.vertical_target(y)
        &&& cursor_placed_at(before, after, after.byte_of(after.cursor() as int))
    }
}

/// The viewport `after` is `before` with the transcript of `events` and the
/// streamed text `stream` built and laid out (see `MessagesViewport::build_lines`).
pub open spec fn rebuilt(
    before: MessagesViewport,
    after: MessagesViewport,
    events: Seq<ChatEvent>,
    stream: Option<Seq<char>>,
) -> bool {
    &&& after.wf()
    &&& after.width() == before.width()
    &&& after.scroll() == before.scroll()
    &&& after.cursor() == before.cursor()
    &&& after.selection() == before.selection()
    &&& after.mouse_area() == before.mouse_area()
    &&& after.paras().len() > 0 ==> {
        &&& is_transcript(para_texts(after.paras()), events, stream)
        &&& is_transcript_view(
            para_contents(after.paras()).map_values(|c: StyledLine| c.line_view()),
            events,
            stream,
        )
        &&& laid_out_from(after.paras(), para_contents(after.paras()), after.width())
        &&& after.text() == transcript_text(para_texts(after.paras()))
    }
    &&& after.paras().len() == 0 ==> {
        &&& after.text() == Seq::<char>::empty()
        &&& exists|ts: Seq<Seq<char>>|
            is_transcript(ts, events, stream) && !message_layout_fits(ts, before.width())
    }
}

impl MessagesViewport {
    /// Recalculates the visual lines of every paragraph at the viewport's
    /// width. When the layout's offsets would not fit in `usize`, the layout
    /// is left as it was.
    pub fn reflow(&mut self)
        requires
            old(self).wf(),
        ensures
            final(self).wf(),
            final(self).text() == old(self).text(),
            final(self).width() == old(self).width(),
            final(self).scroll() == old(self).scroll(),
            final(self).cursor() == old(self).cursor(),
            final(self).selection() == old(self).selection(),
            final(self).mouse_area() == old(self).mouse_area(),
            message_layout_fits(para_texts(old(self).paras()), old(self).width()) ==> is_message_layout(
                final(self).paras(),
                old(self).paras(),
                old(self).width(),
            ),
            !message_layout_fits(para_texts(old(self).paras()), old(self).width()) ==> final(self).paras()
                == old(self).paras(),
    {
        let ghost ps = self.paragraphs@;
        let mut contents: Vec<StyledLine> = Vec::new();
        let mut i: usize = 0;
        while i < self.paragraphs.len()
            invariant
                ps == self.paragraphs@,
                self.wf(),
                i <= ps.len(),
                contents@.len() == i,
                forall|j: int|
                    0 <= j < i ==> {
                        &&& (#[trigger] contents@[j]).text() == ps[j].content_value().text()
                        &&& contents@[j].slices() == ps[j].content_value().slices()
                        &&& contents@[j].line_style() == ps[j].content_value().line_style()
                    },
            decreases self.paragraphs.len() - i,
        {
            contents.push(self.paragraphs[i].content().duplicate());
            i = i + 1;
        }
        proof {
            assert(content_texts(contents@) =~= para_texts(ps)) by {
                assert forall|j: int| 0 <= j < ps.len() implies content_texts(contents@)[j] == para_texts(ps)[j] by {
                    ps[j].lemma_views();
                }
            }
            assert forall|j: int| 0 <= j < contents@.len() implies (#[trigger] contents@[j]).wf() by {
                assert(ps[j].content_value().wf());
            }
        }
        match lay_out(contents, self.viewport_width) {
            Some(paragraphs) => {
                proof {
                    let pc = para_contents(ps);
                    assert forall|j: int, k: int|
                        0 <= j < ps.len() && 0 <= k < paragraphs@[j].line_values().len() implies is_message_line(
                        #[trigger] paragraphs@[j].line_values()[k],
                        pc[j],
                        self.viewport_width,
                        k,
                    ) by {
                        ps[j].lemma_views();
                        assert(is_message_line(paragraphs@[j].line_values()[k], contents@[j], self.viewport_width, k));
                    }
                    assert(content_texts(pc) =~= content_texts(contents@));
                }
                self.paragraphs = paragraphs;
            },
            None => {},
        }
    }

    /// Sets the viewport width and, when it changes, recalculates the layout
    /// (see `reflow`).
    pub fn set_viewport_width(&mut self, viewport_width: usize)
        requires
            old(self).wf(),
        ensures
            final(self).wf(),
            final(self).width() == viewport_width,
            final(self).text() == old(self).text(),
            final(self).scroll() == old(self).scroll(),
            final(self).cursor() == old(self).cursor(),
            final(self).selection() == old(self).selection(),
            final(self).mouse_area() == old(self).mouse_area(),
            viewport_width == old(self).width() ==> final(self).paras() == old(self).paras(),
            viewport_width != old(self).width() ==> {
                &&& message_layout_fits(para_texts(old(self).paras()), viewport_width) ==> is_message_layout(
                    final(self).paras(),
                    old(self).paras(),
                    viewport_width,
                )
                &&& !message_layout_fits(para_texts(old(self).paras()), viewport_width) ==> final(self).paras()
                    == old(self).paras()
            },
    {
        if viewport_width != self.viewport_width {
            self.viewport_width = viewport_width;
            self.reflow();
        }
    }

    /// Sets the cursor position from the cursor's byte index, when a
    /// paragraph holds it (see `layout_cursor_position`).
    pub fn update_cursor_position(&mut self, cursor_byte_idx: usize)
        requires
            old(self).wf(),
        ensures
            cursor_placed_at(*old(self), *final(self), cursor_byte_idx as int),
            final(self).cursor() == old(self).cursor(),
    {
        match locate_cursor(self.paragraphs.as_slice(), self.viewport_width, cursor_byte_idx) {
            Some(pos) => self.scroll_state.set_cursor_position(pos),
            None => {},
        }
    }

    /// Byte index that the cursor position `cursor_position` selects (see
    /// `layout_cursor_byte_idx`).
    pub fn find_cursor_byte_idx(&self, cursor_position: (u16, u16)) -> (b: usize)
        requires
            self.wf(),
            self.paras().len() >= 1,
        ensures
            b == layout_cursor_byte_idx(
                self.paras(),
                cursor_position.0 as int,
                cursor_position.1 as int,
            ),
    {
        layout_byte_idx(self.paragraphs.as_slice(), cursor_position)
    }

    /// Byte offset of character index `char_idx`, or the text's byte length
    /// past its end.
    fn cursor_byte_idx(&self, char_idx: usize) -> (b: usize)
        requires
            self.wf(),
        ensures
            b == self.byte_of(char_idx as int),
    {
        byte_offset_of_char_idx(self.input.as_slice(), char_idx)
    }

    /// Moves the cursor to character index `target_cursor_char_idx`, clamped
    /// to the end of the text, and places the cursor position there.
    fn clamp_and_update_cursor_position(&mut self, target_cursor_char_idx: usize)
        requires
            old(self).wf(),
        ensures
            cursor_set(*old(self), *final(self), target_cursor_char_idx as int),
    {
        self.cursor_char_idx = if target_cursor_char_idx > self.input.len() {
            self.input.len()
        } else {
            target_cursor_char_idx
        };
        let b = self.cursor_byte_idx(self.cursor_char_idx);
        self.update_cursor_position(b);
    }

    pub fn move_cursor_left(&mut self)
        requires
            old(self).wf(),
        ensures
            moved_left_in(*old(self), *final(self)),
    {
        let target_cursor_char_idx = self.cursor_char_idx.saturating_sub(1);
        self.clamp_and_update_cursor_position(target_cursor_char_idx);
    }

    pub fn move_cursor_right(&mut self)
        requires
            old(self).wf(),
        ensures
            moved_right_in(*old(self), *final(self)),
    {
        let target_cursor_char_idx = self.cursor_char_idx.saturating_add(1);
        self.clamp_and_update_cursor_position(target_cursor_char_idx);
    }

    /// The cursor's row.
    pub open spec fn cursor_row(&self) -> u16 {
        match self.scroll().cursor_position {
            Some(p) => p.1,
            None => 0u16,
        }
    }

    /// Character index selected by moving the cursor to row `y` at its column.
    pub open spec fn vertical_target(&self, y: int) -> int {
        let (x, _) = match self.scroll().cursor_position {
            Some(p) => p,
            None => (0u16, 0u16),
        };
        clamp_index(
            chars_within_bytes(self.text(), layout_cursor_byte_idx(self.paras(), x as int, y)) as int,
            self.text().len() as int,
        )
    }

    /// Moves the cursor one visual line down, keeping its column where the
    /// line allows. Before the transcript has any layout the cursor stays.
    pub fn move_cursor_down(&mut self)
        requires
            old(self).wf(),
        ensures
            moved_vertically_in(*old(self), *final(self), true),
    {
        self.move_cursor_vertically(true);
    }

    /// Moves the cursor one visual line up, keeping its column where the line
    /// allows. Before the transcript has any layout the cursor stays.
    pub fn move_cursor_up(&mut self)
        requires
            old(self).wf(),
        ensures
            moved_vertically_in(*old(self), *final(self), false),
    {
        self.move_cursor_vertically(false);
    }

    fn move_cursor_vertically(&mut self, down: bool)
        requires
            old(self).wf(),
        ensures
            moved_vertically_in(*old(self), *final(self), down),
    {
        if self.paragraphs.len() == 0 {
            return;
        }
        let (x, mut y) = self.cursor_position();
        y = if down {
            y.saturating_add(1)
        } else {
            y.saturating_sub(1)
        };
        let target_cursor_byte_idx = self.find_cursor_byte_idx((x, y));
        let target_cursor_char_idx = char_count_within_bytes(
            self.input.as_slice(),
            target_cursor_byte_idx,
        );
        self.clamp_and_update_cursor_position(target_cursor_char_idx);
    }

    /// Moves the cursor past the end of the transcript and scrolls so that
    /// its line is the first one shown.
    pub fn scroll_to_top(&mut self)
        requires
            old(self).wf(),
        ensures
            final(self).wf(),
            final(self).text() == old(self).text(),
            final(self).paras() == old(self).paras(),
            final(self).width() == old(self).width(),
            final(self).selection() == old(self).selection(),
            final(self).mouse_area() == old(self).mouse_area(),
            final(self).cursor() == old(self).text().len(),
            final(self).scroll().cursor_position == match layout_cursor_position(
                old(self).paras(),
                old(self).width(),
                byte_len(old(self).text()) as int,
            ) {
                Some(p) => Some(p),
                None => old(self).scroll().cursor_position,
            },
            final(self).scroll().vertical_scroll_offset == match final(self).scroll().cursor_position {
                Some(p) => p.1 as usize,
                None => old(self).scroll().vertical_scroll_offset,
            },
    {
        let target_cursor_char_idx = self.input.len();
        self.clamp_and_update_cursor_position(target_cursor_char_idx);
        match self.scroll_state.cursor_position() {
            Some((_, y)) => self.scroll_state.set_vertical_scroll_offset(y as usize),
            None => {},
        }
    }
}


/// The part of the byte range `[start, end)` that falls in a line of
/// `line_len` bytes starting at byte `line_start`, relative to the line;
/// `None` when the range ends at or before the line's start or starts after
/// its end.
pub open spec fn highlight_of(line_start: int, line_len: int, start: int, end: int) -> Option<(int, int)> {
    if end <= line_start || start > line_start + line_len {
        None
    } else {
        Some(
            (
                if start > line_start {
                    start - line_start
                } else {
                    0
                },
                (if end < line_start + line_len {
                    end
                } else {
                    line_start + line_len
                }) - line_start,
            ),
        )
    }
}

/// `shown` is `line` as displayed with the relative byte range `hl`
/// highlighted: the same line when there is none; otherwise the same text
/// and line style, with its slices cut at the range's bounds.
pub open spec fn shown_as(shown: StyledLine, line: StyledLine, hl: Option<(int, int)>) -> bool {
    match hl {
        None => {
            &&& shown.text() == line.text()
            &&& shown.slices() == line.slices()
            &&& shown.line_style() == line.line_style()
        },
        Some((s, e)) => {
            &&& shown.text() == line.text()
            &&& shown.line_style() == line.line_style()
            &&& shown.slices().len() == line.slices().flat_map(|sl: StyleSlice| range_parts(sl, s, e)).len()
            &&& forall|k: int|
                0 <= k < shown.slices().len() ==> is_part(
                    #[trigger] shown.slices()[k],
                    line.slices().flat_map(|sl: StyleSlice| range_parts(sl, s, e))[k],
                )
        },
    }
}

/// `after` is the viewport `before` with the visual selection toggled:
/// started at the cursor, or cleared when there is one.
pub open spec fn selection_toggled(before: MessagesViewport, after: MessagesViewport) -> bool {
    &&& after.selection() == match before.selection() {
        Some(_) => None,
        None => Some(before.cursor()),
    }
    &&& after.text() == before.text()
    &&& after.paras() == before.paras()
    &&& after.width() == before.width()
    &&& after.scroll() == before.scroll()
    &&& after.cursor() == before.cursor()
    &&& after.mouse_area() == before.mouse_area()
}

/// `after` is the viewport `before` with no visual selection.
pub open spec fn selection_cleared(before: MessagesViewport, after: MessagesViewport) -> bool {
    &&& after.selection() == None::<usize>
    &&& after.text() == before.text()
    &&& after.paras() == before.paras()
    &&& after.width() == before.width()
    &&& after.scroll() == before.scroll()
    &&& after.cursor() == before.cursor()
    &&& after.mouse_area() == before.mouse_area()
}

/// `after` is the viewport `before` with its selected text `r` copied out
/// and the selection cleared; nothing when there is no selection.
pub open spec fn yanked(before: MessagesViewport, after: MessagesViewport, r: Option<Seq<char>>) -> bool {
    &&& match before.selection_bounds() {
        Some((lo, hi)) => {
            let n = before.text().len() as int;
            &&& r == Some(before.text().subrange(clamp_index(lo, n), clamp_index(hi + 1, n)))
            &&& after.selection() == None::<usize>
        },
        None => r == None::<Seq<char>> && after.selection() == before.selection(),
    }
    &&& after.text() == before.text()
    &&& after.paras() == before.paras()
    &&& after.width() == before.width()
    &&& after.scroll() == before.scroll()
    &&& after.cursor() == before.cursor()
    &&& after.mouse_area() == before.mouse_area()
}

impl MessagesViewport {
    /// The selected character range `[lo, hi]`: between the selection's start
    /// and the cursor, in either order.
    pub open spec fn selection_bounds(&self) -> Option<(int, int)> {
        match self.selection() {
            Some(s) => if s > self.cursor() {
                Some((self.cursor() as int, s as int))
            } else {
                Some((s as int, self.cursor() as int))
            },
            None => None,
        }
    }

    /// The selected byte range: from the first selected character to the end
    /// of the last one.
    pub open spec fn selection_byte_range(&self) -> Option<(int, int)> {
        match self.selection_bounds() {
            Some((lo, hi)) => Some((self.byte_of(lo), self.byte_of(hi + 1))),
            None => None,
        }
    }

    /// Byte offset in the text of the `k`-th visual line of paragraph `i`.
    pub open spec fn line_start(&self, i: int, k: int) -> int {
        (self.paras()[i].start_byte() + total_bytes(self.paras()[i].line_texts().take(k))) as int
    }

    /// The relative byte range highlighted in the `k`-th visual line of
    /// paragraph `i`.
    pub open spec fn line_highlight(&self, i: int, k: int) -> Option<(int, int)> {
        match self.selection_byte_range() {
            Some((s, e)) => highlight_of(
                self.line_start(i, k),
                byte_len(self.paras()[i].line_texts()[k]) as int,
                s,
                e,
            ),
            None => None,
        }
    }

    /// Starts a visual selection at the cursor, or clears the selection when
    /// there is one.
    pub fn toggle_visual_selection(&mut self)
        ensures
            selection_toggled(*old(self), *final(self)),
    {
        if self.selection_start_char_idx.is_some() {
            self.selection_start_char_idx = None;
        } else {
            self.selection_start_char_idx = Some(self.cursor_char_idx);
        }
    }

    /// Clears the visual selection.
    pub fn clear_visual_selection(&mut self)
        ensures
            selection_cleared(*old(self), *final(self)),
    {
        self.selection_start_char_idx = None;
    }

    /// The selected byte range (see `selection_byte_range`).
    fn visual_selection_byte_range(&self) -> (r: Option<(usize, usize)>)
        requires
            self.wf(),
        ensures
            match r {
                Some((s, e)) => self.selection_byte_range() == Some((s as int, e as int)),
                None => self.selection_byte_range() == None::<(int, int)>,
            },
    {
        match self.selection_start_char_idx {
            Some(start) => {
                let (lo, hi) = if start > self.cursor_char_idx {
                    (self.cursor_char_idx, start)
                } else {
                    (start, self.cursor_char_idx)
                };
                let past = if hi < usize::MAX {
                    hi + 1
                } else {
                    hi
                };
                proof {
                    crate::text::lemma_byte_len_bounds(self.input@);
                }
                Some((self.cursor_byte_idx(lo), self.cursor_byte_idx(past)))
            },
            None => None,
        }
    }

    /// The selected text, when there is a selection, which is then cleared.
    pub fn yank_visual_selection(&mut self) -> (r: Option<String>)
        requires
            old(self).wf(),
        ensures
            yanked(
                *old(self),
                *final(self),
                match r {
                    Some(t) => Some(t@),
                    None => None,
                },
            ),
    {
        match self.selection_start_char_idx {
            Some(start) => {
                let (lo, hi) = if start > self.cursor_char_idx {
                    (self.cursor_char_idx, start)
                } else {
                    (start, self.cursor_char_idx)
                };
                let n = self.input.len();
                let a = if lo > n {
                    n
                } else {
                    lo
                };
                let b = if hi >= n {
                    n
                } else {
                    hi + 1
                };
                let mut selected: Vec<char> = Vec::new();
                let mut k = a;
                while k < b
                    invariant
                        a <= k <= b <= self.input@.len(),
                        selected@ == self.input@.subrange(a as int, k as int),
                    decreases b - k,
                {
                    selected.push(self.input[k]);
                    assert(selected@ =~= self.input@.subrange(a as int, k as int + 1));
                    k = k + 1;
                }
                self.toggle_visual_selection();
                Some(string_from_chars(selected.as_slice()))
            },
            None => None,
        }
    }

    /// All visual lines, in order, with the selected bytes highlighted.
    #[verifier::rlimit(40)]
    pub fn lines(&self) -> (r: Vec<StyledLine>)
        requires
            self.wf(),
        ensures
            r@.len() == all_lines(self.paras()).len(),
            r@.map_values(|l: StyledLine| l.text()) == all_lines(self.paras()),
            forall|i: int, k: int|
                0 <= i < self.paras().len() && 0 <= k < self.paras()[i].line_values().len()
                    ==> shown_as(
                    #[trigger] r@[self.paras()[i].start_line() + k],
                    self.paras()[i].line_values()[k],
                    #[trigger] self.line_highlight(i, k),
                ),
    {
        let ghost ps = self.paragraphs@;
        let range = self.visual_selection_byte_range();
        let highlight = highlight_style();
        let mut r: Vec<StyledLine> = Vec::new();
        let mut i: usize = 0;
        assert(ps.take(0).map_values(|p: Paragraph<StyledLine>| p.line_texts()) =~= Seq::<
            Seq<Seq<char>>,
        >::empty());
        while i < self.paragraphs.len()
            invariant
                ps == self.paragraphs@,
                self.wf(),
                i <= ps.len(),
                r@.len() == all_lines(ps.take(i as int)).len(),
                r@.map_values(|l: StyledLine| l.text()) == all_lines(ps.take(i as int)),
                i < ps.len() ==> ps[i as int].start_line() == r@.len(),
                forall|j: int| 0 <= j < i ==> (#[trigger] ps[j]).start_line() + ps[j].line_texts().len() <= r@.len(),
                match range {
                    Some((s, e)) => self.selection_byte_range() == Some((s as int, e as int)),
                    None => self.selection_byte_range() == None::<(int, int)>,
                },
                forall|j: int, k: int|
                    0 <= j < i && 0 <= k < ps[j].line_values().len() ==> shown_as(
                        #[trigger] r@[ps[j].start_line() + k],
                        ps[j].line_values()[k],
                        #[trigger] self.line_highlight(j, k),
                    ),
            decreases self.paragraphs.len() - i,
        {
            let p = &self.paragraphs[i];
            let lines = p.lines();
            proof {
                p.lemma_views();
                assert(p.fits());
                lemma_all_lines_take(ps, i as int);
            }
            let ghost lt = p.line_texts();
            let ghost base = r@.len();
            assert(lt.take(0) =~= Seq::<Seq<char>>::empty());
            assert(all_lines(ps.take(i as int)) + lt.take(0) =~= all_lines(ps.take(i as int)));
            let mut line_offset = p.byte_offset();
            let mut k: usize = 0;
            while k < lines.len()
                invariant
                    ps == self.paragraphs@,
                    self.wf(),
                    i < ps.len(),
                    *p == ps[i as int],
                    lines@ == p.line_values(),
                    lt == p.line_texts(),
                    lt == lines@.map_values(|l: StyledLine| l.text()),
                    p.fits(),
                    k <= lines@.len(),
                    r@.len() == base + k,
                    r@.map_values(|l: StyledLine| l.text()) == all_lines(ps.take(i as int)) + lt.take(k as int),
                    base == ps[i as int].start_line(),
                    forall|j: int| 0 <= j < i ==> (#[trigger] ps[j]).start_line() + ps[j].line_texts().len() <= base,
                    line_offset == self.line_start(i as int, k as int),
                    match range {
                        Some((s, e)) => self.selection_byte_range() == Some((s as int, e as int)),
                        None => self.selection_byte_range() == None::<(int, int)>,
                    },
                    forall|j: int, q: int|
                        0 <= j < i && 0 <= q < ps[j].line_values().len() ==> shown_as(
                            #[trigger] r@[ps[j].start_line() + q],
                            ps[j].line_values()[q],
                            #[trigger] self.line_highlight(j, q),
                        ),
                    forall|q: int|
                        0 <= q < k ==> shown_as(
                            #[trigger] r@[base + q],
                            ps[i as int].line_values()[q],
                            self.line_highlight(i as int, q),
                        ),
                decreases lines.len() - k,
            {
                let line = &lines[k];
                assert(line.text() == lt[k as int]);
                proof {
                    lemma_total_bytes_take(lt, k as int);
                    crate::text::lemma_total_bytes_take_mono(lt, k + 1, lt.len() as int);
                    assert(lt.take(lt.len() as int) =~= lt);
                    assert(ps[i as int].content_value().wf());
                }
                let line_len = crate::text::bytes_len(line.content());
                let shown = match range {
                    Some((start, end)) => {
                        if end <= line_offset || start > line_offset + line_len {
                            line.duplicate()
                        } else {
                            let rel_start = if start > line_offset {
                                start - line_offset
                            } else {
                                0
                            };
                            let rel_end = (if end < line_offset + line_len {
                                end
                            } else {
                                line_offset + line_len
                            }) - line_offset;
                            line.patch_range_style(highlight, rel_start, rel_end)
                        }
                    },
                    None => line.duplicate(),
                };
                let ghost before = r@;
                r.push(shown);
                proof {
                    assert(shown.text() == lt[k as int]);
                    assert(r@.map_values(|l: StyledLine| l.text()) =~= before.map_values(|l: StyledLine| l.text()).push(
                        shown.text(),
                    ));
                    assert(lt.take(k as int + 1) =~= lt.take(k as int).push(lt[k as int]));
                    assert forall|j: int, q: int|
                        0 <= j < i && 0 <= q < ps[j].line_values().len() implies shown_as(
                            #[trigger] r@[ps[j].start_line() + q],
                            ps[j].line_values()[q],
                            #[trigger] self.line_highlight(j, q),
                        ) by {
                        ps[j].lemma_views();
                        assert(r@[ps[j].start_line() + q] == before[ps[j].start_line() + q]);
                    }
                }
                line_offset = line_offset + line_len;
                k = k + 1;
            }
            proof {
                assert(lt.take(lt.len() as int) =~= lt);
                assert forall|j: int, q: int|
                    0 <= j <= i && 0 <= q < ps[j].line_values().len() implies shown_as(
                        #[trigger] r@[ps[j].start_line() + q],
                        ps[j].line_values()[q],
                        #[trigger] self.line_highlight(j, q),
                    ) by {
                    if j == i {
                        assert(r@[base + q] == r@[ps[j].start_line() + q]);
                    }
                }
                assert forall|j: int| 0 <= j <= i implies (#[trigger] ps[j]).start_line()
                    + ps[j].line_texts().len() <= r@.len() by {
                    if j == i {
                        assert(lines@.len() == lt.len());
                    }
                }
                if i + 1 < ps.len() {
                    assert(ps[i + 1].start_line() == ps[i as int].start_line() + ps[i as int].line_texts().len());
                }
            }
            i = i + 1;
        }
        assert(ps.take(ps.len() as int) =~= ps);
        r
    }
}


// ----------------------------------------------------------------
// The transcript of a chat.
// ----------------------------------------------------------------

/// `n` in decimal, with a minus sign when negative.
pub open spec fn signed_decimal(n: i64) -> Seq<char> {
    if n < 0 {
        seq!['-'] + decimal((-(n as int)) as nat)
    } else {
        decimal(n as nat)
    }
}

/// How the prompt line shows an elapsed time: seconds and `s`, or `-`.
pub open spec fn elapsed_text(elapsed: Option<i64>) -> Seq<char> {
    match elapsed {
        Some(s) => signed_decimal(s).push('s'),
        None => seq!['-'],
    }
}

/// Text of the prompt line above a user message sent with `settings` and
/// answered after `elapsed` seconds.
pub open spec fn prompt_text(settings: LlmSettings, elapsed: Option<i64>) -> Seq<char> {
    seq!['┌', '─', '>', ' '] + provider_display_name(settings) + seq![' ', 'o', 'n', ' ']
        + settings_model_name(settings) + seq![' ', '['] + elapsed_text(elapsed) + seq![']']
}

/// The prompt line itself: its plain parts, the provider's name in bold
/// light green, the model's name in light blue and the elapsed time in light
/// magenta.
pub open spec fn prompt_line_view(settings: LlmSettings, elapsed: Option<i64>) -> LineView {
    let provider = with_flags(with_fg(plain(), Tint::LightGreen), emphasis_bit(Emphasis::Bold));
    let l1 = appended(empty_line(), seq!['┌', '─', '>', ' '], plain());
    let l2 = appended(l1, provider_display_name(settings), provider);
    let l3 = appended(l2, seq![' ', 'o', 'n', ' '], plain());
    let l4 = appended(l3, settings_model_name(settings), with_fg(plain(), Tint::LightBlue));
    let l5 = appended(l4, seq![' ', '['], plain());
    let l6 = appended(l5, elapsed_text(elapsed), with_fg(plain(), Tint::LightMagenta));
    appended(l6, seq![']'], plain())
}

/// Timestamps whose seconds lie within 2^61 of the epoch.
pub open spec fn timestamp_in_range(t: Timestamp) -> bool {
    -0x2000_0000_0000_0000 <= t.seconds <= 0x2000_0000_0000_0000
}

/// Nanoseconds since the epoch of `t`.
pub open spec fn total_nanos(t: Timestamp) -> int {
    t.seconds * 1_000_000_000 + t.nanos
}

/// Whole seconds from `start` to `end`, 0 when `end` is earlier.
pub open spec fn elapsed_secs(start: Timestamp, end: Timestamp) -> i64 {
    let d = total_nanos(end) - total_nanos(start);
    (if d >= 0 {
        d / 1_000_000_000
    } else {
        0
    }) as i64
}

/// Whether the event carries a complete message.
pub open spec fn is_message_event(e: ChatEvent) -> bool {
    e.payload matches Some(Payload::Message(_))
}

/// The role number of the event's message (0 when it carries none).
pub open spec fn message_role(e: ChatEvent) -> i32 {
    match e.payload {
        Some(Payload::Message(m)) => m.role,
        _ => 0,
    }
}

/// The text of the event's message (empty when it carries none).
pub open spec fn message_text(e: ChatEvent) -> Seq<char> {
    match e.payload {
        Some(Payload::Message(m)) => m.msg@,
        _ => Seq::empty(),
    }
}

/// The event's creation time, the epoch when it has none.
pub open spec fn created_or_epoch(e: ChatEvent) -> Timestamp {
    match e.created_at {
        Some(t) => t,
        None => Timestamp { seconds: 0, nanos: 0 },
    }
}

/// The event's settings, the default when it has none.
pub open spec fn settings_or_default(e: ChatEvent) -> LlmSettings {
    match e.llm_settings {
        Some(s) => s,
        None => LlmSettings { provider: None },
    }
}

/// The transcript can show the event: a message is from the user or the
/// assistant, a user message has a creation time, and creation times are in
/// range.
pub open spec fn displayable(e: ChatEvent) -> bool {
    is_message_event(e) ==> {
        &&& message_role(e) == 1 || message_role(e) == 2
        &&& message_role(e) == 1 ==> e.created_at is Some
        &&& e.created_at matches Some(t) ==> timestamp_in_range(t)
    }
}

/// The transcript can show every event of `events`.
pub open spec fn all_displayable(events: Seq<ChatEvent>) -> bool {
    forall|i: int| 0 <= i < events.len() ==> displayable(#[trigger] events[i])
}

/// The lines of a user message, the first one behind an arrow.
pub open spec fn user_lines(msg: Seq<char>) -> Seq<Seq<char>> {
    let ls = str_lines(msg);
    if ls.len() == 0 {
        ls
    } else {
        ls.update(0, seq!['└', '─', '>', ' '] + ls[0])
    }
}

/// The lines shown for the user message `msgs[j]`: its prompt line, with the
/// time until the next message, and its lines.
pub open spec fn user_segment(msgs: Seq<ChatEvent>, j: int) -> Seq<Seq<char>> {
    let e = msgs[j];
    let elapsed = if j + 1 < msgs.len() {
        Some(elapsed_secs(created_or_epoch(e), created_or_epoch(msgs[j + 1])))
    } else {
        None
    };
    seq![prompt_text(settings_or_default(e), elapsed)] + user_lines(message_text(e))
}

/// The lines shown for the first `j` messages of `msgs`, the lines of each
/// assistant message being given by `md`.
pub open spec fn transcript_upto(msgs: Seq<ChatEvent>, md: Seq<Seq<Seq<char>>>, j: int) -> Seq<Seq<char>>
    decreases j,
{
    if j <= 0 {
        Seq::empty()
    } else {
        transcript_upto(msgs, md, j - 1) + if message_role(msgs[j - 1]) == 1 {
            user_segment(msgs, j - 1)
        } else {
            md[j - 1]
        }
    }
}

/// The message events of `events`.
pub open spec fn messages_of(events: Seq<ChatEvent>) -> Seq<ChatEvent> {
    events.filter(|e: ChatEvent| is_message_event(e))
}

/// The lines of `text` rendered as Markdown.
pub open spec fn markdown_lines(text: Seq<char>) -> Seq<Seq<char>> {
    md_render(markdown_events(text))
}

/// For each message of `msgs`, the Markdown rendering of an assistant's
/// text; nothing for a user's, whose lines are laid out apart.
pub open spec fn rendered_messages(msgs: Seq<ChatEvent>) -> Seq<Seq<Seq<char>>> {
    Seq::new(
        msgs.len(),
        |j: int|
            if message_role(msgs[j]) == 1 {
                Seq::<Seq<char>>::empty()
            } else {
                markdown_lines(message_text(msgs[j]))
            },
    )
}

/// The Markdown rendering of the streamed text, if any.
pub open spec fn stream_lines(stream: Option<Seq<char>>) -> Seq<Seq<char>> {
    match stream {
        Some(t) => markdown_lines(t),
        None => Seq::empty(),
    }
}

/// `texts` are the lines of the transcript of `events` with the streamed
/// text `stream`: for each message, the user's lines or the Markdown
/// rendering of the assistant's, then the Markdown rendering of the stream,
/// then an empty line.
pub open spec fn is_transcript(texts: Seq<Seq<char>>, events: Seq<ChatEvent>, stream: Option<Seq<char>>) -> bool {
    let msgs = messages_of(events);
    texts == (transcript_upto(msgs, rendered_messages(msgs), msgs.len() as int) + stream_lines(stream)).push(
        Seq::<char>::empty(),
    )
}

/// The lines of a user message as shown: one plain line per line of `msg`,
/// the first one behind a plain arrow.
pub open spec fn user_line_views(msg: Seq<char>) -> Seq<LineView> {
    let ls = str_lines(msg);
    Seq::new(
        ls.len(),
        |k: int|
            if k == 0 {
                prefixed(plain_line(ls[0]), seq!['└', '─', '>', ' '], plain())
            } else {
                plain_line(ls[k])
            },
    )
}

/// The lines shown for the user message `msgs[j]`: its prompt line and its
/// lines, with their styles.
pub open spec fn user_segment_views(msgs: Seq<ChatEvent>, j: int) -> Seq<LineView> {
    let e = msgs[j];
    let elapsed = if j + 1 < msgs.len() {
        Some(elapsed_secs(created_or_epoch(e), created_or_epoch(msgs[j + 1])))
    } else {
        None
    };
    seq![prompt_line_view(settings_or_default(e), elapsed)] + user_line_views(message_text(e))
}

/// The lines shown for the first `j` messages of `msgs`, with their styles,
/// the lines of each assistant message being given by `md`.
pub open spec fn transcript_views_upto(msgs: Seq<ChatEvent>, md: Seq<Seq<LineView>>, j: int) -> Seq<LineView>
    decreases j,
{
    if j <= 0 {
        Seq::empty()
    } else {
        transcript_views_upto(msgs, md, j - 1) + if message_role(msgs[j - 1]) == 1 {
            user_segment_views(msgs, j - 1)
        } else {
            md[j - 1]
        }
    }
}

/// For each message of `msgs`, the styled Markdown rendering of an
/// assistant's text; nothing for a user's.
pub open spec fn rendered_message_views(msgs: Seq<ChatEvent>) -> Seq<Seq<LineView>> {
    Seq::new(
        msgs.len(),
        |j: int|
            if message_role(msgs[j]) == 1 {
                Seq::<LineView>::empty()
            } else {
                md_render_lines(markdown_events(message_text(msgs[j])))
            },
    )
}

/// The styled Markdown rendering of the streamed text, if any.
pub open spec fn stream_line_views(stream: Option<Seq<char>>) -> Seq<LineView> {
    match stream {
        Some(t) => md_render_lines(markdown_events(t)),
        None => Seq::empty(),
    }
}

/// `views` are the lines, with their styles, of the transcript of `events`
/// with the streamed text `stream` (see `is_transcript`), the last one
/// empty and plain.
pub open spec fn is_transcript_view(views: Seq<LineView>, events: Seq<ChatEvent>, stream: Option<Seq<char>>) -> bool {
    let msgs = messages_of(events);
    views == (transcript_views_upto(msgs, rendered_message_views(msgs), msgs.len() as int) + stream_line_views(
        stream,
    )).push(plain_line(Seq::empty()))
}

/// `transcript_views_upto` reads only the first `j` renderings.
pub proof fn lemma_transcript_views_upto_prefix(
    msgs: Seq<ChatEvent>,
    md1: Seq<Seq<LineView>>,
    md2: Seq<Seq<LineView>>,
    j: int,
)
    requires
        forall|q: int| 0 <= q < j ==> md1[q] == md2[q],
    ensures
        transcript_views_upto(msgs, md1, j) == transcript_views_upto(msgs, md2, j),
    decreases j,
{
    if j > 0 {
        lemma_transcript_views_upto_prefix(msgs, md1, md2, j - 1);
    }
}

/// `s` with each tab replaced by two spaces.
pub open spec fn expand_tabs(s: Seq<char>) -> Seq<char>
    decreases s.len(),
{
    if s.len() == 0 {
        s
    } else {
        expand_tabs(s.drop_last()) + if s.last() == '\t' {
            seq![' ', ' ']
        } else {
            seq![s.last()]
        }
    }
}

/// The texts `ls` joined by line feeds.
pub open spec fn join_lines(ls: Seq<Seq<char>>) -> Seq<char>
    decreases ls.len(),
{
    if ls.len() == 0 {
        Seq::empty()
    } else if ls.len() == 1 {
        ls[0]
    } else {
        join_lines(ls.drop_last()).push('\n') + ls.last()
    }
}

/// The transcript text of the paragraph texts `ts`: their tabs expanded,
/// joined by line feeds.
pub open spec fn transcript_text(ts: Seq<Seq<char>>) -> Seq<char> {
    join_lines(ts.map_values(|t: Seq<char>| expand_tabs(t)))
}


/// `n` in decimal (see `signed_decimal`).
fn signed_decimal_of(n: i64) -> (r: Vec<char>)
    ensures
        r@ == signed_decimal(n),
{
    if n < 0 {
        let m = (-(n as i128)) as u64;
        let mut r = vec!['-'];
        let digits = decimal_of(m);
        crate::text::append_chars(&mut r, digits.as_slice());
        assert(r@ =~= seq!['-'] + decimal((-(n as int)) as nat));
        r
    } else {
        decimal_of(n as u64)
    }
}

/// Whole seconds from `start` to `end` (see `elapsed_secs`).
fn elapsed_secs_of(start: Timestamp, end: Timestamp) -> (r: i64)
    requires
        timestamp_in_range(start),
        timestamp_in_range(end),
    ensures
        r == elapsed_secs(start, end),
{
    let a = (start.seconds as i128) * 1_000_000_000 + (start.nanos as i128);
    let b = (end.seconds as i128) * 1_000_000_000 + (end.nanos as i128);
    let d = b - a;
    if d >= 0 {
        (d / 1_000_000_000) as i64
    } else {
        0
    }
}

/// `s` with each tab replaced by two spaces.
fn expand_tabs_of(s: &[char]) -> (r: Vec<char>)
    ensures
        r@ == expand_tabs(s@),
{
    let mut r: Vec<char> = Vec::new();
    let mut i: usize = 0;
    while i < s.len()
        invariant
            i <= s@.len(),
            r@ == expand_tabs(s@.take(i as int)),
        decreases s.len() - i,
    {
        assert(s@.take(i as int + 1).drop_last() =~= s@.take(i as int));
        if s[i] == '\t' {
            r.push(' ');
            r.push(' ');
            assert(r@ =~= expand_tabs(s@.take(i as int)) + seq![' ', ' ']);
        } else {
            r.push(s[i]);
            assert(r@ =~= expand_tabs(s@.take(i as int)) + seq![s@[i as int]]);
        }
        i = i + 1;
    }
    assert(s@.take(s@.len() as int) =~= s@);
    r
}

/// The transcript text of `lines` (see `transcript_text`).
fn transcript_text_of(lines: &Vec<StyledLine>) -> (r: Vec<char>)
    ensures
        r@ == transcript_text(lines@.map_values(|l: StyledLine| l.text())),
{
    let ghost ts = lines@.map_values(|l: StyledLine| l.text());
    let ghost es = ts.map_values(|t: Seq<char>| expand_tabs(t));
    let mut r: Vec<char> = Vec::new();
    let mut i: usize = 0;
    while i < lines.len()
        invariant
            ts == lines@.map_values(|l: StyledLine| l.text()),
            es == ts.map_values(|t: Seq<char>| expand_tabs(t)),
            i <= lines@.len(),
            r@ == join_lines(es.take(i as int)),
        decreases lines.len() - i,
    {
        assert(es.take(i as int + 1).drop_last() =~= es.take(i as int));
        if i > 0 {
            r.push('\n');
        }
        let e = expand_tabs_of(lines[i].content());
        assert(e@ == es[i as int]);
        crate::text::append_chars(&mut r, e.as_slice());
        proof {
            if i == 0 {
                assert(es.take(1) =~= seq![es[0]]);
                assert(r@ =~= es[0]);
            }
        }
        i = i + 1;
    }
    assert(es.take(es.len() as int) =~= es);
    r
}

/// The prompt line above a user message sent with `settings` and answered
/// after `elapsed_sec` seconds.
pub fn make_prompt_line(settings: &LlmSettings, elapsed_sec: Option<i64>) -> (line: StyledLine)
    ensures
        line.tight(),
        line.text() == prompt_text(*settings, elapsed_sec),
        line.line_view() == prompt_line_view(*settings, elapsed_sec),
{
    let plain = crate::styled_line::default_style();
    let elapsed = match elapsed_sec {
        Some(s) => {
            let mut e = signed_decimal_of(s);
            e.push('s');
            e
        },
        None => vec!['-'],
    };
    assert(elapsed@ =~= elapsed_text(elapsed_sec));
    let provider = crate::text::chars_of(settings.provider_name());
    let model = crate::text::chars_of(settings.model_name());
    let mut line = StyledLine::new();
    let arrow = vec!['┌', '─', '>', ' '];
    let on = vec![' ', 'o', 'n', ' '];
    let open = vec![' ', '['];
    let close = vec![']'];
    assert(arrow@ =~= seq!['┌', '─', '>', ' ']);
    assert(on@ =~= seq![' ', 'o', 'n', ' ']);
    assert(open@ =~= seq![' ', '[']);
    assert(close@ =~= seq![']']);
    line.push_text(arrow.as_slice(), plain);
    line.push_text(provider.as_slice(), crate::style::fg_emphasis_style(Tint::LightGreen, Emphasis::Bold));
    line.push_text(on.as_slice(), plain);
    line.push_text(model.as_slice(), crate::style::fg_style(Tint::LightBlue));
    line.push_text(open.as_slice(), plain);
    line.push_text(elapsed.as_slice(), crate::style::fg_style(Tint::LightMagenta));
    line.push_text(close.as_slice(), plain);
    assert(line.text() =~= prompt_text(*settings, elapsed_sec));
    line
}


/// Indices of the message events of `events`.
fn message_indices(events: &[ChatEvent]) -> (idx: Vec<usize>)
    ensures
        idx@.map_values(|k: usize| events@[k as int]) == messages_of(events@),
        forall|j: int| 0 <= j < idx@.len() ==> (#[trigger] idx@[j]) < events@.len(),
{
    let ghost pred = |e: ChatEvent| is_message_event(e);
    let mut idx: Vec<usize> = Vec::new();
    let mut i: usize = 0;
    while i < events.len()
        invariant
            pred == (|e: ChatEvent| is_message_event(e)),
            i <= events@.len(),
            idx@.map_values(|k: usize| events@[k as int]) == events@.take(i as int).filter(pred),
            forall|j: int| 0 <= j < idx@.len() ==> (#[trigger] idx@[j]) < events@.len(),
        decreases events.len() - i,
    {
        assert(events@.take(i as int + 1).drop_last() =~= events@.take(i as int));
        assert(events@.take(i as int + 1).last() == events@[i as int]);
        let is_message = match &events[i].payload {
            Some(Payload::Message(_)) => true,
            _ => false,
        };
        assert(is_message == pred(events@[i as int]));
        let ghost t1 = events@.take(i as int + 1);
        proof {
            reveal(Seq::filter);
        }
        assert(t1.filter(pred) == (if pred(t1.last()) {
            t1.drop_last().filter(pred).push(t1.last())
        } else {
            t1.drop_last().filter(pred)
        }));
        if is_message {
            let ghost before = idx@;
            idx.push(i);
            assert(idx@.map_values(|k: usize| events@[k as int]) =~= before.map_values(
                |k: usize| events@[k as int],
            ).push(events@[i as int]));
        }
        i = i + 1;
    }
    assert(events@.take(events@.len() as int) =~= events@);
    idx
}

/// Appends copies of the lines `more` to `lines`.
fn extend_lines(lines: &mut Vec<StyledLine>, more: &Vec<StyledLine>)
    requires
        forall|i: int| 0 <= i < old(lines)@.len() ==> (#[trigger] old(lines)@[i]).tight(),
        forall|i: int| 0 <= i < more@.len() ==> (#[trigger] more@[i]).tight(),
    ensures
        final(lines)@.map_values(|l: StyledLine| l.text()) == old(lines)@.map_values(
            |l: StyledLine| l.text(),
        ) + more@.map_values(|l: StyledLine| l.text()),
        final(lines)@.map_values(|l: StyledLine| l.line_view()) == old(lines)@.map_values(
            |l: StyledLine| l.line_view(),
        ) + more@.map_values(|l: StyledLine| l.line_view()),
        forall|i: int| 0 <= i < final(lines)@.len() ==> (#[trigger] final(lines)@[i]).tight(),
{
    let ghost start = lines@.map_values(|l: StyledLine| l.text());
    let ghost extra = more@.map_values(|l: StyledLine| l.text());
    let ghost vstart = lines@.map_values(|l: StyledLine| l.line_view());
    let ghost vextra = more@.map_values(|l: StyledLine| l.line_view());
    let mut k: usize = 0;
    while k < more.len()
        invariant
            k <= more@.len(),
            extra == more@.map_values(|l: StyledLine| l.text()),
            forall|i: int| 0 <= i < more@.len() ==> (#[trigger] more@[i]).tight(),
            lines@.map_values(|l: StyledLine| l.text()) == start + extra.take(k as int),
            vextra == more@.map_values(|l: StyledLine| l.line_view()),
            lines@.map_values(|l: StyledLine| l.line_view()) == vstart + vextra.take(k as int),
            forall|i: int| 0 <= i < lines@.len() ==> (#[trigger] lines@[i]).tight(),
        decreases more.len() - k,
    {
        let copy = more[k].duplicate();
        assert(more@[k as int].tight());
        let ghost before = lines@;
        lines.push(copy);
        assert(lines@.map_values(|l: StyledLine| l.text()) =~= before.map_values(
            |l: StyledLine| l.text(),
        ).push(extra[k as int]));
        assert(extra.take(k as int + 1) =~= extra.take(k as int).push(extra[k as int]));
        assert(lines@.map_values(|l: StyledLine| l.text()) =~= start + extra.take(k as int + 1));
        assert(lines@.map_values(|l: StyledLine| l.line_view()) =~= before.map_values(
            |l: StyledLine| l.line_view(),
        ).push(vextra[k as int]));
        assert(vextra.take(k as int + 1) =~= vextra.take(k as int).push(vextra[k as int]));
        assert(lines@.map_values(|l: StyledLine| l.line_view()) =~= vstart + vextra.take(k as int + 1));
        assert forall|i: int| 0 <= i < lines@.len() implies (#[trigger] lines@[i]).tight() by {
            if i < before.len() {
                assert(lines@[i] == before[i]);
            }
        }
        k = k + 1;
    }
    assert(extra.take(extra.len() as int) =~= extra);
    assert(vextra.take(vextra.len() as int) =~= vextra);
}

/// The lines of a user message: one line per line of `msg`, the first one
/// behind an arrow (see `user_lines`).
fn user_message_lines(msg: &str) -> (r: Vec<StyledLine>)
    ensures
        r@.map_values(|l: StyledLine| l.text()) == user_lines(msg@),
        r@.map_values(|l: StyledLine| l.line_view()) == user_line_views(msg@),
        forall|i: int| 0 <= i < r@.len() ==> (#[trigger] r@[i]).tight(),
{
    let chars = crate::text::chars_of(msg);
    let ls = lines_of(chars.as_slice());
    let ghost lv = ls@.map_values(|l: Vec<char>| l@);
    let mut r: Vec<StyledLine> = Vec::new();
    let mut k: usize = 0;
    let ghost target = user_lines(msg@);
    let ghost vtarget = user_line_views(msg@);
    while k < ls.len()
        invariant
            lv == ls@.map_values(|l: Vec<char>| l@),
            lv == str_lines(msg@),
            target == user_lines(msg@),
            vtarget == user_line_views(msg@),
            k <= ls@.len(),
            r@.map_values(|l: StyledLine| l.text()) == target.take(k as int),
            r@.map_values(|l: StyledLine| l.line_view()) == vtarget.take(k as int),
            forall|i: int| 0 <= i < r@.len() ==> (#[trigger] r@[i]).tight(),
        decreases ls.len() - k,
    {
        let piece = copy_piece(&ls, k);
        crate::unicode::chars_fit(piece.as_slice());
        let mut line = StyledLine::from_chars(piece);
        proof {
            crate::styled_line::lemma_single_slice_tight(line);
        }
        if k == 0 {
            let arrow = vec!['└', '─', '>', ' '];
            assert(arrow@ =~= seq!['└', '─', '>', ' ']);
            line.prepend_text(arrow.as_slice(), crate::styled_line::default_style());
        }
        assert(line.text() == target[k as int]);
        assert(line.line_view() == vtarget[k as int]);
        let ghost before = r@;
        r.push(line);
        assert(r@.map_values(|l: StyledLine| l.text()) =~= before.map_values(
            |l: StyledLine| l.text(),
        ).push(target[k as int]));
        assert(target.take(k as int + 1) =~= target.take(k as int).push(target[k as int]));
        assert(r@.map_values(|l: StyledLine| l.text()) =~= target.take(k as int + 1));
        assert(r@.map_values(|l: StyledLine| l.line_view()) =~= before.map_values(
            |l: StyledLine| l.line_view(),
        ).push(vtarget[k as int]));
        assert(vtarget.take(k as int + 1) =~= vtarget.take(k as int).push(vtarget[k as int]));
        assert forall|i: int| 0 <= i < r@.len() implies (#[trigger] r@[i]).tight() by {
            if i < before.len() {
                assert(r@[i] == before[i]);
            }
        }
        k = k + 1;
    }
    assert(target.take(target.len() as int) =~= target);
    assert(vtarget.take(vtarget.len() as int) =~= vtarget);
    r
}

/// A copy of `ls[k]`.
fn copy_piece(ls: &Vec<Vec<char>>, k: usize) -> (r: Vec<char>)
    requires
        k < ls@.len(),
    ensures
        r@ == ls@[k as int]@,
{
    copy_chars(ls[k].as_slice())
}


/// The transcript of the first `j` messages reads `md` below index `j` only.
pub proof fn lemma_transcript_upto_prefix(
    msgs: Seq<ChatEvent>,
    md1: Seq<Seq<Seq<char>>>,
    md2: Seq<Seq<Seq<char>>>,
    j: int,
)
    requires
        forall|q: int| 0 <= q < j ==> md1[q] == md2[q],
    ensures
        transcript_upto(msgs, md1, j) == transcript_upto(msgs, md2, j),
    decreases j,
{
    if j > 0 {
        lemma_transcript_upto_prefix(msgs, md1, md2, j - 1);
    }
}

impl MessagesViewport {
    /// Builds the transcript of `chat_events` and the streamed message
    /// `stream_message` (see `is_transcript`), its text (see
    /// `transcript_text`) and its layout at the viewport's width. When the
    /// layout's offsets would not fit in `usize`, the transcript is left
    /// empty.
    #[verifier::rlimit(40)]
    pub fn build_lines(&mut self, chat_events: &[ChatEvent], stream_message: Option<&MessageDelta>)
        requires
            old(self).wf(),
            all_displayable(chat_events@),
        ensures
            rebuilt(
                *old(self),
                *final(self),
                chat_events@,
                match stream_message {
                    Some(d) => Some(d.delta@),
                    None => None,
                },
            ),
    {
        let idx = message_indices(chat_events);
        let ghost msgs = messages_of(chat_events@);
        let ghost stream = match stream_message {
            Some(d) => Some(d.delta@),
            None => None,
        };
        let mut lines: Vec<StyledLine> = Vec::new();
        let ghost mut md: Seq<Seq<Seq<char>>> = Seq::empty();
        let ghost mut mdv: Seq<Seq<LineView>> = Seq::empty();
        let mut j: usize = 0;
        while j < idx.len()
            invariant
                idx@.map_values(|k: usize| chat_events@[k as int]) == msgs,
                msgs == messages_of(chat_events@),
                forall|q: int| 0 <= q < idx@.len() ==> (#[trigger] idx@[q]) < chat_events@.len(),
                forall|i: int| 0 <= i < chat_events@.len() ==> displayable(#[trigger] chat_events@[i]),
                j <= idx@.len(),
                md == rendered_messages(msgs).take(j as int),
                lines@.map_values(|l: StyledLine| l.text()) == transcript_upto(msgs, md, j as int),
                mdv == rendered_message_views(msgs).take(j as int),
                lines@.map_values(|l: StyledLine| l.line_view()) == transcript_views_upto(msgs, mdv, j as int),
                forall|i: int| 0 <= i < lines@.len() ==> (#[trigger] lines@[i]).tight(),
            decreases idx.len() - j,
        {
            let e = &chat_events[idx[j]];
            assert(msgs[j as int] == *e);
            assert(displayable(chat_events@[idx@[j as int] as int]));
            proof {
                chat_events@.lemma_filter_pred(|e: ChatEvent| is_message_event(e), j as int);
                assert(is_message_event(msgs[j as int]));
            }
            let ghost md_before = md;
            let ghost mdv_before = mdv;
            match &e.payload {
                Some(Payload::Message(m)) => {
                    if m.role == 1 {
                        let start = match e.created_at {
                            Some(t) => t,
                            None => Timestamp::default(),
                        };
                        let elapsed = if j + 1 < idx.len() {
                            let next = &chat_events[idx[j + 1]];
                            assert(msgs[j + 1] == *next);
                            assert(displayable(chat_events@[idx@[j + 1] as int]));
                            proof {
                                chat_events@.lemma_filter_pred(
                                    |e: ChatEvent| is_message_event(e),
                                    j + 1,
                                );
                            }
                            let nt = match next.created_at {
                                Some(t) => t,
                                None => Timestamp::default(),
                            };
                            Some(elapsed_secs_of(start, nt))
                        } else {
                            None
                        };
                        let settings = match e.llm_settings {
                            Some(s) => s,
                            None => LlmSettings::default(),
                        };
                        let prompt = make_prompt_line(&settings, elapsed);
                        let ghost before = lines@;
                        lines.push(prompt);
                        assert(lines@.map_values(|l: StyledLine| l.text()) =~= before.map_values(
                            |l: StyledLine| l.text(),
                        ).push(prompt.text()));
                        assert(lines@.map_values(|l: StyledLine| l.line_view()) =~= before.map_values(
                            |l: StyledLine| l.line_view(),
                        ).push(prompt.line_view()));
                        assert forall|i: int| 0 <= i < lines@.len() implies (#[trigger] lines@[i]).tight() by {
                            if i < before.len() {
                                assert(lines@[i] == before[i]);
                            }
                        }
                        let user = user_message_lines(m.msg.as_str());
                        extend_lines(&mut lines, &user);
                        proof {
                            md = md.push(Seq::empty());
                            assert(md =~= rendered_messages(msgs).take(j as int + 1));
                            lemma_transcript_upto_prefix(msgs, md, md_before, j as int);
                            assert(user_segment(msgs, j as int) =~= seq![prompt.text()]
                                + user@.map_values(|l: StyledLine| l.text()));
                            mdv = mdv.push(Seq::empty());
                            assert(mdv =~= rendered_message_views(msgs).take(j as int + 1));
                            lemma_transcript_views_upto_prefix(msgs, mdv, mdv_before, j as int);
                            assert(user_segment_views(msgs, j as int) =~= seq![prompt.line_view()]
                                + user@.map_values(|l: StyledLine| l.line_view()));
                        }
                    } else {
                        let rendered = from_str(m.msg.as_str());
                        extend_lines(&mut lines, &rendered);
                        proof {
                            md = md.push(rendered@.map_values(|l: StyledLine| l.text()));
                            assert(message_text(msgs[j as int]) == m.msg@);
                            assert(md =~= rendered_messages(msgs).take(j as int + 1));
                            lemma_transcript_upto_prefix(msgs, md, md_before, j as int);
                            mdv = mdv.push(rendered@.map_values(|l: StyledLine| l.line_view()));
                            assert(mdv =~= rendered_message_views(msgs).take(j as int + 1));
                            lemma_transcript_views_upto_prefix(msgs, mdv, mdv_before, j as int);
                        }
                    }
                },
                _ => {
                    proof {
                        assert(false);
                    }
                },
            }
            assert(lines@.map_values(|l: StyledLine| l.text()) =~= transcript_upto(
                msgs,
                md,
                j as int + 1,
            ));
            assert(lines@.map_values(|l: StyledLine| l.line_view()) =~= transcript_views_upto(
                msgs,
                mdv,
                j as int + 1,
            ));
            j = j + 1;
        }
        assert(idx@.len() == msgs.len());
        let ghost mut sm: Seq<Seq<char>> = Seq::empty();
        let ghost before_stream = lines@.map_values(|l: StyledLine| l.text());
        let ghost mut svm: Seq<LineView> = Seq::empty();
        let ghost vbefore_stream = lines@.map_values(|l: StyledLine| l.line_view());
        match stream_message {
            Some(d) => {
                let rendered = from_str(d.delta.as_str());
                extend_lines(&mut lines, &rendered);
                proof {
                    sm = rendered@.map_values(|l: StyledLine| l.text());
                    svm = rendered@.map_values(|l: StyledLine| l.line_view());
                }
            },
            None => {},
        }
        assert(md =~= rendered_messages(msgs));
        assert(lines@.map_values(|l: StyledLine| l.text()) =~= before_stream + sm);
        assert(mdv =~= rendered_message_views(msgs));
        assert(lines@.map_values(|l: StyledLine| l.line_view()) =~= vbefore_stream + svm);
        let last = StyledLine::from_chars(Vec::new());
        proof {
            crate::styled_line::lemma_single_slice_tight(last);
        }
        let ghost before_last = lines@;
        lines.push(last);
        assert(lines@.map_values(|l: StyledLine| l.text()) =~= before_last.map_values(
            |l: StyledLine| l.text(),
        ).push(Seq::<char>::empty()));
        assert(lines@.map_values(|l: StyledLine| l.line_view()) =~= before_last.map_values(
            |l: StyledLine| l.line_view(),
        ).push(plain_line(Seq::empty())));
        assert forall|i: int| 0 <= i < lines@.len() implies (#[trigger] lines@[i]).tight() by {
            if i < before_last.len() {
                assert(lines@[i] == before_last[i]);
            }
        }
        let ghost ts = lines@.map_values(|l: StyledLine| l.text());
        assert(is_transcript(ts, chat_events@, stream));
        let ghost views = lines@.map_values(|l: StyledLine| l.line_view());
        let ghost contents = lines@;
        assert(is_transcript_view(views, chat_events@, stream));
        let input = transcript_text_of(&lines);
        crate::unicode::chars_fit(input.as_slice());
        assert(content_texts(lines@) =~= ts);
        match lay_out(lines, self.viewport_width) {
            Some(paragraphs) => {
                proof {
                    let pc = para_contents(paragraphs@);
                    assert(para_texts(paragraphs@) =~= ts);
                    assert forall|q: int, k: int|
                        0 <= q < paragraphs@.len() && 0 <= k < paragraphs@[q].line_values().len()
                            implies is_message_line(
                        #[trigger] paragraphs@[q].line_values()[k],
                        pc[q],
                        self.viewport_width,
                        k,
                    ) by {
                        paragraphs@[q].lemma_views();
                    }
                    assert(content_texts(pc) =~= ts) by {
                        assert forall|q: int| 0 <= q < pc.len() implies content_texts(pc)[q] == ts[q] by {
                            paragraphs@[q].lemma_views();
                        }
                    }
                    assert(pc.map_values(|c: StyledLine| c.line_view()) =~= views) by {
                        assert forall|q: int| 0 <= q < pc.len() implies pc[q].line_view() == views[q] by {
                            paragraphs@[q].lemma_views();
                            assert(content_texts(pc)[q] == ts[q]);
                            assert(contents[q].text() == ts[q]);
                        }
                    }
                }
                self.paragraphs = paragraphs;
                self.input = input;
            },
            None => {
                assert(is_transcript(ts, chat_events@, stream) && !message_layout_fits(ts, self.viewport_width));
                self.paragraphs = Vec::new();
                self.input = Vec::new();
            },
        }
    }
}


/// Whether the transcript can show `e` (see `displayable`).
pub fn is_displayable(e: &ChatEvent) -> (r: bool)
    ensures
        r == displayable(*e),
{
    match &e.payload {
        Some(Payload::Message(m)) => {
            let role_ok = m.role == 1 || m.role == 2;
            let time_ok = match e.created_at {
                Some(t) => -0x2000_0000_0000_0000 <= t.seconds && t.seconds <= 0x2000_0000_0000_0000,
                None => m.role != 1,
            };
            role_ok && time_ok
        },
        _ => true,
    }
}

/// Whether the transcript can show every event of `events`.
pub fn are_displayable(events: &Vec<ChatEvent>) -> (r: bool)
    ensures
        r == all_displayable(events@),
{
    let mut i: usize = 0;
    while i < events.len()
        invariant
            i <= events@.len(),
            forall|j: int| 0 <= j < i ==> displayable(#[trigger] events@[j]),
        decreases events.len() - i,
    {
        if !is_displayable(&events[i]) {
            return false;
        }
        i = i + 1;
    }
    true
}

/// Pressing `v` twice without moving the cursor leaves no selection when there
/// was none, and keeps the view as it was.
pub proof fn law_selection_toggled_twice(v0: MessagesViewport, v1: MessagesViewport, v2: MessagesViewport)
    requires
        v0.selection() is None,
        selection_toggled(v0, v1),
        selection_toggled(v1, v2),
    ensures
        v1.selection() == Some(v0.cursor()),
        v2.selection() is None,
        v2.text() == v0.text(),
        v2.paras() == v0.paras(),
        v2.scroll() == v0.scroll(),
        v2.cursor() == v0.cursor(),
{
}

/// Yanking a selection gives the characters from the first selected one
/// through the last one, both included: those between the selection's start
/// and the cursor, whichever comes first, cut at the end of the text; the
/// selection is then cleared.
pub proof fn law_yank_includes_both_ends(before: MessagesViewport, after: MessagesViewport, r: Option<Seq<char>>)
    requires
        before.selection() is Some,
        yanked(before, after, r),
    ensures
        ({
            let s = before.selection().unwrap() as int;
            let c = before.cursor() as int;
            let lo = if s < c { s } else { c };
            let hi = if s < c { c } else { s };
            let n = before.text().len() as int;
            &&& r is Some
            &&& after.selection() is None
            &&& lo <= n ==> r.unwrap().len() == (if hi < n { hi + 1 } else { n }) - lo
            &&& forall|i: int| 0 <= i < r.unwrap().len() ==> #[trigger] r.unwrap()[i] == before.text()[lo + i]
            &&& hi < n ==> {
                &&& r.unwrap().len() == hi - lo + 1
                &&& r.unwrap()[0] == before.text()[lo]
                &&& r.unwrap().last() == before.text()[hi]
            }
        }),
{
}

/// The time shown on a prompt line counts the whole seconds from the start
/// to the end: it is the number of full seconds in the gap when the end is
/// not earlier (so at least one when the gap is a second or more), and zero
/// when the end is earlier.
pub proof fn law_elapsed_whole_seconds(start: Timestamp, end: Timestamp)
    requires
        timestamp_in_range(start),
        timestamp_in_range(end),
    ensures
        total_nanos(end) >= total_nanos(start) ==> {
            &&& elapsed_secs(start, end) * 1_000_000_000 <= total_nanos(end) - total_nanos(start)
            &&& total_nanos(end) - total_nanos(start) < (elapsed_secs(start, end) + 1) * 1_000_000_000
        },
        total_nanos(end) - total_nanos(start) >= 1_000_000_000 ==> elapsed_secs(start, end) >= 1,
        total_nanos(end) < total_nanos(start) ==> elapsed_secs(start, end) == 0,
{
    let d = total_nanos(end) - total_nanos(start);
    if d >= 0 {
        assert(d <= 0x4000_0000_0000_0000 * 1_000_000_000 + 0x1_0000_0000) by (nonlinear_arith)
            requires
                d == (end.seconds * 1_000_000_000 + end.nanos) - (start.seconds * 1_000_000_000 + start.nanos),
                -0x2000_0000_0000_0000 <= start.seconds <= 0x2000_0000_0000_0000,
                -0x2000_0000_0000_0000 <= end.seconds <= 0x2000_0000_0000_0000,
                -0x8000_0000 <= start.nanos < 0x8000_0000,
                -0x8000_0000 <= end.nanos < 0x8000_0000,
        ;
        let q = d / 1_000_000_000;
        vstd::arithmetic::div_mod::lemma_fundamental_div_mod(d, 1_000_000_000);
        vstd::arithmetic::div_mod::lemma_mod_pos_bound(d, 1_000_000_000);
        assert(0 <= q <= 0x4000_0000_0000_0005) by (nonlinear_arith)
            requires
                d == 1_000_000_000 * q + d % 1_000_000_000,
                0 <= d % 1_000_000_000 < 1_000_000_000,
                0 <= d <= 0x4000_0000_0000_0000 * 1_000_000_000 + 0x1_0000_0000,
        ;
        assert(elapsed_secs(start, end) == q);
    }
}

/// Moving the transcript's cursor left takes it one character back (staying
/// at the start), and moving it right one character on (staying at the end
/// of the text).
pub proof fn law_transcript_cursor_steps(before: MessagesViewport, left: MessagesViewport, right: MessagesViewport)
    requires
        moved_left_in(before, left),
        moved_right_in(before, right),
        before.cursor() < usize::MAX,
    ensures
        before.cursor() == 0 ==> left.cursor() == 0,
        0 < before.cursor() <= before.text().len() ==> left.cursor() == before.cursor() - 1,
        before.cursor() < before.text().len() ==> right.cursor() == before.cursor() + 1,
        before.cursor() >= before.text().len() ==> right.cursor() == before.text().len(),
{
}

} // verus!
