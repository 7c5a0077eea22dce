//! A logical paragraph of text together with the visual lines it was wrapped
//! into, and the mapping between byte offsets and cursor positions.
use crate::text::{
    byte_len, bytes_len, chars_within_bytes, lemma_byte_len_bounds, lemma_byte_len_take_last,
    lemma_byte_len_take_mono, lemma_total_bytes_flatten, lemma_total_bytes_take,
    lemma_total_bytes_take_mono, prefix_within_bytes, take_bytes, total_bytes, bytes_len_upto,
};
use crate::unicode::{clusters_of, display_width, grapheme_clusters, str_width};
use vstd::prelude::*;

verus! {

/// A line of text that exposes its characters.
pub trait LineLike {
    /// The characters of the line.
    spec fn text(&self) -> Seq<char>;

    fn as_chars(&self) -> (r: &[char])
        ensures
            r@ == self.text(),
    ;
}

/// Characters of `s` between byte offsets `start` and `end`; empty unless both
/// offsets start a character (or end the text) and `start <= end`.
pub open spec fn byte_slice(s: Seq<char>, start: int, end: int) -> Seq<char> {
    let i = chars_within_bytes(s, start) as int;
    let j = chars_within_bytes(s, end) as int;
    if start <= end && byte_len(s.take(i)) == start && byte_len(s.take(j)) == end {
        s.subrange(i, j)
    } else {
        Seq::empty()
    }
}

/// A line that can be cut at byte offsets.
pub trait Slicable: LineLike + Sized {
    /// The part of the line of `len` bytes starting at byte `offset`, or an
    /// empty line when these offsets do not fall on character boundaries.
    fn slice(&self, offset: usize, len: usize) -> (r: Self)
        requires
            offset + len <= usize::MAX,
        ensures
            r.text() == byte_slice(self.text(), offset as int, offset + len),
    ;
}

impl LineLike for Vec<char> {
    open spec fn text(&self) -> Seq<char> {
        self@
    }

    fn as_chars(&self) -> (r: &[char]) {
        self.as_slice()
    }
}

/// Where byte `rel` of the concatenated `lines` falls: the index of its line
/// and the part of that line before it, or `None` when `rel` is at or past the
/// end of the last line.
pub open spec fn locate_byte(lines: Seq<Seq<char>>, rel: int) -> Option<(int, Seq<char>)>
    decreases lines.len(),
{
    if lines.len() == 0 {
        None
    } else if rel < byte_len(lines[0]) {
        Some((0, take_bytes(lines[0], rel)))
    } else {
        match locate_byte(lines.drop_first(), rel - byte_len(lines[0])) {
            Some((i, p)) => Some((i + 1, p)),
            None => None,
        }
    }
}

pub open spec fn shift_location(o: Option<(int, Seq<char>)>, k: int) -> Option<(int, Seq<char>)> {
    match o {
        Some((i, p)) => Some((i + k, p)),
        None => None,
    }
}

/// Cursor position `(x, y)` of the byte `b` of a paragraph that starts at
/// byte `byte_offset` and visual line `line_offset` and is wrapped into
/// `lines`: the display width of the part of its line before it, and the
/// index of that line. A byte past the last line is placed after the end of
/// the last line.
pub open spec fn cursor_position_of(
    lines: Seq<Seq<char>>,
    byte_offset: int,
    line_offset: int,
    b: int,
) -> (u16, u16) {
    match locate_byte(lines, b - byte_offset) {
        Some((i, p)) => (display_width(p) as u16, (line_offset + i) as u16),
        None => (
            (if lines.len() == 0 {
                0usize
            } else {
                display_width(lines.last())
            }) as u16,
            (line_offset + lines.len() - 1) as u16,
        ),
    }
}

/// Bytes of the grapheme clusters `gs` that fit, from the left, within `x`
/// display columns: clusters are taken while the width so far plus the next
/// cluster's width does not exceed `x`.
pub open spec fn column_prefix_bytes(gs: Seq<Seq<char>>, x: int) -> nat
    decreases gs.len(),
{
    if gs.len() == 0 {
        0
    } else if display_width(gs[0]) > x {
        0
    } else {
        byte_len(gs[0]) + column_prefix_bytes(gs.drop_first(), x - display_width(gs[0]))
    }
}

/// Index of the visual line, among `n` lines starting at `line_offset`, that
/// row `y` selects: clamped to the last line.
pub open spec fn clamped_line_index(y: int, line_offset: int, n: int) -> int {
    if y - line_offset < n - 1 {
        y - line_offset
    } else {
        n - 1
    }
}

/// Byte offset that cursor position `(x, y)` selects in a paragraph that
/// starts at byte `byte_offset` and visual line `line_offset` and is wrapped
/// into `lines`.
pub open spec fn cursor_byte_idx_of(
    lines: Seq<Seq<char>>,
    byte_offset: int,
    line_offset: int,
    x: int,
    y: int,
) -> int {
    let i = clamped_line_index(y, line_offset, lines.len() as int);
    byte_offset + total_bytes(lines.take(i)) + column_prefix_bytes(
        grapheme_clusters(lines[i]),
        x,
    )
}

/// A logical paragraph (text without line breaks) and its visual lines.
#[derive(Debug)]
pub struct Paragraph<L> {
    content: L,
    lines: Vec<L>,
    byte_offset: usize,
    line_offset: usize,
}

impl<L: LineLike> Paragraph<L> {
    /// The paragraph's text.
    pub closed spec fn text(&self) -> Seq<char> {
        self.content.text()
    }

    /// The text of each visual line.
    pub closed spec fn line_texts(&self) -> Seq<Seq<char>> {
        self.lines@.map_values(|l: L| l.text())
    }

    /// The paragraph's content.
    pub closed spec fn content_value(&self) -> L {
        self.content
    }

    /// The visual lines.
    pub closed spec fn line_values(&self) -> Seq<L> {
        self.lines@
    }

    /// The texts of the visual lines are the texts of the line values, and
    /// the paragraph's text is its content's.
    pub proof fn lemma_views(&self)
        ensures
            self.line_texts() == self.line_values().map_values(|l: L| l.text()),
            self.text() == self.content_value().text(),
    {
    }

    /// Byte offset of the paragraph within its text.
    pub closed spec fn start_byte(&self) -> nat {
        self.byte_offset as nat
    }

    /// Index of the paragraph's first visual line.
    pub closed spec fn start_line(&self) -> nat {
        self.line_offset as nat
    }

    /// The offsets and sizes of the paragraph fit in `usize` arithmetic.
    pub open spec fn fits(&self) -> bool {
        &&& self.start_byte() + byte_len(self.text()) <= usize::MAX
        &&& self.start_byte() + total_bytes(self.line_texts()) <= usize::MAX
        &&& self.start_line() + self.line_texts().len() <= usize::MAX
    }

    /// A paragraph of `content` with no visual lines yet, at offset 0.
    pub fn build(content: L) -> (p: Self)
        ensures
            p.text() == content.text(),
            p.content_value() == content,
            p.line_values() == Seq::<L>::empty(),
            p.line_texts() == Seq::<Seq<char>>::empty(),
            p.start_byte() == 0,
            p.start_line() == 0,
    {
        let p = Paragraph { content, lines: Vec::new(), byte_offset: 0, line_offset: 0 };
        assert(p.line_texts() =~= Seq::<Seq<char>>::empty());
        p
    }

    pub fn content(&self) -> (r: &L)
        ensures
            r.text() == self.text(),
            *r == self.content_value(),
    {
        &self.content
    }

    pub fn lines(&self) -> (r: &[L])
        ensures
            r@.map_values(|l: L| l.text()) == self.line_texts(),
            r@ == self.line_values(),
    {
        self.lines.as_slice()
    }

    pub fn byte_offset(&self) -> (r: usize)
        ensures
            r == self.start_byte(),
    {
        self.byte_offset
    }

    pub fn line_offset(&self) -> (r: usize)
        ensures
            r == self.start_line(),
    {
        self.line_offset
    }

    /// Byte length of the paragraph's text.
    pub fn len(&self) -> (n: usize)
        requires
            byte_len(self.text()) <= usize::MAX,
        ensures
            n == byte_len(self.text()),
    {
        bytes_len(self.content.as_chars())
    }

    /// Replaces the visual lines and the paragraph's offsets.
    pub fn reflow(&mut self, lines: Vec<L>, byte_offset: usize, line_offset: usize)
        ensures
            final(self).text() == old(self).text(),
            final(self).content_value() == old(self).content_value(),
            final(self).line_values() == lines@,
            final(self).line_texts() == lines@.map_values(|l: L| l.text()),
            final(self).start_byte() == byte_offset,
            final(self).start_line() == line_offset,
    {
        self.lines = lines;
        self.byte_offset = byte_offset;
        self.line_offset = line_offset;
    }

    /// Cursor position of byte `cursor_byte_idx`, which lies at or after the
    /// start of this paragraph, against its visual lines.
    pub fn find_cursor_position(&self, cursor_byte_idx: usize) -> (pos: (u16, u16))
        requires
            self.fits(),
            cursor_byte_idx >= self.start_byte(),
            self.start_line() + self.line_texts().len() >= 1,
        ensures
            pos == cursor_position_of(
                self.line_texts(),
                self.start_byte() as int,
                self.start_line() as int,
                cursor_byte_idx as int,
            ),
    {
        let ghost lines = self.line_texts();
        let rel = cursor_byte_idx - self.byte_offset;
        let mut line_byte_offset: usize = 0;
        let mut line_idx: usize = 0;
        assert(lines.skip(0) =~= lines);
        while line_idx < self.lines.len()
            invariant
                lines == self.line_texts(),
                self.fits(),
                line_idx <= lines.len(),
                line_byte_offset <= rel,
                rel == cursor_byte_idx - self.start_byte(),
                locate_byte(lines, rel as int) == shift_location(
                    locate_byte(lines.skip(line_idx as int), rel - line_byte_offset),
                    line_idx as int,
                ),
            decreases self.lines.len() - line_idx,
        {
            let line = self.lines[line_idx].as_chars();
            assert(line@ == lines[line_idx as int]);
            proof {
                lemma_byte_len_bounds(line@);
            }
            let len = bytes_len_upto(line, rel - line_byte_offset);
            match len {
                None => {
                    let prefix = prefix_within_bytes(line, rel - line_byte_offset);
                    let x = str_width(prefix.as_slice());
                    let y = self.line_offset + line_idx;
                    return (x as u16, y as u16);
                },
                Some(n) => {
                    proof {
                        let sk = lines.skip(line_idx as int);
                        assert(sk[0] == lines[line_idx as int]);
                        assert(sk.drop_first() =~= lines.skip(line_idx + 1));
                    }
                    line_byte_offset = line_byte_offset + n;
                    line_idx = line_idx + 1;
                },
            }
        }
        assert(lines.skip(line_idx as int) =~= Seq::<Seq<char>>::empty());
        let x: usize = if self.lines.len() == 0 {
            0
        } else {
            str_width(self.lines[self.lines.len() - 1].as_chars())
        };
        let y = self.line_offset + self.lines.len() - 1;
        (x as u16, y as u16)
    }

    /// Byte offset that cursor position `cursor_position` selects against the
    /// visual lines; the row is clamped to the last line and the column to
    /// the end of its line.
    pub fn find_cursor_byte_idx(&self, cursor_position: (u16, u16)) -> (b: usize)
        requires
            self.fits(),
            cursor_position.1 >= self.start_line(),
            self.line_texts().len() >= 1,
        ensures
            b == cursor_byte_idx_of(
                self.line_texts(),
                self.start_byte() as int,
                self.start_line() as int,
                cursor_position.0 as int,
                cursor_position.1 as int,
            ),
    {
        let ghost lines = self.line_texts();
        let (x, y) = cursor_position;
        let mut line_idx = y as usize - self.line_offset;
        if line_idx > self.lines.len() - 1 {
            line_idx = self.lines.len() - 1;
        }
        let line = self.lines[line_idx].as_chars();
        assert(line@ == lines[line_idx as int]);
        proof {
            lemma_total_bytes_take(lines, line_idx as int);
            lemma_total_bytes_take_mono(lines, line_idx + 1, lines.len() as int);
            assert(lines.take(lines.len() as int) =~= lines);
        }
        let mut line_byte_offset: usize = 0;
        let mut i: usize = 0;
        while i < line_idx
            invariant
                lines == self.line_texts(),
                line_idx < lines.len(),
                i <= line_idx,
                line_byte_offset == total_bytes(lines.take(i as int)),
                total_bytes(lines.take(line_idx as int)) <= total_bytes(lines),
                self.fits(),
            decreases line_idx - i,
        {
            proof {
                lemma_total_bytes_take(lines, i as int);
                lemma_total_bytes_take_mono(lines, i + 1, line_idx as int);
            }
            line_byte_offset = line_byte_offset + bytes_len(self.lines[i].as_chars());
            i = i + 1;
        }
        let gs = clusters_of(line);
        let ghost gv = gs@.map_values(|g: Vec<char>| g@);
        assert(gv =~= grapheme_clusters(line@));
        proof {
            lemma_total_bytes_flatten(gv);
            lemma_total_bytes_take_mono(gv, 0, gv.len() as int);
            assert(gv.take(gv.len() as int) =~= gv);
            assert(gv.skip(0) =~= gv);
        }
        let x = x as usize;
        let mut current_width: usize = 0;
        let mut grapheme_offset: usize = 0;
        let mut k: usize = 0;
        while k < gs.len()
            invariant
                gv == gs@.map_values(|g: Vec<char>| g@),
                gv == grapheme_clusters(line@),
                total_bytes(gv) == byte_len(line@),
                k <= gs.len(),
                x == cursor_position.0,
                line_idx as int == clamped_line_index(
                    cursor_position.1 as int,
                    self.start_line() as int,
                    lines.len() as int,
                ),
                current_width <= x,
                grapheme_offset == total_bytes(gv.take(k as int)),
                column_prefix_bytes(gv, x as int) == grapheme_offset + column_prefix_bytes(
                    gv.skip(k as int),
                    x - current_width,
                ),
                line_byte_offset == total_bytes(lines.take(line_idx as int)),
                line_idx < lines.len(),
                line@ == lines[line_idx as int],
                lines == self.line_texts(),
                total_bytes(lines.take(line_idx as int)) + byte_len(line@) <= total_bytes(lines),
                self.fits(),
            decreases gs.len() - k,
        {
            let g = gs[k].as_slice();
            assert(g@ == gv[k as int]);
            let grapheme_width = str_width(g);
            proof {
                lemma_total_bytes_take(gv, k as int);
                lemma_total_bytes_take_mono(gv, k + 1, gv.len() as int);
                assert(gv.take(gv.len() as int) =~= gv);
                let sk = gv.skip(k as int);
                assert(sk[0] == gv[k as int]);
                assert(sk.drop_first() =~= gv.skip(k + 1));
            }
            if grapheme_width > x - current_width {
                return self.byte_offset + line_byte_offset + grapheme_offset;
            }
            current_width = current_width + grapheme_width;
            grapheme_offset = grapheme_offset + bytes_len(g);
            k = k + 1;
        }
        assert(gv.skip(k as int) =~= Seq::<Seq<char>>::empty());
        self.byte_offset + line_byte_offset + grapheme_offset
    }
}

} // verus!
