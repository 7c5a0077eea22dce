//! A line of text with styled byte ranges.
use crate::paragraph::{byte_slice, LineLike, Slicable};
use crate::text::{byte_len, bytes_len_upto, lemma_byte_len_add};
use crate::style::{patched, plain, Style};
use vstd::prelude::*;

verus! {

/// The style that changes nothing.
pub(crate) fn default_style() -> (s: Style)
    ensures
        s == plain(),
{
    Style::new()
}

/// `other` laid over `base` (see `patched`).
pub(crate) fn patch(base: Style, other: Style) -> (s: Style)
    ensures
        s == patched(base, other),
{
    base.patch(other)
}

/// A style applied to `len` bytes of a line from byte `byte_offset`.
#[derive(Clone, Copy, Debug)]
pub struct StyleSlice {
    pub byte_offset: usize,
    pub len: usize,
    /// A Ratatui `Style`.
    pub style: Style,
}

impl StyleSlice {
    pub open spec fn start(self) -> int {
        self.byte_offset as int
    }

    pub open spec fn end(self) -> int {
        self.byte_offset + self.len
    }

    fn new(byte_offset: usize, len: usize, style: Style) -> (s: Self)
        ensures
            s == (StyleSlice { byte_offset, len, style }),
    {
        StyleSlice { byte_offset, len, style }
    }

    fn start_idx(&self) -> (r: usize)
        ensures
            r == self.byte_offset,
    {
        self.byte_offset
    }

    fn end_idx(&self) -> (r: usize)
        requires
            self.byte_offset + self.len <= usize::MAX,
        ensures
            r == self.end(),
    {
        self.byte_offset + self.len
    }
}

/// The part of the style slice `s` that lies in the byte range
/// `[offset, offset + len)`, placed relative to `offset`; `None` when the
/// slice starts at or after the range's end or ends before its start.
pub open spec fn clip_slice(s: StyleSlice, offset: int, len: int) -> Option<StyleSlice> {
    if s.start() >= offset + len || s.end() < offset {
        None
    } else {
        let start = if s.start() > offset {
            s.start()
        } else {
            offset
        };
        let end = if s.end() < offset + len {
            s.end()
        } else {
            offset + len
        };
        Some(
            StyleSlice {
                byte_offset: (start - offset) as usize,
                len: (if end > start {
                    end - start
                } else {
                    0
                }) as usize,
                style: s.style,
            },
        )
    }
}

/// What a line holds: its text, the style of the whole line and the styled
/// byte ranges.
#[verifier::ext_equal]
pub struct LineView {
    pub text: Seq<char>,
    pub style: Style,
    pub slices: Seq<StyleSlice>,
}

/// The line with no text, the plain style and no slices.
pub open spec fn empty_line() -> LineView {
    LineView { text: Seq::empty(), style: plain(), slices: Seq::empty() }
}

/// The line of text `c` in the plain style, with one plain slice covering it.
pub open spec fn plain_line(c: Seq<char>) -> LineView {
    LineView {
        text: c,
        style: plain(),
        slices: seq![StyleSlice { byte_offset: 0, len: byte_len(c) as usize, style: plain() }],
    }
}

/// `v` followed by `c`, with one more slice of style `s` covering `c`.
pub open spec fn appended(v: LineView, c: Seq<char>, s: Style) -> LineView {
    LineView {
        text: v.text + c,
        slices: v.slices.push(
            StyleSlice { byte_offset: byte_len(v.text) as usize, len: byte_len(c) as usize, style: s },
        ),
        ..v
    }
}

/// `v` after the prefix `p` in style `s`: a slice covering `p` first, the
/// other slices moved past it.
pub open spec fn prefixed(v: LineView, p: Seq<char>, s: Style) -> LineView {
    LineView {
        text: p + v.text,
        slices: seq![StyleSlice { byte_offset: 0, len: byte_len(p) as usize, style: s }]
            + v.slices.map_values(|x: StyleSlice| shift_slice(x, byte_len(p) as int)),
        ..v
    }
}

/// `v` with `s` laid over the style of the whole line.
pub open spec fn restyled(v: LineView, s: Style) -> LineView {
    LineView { style: patched(v.style, s), ..v }
}

/// A line of text, a style for the whole line, and styles for byte ranges.
#[derive(Clone, Debug)]
pub struct StyledLine {
    /// The literal text to render.
    content: Vec<char>,
    /// A Ratatui `Style` applied to the whole line.
    style: Style,
    /// Style slices in current line.
    style_slices: Vec<StyleSlice>,
}

impl LineLike for StyledLine {
    closed spec fn text(&self) -> Seq<char> {
        self.content@
    }

    fn as_chars(&self) -> (r: &[char]) {
        self.content.as_slice()
    }
}

impl StyledLine {
    pub closed spec fn slices(&self) -> Seq<StyleSlice> {
        self.style_slices@
    }

    pub closed spec fn line_style(&self) -> Style {
        self.style
    }

    /// The text, the whole line's style and the slices.
    pub open spec fn line_view(&self) -> LineView {
        LineView { text: self.text(), style: self.line_style(), slices: self.slices() }
    }

    /// The line's text fits in `usize` byte offsets and every slice's end does.
    pub open spec fn wf(&self) -> bool {
        &&& byte_len(self.text()) <= usize::MAX
        &&& forall|i: int|
            0 <= i < self.slices().len() ==> (#[trigger] self.slices()[i]).end() <= usize::MAX
    }

    /// An empty line with no style slices.
    pub fn new() -> (l: Self)
        ensures
            l.wf(),
            l.text() == Seq::<char>::empty(),
            l.slices() == Seq::<StyleSlice>::empty(),
            l.line_style() == plain(),
            l.line_view() == empty_line(),
    {
        let l = StyledLine { content: Vec::new(), style: default_style(), style_slices: Vec::new() };
        assert(l.line_view() =~= empty_line());
        l
    }

    /// A line of `content` with one unstyled slice covering it.
    pub fn from_chars(content: Vec<char>) -> (l: Self)
        requires
            byte_len(content@) <= usize::MAX,
        ensures
            l.wf(),
            l.text() == content@,
            l.slices().len() == 1,
            l.slices()[0].byte_offset == 0,
            l.slices()[0].len == byte_len(content@),
            l.line_view() == plain_line(content@),
    {
        let len = crate::text::bytes_len(content.as_slice());
        let style_slice = StyleSlice::new(0, len, default_style());
        let l = StyledLine { content, style: default_style(), style_slices: vec![style_slice] };
        assert(l.line_view() =~= plain_line(l.content@));
        l
    }

    pub fn content(&self) -> (r: &[char])
        ensures
            r@ == self.text(),
    {
        self.content.as_slice()
    }

    pub fn style(&self) -> (r: Style)
        ensures
            r == self.line_style(),
    {
        self.style
    }

    pub fn style_slices(&self) -> (r: &[StyleSlice])
        ensures
            r@ == self.slices(),
    {
        self.style_slices.as_slice()
    }

    /// The same line with `style` as the whole line's style.
    pub fn with_style(self, style: Style) -> (l: Self)
        ensures
            l.text() == self.text(),
            l.slices() == self.slices(),
            l.line_style() == style,
            l.line_view() == (LineView { style, ..self.line_view() }),
    {
        let mut l = self;
        l.style = style;
        l
    }

    /// Appends `content` with a slice of `style` covering it. When the line's
    /// byte length could no longer be held in `usize`, the line is left as it is.
    pub fn append(&mut self, content: &[char], style: Style)
        requires
            old(self).wf(),
        ensures
            final(self).wf(),
            final(self).line_style() == old(self).line_style(),
            byte_len(old(self).text()) + byte_len(content@) > usize::MAX ==> *final(self) == *old(
                self,
            ),
            byte_len(old(self).text()) + byte_len(content@) <= usize::MAX ==> {
                &&& final(self).text() == old(self).text() + content@
                &&& final(self).slices() == old(self).slices().push(
                    StyleSlice {
                        byte_offset: byte_len(old(self).text()) as usize,
                        len: byte_len(content@) as usize,
                        style,
                    },
                )
            },
    {
        let byte_offset = crate::text::bytes_len(self.content.as_slice());
        let len = match bytes_len_upto(content, usize::MAX - byte_offset) {
            Some(n) => n,
            None => {
                return;
            },
        };
        proof {
            lemma_byte_len_add(self.content@, content@);
        }
        crate::text::append_chars(&mut self.content, content);
        let ghost before = self.style_slices@;
        assert(before == old(self).slices());
        self.style_slices.push(StyleSlice::new(byte_offset, len, style));
        assert forall|i: int| 0 <= i < self.slices().len() implies (
        #[trigger] self.slices()[i]).end() <= usize::MAX by {
            if i < before.len() {
                assert(self.slices()[i] == before[i]);
                assert(old(self).slices()[i].end() <= usize::MAX);
            }
        }
    }

    /// Inserts `prefix` with a slice of `style` at the start of the line,
    /// shifting the other slices after it. When offsets could no longer be
    /// held in `usize`, the line is left as it is.
    pub fn insert_prefix(&mut self, prefix: &[char], style: Style)
        requires
            old(self).wf(),
        ensures
            final(self).wf(),
            final(self).line_style() == old(self).line_style(),
            !prefix_fits(*old(self), byte_len(prefix@) as int) ==> *final(self) == *old(self),
            prefix_fits(*old(self), byte_len(prefix@) as int) ==> {
                &&& final(self).text() == prefix@ + old(self).text()
                &&& final(self).slices() == seq![
                    StyleSlice { byte_offset: 0, len: byte_len(prefix@) as usize, style },
                ] + old(self).slices().map_values(
                    |s: StyleSlice| shift_slice(s, byte_len(prefix@) as int),
                )
            },
    {
        let total = crate::text::bytes_len(self.content.as_slice());
        assert(total == byte_len(old(self).text()));
        let len = match bytes_len_upto(prefix, usize::MAX - total) {
            Some(n) => n,
            None => {
                assert(!prefix_fits(*old(self), byte_len(prefix@) as int));
                return;
            },
        };
        let mut i: usize = 0;
        while i < self.style_slices.len()
            invariant
                *self == *old(self),
                self.wf(),
                len + total <= usize::MAX,
                total == byte_len(self.text()),
                len == byte_len(prefix@),
                i <= self.style_slices@.len(),
                forall|j: int|
                    0 <= j < i ==> (#[trigger] self.style_slices@[j]).end() + len <= usize::MAX,
            decreases self.style_slices.len() - i,
        {
            assert(self.slices()[i as int] == self.style_slices@[i as int]);
            let end = self.style_slices[i].end_idx();
            if end > usize::MAX - len {
                assert(self.slices()[i as int].end() + len > usize::MAX);
                return;
            }
            i = i + 1;
        }
        let ghost f = |s: StyleSlice| shift_slice(s, len as int);
        let mut shifted: Vec<StyleSlice> = Vec::new();
        shifted.push(StyleSlice::new(0, len, style));
        let mut k: usize = 0;
        while k < self.style_slices.len()
            invariant
                *self == *old(self),
                f == (|s: StyleSlice| shift_slice(s, len as int)),
                k <= self.style_slices@.len(),
                forall|j: int|
                    0 <= j < self.style_slices@.len() ==> (#[trigger] self.style_slices@[j]).end()
                        + len <= usize::MAX,
                shifted@ == seq![StyleSlice { byte_offset: 0, len, style }]
                    + self.style_slices@.take(k as int).map_values(f),
            decreases self.style_slices.len() - k,
        {
            let s = self.style_slices[k];
            assert(s == self.style_slices@[k as int]);
            let ghost before = shifted@;
            let moved = StyleSlice::new(s.byte_offset + len, s.len, s.style);
            assert(moved == f(s));
            shifted.push(moved);
            assert(shifted@ == before.push(f(s)));
            assert(self.style_slices@.take(k as int + 1).map_values(f) =~= self.style_slices@.take(
                k as int,
            ).map_values(f).push(f(s)));
            k = k + 1;
        }
        assert(self.style_slices@.take(self.style_slices@.len() as int) =~= self.style_slices@);
        let mut content = crate::text::copy_chars(prefix);
        crate::text::append_chars(&mut content, self.content.as_slice());
        proof {
            lemma_byte_len_add(prefix@, self.content@);
        }
        self.content = content;
        self.style_slices = shifted;
    }

    /// A copy of the line.
    pub fn duplicate(&self) -> (r: Self)
        ensures
            r.text() == self.text(),
            r.slices() == self.slices(),
            r.line_style() == self.line_style(),
    {
        let mut slices: Vec<StyleSlice> = Vec::new();
        let mut k: usize = 0;
        while k < self.style_slices.len()
            invariant
                k <= self.style_slices@.len(),
                slices@ == self.style_slices@.take(k as int),
            decreases self.style_slices.len() - k,
        {
            slices.push(self.style_slices[k]);
            assert(slices@ =~= self.style_slices@.take(k as int + 1));
            k = k + 1;
        }
        assert(self.style_slices@.take(self.style_slices@.len() as int) =~= self.style_slices@);
        StyledLine {
            content: crate::text::copy_chars(self.content.as_slice()),
            style: self.style,
            style_slices: slices,
        }
    }

    /// Lays `style` over the whole line's style.
    pub fn patch_style(&mut self, style: Style)
        ensures
            final(self).text() == old(self).text(),
            final(self).slices() == old(self).slices(),
            final(self).line_style() == patched(old(self).line_style(), style),
            final(self).line_view() == restyled(old(self).line_view(), style),
    {
        self.style = patch(self.style, style);
    }
}

/// The slice `s` moved `by` bytes to the right.
pub open spec fn shift_slice(s: StyleSlice, by: int) -> StyleSlice {
    StyleSlice { byte_offset: (s.byte_offset + by) as usize, len: s.len, style: s.style }
}

/// A prefix of `len` bytes fits before the line `l`: its text and every
/// shifted slice end stay within `usize`.
pub open spec fn prefix_fits(l: StyledLine, len: int) -> bool {
    &&& byte_len(l.text()) + len <= usize::MAX
    &&& forall|j: int| 0 <= j < l.slices().len() ==> (#[trigger] l.slices()[j]).end() + len <= usize::MAX
}


/// The pieces of slice `s` before, within and after the byte range
/// `[start, end)`, as `(offset, len, style)`, empty pieces left out. The
/// pieces outside the range keep the slice's style; the piece within it has
/// its style patched, which `None` stands for.
pub open spec fn range_parts(s: StyleSlice, start: int, end: int) -> Seq<(int, int, Option<Style>)> {
    let a = s.start();
    let b = s.end();
    let m1 = if start < a {
        a
    } else if start > b {
        b
    } else {
        start
    };
    let m2 = if end < m1 {
        m1
    } else if end > b {
        b
    } else {
        end
    };
    let before = if m1 > a {
        seq![(a, m1 - a, Some(s.style))]
    } else {
        Seq::empty()
    };
    let within = if m2 > m1 {
        seq![(m1, m2 - m1, None::<Style>)]
    } else {
        Seq::empty()
    };
    let after = if b > m2 {
        seq![(m2, b - m2, Some(s.style))]
    } else {
        Seq::empty()
    };
    before + within + after
}

/// The slice `p` is the piece described by `part`.
pub open spec fn is_part(p: StyleSlice, part: (int, int, Option<Style>)) -> bool {
    &&& p.byte_offset == part.0
    &&& p.len == part.1
    &&& part.2 matches Some(st) ==> p.style == st
}

impl StyledLine {
    /// The same line with `style` laid over the byte range `[start, end)`:
    /// each slice is cut at the range's bounds and the pieces within it get
    /// `style` patched over their own.
    pub fn patch_range_style(&self, style: Style, start: usize, end: usize) -> (r: StyledLine)
        requires
            self.wf(),
        ensures
            r.wf(),
            r.text() == self.text(),
            r.line_style() == self.line_style(),
            r.slices().len() == self.slices().flat_map(
                |s: StyleSlice| range_parts(s, start as int, end as int),
            ).len(),
            forall|k: int|
                0 <= k < r.slices().len() ==> is_part(
                    #[trigger] r.slices()[k],
                    self.slices().flat_map(|s: StyleSlice| range_parts(s, start as int, end as int))[k],
                ),
    {
        let ghost f = |s: StyleSlice| range_parts(s, start as int, end as int);
        let mut out: Vec<StyleSlice> = Vec::new();
        let mut k: usize = 0;
        assert(self.style_slices@.take(0).flat_map(f) =~= Seq::<(int, int, Option<Style>)>::empty());
        while k < self.style_slices.len()
            invariant
                f == (|s: StyleSlice| range_parts(s, start as int, end as int)),
                self.wf(),
                k <= self.style_slices@.len(),
                out@.len() == self.style_slices@.take(k as int).flat_map(f).len(),
                forall|q: int|
                    0 <= q < out@.len() ==> is_part(
                        #[trigger] out@[q],
                        self.style_slices@.take(k as int).flat_map(f)[q],
                    ),
                forall|q: int| 0 <= q < out@.len() ==> (#[trigger] out@[q]).end() <= usize::MAX,
            decreases self.style_slices.len() - k,
        {
            let s = self.style_slices[k];
            assert(self.slices()[k as int] == s);
            let a = s.byte_offset;
            let b = s.end_idx();
            let m1 = if start < a {
                a
            } else if start > b {
                b
            } else {
                start
            };
            let m2 = if end < m1 {
                m1
            } else if end > b {
                b
            } else {
                end
            };
            let ghost base = out@;
            let ghost prev = self.style_slices@.take(k as int).flat_map(f);
            proof {
                self.style_slices@.take(k as int).lemma_flat_map_push(f, s);
                assert(self.style_slices@.take(k as int + 1) =~= self.style_slices@.take(
                    k as int,
                ).push(s));
            }
            let ghost parts = f(s);
            if m1 > a {
                out.push(StyleSlice::new(a, m1 - a, s.style));
            }
            if m2 > m1 {
                out.push(StyleSlice::new(m1, m2 - m1, patch(s.style, style)));
            }
            if b > m2 {
                out.push(StyleSlice::new(m2, b - m2, s.style));
            }
            assert(out@.len() == base.len() + parts.len());
            assert forall|q: int| 0 <= q < out@.len() implies is_part(
                #[trigger] out@[q],
                (prev + parts)[q],
            ) by {
                if q < base.len() {
                    assert(out@[q] == base[q]);
                }
            }
            k = k + 1;
        }
        assert(self.style_slices@.take(self.style_slices@.len() as int) =~= self.style_slices@);
        StyledLine {
            content: crate::text::copy_chars(self.content.as_slice()),
            style: self.style,
            style_slices: out,
        }
    }
}

impl Slicable for StyledLine {
    /// Returns a subslice of `StyledLine` starting at `offset` of length `len`.
    fn slice(&self, offset: usize, len: usize) -> (r: StyledLine)
        ensures
            r.slices() == self.slices().filter_map(
                |s: StyleSlice| clip_slice(s, offset as int, len as int),
            ),
            r.line_style() == self.line_style(),
            r.wf(),
    {
        let end = offset + len;
        let i = crate::text::char_count_within_bytes(self.content.as_slice(), offset);
        let j = crate::text::char_count_within_bytes(self.content.as_slice(), end);
        let before_i = crate::text::prefix_within_bytes(self.content.as_slice(), offset);
        let before_j = crate::text::prefix_within_bytes(self.content.as_slice(), end);
        proof {
            crate::text::lemma_chars_within_bytes(self.content@, offset as int);
            crate::text::lemma_chars_within_bytes(self.content@, end as int);
            if i == 0 {
                assert(self.content@.take(0) =~= Seq::<char>::empty());
            }
            if j == 0 {
                assert(self.content@.take(0) =~= Seq::<char>::empty());
            }
        }
        let bi = bytes_len_upto(before_i.as_slice(), offset);
        let bj = bytes_len_upto(before_j.as_slice(), end);
        let mut content: Vec<char> = Vec::new();
        if bi == Some(offset) && bj == Some(end) {
            let mut k = i;
            proof {
                crate::text::lemma_prefix_order(self.content@, offset as int, end as int);
            }
            while k < j
                invariant
                    i <= k <= j <= self.content@.len(),
                    content@ == self.content@.subrange(i as int, k as int),
                decreases j - k,
            {
                content.push(self.content[k]);
                assert(content@ =~= self.content@.subrange(i as int, k as int + 1));
                k = k + 1;
            }
            proof {
                let c = self.content@;
                assert(c.take(j as int) =~= c.take(i as int) + c.subrange(i as int, j as int));
                crate::text::lemma_byte_len_add(c.take(i as int), c.subrange(i as int, j as int));
            }
        } else {
            assert(content@ =~= Seq::<char>::empty());
        }
        let ghost clip = |s: StyleSlice| clip_slice(s, offset as int, len as int);
        let mut style_slices: Vec<StyleSlice> = Vec::new();
        let mut k: usize = 0;
        while k < self.style_slices.len()
            invariant
                clip == (|s: StyleSlice| clip_slice(s, offset as int, len as int)),
                end == offset + len,
                k <= self.style_slices@.len(),
                style_slices@ == self.style_slices@.take(k as int).filter_map(clip),
                forall|q: int| 0 <= q < style_slices@.len() ==> (#[trigger] style_slices@[q]).end() <= len,
            decreases self.style_slices.len() - k,
        {
            let s = self.style_slices[k];
            proof {
                self.style_slices@.lemma_filter_map_take_succ(clip, k as int);
            }
            let ends_before = s.byte_offset <= usize::MAX - s.len && s.byte_offset + s.len < offset;
            if s.byte_offset >= end || ends_before {
                assert(clip(s) == None::<StyleSlice>);
            } else {
                let start = if s.byte_offset > offset {
                    s.byte_offset
                } else {
                    offset
                };
                let stop = if s.len > end - s.byte_offset {
                    end
                } else {
                    s.byte_offset + s.len
                };
                let piece_len = if stop > start {
                    stop - start
                } else {
                    0
                };
                let piece = StyleSlice::new(start - offset, piece_len, s.style);
                assert(clip(s) == Some(piece));
                style_slices.push(piece);
            }
            k = k + 1;
        }
        assert(self.style_slices@.take(self.style_slices@.len() as int) =~= self.style_slices@);
        StyledLine { content, style: self.style, style_slices }
    }
}


impl StyledLine {
    /// Well formed, with every slice ending within the text.
    pub open spec fn tight(&self) -> bool {
        &&& self.wf()
        &&& forall|i: int|
            0 <= i < self.slices().len() ==> (#[trigger] self.slices()[i]).end() <= byte_len(self.text())
    }
}

/// A line of `text` whose only slice covers it is tight.
pub proof fn lemma_single_slice_tight(l: StyledLine)
    requires
        l.wf(),
        l.slices().len() == 1,
        l.slices()[0].byte_offset == 0,
        l.slices()[0].len == byte_len(l.text()),
    ensures
        l.tight(),
{
}

/// Appending to a tight line as `append` does keeps it tight.
pub proof fn lemma_append_tight(before: StyledLine, after: StyledLine, content: Seq<char>, style: Style)
    requires
        before.tight(),
        after.wf(),
        after.text() == before.text() + content,
        after.slices() == before.slices().push(
            StyleSlice {
                byte_offset: byte_len(before.text()) as usize,
                len: byte_len(content) as usize,
                style,
            },
        ),
    ensures
        after.tight(),
{
    lemma_byte_len_add(before.text(), content);
    assert forall|i: int| 0 <= i < after.slices().len() implies (#[trigger] after.slices()[i]).end()
        <= byte_len(after.text()) by {
        if i < before.slices().len() {
            assert(after.slices()[i] == before.slices()[i]);
        }
    }
}

/// Inserting a prefix into a tight line as `insert_prefix` does keeps it
/// tight, and a tight line takes any prefix that keeps its length in `usize`.
pub proof fn lemma_prefix_tight(before: StyledLine, after: StyledLine, prefix: Seq<char>, style: Style)
    requires
        before.tight(),
        after.wf(),
        prefix_fits(before, byte_len(prefix) as int) ==> {
            &&& after.text() == prefix + before.text()
            &&& after.slices() == seq![
                StyleSlice { byte_offset: 0, len: byte_len(prefix) as usize, style },
            ] + before.slices().map_values(|s: StyleSlice| shift_slice(s, byte_len(prefix) as int))
        },
        !prefix_fits(before, byte_len(prefix) as int) ==> after == before,
    ensures
        after.tight(),
        prefix_fits(before, byte_len(prefix) as int) <==> byte_len(before.text()) + byte_len(prefix)
            <= usize::MAX,
{
    if byte_len(before.text()) + byte_len(prefix) <= usize::MAX {
        assert forall|j: int| 0 <= j < before.slices().len() implies (#[trigger] before.slices()[j]).end()
            + byte_len(prefix) <= usize::MAX by {}
        lemma_byte_len_add(prefix, before.text());
        assert forall|i: int| 0 <= i < after.slices().len() implies (#[trigger] after.slices()[i]).end()
            <= byte_len(after.text()) by {
            if i > 0 {
                assert(after.slices()[i] == shift_slice(before.slices()[i - 1], byte_len(prefix) as int));
            }
        }
    }
}


impl StyledLine {
    /// Appends `content` in `style`: the text becomes the old text followed
    /// by `content`, with one more slice covering it.
    pub fn push_text(&mut self, content: &[char], style: Style)
        requires
            old(self).tight(),
        ensures
            final(self).tight(),
            final(self).line_view() == appended(old(self).line_view(), content@, style),
            final(self).text() == old(self).text() + content@,
            final(self).line_style() == old(self).line_style(),
            final(self).slices() == old(self).slices().push(
                StyleSlice {
                    byte_offset: byte_len(old(self).text()) as usize,
                    len: byte_len(content@) as usize,
                    style,
                },
            ),
    {
        let mut joined = crate::text::copy_chars(self.content.as_slice());
        crate::text::append_chars(&mut joined, content);
        crate::unicode::chars_fit(joined.as_slice());
        proof {
            lemma_byte_len_add(self.content@, content@);
        }
        let ghost before = *self;
        self.append(content, style);
        proof {
            lemma_append_tight(before, *self, content@, style);
        }
    }

    /// Puts `prefix` in `style` before the text, shifting the slices after
    /// it.
    pub fn prepend_text(&mut self, prefix: &[char], style: Style)
        requires
            old(self).tight(),
        ensures
            final(self).tight(),
            final(self).line_view() == prefixed(old(self).line_view(), prefix@, style),
            final(self).text() == prefix@ + old(self).text(),
            final(self).line_style() == old(self).line_style(),
            final(self).slices() == seq![
                StyleSlice { byte_offset: 0, len: byte_len(prefix@) as usize, style },
            ] + old(self).slices().map_values(|s: StyleSlice| shift_slice(s, byte_len(prefix@) as int)),
    {
        let mut joined = crate::text::copy_chars(prefix);
        crate::text::append_chars(&mut joined, self.content.as_slice());
        crate::unicode::chars_fit(joined.as_slice());
        proof {
            lemma_byte_len_add(prefix@, self.content@);
        }
        let ghost before = *self;
        self.insert_prefix(prefix, style);
        proof {
            lemma_prefix_tight(before, *self, prefix@, style);
        }
    }
}

} // verus!
