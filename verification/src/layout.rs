//! Layouts: sequences of paragraphs whose visual lines follow each other,
//! and the mapping between byte offsets and cursor positions over them.
use crate::paragraph::{cursor_byte_idx_of, cursor_position_of, LineLike, Paragraph};
use crate::text::byte_len;
use vstd::prelude::*;

verus! {

/// Paragraphs whose offsets fit, that each have at least one visual line, and
/// whose visual lines follow each other from line 0.
pub open spec fn well_laid<L: LineLike>(paras: Seq<Paragraph<L>>) -> bool {
    &&& forall|i: int|
        0 <= i < paras.len() ==> (#[trigger] paras[i]).fits() && paras[i].line_texts().len()
            >= 1
    &&& paras.len() > 0 ==> paras[0].start_line() == 0
    &&& forall|i: int|
        0 < i < paras.len() ==> (#[trigger] paras[i]).start_line() == paras[i - 1].start_line()
            + paras[i - 1].line_texts().len()
}

/// All visual lines of the paragraphs, in order.
pub open spec fn all_lines<L: LineLike>(paras: Seq<Paragraph<L>>) -> Seq<Seq<char>> {
    paras.map_values(|p: Paragraph<L>| p.line_texts()).flatten()
}

/// Whether byte `b` falls in paragraph `p`, its end (the line break after it)
/// included.
pub open spec fn holds_byte<L: LineLike>(p: Paragraph<L>, b: int) -> bool {
    p.start_byte() <= b <= p.start_byte() + byte_len(p.text())
}

/// Index of the first paragraph that holds byte `b`, or the number of
/// paragraphs when none does.
pub open spec fn first_holding<L: LineLike>(paras: Seq<Paragraph<L>>, b: int) -> int
    decreases paras.len(),
{
    if paras.len() == 0 {
        0
    } else if holds_byte(paras[0], b) {
        0
    } else {
        1 + first_holding(paras.drop_first(), b)
    }
}

/// Index of the first paragraph whose visual lines reach past row `y`, or the
/// number of paragraphs when none does.
pub open spec fn first_reaching<L: LineLike>(paras: Seq<Paragraph<L>>, y: int) -> int
    decreases paras.len(),
{
    if paras.len() == 0 {
        0
    } else if paras[0].start_line() + paras[0].line_texts().len() > y {
        0
    } else {
        1 + first_reaching(paras.drop_first(), y)
    }
}

/// The cursor position `pos` with its column clamped to `width`.
pub open spec fn clamp_column(pos: (u16, u16), width: usize) -> (u16, u16) {
    if pos.0 > width as u16 {
        (width as u16, pos.1)
    } else {
        pos
    }
}

/// Cursor position of byte `b` in the layout `paras` of a viewport `width`
/// columns wide, or `None` when no paragraph holds it.
pub open spec fn layout_cursor_position<L: LineLike>(paras: Seq<Paragraph<L>>, width: usize, b: int) -> Option<
    (u16, u16),
> {
    let i = first_holding(paras, b);
    if i < paras.len() {
        Some(
            clamp_column(
                cursor_position_of(
                    paras[i].line_texts(),
                    paras[i].start_byte() as int,
                    paras[i].start_line() as int,
                    b,
                ),
                width,
            ),
        )
    } else {
        None
    }
}

/// Byte offset that the cursor position `(x, y)` selects in the layout
/// `paras`: in the paragraph that row `y` falls in, clamped to the last.
pub open spec fn layout_cursor_byte_idx<L: LineLike>(paras: Seq<Paragraph<L>>, x: int, y: int) -> int {
    let r = first_reaching(paras, y);
    let i = if r < paras.len() {
        r
    } else {
        paras.len() - 1
    };
    cursor_byte_idx_of(
        paras[i].line_texts(),
        paras[i].start_byte() as int,
        paras[i].start_line() as int,
        x,
        y,
    )
}

/// Appending a paragraph appends its visual lines to all visual lines.
pub proof fn lemma_all_lines_take<L: LineLike>(paras: Seq<Paragraph<L>>, i: int)
    requires
        0 <= i < paras.len(),
    ensures
        all_lines(paras.take(i + 1)) == all_lines(paras.take(i)) + paras[i].line_texts(),
{
    let f = |p: Paragraph<L>| p.line_texts();
    assert(paras.take(i + 1).map_values(f) =~= paras.take(i).map_values(f).push(
        paras[i].line_texts(),
    ));
    paras.take(i).map_values(f).lemma_flatten_push(paras[i].line_texts());
}

/// Cursor position of byte `b` in the layout `paras` (see
/// `layout_cursor_position`).
pub fn locate_cursor<L: LineLike>(paras: &[Paragraph<L>], width: usize, b: usize) -> (r: Option<
    (u16, u16),
>)
    requires
        well_laid(paras@),
    ensures
        r == layout_cursor_position(paras@, width, b as int),
{
    let ghost ps = paras@;
    let mut i: usize = 0;
    assert(ps.skip(0) =~= ps);
    while i < paras.len()
        invariant
            ps == paras@,
            well_laid(ps),
            i <= ps.len(),
            first_holding(ps, b as int) == i + first_holding(ps.skip(i as int), b as int),
        decreases paras.len() - i,
    {
        let paragraph = &paras[i];
        assert(paragraph.fits());
        let start = paragraph.byte_offset();
        let len = paragraph.len();
        let ghost sk = ps.skip(i as int);
        assert(sk[0] == ps[i as int]);
        assert(sk.drop_first() =~= ps.skip(i + 1));
        if b >= start && b <= start + len {
            let (mut x, y) = paragraph.find_cursor_position(b);
            if x > width as u16 {
                x = width as u16;
            }
            return Some((x, y));
        }
        i = i + 1;
    }
    assert(ps.skip(ps.len() as int) =~= Seq::<Paragraph<L>>::empty());
    None
}

/// Index of the first paragraph of `paras` whose visual lines reach past row
/// `y`, or the number of paragraphs.
pub fn first_reaching_idx<L: LineLike>(paras: &[Paragraph<L>], y: usize) -> (i: usize)
    requires
        well_laid(paras@),
    ensures
        i == first_reaching(paras@, y as int),
        i <= paras@.len(),
        forall|j: int|
            0 <= j < i ==> (#[trigger] paras@[j]).start_line() + paras@[j].line_texts().len() <= y,
{
    let ghost ps = paras@;
    let mut i: usize = 0;
    assert(ps.skip(0) =~= ps);
    while i < paras.len()
        invariant
            ps == paras@,
            well_laid(ps),
            i <= ps.len(),
            first_reaching(ps, y as int) == i + first_reaching(ps.skip(i as int), y as int),
            forall|j: int|
                0 <= j < i ==> (#[trigger] ps[j]).start_line() + ps[j].line_texts().len() <= y,
        decreases paras.len() - i,
    {
        let paragraph = &paras[i];
        assert(paragraph.fits());
        let ghost sk = ps.skip(i as int);
        assert(sk[0] == ps[i as int]);
        assert(sk.drop_first() =~= ps.skip(i + 1));
        let reach = paragraph.line_offset() + paragraph.lines().len();
        if reach > y {
            return i;
        }
        i = i + 1;
    }
    assert(ps.skip(ps.len() as int) =~= Seq::<Paragraph<L>>::empty());
    i
}

/// Byte index that the cursor position `cursor_position` selects in the
/// layout `paras` (see `layout_cursor_byte_idx`).
pub fn layout_byte_idx<L: LineLike>(paras: &[Paragraph<L>], cursor_position: (u16, u16)) -> (b: usize)
    requires
        well_laid(paras@),
        paras@.len() >= 1,
    ensures
        b == layout_cursor_byte_idx(paras@, cursor_position.0 as int, cursor_position.1 as int),
{
    let ghost ps = paras@;
    let (_, y) = cursor_position;
    let y = y as usize;
    let mut i = first_reaching_idx(paras, y);
    if i == paras.len() {
        i = paras.len() - 1;
    }
    let paragraph = &paras[i];
    assert(paragraph.start_line() <= y) by {
        if i > 0 {
            assert(ps[i as int].start_line() == ps[i - 1].start_line() + ps[i
                - 1].line_texts().len());
        }
    }
    paragraph.find_cursor_byte_idx(cursor_position)
}

} // verus!
