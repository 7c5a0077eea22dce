//! Unicode text measurement and segmentation, computed by the
//! `unicode-width`, `unicode-segmentation` and `textwrap` crates.
use unicode_segmentation::UnicodeSegmentation;
use vstd::prelude::*;

verus! {

/// Display width in terminal columns of the text `s`, as
/// `unicode_width::UnicodeWidthStr::width` computes it.
pub uninterp spec fn display_width(s: Seq<char>) -> usize;

/// Extended grapheme clusters of the text `s`, as
/// `unicode_segmentation::UnicodeSegmentation::graphemes(_, true)` yields them.
pub uninterp spec fn grapheme_clusters(s: Seq<char>) -> Seq<Seq<char>>;

/// Lines of the text `s` wrapped to `width` columns by `textwrap::wrap`, with
/// words broken when longer than a line, words separated by Unicode line-break
/// properties, and trailing spaces preserved.
pub uninterp spec fn word_wrap(s: Seq<char>, width: usize) -> Seq<Seq<char>>;

/// Calls `unicode_width::UnicodeWidthStr::width` on the text `s`.
///
/// Claimed: the result is `display_width(s@)`; it is 0 for the empty text
/// (the crate folds over the characters starting from 0).
#[verifier::external_body]
pub(crate) fn str_width(s: &[char]) -> (w: usize)
    ensures
        w == display_width(s@),
        s@.len() == 0 ==> w == 0,
{
    let text: String = s.iter().collect();
    unicode_width::UnicodeWidthStr::width(text.as_str())
}

/// Calls `unicode_segmentation::UnicodeSegmentation::graphemes(_, true)` on
/// the text `s` and returns each cluster as a `String`.
///
/// Claimed: the clusters are `grapheme_clusters(s@)`; each is non-empty and,
/// in order, they concatenate to `s` (the crate's iterator yields the
/// consecutive slices between grapheme boundaries from the start of the text
/// to its end).
#[verifier::external_body]
fn graphemes_as_strings(s: &[char]) -> (gs: Vec<String>)
    ensures
        gs@.map_values(|g: String| g@) == grapheme_clusters(s@),
        gs@.map_values(|g: String| g@).flatten() == s@,
        forall|i: int| 0 <= i < gs.len() ==> gs@[i]@.len() > 0,
{
    let text: String = s.iter().collect();
    text.graphemes(true).map(|g| g.to_string()).collect()
}

/// Calls `textwrap::wrap` on the text `s` with `width` columns, breaking long
/// words, separating words by Unicode line-break properties and preserving
/// trailing spaces.
///
/// Claimed: the lines are `word_wrap(s@, width)`, and there is at least one
/// (the crate splits the text into one or more pieces at line endings and
/// pushes at least one line for each piece). For a text without line
/// endings the lines, put together, are the text: each line is the slice of
/// the text from where the previous one ended over its contiguous words and
/// their trailing whitespace, and with these options no hyphen is added (the
/// hyphen splitter only splits after a '-' already there, and broken words
/// carry no penalty). Across line endings nothing more is claimed: the crate
/// drops them.
#[verifier::external_body]
fn wrap_as_strings(s: &[char], width: usize) -> (lines: Vec<String>)
    ensures
        lines@.map_values(|l: String| l@) == word_wrap(s@, width),
        lines.len() >= 1,
        !s@.contains('\n') ==> lines@.map_values(|l: String| l@).flatten() == s@,
{
    let text: String = s.iter().collect();
    let options = textwrap::Options::new(width).break_words(true).word_separator(
        textwrap::WordSeparator::UnicodeBreakProperties,
    ).preserve_trailing_space(true);
    textwrap::wrap(&text, options).into_iter().map(|l| l.into_owned()).collect()
}

/// Builds a `String` from characters (`FromIterator<&char>` for `String`).
#[verifier::external_body]
pub(crate) fn string_from_chars(s: &[char]) -> (r: String)
    ensures
        r@ == s@,
{
    s.iter().collect()
}

/// The grapheme clusters of `s`, each as its characters.
pub fn clusters_of(s: &[char]) -> (gs: Vec<Vec<char>>)
    ensures
        gs.len() == grapheme_clusters(s@).len(),
        forall|i: int| 0 <= i < gs.len() ==> #[trigger] gs@[i]@ == grapheme_clusters(s@)[i],
        forall|i: int| 0 <= i < gs.len() ==> #[trigger] gs@[i]@.len() > 0,
        gs@.map_values(|g: Vec<char>| g@).flatten() == s@,
{
    let strs = graphemes_as_strings(s);
    let ghost views = strs@.map_values(|g: String| g@);
    let mut gs: Vec<Vec<char>> = Vec::new();
    let mut i: usize = 0;
    while i < strs.len()
        invariant
            i <= strs.len(),
            views == strs@.map_values(|g: String| g@),
            gs.len() == i,
            forall|j: int| 0 <= j < i ==> #[trigger] gs@[j]@ == views[j],
        decreases strs.len() - i,
    {
        let g = crate::text::chars_of(strs[i].as_str());
        gs.push(g);
        i = i + 1;
    }
    assert(gs@.map_values(|g: Vec<char>| g@) =~= views);
    gs
}

/// Lines of `s` wrapped to `width` columns (see `word_wrap`), each as its
/// characters.
pub fn word_wrap_lines(s: &[char], width: usize) -> (lines: Vec<Vec<char>>)
    ensures
        lines@.map_values(|l: Vec<char>| l@) == word_wrap(s@, width),
        lines.len() >= 1,
        !s@.contains('\n') ==> lines@.map_values(|l: Vec<char>| l@).flatten() == s@,
{
    let strs = wrap_as_strings(s, width);
    let ghost views = strs@.map_values(|l: String| l@);
    let mut lines: Vec<Vec<char>> = Vec::new();
    let mut i: usize = 0;
    while i < strs.len()
        invariant
            i <= strs.len(),
            views == strs@.map_values(|l: String| l@),
            lines.len() == i,
            forall|j: int| 0 <= j < i ==> #[trigger] lines@[j]@ == views[j],
        decreases strs.len() - i,
    {
        let l = crate::text::chars_of(strs[i].as_str());
        lines.push(l);
        i = i + 1;
    }
    assert(lines@.map_values(|l: Vec<char>| l@) =~= views);
    lines
}


/// The byte length of any characters the program holds fits in `usize`.
pub fn chars_fit(s: &[char])
    ensures
        crate::text::byte_len(s@) <= usize::MAX,
{
    let t = string_from_chars(s);
    crate::text::str_fits(t.as_str());
}

} // verus!
