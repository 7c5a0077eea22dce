//! Rendering of Markdown into styled lines: the document is parsed by
//! `pulldown-cmark` into events, and a writer turns the events into lines,
//! with quote prefixes, list markers, inline styles, links and highlighted
//! code blocks.
use ansi_to_tui::IntoText;
use crate::style::{
    emphasis_bit, emphasis_style, fg_emphasis_style, fg_style, patched, plain, with_bg, with_fg, with_flags,
    Emphasis, Style, Tint,
};
use crate::styled_line::{
    appended, default_style, empty_line, lemma_single_slice_tight, patch, plain_line, prefixed, restyled,
    LineView, StyledLine,
};
use crate::paragraph::LineLike;
use crate::text::{chars_of, copy_chars};
use pulldown_cmark::{Event, Tag, TagEnd};
use ratatui::style::Color as TuiColor;
use ratatui::style::Style as TuiStyle;
use vstd::prelude::*;

verus! {

#[verifier::external_type_specification]
#[verifier::external_body]
pub struct ExEvent<'a>(pulldown_cmark::Event<'a>);

#[verifier::external_type_specification]
#[verifier::external_body]
pub struct ExTag<'a>(pulldown_cmark::Tag<'a>);

#[verifier::external_type_specification]
#[verifier::external_body]
pub struct ExTagEnd(pulldown_cmark::TagEnd);

/// The opening of a Markdown element, with what the writer reads of it.
#[derive(Clone, Debug)]
pub enum MdTag {
    Paragraph,
    /// A heading of the given level.
    Heading(u8),
    BlockQuote,
    /// A code block and its language (empty for an indented block).
    CodeBlock(String),
    /// A list, with the number of its first item when it is ordered.
    List(Option<u64>),
    Item,
    Emphasis,
    Strong,
    Strikethrough,
    /// A link to the given destination.
    Link(String),
    /// An element the writer does not render.
    Unsupported,
}

/// The closing of a Markdown element.
#[derive(Clone, Copy, Debug, PartialEq, Eq, Structural)]
pub enum MdTagEnd {
    Paragraph,
    Heading,
    BlockQuote,
    CodeBlock,
    List,
    Emphasis,
    Strong,
    Strikethrough,
    Link,
    /// The closing of an element without an effect on rendering.
    Other,
}

/// A Markdown event, with what the writer reads of it.
#[derive(Clone, Debug)]
pub enum MdEvent {
    Start(MdTag),
    End(MdTagEnd),
    Text(String),
    Code(String),
    SoftBreak,
    HardBreak,
    /// An event the writer does not render.
    Unsupported,
}

/// The Markdown events `pulldown-cmark` parses from `input` with
/// strikethrough enabled, each told apart as the writer reads it.
pub uninterp spec fn markdown_events(input: Seq<char>) -> Seq<MdEvent>;

/// Calls `pulldown_cmark::Parser::new_ext` with strikethrough enabled and
/// tells each event apart as the writer reads it (see `md_event_of`).
///
/// Claimed: the events are `markdown_events(input@)`, which depends on the
/// input alone (the parser reads nothing else).
#[verifier::external_body]
fn parse_markdown(input: &str) -> (events: Vec<MdEvent>)
    ensures
        events@ == markdown_events(input@),
{
    let options = pulldown_cmark::Options::ENABLE_STRIKETHROUGH;
    pulldown_cmark::Parser::new_ext(input, options).map(md_event_of).collect()
}

/// Tells the variants of a `pulldown_cmark::Event` apart, moving the text of
/// text and code events into `String`s and reading tags with `tag_of` and
/// `tag_end_of`; math, HTML, footnote references, rules and task list
/// markers are `Unsupported`.
#[verifier::external_body]
fn md_event_of(e: Event<'_>) -> MdEvent {
    match e {
        Event::Start(t) => MdEvent::Start(tag_of(&t)),
        Event::End(t) => MdEvent::End(tag_end_of(t)),
        Event::Text(s) => MdEvent::Text(s.into_string()),
        Event::Code(s) => MdEvent::Code(s.into_string()),
        Event::SoftBreak => MdEvent::SoftBreak,
        Event::HardBreak => MdEvent::HardBreak,
        _ => MdEvent::Unsupported,
    }
}

/// Tells the variants of a `pulldown_cmark::Tag` that the writer renders
/// apart, moving out the heading level, the code block language, the list
/// start and the link destination; every other variant is `Unsupported`.
#[verifier::external_body]
fn tag_of(t: &Tag<'_>) -> MdTag {
    match t.clone() {
        Tag::Paragraph => MdTag::Paragraph,
        Tag::Heading { level, .. } => MdTag::Heading(level as u8),
        Tag::BlockQuote(_) => MdTag::BlockQuote,
        Tag::CodeBlock(pulldown_cmark::CodeBlockKind::Indented) => MdTag::CodeBlock(String::new()),
        Tag::CodeBlock(pulldown_cmark::CodeBlockKind::Fenced(l)) => MdTag::CodeBlock(l.into_string()),
        Tag::List(start) => MdTag::List(start),
        Tag::Item => MdTag::Item,
        Tag::Emphasis => MdTag::Emphasis,
        Tag::Strong => MdTag::Strong,
        Tag::Strikethrough => MdTag::Strikethrough,
        Tag::Link { dest_url, .. } => MdTag::Link(dest_url.into_string()),
        _ => MdTag::Unsupported,
    }
}

/// Tells the variants of a `pulldown_cmark::TagEnd` that the writer renders
/// apart; every other variant is `Other`.
#[verifier::external_body]
fn tag_end_of(t: TagEnd) -> MdTagEnd {
    match t {
        TagEnd::Paragraph => MdTagEnd::Paragraph,
        TagEnd::Heading(_) => MdTagEnd::Heading,
        TagEnd::BlockQuote(_) => MdTagEnd::BlockQuote,
        TagEnd::CodeBlock => MdTagEnd::CodeBlock,
        TagEnd::List(_) => MdTagEnd::List,
        TagEnd::Emphasis => MdTagEnd::Emphasis,
        TagEnd::Strong => MdTagEnd::Strong,
        TagEnd::Strikethrough => MdTagEnd::Strikethrough,
        TagEnd::Link => MdTagEnd::Link,
        _ => MdTagEnd::Other,
    }
}

/// Whether `syntect`'s default syntaxes hold one for the code block language
/// `lang`, as `SyntaxSet::find_syntax_by_token` finds it.
pub uninterp spec fn syntax_known(lang: Seq<char>) -> bool;

/// The lines `lines` highlighted one after the other by one `syntect`
/// highlighter for the syntax of `lang` in the "base16-ocean.dark" theme,
/// each escaped for a 24-bit terminal.
pub uninterp spec fn escaped_code(lang: Seq<char>, lines: Seq<Seq<char>>) -> Seq<Seq<char>>;

/// The lines that `ansi-to-tui` reads from the escaped text `escaped`: for
/// each, the style of the line and the text and style of each of its spans,
/// every style read as plain values (see `style_of`).
pub uninterp spec fn terminal_lines(escaped: Seq<char>) -> Seq<(Style, Seq<(Seq<char>, Style)>)>;

/// The lines read from each escaped line, one after the other.
pub open spec fn read_lines(es: Seq<Seq<char>>) -> Seq<(Style, Seq<(Seq<char>, Style)>)>
    decreases es.len(),
{
    if es.len() == 0 {
        Seq::empty()
    } else {
        read_lines(es.drop_last()) + terminal_lines(es.last())
    }
}

/// The terminal lines of the code lines `code` highlighted in language
/// `lang`.
pub open spec fn highlighted_lines(lang: Seq<char>, code: Seq<Seq<char>>) -> Seq<(Style, Seq<(Seq<char>, Style)>)> {
    read_lines(escaped_code(lang, code))
}

/// The lines of `s` each with its line feed, as
/// `syntect::util::LinesWithEndings` yields them: a line ends after each line
/// feed, the last one may have none, and an empty text has no line.
pub open spec fn lines_with_endings(s: Seq<char>) -> Seq<Seq<char>>
    decreases s.len(),
{
    if s.len() == 0 {
        Seq::empty()
    } else {
        let prev = lines_with_endings(s.drop_last());
        if prev.len() == 0 || prev.last().last() == '\n' {
            prev.push(seq![s.last()])
        } else {
            prev.update(prev.len() - 1, prev.last().push(s.last()))
        }
    }
}

/// Calls `syntect::parsing::SyntaxSet::find_syntax_by_token` on the default
/// syntaxes (`SyntaxSet::load_defaults_newlines`).
///
/// Claimed: the result is `syntax_known(lang@)`.
#[verifier::external_body]
fn has_syntax(lang: &[char]) -> (r: bool)
    ensures
        r == syntax_known(lang@),
{
    let lang: String = lang.iter().collect();
    syntect::parsing::SyntaxSet::load_defaults_newlines().find_syntax_by_token(&lang).is_some()
}

/// Highlights the lines `lines` in order with one
/// `syntect::easy::HighlightLines` for the syntax that
/// `SyntaxSet::find_syntax_by_token` finds for `lang` among the default
/// syntaxes, in the "base16-ocean.dark" theme of `ThemeSet::load_defaults`,
/// and escapes each line with `syntect::util::as_24_bit_terminal_escaped`; a
/// line that fails to highlight is left out.
///
/// Claimed: the lines are `escaped_code(lang@, ..)` of the lines given.
#[verifier::external_body]
fn escape_code(lang: &[char], lines: &Vec<Vec<char>>) -> (r: Vec<String>)
    requires
        syntax_known(lang@),
    ensures
        r@.map_values(|l: String| l@) == escaped_code(lang@, lines@.map_values(|l: Vec<char>| l@)),
{
    let lang: String = lang.iter().collect();
    let ss = syntect::parsing::SyntaxSet::load_defaults_newlines();
    let ts = syntect::highlighting::ThemeSet::load_defaults();
    let syntax = ss.find_syntax_by_token(&lang).unwrap();
    let mut h = syntect::easy::HighlightLines::new(syntax, &ts.themes["base16-ocean.dark"]);
    let texts: Vec<String> = lines.iter().map(|l| l.iter().collect()).collect();
    texts.iter()
        .filter_map(|line| h.highlight_line(line, &ss).ok())
        .map(|p| syntect::util::as_24_bit_terminal_escaped(&p, false))
        .collect()
}

#[verifier::external_type_specification]
#[verifier::external_body]
pub struct ExTuiStyle(TuiStyle);

#[verifier::external_type_specification]
#[verifier::external_body]
pub struct ExTuiColor(ratatui::style::Color);

/// Reads a `ratatui::style::Color` as the color of the same name.
#[verifier::external_body]
fn tint_of(c: TuiColor) -> Tint {
    match c {
        TuiColor::Reset => Tint::Reset, TuiColor::Black => Tint::Black, TuiColor::Red => Tint::Red, TuiColor::Green => Tint::Green,
        TuiColor::Yellow => Tint::Yellow, TuiColor::Blue => Tint::Blue, TuiColor::Magenta => Tint::Magenta, TuiColor::Cyan => Tint::Cyan,
        TuiColor::Gray => Tint::Gray, TuiColor::DarkGray => Tint::DarkGray, TuiColor::LightRed => Tint::LightRed,
        TuiColor::LightGreen => Tint::LightGreen, TuiColor::LightYellow => Tint::LightYellow, TuiColor::LightBlue => Tint::LightBlue,
        TuiColor::LightMagenta => Tint::LightMagenta, TuiColor::LightCyan => Tint::LightCyan, TuiColor::White => Tint::White,
        TuiColor::Rgb(r, g, b) => Tint::Rgb(r, g, b), TuiColor::Indexed(i) => Tint::Indexed(i),
    }
}

/// Reads a `ratatui::style::Style` as plain values: its colors and the bits
/// (`Modifier::bits`) of the modifiers it adds and removes.
#[verifier::external_body]
fn style_of(s: TuiStyle) -> Style {
    Style {
        fg: s.fg.map(tint_of),
        bg: s.bg.map(tint_of),
        underline_color: s.underline_color.map(tint_of),
        add_modifier: s.add_modifier.bits(),
        sub_modifier: s.sub_modifier.bits(),
    }
}

/// A line read from an escaped text, its strings taken by their characters.
pub open spec fn line_of(l: (Style, Vec<(String, Style)>)) -> (Style, Seq<(Seq<char>, Style)>) {
    (l.0, l.1@.map_values(|s: (String, Style)| (s.0@, s.1)))
}

/// Reads terminal lines from the escaped text with `ansi_to_tui::IntoText`,
/// each as its style and its spans' texts and styles (see `style_of`); text
/// it cannot read gives no lines.
///
/// Claimed: the lines are `terminal_lines(escaped@)`, which depends on the
/// escaped text alone.
#[verifier::external_body]
fn ansi_lines(escaped: &String) -> (r: Vec<(Style, Vec<(String, Style)>)>)
    ensures
        r@.map_values(|l: (Style, Vec<(String, Style)>)| line_of(l)) == terminal_lines(escaped@),
{
    match escaped.into_text() {
        Ok(t) => t.lines.into_iter().map(|l| (style_of(l.style), l.spans.into_iter().map(|s| (s.content.into_owned(), style_of(s.style))).collect())).collect(),
        Err(_) => Vec::new(),
    }
}

/// The code lines `code` highlighted for `lang` (see `highlighted_lines`).
fn highlight_code(lang: &[char], code: &Vec<Vec<char>>) -> (r: Vec<(Style, Vec<(String, Style)>)>)
    requires
        syntax_known(lang@),
    ensures
        r@.map_values(|l: (Style, Vec<(String, Style)>)| line_of(l)) == highlighted_lines(
            lang@,
            code@.map_values(|l: Vec<char>| l@),
        ),
{
    let escaped = escape_code(lang, code);
    let ghost es = escaped@.map_values(|l: String| l@);
    let mut r: Vec<(Style, Vec<(String, Style)>)> = Vec::new();
    let mut i: usize = 0;
    while i < escaped.len()
        invariant
            i <= escaped@.len(),
            es == escaped@.map_values(|l: String| l@),
            r@.map_values(|l: (Style, Vec<(String, Style)>)| line_of(l)) == read_lines(es.take(i as int)),
        decreases escaped.len() - i,
    {
        let mut lines = ansi_lines(&escaped[i]);
        let ghost before = r@;
        let ghost read = lines@;
        let ghost mut j: int = 0;
        while lines.len() > 0
            invariant
                0 <= j <= read.len(),
                lines@ == read.skip(j),
                r@ == before + read.take(j),
            decreases lines.len(),
        {
            let l = lines.remove(0);
            r.push(l);
            proof {
                assert(r@ =~= before + read.take(j + 1));
                j = j + 1;
                assert(lines@ =~= read.skip(j));
            }
        }
        proof {
            assert(read.skip(j).len() == 0);
            assert(read.take(j) =~= read);
            assert(es.take(i as int + 1).drop_last() =~= es.take(i as int));
            assert(r@.map_values(|l: (Style, Vec<(String, Style)>)| line_of(l)) =~= before.map_values(
                |l: (Style, Vec<(String, Style)>)| line_of(l),
            ) + read.map_values(|l: (Style, Vec<(String, Style)>)| line_of(l)));
        }
        i = i + 1;
    }
    proof {
        assert(es.take(es.len() as int) =~= es);
    }
    r
}

// ----------------------------------------------------------------
// Text of the rendering.
// ----------------------------------------------------------------

/// The lines of `s` as `str::lines` yields them: the pieces between line
/// feeds, a carriage return before a line feed dropped, and no final empty
/// piece after a trailing line feed.
pub open spec fn str_lines(s: Seq<char>) -> Seq<Seq<char>> {
    let ps = crate::editor_viewport::split_newlines(s);
    let body = Seq::new(
        (ps.len() - 1) as nat,
        |i: int|
            if ps[i].len() > 0 && ps[i].last() == '\r' {
                ps[i].drop_last()
            } else {
                ps[i]
            },
    );
    if ps.last().len() == 0 {
        body
    } else {
        body.push(ps.last())
    }
}

/// The decimal digits of `n`.
pub open spec fn decimal(n: nat) -> Seq<char>
    decreases n,
{
    let d = seq!['0', '1', '2', '3', '4', '5', '6', '7', '8', '9'][(n % 10) as int];
    if n < 10 {
        seq![d]
    } else {
        decimal(n / 10).push(d)
    }
}

/// `n` copies of the character `c`.
pub open spec fn repeat_char(c: char, n: nat) -> Seq<char>
    decreases n,
{
    if n == 0 {
        Seq::empty()
    } else {
        repeat_char(c, (n - 1) as nat).push(c)
    }
}

/// `s` right-aligned to `width` characters with spaces on the left.
pub open spec fn pad_left(s: Seq<char>, width: nat) -> Seq<char> {
    if s.len() >= width {
        s
    } else {
        repeat_char(' ', (width - s.len()) as nat) + s
    }
}

/// Style of block quotes: green.
pub open spec fn quote_style() -> Style {
    with_fg(plain(), Tint::Green)
}

/// Style of inline code: white on black.
pub open spec fn code_style_of() -> Style {
    with_bg(with_fg(plain(), Tint::White), Tint::Black)
}

/// Style of link destinations: underlined blue.
pub open spec fn link_style_of() -> Style {
    with_flags(with_fg(plain(), Tint::Blue), emphasis_bit(Emphasis::Underlined))
}

/// Style of the numbers of ordered list items: light blue.
pub open spec fn number_style() -> Style {
    with_fg(plain(), Tint::LightBlue)
}

/// `l` with `n` plain quote marks `>` put before it, one at a time.
pub open spec fn quote_marks(l: LineView, n: nat) -> LineView
    decreases n,
{
    if n == 0 {
        l
    } else {
        prefixed(quote_marks(l, (n - 1) as nat), seq!['>'], plain())
    }
}

/// `l` inside `n` block quotes: in the quote style, after `n` quote marks
/// and a space, all plain.
pub open spec fn quoted(l: LineView, n: nat) -> LineView {
    if n == 0 {
        l
    } else {
        quote_marks(prefixed(restyled(l, quote_style()), seq![' '], plain()), n)
    }
}

/// The line in style `style` made of the spans `spans`, each a text and its
/// style, after an empty plain slice.
pub open spec fn span_line(style: Style, spans: Seq<(Seq<char>, Style)>) -> LineView
    decreases spans.len(),
{
    if spans.len() == 0 {
        LineView { style, ..plain_line(Seq::empty()) }
    } else {
        appended(span_line(style, spans.drop_last()), spans.last().0, spans.last().1)
    }
}

/// What the writer's state determines of the rendering.
pub struct MdText {
    /// Each line so far.
    pub lines: Seq<LineView>,
    /// The stack of inline styles, the current one last.
    pub inline: Seq<Style>,
    /// Depth of block quotes.
    pub prefixes: nat,
    /// Open lists: the next item number of each ordered one.
    pub lists: Seq<Option<u64>>,
    /// Destination of the open link.
    pub link: Option<Seq<char>>,
    /// Whether a blank line is due before the next block.
    pub needs_newline: bool,
    /// The open highlighted code block: its language and code lines so far.
    pub code: Option<(Seq<char>, Seq<Seq<char>>)>,
}

/// The state of a writer that has seen no event.
pub open spec fn md_start() -> MdText {
    MdText {
        lines: Seq::empty(),
        inline: Seq::empty(),
        prefixes: 0,
        lists: Seq::empty(),
        link: None,
        needs_newline: false,
        code: None,
    }
}

/// The style of text: the last inline style, or the plain style.
pub open spec fn current_style(st: MdText) -> Style {
    if st.inline.len() > 0 {
        st.inline.last()
    } else {
        plain()
    }
}

/// `st` with line `l` added, inside its block quotes.
pub open spec fn md_push_line(st: MdText, l: LineView) -> MdText {
    MdText { lines: st.lines.push(quoted(l, st.prefixes)), ..st }
}

/// `st` with `c` in style `s` added to its last line (to a new empty line
/// when there is none).
pub open spec fn md_append(st: MdText, c: Seq<char>, s: Style) -> MdText {
    let st1 = if st.lines.len() == 0 {
        md_push_line(st, empty_line())
    } else {
        st
    };
    MdText { lines: st1.lines.update(st1.lines.len() - 1, appended(st1.lines.last(), c, s)), ..st1 }
}

/// `st` with a blank line added when one is due.
pub open spec fn md_blank_if_due(st: MdText) -> MdText {
    if st.needs_newline {
        md_push_line(st, empty_line())
    } else {
        st
    }
}

/// `st` with `s` laid over the current inline style pushed.
pub open spec fn md_push_inline(st: MdText, s: Style) -> MdText {
    MdText { inline: st.inline.push(patched(current_style(st), s)), ..st }
}

/// `st` with the current inline style popped, if any.
pub open spec fn md_pop_inline(st: MdText) -> MdText {
    MdText {
        inline: if st.inline.len() > 0 {
            st.inline.drop_last()
        } else {
            st.inline
        },
        ..st
    }
}

/// `st` with the highlighted lines of its open code block added as they
/// are (no quote marks), the block closed.
pub open spec fn md_flush(st: MdText) -> MdText {
    match st.code {
        Some((lang, code)) => MdText {
            lines: st.lines + highlighted_lines(lang, code).map_values(
                |l: (Style, Seq<(Seq<char>, Style)>)| span_line(l.0, l.1),
            ),
            needs_newline: false,
            code: None,
            ..st
        },
        None => st,
    }
}

/// `st` after the lines `ls` of a text event, from the `i`-th on, each in
/// the current inline style.
pub open spec fn md_text_lines(st: MdText, ls: Seq<Seq<char>>, i: nat) -> MdText
    decreases ls.len() - i,
{
    if i >= ls.len() {
        st
    } else {
        let st1 = md_blank_if_due(st);
        let st2 = MdText { needs_newline: false, ..st1 };
        let st3 = if i > 0 {
            md_push_line(st2, empty_line())
        } else {
            st2
        };
        md_text_lines(md_append(st3, ls[i as int], current_style(st3)), ls, i + 1)
    }
}

/// The marker of a list item: spaces and a dash for an unordered list, the
/// item number right-aligned and a dot for an ordered one.
pub open spec fn item_marker(index: Option<u64>, depth: nat) -> Seq<char> {
    let width = (depth * 4 - 3) as nat;
    match index {
        None => repeat_char(' ', (width - 1) as nat) + seq!['-', ' '],
        Some(n) => pad_left(decimal(n as nat), width) + seq!['.', ' '],
    }
}

/// The item number after `n`.
pub open spec fn next_index(n: u64) -> u64 {
    if n == u64::MAX {
        0
    } else {
        (n + 1) as u64
    }
}

/// The line that opens a heading of level `level`: its marks and a space,
/// in the heading's style.
pub open spec fn heading_line(level: u8) -> LineView {
    LineView { style: heading_style_of(level), ..plain_line(repeat_char('#', level as nat).push(' ')) }
}

/// `st` after the opening `t`.
pub open spec fn md_start_tag(st: MdText, t: MdTag) -> MdText {
    match t {
        MdTag::Paragraph => MdText {
            needs_newline: false,
            ..md_push_line(md_blank_if_due(st), empty_line())
        },
        MdTag::Heading(level) => MdText {
            needs_newline: false,
            ..md_push_line(md_blank_if_due(st), heading_line(level))
        },
        MdTag::BlockQuote => {
            let st1 = if st.needs_newline {
                MdText { needs_newline: false, ..md_push_line(st, empty_line()) }
            } else {
                st
            };
            MdText { prefixes: st1.prefixes + 1, ..st1 }
        },
        MdTag::CodeBlock(lang) => {
            let st1 = md_flush(st);
            let st2 = if st1.lines.len() > 0 {
                md_push_line(st1, empty_line())
            } else {
                st1
            };
            let st3 = MdText {
                code: if syntax_known(lang@) {
                    Some((lang@, Seq::<Seq<char>>::empty()))
                } else {
                    None
                },
                ..st2
            };
            MdText {
                needs_newline: true,
                ..md_push_line(st3, appended(empty_line(), seq!['`', '`', '`'] + lang@, plain()))
            }
        },
        MdTag::List(index) => {
            let st1 = if st.lists.len() == 0 && st.needs_newline {
                md_push_line(st, empty_line())
            } else {
                st
            };
            MdText { lists: st1.lists.push(index), ..st1 }
        },
        MdTag::Item => {
            let st1 = md_push_line(st, empty_line());
            let n = st1.lists.len();
            let st2 = if n == 0 || n * 4 - 3 > usize::MAX {
                st1
            } else {
                match st1.lists.last() {
                    None => md_append(st1, item_marker(None, n), plain()),
                    Some(k) => md_append(
                        MdText { lists: st1.lists.update(n - 1, Some(next_index(k))), ..st1 },
                        item_marker(Some(k), n),
                        number_style(),
                    ),
                }
            };
            MdText { needs_newline: false, ..st2 }
        },
        MdTag::Emphasis => md_push_inline(st, with_flags(plain(), emphasis_bit(Emphasis::Italic))),
        MdTag::Strong => md_push_inline(st, with_flags(plain(), emphasis_bit(Emphasis::Bold))),
        MdTag::Strikethrough => md_push_inline(
            st,
            with_flags(plain(), emphasis_bit(Emphasis::CrossedOut)),
        ),
        MdTag::Link(dest) => MdText { link: Some(dest@), ..st },
        MdTag::Unsupported => st,
    }
}

/// `st` after the closing `t`.
pub open spec fn md_end_tag(st: MdText, t: MdTagEnd) -> MdText {
    match t {
        MdTagEnd::Paragraph => MdText { needs_newline: true, ..st },
        MdTagEnd::Heading => MdText { needs_newline: true, ..st },
        MdTagEnd::BlockQuote => MdText {
            prefixes: if st.prefixes > 0 {
                (st.prefixes - 1) as nat
            } else {
                0
            },
            needs_newline: true,
            ..st
        },
        MdTagEnd::CodeBlock => MdText {
            needs_newline: true,
            ..md_push_line(md_flush(st), plain_line(seq!['`', '`', '`']))
        },
        MdTagEnd::List => MdText {
            lists: if st.lists.len() > 0 {
                st.lists.drop_last()
            } else {
                st.lists
            },
            needs_newline: true,
            ..st
        },
        MdTagEnd::Emphasis => md_pop_inline(st),
        MdTagEnd::Strong => md_pop_inline(st),
        MdTagEnd::Strikethrough => md_pop_inline(st),
        MdTagEnd::Link => match st.link {
            Some(dest) => MdText {
                link: None,
                ..md_append(
                    md_append(md_append(st, seq![' ', '('], plain()), dest, link_style_of()),
                    seq![')'],
                    plain(),
                )
            },
            None => st,
        },
        MdTagEnd::Other => st,
    }
}

/// `st` after the event `e`.
pub open spec fn md_step(st: MdText, e: MdEvent) -> MdText {
    match e {
        MdEvent::Start(t) => md_start_tag(st, t),
        MdEvent::End(t) => md_end_tag(st, t),
        MdEvent::Text(t) => match st.code {
            Some((lang, code)) => MdText { code: Some((lang, code + lines_with_endings(t@))), ..st },
            None => MdText { needs_newline: false, ..md_text_lines(st, str_lines(t@), 0) },
        },
        MdEvent::Code(c) => md_append(st, c@, code_style_of()),
        MdEvent::SoftBreak => md_push_line(st, empty_line()),
        MdEvent::HardBreak => md_push_line(st, empty_line()),
        MdEvent::Unsupported => st,
    }
}

/// The writer's state after the events `events`.
pub open spec fn md_run(events: Seq<MdEvent>) -> MdText
    decreases events.len(),
{
    if events.len() == 0 {
        md_start()
    } else {
        md_step(md_run(events.drop_last()), events.last())
    }
}

/// The lines rendered from `events`: text, line style and styled ranges.
pub open spec fn md_render_lines(events: Seq<MdEvent>) -> Seq<LineView> {
    md_flush(md_run(events)).lines
}

/// The text of each line rendered from `events`.
pub open spec fn md_render(events: Seq<MdEvent>) -> Seq<Seq<char>> {
    md_render_lines(events).map_values(|l: LineView| l.text)
}

/// The lines of `s` (see `str_lines`).
pub fn lines_of(s: &[char]) -> (ls: Vec<Vec<char>>)
    ensures
        ls@.map_values(|l: Vec<char>| l@) == str_lines(s@),
{
    let ps = crate::editor_viewport::split_newlines_of(s);
    let ghost pv = ps@.map_values(|p: Vec<char>| p@);
    let ghost body = Seq::new(
        (pv.len() - 1) as nat,
        |i: int|
            if pv[i].len() > 0 && pv[i].last() == '\r' {
                pv[i].drop_last()
            } else {
                pv[i]
            },
    );
    let mut ls: Vec<Vec<char>> = Vec::new();
    let mut i: usize = 0;
    let last = ps.len() - 1;
    while i < last
        invariant
            pv == ps@.map_values(|p: Vec<char>| p@),
            last == ps.len() - 1,
            ps.len() >= 1,
            i <= last,
            body == Seq::new(
                (pv.len() - 1) as nat,
                |i: int|
                    if pv[i].len() > 0 && pv[i].last() == '\r' {
                        pv[i].drop_last()
                    } else {
                        pv[i]
                    },
            ),
            ls@.map_values(|l: Vec<char>| l@) == body.take(i as int),
        decreases last - i,
    {
        let p = &ps[i];
        assert(p@ == pv[i as int]);
        let mut l = copy_chars(p.as_slice());
        if l.len() > 0 && l[l.len() - 1] == '\r' {
            l.pop();
            assert(l@ =~= pv[i as int].drop_last());
        }
        assert(body[i as int] == l@);
        let ghost before = ls@.map_values(|l: Vec<char>| l@);
        ls.push(l);
        assert(ls@.map_values(|l: Vec<char>| l@) =~= before.push(body[i as int]));
        assert(body.take(i as int + 1) =~= body.take(i as int).push(body[i as int]));
        i = i + 1;
    }
    assert(body.take(last as int) =~= body);
    if ps[last].len() > 0 {
        let l = copy_chars(ps[last].as_slice());
        ls.push(l);
        assert(ls@.map_values(|l: Vec<char>| l@) =~= body.push(pv.last()));
    }
    ls
}

/// The lines of `s` each with its line feed (see `lines_with_endings`).
fn lines_with_endings_of(s: &[char]) -> (r: Vec<Vec<char>>)
    ensures
        r@.map_values(|l: Vec<char>| l@) == lines_with_endings(s@),
{
    let mut r: Vec<Vec<char>> = Vec::new();
    let mut i: usize = 0;
    while i < s.len()
        invariant
            i <= s@.len(),
            r@.map_values(|l: Vec<char>| l@) == lines_with_endings(s@.take(i as int)),
            forall|j: int| 0 <= j < r@.len() ==> (#[trigger] r@[j])@.len() > 0,
        decreases s.len() - i,
    {
        let c = s[i];
        let ghost prev = r@.map_values(|l: Vec<char>| l@);
        assert(s@.take(i as int + 1).drop_last() =~= s@.take(i as int));
        let n = r.len();
        if n == 0 || r[n - 1][r[n - 1].len() - 1] == '\n' {
            proof {
                if n > 0 {
                    assert(prev.last() == r@[n - 1]@);
                }
            }
            let line = vec![c];
            assert(line@ =~= seq![c]);
            let ghost before = r@;
            r.push(line);
            assert(r@.map_values(|l: Vec<char>| l@) =~= prev.push(seq![c]));
            assert forall|j: int| 0 <= j < r@.len() implies (#[trigger] r@[j])@.len() > 0 by {
                if j < before.len() {
                    assert(r@[j] == before[j]);
                }
            }
        } else {
            let ghost before = r@;
            let mut last = r.pop().unwrap();
            assert(last == before[n - 1]);
            assert(prev.last() == last@);
            last.push(c);
            r.push(last);
            assert(r@.map_values(|l: Vec<char>| l@) =~= prev.update(prev.len() - 1, prev.last().push(c)));
            assert forall|j: int| 0 <= j < r@.len() implies (#[trigger] r@[j])@.len() > 0 by {
                if j < n - 1 {
                    assert(r@[j] == before[j]);
                }
            }
        }
        i = i + 1;
    }
    assert(s@.take(s@.len() as int) =~= s@);
    r
}

/// The decimal digit `d`.
fn digit(d: u64) -> (c: char)
    requires
        d < 10,
    ensures
        c == seq!['0', '1', '2', '3', '4', '5', '6', '7', '8', '9'][d as int],
{
    if d == 0 {
        '0'
    } else if d == 1 {
        '1'
    } else if d == 2 {
        '2'
    } else if d == 3 {
        '3'
    } else if d == 4 {
        '4'
    } else if d == 5 {
        '5'
    } else if d == 6 {
        '6'
    } else if d == 7 {
        '7'
    } else if d == 8 {
        '8'
    } else {
        '9'
    }
}

/// The decimal digits of `n`.
pub fn decimal_of(n: u64) -> (r: Vec<char>)
    ensures
        r@ == decimal(n as nat),
    decreases n,
{
    let d = digit(n % 10);
    if n < 10 {
        let v = vec![d];
        assert(v@ =~= decimal(n as nat));
        v
    } else {
        let mut r = decimal_of(n / 10);
        r.push(d);
        r
    }
}

/// `n` copies of `c`.
fn repeat_of(c: char, n: usize) -> (r: Vec<char>)
    ensures
        r@ == repeat_char(c, n as nat),
        r@.len() == n,
{
    let mut r: Vec<char> = Vec::new();
    let mut i: usize = 0;
    while i < n
        invariant
            i <= n,
            r@ == repeat_char(c, i as nat),
            r@.len() == i,
        decreases n - i,
    {
        r.push(c);
        i = i + 1;
    }
    r
}

/// `s` right-aligned to `width` characters (see `pad_left`).
fn pad_left_of(s: Vec<char>, width: usize) -> (r: Vec<char>)
    ensures
        r@ == pad_left(s@, width as nat),
{
    if s.len() >= width {
        s
    } else {
        let mut r = repeat_of(' ', width - s.len());
        crate::text::append_chars(&mut r, s.as_slice());
        r
    }
}


/// Style of a heading of level `level`: level 1 (and 0) bold and underlined on
/// cyan, level 2 bold cyan, level 3 bold italic cyan, deeper levels italic
/// light cyan.
pub open spec fn heading_style_of(level: u8) -> Style {
    if level <= 1 {
        with_flags(with_flags(with_bg(plain(), Tint::Cyan), emphasis_bit(Emphasis::Bold)), emphasis_bit(Emphasis::Underlined))
    } else if level == 2 {
        with_flags(with_fg(plain(), Tint::Cyan), emphasis_bit(Emphasis::Bold))
    } else if level == 3 {
        with_flags(
            with_flags(with_fg(plain(), Tint::Cyan), emphasis_bit(Emphasis::Bold)),
            emphasis_bit(Emphasis::Italic),
        )
    } else {
        with_flags(with_fg(plain(), Tint::LightCyan), emphasis_bit(Emphasis::Italic))
    }
}

/// Style of a heading of level `level` (see `heading_style_of`).
fn heading_style(level: u8) -> (s: Style)
    ensures
        s == heading_style_of(level),
{
    if level <= 1 {
        Style::new().bg(Tint::Cyan).add_modifier(Emphasis::Bold).add_modifier(Emphasis::Underlined)
    } else if level == 2 {
        fg_emphasis_style(Tint::Cyan, Emphasis::Bold)
    } else if level == 3 {
        fg_emphasis_style(Tint::Cyan, Emphasis::Bold).add_modifier(Emphasis::Italic)
    } else {
        fg_emphasis_style(Tint::LightCyan, Emphasis::Italic)
    }
}

/// Style of block quotes (see `quote_style`).
fn blockquote_style() -> (s: Style)
    ensures
        s == quote_style(),
{
    fg_style(Tint::Green)
}

/// Style of inline code (see `code_style_of`).
fn code_style() -> (s: Style)
    ensures
        s == code_style_of(),
{
    fg_style(Tint::White).bg(Tint::Black)
}

/// Style of link destinations (see `link_style_of`).
fn link_style() -> (s: Style)
    ensures
        s == link_style_of(),
{
    fg_emphasis_style(Tint::Blue, Emphasis::Underlined)
}


/// Turns Markdown events into styled lines.
struct TextWriter {
    /// Styled lines.
    lines: Vec<StyledLine>,
    /// Stack of inline styles, the current one on top.
    inline_styles: Vec<Style>,
    /// Stack of line styles, one for each open block quote.
    line_styles: Vec<Style>,
    /// Open lists: the next item number of each ordered one.
    list_indices: Vec<Option<u64>>,
    /// A link which will be appended to the current line when the link tag
    /// is closed.
    link: Option<Vec<char>>,
    needs_newline: bool,
    /// The open code block with a known syntax: its language and code lines
    /// so far.
    code: Option<(Vec<char>, Vec<Vec<char>>)>,
}

impl TextWriter {
    spec fn md_view(&self) -> MdText {
        MdText {
            lines: self.lines@.map_values(|l: StyledLine| l.line_view()),
            inline: self.inline_styles@,
            prefixes: self.line_styles@.len(),
            lists: self.list_indices@,
            link: match self.link {
                Some(v) => Some(v@),
                None => None,
            },
            needs_newline: self.needs_newline,
            code: match self.code {
                Some((a, b)) => Some((a@, b@.map_values(|l: Vec<char>| l@))),
                None => None,
            },
        }
    }

    spec fn inv(&self) -> bool {
        &&& forall|i: int| 0 <= i < self.lines@.len() ==> (#[trigger] self.lines@[i]).tight()
        &&& forall|i: int| 0 <= i < self.line_styles@.len() ==> #[trigger] self.line_styles@[i] == quote_style()
        &&& self.code matches Some((l, _)) ==> syntax_known(l@)
    }

    fn new() -> (w: Self)
        ensures
            w.inv(),
            w.md_view() == md_start(),
    {
        let w = TextWriter {
            lines: Vec::new(),
            inline_styles: Vec::new(),
            line_styles: Vec::new(),
            list_indices: Vec::new(),
            link: None,
            needs_newline: false,
            code: None,
        };
        assert(w.md_view().lines =~= Seq::<LineView>::empty());
        w
    }

    /// Adds `line` inside the open block quotes.
    fn push_line(&mut self, line: StyledLine)
        requires
            old(self).inv(),
            line.tight(),
        ensures
            final(self).inv(),
            final(self).md_view() == md_push_line(old(self).md_view(), line.line_view()),
    {
        let n = self.line_styles.len();
        let ghost orig = line.line_view();
        let mut line = line;
        let none = default_style();
        if n > 0 {
            let style = self.line_styles[n - 1];
            assert(style == self.line_styles@[n - 1]);
            line.patch_style(style);
            let space = vec![' '];
            assert(space@ =~= seq![' ']);
            line.prepend_text(space.as_slice(), none);
        }
        let ghost base = line.line_view();
        let mut k: usize = 0;
        while k < n
            invariant
                k <= n,
                none == plain(),
                line.tight(),
                line.line_view() == quote_marks(base, k as nat),
                base == (if n > 0 {
                    prefixed(restyled(orig, quote_style()), seq![' '], plain())
                } else {
                    orig
                }),
            decreases n - k,
        {
            let mark = vec!['>'];
            assert(mark@ =~= seq!['>']);
            let ghost prev = line.line_view();
            line.prepend_text(mark.as_slice(), none);
            assert(quote_marks(base, (k + 1) as nat) == prefixed(quote_marks(base, k as nat), seq!['>'], plain()));
            assert(line.line_view() == prefixed(prev, seq!['>'], plain()));
            k = k + 1;
        }
        let ghost before = self.lines@;
        self.lines.push(line);
        assert(self.lines@.map_values(|l: StyledLine| l.line_view()) =~= before.map_values(
            |l: StyledLine| l.line_view(),
        ).push(line.line_view()));
        assert forall|i: int| 0 <= i < self.lines@.len() implies (#[trigger] self.lines@[i]).tight() by {
            if i < before.len() {
                assert(self.lines@[i] == before[i]);
            }
        }
    }

    /// Adds `content` in `style` to the last line (to a new empty line when
    /// there is none).
    fn append(&mut self, content: &[char], style: Style)
        requires
            old(self).inv(),
        ensures
            final(self).inv(),
            final(self).md_view() == md_append(old(self).md_view(), content@, style),
    {
        if self.lines.len() == 0 {
            let empty = StyledLine::new();
            self.push_line(empty);
        }
        let ghost mid = self.md_view();
        let ghost rest = self.lines@.drop_last();
        let mut line = self.lines.pop().unwrap();
        assert(self.lines@ == rest);
        assert(line.tight()) by {
            assert(line == self.lines@.push(line)[self.lines@.len() as int]);
        }
        line.push_text(content, style);
        self.lines.push(line);
        assert(self.lines@.map_values(|l: StyledLine| l.line_view()) =~= mid.lines.update(
            mid.lines.len() - 1,
            appended(mid.lines.last(), content@, style),
        ));
        assert forall|i: int| 0 <= i < self.lines@.len() implies (#[trigger] self.lines@[i]).tight() by {
            if i < rest.len() {
                assert(self.lines@[i] == rest[i]);
            }
        }
    }

    /// Adds a line in style `style` made of the spans `spans`, outside the
    /// block quotes.
    fn push_span_line(&mut self, style: Style, spans: &Vec<(String, Style)>)
        requires
            old(self).inv(),
        ensures
            final(self).inv(),
            final(self).md_view() == (MdText {
                lines: old(self).md_view().lines.push(
                    span_line(style, spans@.map_values(|s: (String, Style)| (s.0@, s.1))),
                ),
                ..old(self).md_view()
            }),
    {
        let ghost sv = spans@.map_values(|s: (String, Style)| (s.0@, s.1));
        let mut line = StyledLine::from_chars(Vec::new()).with_style(style);
        proof {
            lemma_single_slice_tight(line);
            assert(sv.take(0) =~= Seq::<(Seq<char>, Style)>::empty());
        }
        let mut j: usize = 0;
        while j < spans.len()
            invariant
                sv == spans@.map_values(|s: (String, Style)| (s.0@, s.1)),
                j <= spans@.len(),
                line.tight(),
                line.line_view() == span_line(style, sv.take(j as int)),
            decreases spans.len() - j,
        {
            let content = chars_of(spans[j].0.as_str());
            assert(content@ == sv[j as int].0);
            line.push_text(content.as_slice(), spans[j].1);
            proof {
                assert(sv.take(j as int + 1).drop_last() =~= sv.take(j as int));
            }
            j = j + 1;
        }
        assert(sv.take(sv.len() as int) =~= sv);
        let ghost before = self.lines@;
        self.lines.push(line);
        assert(self.lines@.map_values(|l: StyledLine| l.line_view()) =~= before.map_values(
            |l: StyledLine| l.line_view(),
        ).push(line.line_view()));
        assert forall|i: int| 0 <= i < self.lines@.len() implies (#[trigger] self.lines@[i]).tight() by {
            if i < before.len() {
                assert(self.lines@[i] == before[i]);
            }
        }
    }

    /// Adds the highlighted lines of the open code block and closes it.
    fn flush_code(&mut self)
        requires
            old(self).inv(),
        ensures
            final(self).inv(),
            final(self).md_view() == md_flush(old(self).md_view()),
    {
        match self.code.take() {
            Some((lang, code)) => {
                let ghost st = old(self).md_view();
                let highlighted = highlight_code(lang.as_slice(), &code);
                let ghost hv = highlighted@.map_values(
                    |l: (Style, Vec<(String, Style)>)| line_of(l),
                );
                let mut i: usize = 0;
                while i < highlighted.len()
                    invariant
                        self.inv(),
                        i <= highlighted@.len(),
                        hv == highlighted@.map_values(|l: (Style, Vec<(String, Style)>)| line_of(l)),
                        hv == highlighted_lines(lang@, code@.map_values(|l: Vec<char>| l@)),
                        self.md_view() == (MdText {
                            lines: st.lines + hv.take(i as int).map_values(
                                |l: (Style, Seq<(Seq<char>, Style)>)| span_line(l.0, l.1),
                            ),
                            code: None,
                            ..st
                        }),
                    decreases highlighted.len() - i,
                {
                    let style = highlighted[i].0;
                    self.push_span_line(style, &highlighted[i].1);
                    assert(hv[i as int] == line_of(highlighted@[i as int]));
                    assert(hv.take(i as int + 1).map_values(
                        |l: (Style, Seq<(Seq<char>, Style)>)| span_line(l.0, l.1),
                    ) =~= hv.take(i as int).map_values(
                        |l: (Style, Seq<(Seq<char>, Style)>)| span_line(l.0, l.1),
                    ).push(span_line(hv[i as int].0, hv[i as int].1)));
                    i = i + 1;
                }
                assert(hv.take(hv.len() as int) =~= hv);
                self.needs_newline = false;
            },
            None => {},
        }
    }

    /// The current inline style: the top of the stack, or the plain style.
    fn inline_style(&self) -> (s: Style)
        ensures
            s == current_style(self.md_view()),
    {
        let n = self.inline_styles.len();
        if n > 0 {
            self.inline_styles[n - 1]
        } else {
            default_style()
        }
    }

    /// Adds the lines of a text event outside a highlighted code block.
    fn text_lines(&mut self, t: &[char])
        requires
            old(self).inv(),
        ensures
            final(self).inv(),
            final(self).md_view() == md_text_lines(old(self).md_view(), str_lines(t@), 0),
    {
        let ls = lines_of(t);
        let ghost lv = ls@.map_values(|l: Vec<char>| l@);
        let mut i: usize = 0;
        while i < ls.len()
            invariant
                self.inv(),
                i <= ls@.len(),
                lv == ls@.map_values(|l: Vec<char>| l@),
                lv == str_lines(t@),
                md_text_lines(old(self).md_view(), lv, 0) == md_text_lines(self.md_view(), lv, i as nat),
            decreases ls.len() - i,
        {
            if self.needs_newline {
                self.push_line(StyledLine::new());
            }
            self.needs_newline = false;
            if i > 0 {
                self.push_line(StyledLine::new());
            }
            let style = self.inline_style();
            assert(ls@[i as int]@ == lv[i as int]);
            self.append(ls[i].as_slice(), style);
            i = i + 1;
        }
    }

    /// Pushes `style` laid over the current inline style.
    fn push_inline_style(&mut self, style: Style)
        requires
            old(self).inv(),
        ensures
            final(self).inv(),
            final(self).md_view() == md_push_inline(old(self).md_view(), style),
    {
        let current = self.inline_style();
        self.inline_styles.push(patch(current, style));
    }

    /// Pops the current inline style, if any.
    fn pop_inline_style(&mut self)
        requires
            old(self).inv(),
        ensures
            final(self).inv(),
            final(self).md_view() == md_pop_inline(old(self).md_view()),
    {
        self.inline_styles.pop();
    }

    /// Handles the opening `tag`.
    fn start_tag(&mut self, tag: &MdTag)
        requires
            old(self).inv(),
        ensures
            final(self).inv(),
            final(self).md_view() == md_start_tag(old(self).md_view(), *tag),
    {
        match tag {
            MdTag::Paragraph => {
                if self.needs_newline {
                    self.push_line(StyledLine::new());
                }
                self.push_line(StyledLine::new());
                self.needs_newline = false;
            },
            MdTag::Heading(level) => {
                if self.needs_newline {
                    self.push_line(StyledLine::new());
                }
                let mut content = repeat_of('#', *level as usize);
                content.push(' ');
                proof {
                    crate::text::lemma_byte_len_bounds(content@);
                }
                let line = StyledLine::from_chars(content).with_style(heading_style(*level));
                proof {
                    lemma_single_slice_tight(line);
                }
                assert(line.line_view() == heading_line(*level));
                self.push_line(line);
                self.needs_newline = false;
            },
            MdTag::BlockQuote => {
                if self.needs_newline {
                    self.push_line(StyledLine::new());
                    self.needs_newline = false;
                }
                self.line_styles.push(blockquote_style());
            },
            MdTag::CodeBlock(lang) => {
                self.flush_code();
                if self.lines.len() > 0 {
                    self.push_line(StyledLine::new());
                }
                let lang = chars_of(lang.as_str());
                if has_syntax(lang.as_slice()) {
                    let no_code: Vec<Vec<char>> = Vec::new();
                    assert(no_code@.map_values(|l: Vec<char>| l@) =~= Seq::<Seq<char>>::empty());
                    self.code = Some((copy_chars(lang.as_slice()), no_code));
                }
                let mut fence = vec!['`', '`', '`'];
                crate::text::append_chars(&mut fence, lang.as_slice());
                assert(fence@ =~= seq!['`', '`', '`'] + lang@);
                let mut line = StyledLine::new();
                line.push_text(fence.as_slice(), default_style());
                self.push_line(line);
                self.needs_newline = true;
            },
            MdTag::List(index) => {
                if self.list_indices.len() == 0 && self.needs_newline {
                    self.push_line(StyledLine::new());
                }
                self.list_indices.push(*index);
            },
            MdTag::Item => {
                self.push_line(StyledLine::new());
                let n = self.list_indices.len();
                if n > 0 && n - 1 <= (usize::MAX - 1) / 4 {
                    let width = (n - 1) * 4 + 1;
                    match self.list_indices[n - 1] {
                        None => {
                            let mut marker = repeat_of(' ', width - 1);
                            marker.push('-');
                            marker.push(' ');
                            assert(marker@ =~= repeat_char(' ', (width - 1) as nat) + seq!['-', ' ']);
                            self.append(marker.as_slice(), default_style());
                        },
                        Some(k) => {
                            let next = if k == u64::MAX {
                                0
                            } else {
                                k + 1
                            };
                            self.list_indices.set(n - 1, Some(next));
                            let mut marker = pad_left_of(decimal_of(k), width);
                            marker.push('.');
                            marker.push(' ');
                            let ghost padded = pad_left(decimal(k as nat), width as nat);
                            assert(marker@ =~= padded + seq!['.', ' ']);
                            self.append(marker.as_slice(), fg_style(Tint::LightBlue));
                        },
                    }
                }
                self.needs_newline = false;
            },
            MdTag::Emphasis => self.push_inline_style(emphasis_style(Emphasis::Italic)),
            MdTag::Strong => self.push_inline_style(emphasis_style(Emphasis::Bold)),
            MdTag::Strikethrough => self.push_inline_style(emphasis_style(Emphasis::CrossedOut)),
            MdTag::Link(dest) => {
                self.link = Some(chars_of(dest.as_str()));
            },
            MdTag::Unsupported => {},
        }
    }

    /// Handles the closing `tag`.
    fn end_tag(&mut self, tag: MdTagEnd)
        requires
            old(self).inv(),
        ensures
            final(self).inv(),
            final(self).md_view() == md_end_tag(old(self).md_view(), tag),
    {
        match tag {
            MdTagEnd::Paragraph => {
                self.needs_newline = true;
            },
            MdTagEnd::Heading => {
                self.needs_newline = true;
            },
            MdTagEnd::BlockQuote => {
                self.line_styles.pop();
                self.needs_newline = true;
            },
            MdTagEnd::CodeBlock => {
                self.flush_code();
                let fence = vec!['`', '`', '`'];
                proof {
                    crate::text::lemma_byte_len_bounds(fence@);
                }
                let line = StyledLine::from_chars(fence);
                proof {
                    lemma_single_slice_tight(line);
                }
                assert(fence@ =~= seq!['`', '`', '`']);
                self.push_line(line);
                self.needs_newline = true;
            },
            MdTagEnd::List => {
                self.list_indices.pop();
                self.needs_newline = true;
            },
            MdTagEnd::Emphasis => self.pop_inline_style(),
            MdTagEnd::Strong => self.pop_inline_style(),
            MdTagEnd::Strikethrough => self.pop_inline_style(),
            MdTagEnd::Link => {
                match self.link.take() {
                    Some(dest) => {
                        let open = vec![' ', '('];
                        assert(open@ =~= seq![' ', '(']);
                        self.append(open.as_slice(), default_style());
                        self.append(dest.as_slice(), link_style());
                        let close = vec![')'];
                        assert(close@ =~= seq![')']);
                        self.append(close.as_slice(), default_style());
                    },
                    None => {},
                }
            },
            MdTagEnd::Other => {},
        }
    }

    /// Handles the event `event`.
    fn handle_event(&mut self, event: &MdEvent)
        requires
            old(self).inv(),
        ensures
            final(self).inv(),
            final(self).md_view() == md_step(old(self).md_view(), *event),
    {
        match event {
            MdEvent::Start(tag) => self.start_tag(tag),
            MdEvent::End(tag) => self.end_tag(*tag),
            MdEvent::Text(text) => {
                let t = chars_of(text.as_str());
                match self.code.take() {
                    Some((lang, code)) => {
                        let mut code = code;
                        let pieces = lines_with_endings_of(t.as_slice());
                        let ghost before = code@.map_values(|l: Vec<char>| l@);
                        let ghost added = pieces@.map_values(|l: Vec<char>| l@);
                        let mut k: usize = 0;
                        while k < pieces.len()
                            invariant
                                k <= pieces@.len(),
                                added == pieces@.map_values(|l: Vec<char>| l@),
                                code@.map_values(|l: Vec<char>| l@) == before + added.take(k as int),
                            decreases pieces.len() - k,
                        {
                            let piece = copy_chars(pieces[k].as_slice());
                            assert(piece@ == added[k as int]);
                            let ghost so_far = code@;
                            code.push(piece);
                            assert(code@.map_values(|l: Vec<char>| l@) =~= so_far.map_values(
                                |l: Vec<char>| l@,
                            ).push(piece@));
                            assert(added.take(k as int + 1) =~= added.take(k as int).push(added[k as int]));
                            assert(code@.map_values(|l: Vec<char>| l@) =~= before + added.take(k as int + 1));
                            k = k + 1;
                        }
                        assert(added.take(added.len() as int) =~= added);
                        self.code = Some((lang, code));
                    },
                    None => {
                        self.text_lines(t.as_slice());
                        self.needs_newline = false;
                    },
                }
            },
            MdEvent::Code(code) => {
                let c = chars_of(code.as_str());
                self.append(c.as_slice(), code_style());
            },
            MdEvent::SoftBreak => self.push_line(StyledLine::new()),
            MdEvent::HardBreak => self.push_line(StyledLine::new()),
            MdEvent::Unsupported => {},
        }
    }
}

/// Renders the Markdown events `events` into styled lines (see
/// `md_render_lines`).
pub fn render_markdown(events: &[MdEvent]) -> (lines: Vec<StyledLine>)
    ensures
        lines@.map_values(|l: StyledLine| l.line_view()) == md_render_lines(events@),
        lines@.map_values(|l: StyledLine| l.text()) == md_render(events@),
        forall|i: int| 0 <= i < lines@.len() ==> (#[trigger] lines@[i]).tight(),
{
    let mut writer = TextWriter::new();
    let mut i: usize = 0;
    while i < events.len()
        invariant
            i <= events@.len(),
            writer.inv(),
            writer.md_view() == md_run(events@.take(i as int)),
        decreases events.len() - i,
    {
        writer.handle_event(&events[i]);
        assert(events@.take(i as int + 1).drop_last() =~= events@.take(i as int));
        i = i + 1;
    }
    assert(events@.take(events@.len() as int) =~= events@);
    writer.flush_code();
    let lines = writer.lines;
    assert(lines@.map_values(|l: StyledLine| l.text()) =~= md_render(events@));
    lines
}

/// Parses `input` as Markdown (strikethrough enabled) and renders it into
/// styled lines (see `render_markdown`).
pub fn from_str(input: &str) -> (lines: Vec<StyledLine>)
    ensures
        lines@.map_values(|l: StyledLine| l.line_view()) == md_render_lines(markdown_events(input@)),
        lines@.map_values(|l: StyledLine| l.text()) == md_render(markdown_events(input@)),
        forall|i: int| 0 <= i < lines@.len() ==> (#[trigger] lines@[i]).tight(),
{
    let events = parse_markdown(input);
    render_markdown(events.as_slice())
}

} // verus!
