use cookie::chat::{ChatEvent, Message, MessageDelta, Payload, Timestamp};
use cookie::llm::{LlmSettings, OpenAiSettings, Provider};
use cookie::markdown::from_str;
use cookie::messages::Messages;
use cookie::messages_viewport::{highlight_style, make_prompt_line, MessagesViewport};
use cookie::style::{emphasis_style, fg_emphasis_style, fg_style, Emphasis, Style, Tint};
use cookie::scroll::ScrollState;

fn event(payload: Payload) -> ChatEvent {
    ChatEvent::new("s".to_string(), None, payload).with_created_at(Timestamp { seconds: 10, nanos: 0 })
}

fn delta(text: &str) -> ChatEvent {
    event(Payload::MessageDelta(MessageDelta { delta: text.to_string() }))
}

fn texts(lines: &[cookie::styled_line::StyledLine]) -> Vec<String> {
    lines.iter().map(|l| l.content().iter().collect()).collect()
}

#[test]
fn deltas_accumulate_until_the_message_arrives() {
    let mut messages = Messages::new();
    messages.set_viewport_width(40);
    messages.handle_send();
    assert!(messages.is_pending());
    messages.handle_chat_event_stream(delta("Hel"));
    messages.handle_chat_event_stream(delta("lo"));
    assert_eq!(messages.stream_message().map(|d| d.delta.clone()), Some("Hello".to_string()));
    assert_eq!(messages.chat_events().len(), 0);
    messages.handle_chat_event_stream(event(Payload::Message(Message { role: 2, msg: "Hello".to_string() })));
    assert!(!messages.is_pending());
    assert!(messages.stream_message().is_none());
    assert_eq!(messages.chat_events().len(), 1);
}

#[test]
fn events_are_ignored_when_no_reply_is_pending() {
    let mut messages = Messages::new();
    messages.handle_chat_event_stream(delta("x"));
    assert!(messages.stream_message().is_none());
    assert_eq!(messages.chat_events().len(), 0);
}

#[test]
fn the_prompt_line_names_provider_model_and_time() {
    let settings = LlmSettings { provider: Some(Provider::OpenAi(OpenAiSettings { model: 1, web_search: false })) };
    let line = make_prompt_line(&settings, Some(12));
    let text: String = line.content().iter().collect();
    assert_eq!(text, "┌─> openAI on 4o [12s]");
    let line = make_prompt_line(&LlmSettings { provider: None }, None);
    let text: String = line.content().iter().collect();
    assert_eq!(text, "┌─> Unspecified on Unspecified [-]");
    let line = make_prompt_line(&settings, Some(-3));
    let text: String = line.content().iter().collect();
    assert_eq!(text, "┌─> openAI on 4o [-3s]");
}

#[test]
fn toggling_the_selection_twice_clears_it() {
    let mut viewport = MessagesViewport::new();
    viewport.toggle_visual_selection();
    viewport.toggle_visual_selection();
    assert!(viewport.yank_visual_selection().is_none());
    viewport.toggle_visual_selection();
    assert!(viewport.yank_visual_selection().is_some());
}

#[test]
fn the_cursor_line_is_scrolled_into_view() {
    let mut s = ScrollState { vertical_scroll_offset: 0, cursor_position: Some((0, 10)) };
    s.ensure_line_visible(5);
    assert_eq!(s.vertical_scroll_offset, 6);
    s.cursor_position = Some((0, 2));
    s.ensure_line_visible(5);
    assert_eq!(s.vertical_scroll_offset, 2);
    s.ensure_line_visible(5);
    assert_eq!(s.vertical_scroll_offset, 2);
    assert_eq!(s.scroll_offset(), (2, 0));
}

#[test]
fn markdown_headings_paragraphs_and_lists() {
    let lines = from_str("# Title\n\nHello **world**\n\n- one\n- two\n");
    assert_eq!(texts(&lines), vec!["# Title", "", "Hello world", "", "- one", "- two"]);
}

#[test]
fn markdown_ordered_lists_and_quotes() {
    let lines = from_str("1. a\n2. b\n\n> quoted\n");
    assert_eq!(texts(&lines), vec!["1. a", "2. b", "", "> quoted"]);
}

#[test]
fn markdown_code_blocks_are_highlighted_as_plain_text() {
    let lines = from_str("```rust\nfn main() {}\n```\n");
    let t = texts(&lines);
    assert!(t.iter().any(|l| l == "fn main() {}"), "{:?}", t);
    assert!(t.iter().all(|l| !l.contains('\u{1b}')), "{:?}", t);
}

#[test]
fn markdown_of_nothing_is_no_line() {
    assert!(from_str("").is_empty());
}

#[test]
fn styles_are_built_and_patched() {
    let s = fg_style(Tint::Green);
    assert_eq!(s, Style { fg: Some(Tint::Green), bg: None, underline_color: None, add_modifier: 0, sub_modifier: 0 });
    assert_eq!(emphasis_style(Emphasis::CrossedOut).add_modifier, 256);
    let bold_red = fg_emphasis_style(Tint::Red, Emphasis::Bold);
    assert_eq!((bold_red.fg, bold_red.add_modifier), (Some(Tint::Red), 1));
    // The colors and flags of the style laid over win; unset colors are kept.
    let over = Style { fg: None, bg: Some(Tint::Black), underline_color: None, add_modifier: 4, sub_modifier: 1 };
    let p = bold_red.patch(over);
    assert_eq!(p, Style { fg: Some(Tint::Red), bg: Some(Tint::Black), underline_color: None, add_modifier: 4, sub_modifier: 1 });
    assert_eq!(Style::default(), Style::new());
}

#[test]
fn markdown_styles_headings_and_selection() {
    let lines = from_str("# Title\n");
    let h1 = Style::new().bg(Tint::Cyan).add_modifier(Emphasis::Bold).add_modifier(Emphasis::Underlined);
    assert_eq!(lines[0].style(), h1);
    let hl = highlight_style();
    assert_eq!(hl.fg, Some(Tint::Rgb(0x27, 0x27, 0x2a)));
    assert_eq!(hl.bg, Some(Tint::Rgb(0xe4, 0xe4, 0xe7)));
    let mut line = cookie::styled_line::StyledLine::new();
    assert_eq!(line.style(), Style::new());
    line.patch_style(hl);
    assert_eq!(line.style(), hl);
}

#[test]
fn assistant_messages_are_rendered_as_markdown() {
    let mut messages = Messages::new();
    messages.set_viewport_width(40);
    messages.handle_send();
    messages.handle_chat_event_stream(event(Payload::Message(Message { role: 2, msg: "# Hi\n\n- a".to_string() })));
    let shown = texts(&messages.viewport.lines());
    assert_eq!(shown, vec!["# Hi", "", "- a", ""]);
}

fn pieces(line: &cookie::styled_line::StyledLine) -> Vec<(String, Style)> {
    let text: String = line.content().iter().collect();
    line.style_slices()
        .iter()
        .map(|s| (text[s.byte_offset..s.byte_offset + s.len].to_string(), s.style))
        .collect()
}

fn plain_pieces(parts: &[&str]) -> Vec<(String, Style)> {
    parts.iter().map(|p| (p.to_string(), Style::new())).collect()
}

#[test]
fn headings() {
    let lines = from_str("# Heading 1\n## Heading 2\n### Heading 3\n#### Heading 4\n##### Heading 5\n###### Heading 6\n");
    let h1 = Style::new().bg(Tint::Cyan).add_modifier(Emphasis::Bold).add_modifier(Emphasis::Underlined);
    let h2 = fg_emphasis_style(Tint::Cyan, Emphasis::Bold);
    let h3 = fg_emphasis_style(Tint::Cyan, Emphasis::Bold).add_modifier(Emphasis::Italic);
    let h4 = fg_emphasis_style(Tint::LightCyan, Emphasis::Italic);
    let expected = [
        ("# ", "Heading 1", h1),
        ("## ", "Heading 2", h2),
        ("### ", "Heading 3", h3),
        ("#### ", "Heading 4", h4),
        ("##### ", "Heading 5", h4),
        ("###### ", "Heading 6", h4),
    ];
    assert_eq!(lines.len(), 11);
    for (k, (marks, title, style)) in expected.iter().enumerate() {
        let line = &lines[2 * k];
        assert_eq!(line.style(), *style);
        assert_eq!(pieces(line), plain_pieces(&[marks, title]));
        if k > 0 {
            let blank = &lines[2 * k - 1];
            assert!(blank.content().is_empty());
            assert_eq!(blank.style(), Style::new());
        }
    }
}

#[test]
fn blockquote_single() {
    let lines = from_str("> Blockquote");
    assert_eq!(lines.len(), 1);
    assert_eq!(lines[0].style(), fg_style(Tint::Green));
    assert_eq!(pieces(&lines[0]), plain_pieces(&[">", " ", "Blockquote"]));
}

#[test]
fn blockquote_after_paragraph() {
    let lines = from_str("Hello, world!\n\n> Blockquote\n");
    assert_eq!(texts(&lines), vec!["Hello, world!", "", "> Blockquote"]);
    assert_eq!(lines[0].style(), Style::new());
    assert_eq!(pieces(&lines[0]), plain_pieces(&["Hello, world!"]));
    assert_eq!(lines[1].style(), Style::new());
    assert_eq!(lines[2].style(), fg_style(Tint::Green));
    assert_eq!(pieces(&lines[2]), plain_pieces(&[">", " ", "Blockquote"]));
}

#[test]
fn inline_code_is_white_on_black() {
    let lines = from_str("run `ls` now");
    let code = fg_style(Tint::White).bg(Tint::Black);
    assert_eq!(
        pieces(&lines[0]),
        vec![("run ".to_string(), Style::new()), ("ls".to_string(), code), (" now".to_string(), Style::new())]
    );
}

#[test]
fn emphasis_strong_and_strikethrough_are_styled_inline() {
    let lines = from_str("*a* **b** ~~c~~ ***d***");
    let italic = emphasis_style(Emphasis::Italic);
    let bold = emphasis_style(Emphasis::Bold);
    let crossed = emphasis_style(Emphasis::CrossedOut);
    let both = italic.patch(bold);
    let got = pieces(&lines[0]);
    assert_eq!(got[0], ("a".to_string(), italic));
    assert_eq!(got[1], (" ".to_string(), Style::new()));
    assert_eq!(got[2], ("b".to_string(), bold));
    assert_eq!(got[4], ("c".to_string(), crossed));
    assert_eq!(got[6].0, "d");
    assert_eq!(got[6].1.add_modifier, both.add_modifier);
    assert_eq!(got[6].1.add_modifier, 1 | 4);
}

#[test]
fn links_show_their_destination_underlined() {
    let lines = from_str("[docs](https://example.com)");
    let link = fg_emphasis_style(Tint::Blue, Emphasis::Underlined);
    assert_eq!(texts(&lines), vec!["docs (https://example.com)"]);
    assert_eq!(
        pieces(&lines[0]),
        vec![
            ("docs".to_string(), Style::new()),
            (" (".to_string(), Style::new()),
            ("https://example.com".to_string(), link),
            (")".to_string(), Style::new()),
        ]
    );
}

#[test]
fn ordered_list_numbers_are_light_blue() {
    let lines = from_str("1. one\n2. two\n");
    assert_eq!(texts(&lines), vec!["1. one", "2. two"]);
    let number = fg_style(Tint::LightBlue);
    assert_eq!(pieces(&lines[0]), vec![("1. ".to_string(), number), ("one".to_string(), Style::new())]);
    assert_eq!(pieces(&lines[1]), vec![("2. ".to_string(), number), ("two".to_string(), Style::new())]);
    let bullets = from_str("- x\n");
    assert_eq!(pieces(&bullets[0]), plain_pieces(&["- ", "x"]));
}

#[test]
fn code_block_fences_are_plain_and_highlighted_lines_are_styled() {
    let lines = from_str("```rust\nfn main() {}\n```\n");
    assert_eq!(pieces(&lines[0]), plain_pieces(&["```rust"]));
    let last = lines.last().unwrap();
    assert_eq!(pieces(last), plain_pieces(&["```"]));
    let body = lines.iter().find(|l| l.content().iter().collect::<String>() == "fn main() {}").unwrap();
    assert!(pieces(body).iter().any(|(_, s)| s.fg.is_some()), "{:?}", pieces(body));
}

#[test]
fn the_prompt_line_styles_provider_model_and_time() {
    let settings = LlmSettings { provider: Some(Provider::OpenAi(OpenAiSettings { model: 1, web_search: false })) };
    let line = make_prompt_line(&settings, Some(12));
    assert_eq!(line.style(), Style::new());
    assert_eq!(
        pieces(&line),
        vec![
            ("┌─> ".to_string(), Style::new()),
            ("openAI".to_string(), fg_emphasis_style(Tint::LightGreen, Emphasis::Bold)),
            (" on ".to_string(), Style::new()),
            ("4o".to_string(), fg_style(Tint::LightBlue)),
            (" [".to_string(), Style::new()),
            ("12s".to_string(), fg_style(Tint::LightMagenta)),
            ("]".to_string(), Style::new()),
        ]
    );
}

#[test]
fn assistant_markdown_keeps_its_styles_in_the_transcript() {
    let mut messages = Messages::new();
    messages.set_viewport_width(40);
    messages.handle_send();
    messages.handle_chat_event_stream(event(Payload::Message(Message { role: 2, msg: "# Hi\n\n`x`".to_string() })));
    let shown = messages.viewport.lines();
    assert_eq!(texts(&shown), vec!["# Hi", "", "x", ""]);
    let h1 = Style::new().bg(Tint::Cyan).add_modifier(Emphasis::Bold).add_modifier(Emphasis::Underlined);
    assert_eq!(shown[0].style(), h1);
    assert!(pieces(&shown[2]).contains(&("x".to_string(), fg_style(Tint::White).bg(Tint::Black))));
}

#[test]
fn code_block_lines_are_highlighted_in_order() {
    let lines = from_str("```rust\nlet a = 1;\nlet b = 2;\n```\n");
    let t = texts(&lines);
    let a = t.iter().position(|l| l == "let a = 1;").unwrap();
    let b = t.iter().position(|l| l == "let b = 2;").unwrap();
    assert!(a < b, "{:?}", t);
    assert_eq!(t[0], "```rust");
    assert_eq!(t.last().unwrap(), "```");
}
