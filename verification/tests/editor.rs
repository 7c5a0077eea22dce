use cookie::editor::Editor;
use cookie::editor_viewport::{EditorViewport, WrapMode};

fn cursor_byte_idx(input: &str, char_idx: usize) -> usize {
    input
        .char_indices()
        .map(|(i, _)| i)
        .nth(char_idx)
        .unwrap_or(input.len())
}

#[derive(Default)]
struct VerticalCase {
    description: &'static str,
    input: &'static str,
    char_idx: usize,
    view_width: usize,
    expected_positions: Vec<(u16, u16)>,
    expected_char_indices: Vec<usize>,
}

#[test]
fn move_cursor_vertical() {
    let cases = vec![
        VerticalCase {
            description: "two lines",
            input: "hello\nworld",
            char_idx: 3,
            view_width: 10,
            expected_positions: vec![(3, 1), (3, 0)],
            expected_char_indices: vec![9, 3],
        },
        VerticalCase {
            description: "only one line",
            input: "hello",
            char_idx: 3,
            view_width: 10,
            expected_positions: vec![(3, 0), (3, 0)],
            expected_char_indices: vec![3, 3],
        },
        VerticalCase {
            description: "two lines with clamping",
            input: "hello world hi",
            char_idx: 5,
            view_width: 11,
            expected_positions: vec![(3, 1), (3, 0)],
            expected_char_indices: vec![14, 3],
        },
        VerticalCase {
            description: "Chinese",
            input: "芋泥奶茶，\n咖啡",
            char_idx: 2,
            view_width: 11,
            expected_positions: vec![(4, 1), (4, 0)],
            expected_char_indices: vec![8, 2],
        },
        VerticalCase {
            description: "Chinese",
            input: "taro\n芋泥奶茶",
            char_idx: 3,
            view_width: 11,
            expected_positions: vec![(2, 1), (2, 0)],
            expected_char_indices: vec![6, 2],
        },
    ];
    for case in cases {
        let mut editor = Editor::new(case.input.to_string(), WrapMode::Character);
        editor.cursor_char_idx = case.char_idx;
        editor.set_viewport_width(case.view_width);
        let mut char_indices: Vec<usize> = Vec::new();
        let mut positions: Vec<(u16, u16)> = Vec::new();

        for (i, b) in case.input.as_bytes().iter().enumerate() {
            println!("  [{}] = 0x{:02X} ({})", i, b, b);
        }

        println!("\nChars:");
        for (i, c) in case.input.char_indices().enumerate() {
            println!("  [{:?}] = '{:?}'", i, c);
        }

        editor.move_cursor_down();
        positions.push(editor.viewport.cursor_position());
        char_indices.push(editor.cursor_char_idx);
        editor.move_cursor_up();
        positions.push(editor.viewport.cursor_position());
        char_indices.push(editor.cursor_char_idx);
        assert_eq!(positions, case.expected_positions, "{} cursor positions", case.description,);
        assert_eq!(char_indices, case.expected_char_indices, "{} cursor char indices", case.description,);
    }
}

#[derive(Default)]
struct CharCase {
    description: &'static str,
    input: &'static str,
    char_idx: usize,
    view_width: usize,
    lines: Vec<&'static str>,
    cursor_position: (u16, u16),
}

#[test]
fn lines_and_cursor_charactor_mode() {
    let cases = vec![
        CharCase { description: "empty input", view_width: 5, lines: vec![""], ..Default::default() },
        CharCase {
            description: "one line, cursor at the end of input",
            input: "hello",
            char_idx: 5,
            view_width: 10,
            lines: vec!["hello"],
            cursor_position: (5, 0),
        },
        CharCase {
            description: "one line, cursor in the middle of input",
            input: "hello",
            char_idx: 2,
            view_width: 10,
            lines: vec!["hello"],
            cursor_position: (2, 0),
        },
        CharCase {
            description: "two lines with new line",
            input: "hello\nworld",
            char_idx: 6,
            view_width: 10,
            lines: vec!["hello", "world"],
            cursor_position: (0, 1),
        },
        CharCase {
            description: "two lines with new line, cursor at newline",
            input: "hello\nworld",
            char_idx: 5,
            view_width: 10,
            lines: vec!["hello", "world"],
            cursor_position: (5, 0),
        },
        CharCase {
            description: "two lines with new line, second line empty, cursor at newline",
            input: "hello\n",
            char_idx: 6,
            view_width: 10,
            lines: vec!["hello", ""],
            cursor_position: (0, 1),
        },
        CharCase {
            description: "two lines with wrap",
            input: "hello world",
            char_idx: 7,
            view_width: 6,
            lines: vec!["hello ", "world"],
            cursor_position: (1, 1),
        },
        CharCase {
            description: "two lines with wrap, cursor before break",
            input: " hello  world ",
            char_idx: 6,
            view_width: 7,
            lines: vec![" hello ", " world "],
            cursor_position: (6, 0),
        },
        CharCase {
            description: "two lines with wrap, cursor after break",
            input: " hello  world ",
            char_idx: 7,
            view_width: 7,
            lines: vec![" hello ", " world "],
            cursor_position: (0, 1),
        },
        CharCase {
            description: "Chinese",
            input: "芋泥奶茶\n",
            char_idx: 4,
            view_width: 10,
            lines: vec!["芋泥奶茶", ""],
            cursor_position: (8, 0),
        },
    ];
    for case in cases {
        let mut viewport = EditorViewport::new(WrapMode::Character);
        let byte_idx = cursor_byte_idx(case.input, case.char_idx);
        viewport.set_viewport_width(case.view_width, case.input, byte_idx);

        let lines = viewport.lines();
        assert_eq!(lines, case.lines, "{} lines", case.description);

        let cursor_position = viewport.cursor_position();
        assert_eq!(cursor_position, case.cursor_position, "{} cursor byte index to position", case.description,);

        let byte_idx_ = viewport.find_cursor_byte_idx(cursor_position);
        assert_eq!(byte_idx_, byte_idx, "{} cursor position to byte index", case.description,)
    }
}

#[derive(Default)]
struct WordCase {
    description: &'static str,
    input: &'static str,
    char_idx: usize,
    view_width: usize,
    lines: Vec<&'static str>,
    cursor_position: (u16, u16),
    clamped_char_idx: usize,
}

#[test]
fn lines_and_cursor_word_mode() {
    let cases = vec![
        WordCase { description: "empty input", view_width: 5, lines: vec![""], ..Default::default() },
        WordCase {
            description: "one line, cursor at the end of input",
            input: "hello",
            char_idx: 5,
            view_width: 10,
            lines: vec!["hello"],
            cursor_position: (5, 0),
            clamped_char_idx: 5,
        },
        WordCase {
            description: "one line, cursor in the middle of input",
            input: "hello world",
            char_idx: 5,
            view_width: 10,
            lines: vec!["hello ", "world"],
            cursor_position: (5, 0),
            clamped_char_idx: 5,
        },
        WordCase {
            description: "one line with trailing whitespace",
            input: " hello   ",
            char_idx: 9,
            view_width: 7,
            lines: vec![" hello   "],
            cursor_position: (7, 0),
            clamped_char_idx: 7,
        },
        WordCase {
            description: "two lines with new line, cursor at newline",
            input: "hello\nworld",
            char_idx: 5,
            view_width: 10,
            lines: vec!["hello", "world"],
            cursor_position: (5, 0),
            clamped_char_idx: 5,
        },
        WordCase {
            description: "two lines with new line, cursor after newline",
            input: "hello\nworld",
            char_idx: 6,
            view_width: 10,
            lines: vec!["hello", "world"],
            cursor_position: (0, 1),
            clamped_char_idx: 6,
        },
        WordCase {
            description: "two lines with new line, second line empty, cursor at newline",
            input: "hello\n",
            char_idx: 6,
            view_width: 10,
            lines: vec!["hello", ""],
            cursor_position: (0, 1),
            clamped_char_idx: 6,
        },
        WordCase {
            description: "two lines with soft wrap",
            input: "hello world",
            char_idx: 7,
            view_width: 6,
            lines: vec!["hello ", "world"],
            cursor_position: (1, 1),
            clamped_char_idx: 7,
        },
        WordCase {
            description: "two lines with soft wrap, cursor before break with trailing whitespace",
            input: " hello   world ",
            char_idx: 8,
            view_width: 7,
            lines: vec![" hello   ", "world "],
            cursor_position: (7, 0),
            clamped_char_idx: 7,
        },
        WordCase {
            description: "two lines with soft wrap, cursor after break",
            input: " hello  world ",
            char_idx: 8,
            view_width: 7,
            lines: vec![" hello  ", "world "],
            cursor_position: (0, 1),
            clamped_char_idx: 8,
        },
        WordCase {
            description: "three lines",
            input: " hello,  world\n",
            char_idx: 15,
            view_width: 7,
            lines: vec![" hello,  ", "world", ""],
            cursor_position: (0, 2),
            clamped_char_idx: 15,
        },
        WordCase {
            description: "Chinese",
            input: "芋泥奶茶\n",
            char_idx: 4,
            view_width: 10,
            lines: vec!["芋泥奶茶", ""],
            cursor_position: (8, 0),
            clamped_char_idx: 4,
        },
    ];
    for case in cases {
        let mut viewport = EditorViewport::new(WrapMode::Word);
        let byte_idx = cursor_byte_idx(case.input, case.char_idx);
        viewport.set_viewport_width(case.view_width, case.input, byte_idx);

        let lines = viewport.lines();
        assert_eq!(lines, case.lines, "{} lines", case.description);

        let cursor_position = viewport.cursor_position();
        assert_eq!(cursor_position, case.cursor_position, "{} cursor byte index to position", case.description,);

        let byte_idx_ = viewport.find_cursor_byte_idx(cursor_position);
        assert_eq!(
            byte_idx_,
            cursor_byte_idx(case.input, case.clamped_char_idx),
            "{} cursor position to byte index",
            case.description,
        )
    }
}

#[test]
fn typing_then_deleting_restores_the_text() {
    let mut editor = Editor::new("hello".to_string(), WrapMode::Character);
    editor.set_viewport_width(10);
    editor.cursor_char_idx = 2;
    editor.enter_char('x');
    assert_eq!(editor.input(), "hexllo");
    assert_eq!(editor.cursor_char_idx, 3);
    editor.delete_char();
    assert_eq!(editor.input(), "hello");
    assert_eq!(editor.cursor_char_idx, 2);
}

#[test]
fn deleting_at_the_start_changes_nothing() {
    let mut editor = Editor::new("abc".to_string(), WrapMode::Word);
    editor.set_viewport_width(10);
    editor.cursor_char_idx = 0;
    editor.delete_char();
    assert_eq!(editor.input(), "abc");
    assert_eq!(editor.cursor_char_idx, 0);
}

#[test]
fn pasting_inserts_at_the_cursor() {
    let mut editor = Editor::new("ad".to_string(), WrapMode::Character);
    editor.set_viewport_width(10);
    editor.cursor_char_idx = 1;
    editor.paste_data("bc");
    assert_eq!(editor.input(), "abcd");
    assert_eq!(editor.cursor_char_idx, 3);
}

#[test]
fn character_wrapping_keeps_the_text() {
    let mut viewport = EditorViewport::new(WrapMode::Character);
    let input = "a long line of text to wrap";
    viewport.set_viewport_width(7, input, 0);
    let lines = viewport.lines();
    assert_eq!(lines.concat(), input);
    assert!(lines.iter().all(|l| l.chars().count() <= 7));
}

#[test]
fn word_wrapping_keeps_the_text() {
    let mut viewport = EditorViewport::new(WrapMode::Word);
    let input = " hello   world, and-more words here ";
    viewport.set_viewport_width(7, input, 0);
    let lines = viewport.lines();
    assert!(lines.len() > 1);
    assert_eq!(lines.concat(), input);
}

#[test]
fn reflow_lays_out_each_line_after_the_previous_one() {
    let mut v = EditorViewport::new(WrapMode::Character);
    v.set_viewport_width(3, "abcd\n\nef", 0);
    assert_eq!(v.lines(), vec!["abc", "d", "", "ef"]);
    v.update_cursor_position(6);
    assert_eq!(v.cursor_position(), (0, 3));
    v.update_cursor_position(5);
    assert_eq!(v.cursor_position(), (0, 2));
}
