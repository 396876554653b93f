use hank_tui::textbuf::TextBuffer;

fn buffer_with(text: &str) -> TextBuffer {
    let mut tb = TextBuffer::new();
    for c in text.chars() {
        tb.insert(c);
    }
    tb
}

#[test]
fn typing_wraps_at_width_ten() {
    let tb = buffer_with("hello world!");
    assert_eq!(tb.total_lines(10), 2);
    assert_eq!(tb.render_wrapped(10), "hello worl\nd!");
    assert_eq!(tb.cursor_line_col(10), (1, 2));
}

#[test]
fn empty_buffer_is_one_line_at_origin() {
    let tb = TextBuffer::new();
    assert_eq!(tb.total_lines(10), 1);
    assert_eq!(tb.cursor_line_col(10), (0, 0));
    assert_eq!(tb.render_wrapped(10), "");
}

#[test]
fn zero_width_defaults() {
    let tb = buffer_with("abc");
    assert_eq!(tb.total_lines(0), 1);
    assert_eq!(tb.cursor_line_col(0), (0, 0));
    assert_eq!(tb.render_wrapped(0), "abc");
}

#[test]
fn literal_newlines_count_as_line_breaks() {
    let tb = buffer_with("ab\ncd");
    assert_eq!(tb.total_lines(10), 2);
    assert_eq!(tb.cursor_line_col(10), (1, 2));
    assert_eq!(tb.render_wrapped(10), "ab\ncd");
}

#[test]
fn wide_characters_take_two_cells() {
    let tb = buffer_with("你你你");
    assert_eq!(tb.total_lines(5), 2);
    assert_eq!(tb.render_wrapped(5), "你你\n你");
    assert_eq!(tb.cursor_line_col(5), (1, 2));
}

#[test]
fn wide_character_wraps_before_placement_even_on_first_column() {
    let tb = buffer_with("你");
    assert_eq!(tb.cursor_line_col(1), (1, 2));
    assert_eq!(tb.render_wrapped(1), "\n你");
}

#[test]
fn cursor_round_trip_between_logical_and_rendered_position() {
    let mut tb = buffer_with("hello world!");
    for expected in [(1, 2), (1, 1), (0, 10), (0, 9), (0, 8)] {
        assert_eq!(tb.cursor_line_col(10), expected);
        tb.move_left();
    }
}

#[test]
fn move_up_then_down_restores_column() {
    let mut tb = buffer_with("hello\nworld");
    tb.move_left();
    tb.move_left();
    tb.move_left();
    assert_eq!(tb.cursor_line_col(40), (1, 2));
    tb.move_up(40);
    assert_eq!(tb.cursor_line_col(40), (0, 2));
    tb.move_down(40);
    assert_eq!(tb.cursor_line_col(40), (1, 2));
    assert_eq!(tb.cursor_index(), 8);
}

#[test]
fn move_down_then_up_restores_column() {
    let mut tb = buffer_with("hello\nworld");
    for _ in 0..9 {
        tb.move_left();
    }
    assert_eq!(tb.cursor_line_col(40), (0, 2));
    tb.move_down(40);
    assert_eq!(tb.cursor_line_col(40), (1, 2));
    tb.move_up(40);
    assert_eq!(tb.cursor_line_col(40), (0, 2));
    assert_eq!(tb.cursor_index(), 2);
}

#[test]
fn move_up_clamps_to_short_line_end() {
    let tb_text = "ab\nlonger";
    let mut tb = buffer_with(tb_text);
    assert_eq!(tb.cursor_line_col(40), (1, 6));
    tb.move_up(40);
    assert_eq!(tb.cursor_index(), 2);
    assert_eq!(tb.cursor_line_col(40), (0, 2));
}

#[test]
fn move_down_clamps_to_short_line_end() {
    let mut tb = buffer_with("longer\nab");
    for _ in 0..4 {
        tb.move_left();
    }
    assert_eq!(tb.cursor_line_col(40), (0, 5));
    tb.move_down(40);
    assert_eq!(tb.cursor_line_col(40), (1, 2));
    assert_eq!(tb.cursor_index(), 9);
}

#[test]
fn vertical_moves_at_edges_do_nothing() {
    let mut tb = buffer_with("one\ntwo");
    tb.move_down(40);
    assert_eq!(tb.cursor_index(), 7);
    let mut tb2 = TextBuffer::new();
    tb2.insert('a');
    tb2.move_left();
    tb2.move_up(40);
    assert_eq!(tb2.cursor_index(), 0);
}

#[test]
fn vertical_moves_cross_wrap_induced_lines() {
    let mut tb = buffer_with("abcdef");
    assert_eq!(tb.cursor_line_col(3), (1, 3));
    tb.move_up(3);
    assert_eq!(tb.cursor_line_col(3), (0, 3));
    assert_eq!(tb.cursor_index(), 3);
    tb.move_down(3);
    assert_eq!(tb.cursor_line_col(3), (1, 3));
    assert_eq!(tb.cursor_index(), 6);
}

#[test]
fn line_start_and_end_work_on_wrapped_lines() {
    let mut tb = buffer_with("abcdef");
    tb.move_left();
    tb.move_left();
    assert_eq!(tb.cursor_line_col(3), (1, 1));
    tb.move_to_line_start(3);
    assert_eq!(tb.cursor_index(), 4);
    tb.move_to_line_end(3);
    assert_eq!(tb.cursor_index(), 6);
}

#[test]
fn line_start_and_end_work_on_logical_lines() {
    let mut tb = buffer_with("ab\ncde");
    tb.move_to_line_start(40);
    assert_eq!(tb.cursor_index(), 3);
    tb.move_to_line_end(40);
    assert_eq!(tb.cursor_index(), 6);
    tb.move_up(40);
    tb.move_to_line_start(40);
    assert_eq!(tb.cursor_index(), 0);
    tb.move_to_line_end(40);
    assert_eq!(tb.cursor_index(), 2);
}

#[test]
fn edits_operate_at_the_cursor() {
    let mut tb = buffer_with("ac");
    tb.move_left();
    tb.insert('b');
    assert_eq!(tb.content_string(), "abc");
    assert_eq!(tb.cursor_index(), 2);
    tb.delete_at_cursor();
    assert_eq!(tb.content_string(), "ab");
    tb.delete_before_cursor();
    assert_eq!(tb.content_string(), "a");
    assert_eq!(tb.cursor_index(), 1);
}

#[test]
fn edits_at_the_edges_are_no_ops() {
    let mut tb = buffer_with("x");
    tb.delete_at_cursor();
    assert_eq!(tb.content_string(), "x");
    tb.move_left();
    tb.delete_before_cursor();
    assert_eq!(tb.content_string(), "x");
    assert_eq!(tb.cursor_index(), 0);
    tb.move_left();
    assert_eq!(tb.cursor_index(), 0);
    tb.move_right();
    tb.move_right();
    assert_eq!(tb.cursor_index(), 1);
}

#[test]
fn multibyte_text_keeps_character_cursor() {
    let mut tb = buffer_with("aöb");
    assert_eq!(tb.cursor_index(), 3);
    tb.move_left();
    tb.delete_before_cursor();
    assert_eq!(tb.content_string(), "ab");
    assert_eq!(tb.cursor_index(), 1);
}

#[test]
fn clear_and_load() {
    let mut tb = buffer_with("abc");
    tb.clear();
    assert_eq!(tb.content_string(), "");
    assert_eq!(tb.cursor_index(), 0);
    tb.load_text("hello");
    assert_eq!(tb.content_string(), "hello");
    assert_eq!(tb.cursor_index(), 5);
}

#[test]
fn insert_text_splices_at_cursor() {
    let mut tb = buffer_with("ad");
    tb.move_left();
    let mid: Vec<char> = "bc".chars().collect();
    tb.insert_text(&mid);
    assert_eq!(tb.content_string(), "abcd");
    assert_eq!(tb.cursor_index(), 3);
}

#[test]
fn rendering_matches_cursor_math_after_every_edit() {
    let mut tb = TextBuffer::new();
    let width = 4;
    for c in "wide 你 and\nnarrow text".chars() {
        tb.insert(c);
        let rendered = tb.render_wrapped(width);
        let (line, col) = tb.cursor_line_col(width);
        let lines: Vec<&str> = rendered.split('\n').collect();
        assert_eq!(line + 1, lines.len());
        let last_width: usize = lines[lines.len() - 1]
            .chars()
            .map(|c| unicode_width::UnicodeWidthChar::width(c).unwrap_or(1))
            .sum();
        assert_eq!(col, last_width);
    }
}
