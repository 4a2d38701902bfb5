use text_editor::buffer::{Buffer, Edit};
use text_editor::gutter::{gutter_text, GUTTER_WIDTH};
use text_editor::paint::{highlight_line, PaintOp};
use text_editor::render::{repaint, repaint_all, repaint_line, repaint_rows};

fn texts(lines: &[&str]) -> Vec<String> {
    lines.iter().map(|line| line.to_string()).collect()
}

fn plain(text: &str) -> PaintOp {
    PaintOp::WritePlain(text.to_string())
}

fn marked(text: &str) -> PaintOp {
    PaintOp::WriteHighlighted(text.to_string())
}

fn to(col: usize, row: usize) -> PaintOp {
    PaintOp::MoveTo { col, row }
}

#[test]
fn gutter_width_is_six_columns() {
    assert_eq!(GUTTER_WIDTH, 6);
}

#[test]
fn gutter_right_aligns_the_number_in_three_columns() {
    assert_eq!(gutter_text(1), "   1| ");
    assert_eq!(gutter_text(9), "   9| ");
    assert_eq!(gutter_text(10), "  10| ");
    assert_eq!(gutter_text(42), "  42| ");
    assert_eq!(gutter_text(100), " 100| ");
    assert_eq!(gutter_text(999), " 999| ");
}

#[test]
fn gutter_grows_for_numbers_of_more_than_three_digits() {
    assert_eq!(gutter_text(1000), " 1000| ");
    assert_eq!(gutter_text(1234567), " 1234567| ");
}

#[test]
fn gutter_of_zero() {
    assert_eq!(gutter_text(0), "   0| ");
}

#[test]
fn gutter_is_as_wide_as_the_text_start_up_to_999() {
    for number in 0..1000 {
        assert_eq!(gutter_text(number).chars().count(), GUTTER_WIDTH);
    }
}

#[test]
fn gutter_writes_every_digit() {
    assert_eq!(gutter_text(1023456789), " 1023456789| ");
}

#[test]
fn highlight_in_the_middle_of_a_line() {
    assert_eq!(
        highlight_line(&"Hello World".to_string(), 5),
        vec![plain("Hello"), marked(" "), plain("World\n")]
    );
    assert_eq!(
        highlight_line(&"Test123".to_string(), 1),
        vec![plain("T"), marked("e"), plain("st123\n")]
    );
}

#[test]
fn highlight_at_the_start_of_a_line() {
    assert_eq!(
        highlight_line(&"abc".to_string(), 0),
        vec![plain(""), marked("a"), plain("bc\n")]
    );
}

#[test]
fn highlight_on_the_last_character() {
    assert_eq!(
        highlight_line(&"abc".to_string(), 2),
        vec![plain("ab"), marked("c"), plain("\n")]
    );
}

#[test]
fn highlight_behind_the_last_character_is_a_blank() {
    assert_eq!(
        highlight_line(&"abc".to_string(), 3),
        vec![plain("abc"), marked(" "), plain("\n")]
    );
}

#[test]
fn highlight_of_an_empty_line_is_a_blank() {
    assert_eq!(
        highlight_line(&String::new(), 0),
        vec![plain(""), marked(" "), plain("\n")]
    );
}

#[test]
fn highlight_far_behind_the_line_is_held_back_to_its_end() {
    assert_eq!(
        highlight_line(&"abc".to_string(), 17),
        vec![plain("abc"), marked(" "), plain("\n")]
    );
}

#[test]
fn highlight_takes_a_multibyte_character_whole() {
    assert_eq!(
        highlight_line(&"añb日c".to_string(), 1),
        vec![plain("a"), marked("ñ"), plain("b日c\n")]
    );
    assert_eq!(
        highlight_line(&"añb日c".to_string(), 3),
        vec![plain("añb"), marked("日"), plain("c\n")]
    );
}

#[test]
fn repaint_line_clears_and_rewrites_the_cursor_line() {
    let buffer = Buffer::from_lines(texts(&["Hello World", "Test123"]), 1, 4).expect("valid");
    assert_eq!(
        repaint_line(&buffer),
        vec![
            to(6, 1),
            PaintOp::ClearToLineEnd,
            plain("Test"),
            marked("1"),
            plain("23\n"),
            PaintOp::Flush,
        ]
    );
}

#[test]
fn repaint_line_with_the_cursor_behind_the_line() {
    let buffer = Buffer::from_lines(texts(&["ab"]), 0, 2).expect("valid");
    assert_eq!(
        repaint_line(&buffer),
        vec![
            to(6, 0),
            PaintOp::ClearToLineEnd,
            plain("ab"),
            marked(" "),
            plain("\n"),
            PaintOp::Flush,
        ]
    );
}

#[test]
fn repaint_rows_rewrites_the_row_left_and_the_row_entered() {
    let buffer = Buffer::from_lines(texts(&["Hello World", "Test123", "Finish123"]), 1, 2)
        .expect("valid");
    assert_eq!(
        repaint_rows(&buffer, 2),
        vec![
            to(6, 2),
            PaintOp::ClearToLineEnd,
            plain("Finish123\n"),
            to(6, 1),
            PaintOp::ClearToLineEnd,
            plain("Te"),
            marked("s"),
            plain("t123\n"),
            PaintOp::Flush,
        ]
    );
}

#[test]
fn repaint_rows_without_such_a_row_rewrites_the_cursor_line_only() {
    let buffer = Buffer::from_lines(texts(&["ab", "cd"]), 0, 1).expect("valid");
    assert_eq!(
        repaint_rows(&buffer, 2),
        vec![
            to(6, 0),
            PaintOp::ClearToLineEnd,
            plain("a"),
            marked("b"),
            plain("\n"),
            PaintOp::Flush,
        ]
    );
}

#[test]
fn repaint_all_lists_every_line_and_highlights_the_cursor_line() {
    let buffer = Buffer::init();
    assert_eq!(
        repaint_all(&buffer),
        vec![
            PaintOp::ClearAll,
            to(0, 0),
            plain("   1| "),
            plain("Hello World\n"),
            plain("   2| "),
            plain("Test123\n"),
            plain("   3| "),
            plain("Finish123\n"),
            to(6, 0),
            plain(""),
            marked("H"),
            plain("ello World\n"),
            PaintOp::Flush,
        ]
    );
}

#[test]
fn repaint_all_of_one_empty_line() {
    let buffer = Buffer::new();
    assert_eq!(
        repaint_all(&buffer),
        vec![
            PaintOp::ClearAll,
            to(0, 0),
            plain("   1| "),
            plain("\n"),
            to(6, 0),
            plain(""),
            marked(" "),
            plain("\n"),
            PaintOp::Flush,
        ]
    );
}

#[test]
fn repaint_all_with_the_cursor_on_a_lower_line() {
    let buffer = Buffer::from_lines(texts(&["ab", "cd"]), 1, 2).expect("valid");
    assert_eq!(
        repaint_all(&buffer),
        vec![
            PaintOp::ClearAll,
            to(0, 0),
            plain("   1| "),
            plain("ab\n"),
            plain("   2| "),
            plain("cd\n"),
            to(6, 1),
            plain("cd"),
            marked(" "),
            plain("\n"),
            PaintOp::Flush,
        ]
    );
}

#[test]
fn repaint_all_numbers_the_tenth_line_in_two_digits() {
    let lines: Vec<String> = (0..10).map(|_| "x".to_string()).collect();
    let buffer = Buffer::from_lines(lines, 0, 0).expect("valid");
    let ops = repaint_all(&buffer);
    assert_eq!(ops.len(), 2 + 2 * 10 + 4 + 1);
    assert_eq!(ops[2 + 2 * 8], plain("   9| "));
    assert_eq!(ops[2 + 2 * 9], plain("  10| "));
    assert_eq!(ops[2 + 2 * 9 + 1], plain("x\n"));
}

#[test]
fn repaint_follows_the_kind_of_edit() {
    let buffer = Buffer::from_lines(texts(&["ab", "cd"]), 1, 0).expect("valid");
    assert_eq!(repaint(&buffer, Edit::Unchanged), Vec::new());
    assert_eq!(repaint(&buffer, Edit::WithinLine), repaint_line(&buffer));
    assert_eq!(repaint(&buffer, Edit::RowChanged { from: 0 }), repaint_rows(&buffer, 0));
    assert_eq!(repaint(&buffer, Edit::LinesChanged), repaint_all(&buffer));
}

#[test]
fn every_repaint_ends_with_its_only_flush() {
    let buffer = Buffer::from_lines(texts(&["ab", "cd", "ef"]), 1, 1).expect("valid");
    for edit in [Edit::WithinLine, Edit::RowChanged { from: 2 }, Edit::LinesChanged] {
        let ops = repaint(&buffer, edit);
        assert_eq!(ops.last(), Some(&PaintOp::Flush));
        assert_eq!(ops.iter().filter(|op| **op == PaintOp::Flush).count(), 1);
    }
}
