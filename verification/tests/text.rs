use lume_lsp::text::{offset_from_position, position_from_index, position_from_range, Position};

#[test]
fn offset_of_the_first_position_is_zero() {
    assert_eq!(offset_from_position("ab\ncd\n", 0, 0), 0);
    assert_eq!(offset_from_position("", 0, 0), 0);
}

#[test]
fn offset_counts_newline_bytes() {
    assert_eq!(offset_from_position("ab\ncd\n", 0, 1), 1);
    assert_eq!(offset_from_position("ab\ncd\n", 1, 0), 3);
    assert_eq!(offset_from_position("ab\ncd\n", 1, 1), 4);
    // A carriage return is a byte of its line like any other.
    assert_eq!(offset_from_position("ab\r\ncd", 1, 0), 4);
}

#[test]
fn offset_just_past_the_last_newline_is_the_end() {
    assert_eq!(offset_from_position("ab\ncd\n", 2, 0), 6);
}

#[test]
fn offset_is_clipped_to_the_end_of_the_content() {
    assert_eq!(offset_from_position("ab\ncd\n", 2, 5), 6);
    assert_eq!(offset_from_position("ab\ncd\n", 9, 0), 6);
    assert_eq!(offset_from_position("ab", 1, 0), 2);
    assert_eq!(offset_from_position("ab", 0, 10), 2);
    assert_eq!(offset_from_position("ab", 0, 2), 2);
}

#[test]
fn position_of_an_offset_within_the_content() {
    assert_eq!(position_from_index("ab\ncd", 0), Position { line: 0, character: 0 });
    assert_eq!(position_from_index("ab\ncd", 2), Position { line: 0, character: 2 });
    assert_eq!(position_from_index("ab\ncd", 3), Position { line: 1, character: 0 });
    assert_eq!(position_from_index("ab\ncd", 4), Position { line: 1, character: 1 });
}

#[test]
fn position_of_an_offset_at_or_past_the_end() {
    assert_eq!(position_from_index("ab\ncd", 5), Position { line: 1, character: 2 });
    assert_eq!(position_from_index("ab\ncd", 100), Position { line: 1, character: 97 });
    assert_eq!(position_from_index("ab\n", 3), Position { line: 1, character: 0 });
    assert_eq!(position_from_index("", 0), Position { line: 0, character: 0 });
}

#[test]
fn position_of_a_range_is_that_of_its_ends() {
    let range = position_from_range("let x = 1;\nlet y = x;\n", 4, 19);
    assert_eq!(range.start, Position { line: 0, character: 4 });
    assert_eq!(range.end, Position { line: 1, character: 8 });
}
