use surrealql_lsp::normalize_document_and_cursor_position;

#[test]
fn single_line_is_unchanged() {
    let (doc, line, col) = normalize_document_and_cursor_position("SELECT * FROM person", 0, 7);
    assert_eq!(doc, "SELECT * FROM person");
    assert_eq!((line, col), (0, 7));
}

#[test]
fn empty_document_is_unchanged() {
    let (doc, line, col) = normalize_document_and_cursor_position("", 3, 4);
    assert_eq!(doc, "");
    assert_eq!((line, col), (3, 4));
}

#[test]
fn trailing_newline_keeps_a_single_line() {
    let (doc, line, col) = normalize_document_and_cursor_position("SELECT\n", 0, 6);
    assert_eq!(doc, "SELECT\n");
    assert_eq!((line, col), (0, 6));
}

#[test]
fn lines_are_joined_with_spaces() {
    let (doc, line, col) = normalize_document_and_cursor_position("SELECT *\nFROM person\nWHERE", 2, 3);
    assert_eq!(doc, "SELECT * FROM person WHERE\n");
    assert_eq!(line, 0);
    // "SELECT * FROM person" is 20 bytes; plus the column, plus one.
    assert_eq!(col, 24);
    assert_eq!(&doc[col - 3..col], "WHE");
}

#[test]
fn cursor_on_second_line_maps_to_flat_offset() {
    let (doc, line, col) = normalize_document_and_cursor_position("SELECT *\nFROM person", 1, 5);
    assert_eq!(doc, "SELECT * FROM person\n");
    assert_eq!((line, col), (0, 14));
    assert_eq!(&doc[col..col + 6], "person");
}

#[test]
fn cursor_on_first_line_is_shifted_by_one() {
    let (_, line, col) = normalize_document_and_cursor_position("a\nb", 0, 0);
    assert_eq!((line, col), (0, 1));
}

#[test]
fn carriage_returns_are_dropped() {
    let (doc, line, col) = normalize_document_and_cursor_position("SELECT\r\nVALUE", 1, 2);
    assert_eq!(doc, "SELECT VALUE\n");
    assert_eq!((line, col), (0, 9));
}

#[test]
fn cursor_beyond_last_line_counts_every_line() {
    let (doc, line, col) = normalize_document_and_cursor_position("ab\ncd", 5, 0);
    assert_eq!(doc, "ab cd\n");
    assert_eq!((line, col), (0, 6));
}

#[test]
fn multi_byte_columns_count_bytes() {
    let (doc, _, col) = normalize_document_and_cursor_position("é\nx", 1, 0);
    assert_eq!(doc, "é x\n");
    assert_eq!(col, 3);
    assert_eq!(&doc[col..col + 1], "x");
}
