use lsp_textdocument::FullTextDocument;
use surrealql_lsp::{
    apply_changes, text_doc_change_to_tree_sitter_edit, ContentChange, EditDescriptor, EditError,
    Point, Position, TextRange,
};

fn doc(text: &str) -> FullTextDocument {
    FullTextDocument::new("surrealql".to_string(), 1, text.to_string())
}

fn range(l0: u32, c0: u32, l1: u32, c1: u32) -> Option<TextRange> {
    Some(TextRange {
        start: Position { line: l0, character: c0 },
        end: Position { line: l1, character: c1 },
    })
}

#[test]
fn insertion_on_one_line() {
    // The document already holds the inserted text.
    let d = doc("SELECT * FROM person");
    let change = ContentChange { range: range(0, 7, 0, 7), text: "* ".to_string() };
    let e = text_doc_change_to_tree_sitter_edit(&change, &d).unwrap();
    assert_eq!(
        e,
        EditDescriptor {
            start_byte: 7,
            old_end_byte: 7,
            new_end_byte: 9,
            start_point: Point { row: 0, column: 7 },
            old_end_point: Point { row: 0, column: 7 },
            new_end_point: Point { row: 0, column: 9 },
        }
    );
}

#[test]
fn replacement_across_lines() {
    let d = doc("SELECT *\nFROM person\nWHERE x");
    let change = ContentChange { range: range(1, 5, 2, 0), text: "user\n".to_string() };
    let e = text_doc_change_to_tree_sitter_edit(&change, &d).unwrap();
    assert_eq!(e.start_byte, 14);
    assert_eq!(e.old_end_byte, 21);
    assert_eq!(e.new_end_byte, 19);
    assert_eq!(e.start_point, Point { row: 1, column: 5 });
    assert_eq!(e.old_end_point, Point { row: 2, column: 0 });
    assert_eq!(e.new_end_point, Point { row: 1, column: 10 });
}

#[test]
fn deletion_keeps_new_end_at_start() {
    let d = doc("SELECT VALUE");
    let change = ContentChange { range: range(0, 6, 0, 12), text: String::new() };
    let e = text_doc_change_to_tree_sitter_edit(&change, &d).unwrap();
    assert_eq!((e.start_byte, e.old_end_byte, e.new_end_byte), (6, 12, 6));
    assert_eq!(e.new_end_point, Point { row: 0, column: 6 });
}

#[test]
fn missing_range_is_invalid() {
    let d = doc("SELECT");
    let change = ContentChange { range: None, text: "SELECT".to_string() };
    assert_eq!(text_doc_change_to_tree_sitter_edit(&change, &d), Err(EditError::InvalidRange));
}

#[test]
fn no_tree_means_no_edit_and_no_error() {
    let d = doc("SELECT");
    let mut tree = None;
    let changes = vec![ContentChange { range: None, text: "SELECT".to_string() }];
    assert!(apply_changes(&mut tree, &d, &changes).is_empty());
    assert!(tree.is_none());
}

#[test]
fn replacing_one_character_with_two() {
    let d = doc("SELECT * FROM person");
    let change = ContentChange { range: range(0, 7, 0, 8), text: "id".to_string() };
    let e = text_doc_change_to_tree_sitter_edit(&change, &d).unwrap();
    assert_eq!(
        e,
        EditDescriptor {
            start_byte: 7,
            old_end_byte: 8,
            new_end_byte: 9,
            start_point: Point { row: 0, column: 7 },
            old_end_point: Point { row: 0, column: 8 },
            new_end_point: Point { row: 0, column: 9 },
        }
    );
}

#[test]
fn offsets_follow_utf16_positions() {
    // "é" is one UTF-16 unit and two bytes.
    let d = doc("é\nSELECT");
    let change = ContentChange { range: range(0, 1, 1, 0), text: "x".to_string() };
    let e = text_doc_change_to_tree_sitter_edit(&change, &d).unwrap();
    assert_eq!((e.start_byte, e.old_end_byte, e.new_end_byte), (2, 3, 3));
    assert_eq!(e.new_end_point, Point { row: 1, column: 0 });
}
