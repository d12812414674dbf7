use lsp_textdocument::FullTextDocument;
use surrealql_lsp::{
    apply_changes, Position, TextRange, get_completion_list, initialise_parser, load_kw_docs,
    retrieve_keyword_at_position, text_doc_change_to_tree_sitter_edit, ContentChange, EditError,
    Queries,
};

fn target_options() -> Vec<String> {
    ["WHERE", "SPLIT", "WITH", "GROUP BY", "LIMIT", "ORDER BY", "TIMEOUT", "EXPLAIN", "PARALLEL"]
        .iter()
        .map(|s| s.to_string())
        .collect()
}

fn complete(doc: &str, line: usize, col: usize) -> Option<Vec<String>> {
    let mut parser = initialise_parser().expect("grammar loads");
    let queries = Queries::new().expect("queries compile");
    let mut tree = None;
    get_completion_list(doc, &mut parser, &mut tree, &queries, line, col)
}

#[test]
fn parser_and_queries_set_up() {
    assert!(initialise_parser().is_ok());
    assert!(Queries::new().is_ok());
}

#[test]
fn select_then_space_offers_value() {
    assert_eq!(complete("SELECT ", 0, 7), Some(vec!["VALUE".to_string()]));
}

#[test]
fn after_from_target_offers_clauses() {
    assert_eq!(complete("SELECT * FROM person ", 0, 21), Some(target_options()));
}

#[test]
fn multi_line_document_is_completed_like_its_flat_form() {
    let flat = complete("SELECT * FROM person ", 0, 21);
    let split = complete("SELECT *\nFROM person ", 1, 12);
    assert_eq!(split, flat);
}

#[test]
fn hover_finds_where_and_its_documentation() {
    let mut parser = initialise_parser().expect("grammar loads");
    let queries = Queries::new().expect("queries compile");
    let mut tree = None;
    let doc = "SELECT * FROM person WHERE";
    let keyword = retrieve_keyword_at_position(doc, &mut parser, &mut tree, &queries, 0, 23);
    assert_eq!(keyword, Some("WHERE".to_string()));
    let docs = load_kw_docs();
    let text = docs.get(&"WHERE".to_string());
    assert!(text.is_some());
    assert!(text.unwrap().contains("WHERE"));
}

#[test]
fn hover_off_keyword_finds_nothing() {
    let mut parser = initialise_parser().expect("grammar loads");
    let queries = Queries::new().expect("queries compile");
    let mut tree = None;
    let keyword =
        retrieve_keyword_at_position("SELECT * FROM person", &mut parser, &mut tree, &queries, 3, 0);
    assert_eq!(keyword, None);
}

#[test]
fn edit_without_range_fails_and_completion_recovers() {
    let mut parser = initialise_parser().expect("grammar loads");
    let queries = Queries::new().expect("queries compile");
    let mut tree = None;
    assert_eq!(
        get_completion_list("SELECT ", &mut parser, &mut tree, &queries, 0, 7),
        Some(vec!["VALUE".to_string()])
    );
    let new_text = "SELECT * FROM person ";
    let doc = FullTextDocument::new("surrealql".to_string(), 2, new_text.to_string());
    let change = ContentChange { range: None, text: new_text.to_string() };
    assert_eq!(text_doc_change_to_tree_sitter_edit(&change, &doc), Err(EditError::InvalidRange));
    let errors = apply_changes(&mut tree, &doc, &vec![change]);
    assert_eq!(errors, vec![EditError::InvalidRange]);
    assert!(tree.is_some());
    assert_eq!(
        get_completion_list(new_text, &mut parser, &mut tree, &queries, 0, 21),
        Some(target_options())
    );
}

#[test]
fn ranged_edit_updates_tree_incrementally() {
    let mut parser = initialise_parser().expect("grammar loads");
    let queries = Queries::new().expect("queries compile");
    let mut tree = None;
    assert_eq!(
        get_completion_list("SELECT ", &mut parser, &mut tree, &queries, 0, 7),
        Some(vec!["VALUE".to_string()])
    );
    let new_text = "SELECT * FROM person ";
    let doc = FullTextDocument::new("surrealql".to_string(), 2, new_text.to_string());
    let at = Position { line: 0, character: 7 };
    let change = ContentChange { range: Some(TextRange { start: at, end: at }), text: "* FROM person ".to_string() };
    let edit = text_doc_change_to_tree_sitter_edit(&change, &doc).unwrap();
    assert_eq!((edit.start_byte, edit.old_end_byte, edit.new_end_byte), (7, 7, 21));
    assert!(apply_changes(&mut tree, &doc, &vec![change]).is_empty());
    assert_eq!(
        get_completion_list(new_text, &mut parser, &mut tree, &queries, 0, 21),
        Some(target_options())
    );
}
