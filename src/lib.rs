//! Context resolution for a SurrealQL language server: cursor geometry,
//! document normalization, turning text changes into tree edits, the completion cascade and the
//! hover keyword lookup, all over a tree-sitter syntax tree.

pub mod cascade;
pub mod completion;
pub mod edit;
pub mod geometry;
pub mod keywords;
pub mod normalize;
pub mod position;
pub mod syntax;

pub use cascade::{
    completion_context, context_of_label, find_keyword_at_position, get_completion_for_context,
    get_completion_for_errors, get_completion_for_select, get_completion_for_select_neighbors,
    options_for, Capture, CompletionContext,
};
pub use completion::get_completion_list;
pub use edit::{
    apply_changes, text_doc_change_to_tree_sitter_edit, ContentChange, EditDescriptor, EditError,
    Position, TextRange,
};
pub use geometry::{cursor_after, cursor_before, cursor_matches, is_within_cursor_range, Point};
pub use keywords::{load_kw_docs, KeywordDocsMap};
pub use normalize::normalize_document_and_cursor_position;
pub use position::retrieve_keyword_at_position;
pub use syntax::{initialise_parser, Queries, SetupError};
