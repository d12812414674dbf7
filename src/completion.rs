use crate::cascade::{
    cascade, completion_context, context_options, names_view, options_for, Capture,
    CompletionContext,
};
use crate::normalize::{normalize_document_and_cursor_position, normalized_column, normalized_line};
use crate::syntax::{matches_in_document, matches_on_line, reparse, Queries};
use vstd::prelude::*;

verus! {

/// The options of a context, if there is one.
pub open spec fn options_of(ctx: Option<CompletionContext>) -> Option<Seq<Seq<char>>> {
    match ctx {
        Some(c) => Some(context_options(c)),
        None => None,
    }
}

/// The strings of a list of options, if there is one.
pub open spec fn list_view(r: Option<Vec<String>>) -> Option<Seq<Seq<char>>> {
    match r {
        Some(v) => Some(v@.map_values(|s: String| s@)),
        None => None,
    }
}

/// The completion options at the cursor of `curr_doc`: the document is
/// normalized to one line, parsed again into `curr_tree`, and the cascade of
/// queries runs on the new tree; a later stage counts only when the ones
/// before it found nothing. Absent when no stage decides, or when the parser
/// yields no tree.
/// Whatever the queries found, the result is what the cascade gives on some
/// matches, at the normalized cursor.
pub fn get_completion_list(
    curr_doc: &str,
    parser: &mut tree_sitter::Parser,
    curr_tree: &mut Option<tree_sitter::Tree>,
    queries: &Queries,
    cursor_line: usize,
    cursor_char: usize,
) -> (r: Option<Vec<String>>)
    ensures
        *final(curr_tree) is None ==> r is None,
        *final(curr_tree) is Some ==> exists|
            clause: Seq<Seq<Capture>>,
            errors: Seq<Seq<Capture>>,
            neighbors: Seq<Seq<Capture>>,
            selects: Seq<Seq<Capture>>,
        |
            list_view(r) == options_of(
                #[trigger] cascade(
                    clause,
                    queries.clause_names(),
                    errors,
                    neighbors,
                    selects,
                    normalized_line(curr_doc@, cursor_line) as int,
                    normalized_column(curr_doc@, cursor_line, cursor_char) as int,
                ),
            ),
{
    let (doc, line, ch) = normalize_document_and_cursor_position(curr_doc, cursor_line, cursor_char);
    reparse(parser, curr_tree, doc.as_str());
    let tree = match curr_tree {
        Some(t) => t,
        None => {
            return None;
        },
    };
    let text = doc.as_str();
    let clause = matches_in_document(&queries.context, tree, text);
    let errors = matches_in_document(&queries.errors, tree, text);
    let neighbors = matches_in_document(&queries.neighbors, tree, text);
    let selects = matches_on_line(&queries.selects, tree, text, line);
    proof {
        queries.lemma_clause_names();
    }
    assert(names_view(&queries.context_names) == queries.clause_names());
    let ctx = completion_context(&clause, &queries.context_names, &errors, &neighbors, &selects, line, ch);
    match ctx {
        Some(c) => {
            let v = options_for(c);
            assert(list_view(Some(v)) == options_of(ctx));
            Some(v)
        },
        None => None,
    }
}

} // verus!
