use crate::cascade::{find_keyword_at_position, keyword_at, matches_view, Capture};
use crate::syntax::{matches_in_document, reparse, Queries};
use vstd::prelude::*;

verus! {

/// The characters of a text, if there is one.
pub open spec fn text_view(r: Option<String>) -> Option<Seq<char>> {
    match r {
        Some(t) => Some(t@),
        None => None,
    }
}

/// The keyword under the cursor of `document_content`, for hover: the document
/// is parsed again into `syntax_tree` as it stands (not normalized), and the
/// first keyword node that lies on the cursor's line and whose columns envelop
/// the cursor gives its text. Absent when there is none, or no tree. Whatever
/// the keyword query found, the result is the keyword lookup on its matches.
pub fn retrieve_keyword_at_position(
    document_content: &str,
    parser: &mut tree_sitter::Parser,
    syntax_tree: &mut Option<tree_sitter::Tree>,
    queries: &Queries,
    cursor_line: usize,
    cursor_character: usize,
) -> (r: Option<String>)
    ensures
        *final(syntax_tree) is None ==> r is None,
        *final(syntax_tree) is Some ==> exists|ms: Seq<Seq<Capture>>|
            text_view(r) == #[trigger] keyword_at(ms, cursor_line as int, cursor_character as int),
{
    reparse(parser, syntax_tree, document_content);
    let tree = match syntax_tree {
        Some(t) => t,
        None => {
            return None;
        },
    };
    let matches = matches_in_document(&queries.keywords, tree, document_content);
    let r = find_keyword_at_position(&matches, cursor_line, cursor_character);
    assert(text_view(r) == keyword_at(matches_view(&matches), cursor_line as int, cursor_character as int));
    r
}

} // verus!
