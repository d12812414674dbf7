use crate::cascade::Capture;
use crate::edit::EditDescriptor;
use crate::geometry::Point;
use tree_sitter::StreamingIterator;
use vstd::prelude::*;

verus! {

#[verifier::external_type_specification]
#[verifier::external_body]
pub struct ExParser(tree_sitter::Parser);

#[verifier::external_type_specification]
#[verifier::external_body]
pub struct ExTree(tree_sitter::Tree);

#[verifier::external_type_specification]
#[verifier::external_body]
pub struct ExQuery(tree_sitter::Query);

#[verifier::external_type_specification]
#[verifier::external_body]
pub struct ExQueryCursor(tree_sitter::QueryCursor);

#[verifier::external_type_specification]
#[verifier::external_body]
pub struct ExQueryError(tree_sitter::QueryError);

#[verifier::external_type_specification]
#[verifier::external_body]
pub struct ExLanguageError(tree_sitter::LanguageError);

/// Relies on `tree_sitter::Parser::new`: a parser without a language.
#[verifier::external_body]
fn new_parser() -> tree_sitter::Parser {
    tree_sitter::Parser::new()
}

/// Relies on `tree_sitter::Parser::set_language`, given the grammar that
/// `tree_sitter_surrealql::language` returns.
#[verifier::external_body]
/// The grammar is generated with ABI version 15, within the range 13 to 15
/// that this tree-sitter library accepts, so the call succeeds.
fn set_surrealql_language(parser: &mut tree_sitter::Parser) -> (r: Result<(), tree_sitter::LanguageError>)
    ensures
        r is Ok,
{
    parser.set_language(&tree_sitter_surrealql::language())
}

/// Relies on `tree_sitter::Parser::parse`: a tree for `text`, reusing the
/// unchanged parts of `old_tree`; absent if the parser has no language.
#[verifier::external_body]
fn parse_text(
    parser: &mut tree_sitter::Parser,
    text: &str,
    old_tree: Option<&tree_sitter::Tree>,
) -> Option<tree_sitter::Tree> {
    parser.parse(text, old_tree)
}

/// Relies on `tree_sitter::Query::new`, on the grammar that
/// `tree_sitter_surrealql::language` returns. Every node kind that the
/// library's own patterns name exists in that grammar, so those compile.
#[verifier::external_body]
fn compile_query(source: &str) -> (r: Result<tree_sitter::Query, tree_sitter::QueryError>)
    ensures
        is_query_pattern(source@) ==> r is Ok,
{
    tree_sitter::Query::new(&tree_sitter_surrealql::language(), source)
}

/// Relies on `tree_sitter::Query::capture_names`: the capture names of the
/// query, by capture index.
#[verifier::external_body]
fn capture_names(query: &tree_sitter::Query) -> Vec<String> {
    query.capture_names().iter().map(|n| n.to_string()).collect()
}

/// Relies on `tree_sitter::QueryCursor::new`: a cursor over the whole tree.
#[verifier::external_body]
fn new_query_cursor() -> tree_sitter::QueryCursor {
    tree_sitter::QueryCursor::new()
}

/// Relies on `tree_sitter::QueryCursor::set_point_range`: later queries of the
/// cursor only look at nodes between `from` and `to`.
#[verifier::external_body]
fn set_point_range(cursor: &mut tree_sitter::QueryCursor, from: Point, to: Point) {
    cursor.set_point_range(tree_sitter::Point::new(from.row, from.column)..tree_sitter::Point::new(to.row, to.column));
}

/// A capture from its index, the row and column of its ends, and its text.
fn capture(index: u32, start: (usize, usize), end: (usize, usize), text: Option<String>) -> (r: Capture)
    ensures
        r.index == index as usize,
        r.start == (Point { row: start.0, column: start.1 }),
        r.end == (Point { row: end.0, column: end.1 }),
        r.text == text,
{
    Capture { index: index as usize, start: Point { row: start.0, column: start.1 }, end: Point { row: end.0, column: end.1 }, text }
}

/// Relies on `tree_sitter::QueryCursor::matches`: the matches of `query` on
/// `tree`, in the order they are found, each with the span of its captured
/// nodes and their text in `bytes` (absent where `bytes` does not hold that
/// span as UTF-8).
#[verifier::external_body]
fn run_query(
    cursor: &mut tree_sitter::QueryCursor,
    query: &tree_sitter::Query,
    tree: &tree_sitter::Tree,
    bytes: &[u8],
) -> Vec<Vec<Capture>> {
    let mut found = cursor.matches(query, tree.root_node(), bytes);
    let mut out = Vec::new();
    while let Some(m) = found.next() {
        out.push(m.captures.iter().map(|c| {
            let (s, e) = (c.node.start_position(), c.node.end_position());
            let text = bytes.get(c.node.byte_range()).and_then(|b| std::str::from_utf8(b).ok()).map(String::from);
            capture(c.index, (s.row, s.column), (e.row, e.column), text)
        }).collect());
    }
    out
}

/// Relies on `tree_sitter::Tree::edit`: marks the edited span of the tree so
/// that the next parse can reuse the rest.
#[verifier::external_body]
pub(crate) fn edit_tree(tree: &mut tree_sitter::Tree, e: &EditDescriptor) {
    tree.edit(&tree_sitter::InputEdit {
        start_byte: e.start_byte,
        old_end_byte: e.old_end_byte,
        new_end_byte: e.new_end_byte,
        start_position: tree_sitter::Point::new(e.start_point.row, e.start_point.column),
        old_end_position: tree_sitter::Point::new(e.old_end_point.row, e.old_end_point.column),
        new_end_position: tree_sitter::Point::new(e.new_end_point.row, e.new_end_point.column),
    });
}

/// Why the parser or the queries could not be set up.
#[derive(Clone, Copy, Debug, PartialEq, Eq, Structural)]
pub enum SetupError {
    /// The grammar was built for another version of tree-sitter.
    Language,
    /// A query does not fit the grammar.
    Query,
}

/// The last target of a `FROM` clause, and the `SELECT` keyword.
pub const CONTEXT_QUERY: &'static str = "(from_clause (value) @target_options . ) (keyword_select) @select_options";

/// Nodes that the parser produced to recover from an error.
pub const ERROR_QUERY: &'static str = "(ERROR) @start";

/// The `SELECT` keyword and the node right after it.
pub const SELECT_NEIGHBOR_QUERY: &'static str = "((keyword_select) @select . (_) @neighbor)";

/// The `SELECT` keyword.
pub const SELECT_QUERY: &'static str = "(keyword_select) @select";

/// Every single-word keyword that has documentation (the grammar splits
/// `GROUP BY` and `ORDER BY` into two keywords each, so hover leaves them out).
pub const KEYWORD_QUERY: &'static str = "[(keyword_explain) (keyword_from) (keyword_limit) (keyword_only) (keyword_parallel) (keyword_select) (keyword_split) (keyword_timeout) (keyword_value) (keyword_where) (keyword_with)] @keywords";

/// The patterns that the library compiles, one per query.
pub open spec fn query_patterns() -> Seq<Seq<char>> {
    seq![CONTEXT_QUERY@, ERROR_QUERY@, SELECT_NEIGHBOR_QUERY@, SELECT_QUERY@, KEYWORD_QUERY@]
}

/// Whether `s` is one of the library's patterns.
pub open spec fn is_query_pattern(s: Seq<char>) -> bool {
    query_patterns().contains(s)
}

/// The compiled queries, built once and shared by every request.
pub struct Queries {
    pub(crate) context: tree_sitter::Query,
    pub(crate) context_names: Vec<String>,
    pub(crate) errors: tree_sitter::Query,
    pub(crate) neighbors: tree_sitter::Query,
    pub(crate) selects: tree_sitter::Query,
    pub(crate) keywords: tree_sitter::Query,
    pub(crate) sources: Ghost<Seq<Seq<char>>>,
}

fn compile(source: &str) -> (r: tree_sitter::Query)
    requires
        is_query_pattern(source@),
{
    compile_query(source).unwrap()
}

impl Queries {
    /// The capture names of the clause query, by capture index.
    pub closed spec fn clause_names(&self) -> Seq<Seq<char>> {
        self.context_names@.map_values(|s: String| s@)
    }

    /// The names seen through `clause_names` are those the queries hold.
    pub(crate) proof fn lemma_clause_names(&self)
        ensures
            self.clause_names() == self.context_names@.map_values(|s: String| s@),
    {
    }

    /// The patterns that the clause, error, gap, same-line and keyword
    /// queries were compiled from, in that order.
    pub closed spec fn patterns(&self) -> Seq<Seq<char>> {
        self.sources@
    }

    /// Compiles every query against the SurrealQL grammar; this always
    /// succeeds.
    pub fn new() -> (r: Result<Queries, SetupError>)
        ensures
            r matches Ok(q) && q.patterns() == query_patterns(),
    {
        let context = compile(CONTEXT_QUERY);
        let context_names = capture_names(&context);
        let errors = compile(ERROR_QUERY);
        let neighbors = compile(SELECT_NEIGHBOR_QUERY);
        let selects = compile(SELECT_QUERY);
        let keywords = compile(KEYWORD_QUERY);
        let sources = Ghost(query_patterns());
        Ok(Queries { context, context_names, errors, neighbors, selects, keywords, sources })
    }
}

/// A parser set to the SurrealQL grammar. The grammar suits this tree-sitter
/// library, so this always succeeds.
pub fn initialise_parser() -> (r: Result<tree_sitter::Parser, SetupError>)
    ensures
        r is Ok,
{
    let mut parser = new_parser();
    match set_surrealql_language(&mut parser) {
        Ok(()) => Ok(parser),
        Err(_) => Err(SetupError::Language),
    }
}

/// The matches of `query` over the whole tree.
pub(crate) fn matches_in_document(query: &tree_sitter::Query, tree: &tree_sitter::Tree, text: &str) -> Vec<Vec<Capture>> {
    let mut cursor = new_query_cursor();
    run_query(&mut cursor, query, tree, text.as_bytes())
}

/// The matches of `query` on line `row` only.
pub(crate) fn matches_on_line(query: &tree_sitter::Query, tree: &tree_sitter::Tree, text: &str, row: usize) -> Vec<Vec<Capture>> {
    let mut cursor = new_query_cursor();
    set_point_range(&mut cursor, Point { row, column: 0 }, Point { row, column: usize::MAX });
    run_query(&mut cursor, query, tree, text.as_bytes())
}

/// Parses `text` into `tree`, reusing the previous tree where it can.
pub(crate) fn reparse(parser: &mut tree_sitter::Parser, tree: &mut Option<tree_sitter::Tree>, text: &str) {
    let parsed = parse_text(parser, text, tree.as_ref());
    *tree = parsed;
}

} // verus!
