use vstd::prelude::*;

verus! {

/// A position in a document: a zero-based line and a zero-based byte column.
#[derive(Clone, Copy, Debug, PartialEq, Eq, Structural)]
pub struct Point {
    pub row: usize,
    pub column: usize,
}

/// The cursor lies inside a span, or next to it in a way that completion tolerates.
pub open spec fn spec_contains(line: int, col: int, start: Point, end: Point) -> bool {
    ||| (start.row < line && line < end.row)
    ||| (start.row == line && end.row == line && start.column <= col && col <= end.column)
    ||| (start.row == line && start.column <= col)
    ||| (end.row == line && end.column >= col)
}

/// The cursor comes strictly before a point, in (row, column) order.
pub open spec fn spec_before(line: int, col: int, p: Point) -> bool {
    line < p.row || (line == p.row && col < p.column)
}

/// The cursor comes strictly after a point, in (row, column) order.
pub open spec fn spec_after(line: int, col: int, p: Point) -> bool {
    line > p.row || (line == p.row && col > p.column)
}

/// The span lies on the cursor's line and its columns envelop the cursor.
pub open spec fn spec_within(start: Point, end: Point, line: int, col: int) -> bool {
    start.row == line && end.row == line && start.column <= col && col <= end.column
}

/// Permissive containment of the cursor in the span `[start, end]`.
pub fn cursor_matches(cursor_line: usize, cursor_char: usize, query_start: Point, query_end: Point) -> (r: bool)
    ensures
        r == spec_contains(cursor_line as int, cursor_char as int, query_start, query_end),
{
    // The span covers the cursor's line from above and below.
    if query_start.row < cursor_line && query_end.row > cursor_line {
        return true;
    }
    // A single-line span: both columns enclose the cursor.
    if cursor_line == query_start.row && cursor_line == query_end.row && query_start.column
        <= cursor_char && query_end.column >= cursor_char {
        return true;
    }
    // The span starts on the cursor's line, at or before the cursor.
    if cursor_line == query_start.row && query_start.column <= cursor_char {
        return true;
    }
    // The span ends on the cursor's line, at or after the cursor.
    if cursor_line == query_end.row && query_end.column >= cursor_char {
        return true;
    }
    false
}

/// Whether the cursor is strictly before `query_start`.
pub fn cursor_before(cursor_line: usize, cursor_char: usize, query_start: Point) -> (r: bool)
    ensures
        r == spec_before(cursor_line as int, cursor_char as int, query_start),
{
    cursor_line < query_start.row || (cursor_line == query_start.row && cursor_char
        < query_start.column)
}

/// Whether the cursor is strictly after `query_end`.
pub fn cursor_after(cursor_line: usize, cursor_char: usize, query_end: Point) -> (r: bool)
    ensures
        r == spec_after(cursor_line as int, cursor_char as int, query_end),
{
    cursor_line > query_end.row || (cursor_line == query_end.row && cursor_char > query_end.column)
}

/// Exact single-line envelope of the cursor, as hover uses it.
pub fn is_within_cursor_range(
    start_position: Point,
    end_position: Point,
    cursor_line: usize,
    cursor_character: usize,
) -> (r: bool)
    ensures
        r == spec_within(start_position, end_position, cursor_line as int, cursor_character as int),
{
    start_position.row == cursor_line && end_position.row == cursor_line && start_position.column
        <= cursor_character && end_position.column >= cursor_character
}

/// A cursor between the columns of a single-line span is contained in it,
/// both by the permissive test and by the exact envelope.
pub proof fn lemma_single_line_contains(start: Point, end: Point, line: int, col: int)
    requires
        start.row == line,
        end.row == line,
        start.column <= col <= end.column,
    ensures
        spec_contains(line, col, start, end),
        spec_within(start, end, line, col),
{
}

/// One column before the start, or one column after the end, of a single-line
/// span lies outside its exact envelope.
pub proof fn lemma_single_line_neighbors_outside(start: Point, end: Point, line: int)
    requires
        start.row == line,
        end.row == line,
    ensures
        !spec_within(start, end, line, start.column - 1),
        !spec_within(start, end, line, end.column + 1),
{
}

/// The permissive test accepts more than the span: one column before the
/// start, or one column after the end, of a single-line span is still taken
/// as contained, so that completion works next to a node.
pub proof fn lemma_contains_tolerates_neighbors(start: Point, end: Point, line: int)
    requires
        start.row == line,
        end.row == line,
        start.column <= end.column,
    ensures
        spec_contains(line, start.column - 1, start, end),
        spec_contains(line, end.column + 1, start, end),
{
}

/// Ordering is strict: a cursor is never both before and after the same point,
/// and a point is neither before nor after itself.
pub proof fn lemma_before_after_exclusive(line: int, col: int, p: Point)
    ensures
        !(spec_before(line, col, p) && spec_after(line, col, p)),
        !spec_before(p.row as int, p.column as int, p),
        !spec_after(p.row as int, p.column as int, p),
{
}

} // verus!
