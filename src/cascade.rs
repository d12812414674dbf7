use crate::geometry::{
    cursor_after, cursor_before, cursor_matches, is_within_cursor_range, spec_after, spec_before,
    spec_contains, spec_within, Point,
};
use vstd::prelude::*;

verus! {

/// One node captured by a query: the index of its capture name in the query,
/// its span, and its source text (absent when that text is not valid UTF-8).
pub struct Capture {
    pub index: usize,
    pub start: Point,
    pub end: Point,
    pub text: Option<String>,
}

/// The kinds of position that completion distinguishes.
#[derive(Clone, Copy, Debug, PartialEq, Eq, Structural)]
pub enum CompletionContext {
    /// Right after the target of a `FROM` clause.
    TargetOptions,
    /// On the `SELECT` keyword itself.
    SelectOptions,
    /// After `SELECT`, before anything that completes the statement.
    SelectStatementStart,
}

/// The options offered in each context, in order.
pub open spec fn context_options(ctx: CompletionContext) -> Seq<Seq<char>> {
    match ctx {
        CompletionContext::TargetOptions => seq![
            "WHERE"@,
            "SPLIT"@,
            "WITH"@,
            "GROUP BY"@,
            "LIMIT"@,
            "ORDER BY"@,
            "TIMEOUT"@,
            "EXPLAIN"@,
            "PARALLEL"@,
        ],
        CompletionContext::SelectOptions => seq!["VALUE"@],
        CompletionContext::SelectStatementStart => seq!["VALUE"@],
    }
}

/// The context that a capture name of the clause query stands for.
pub open spec fn label_context(name: Seq<char>) -> Option<CompletionContext> {
    if name == "target_options"@ {
        Some(CompletionContext::TargetOptions)
    } else if name == "select_options"@ {
        Some(CompletionContext::SelectOptions)
    } else {
        None
    }
}

/// The last capture of a match whose span contains the cursor.
pub open spec fn last_in_match(cs: Seq<Capture>, line: int, col: int) -> Option<Capture>
    decreases cs.len(),
{
    if cs.len() == 0 {
        None
    } else if spec_contains(line, col, cs.last().start, cs.last().end) {
        Some(cs.last())
    } else {
        last_in_match(cs.drop_last(), line, col)
    }
}

/// The last capture, over all matches in order, whose span contains the cursor.
pub open spec fn last_in_matches(ms: Seq<Seq<Capture>>, line: int, col: int) -> Option<Capture>
    decreases ms.len(),
{
    if ms.len() == 0 {
        None
    } else {
        match last_in_match(ms.last(), line, col) {
            Some(c) => Some(c),
            None => last_in_matches(ms.drop_last(), line, col),
        }
    }
}

/// The name of capture `index`, if the query has one.
pub open spec fn name_at(names: Seq<Seq<char>>, index: usize) -> Seq<char> {
    if index < names.len() {
        names[index as int]
    } else {
        seq![]
    }
}

/// Clause stage: the context named by the last capture that contains the cursor.
pub open spec fn clause_stage(ms: Seq<Seq<Capture>>, names: Seq<Seq<char>>, line: int, col: int) -> Option<
    CompletionContext,
> {
    match last_in_matches(ms, line, col) {
        Some(c) => label_context(name_at(names, c.index)),
        None => None,
    }
}

/// Some capture, in some match, contains the cursor.
pub open spec fn any_contains(ms: Seq<Seq<Capture>>, line: int, col: int) -> bool {
    exists|i: int, j: int|
        0 <= i < ms.len() && 0 <= j < ms[i].len() && #[trigger] spec_contains(
            line,
            col,
            ms[i][j].start,
            ms[i][j].end,
        )
}

/// Some match pairs a node that ends before the cursor with a following node
/// that starts after it.
pub open spec fn any_gap(ms: Seq<Seq<Capture>>, line: int, col: int) -> bool {
    exists|i: int|
        0 <= i < ms.len() && #[trigger] ms[i].len() >= 2 && spec_after(line, col, ms[i][0].end)
            && spec_before(line, col, ms[i][1].start)
}

/// Some capture, in some match, ends before the cursor.
pub open spec fn any_ends_before(ms: Seq<Seq<Capture>>, line: int, col: int) -> bool {
    exists|i: int, j: int|
        0 <= i < ms.len() && 0 <= j < ms[i].len() && #[trigger] spec_after(
            line,
            col,
            ms[i][j].end,
        )
}

/// The whole cascade: the clause stage, else an error region, else the gap
/// after `SELECT`, else a `SELECT` earlier on the cursor's line.
pub open spec fn cascade(
    clause: Seq<Seq<Capture>>,
    names: Seq<Seq<char>>,
    errors: Seq<Seq<Capture>>,
    neighbors: Seq<Seq<Capture>>,
    selects: Seq<Seq<Capture>>,
    line: int,
    col: int,
) -> Option<CompletionContext> {
    if clause_stage(clause, names, line, col) is Some {
        clause_stage(clause, names, line, col)
    } else if any_contains(errors, line, col) || any_gap(neighbors, line, col) || any_ends_before(
        selects,
        line,
        col,
    ) {
        Some(CompletionContext::SelectStatementStart)
    } else {
        None
    }
}

/// The first capture of a match whose single-line span envelops the cursor.
pub open spec fn first_in_match(cs: Seq<Capture>, line: int, col: int) -> Option<Capture>
    decreases cs.len(),
{
    if cs.len() == 0 {
        None
    } else if spec_within(cs[0].start, cs[0].end, line, col) {
        Some(cs[0])
    } else {
        first_in_match(cs.drop_first(), line, col)
    }
}

/// The first capture, over all matches in order, that envelops the cursor.
pub open spec fn first_in_matches(ms: Seq<Seq<Capture>>, line: int, col: int) -> Option<Capture>
    decreases ms.len(),
{
    if ms.len() == 0 {
        None
    } else {
        match first_in_match(ms[0], line, col) {
            Some(c) => Some(c),
            None => first_in_matches(ms.drop_first(), line, col),
        }
    }
}

/// The text of the keyword under the cursor, if one envelops it.
pub open spec fn keyword_at(ms: Seq<Seq<Capture>>, line: int, col: int) -> Option<Seq<char>> {
    match first_in_matches(ms, line, col) {
        Some(c) => match c.text {
            Some(t) => Some(t@),
            None => None,
        },
        None => None,
    }
}

/// The captures of each match.
pub open spec fn matches_view(ms: &Vec<Vec<Capture>>) -> Seq<Seq<Capture>> {
    ms@.map_values(|m: Vec<Capture>| m@)
}

/// The characters of each capture name.
pub open spec fn names_view(names: &Vec<String>) -> Seq<Seq<char>> {
    names@.map_values(|s: String| s@)
}

/// The options of a context, as strings.
pub fn options_for(ctx: CompletionContext) -> (r: Vec<String>)
    ensures
        r@.map_values(|s: String| s@) == context_options(ctx),
{
    let mut r: Vec<String> = Vec::new();
    match ctx {
        CompletionContext::TargetOptions => {
            r.push(String::from_str("WHERE"));
            r.push(String::from_str("SPLIT"));
            r.push(String::from_str("WITH"));
            r.push(String::from_str("GROUP BY"));
            r.push(String::from_str("LIMIT"));
            r.push(String::from_str("ORDER BY"));
            r.push(String::from_str("TIMEOUT"));
            r.push(String::from_str("EXPLAIN"));
            r.push(String::from_str("PARALLEL"));
        },
        _ => {
            r.push(String::from_str("VALUE"));
        },
    }
    assert(r@.map_values(|s: String| s@) =~= context_options(ctx));
    r
}

/// The context that capture name `name` stands for.
pub fn context_of_label(name: &String) -> (r: Option<CompletionContext>)
    ensures
        r == label_context(name@),
{
    let target = String::from_str("target_options");
    let select = String::from_str("select_options");
    if *name == target {
        Some(CompletionContext::TargetOptions)
    } else if *name == select {
        Some(CompletionContext::SelectOptions)
    } else {
        None
    }
}

/// Clause stage: among the captures that contain the cursor, the last one
/// visited decides, through its capture name.
pub fn get_completion_for_context(
    matches: &Vec<Vec<Capture>>,
    names: &Vec<String>,
    cursor_line: usize,
    cursor_char: usize,
) -> (r: Option<CompletionContext>)
    ensures
        r == clause_stage(matches_view(matches), names_view(names), cursor_line as int, cursor_char as int),
{
    let ghost ms = matches_view(matches);
    let ghost line = cursor_line as int;
    let ghost col = cursor_char as int;
    let mut last: Option<usize> = None;
    let mut i: usize = 0;
    while i < matches.len()
        invariant
            i <= matches@.len(),
            ms == matches_view(matches),
            line == cursor_line as int,
            col == cursor_char as int,
            match last_in_matches(ms.take(i as int), line, col) {
                Some(c) => last == Some(c.index),
                None => last is None,
            },
        decreases matches@.len() - i,
    {
        let m = &matches[i];
        let ghost prev = last_in_matches(ms.take(i as int), line, col);
        let mut j: usize = 0;
        while j < m.len()
            invariant
                i < matches@.len(),
                m == matches@[i as int],
                j <= m@.len(),
                ms == matches_view(matches),
                prev == last_in_matches(ms.take(i as int), line, col),
                line == cursor_line as int,
                col == cursor_char as int,
                match last_in_match(m@.take(j as int), line, col) {
                    Some(c) => last == Some(c.index),
                    None => match prev {
                        Some(c) => last == Some(c.index),
                        None => last is None,
                    },
                },
            decreases m@.len() - j,
        {
            assert(m@.take(j + 1).drop_last() =~= m@.take(j as int));
            assert(m@.take(j + 1).last() == m@[j as int]);
            let hit = cursor_matches(cursor_line, cursor_char, m[j].start, m[j].end);
            assert(hit == spec_contains(line, col, m@[j as int].start, m@[j as int].end));
            if hit {
                last = Some(m[j].index);
                assert(last_in_match(m@.take(j + 1), line, col) == Some(m@[j as int]));
            } else {
                assert(last_in_match(m@.take(j + 1), line, col) == last_in_match(m@.take(j as int), line, col));
            }
            j = j + 1;
        }
        assert(m@.take(j as int) =~= m@);
        assert(ms.take(i + 1).drop_last() =~= ms.take(i as int));
        assert(ms[i as int] == m@);
        i = i + 1;
    }
    assert(ms.take(i as int) =~= ms);
    match last {
        Some(index) => {
            if index < names.len() {
                assert(names_view(names)[index as int] == names@[index as int]@);
                context_of_label(&names[index])
            } else {
                proof {
                    reveal_strlit("target_options");
                    reveal_strlit("select_options");
                }
                assert(name_at(names_view(names), index) == Seq::<char>::empty());
                None
            }
        },
        None => None,
    }
}

/// Error stage: whether some error node contains the cursor.
pub fn get_completion_for_errors(matches: &Vec<Vec<Capture>>, cursor_line: usize, cursor_char: usize) -> (r: bool)
    ensures
        r == any_contains(matches_view(matches), cursor_line as int, cursor_char as int),
{
    let ghost ms = matches_view(matches);
    let mut i: usize = 0;
    while i < matches.len()
        invariant
            i <= matches@.len(),
            ms == matches_view(matches),
            forall|a: int, b: int|
                0 <= a < i && 0 <= b < ms[a].len() ==> !#[trigger] spec_contains(
                    cursor_line as int,
                    cursor_char as int,
                    ms[a][b].start,
                    ms[a][b].end,
                ),
        decreases matches@.len() - i,
    {
        let m = &matches[i];
        let mut j: usize = 0;
        while j < m.len()
            invariant
                i < matches@.len(),
                m == matches@[i as int],
                j <= m@.len(),
                ms == matches_view(matches),
                forall|a: int, b: int|
                    0 <= a < i && 0 <= b < ms[a].len() ==> !#[trigger] spec_contains(
                        cursor_line as int,
                        cursor_char as int,
                        ms[a][b].start,
                        ms[a][b].end,
                    ),
                forall|b: int|
                    0 <= b < j ==> !#[trigger] spec_contains(
                        cursor_line as int,
                        cursor_char as int,
                        m@[b].start,
                        m@[b].end,
                    ),
            decreases m@.len() - j,
        {
            if cursor_matches(cursor_line, cursor_char, m[j].start, m[j].end) {
                assert(ms[i as int][j as int] == m@[j as int]);
                return true;
            }
            j = j + 1;
        }
        i = i + 1;
    }
    false
}

/// Gap stage: whether the cursor lies strictly between `SELECT` and the node
/// right after it.
pub fn get_completion_for_select_neighbors(
    matches: &Vec<Vec<Capture>>,
    cursor_line: usize,
    cursor_char: usize,
) -> (r: bool)
    ensures
        r == any_gap(matches_view(matches), cursor_line as int, cursor_char as int),
{
    let ghost ms = matches_view(matches);
    let mut i: usize = 0;
    while i < matches.len()
        invariant
            i <= matches@.len(),
            ms == matches_view(matches),
            forall|a: int|
                0 <= a < i ==> !(#[trigger] ms[a].len() >= 2 && spec_after(
                    cursor_line as int,
                    cursor_char as int,
                    ms[a][0].end,
                ) && spec_before(cursor_line as int, cursor_char as int, ms[a][1].start)),
        decreases matches@.len() - i,
    {
        let m = &matches[i];
        assert(ms[i as int] == m@);
        if m.len() >= 2 {
            if cursor_after(cursor_line, cursor_char, m[0].end) && cursor_before(
                cursor_line,
                cursor_char,
                m[1].start,
            ) {
                return true;
            }
        }
        i = i + 1;
    }
    false
}

/// Same-line stage: whether some `SELECT` ends before the cursor.
pub fn get_completion_for_select(matches: &Vec<Vec<Capture>>, cursor_line: usize, cursor_char: usize) -> (r: bool)
    ensures
        r == any_ends_before(matches_view(matches), cursor_line as int, cursor_char as int),
{
    let ghost ms = matches_view(matches);
    let mut i: usize = 0;
    while i < matches.len()
        invariant
            i <= matches@.len(),
            ms == matches_view(matches),
            forall|a: int, b: int|
                0 <= a < i && 0 <= b < ms[a].len() ==> !#[trigger] spec_after(
                    cursor_line as int,
                    cursor_char as int,
                    ms[a][b].end,
                ),
        decreases matches@.len() - i,
    {
        let m = &matches[i];
        let mut j: usize = 0;
        while j < m.len()
            invariant
                i < matches@.len(),
                m == matches@[i as int],
                j <= m@.len(),
                ms == matches_view(matches),
                forall|a: int, b: int|
                    0 <= a < i && 0 <= b < ms[a].len() ==> !#[trigger] spec_after(
                        cursor_line as int,
                        cursor_char as int,
                        ms[a][b].end,
                    ),
                forall|b: int|
                    0 <= b < j ==> !#[trigger] spec_after(
                        cursor_line as int,
                        cursor_char as int,
                        m@[b].end,
                    ),
            decreases m@.len() - j,
        {
            if cursor_after(cursor_line, cursor_char, m[j].end) {
                assert(ms[i as int][j as int] == m@[j as int]);
                return true;
            }
            j = j + 1;
        }
        i = i + 1;
    }
    false
}

/// The text of the first keyword capture whose single-line span envelops the
/// cursor.
pub fn find_keyword_at_position(matches: &Vec<Vec<Capture>>, cursor_line: usize, cursor_character: usize) -> (r: Option<String>)
    ensures
        match r {
            Some(t) => keyword_at(matches_view(matches), cursor_line as int, cursor_character as int) == Some(t@),
            None => keyword_at(matches_view(matches), cursor_line as int, cursor_character as int) is None,
        },
{
    let ghost ms = matches_view(matches);
    let ghost line = cursor_line as int;
    let ghost col = cursor_character as int;
    assert(ms.subrange(0, ms.len() as int) =~= ms);
    let mut i: usize = 0;
    while i < matches.len()
        invariant
            i <= matches@.len(),
            ms == matches_view(matches),
            first_in_matches(ms, line, col) == first_in_matches(ms.subrange(i as int, ms.len() as int), line, col),
            line == cursor_line as int,
            col == cursor_character as int,
        decreases matches@.len() - i,
    {
        let m = &matches[i];
        let ghost rest = ms.subrange(i as int, ms.len() as int);
        assert(rest[0] == m@);
        assert(rest.drop_first() =~= ms.subrange(i + 1, ms.len() as int));
        assert(m@.subrange(0, m@.len() as int) =~= m@);
        let mut j: usize = 0;
        while j < m.len()
            invariant
                i < matches@.len(),
                m == matches@[i as int],
                j <= m@.len(),
                first_in_match(m@, line, col) == first_in_match(m@.subrange(j as int, m@.len() as int), line, col),
                ms == matches_view(matches),
                rest == ms.subrange(i as int, ms.len() as int),
                rest.len() > 0,
                rest[0] == m@,
                first_in_matches(ms, line, col) == first_in_matches(rest, line, col),
                line == cursor_line as int,
                col == cursor_character as int,
            decreases m@.len() - j,
        {
            let ghost tail = m@.subrange(j as int, m@.len() as int);
            assert(tail.drop_first() =~= m@.subrange(j + 1, m@.len() as int));
            assert(tail[0] == m@[j as int]);
            assert(tail.len() > 0);
            let hit = is_within_cursor_range(m[j].start, m[j].end, cursor_line, cursor_character);
            assert(hit == spec_within(m@[j as int].start, m@[j as int].end, line, col));
            if hit {
                assert(first_in_match(tail, line, col) == Some(m@[j as int]));
                assert(first_in_matches(rest, line, col) == Some(m@[j as int]));
                return match &m[j].text {
                    Some(t) => Some(t.clone()),
                    None => None,
                };
            }
            assert(first_in_match(tail, line, col) == first_in_match(tail.drop_first(), line, col));
            j = j + 1;
        }
        assert(m@.subrange(j as int, m@.len() as int) =~= seq![]);
        i = i + 1;
    }
    assert(ms.subrange(i as int, ms.len() as int) =~= seq![]);
    None
}

/// The cascade on the matches of its four queries: the first stage that
/// decides wins.
pub fn completion_context(
    clause: &Vec<Vec<Capture>>,
    names: &Vec<String>,
    errors: &Vec<Vec<Capture>>,
    neighbors: &Vec<Vec<Capture>>,
    selects: &Vec<Vec<Capture>>,
    cursor_line: usize,
    cursor_char: usize,
) -> (r: Option<CompletionContext>)
    ensures
        r == cascade(
            matches_view(clause),
            names_view(names),
            matches_view(errors),
            matches_view(neighbors),
            matches_view(selects),
            cursor_line as int,
            cursor_char as int,
        ),
{
    let c = get_completion_for_context(clause, names, cursor_line, cursor_char);
    if c.is_some() {
        c
    } else if get_completion_for_errors(errors, cursor_line, cursor_char) || get_completion_for_select_neighbors(neighbors, cursor_line, cursor_char)
        || get_completion_for_select(selects, cursor_line, cursor_char) {
        Some(CompletionContext::SelectStatementStart)
    } else {
        None
    }
}

/// The cascade is ordered: when the clause stage decides, its context is the
/// result, even where an error node, the gap after `SELECT` or an earlier
/// `SELECT` on the line would also match, and the fallback never comes out.
pub proof fn lemma_clause_stage_wins(
    clause: Seq<Seq<Capture>>,
    names: Seq<Seq<char>>,
    errors: Seq<Seq<Capture>>,
    neighbors: Seq<Seq<Capture>>,
    selects: Seq<Seq<Capture>>,
    line: int,
    col: int,
)
    requires
        clause_stage(clause, names, line, col) is Some,
    ensures
        cascade(clause, names, errors, neighbors, selects, line, col) == clause_stage(clause, names, line, col),
        cascade(clause, names, errors, neighbors, selects, line, col) != Some(CompletionContext::SelectStatementStart),
{
}

/// Later stages speak only when the earlier ones are silent: with no clause
/// context, an error node that contains the cursor gives the fallback.
pub proof fn lemma_error_stage_after_clause(
    clause: Seq<Seq<Capture>>,
    names: Seq<Seq<char>>,
    errors: Seq<Seq<Capture>>,
    neighbors: Seq<Seq<Capture>>,
    selects: Seq<Seq<Capture>>,
    line: int,
    col: int,
)
    requires
        clause_stage(clause, names, line, col) is None,
        any_contains(errors, line, col),
    ensures
        cascade(clause, names, errors, neighbors, selects, line, col) == Some(CompletionContext::SelectStatementStart),
{
}

} // verus!
