use surrealql_lsp::{
    completion_context, context_of_label, find_keyword_at_position, get_completion_for_context,
    get_completion_for_errors, get_completion_for_select, get_completion_for_select_neighbors,
    load_kw_docs, options_for, Capture, CompletionContext, Point,
};

fn cap(index: usize, r0: usize, c0: usize, r1: usize, c1: usize, text: Option<&str>) -> Capture {
    Capture {
        index,
        start: Point { row: r0, column: c0 },
        end: Point { row: r1, column: c1 },
        text: text.map(|t| t.to_string()),
    }
}

fn names() -> Vec<String> {
    vec!["target_options".to_string(), "select_options".to_string()]
}

#[test]
fn option_lists_are_fixed() {
    assert_eq!(
        options_for(CompletionContext::TargetOptions),
        vec!["WHERE", "SPLIT", "WITH", "GROUP BY", "LIMIT", "ORDER BY", "TIMEOUT", "EXPLAIN", "PARALLEL"]
    );
    assert_eq!(options_for(CompletionContext::SelectOptions), vec!["VALUE"]);
    assert_eq!(options_for(CompletionContext::SelectStatementStart), vec!["VALUE"]);
}

#[test]
fn labels_map_to_contexts() {
    assert_eq!(context_of_label(&"target_options".to_string()), Some(CompletionContext::TargetOptions));
    assert_eq!(context_of_label(&"select_options".to_string()), Some(CompletionContext::SelectOptions));
    assert_eq!(context_of_label(&"select".to_string()), None);
}

#[test]
fn last_containing_capture_wins() {
    // SELECT at 0..6, target `person` at 14..20, cursor at 21.
    let matches = vec![vec![cap(1, 0, 0, 0, 6, None)], vec![cap(0, 0, 14, 0, 20, None)]];
    assert_eq!(
        get_completion_for_context(&matches, &names(), 0, 21),
        Some(CompletionContext::TargetOptions)
    );
    // In the other order the select capture is visited last and wins.
    let swapped = vec![vec![cap(0, 0, 14, 0, 20, None)], vec![cap(1, 0, 0, 0, 6, None)]];
    assert_eq!(
        get_completion_for_context(&swapped, &names(), 0, 21),
        Some(CompletionContext::SelectOptions)
    );
}

#[test]
fn clause_stage_with_no_containing_capture() {
    let matches = vec![vec![cap(0, 1, 0, 1, 4, None)]];
    assert_eq!(get_completion_for_context(&matches, &names(), 0, 3), None);
    assert_eq!(get_completion_for_context(&vec![], &names(), 0, 3), None);
}

#[test]
fn unknown_capture_index_gives_nothing() {
    let matches = vec![vec![cap(7, 0, 0, 0, 6, None)]];
    assert_eq!(get_completion_for_context(&matches, &names(), 0, 3), None);
}

#[test]
fn error_stage_needs_a_containing_node() {
    let errors = vec![vec![cap(0, 0, 0, 0, 6, None)]];
    assert!(get_completion_for_errors(&errors, 0, 3));
    assert!(!get_completion_for_errors(&errors, 1, 3));
    assert!(!get_completion_for_errors(&vec![], 0, 3));
}

#[test]
fn gap_stage_is_strictly_between() {
    // SELECT ends at 6, the neighbour starts at 9.
    let pairs = vec![vec![cap(0, 0, 0, 0, 6, None), cap(1, 0, 9, 0, 10, None)]];
    assert!(get_completion_for_select_neighbors(&pairs, 0, 7));
    assert!(!get_completion_for_select_neighbors(&pairs, 0, 6));
    assert!(!get_completion_for_select_neighbors(&pairs, 0, 9));
    let single = vec![vec![cap(0, 0, 0, 0, 6, None)]];
    assert!(!get_completion_for_select_neighbors(&single, 0, 7));
}

#[test]
fn same_line_stage_needs_select_before_cursor() {
    let selects = vec![vec![cap(0, 0, 0, 0, 6, None)]];
    assert!(get_completion_for_select(&selects, 0, 7));
    assert!(!get_completion_for_select(&selects, 0, 6));
}

#[test]
fn clause_context_beats_error_fallback() {
    let clause = vec![vec![cap(0, 0, 14, 0, 20, None)]];
    let errors = vec![vec![cap(0, 0, 0, 0, 25, None)]];
    assert_eq!(
        completion_context(&clause, &names(), &errors, &vec![], &vec![], 0, 18),
        Some(CompletionContext::TargetOptions)
    );
}

#[test]
fn later_stages_fall_back_to_value() {
    let errors = vec![vec![cap(0, 0, 0, 0, 25, None)]];
    assert_eq!(
        completion_context(&vec![], &names(), &errors, &vec![], &vec![], 0, 18),
        Some(CompletionContext::SelectStatementStart)
    );
    let selects = vec![vec![cap(0, 0, 0, 0, 6, None)]];
    assert_eq!(
        completion_context(&vec![], &names(), &vec![], &vec![], &selects, 0, 7),
        Some(CompletionContext::SelectStatementStart)
    );
    assert_eq!(completion_context(&vec![], &names(), &vec![], &vec![], &vec![], 0, 7), None);
}

#[test]
fn first_enveloping_keyword_is_found() {
    let matches = vec![
        vec![cap(0, 0, 0, 0, 6, Some("SELECT"))],
        vec![cap(0, 0, 9, 0, 13, Some("FROM"))],
        vec![cap(0, 0, 21, 0, 26, Some("WHERE"))],
    ];
    assert_eq!(find_keyword_at_position(&matches, 0, 23), Some("WHERE".to_string()));
    assert_eq!(find_keyword_at_position(&matches, 0, 13), Some("FROM".to_string()));
    assert_eq!(find_keyword_at_position(&matches, 0, 17), None);
    assert_eq!(find_keyword_at_position(&matches, 1, 3), None);
}

#[test]
fn keyword_without_text_gives_nothing() {
    let matches = vec![vec![cap(0, 0, 0, 0, 6, None), cap(0, 0, 0, 0, 6, Some("SELECT"))]];
    assert_eq!(find_keyword_at_position(&matches, 0, 3), None);
}

#[test]
fn keyword_docs_cover_the_keywords() {
    let docs = load_kw_docs();
    for k in ["EXPLAIN", "FROM", "GROUP BY", "LIMIT", "ONLY", "ORDER BY", "PARALLEL", "SELECT", "SPLIT", "TIMEOUT", "VALUE", "WHERE", "WITH"] {
        assert!(docs.get(&k.to_string()).is_some(), "{}", k);
    }
    assert!(docs.get(&"FETCH".to_string()).is_none());
    assert!(docs.get(&"where".to_string()).is_none());
}
