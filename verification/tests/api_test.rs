use postg::api::{is_read_query, is_read_query_text, json_agg_query};

#[test]
fn read_queries_are_recognised_after_trimming_and_uppercasing() {
    assert!(is_read_query("SELECT 1"));
    assert!(is_read_query("  select * from t\n"));
    assert!(is_read_query("\twith x as (select 1) select * from x"));
    assert!(is_read_query("explain select 1"));
    assert!(!is_read_query("INSERT INTO t VALUES (1)"));
    assert!(!is_read_query("create table t (id int)"));
    assert!(!is_read_query(""));
    assert!(!is_read_query("  -- comment\nSELECT 1"));
}

#[test]
fn read_query_text_checks_the_prefix_only() {
    assert!(is_read_query_text("SELECTX"));
    assert!(is_read_query_text("WITH"));
    assert!(!is_read_query_text("select"));
    assert!(!is_read_query_text(" SELECT"));
    assert!(!is_read_query_text("EXPLAI"));
}

#[test]
fn json_aggregation_wraps_the_query() {
    assert_eq!(
        json_agg_query("SELECT 1 AS a"),
        "SELECT json_agg(t) as result FROM (SELECT 1 AS a) as t"
    );
}

#[test]
fn unicode_white_space_is_trimmed_like_str_trim() {
    for q in ["\u{3000}select 1\u{2028}", "\u{a0}\u{85}with x", "\u{2009}explain\u{205f}"] {
        assert!(is_read_query(q));
        assert_eq!(is_read_query(q), q.trim().to_uppercase().starts_with("SELECT")
            || q.trim().to_uppercase().starts_with("WITH")
            || q.trim().to_uppercase().starts_with("EXPLAIN"));
    }
    // A zero-width space is not white space.
    assert!(!is_read_query("\u{200b}select 1"));
    assert!(!is_read_query("\u{200b}select 1".trim()));
}
