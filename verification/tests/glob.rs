use hackline_gateway::glob::{glob_match, glob_match_pub};

#[test]
fn globs() {
    assert!(glob_match("*", "anything"));
    assert!(glob_match("graph.*", "graph.x"));
    assert!(!glob_match("graph.*", "audit.x"));
    assert!(glob_match("a.b.c", "a.b.c"));
}

#[test]
fn glob_question_mark_and_empty() {
    assert!(glob_match_pub("a?c", "abc"));
    assert!(!glob_match_pub("a?c", "ac"));
    assert!(glob_match_pub("*", ""));
    assert!(!glob_match_pub("", "x"));
    assert!(glob_match_pub("*.*", "a.b"));
}

#[test]
fn glob_star_stays_within_one_segment() {
    assert!(!glob_match_pub("graph.*", "graph.a.b"));
    assert!(glob_match_pub("graph.*.*", "graph.a.b"));
    assert!(glob_match_pub("graph.*", "graph."));
    assert!(!glob_match("*", "a.b"));
    assert!(glob_match("a?b", "a.b"));
}
