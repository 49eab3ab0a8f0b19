use toasty::metas::get_result_metas;
use toasty::registry::Registry;
use toasty::text::same_text;
use toasty::search::{get_initial_resultset, get_subsearch_resultset, join_terms};
use toasty::error::ExprError;

fn terms(ts: &[&str]) -> Vec<String> {
    ts.iter().map(|t| t.to_string()).collect()
}

#[test]
fn join_with_single_spaces() {
    assert_eq!(join_terms(&terms(&["2", "+", "2"])), "2 + 2");
    assert_eq!(join_terms(&terms(&["7"])), "7");
    assert_eq!(join_terms(&terms(&[])), "");
}

#[test]
fn initial_search_twice_keeps_one_entry() {
    let mut reg = Registry::new();
    let first = get_initial_resultset(&mut reg, &terms(&["2", "+", "2"]));
    let second = get_initial_resultset(&mut reg, &terms(&["2", "+", "2"]));
    assert_eq!(first, vec!["2 + 2".to_string()]);
    assert_eq!(second, first);
    assert_eq!(reg.len(), 1);
    assert!(reg.is_known("2 + 2"));
}

#[test]
fn subsearch_ignores_previous_ids() {
    let mut reg = Registry::new();
    let ids = get_subsearch_resultset(&mut reg, &terms(&["1 + 1"]), &terms(&["3", "*", "3"]));
    assert_eq!(ids, vec!["3 * 3".to_string()]);
    assert!(reg.is_known("3 * 3"));
    assert!(!reg.is_known("1 + 1"));
    assert_eq!(reg.len(), 1);
}

#[test]
fn registry_remembers_distinct_expressions() {
    let mut reg = Registry::new();
    assert_eq!(reg.len(), 0);
    reg.remember("1".to_string());
    reg.remember("2".to_string());
    reg.remember("1".to_string());
    assert_eq!(reg.len(), 2);
    assert!(reg.is_known("2"));
    assert!(!reg.is_known("3"));
}

#[test]
fn text_equality() {
    assert!(same_text("abc", "abc"));
    assert!(!same_text("abc", "abd"));
    assert!(!same_text("ab", "abc"));
}

#[test]
fn result_metas_round_trip() {
    let metas = get_result_metas(&terms(&["2 + 2"])).unwrap();
    assert_eq!(metas.len(), 1);
    assert_eq!(metas[0].name, "4");
    assert_eq!(metas[0].id, "2 + 2");
    assert_eq!(metas[0].description, "2 + 2");
}

#[test]
fn result_metas_keep_order() {
    let metas = get_result_metas(&terms(&["1 + 1", "3 * 3"])).unwrap();
    assert_eq!(metas.len(), 2);
    assert_eq!(metas[0].name, "2");
    assert_eq!(metas[1].name, "9");
    assert_eq!(metas[1].id, "3 * 3");
}

#[test]
fn result_metas_fail_as_a_whole() {
    assert_eq!(
        get_result_metas(&terms(&["1 + 1", "(2", "1 / 0"])).err(),
        Some(ExprError::UnbalancedParens)
    );
}

#[test]
fn result_metas_of_no_ids() {
    assert_eq!(get_result_metas(&terms(&[])).unwrap().len(), 0);
}

#[test]
fn result_metas_repeat() {
    let ids = terms(&["1 / 3", "2 ^ 0.5"]);
    let a = get_result_metas(&ids).unwrap();
    let b = get_result_metas(&ids).unwrap();
    for (x, y) in a.iter().zip(b.iter()) {
        assert_eq!(x.name, y.name);
        assert_eq!(x.id, y.id);
        assert_eq!(x.description, y.description);
    }
}

#[test]
fn result_metas_first_error() {
    assert_eq!(get_result_metas(&terms(&[""])).err(), Some(ExprError::EmptyExpression));
    assert_eq!(get_result_metas(&terms(&["1 / 0"])).err(), Some(ExprError::DivisionByZero));
    assert_eq!(
        get_result_metas(&terms(&["2", "foo(1)", "(1"])).err(),
        Some(ExprError::UnknownSymbol("foo".to_string()))
    );
}
