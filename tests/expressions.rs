use toasty::engine::{
    classify_message, evaluate_expression, has_call, has_division, has_imaginary_literal,
    is_blank, is_non_finite, resolve_outcome, ShuntingOutcome,
};
use toasty::text::starts_with_text;
use toasty::error::ExprError;

fn value(s: &str) -> String {
    evaluate_expression(s).unwrap()
}

#[test]
fn precedence_of_multiplication() {
    assert_eq!(value("2 + 3 * 4"), "14");
}

#[test]
fn parentheses_override_precedence() {
    assert_eq!(value("(2 + 3) * 4"), "20");
}

#[test]
fn unary_minus_binds_tighter_than_power() {
    assert_eq!(value("-2 ^ 2"), "4");
    assert_eq!(value("2 ^ -2"), "0.25");
}

#[test]
fn power_is_right_associative() {
    assert_eq!(value("2 ^ 3 ^ 2"), "512");
}

#[test]
fn subtraction_is_left_associative() {
    assert_eq!(value("10 - 4 - 3"), "3");
}

#[test]
fn fractional_literals() {
    assert_eq!(value("1.5 * 2"), "3");
}

#[test]
fn missing_closing_paren() {
    assert_eq!(evaluate_expression("(1 + 2"), Err(ExprError::UnbalancedParens));
}

#[test]
fn missing_opening_paren() {
    assert_eq!(evaluate_expression("1 + 2)"), Err(ExprError::UnbalancedParens));
}

#[test]
fn division_by_zero_is_refused() {
    assert_eq!(evaluate_expression("1 / 0"), Err(ExprError::DivisionByZero));
    assert_eq!(evaluate_expression("0 / 0"), Err(ExprError::DivisionByZero));
}

#[test]
fn overflow_is_refused() {
    assert_eq!(evaluate_expression("10 ^ 400"), Err(ExprError::NumericOverflow));
}

#[test]
fn unknown_function() {
    assert_eq!(
        evaluate_expression("foo(1)"),
        Err(ExprError::UnknownSymbol("foo".to_string()))
    );
}

#[test]
fn unknown_constant() {
    assert_eq!(
        evaluate_expression("2 * tau"),
        Err(ExprError::UnknownSymbol("tau".to_string()))
    );
}

#[test]
fn known_constant() {
    assert!(value("pi").starts_with("3.14159"));
}

#[test]
fn empty_input() {
    assert_eq!(evaluate_expression(""), Err(ExprError::EmptyExpression));
}

#[test]
fn blank_input() {
    assert_eq!(evaluate_expression("  \t "), Err(ExprError::EmptyExpression));
}

#[test]
fn empty_parentheses() {
    assert_eq!(evaluate_expression("()"), Err(ExprError::EmptyExpression));
}

#[test]
fn operator_without_operand() {
    assert_eq!(evaluate_expression("2 *"), Err(ExprError::MissingOperand));
}

#[test]
fn bad_token() {
    assert_eq!(evaluate_expression("2 # 3"), Err(ExprError::Lex("#".to_string())));
}

#[test]
fn evaluation_is_repeatable() {
    let a = evaluate_expression("1 / 3 + 2 ^ 0.5");
    let b = evaluate_expression("1 / 3 + 2 ^ 0.5");
    assert!(a.is_ok());
    assert_eq!(a, b);
}

#[test]
fn classify_each_message() {
    assert_eq!(classify_message("Missing Opening Paren"), ExprError::UnbalancedParens);
    assert_eq!(classify_message("Missing Closing Paren"), ExprError::UnbalancedParens);
    assert_eq!(classify_message("Bad token: $"), ExprError::Lex("$".to_string()));
    assert_eq!(
        classify_message("Unknown Variable: x"),
        ExprError::UnknownSymbol("x".to_string())
    );
    assert_eq!(
        classify_message("Unknown Function: f with 2 args"),
        ExprError::UnknownSymbol("f".to_string())
    );
    assert_eq!(
        classify_message("Missing args for function max"),
        ExprError::ArityMismatch("max".to_string())
    );
    assert_eq!(classify_message("Missing operands"), ExprError::MissingOperand);
    assert_eq!(classify_message("Failed to eval RPN: RPNExpr([])"), ExprError::EmptyExpression);
    assert_eq!(classify_message("Comma outside function arglist"), ExprError::UnexpectedToken);
}

#[test]
fn resolve_each_outcome() {
    let value = |t: &str| ShuntingOutcome::Value(t.to_string());
    assert_eq!(resolve_outcome("1 + 1", value("2")), Ok("2".to_string()));
    assert_eq!(resolve_outcome("1 / x", value("inf")), Err(ExprError::DivisionByZero));
    assert_eq!(resolve_outcome("7 % x", value("NaN")), Err(ExprError::DivisionByZero));
    assert_eq!(resolve_outcome("9 ^ x", value("-inf")), Err(ExprError::NumericOverflow));
    assert_eq!(
        resolve_outcome("1 +", ShuntingOutcome::EvalError("Missing operands".to_string())),
        Err(ExprError::MissingOperand)
    );
    assert_eq!(
        resolve_outcome("(1", ShuntingOutcome::ParseError("Missing Closing Paren".to_string())),
        Err(ExprError::UnbalancedParens)
    );
}

#[test]
fn text_scans() {
    assert!(is_blank(""));
    assert!(is_blank(" \n"));
    assert!(!is_blank(" 1 "));
    assert!(has_division("4 / 2"));
    assert!(has_division("4 % 2"));
    assert!(!has_division("4 * 2"));
    assert!(is_non_finite("inf"));
    assert!(!is_non_finite("infinity"));
    assert!(starts_with_text("Bad token: x", "Bad token: "));
    assert!(!starts_with_text("Bad", "Bad token: "));
}

#[test]
fn imaginary_literal_is_refused() {
    assert_eq!(evaluate_expression("2i + 1"), Err(ExprError::Lex("i".to_string())));
}

#[test]
fn random_distributions_are_refused() {
    assert_eq!(
        evaluate_expression("normal(0, -1)"),
        Err(ExprError::UnknownSymbol("normal".to_string()))
    );
    assert_eq!(
        evaluate_expression("uniform(1, 0)"),
        Err(ExprError::UnknownSymbol("uniform".to_string()))
    );
    assert_eq!(
        evaluate_expression("lognormal(0, -1)"),
        Err(ExprError::UnknownSymbol("lognormal".to_string()))
    );
}

#[test]
fn functions_of_the_evaluator() {
    assert_eq!(value("max(1, 7, 3)"), "7");
    assert_eq!(value("abs(-2.5)"), "2.5");
}

#[test]
fn more_scans() {
    assert!(has_imaginary_literal("3i"));
    assert!(!has_imaginary_literal("pi * 3"));
    assert!(!has_imaginary_literal("i3"));
    assert!(has_call("1 + rand(2)", "rand"));
    assert!(has_call("2normal(0, 1)", "normal"));
    assert!(!has_call("lognormal(0, 1)", "normal"));
    assert!(has_call("lognormal(0, 1)", "lognormal"));
    assert!(!has_call("operand", "rand"));
    assert!(!has_call("rand", "rand"));
    assert!(!has_call("rand (1)", "rand"));
}

#[test]
fn random_function_is_refused() {
    assert_eq!(
        evaluate_expression("rand(10)"),
        Err(ExprError::UnknownSymbol("rand".to_string()))
    );
}

#[test]
fn names_that_only_hold_a_refused_word() {
    assert_eq!(
        evaluate_expression("operand + 1"),
        Err(ExprError::UnknownSymbol("operand".to_string()))
    );
    assert_eq!(
        evaluate_expression("normalize(2)"),
        Err(ExprError::UnknownSymbol("normalize".to_string()))
    );
}

#[test]
fn domain_error_is_refused() {
    assert_eq!(evaluate_expression("log(-1)"), Err(ExprError::NumericOverflow));
}
