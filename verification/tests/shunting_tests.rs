use geqslib::context::{new_context, Context, Token};
use geqslib::errors::{EngineError, EquationSolverError, ShuntingYardError};
use geqslib::shunting::{get_legal_variables_iter, prec_check, precedence, punctuate, rpnify, to_words};
use geqslib::split_equation;

#[test]
fn test_punctuate() {
    let my_expr = "3+4";
    let punctuated = punctuate(my_expr);
    assert_eq!(punctuated, "3 + 4");

    let tokens = Vec::from_iter(punctuated.split(' '));
    assert_eq!(tokens, vec!["3", "+", "4"])
}

#[test]
fn test_rpnify() {
    let ctx = Context::new();
    let rpn = rpnify("3+4", &ctx).unwrap();
    assert_eq!(
        rpn,
        vec![
            Token::Num(3.0f64.to_bits()),
            Token::Num(4.0f64.to_bits()),
            Token::Plus
        ]
    )
}

#[test]
fn test_unary_minus() {
    let ctx = new_context();
    let rpn = rpnify("sin(-1 + 2 + 2 + 0.14)", &ctx).unwrap();

    assert_eq!(rpn[0], Token::Num((-1.0f64).to_bits()));
}

#[test]
fn punctuate_pads_parentheses_and_commas() {
    assert_eq!(punctuate("(3+4)"), "( 3 + 4 )");
    assert_eq!(punctuate("log(8,2)"), "log ( 8 , 2 )");
    assert_eq!(punctuate("  3*4 "), "3 * 4");
}

#[test]
fn to_words_drops_empty_words() {
    let words = to_words("( 3  +  4 )");
    assert_eq!(words, vec!["(", "3", "+", "4", ")"]);
    let none: Vec<String> = Vec::new();
    assert_eq!(to_words("   "), none);
}

#[test]
fn precedence_table_matches_the_operators() {
    assert_eq!(precedence("^"), 4);
    assert_eq!(precedence("*"), 3);
    assert_eq!(precedence("/"), 3);
    assert_eq!(precedence("+"), 2);
    assert_eq!(precedence("-"), 2);
    assert_eq!(precedence("("), 1);
}

#[test]
fn prec_check_is_right_associative_for_exponent() {
    // equal precedence pops for every operator but `^`
    assert!(prec_check("+", "-"));
    assert!(!prec_check("^", "^"));
    assert!(prec_check("+", "*"));
    assert!(!prec_check("*", "+"));
    assert!(!prec_check("*", "("));
}

#[test]
fn legal_variables_are_maximal_identifier_runs() {
    let vars = get_legal_variables_iter("x + y - snake_case_1 / CamelCase2");
    assert!(vars.contains(&"x".to_string()));
    assert!(vars.contains(&"y".to_string()));
    assert!(vars.contains(&"snake_case_1".to_string()));
    assert!(vars.contains(&"CamelCase2".to_string()));
    assert_eq!(vars.len(), 4);

    // a digit cannot start an identifier, but may continue one
    let vars = get_legal_variables_iter("9abc + de9f");
    assert_eq!(vars, vec!["abc".to_string(), "de9f".to_string()]);
}

#[test]
fn unclosed_parenthesis_is_rejected() {
    let ctx = Context::new();
    assert_eq!(
        rpnify("(3+4", &ctx),
        Err(ShuntingYardError::UnclosedParenthesis)
    );
    assert_eq!(
        rpnify("3+4)", &ctx),
        Err(ShuntingYardError::UnclosedParenthesis)
    );
}

#[test]
fn unknown_words_are_rejected() {
    let ctx = Context::new();
    assert_eq!(rpnify("3 + q", &ctx), Err(ShuntingYardError::UnknownToken));
}

#[test]
fn an_equation_splits_on_exactly_one_equals_sign() {
    let (lhs, rhs) = split_equation("x + 4 = 12").unwrap();
    assert_eq!(lhs, "x + 4 ");
    assert_eq!(rhs, " 12");
    assert_eq!(
        split_equation("a=b=c"),
        Err(EngineError::Equation(
            EquationSolverError::FoundMultipleEquations
        ))
    );
    assert_eq!(
        split_equation("a + b"),
        Err(EngineError::Equation(EquationSolverError::FoundExpression))
    );
}
