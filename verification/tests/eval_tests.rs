use geqslib::compile::{compile_to_fn, compile_to_fn_of_hashmap};
use geqslib::context::{new_context, Context};
use geqslib::errors::{CompiledExpressionLookupError, EngineError, ExpressionCompilationError, ShuntingYardError};
use geqslib::eval::{eval_str, eval_str_with_context, EvalStep, Evaluation, HostCall, HostFn1, HostFn2};
use geqslib::fp::{f64_eq, f64_le, f64_lt, f64_round_as_u64};
use geqslib::variable::Variable;

fn host_op1(f: HostFn1, x: u64) -> u64 {
    let v = f64::from_bits(x);
    let r = match f {
        HostFn1::Sin => v.sin(),
        HostFn1::Cos => v.cos(),
        HostFn1::Tan => v.tan(),
        HostFn1::Arcsin => v.asin(),
        HostFn1::Arccos => v.acos(),
        HostFn1::Arctan => v.atan(),
        HostFn1::Sinh => v.sinh(),
        HostFn1::Cosh => v.cosh(),
        HostFn1::Tanh => v.tanh(),
        HostFn1::Ln => v.ln(),
        HostFn1::Log10 => v.log10(),
        HostFn1::Sqrt => v.sqrt(),
    };
    r.to_bits()
}

fn host_op2(f: HostFn2, a: u64, b: u64) -> u64 {
    let x = f64::from_bits(a);
    let y = f64::from_bits(b);
    let r = match f {
        HostFn2::Pow => x.powf(y),
        HostFn2::Log => x.log(y),
    };
    r.to_bits()
}

fn run_eval(m: &mut Evaluation, ctx: &Context) -> Result<f64, ShuntingYardError> {
    loop {
        match m.advance(ctx) {
            EvalStep::Host(HostCall::Op1(f, x)) => m.resume(host_op1(f, x)),
            EvalStep::Host(HostCall::Op2(f, a, b)) => m.resume(host_op2(f, a, b)),
            EvalStep::Host(_) => panic!("the evaluator asked for matrix work"),
            EvalStep::Finished(v) => return Ok(f64::from_bits(v)),
            EvalStep::Failed(e) => return Err(e),
        }
    }
}

fn eval(expr: &str) -> Result<f64, ShuntingYardError> {
    let (ctx, mut m) = eval_str(expr)?;
    run_eval(&mut m, &ctx)
}

#[test]
fn test_eval_str() {
    let my_expr = "sin(-1 + 2 + 2 + 0.14)";
    let about_zero = eval(my_expr).unwrap().abs();

    assert!(about_zero < 0.01)
}

#[test]
fn test_eval() {
    let mut ctx = Context::new();
    ctx.add_const_to_ctx("x", 0.0f64.to_bits());
    let mut m = eval_str_with_context("3 + 4 + x", &ctx).unwrap();
    let ans = run_eval(&mut m, &ctx).unwrap();
    assert_eq!(ans, 7.0);
}

#[test]
fn compiling_binds_a_variable_and_evaluates_exactly() {
    let mut ctx = Context::new();
    ctx.add_var_to_ctx("x", 1.0f64.to_bits());
    let f = compile_to_fn("x+4", &ctx).unwrap();
    let mut m = f.begin(8.0f64.to_bits(), &mut ctx);
    let y = run_eval(&mut m, &ctx).unwrap();
    assert_eq!(y, 12.0);
}

#[test]
fn a_compiled_expression_reuses_its_bound_cell() {
    let mut ctx = Context::new();
    ctx.add_var_to_ctx("x", 1.0f64.to_bits());
    // both occurrences of x read the same shared cell
    let f = compile_to_fn("x + x", &ctx).unwrap();
    let mut m = f.begin(4.0f64.to_bits(), &mut ctx);
    assert_eq!(run_eval(&mut m, &ctx).unwrap(), 8.0);
    let mut m = f.begin(2.5f64.to_bits(), &mut ctx);
    assert_eq!(run_eval(&mut m, &ctx).unwrap(), 5.0);
}

#[test]
fn a_named_mapping_expression_takes_its_inputs_by_name() {
    let mut ctx = Context::new();
    ctx.add_var_to_ctx("x", 4.0f64.to_bits());
    ctx.add_var_to_ctx("y", 2.0f64.to_bits());
    let f = compile_to_fn_of_hashmap("x + 4 * y", &ctx).unwrap();
    let inputs = vec![
        ("x".to_string(), 8.0f64.to_bits()),
        ("y".to_string(), 0.5f64.to_bits()),
    ];
    let mut m = f.begin(&inputs, &mut ctx).unwrap();
    assert_eq!(run_eval(&mut m, &ctx).unwrap(), 10.0);
}

#[test]
fn a_mapping_with_an_unbound_name_is_rejected() {
    let mut ctx = Context::new();
    ctx.add_var_to_ctx("x", 4.0f64.to_bits());
    let f = compile_to_fn_of_hashmap("x + 1", &ctx).unwrap();
    let inputs = vec![("z".to_string(), 8.0f64.to_bits())];
    assert_eq!(
        f.begin(&inputs, &mut ctx).err(),
        Some(EngineError::Lookup(CompiledExpressionLookupError))
    );
}

#[test]
fn compilation_rejects_the_wrong_variable_counts() {
    // no variable cell bound at all
    let mut ctx = Context::new();
    ctx.add_const_to_ctx("x", 1.0f64.to_bits());
    assert_eq!(
        compile_to_fn("x + 1", &ctx).err(),
        Some(EngineError::Compilation(ExpressionCompilationError::NoVarsFound))
    );

    // two variable cells bound where exactly one is allowed
    let mut ctx = Context::new();
    ctx.add_var_to_ctx("x", 1.0f64.to_bits());
    ctx.add_var_to_ctx("y", 1.0f64.to_bits());
    assert_eq!(
        compile_to_fn("x + 1", &ctx).err(),
        Some(EngineError::Compilation(ExpressionCompilationError::WrongVarCount))
    );

    // an identifier the context does not know
    let ctx = Context::new();
    assert_eq!(
        compile_to_fn_of_hashmap("x + q", &ctx).err(),
        Some(EngineError::Compilation(ExpressionCompilationError::VarNotFoundInContext))
    );
}

#[test]
fn division_by_zero_is_an_error_not_infinity() {
    assert_eq!(eval("1 / 0"), Err(ShuntingYardError::DivisionByZero));
    assert_eq!(eval("1 / (2 - 2)"), Err(ShuntingYardError::DivisionByZero));
    // a negative zero divisor is a zero divisor too
    assert_eq!(eval("1 / (0 * (0-1))"), Err(ShuntingYardError::DivisionByZero));
}

#[test]
fn stack_discipline_errors_are_reported() {
    assert_eq!(eval(""), Err(ShuntingYardError::NoTokens));
    assert_eq!(eval("3 4"), Err(ShuntingYardError::LeftoverToken));
    assert_eq!(eval("sin()"), Err(ShuntingYardError::ExpectedArg));
}

#[test]
fn arithmetic_operators_evaluate_exactly() {
    assert_eq!(eval("7 - 2").unwrap(), 5.0);
    assert_eq!(eval("6 * 7").unwrap(), 42.0);
    assert_eq!(eval("10 / 4").unwrap(), 2.5);
    assert_eq!(eval("0.14").unwrap(), 0.14);
    assert_eq!(eval("2 ^ 10").unwrap(), 1024.0);
    assert_eq!(eval("2 + 3 * 4").unwrap(), 14.0);
    assert_eq!(eval("(2 + 3) * 4").unwrap(), 20.0);
    assert_eq!(eval("2 ^ 3 ^ 2").unwrap(), 512.0);
    assert_eq!(eval("-3 + 10").unwrap(), 7.0);
}

#[test]
fn builtin_functions_evaluate() {
    assert_eq!(eval("abs(0 - 5)").unwrap(), 5.0);
    assert_eq!(eval("log(100, 10)").unwrap(), 2.0);
    assert_eq!(eval("log10(1000)").unwrap(), 3.0);
    assert!((eval("ln(e)").unwrap() - 1.0).abs() < 1e-12);
    assert!(eval("sin(pi)").unwrap().abs() < 1e-12);
    assert!((eval("cosh(0)").unwrap() - 1.0).abs() < 1e-12);
}

#[test]
fn the_conditional_function_picks_its_branch() {
    // if(a, op, b, then, else); op rounds to the comparison code
    assert_eq!(eval("if(1, 1, 1, 42, 7)").unwrap(), 42.0); // 1 == 1
    assert_eq!(eval("if(1, 2, 2, 42, 7)").unwrap(), 42.0); // 1 <= 2
    assert_eq!(eval("if(1, 3, 2, 42, 7)").unwrap(), 7.0); // 1 >= 2 is false
    assert_eq!(eval("if(6.5, 4, 2.5, 8, 9)").unwrap(), 9.0); // 6.5 < 2.5 is false
    assert_eq!(eval("if(6.5, 5, 2.5, 8, 9)").unwrap(), 8.0); // 6.5 > 2.5
    assert_eq!(eval("if(1, 0, 2, 42, 7)").unwrap(), 42.0); // default: 1 != 2
    assert_eq!(eval("if(1, 3.6, 2, 42, 7)").unwrap(), 42.0); // 3.6 rounds to 4: 1 < 2
}

#[test]
fn variable_set_clamps_into_the_domain() {
    let mut var = Variable::new(1.0f64.to_bits(), 0.0f64.to_bits(), 10.0f64.to_bits());
    var.set(11.0f64.to_bits());
    assert_eq!(f64::from_bits(var.value()), 10.0);
    var.set((-1.0f64).to_bits());
    assert_eq!(f64::from_bits(var.value()), 0.0);
    var.set(5.5f64.to_bits());
    assert_eq!(f64::from_bits(var.value()), 5.5);
}

#[test]
fn bit_level_comparisons_match_the_hardware() {
    let cases: [f64; 7] = [0.0, -0.0, 1.5, -1.5, f64::INFINITY, f64::NEG_INFINITY, f64::NAN];
    for &a in cases.iter() {
        for &b in cases.iter() {
            assert_eq!(f64_le(a.to_bits(), b.to_bits()), a <= b);
            assert_eq!(f64_lt(a.to_bits(), b.to_bits()), a < b);
            assert_eq!(f64_eq(a.to_bits(), b.to_bits()), a == b);
        }
    }
}

#[test]
fn bit_level_rounding_matches_the_hardware() {
    let cases: [f64; 12] = [
        0.0, 0.4, 0.5, 1.0, 2.5, 3.6, 4.0, -0.7, -2.5, 1.0e300, 4503599627370495.5, f64::NAN,
    ];
    for &x in cases.iter() {
        assert_eq!(f64_round_as_u64(x.to_bits()), x.round() as u64, "rounding {}", x);
    }
}

#[test]
fn the_default_context_holds_the_real_constants() {
    let ctx = new_context();
    assert_eq!(f64::from_bits(geqslib::context::F64_PI), std::f64::consts::PI);
    assert_eq!(f64::from_bits(geqslib::context::F64_E), std::f64::consts::E);
    let mut m = eval_str_with_context("pi", &ctx).unwrap();
    assert_eq!(run_eval(&mut m, &ctx).unwrap(), std::f64::consts::PI);
}

#[test]
fn compound_assignments_route_through_the_clamp() {
    let mut var = Variable::new(9.0f64.to_bits(), 0.0f64.to_bits(), 10.0f64.to_bits());
    var.add_assign(5.0f64.to_bits());
    assert_eq!(f64::from_bits(var.value()), 10.0); // 14 clamps to the max
    var.sub_assign(25.0f64.to_bits());
    assert_eq!(f64::from_bits(var.value()), 0.0); // -15 clamps to the min
    var.add_assign(2.0f64.to_bits());
    var.mul_assign(3.0f64.to_bits());
    assert_eq!(f64::from_bits(var.value()), 6.0);
    var.div_assign(4.0f64.to_bits());
    assert_eq!(f64::from_bits(var.value()), 1.5);
    var.mul_assign(100.0f64.to_bits());
    assert_eq!(f64::from_bits(var.value()), 10.0);
}
